//! Command buffers: their creation, the commands recorded in them, and the
//! memory that they reference.
use vstd::prelude::*;

use crate::device::Device;
use crate::ffi::{
    GR_CMD_BUFFER, GR_CMD_BUFFER_BUILD_FLAGS, GR_CMD_BUFFER_CREATE_INFO, GR_DEVICE, GR_IMAGE, GR_IMAGE_STATE, GR_IMAGE_STATE_TRANSITION, GR_IMAGE_SUBRESOURCE_RANGE, GR_IMAGE_ASPECT, GR_MEMORY_REF, GR_QUEUE_TYPE, GR_RESULT, color_range, color_range_spec,
};
use crate::object::ObjectDestruction;
use crate::presentable_image::{presentable_normal_state, PresentableImage};

verus! {

/// A clear color: the bit patterns (`f32::to_bits`) of its four channels.
#[derive(Debug, Clone, Copy, PartialEq, Eq, Structural)]
pub struct ClearColor {
    pub red: u32,
    pub green: u32,
    pub blue: u32,
    pub alpha: u32,
}

/// A command recorded in a command buffer. Each one is a single call of the
/// driver's recording entry points, with one transition or one range.
#[derive(Debug, Clone, Copy, PartialEq, Eq, Structural)]
pub enum Command {
    /// Moves an image from one state to another.
    PrepareImage { transition: GR_IMAGE_STATE_TRANSITION },
    /// Clears an image to a color.
    ClearColorImage { image: GR_IMAGE, color: ClearColor, range: GR_IMAGE_SUBRESOURCE_RANGE },
}

/// The state of `image` after a transition, from the state `s` it was in;
/// `None` once a step has found the image in a state that it did not expect.
pub open spec fn after_transition(
    t: GR_IMAGE_STATE_TRANSITION,
    image: GR_IMAGE,
    s: Option<GR_IMAGE_STATE>,
) -> Option<GR_IMAGE_STATE> {
    match s {
        None => None,
        Some(cur) => if t.image != image {
            Some(cur)
        } else if t.oldState == cur {
            Some(t.newState)
        } else {
            None
        },
    }
}

/// The state of `image` after a command: a transition moves it, a clear
/// leaves it as it is and expects it in the clear state.
pub open spec fn after_command(c: Command, image: GR_IMAGE, s: Option<GR_IMAGE_STATE>) -> Option<GR_IMAGE_STATE> {
    match c {
        Command::PrepareImage { transition } => after_transition(transition, image, s),
        Command::ClearColorImage { image: target, .. } => if target == image && s != Some(
            GR_IMAGE_STATE::GR_IMAGE_STATE_CLEAR,
        ) {
            None
        } else {
            s
        },
    }
}

/// The state of `image` after a sequence of commands, run from the state `s`.
pub open spec fn state_after(cmds: Seq<Command>, image: GR_IMAGE, s: Option<GR_IMAGE_STATE>) -> Option<GR_IMAGE_STATE>
    decreases cmds.len(),
{
    if cmds.len() == 0 {
        s
    } else {
        after_command(cmds.last(), image, state_after(cmds.drop_last(), image, s))
    }
}

/// Commands that find every image in the state the command expects and
/// leave every image in its normal state, when each image starts in it.
pub open spec fn restores_images(cmds: Seq<Command>) -> bool {
    forall|image: GR_IMAGE|
        #[trigger] state_after(cmds, image, Some(presentable_normal_state())) == Some(
            presentable_normal_state(),
        )
}

pub open spec fn transition_spec(image: GR_IMAGE, from: GR_IMAGE_STATE, to: GR_IMAGE_STATE) -> GR_IMAGE_STATE_TRANSITION {
    GR_IMAGE_STATE_TRANSITION { image, oldState: from, newState: to, subresourceRange: color_range_spec() }
}

/// The commands that clear `image`, whose normal state is `normal`: a move
/// to the clear state where it is not in it already, the clear, and a move
/// back.
pub open spec fn clear_commands(image: GR_IMAGE, normal: GR_IMAGE_STATE, color: ClearColor) -> Seq<Command> {
    let clear = Command::ClearColorImage { image, color, range: color_range_spec() };
    if normal != GR_IMAGE_STATE::GR_IMAGE_STATE_CLEAR {
        seq![
            Command::PrepareImage { transition: transition_spec(image, normal, GR_IMAGE_STATE::GR_IMAGE_STATE_CLEAR) },
            clear,
            Command::PrepareImage { transition: transition_spec(image, GR_IMAGE_STATE::GR_IMAGE_STATE_CLEAR, normal) },
        ]
    } else {
        seq![clear]
    }
}

/// Running two sequences one after the other is running their concatenation.
pub proof fn lemma_state_after_concat(a: Seq<Command>, b: Seq<Command>, image: GR_IMAGE, s: Option<GR_IMAGE_STATE>)
    ensures
        state_after(a + b, image, s) == state_after(b, image, state_after(a, image, s)),
    decreases b.len(),
{
    if b.len() == 0 {
        assert(a + b =~= a);
    } else {
        lemma_state_after_concat(a, b.drop_last(), image, s);
        assert((a + b).drop_last() =~= a + b.drop_last());
        assert((a + b).last() == b.last());
    }
}

/// The commands that clear an image leave it in its normal state when they
/// find it there, pass through the clear state for the clear, and leave
/// every other image as it is.
pub proof fn lemma_clear_commands_restore(
    image: GR_IMAGE,
    normal: GR_IMAGE_STATE,
    color: ClearColor,
    other: GR_IMAGE,
    s: Option<GR_IMAGE_STATE>,
)
    ensures
        state_after(clear_commands(image, normal, color), image, Some(normal)) == Some(normal),
        other != image ==> state_after(clear_commands(image, normal, color), other, s) == s,
{
    let cc = clear_commands(image, normal, color);
    reveal_with_fuel(state_after, 4);
    if normal != GR_IMAGE_STATE::GR_IMAGE_STATE_CLEAR {
        assert(cc.drop_last().drop_last().drop_last() =~= Seq::<Command>::empty());
        assert(cc.drop_last().drop_last().last() == cc[0]);
        assert(cc.drop_last().last() == cc[1]);
        assert(cc.last() == cc[2]);
    } else {
        assert(cc.drop_last() =~= Seq::<Command>::empty());
    }
}

/// Appending the commands that clear an image keeps a command sequence
/// restoring every image to its normal state.
proof fn lemma_clear_keeps_restoring(old_cmds: Seq<Command>, image: GR_IMAGE, color: ClearColor)
    requires
        restores_images(old_cmds),
    ensures
        restores_images(old_cmds + clear_commands(image, presentable_normal_state(), color)),
{
    let n = presentable_normal_state();
    let cc = clear_commands(image, n, color);
    assert forall|j: GR_IMAGE| #[trigger] state_after(old_cmds + cc, j, Some(n)) == Some(n) by {
        lemma_state_after_concat(old_cmds, cc, j, Some(n));
        assert(state_after(old_cmds, j, Some(n)) == Some(n));
        lemma_clear_commands_restore(image, n, color, j, Some(n));
    }
}

/// Whether a range covers mip level `mip` of array slice `slice`.
pub open spec fn covers(r: GR_IMAGE_SUBRESOURCE_RANGE, mip: int, slice: int) -> bool {
    &&& r.baseMipLevel <= mip < r.baseMipLevel + r.mipLevels
    &&& r.baseArraySlice <= slice < r.baseArraySlice + r.arraySize
}

/// The state of one subresource of `image` (mip level `mip` of array slice
/// `slice`) after a transition: only a transition of that image whose range
/// covers the subresource moves it.
pub open spec fn transition_at(
    t: GR_IMAGE_STATE_TRANSITION,
    image: GR_IMAGE,
    mip: int,
    slice: int,
    s: Option<GR_IMAGE_STATE>,
) -> Option<GR_IMAGE_STATE> {
    match s {
        None => None,
        Some(cur) => if t.image != image || !covers(t.subresourceRange, mip, slice) {
            Some(cur)
        } else if t.oldState == cur {
            Some(t.newState)
        } else {
            None
        },
    }
}

/// The state of one subresource after a command: a clear whose range covers
/// it expects it in the clear state.
pub open spec fn command_at(c: Command, image: GR_IMAGE, mip: int, slice: int, s: Option<GR_IMAGE_STATE>) -> Option<
    GR_IMAGE_STATE,
> {
    match c {
        Command::PrepareImage { transition } => transition_at(transition, image, mip, slice, s),
        Command::ClearColorImage { image: target, range, .. } => if target == image && covers(range, mip, slice)
            && s != Some(GR_IMAGE_STATE::GR_IMAGE_STATE_CLEAR) {
            None
        } else {
            s
        },
    }
}

/// The state of one subresource after a sequence of commands, run from `s`.
pub open spec fn state_at(cmds: Seq<Command>, image: GR_IMAGE, mip: int, slice: int, s: Option<GR_IMAGE_STATE>) -> Option<
    GR_IMAGE_STATE,
>
    decreases cmds.len(),
{
    if cmds.len() == 0 {
        s
    } else {
        command_at(cmds.last(), image, mip, slice, state_at(cmds.drop_last(), image, mip, slice, s))
    }
}

/// Commands that, subresource by subresource, find each one in the state the
/// command expects and leave it in its normal state, when it starts in it.
pub open spec fn restores_subresources(cmds: Seq<Command>) -> bool {
    forall|image: GR_IMAGE, mip: int, slice: int|
        #[trigger] state_at(cmds, image, mip, slice, Some(presentable_normal_state())) == Some(
            presentable_normal_state(),
        )
}

/// Command `c` clears subresource (`mip`, `slice`) of `image` to `color`.
pub open spec fn clear_of(c: Command, image: GR_IMAGE, mip: int, slice: int, color: ClearColor) -> bool {
    match c {
        Command::ClearColorImage { image: target, color: col, range } => target == image && col == color && covers(
            range,
            mip,
            slice,
        ),
        _ => false,
    }
}

/// Among `cmds`, run from `start`, there is a clear of subresource (`mip`,
/// `slice`) of `image` to `color`, made while that subresource is in the
/// clear state.
pub open spec fn clears_at(
    cmds: Seq<Command>,
    image: GR_IMAGE,
    mip: int,
    slice: int,
    color: ClearColor,
    start: GR_IMAGE_STATE,
) -> bool {
    exists|k: int|
        0 <= k < cmds.len() && #[trigger] clear_of(cmds[k], image, mip, slice, color) && state_at(
            cmds.take(k),
            image,
            mip,
            slice,
            Some(start),
        ) == Some(GR_IMAGE_STATE::GR_IMAGE_STATE_CLEAR)
}

/// Every clear in `cmds` clears `image` to `color` over the color range.
pub open spec fn only_clears(cmds: Seq<Command>, image: GR_IMAGE, color: ClearColor) -> bool {
    forall|k: int|
        0 <= k < cmds.len() && (#[trigger] cmds[k] is ClearColorImage) ==> cmds[k] == Command::ClearColorImage {
            image,
            color,
            range: GR_IMAGE_SUBRESOURCE_RANGE {
                aspect: GR_IMAGE_ASPECT::GR_IMAGE_ASPECT_COLOR,
                baseMipLevel: 0,
                mipLevels: 1,
                baseArraySlice: 0,
                arraySize: 1,
            },
        }
}

/// Running two sequences one after the other is running their
/// concatenation, subresource by subresource.
pub proof fn lemma_state_at_concat(
    a: Seq<Command>,
    b: Seq<Command>,
    image: GR_IMAGE,
    mip: int,
    slice: int,
    s: Option<GR_IMAGE_STATE>,
)
    ensures
        state_at(a + b, image, mip, slice, s) == state_at(b, image, mip, slice, state_at(a, image, mip, slice, s)),
    decreases b.len(),
{
    if b.len() == 0 {
        assert(a + b =~= a);
    } else {
        lemma_state_at_concat(a, b.drop_last(), image, mip, slice, s);
        assert((a + b).drop_last() =~= a + b.drop_last());
        assert((a + b).last() == b.last());
    }
}

/// Clearing a presentable image: the commands move mip level 0 of array
/// slice 0 of the image to the clear state, clear exactly that subresource
/// to the requested color (each channel the one asked for), and move it
/// back to its normal state; no other subresource and no other image is
/// touched, and no clear to another color or of another range is made.
pub proof fn law_clear_commands(image: GR_IMAGE, color: ClearColor, other: GR_IMAGE, mip: int, slice: int, s: Option<GR_IMAGE_STATE>)
    ensures
        clear_commands(image, presentable_normal_state(), color).len() == 3,
        clears_at(clear_commands(image, presentable_normal_state(), color), image, 0, 0, color, presentable_normal_state()),
        only_clears(clear_commands(image, presentable_normal_state(), color), image, color),
        state_at(clear_commands(image, presentable_normal_state(), color), image, 0, 0, Some(presentable_normal_state()))
            == Some(presentable_normal_state()),
        (other != image || mip != 0 || slice != 0) ==> state_at(
            clear_commands(image, presentable_normal_state(), color),
            other,
            mip,
            slice,
            s,
        ) == s,
{
    let n = presentable_normal_state();
    let cc = clear_commands(image, n, color);
    reveal_with_fuel(state_at, 4);
    assert(cc.drop_last().drop_last().drop_last() =~= Seq::<Command>::empty());
    assert(cc.drop_last().drop_last().last() == cc[0]);
    assert(cc.drop_last().last() == cc[1]);
    assert(cc.last() == cc[2]);
    assert(cc.take(1) =~= seq![cc[0]]);
    assert(seq![cc[0]].drop_last() =~= Seq::<Command>::empty());
    assert(clear_of(cc[1], image, 0, 0, color));
    assert(state_at(cc.take(1), image, 0, 0, Some(n)) == Some(GR_IMAGE_STATE::GR_IMAGE_STATE_CLEAR));
}

/// Appending the commands that clear an image keeps a command sequence
/// restoring every subresource to its normal state.
proof fn lemma_clear_keeps_restoring_subresources(old_cmds: Seq<Command>, image: GR_IMAGE, color: ClearColor)
    requires
        restores_subresources(old_cmds),
    ensures
        restores_subresources(old_cmds + clear_commands(image, presentable_normal_state(), color)),
{
    let n = presentable_normal_state();
    let cc = clear_commands(image, n, color);
    assert forall|j: GR_IMAGE, mip: int, slice: int| #[trigger] state_at(old_cmds + cc, j, mip, slice, Some(n)) == Some(n) by {
        lemma_state_at_concat(old_cmds, cc, j, mip, slice, Some(n));
        assert(state_at(old_cmds, j, mip, slice, Some(n)) == Some(n));
        law_clear_commands(image, color, j, mip, slice, Some(n));
    }
}

/// Prototype of a command buffer, in the recording state.
pub struct CommandBufferBuilder<'a> {
    device: &'a Device,
    cmd: GR_CMD_BUFFER,
    memory_refs: Vec<GR_MEMORY_REF>,
    commands: Vec<Command>,
    recorded: usize,
}

impl<'a> CommandBufferBuilder<'a> {
    #[verifier::type_invariant]
    spec fn wf(&self) -> bool {
        &&& restores_images(self.commands@)
        &&& restores_subresources(self.commands@)
        &&& self.recorded <= self.commands.len()
    }

    pub closed spec fn device(&self) -> GR_DEVICE {
        self.device.handle()
    }

    pub closed spec fn handle(&self) -> GR_CMD_BUFFER {
        self.cmd
    }

    pub closed spec fn memory_refs(&self) -> Seq<GR_MEMORY_REF> {
        self.memory_refs@
    }

    /// The commands recorded so far, in order.
    pub closed spec fn commands(&self) -> Seq<Command> {
        self.commands@
    }

    /// How many of the commands have been handed out to be recorded by the
    /// driver; the others follow them.
    pub closed spec fn handed_out(&self) -> nat {
        self.recorded as nat
    }

    /// Hands out the commands that have not been handed out yet, in order,
    /// for the driver to record; afterwards all of them have been.
    pub fn take_unrecorded(&mut self) -> (c: Vec<Command>)
        ensures
            old(self).handed_out() <= old(self).commands().len(),
            c@ == old(self).commands().skip(old(self).handed_out() as int),
            final(self).handed_out() == final(self).commands().len(),
            final(self).commands() == old(self).commands(),
            final(self).device() == old(self).device(),
            final(self).handle() == old(self).handle(),
            final(self).memory_refs() == old(self).memory_refs(),
    {
        proof {
            use_type_invariant(&*self);
        }
        let mut c: Vec<Command> = Vec::new();
        let mut i: usize = self.recorded;
        let n = self.commands.len();
        while i < n
            invariant
                n == self.commands.len(),
                self.recorded <= i <= n,
                c@ == self.commands@.subrange(self.recorded as int, i as int),
            decreases n - i,
        {
            c.push(self.commands[i]);
            i = i + 1;
            assert(c@ =~= self.commands@.subrange(self.recorded as int, i as int));
        }
        assert(c@ =~= self.commands@.skip(self.recorded as int));
        self.recorded = n;
        c
    }

    /// Builds a new prototype of a command buffer. The first call creates
    /// the command buffer on the device.
    pub fn new(device: &'a Device) -> (c: CommandBufferCreation<'a>)
        ensures
            c.device() == device.handle(),
    {
        CommandBufferCreation { device }
    }

    pub fn get_id(&self) -> (id: GR_CMD_BUFFER)
        ensures
            id == self.handle(),
    {
        self.cmd
    }

    /// The commands recorded so far. Each image they touch ends in its
    /// normal state if it starts in it, and is in the clear state whenever
    /// it is cleared.
    pub fn get_commands(&self) -> (c: &Vec<Command>)
        ensures
            c@ == self.commands(),
            restores_images(c@),
            restores_subresources(c@),
    {
        proof {
            use_type_invariant(self);
        }
        &self.commands
    }

    /// Adds a command that clears the given image to a specific color, and
    /// the image's memory to the memory that the buffer references. Each
    /// channel is given as the bit pattern of its `f32` value.
    pub fn clear_image(self, image: &PresentableImage, red: u32, green: u32, blue: u32, alpha: u32) -> (b: CommandBufferBuilder<'a>)
        ensures
            b.device() == self.device(),
            b.handle() == self.handle(),
            b.commands() == self.commands() + clear_commands(
                image.handle(),
                presentable_normal_state(),
                ClearColor { red, green, blue, alpha },
            ),
            b.memory_refs() == self.memory_refs().push(GR_MEMORY_REF { mem: image.memory(), flags: 0 }),
            b.handed_out() == self.handed_out(),
            b.commands().len() == self.commands().len() + 3,
            b.commands().take(self.commands().len() as int) == self.commands(),
            b.commands()[self.commands().len() as int] == (Command::PrepareImage {
                transition: GR_IMAGE_STATE_TRANSITION {
                    image: image.handle(),
                    oldState: GR_IMAGE_STATE::GR_WSI_WIN_IMAGE_STATE_PRESENT_WINDOWED,
                    newState: GR_IMAGE_STATE::GR_IMAGE_STATE_CLEAR,
                    subresourceRange: GR_IMAGE_SUBRESOURCE_RANGE {
                        aspect: GR_IMAGE_ASPECT::GR_IMAGE_ASPECT_COLOR,
                        baseMipLevel: 0,
                        mipLevels: 1,
                        baseArraySlice: 0,
                        arraySize: 1,
                    },
                },
            }),
            b.commands()[self.commands().len() + 1int] == (Command::ClearColorImage {
                image: image.handle(),
                color: ClearColor { red, green, blue, alpha },
                range: GR_IMAGE_SUBRESOURCE_RANGE {
                    aspect: GR_IMAGE_ASPECT::GR_IMAGE_ASPECT_COLOR,
                    baseMipLevel: 0,
                    mipLevels: 1,
                    baseArraySlice: 0,
                    arraySize: 1,
                },
            }),
            b.commands()[self.commands().len() + 2int] == (Command::PrepareImage {
                transition: GR_IMAGE_STATE_TRANSITION {
                    image: image.handle(),
                    oldState: GR_IMAGE_STATE::GR_IMAGE_STATE_CLEAR,
                    newState: GR_IMAGE_STATE::GR_WSI_WIN_IMAGE_STATE_PRESENT_WINDOWED,
                    subresourceRange: GR_IMAGE_SUBRESOURCE_RANGE {
                        aspect: GR_IMAGE_ASPECT::GR_IMAGE_ASPECT_COLOR,
                        baseMipLevel: 0,
                        mipLevels: 1,
                        baseArraySlice: 0,
                        arraySize: 1,
                    },
                },
            }),
            clears_at(
                b.commands().skip(self.commands().len() as int),
                image.handle(),
                0,
                0,
                ClearColor { red, green, blue, alpha },
                presentable_normal_state(),
            ),
            only_clears(b.commands().skip(self.commands().len() as int), image.handle(), ClearColor { red, green, blue, alpha }),
    {
        proof {
            use_type_invariant(&self);
        }
        let target = image.get_image();
        let image_mem = image.get_mem();
        let original_state = image.get_normal_state();
        let CommandBufferBuilder { device, cmd, mut memory_refs, mut commands, recorded } = self;
        let ghost old_cmds = commands@;
        let color = ClearColor { red, green, blue, alpha };

        // switching to the clear state
        if original_state != GR_IMAGE_STATE::GR_IMAGE_STATE_CLEAR {
            commands.push(
                Command::PrepareImage {
                    transition: GR_IMAGE_STATE_TRANSITION {
                        image: target,
                        oldState: original_state,
                        newState: GR_IMAGE_STATE::GR_IMAGE_STATE_CLEAR,
                        subresourceRange: color_range(),
                    },
                },
            );
        }
        // clear color command

        commands.push(Command::ClearColorImage { image: target, color, range: color_range() });

        // switching back to the previous state
        if original_state != GR_IMAGE_STATE::GR_IMAGE_STATE_CLEAR {
            commands.push(
                Command::PrepareImage {
                    transition: GR_IMAGE_STATE_TRANSITION {
                        image: target,
                        oldState: GR_IMAGE_STATE::GR_IMAGE_STATE_CLEAR,
                        newState: original_state,
                        subresourceRange: color_range(),
                    },
                },
            );
        }
        memory_refs.push(GR_MEMORY_REF { mem: image_mem, flags: 0 });
        proof {
            assert(commands@ =~= old_cmds + clear_commands(target, presentable_normal_state(), color));
            lemma_clear_keeps_restoring(old_cmds, target, color);
            lemma_clear_keeps_restoring_subresources(old_cmds, target, color);
            law_clear_commands(target, color, target, 0, 0, None);
            assert(commands@.skip(old_cmds.len() as int) =~= clear_commands(target, presentable_normal_state(), color));
            assert(commands@.take(old_cmds.len() as int) =~= old_cmds);
        }
        CommandBufferBuilder { device, cmd, memory_refs, commands, recorded }
    }

    /// Abandons the prototype: its recording is ended, then the command
    /// buffer is destroyed.
    pub fn release(self) -> (r: CommandBufferRelease)
        ensures
            r.handle() == self.handle(),
            r.needs_end(),
    {
        CommandBufferRelease { cmd: self.cmd, ending: true }
    }

    /// Builds the command buffer containing all the commands, once every
    /// command has been handed out to be recorded. The next call ends the
    /// recording.
    pub fn build(self) -> (e: CommandBufferEnd<'a>)
        requires
            self.handed_out() == self.commands().len(),
        ensures
            e.device() == self.device(),
            e.handle() == self.handle(),
            e.memory_refs() == self.memory_refs(),
            e.commands() == self.commands(),
            restores_images(e.commands()),
            restores_subresources(e.commands()),
    {
        proof {
            use_type_invariant(&self);
        }
        let CommandBufferBuilder { device, cmd, memory_refs, commands, recorded: _ } = self;
        CommandBufferEnd { device, cmd, memory_refs, commands }
    }
}

/// The release of an abandoned prototype in progress.
pub struct CommandBufferRelease {
    cmd: GR_CMD_BUFFER,
    ending: bool,
}

impl CommandBufferRelease {
    pub closed spec fn handle(&self) -> GR_CMD_BUFFER {
        self.cmd
    }

    /// Whether the end of the recording is the next call.
    pub closed spec fn needs_end(&self) -> bool {
        self.ending
    }

    pub fn get_id(&self) -> (id: GR_CMD_BUFFER)
        ensures
            id == self.handle(),
    {
        self.cmd
    }

    pub fn is_ending(&self) -> (b: bool)
        ensures
            b == self.needs_end(),
    {
        self.ending
    }

    /// Goes on after the success of the end of the recording; the next call
    /// destroys the command buffer.
    pub fn ended(self, result: GR_RESULT) -> (r: CommandBufferRelease)
        requires
            self.needs_end(),
            result == GR_RESULT::GR_SUCCESS,
        ensures
            r.handle() == self.handle() && !r.needs_end(),
    {
        CommandBufferRelease { cmd: self.cmd, ending: false }
    }

    /// Finishes after the success of the destruction of the command buffer.
    pub fn destroyed(self, result: GR_RESULT)
        requires
            !self.needs_end(),
            result == GR_RESULT::GR_SUCCESS,
    {
    }
}

/// Command buffer creation, first step: the creation of the buffer.
pub struct CommandBufferCreation<'a> {
    device: &'a Device,
}

impl<'a> CommandBufferCreation<'a> {
    pub closed spec fn device(&self) -> GR_DEVICE {
        self.device.handle()
    }

    pub fn get_device(&self) -> (d: GR_DEVICE)
        ensures
            d == self.device(),
    {
        self.device.get_id()
    }

    /// The description of the buffer: for the universal queue, no flags.
    pub fn create_info(&self) -> (info: GR_CMD_BUFFER_CREATE_INFO)
        ensures
            info == (GR_CMD_BUFFER_CREATE_INFO { queueType: GR_QUEUE_TYPE::GR_QUEUE_UNIVERSAL, flags: 0 }),
    {
        GR_CMD_BUFFER_CREATE_INFO { queueType: GR_QUEUE_TYPE::GR_QUEUE_UNIVERSAL, flags: 0 }
    }

    /// Goes on after the success of the creation and the buffer it wrote; the
    /// next call begins the recording.
    pub fn resume(self, result: GR_RESULT, cmd: GR_CMD_BUFFER) -> (r: CommandBufferBegin<'a>)
        requires
            result == GR_RESULT::GR_SUCCESS,
        ensures
            r.device() == self.device() && r.handle() == cmd,
    {
        CommandBufferBegin { device: self.device, cmd }
    }
}

/// Command buffer creation, second step: the beginning of the recording.
pub struct CommandBufferBegin<'a> {
    device: &'a Device,
    cmd: GR_CMD_BUFFER,
}

impl<'a> CommandBufferBegin<'a> {
    pub closed spec fn device(&self) -> GR_DEVICE {
        self.device.handle()
    }

    pub closed spec fn handle(&self) -> GR_CMD_BUFFER {
        self.cmd
    }

    pub fn get_id(&self) -> (id: GR_CMD_BUFFER)
        ensures
            id == self.handle(),
    {
        self.cmd
    }

    /// The recording options: none.
    pub fn build_flags(&self) -> (f: GR_CMD_BUFFER_BUILD_FLAGS)
        ensures
            f == (GR_CMD_BUFFER_BUILD_FLAGS { optimize_one_time_submit: false }),
    {
        GR_CMD_BUFFER_BUILD_FLAGS { optimize_one_time_submit: false }
    }

    /// Finishes after the success of the beginning: a builder with no command
    /// and no memory reference.
    pub fn resume(self, result: GR_RESULT) -> (r: CommandBufferBuilder<'a>)
        requires
            result == GR_RESULT::GR_SUCCESS,
        ensures
            r.device() == self.device() && r.handle() == self.handle()
                && r.commands() == Seq::<Command>::empty()
                && r.memory_refs() == Seq::<GR_MEMORY_REF>::empty() && r.handed_out() == 0,
    {
        let commands: Vec<Command> = Vec::new();
        proof {
            assert forall|image: GR_IMAGE| #[trigger] state_after(commands@, image, Some(presentable_normal_state())) == Some(presentable_normal_state()) by {}
            assert forall|image: GR_IMAGE, mip: int, slice: int| #[trigger] state_at(commands@, image, mip, slice, Some(presentable_normal_state())) == Some(presentable_normal_state()) by {}
        }
        CommandBufferBuilder { device: self.device, cmd: self.cmd, memory_refs: Vec::new(), commands, recorded: 0 }
    }
}

/// The end of the recording of a command buffer.
pub struct CommandBufferEnd<'a> {
    device: &'a Device,
    cmd: GR_CMD_BUFFER,
    memory_refs: Vec<GR_MEMORY_REF>,
    commands: Vec<Command>,
}

impl<'a> CommandBufferEnd<'a> {
    #[verifier::type_invariant]
    spec fn wf(&self) -> bool {
        &&& restores_images(self.commands@)
        &&& restores_subresources(self.commands@)
    }

    pub closed spec fn device(&self) -> GR_DEVICE {
        self.device.handle()
    }

    pub closed spec fn handle(&self) -> GR_CMD_BUFFER {
        self.cmd
    }

    pub closed spec fn memory_refs(&self) -> Seq<GR_MEMORY_REF> {
        self.memory_refs@
    }

    pub closed spec fn commands(&self) -> Seq<Command> {
        self.commands@
    }

    pub fn get_id(&self) -> (id: GR_CMD_BUFFER)
        ensures
            id == self.handle(),
    {
        self.cmd
    }

    /// Finishes after the success of the end of the recording: the command
    /// buffer, with the commands and memory references of the builder.
    pub fn resume(self, result: GR_RESULT) -> (r: CommandBuffer<'a>)
        requires
            result == GR_RESULT::GR_SUCCESS,
        ensures
            r.device() == self.device() && r.handle() == self.handle()
                && r.memory_refs() == self.memory_refs() && r.commands() == self.commands(),
    {
        proof {
            use_type_invariant(&self);
        }
        CommandBuffer { device: self.device, cmd: self.cmd, memory_refs: self.memory_refs, commands: self.commands }
    }
}

/// A command buffer whose recording has ended.
pub struct CommandBuffer<'a> {
    device: &'a Device,
    cmd: GR_CMD_BUFFER,
    memory_refs: Vec<GR_MEMORY_REF>,
    commands: Vec<Command>,
}

impl<'a> CommandBuffer<'a> {
    #[verifier::type_invariant]
    spec fn wf(&self) -> bool {
        &&& restores_images(self.commands@)
        &&& restores_subresources(self.commands@)
    }

    pub closed spec fn device(&self) -> GR_DEVICE {
        self.device.handle()
    }

    pub closed spec fn handle(&self) -> GR_CMD_BUFFER {
        self.cmd
    }

    pub closed spec fn memory_refs(&self) -> Seq<GR_MEMORY_REF> {
        self.memory_refs@
    }

    pub closed spec fn commands(&self) -> Seq<Command> {
        self.commands@
    }

    pub fn get_id(&self) -> (id: GR_CMD_BUFFER)
        ensures
            id == self.handle(),
    {
        self.cmd
    }

    /// Starts the destruction of the command buffer: the one call destroys
    /// it.
    pub fn release(self) -> (d: ObjectDestruction)
        ensures
            d.object() == self.handle(),
    {
        ObjectDestruction::new(self.cmd)
    }

    /// The memory that the commands reference, to hand to a submission.
    pub fn build_memory_refs(&self) -> (refs: Vec<GR_MEMORY_REF>)
        ensures
            refs@ == self.memory_refs(),
    {
        let refs = self.memory_refs.clone();
        assert(refs@ =~= self.memory_refs@);
        refs
    }

    /// The recorded commands. Each image they touch ends in its normal
    /// state if it starts in it, and is in the clear state whenever it is
    /// cleared.
    pub fn get_commands(&self) -> (c: &Vec<Command>)
        ensures
            c@ == self.commands(),
            restores_images(c@),
            restores_subresources(c@),
    {
        proof {
            use_type_invariant(self);
        }
        &self.commands
    }
}

} // verus!
