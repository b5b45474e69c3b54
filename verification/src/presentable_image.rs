//! Images that can be presented to a window.
use vstd::prelude::*;

use crate::command_buffer::{state_after, state_at, Command};
use crate::device::Device;
use crate::ffi::{
    GR_CMD_BUFFER, GR_CMD_BUFFER_BUILD_FLAGS, GR_CMD_BUFFER_CREATE_INFO, GR_DEVICE, GR_EXTENT2D, GR_FENCE, GR_FORMAT, GR_GPU_MEMORY, GR_IMAGE, GR_IMAGE_STATE, GR_IMAGE_STATE_TRANSITION, GR_IMAGE_SUBRESOURCE_RANGE, GR_IMAGE_ASPECT, GR_IMAGE_USAGE_FLAGS, GR_MEMORY_REF, GR_QUEUE, GR_QUEUE_TYPE, GR_RESULT, GR_WINDOW, GR_WSI_WIN_PRESENTABLE_IMAGE_CREATE_INFO, GR_WSI_WIN_PRESENT_INFO, GR_WSI_WIN_PRESENT_MODE, color_range, color_range_spec,
};

verus! {

/// The normal state of a presentable image: the state it is in when it
/// starts being used, and the state that command buffers return it to.
pub open spec fn presentable_normal_state() -> GR_IMAGE_STATE {
    GR_IMAGE_STATE::GR_WSI_WIN_IMAGE_STATE_PRESENT_WINDOWED
}

/// The description of a presentable image of the given size: an 8-bit
/// four-channel format, used as a color target, on the default display.
/// The size is converted to the driver's signed integers as Rust's `as`
/// does.
pub open spec fn presentable_create_info(width: u32, height: u32) -> GR_WSI_WIN_PRESENTABLE_IMAGE_CREATE_INFO {
    GR_WSI_WIN_PRESENTABLE_IMAGE_CREATE_INFO {
        format: GR_FORMAT { channelFormat: 8, numericFormat: 1 },
        usage: GR_IMAGE_USAGE_FLAGS { color_target: true },
        extent: GR_EXTENT2D { width: width as i32, height: height as i32 },
        display: 0,
        flags: 0,
    }
}

/// The description of the presentation of `image` to `window`.
pub open spec fn present_info_spec(window: GR_WINDOW, image: GR_IMAGE) -> GR_WSI_WIN_PRESENT_INFO {
    GR_WSI_WIN_PRESENT_INFO {
        hWndDest: window,
        srcImage: image,
        presentMode: GR_WSI_WIN_PRESENT_MODE::GR_WSI_WIN_PRESENT_MODE_WINDOWED,
        presentInterval: 0,
        flags: 0,
    }
}

/// The transition recorded when an image is created: from the
/// uninitialized state to its normal state.
pub open spec fn initial_transition(image: GR_IMAGE) -> GR_IMAGE_STATE_TRANSITION {
    GR_IMAGE_STATE_TRANSITION {
        image,
        oldState: GR_IMAGE_STATE::GR_IMAGE_STATE_UNINITIALIZED,
        newState: presentable_normal_state(),
        subresourceRange: color_range_spec(),
    }
}

/// A new image starts in its normal state: the transition recorded at its
/// creation moves mip level 0 of array slice 0 of that image, its only
/// subresource, from the uninitialized state to the normal state, and
/// moves no other subresource and no other image.
pub proof fn law_initial_transition(image: GR_IMAGE, other: GR_IMAGE, mip: int, slice: int, s: Option<GR_IMAGE_STATE>)
    ensures
        initial_transition(image).image == image,
        initial_transition(image).oldState == GR_IMAGE_STATE::GR_IMAGE_STATE_UNINITIALIZED,
        initial_transition(image).newState == GR_IMAGE_STATE::GR_WSI_WIN_IMAGE_STATE_PRESENT_WINDOWED,
        initial_transition(image).subresourceRange.baseMipLevel == 0,
        initial_transition(image).subresourceRange.mipLevels == 1,
        initial_transition(image).subresourceRange.baseArraySlice == 0,
        initial_transition(image).subresourceRange.arraySize == 1,
        state_at(
            seq![Command::PrepareImage { transition: initial_transition(image) }],
            image,
            0,
            0,
            Some(GR_IMAGE_STATE::GR_IMAGE_STATE_UNINITIALIZED),
        ) == Some(presentable_normal_state()),
        (other != image || mip != 0 || slice != 0) ==> state_at(
            seq![Command::PrepareImage { transition: initial_transition(image) }],
            other,
            mip,
            slice,
            s,
        ) == s,
{
    reveal_with_fuel(state_at, 2);
    assert(seq![Command::PrepareImage { transition: initial_transition(image) }].drop_last() =~= Seq::<Command>::empty());
}

pub struct PresentableImage<'a> {
    device: &'a Device,
    image: GR_IMAGE,
    mem: GR_GPU_MEMORY,
}

impl<'a> PresentableImage<'a> {
    pub closed spec fn device(&self) -> GR_DEVICE {
        self.device.handle()
    }

    pub closed spec fn queue(&self) -> GR_QUEUE {
        self.device.queue()
    }

    pub closed spec fn handle(&self) -> GR_IMAGE {
        self.image
    }

    pub closed spec fn memory(&self) -> GR_GPU_MEMORY {
        self.mem
    }

    /// Creates a presentable image of the given size on the device. The
    /// first call creates the image; then a one-time command buffer moves
    /// it to its normal state and is submitted.
    pub fn new(device: &'a Device, width: u32, height: u32) -> (c: ImageCreation<'a>)
        ensures
            c.device() == device.handle(),
            c.queue() == device.queue(),
            c.create_info_spec() == presentable_create_info(width, height),
    {
        let info = GR_WSI_WIN_PRESENTABLE_IMAGE_CREATE_INFO {
            format: GR_FORMAT { channelFormat: 8, numericFormat: 1 },
            usage: GR_IMAGE_USAGE_FLAGS { color_target: true },
            extent: GR_EXTENT2D { width: width as i32, height: height as i32 },
            display: 0,
            flags: 0,
        };
        ImageCreation { device, info }
    }

    /// Presents the image to the given window, on the queue of the device
    /// that created it.
    pub fn present(&self, window: GR_WINDOW) -> (p: Presentation<'a>)
        ensures
            p.queue() == self.queue(),
            p.info() == present_info_spec(window, self.handle()),
    {
        Presentation {
            device: self.device,
            info: GR_WSI_WIN_PRESENT_INFO {
                hWndDest: window,
                srcImage: self.image,
                presentMode: GR_WSI_WIN_PRESENT_MODE::GR_WSI_WIN_PRESENT_MODE_WINDOWED,
                presentInterval: 0,
                flags: 0,
            },
        }
    }

    /// Returns the normal state of the image.
    ///
    /// When an image starts being used, it is guaranteed to be in this
    /// state. Command buffers are also required to return the image to its
    /// default state at the end.
    pub fn get_normal_state(&self) -> (s: GR_IMAGE_STATE)
        ensures
            s == presentable_normal_state(),
    {
        GR_IMAGE_STATE::GR_WSI_WIN_IMAGE_STATE_PRESENT_WINDOWED
    }

    pub fn get_image(&self) -> (i: GR_IMAGE)
        ensures
            i == self.handle(),
    {
        self.image
    }

    pub fn get_mem(&self) -> (m: GR_GPU_MEMORY)
        ensures
            m == self.memory(),
    {
        self.mem
    }

    pub fn get_queue(&self) -> (q: GR_QUEUE)
        ensures
            q == self.queue(),
    {
        self.device.get_queue()
    }
}

/// Image creation, first step: the creation of the image and its memory.
pub struct ImageCreation<'a> {
    device: &'a Device,
    info: GR_WSI_WIN_PRESENTABLE_IMAGE_CREATE_INFO,
}

impl<'a> ImageCreation<'a> {
    pub closed spec fn device(&self) -> GR_DEVICE {
        self.device.handle()
    }

    pub closed spec fn queue(&self) -> GR_QUEUE {
        self.device.queue()
    }

    pub closed spec fn create_info_spec(&self) -> GR_WSI_WIN_PRESENTABLE_IMAGE_CREATE_INFO {
        self.info
    }

    pub fn get_device(&self) -> (d: GR_DEVICE)
        ensures
            d == self.device(),
    {
        self.device.get_id()
    }

    /// The description of the image to create.
    pub fn create_info(&self) -> (info: GR_WSI_WIN_PRESENTABLE_IMAGE_CREATE_INFO)
        ensures
            info == self.create_info_spec(),
    {
        self.info
    }

    /// Goes on after the success of the creation, the image and the memory it
    /// wrote; the next call creates the command buffer that prepares it.
    pub fn resume(self, result: GR_RESULT, image: GR_IMAGE, mem: GR_GPU_MEMORY) -> (r: ImageCommandCreation<'a>)
        requires
            result == GR_RESULT::GR_SUCCESS,
        ensures
            r.device() == self.device() && r.queue() == self.queue()
                && r.image() == image && r.memory() == mem,
    {
        ImageCommandCreation { device: self.device, image, mem }
    }
}

/// Image creation, second step: the creation of the command buffer.
pub struct ImageCommandCreation<'a> {
    device: &'a Device,
    image: GR_IMAGE,
    mem: GR_GPU_MEMORY,
}

impl<'a> ImageCommandCreation<'a> {
    pub closed spec fn device(&self) -> GR_DEVICE {
        self.device.handle()
    }

    pub closed spec fn queue(&self) -> GR_QUEUE {
        self.device.queue()
    }

    pub closed spec fn image(&self) -> GR_IMAGE {
        self.image
    }

    pub closed spec fn memory(&self) -> GR_GPU_MEMORY {
        self.mem
    }

    pub fn get_device(&self) -> (d: GR_DEVICE)
        ensures
            d == self.device(),
    {
        self.device.get_id()
    }

    /// The description of the command buffer: for the universal queue, no
    /// flags.
    pub fn create_info(&self) -> (info: GR_CMD_BUFFER_CREATE_INFO)
        ensures
            info == (GR_CMD_BUFFER_CREATE_INFO { queueType: GR_QUEUE_TYPE::GR_QUEUE_UNIVERSAL, flags: 0 }),
    {
        GR_CMD_BUFFER_CREATE_INFO { queueType: GR_QUEUE_TYPE::GR_QUEUE_UNIVERSAL, flags: 0 }
    }

    /// Goes on after the success of the creation and the buffer it wrote; the
    /// next call begins the recording.
    pub fn resume(self, result: GR_RESULT, cmd: GR_CMD_BUFFER) -> (r: ImageCommandBegin<'a>)
        requires
            result == GR_RESULT::GR_SUCCESS,
        ensures
            r.device() == self.device() && r.queue() == self.queue()
                && r.image() == self.image() && r.memory() == self.memory() && r.command_buffer() == cmd,
    {
        ImageCommandBegin { device: self.device, image: self.image, mem: self.mem, cmd }
    }
}

/// Image creation, third step: the beginning of the recording, for a single
/// submission.
pub struct ImageCommandBegin<'a> {
    device: &'a Device,
    image: GR_IMAGE,
    mem: GR_GPU_MEMORY,
    cmd: GR_CMD_BUFFER,
}

impl<'a> ImageCommandBegin<'a> {
    pub closed spec fn device(&self) -> GR_DEVICE {
        self.device.handle()
    }

    pub closed spec fn queue(&self) -> GR_QUEUE {
        self.device.queue()
    }

    pub closed spec fn image(&self) -> GR_IMAGE {
        self.image
    }

    pub closed spec fn memory(&self) -> GR_GPU_MEMORY {
        self.mem
    }

    pub closed spec fn command_buffer(&self) -> GR_CMD_BUFFER {
        self.cmd
    }

    pub fn get_command_buffer(&self) -> (c: GR_CMD_BUFFER)
        ensures
            c == self.command_buffer(),
    {
        self.cmd
    }

    /// The recording options: the buffer is submitted once.
    pub fn build_flags(&self) -> (f: GR_CMD_BUFFER_BUILD_FLAGS)
        ensures
            f == (GR_CMD_BUFFER_BUILD_FLAGS { optimize_one_time_submit: true }),
    {
        GR_CMD_BUFFER_BUILD_FLAGS { optimize_one_time_submit: true }
    }

    /// Goes on after the success of the beginning; next comes the recording of
    /// the image's first transition.
    pub fn resume(self, result: GR_RESULT) -> (r: ImageCommandRecording<'a>)
        requires
            result == GR_RESULT::GR_SUCCESS,
        ensures
            r.device() == self.device() && r.queue() == self.queue()
                && r.image() == self.image() && r.memory() == self.memory()
                && r.command_buffer() == self.command_buffer(),
    {
        ImageCommandRecording { device: self.device, image: self.image, mem: self.mem, cmd: self.cmd }
    }
}

/// Image creation, fourth step: the recording of the transition to the
/// normal state.
pub struct ImageCommandRecording<'a> {
    device: &'a Device,
    image: GR_IMAGE,
    mem: GR_GPU_MEMORY,
    cmd: GR_CMD_BUFFER,
}

impl<'a> ImageCommandRecording<'a> {
    pub closed spec fn device(&self) -> GR_DEVICE {
        self.device.handle()
    }

    pub closed spec fn queue(&self) -> GR_QUEUE {
        self.device.queue()
    }

    pub closed spec fn image(&self) -> GR_IMAGE {
        self.image
    }

    pub closed spec fn memory(&self) -> GR_GPU_MEMORY {
        self.mem
    }

    pub closed spec fn command_buffer(&self) -> GR_CMD_BUFFER {
        self.cmd
    }

    pub fn get_command_buffer(&self) -> (c: GR_CMD_BUFFER)
        ensures
            c == self.command_buffer(),
    {
        self.cmd
    }

    /// Hands out the commands to record in the buffer, and gives the step
    /// that ends the recording: the end can only follow this. The commands
    /// are one transition of the image from the uninitialized state to its
    /// normal state, so that the image is in its normal state when it starts
    /// being used.
    pub fn record(self) -> (r: (Vec<Command>, ImageCommandEnd<'a>))
        ensures
            r.0@ == seq![Command::PrepareImage { transition: initial_transition(self.image()) }],
            state_after(r.0@, self.image(), Some(GR_IMAGE_STATE::GR_IMAGE_STATE_UNINITIALIZED)) == Some(
                presentable_normal_state(),
            ),
            r.0@.len() == 1,
            r.0@[0] == (Command::PrepareImage {
                transition: GR_IMAGE_STATE_TRANSITION {
                    image: self.image(),
                    oldState: GR_IMAGE_STATE::GR_IMAGE_STATE_UNINITIALIZED,
                    newState: GR_IMAGE_STATE::GR_WSI_WIN_IMAGE_STATE_PRESENT_WINDOWED,
                    subresourceRange: GR_IMAGE_SUBRESOURCE_RANGE {
                        aspect: GR_IMAGE_ASPECT::GR_IMAGE_ASPECT_COLOR,
                        baseMipLevel: 0,
                        mipLevels: 1,
                        baseArraySlice: 0,
                        arraySize: 1,
                    },
                },
            }),
            state_at(r.0@, self.image(), 0, 0, Some(GR_IMAGE_STATE::GR_IMAGE_STATE_UNINITIALIZED)) == Some(
                presentable_normal_state(),
            ),
            r.1.device() == self.device(),
            r.1.queue() == self.queue(),
            r.1.image() == self.image(),
            r.1.memory() == self.memory(),
            r.1.command_buffer() == self.command_buffer(),
    {
        let mut c: Vec<Command> = Vec::new();
        c.push(
            Command::PrepareImage {
                transition: GR_IMAGE_STATE_TRANSITION {
                    image: self.image,
                    oldState: GR_IMAGE_STATE::GR_IMAGE_STATE_UNINITIALIZED,
                    newState: GR_IMAGE_STATE::GR_WSI_WIN_IMAGE_STATE_PRESENT_WINDOWED,
                    subresourceRange: color_range(),
                },
            },
        );
        proof {
            reveal_with_fuel(state_after, 2);
            reveal_with_fuel(state_at, 2);
            assert(c@ =~= seq![Command::PrepareImage { transition: initial_transition(self.image) }]);
            assert(c@.drop_last() =~= Seq::<Command>::empty());
            law_initial_transition(self.image, self.image, 0, 0, None);
        }
        (c, ImageCommandEnd { device: self.device, image: self.image, mem: self.mem, cmd: self.cmd })
    }
}

/// Image creation, fifth step: the end of the recording, once the
/// transition to the normal state has been handed out.
pub struct ImageCommandEnd<'a> {
    device: &'a Device,
    image: GR_IMAGE,
    mem: GR_GPU_MEMORY,
    cmd: GR_CMD_BUFFER,
}

impl<'a> ImageCommandEnd<'a> {
    pub closed spec fn device(&self) -> GR_DEVICE {
        self.device.handle()
    }

    pub closed spec fn queue(&self) -> GR_QUEUE {
        self.device.queue()
    }

    pub closed spec fn image(&self) -> GR_IMAGE {
        self.image
    }

    pub closed spec fn memory(&self) -> GR_GPU_MEMORY {
        self.mem
    }

    pub closed spec fn command_buffer(&self) -> GR_CMD_BUFFER {
        self.cmd
    }

    pub fn get_command_buffer(&self) -> (c: GR_CMD_BUFFER)
        ensures
            c == self.command_buffer(),
    {
        self.cmd
    }

    /// Goes on after the success of the end of the recording; the next call
    /// submits the buffer.
    pub fn resume(self, result: GR_RESULT) -> (r: ImageSubmission<'a>)
        requires
            result == GR_RESULT::GR_SUCCESS,
        ensures
            r.device() == self.device() && r.queue() == self.queue()
                && r.image() == self.image() && r.memory() == self.memory()
                && r.command_buffer() == self.command_buffer(),
    {
        ImageSubmission { device: self.device, image: self.image, mem: self.mem, cmd: self.cmd }
    }
}

/// Image creation, last step: the submission of the command buffer, with
/// the image's memory and no fence.
pub struct ImageSubmission<'a> {
    device: &'a Device,
    image: GR_IMAGE,
    mem: GR_GPU_MEMORY,
    cmd: GR_CMD_BUFFER,
}

impl<'a> ImageSubmission<'a> {
    pub closed spec fn device(&self) -> GR_DEVICE {
        self.device.handle()
    }

    pub closed spec fn queue(&self) -> GR_QUEUE {
        self.device.queue()
    }

    pub closed spec fn image(&self) -> GR_IMAGE {
        self.image
    }

    pub closed spec fn memory(&self) -> GR_GPU_MEMORY {
        self.mem
    }

    pub closed spec fn command_buffer(&self) -> GR_CMD_BUFFER {
        self.cmd
    }

    pub fn get_queue(&self) -> (q: GR_QUEUE)
        ensures
            q == self.queue(),
    {
        self.device.get_queue()
    }

    /// The command buffers to submit: the one that prepares the image.
    pub fn command_buffers(&self) -> (c: Vec<GR_CMD_BUFFER>)
        ensures
            c@ == seq![self.command_buffer()],
    {
        let mut c: Vec<GR_CMD_BUFFER> = Vec::new();
        c.push(self.cmd);
        assert(c@ =~= seq![self.cmd]);
        c
    }

    /// The memory that the submission references: the image's memory.
    pub fn memory_refs(&self) -> (m: Vec<GR_MEMORY_REF>)
        ensures
            m@ == seq![GR_MEMORY_REF { mem: self.memory(), flags: 0 }],
    {
        let mut m: Vec<GR_MEMORY_REF> = Vec::new();
        m.push(GR_MEMORY_REF { mem: self.mem, flags: 0 });
        assert(m@ =~= seq![GR_MEMORY_REF { mem: self.mem, flags: 0 }]);
        m
    }

    /// The fence of the submission: none.
    pub fn fence(&self) -> (f: GR_FENCE)
        ensures
            f == 0,
    {
        0
    }

    /// Finishes after the success of the submission: the presentable image.
    pub fn resume(self, result: GR_RESULT) -> (r: PresentableImage<'a>)
        requires
            result == GR_RESULT::GR_SUCCESS,
        ensures
            r.device() == self.device() && r.queue() == self.queue()
                && r.handle() == self.image() && r.memory() == self.memory(),
    {
        PresentableImage { device: self.device, image: self.image, mem: self.mem }
    }
}

/// The presentation of an image to a window.
pub struct Presentation<'a> {
    device: &'a Device,
    info: GR_WSI_WIN_PRESENT_INFO,
}

impl<'a> Presentation<'a> {
    pub closed spec fn queue(&self) -> GR_QUEUE {
        self.device.queue()
    }

    pub closed spec fn info(&self) -> GR_WSI_WIN_PRESENT_INFO {
        self.info
    }

    pub fn get_queue(&self) -> (q: GR_QUEUE)
        ensures
            q == self.queue(),
    {
        self.device.get_queue()
    }

    pub fn present_info(&self) -> (i: GR_WSI_WIN_PRESENT_INFO)
        ensures
            i == self.info(),
    {
        self.info
    }

    /// Finishes after the success of the presentation.
    pub fn resume(self, result: GR_RESULT)
        requires
            result == GR_RESULT::GR_SUCCESS,
    {
    }
}

} // verus!
