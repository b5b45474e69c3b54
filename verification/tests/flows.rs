use mantle::buffer::Buffer;
use mantle::command_buffer::{ClearColor, Command, CommandBufferBuilder};
use mantle::device::{Device, HeapInfos};
use mantle::ffi::{
    GR_DEVICE_QUEUE_CREATE_INFO, GR_IMAGE_ASPECT, GR_IMAGE_STATE, GR_INFO_TYPE, GR_MEMORY_HEAP_PROPERTIES,
    GR_MEMORY_PRIORITY, GR_MEMORY_REF, GR_QUEUE_TYPE, GR_RESULT, GR_VALIDATION_LEVEL, GR_WSI_WIN_PRESENT_MODE,
};
use mantle::get_gpus;
use mantle::instance::Gpu;
use mantle::presentable_image::PresentableImage;
use mantle::shader::Shader;

const OK: GR_RESULT = GR_RESULT::GR_SUCCESS;

fn first_gpu() -> Gpu {
    let e = get_gpus(OK);
    let mut it = e.enumerated(OK, [7, 8, 9, 10], 1);
    it.next().unwrap()
}

fn make_device(heaps: &[(u64, u64)]) -> Device {
    let q = Device::new(&first_gpu());
    let c = q.resume(OK);
    let qq = c.resume(OK, 100);
    let hc = qq.resume(OK, 200);
    let mut hq = hc.resume(OK, heaps.len() as u32);
    let mut i = 0;
    while let Some(id) = hq.pending() {
        assert_eq!(id as usize, i);
        let (size, page) = heaps[i];
        hq = hq.resume(OK, GR_MEMORY_HEAP_PROPERTIES { heapSize: size, pageSize: page });
        i += 1;
    }
    hq.finish()
}

fn make_image(device: &Device, width: u32, height: u32) -> PresentableImage {
    let c = PresentableImage::new(device, width, height);
    let c = c.resume(OK, 300, 301);
    let b = c.resume(OK, 302);
    let (_, e) = b.resume(OK).record();
    let s = e.resume(OK);
    s.resume(OK)
}

fn built(builder: CommandBufferBuilder) -> mantle::command_buffer::CommandBufferEnd {
    let mut builder = builder;
    builder.take_unrecorded();
    builder.build()
}

#[test]
fn enumeration_keeps_the_reported_count() {
    let e = get_gpus(OK);
    let info = e.application_info();
    assert_eq!(info.apiVersion, 1);
    assert!(info.pAppName.is_none());
    let mut it = e.enumerated(OK, [10, 20, 30, 40], 2);
    assert_eq!(it.len(), 2);
    assert_eq!(it.next().unwrap().get_id(), 10);
    assert_eq!(it.next().unwrap().get_id(), 20);
    assert!(it.next().is_none());
}

#[test]
fn enumeration_count_is_capped_by_the_array() {
    let e = get_gpus(OK);
    let mut it = e.enumerated(OK, [10, 20, 30, 40], 9);
    assert_eq!(it.len(), 4);
    assert_eq!(it.nth(2).unwrap().get_id(), 30);
    assert_eq!(it.nth(0).unwrap().get_id(), 40);
    assert!(it.nth(0).is_none());
}

#[test]
fn device_creation_collects_heaps_in_order() {
    let q = Device::new(&first_gpu());
    assert_eq!(q.get_gpu(), 7);
    assert_eq!(q.extension_name(), b"GR_WSI_WINDOWS".to_vec());
    let c = q.resume(OK);
    let info = c.create_info();
    assert_eq!(info.queueRecordCount, 1);
    assert_eq!(
        info.pRequestedQueues,
        vec![GR_DEVICE_QUEUE_CREATE_INFO { queueType: GR_QUEUE_TYPE::GR_QUEUE_UNIVERSAL, queueCount: 1 }]
    );
    assert_eq!(info.extensionCount, 1);
    assert_eq!(info.ppEnabledExtensionNames, vec![b"GR_WSI_WINDOWS".to_vec()]);
    assert_eq!(info.maxValidationLevel, GR_VALIDATION_LEVEL::GR_VALIDATION_LEVEL_4);
    assert!(info.flags.validation);
    let qq = c.resume(OK, 100);
    assert_eq!(qq.get_device(), 100);
    assert_eq!(qq.queue_request(), (GR_QUEUE_TYPE::GR_QUEUE_UNIVERSAL, 0));
    let hc = qq.resume(OK, 200);
    let hq = hc.resume(OK, 2);
    assert_eq!(hq.pending(), Some(0));
    assert_eq!(hq.info_type(), GR_INFO_TYPE::GR_INFO_TYPE_MEMORY_HEAP_PROPERTIES);
    let hq = hq.resume(OK, GR_MEMORY_HEAP_PROPERTIES { heapSize: 1 << 20, pageSize: 4096 });
    assert_eq!(hq.pending(), Some(1));
    let hq = hq.resume(OK, GR_MEMORY_HEAP_PROPERTIES { heapSize: 1 << 30, pageSize: 65536 });
    assert_eq!(hq.pending(), None);
    let d = hq.finish();
    assert_eq!(d.get_id(), 100);
    assert_eq!(d.get_queue(), 200);
    assert_eq!(
        d.get_heaps(),
        &[
            HeapInfos { id: 0, size: 1 << 20, page_size: 4096 },
            HeapInfos { id: 1, size: 1 << 30, page_size: 65536 },
        ]
    );
}

#[test]
fn device_without_heaps() {
    let d = make_device(&[]);
    assert!(d.get_heaps().is_empty());
}

#[test]
fn allocation_size_rounds_up_to_pages() {
    let heap = HeapInfos { id: 0, size: 1 << 20, page_size: 4096 };
    assert_eq!(Buffer::allocation_size(&heap, 1), Some(4096));
    assert_eq!(Buffer::allocation_size(&heap, 4096), Some(4096));
    assert_eq!(Buffer::allocation_size(&heap, 4097), Some(8192));
    assert_eq!(Buffer::allocation_size(&heap, 96), Some(4096));
    assert_eq!(Buffer::allocation_size(&heap, 0), None);
    assert_eq!(Buffer::allocation_size(&heap, usize::MAX), None);
    let no_pages = HeapInfos { id: 0, size: 0, page_size: 0 };
    assert_eq!(Buffer::allocation_size(&no_pages, 10), None);
    let bytes = HeapInfos { id: 0, size: 0, page_size: 1 };
    assert_eq!(Buffer::allocation_size(&bytes, usize::MAX), Some(usize::MAX));
}

#[test]
fn buffer_allocation_uses_the_first_heap() {
    let d = make_device(&[(1 << 20, 4096), (1 << 30, 65536)]);
    let a = Buffer::empty(&d, 24 * 4);
    assert_eq!(a.get_device(), 100);
    let info = a.alloc_info();
    assert_eq!(info.size, 4096);
    assert_eq!(info.alignment, 0);
    assert_eq!(info.flags, 0);
    assert_eq!(info.heapCount, 1);
    assert_eq!(info.heaps, [0, 0, 0, 0, 0, 0, 0, 0]);
    assert_eq!(info.memPriority, GR_MEMORY_PRIORITY::GR_MEMORY_PRIORITY_NORMAL);
    let b = a.resume(OK, 555);
    assert_eq!(b.get_memory(), 555);
    let a = Buffer::empty(&d, 10000);
    assert_eq!(a.alloc_info().size, 12288);
}

#[test]
fn presentable_image_creation() {
    let d = make_device(&[(1 << 20, 4096)]);
    let c = PresentableImage::new(&d, 640, 480);
    assert_eq!(c.get_device(), 100);
    let info = c.create_info();
    assert_eq!(info.format.channelFormat, 8);
    assert_eq!(info.format.numericFormat, 1);
    assert!(info.usage.color_target);
    assert_eq!(info.extent.width, 640);
    assert_eq!(info.extent.height, 480);
    assert_eq!(info.display, 0);
    assert_eq!(info.flags, 0);
    let c = c.resume(OK, 300, 301);
    assert_eq!(c.create_info().queueType, GR_QUEUE_TYPE::GR_QUEUE_UNIVERSAL);
    let b = c.resume(OK, 302);
    assert!(b.build_flags().optimize_one_time_submit);
    let r = b.resume(OK);
    assert_eq!(r.get_command_buffer(), 302);
    let (cmds, e) = r.record();
    assert_eq!(cmds.len(), 1);
    match cmds[0] {
        Command::PrepareImage { transition } => {
            assert_eq!(transition.image, 300);
            assert_eq!(transition.oldState, GR_IMAGE_STATE::GR_IMAGE_STATE_UNINITIALIZED);
            assert_eq!(transition.newState, GR_IMAGE_STATE::GR_WSI_WIN_IMAGE_STATE_PRESENT_WINDOWED);
            assert_eq!(transition.subresourceRange.aspect, GR_IMAGE_ASPECT::GR_IMAGE_ASPECT_COLOR);
            assert_eq!(transition.subresourceRange.mipLevels, 1);
            assert_eq!(transition.subresourceRange.arraySize, 1);
        },
        _ => panic!("expected a transition"),
    }
    let s = e.resume(OK);
    assert_eq!(s.get_queue(), 200);
    assert_eq!(s.command_buffers(), vec![302]);
    assert_eq!(s.memory_refs(), vec![GR_MEMORY_REF { mem: 301, flags: 0 }]);
    assert_eq!(s.fence(), 0);
    let image = s.resume(OK);
    assert_eq!(image.get_image(), 300);
    assert_eq!(image.get_mem(), 301);
    assert_eq!(image.get_normal_state(), GR_IMAGE_STATE::GR_WSI_WIN_IMAGE_STATE_PRESENT_WINDOWED);
}

#[test]
fn presentable_image_size_is_cast_like_as() {
    let d = make_device(&[]);
    let c = PresentableImage::new(&d, 3_000_000_000, 1);
    assert_eq!(c.create_info().extent.width, 3_000_000_000u32 as i32);
    assert!(c.create_info().extent.width < 0);
}

#[test]
fn presentation() {
    let d = make_device(&[]);
    let image = make_image(&d, 8, 8);
    let p = image.present(0xdead);
    assert_eq!(p.get_queue(), 200);
    let info = p.present_info();
    assert_eq!(info.hWndDest, 0xdead);
    assert_eq!(info.srcImage, 300);
    assert_eq!(info.presentMode, GR_WSI_WIN_PRESENT_MODE::GR_WSI_WIN_PRESENT_MODE_WINDOWED);
    assert_eq!(info.presentInterval, 0);
    assert_eq!(info.flags, 0);
    p.resume(OK);
}

#[test]
fn clear_image_records_transitions_around_the_clear() {
    let d = make_device(&[(1 << 20, 4096)]);
    let image = make_image(&d, 8, 8);
    let c = CommandBufferBuilder::new(&d);
    assert_eq!(c.get_device(), 100);
    assert_eq!(c.create_info().queueType, GR_QUEUE_TYPE::GR_QUEUE_UNIVERSAL);
    assert_eq!(c.create_info().flags, 0);
    let b = c.resume(OK, 400);
    assert!(!b.build_flags().optimize_one_time_submit);
    let builder = b.resume(OK);
    assert!(builder.get_commands().is_empty());
    let green = ClearColor { red: 0.0f32.to_bits(), green: 1.0f32.to_bits(), blue: 0.0f32.to_bits(), alpha: 1.0f32.to_bits() };
    let builder = builder.clear_image(&image, green.red, green.green, green.blue, green.alpha);
    let cmds = builder.get_commands().clone();
    assert_eq!(cmds.len(), 3);
    let present = GR_IMAGE_STATE::GR_WSI_WIN_IMAGE_STATE_PRESENT_WINDOWED;
    let clear = GR_IMAGE_STATE::GR_IMAGE_STATE_CLEAR;
    match (cmds[0], cmds[1], cmds[2]) {
        (Command::PrepareImage { transition: t0 }, Command::ClearColorImage { image: i, color, range }, Command::PrepareImage { transition: t2 }) => {
            assert_eq!((t0.image, t0.oldState, t0.newState), (300, present, clear));
            assert_eq!(i, 300);
            assert_eq!(color, green);
            assert_eq!(range.aspect, GR_IMAGE_ASPECT::GR_IMAGE_ASPECT_COLOR);
            assert_eq!((t2.image, t2.oldState, t2.newState), (300, clear, present));
        },
        _ => panic!("unexpected commands {:?}", cmds),
    }
    let builder = builder.clear_image(&image, 0, 0, 0, 0);
    assert_eq!(builder.get_commands().len(), 6);
    let end = built(builder);
    assert_eq!(end.get_id(), 400);
    let cb = end.resume(OK);
    assert_eq!(cb.get_id(), 400);
    assert_eq!(cb.get_commands().len(), 6);
    assert_eq!(
        cb.build_memory_refs(),
        vec![GR_MEMORY_REF { mem: 301, flags: 0 }, GR_MEMORY_REF { mem: 301, flags: 0 }]
    );
}

#[test]
fn abandoned_builder_is_ended_then_destroyed() {
    let d = make_device(&[]);
    let builder = CommandBufferBuilder::new(&d).resume(OK, 402).resume(OK);
    let r = builder.release();
    assert!(r.is_ending());
    assert_eq!(r.get_id(), 402);
    let r = r.ended(OK);
    assert!(!r.is_ending());
    r.destroyed(OK);
}

#[test]
fn submission_waits_for_its_fence() {
    let d = make_device(&[]);
    let image = make_image(&d, 8, 8);
    let builder = CommandBufferBuilder::new(&d).resume(OK, 400).resume(OK);
    let cb = built(builder.clear_image(&image, 1, 2, 3, 4)).resume(OK);
    let f = d.submit(&cb);
    assert_eq!(f.get_device(), 100);
    assert_eq!(f.create_info().flags, 0);
    let s = f.resume(OK, 500);
    assert_eq!(s.get_queue(), 200);
    assert_eq!(s.get_command_buffers(), &vec![400]);
    assert_eq!(s.get_memory_refs(), &vec![GR_MEMORY_REF { mem: 301, flags: 0 }]);
    assert_eq!(s.get_fence(), 500);
    let fence = s.resume(OK);
    assert_eq!(fence.get_fence(), 500);
    let r = fence.release();
    assert!(r.is_waiting());
    let (device, fences, wait_all) = r.wait_request();
    assert_eq!((device, fences, wait_all), (100, vec![500], true));
    let r = r.waited(OK);
    assert!(!r.is_waiting());
    assert_eq!(r.get_fence(), 500);
    r.destroyed(OK);
}

#[test]
fn shader_creation() {
    let d = make_device(&[]);
    let source = [1u8, 2, 3, 4, 5];
    let c = Shader::new(&d, &source);
    assert_eq!(c.get_device(), 100);
    let info = c.create_info();
    assert_eq!(info.codeSize, 5);
    assert_eq!(info.pCode, source.to_vec());
    assert_eq!(info.flags, 0);
    let s = c.resume(OK, 600);
    assert_eq!(s.get_id(), 600);
    let c = Shader::new(&d, &[]);
    assert_eq!(c.create_info().codeSize, 0);
}

/// Replays recorded commands on the states of the images; `None` where a
/// command finds an image in a state it does not expect.
fn replay(cmds: &[Command], image: u64, start: GR_IMAGE_STATE) -> Option<GR_IMAGE_STATE> {
    let mut state = start;
    for c in cmds {
        match c {
            Command::PrepareImage { transition } => {
                if transition.image == image {
                    if transition.oldState != state {
                        return None;
                    }
                    state = transition.newState;
                }
            },
            Command::ClearColorImage { image: target, .. } => {
                if *target == image && state != GR_IMAGE_STATE::GR_IMAGE_STATE_CLEAR {
                    return None;
                }
            },
        }
    }
    Some(state)
}

#[test]
fn command_buffers_return_images_to_their_normal_state() {
    let d = make_device(&[]);
    let first = make_image(&d, 8, 8);
    let c = PresentableImage::new(&d, 4, 4).resume(OK, 310, 311);
    let second = c.resume(OK, 312).resume(OK).record().1.resume(OK).resume(OK);
    let builder = CommandBufferBuilder::new(&d).resume(OK, 400).resume(OK);
    let builder = builder.clear_image(&first, 1, 1, 1, 1).clear_image(&second, 2, 2, 2, 2).clear_image(&first, 3, 3, 3, 3);
    let cb = built(builder).resume(OK);
    let normal = first.get_normal_state();
    assert_eq!(replay(cb.get_commands(), 300, normal), Some(normal));
    assert_eq!(replay(cb.get_commands(), 310, normal), Some(normal));
    assert_eq!(replay(cb.get_commands(), 999, normal), Some(normal));
    assert_eq!(replay(cb.get_commands(), 300, GR_IMAGE_STATE::GR_IMAGE_STATE_UNINITIALIZED), None);
    assert_eq!(cb.build_memory_refs().iter().map(|r| r.mem).collect::<Vec<_>>(), vec![301, 311, 301]);
}

#[test]
fn a_new_image_starts_in_its_normal_state() {
    let d = make_device(&[]);
    let (cmds, e) = PresentableImage::new(&d, 8, 8).resume(OK, 300, 301).resume(OK, 302).resume(OK).record();
    let image = e.resume(OK).resume(OK);
    assert_eq!(replay(&cmds, 300, GR_IMAGE_STATE::GR_IMAGE_STATE_UNINITIALIZED), Some(image.get_normal_state()));
}

#[test]
fn enumeration_passes_no_allocation_callbacks() {
    let e = get_gpus(OK);
    assert!(e.allocation_callbacks().is_none());
}

#[test]
fn gpus_listed_again_from_a_kept_enumeration() {
    let mut it = mantle::instance::GpusIterator::from_enumeration([10, 20, 30, 40], 3);
    assert_eq!(it.len(), 3);
    assert_eq!(it.next().unwrap().get_id(), 10);
    assert_eq!(it.nth(1).unwrap().get_id(), 30);
    assert!(it.next().is_none());
}

#[test]
fn rounding_is_stable_and_ordered() {
    let heap = HeapInfos { id: 0, size: 0, page_size: 4096 };
    for s in [1usize, 100, 4095, 4096, 4097, 12288, 12289] {
        let a = Buffer::allocation_size(&heap, s).unwrap();
        assert_eq!(Buffer::allocation_size(&heap, a), Some(a));
        let b = Buffer::allocation_size(&heap, s + 1).unwrap();
        assert!(a <= b);
    }
}

#[test]
fn device_heaps_are_the_reports_in_order() {
    let d = make_device(&[(100, 10), (200, 20), (300, 30)]);
    let heaps = d.get_heaps();
    assert_eq!(heaps.len(), 3);
    for (i, h) in heaps.iter().enumerate() {
        assert_eq!(*h, HeapInfos { id: i as u32, size: 100 * (i + 1), page_size: 10 * (i + 1) });
    }
    assert_eq!(d.get_heaps(), heaps);
}

#[test]
fn objects_are_released_by_one_call() {
    let d = make_device(&[(1 << 20, 4096)]);
    let s = Shader::new(&d, &[1, 2]).resume(OK, 600);
    let r = s.release();
    assert_eq!(r.get_object(), 600);
    r.destroyed(OK);
    let b = Buffer::empty(&d, 10).resume(OK, 700);
    let r = b.release();
    assert_eq!(r.get_memory(), 700);
    r.freed(OK);
    let cb = built(CommandBufferBuilder::new(&d).resume(OK, 400).resume(OK)).resume(OK);
    let r = cb.release();
    assert_eq!(r.get_object(), 400);
    r.destroyed(OK);
    let r = d.release();
    assert_eq!(r.get_id(), 100);
    r.destroyed(OK);
}

#[test]
fn commands_are_handed_out_once() {
    let d = make_device(&[]);
    let image = make_image(&d, 8, 8);
    let mut builder = CommandBufferBuilder::new(&d).resume(OK, 400).resume(OK);
    assert!(builder.take_unrecorded().is_empty());
    builder = builder.clear_image(&image, 1, 2, 3, 4);
    assert_eq!(builder.take_unrecorded().len(), 3);
    assert!(builder.take_unrecorded().is_empty());
    builder = builder.clear_image(&image, 5, 6, 7, 8);
    let fresh = builder.take_unrecorded();
    assert_eq!(fresh.len(), 3);
    assert_eq!(fresh[..], builder.get_commands()[3..]);
}
