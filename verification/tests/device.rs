use cidre::mtl::device::{ArgumentBuffersTier, Device, ReadWriteTextureTier};
use cidre::mtl::texture::Descriptor;
use cidre::mtl::{Function, PixelFormat, RenderPipelineDescriptor, ResourceOptions};
use cidre::ns::string::Str;

#[test]
fn basics1() {
    let device = Device::default().unwrap();

    let mut fence = device.new_fence().unwrap();
    let label = Str::with_str("nice");
    fence.set_label(Some(&label));

    let mut event = device.new_shared_event().unwrap();
    let label = Str::with_str("nice");
    event.set_label(Some(&label));

    let _name = device.name();

    assert!(device.max_buffer_length() > 10);

    let registry_id = device.registry_id();

    assert_ne!(0, registry_id);
    let size = device.max_threads_per_threadgroup();

    assert_ne!(0, size.width);
    assert_ne!(0, size.height);
    assert_ne!(0, size.depth);

    assert!(device.has_unified_memory());

    let tier = device.read_write_texture_support();
    assert_ne!(tier, ReadWriteTextureTier::NoSupport);

    let tier = device.argument_buffers_support();
    assert_ne!(tier, ArgumentBuffersTier::_1);

    assert!(device.default_library_ar().is_none());
    assert!(device.default_library().is_none());

    let td = Descriptor::new_2d_with_pixel_format(PixelFormat::A8Unorm, 100, 200, false);

    let _t = device.texture_with_descriptor(&td).unwrap();
    let _t = device.texture_with_descriptor_ar(&td).unwrap();

    assert!(device.max_buffer_length() > 10);

    let _queue = device.new_cmd_queue_ar().unwrap();
    let _queue = device.new_cmd_queue().unwrap();

    let source = Str::with_str("void function_a() {}");
    let options = None;
    let mut err = None;
    let _lib = device
        .library_with_source_and_error(&source, options, &mut err)
        .unwrap();
}

#[test]
fn buffer_basics() {
    let device = Device::default().unwrap();

    let buffer = device
        .new_buf_len_opts(10, Default::default())
        .unwrap();

    assert_eq!(buffer.len(), 10);
}

#[test]
fn buffer_bounds() {
    let device = Device::default().unwrap();
    assert!(device.new_buf_len_opts(0, Default::default()).is_none());
    let max = device.max_buffer_length();
    assert!(device
        .new_buf_len_opts(max + 1, Default::default())
        .is_none());
    let buffer = device.new_buf_len_opts(4, Default::default()).unwrap();
    assert!(!buffer.is_empty());
    assert_ne!(buffer.gpu_address(), 0);
    assert_eq!(buffer.contents().as_slice(), &[0u8, 0, 0, 0]);
}

#[test]
fn buffer_from_slice() {
    let device = Device::default().unwrap();
    let data: [u32; 3] = [1, 2, 3];
    let buffer = device
        .new_buf_slice(&data, ResourceOptions::default())
        .unwrap();
    assert_eq!(buffer.len(), 12);
    let empty: [u32; 0] = [];
    assert!(device
        .new_buf_slice(&empty, ResourceOptions::default())
        .is_none());
}

#[test]
fn compile_error_convention() {
    let device = Device::default().unwrap();
    let source = Str::with_str("kernel void k() {}");
    let mut err = None;
    let lib = device.library_with_source_and_error(&source, None, &mut err);
    // The error slot must be empty whenever the primary return is success.
    assert!(lib.is_some());
    assert!(err.is_none());

    let empty = Str::with_str("");
    let mut err = None;
    let lib = device.library_with_source_and_error(&empty, None, &mut err);
    assert!(lib.is_none());
    assert!(err.is_some());

    let failed = device.library_with_source(&empty, None);
    let e = failed.unwrap_err();
    assert_eq!(e.domain, 1);
    assert_eq!(e.code, 3);
}

#[test]
fn async_compile_matches_sync() {
    let device = Device::default().unwrap();
    let source = Str::with_str("void f() {}");
    let ok = device.library_with_source_options(&source, None);
    assert!(ok.is_ok());
    let empty = Str::with_str("");
    let failed = device.library_with_source_options(&empty, None);
    assert!(failed.is_err());
}

#[test]
fn pipelines() {
    let device = Device::default().unwrap();

    let name = Str::with_str("main0");
    let function = Function::with_name(&name);
    let _ps = device.compute_pipeline_state_with_function(&function).unwrap();

    let unnamed = Function::with_name(&Str::with_str(""));
    let mut err = None;
    let ps = device.compute_pipeline_state_with_function_error(&unnamed, &mut err);
    assert!(ps.is_none());
    assert!(err.is_some());

    let mut rpd = RenderPipelineDescriptor::new();
    assert!(device.render_pipeline_state_with_descriptor(&rpd).is_err());
    rpd.has_vertex_fn = true;
    rpd.has_fragment_fn = true;
    let rps = device.render_pipeline_state_with_descriptor(&rpd).unwrap();
    assert!(rps.has_fragment_fn);
}

#[test]
fn heap_sizes() {
    let device = Device::default().unwrap();
    let sa = device.heap_buffer_size_and_align(10, ResourceOptions::default());
    assert_eq!(sa.align, 256);
    assert_eq!(sa.size, 256);
    let sa = device.heap_buffer_size_and_align(256, ResourceOptions::default());
    assert_eq!(sa.size, 256);
    let sa = device.heap_buffer_size_and_align(257, ResourceOptions::default());
    assert_eq!(sa.size, 512);

    // 100 x 200 single-byte texels: 20000 bytes round up to two pages.
    let td = Descriptor::new_2d_with_pixel_format(PixelFormat::A8Unorm, 100, 200, false);
    let sa = device.heap_texture_size_and_align(&td);
    assert_eq!(sa.align, 16384);
    assert_eq!(sa.size, 32768);
}

#[test]
fn heap_creation() {
    let device = Device::default().unwrap();
    let hd = cidre::mtl::HeapDescriptor::new(0);
    assert!(device.new_heap_desc(&hd).is_none());
    let hd = cidre::mtl::HeapDescriptor::new(20000);
    let heap = device.new_heap_desc(&hd).unwrap();
    assert_eq!(heap.size, 32768);
}

#[test]
fn texture_factories() {
    let device = Device::default().unwrap();
    let mut td = Descriptor::new_2d_with_pixel_format(PixelFormat::A8Unorm, 100, 200, false);
    let t = device.texture_with_descriptor(&td).unwrap();
    assert_eq!(t.width(), 100);
    assert_eq!(t.height(), 200);
    assert_eq!(t.depth(), 1);
    assert!(t.parent_texture().is_none());
    assert!(t.io_surface().is_none());

    let tv = t
        .new_texture_view_with_pixel_format(PixelFormat::R8Unorm)
        .unwrap();
    assert!(tv.parent_texture().is_some());
    assert_eq!(tv.width(), 100);
    assert_eq!(tv.height(), 200);

    // An out-of-bounds descriptor yields absence, never a handle.
    td.set_width(0);
    assert!(device.texture_with_descriptor(&td).is_none());
    td.set_width(100);
    td.set_pixel_format(PixelFormat::Invalid);
    assert!(device.texture_with_descriptor(&td).is_none());
}

#[test]
fn texture_with_surface_planes() {
    let device = Device::default().unwrap();
    let td = Descriptor::new_2d_with_pixel_format(PixelFormat::Bgra8Unorm, 64, 64, false);
    let surface = cidre::io::Surface::new(64, 64, 2);
    let t = device.texture_with_surface(&td, &surface, 1).unwrap();
    assert_eq!(t.io_surface_plane(), 1);
    assert!(device.texture_with_surface(&td, &surface, 2).is_none());
}

#[test]
fn mipmap_chain() {
    let td = Descriptor::new_2d_with_pixel_format(PixelFormat::A8Unorm, 100, 200, true);
    // floor(log2(200)) + 1 = 8 levels.
    assert_eq!(td.mipmap_level_count(), 8);
    let td = Descriptor::new_2d_with_pixel_format(PixelFormat::A8Unorm, 1, 1, true);
    assert_eq!(td.mipmap_level_count(), 1);
    let td = Descriptor::new_cube_with_pixel_format(PixelFormat::A8Unorm, 256, true);
    assert_eq!(td.mipmap_level_count(), 9);
    assert_eq!(td.texture_type(), cidre::mtl::texture::Type::Cube);
}

#[test]
fn queue_bounds() {
    let device = Device::default().unwrap();
    assert!(device.new_cmd_queue_max_cmd_buf_count(0).is_none());
    let q = device.new_cmd_queue_max_cmd_buf_count(1).unwrap();
    assert_eq!(q.max_cmd_buf_count, 1);
    let q = device.new_cmd_queue().unwrap();
    assert_eq!(q.max_cmd_buf_count, 64);
}
