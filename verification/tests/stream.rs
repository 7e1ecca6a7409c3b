use cidre::cm;
use cidre::cv;
use cidre::dispatch;
use cidre::sc;
use cidre::sc::stream::{
    CaptureDynamicRange, Cfg, CfgPreset, ContentFilter, FrameInfo, Output, OutputType, Stream,
};

struct FrameCounter(usize);

impl Output for FrameCounter {
    fn stream_did_output_sample_buf(
        &mut self,
        _stream: &Stream,
        _sample_buf: &mut cm::SampleBuf,
        _kind: OutputType,
    ) {
        self.0 += 1;
    }
}

#[test]
fn stream_basics() {
    let mut cfg = Cfg::new();

    cfg.set_width(200);
    assert_eq!(200, cfg.width());
    cfg.set_height(300);
    assert_eq!(300, cfg.height());

    cfg.set_minimum_frame_interval(cm::Time::new(1, 60));
    cfg.set_pixel_format(cv::PixelFormat::bgra32());
    cfg.set_scales_to_fit(false);
    cfg.set_shows_cursor(true);
}

#[test]
fn start_fails() {
    let q = dispatch::Queue::serial_with_ar_pool();
    let display = sc::Display::new(1, 1440, 900);
    let mut cfg = Cfg::new();
    cfg.set_width(display.width() as usize * 2);
    cfg.set_height(display.height() as usize * 2);

    let windows: Vec<sc::Window> = Vec::new();
    let filter = ContentFilter::with_display_excluding_windows(&display, &windows);
    let mut stream = Stream::new(&filter, &cfg);
    let delegate = FrameCounter(0);
    stream
        .add_stream_output(&delegate, OutputType::Screen, Some(&q))
        .unwrap();
    stream.start().expect("started");
    stream.start().expect_err("already started");

    stream.stop().expect("stopped");
    stream.stop().expect_err("already stopped");
}

#[test]
fn start_with_future_resolves_once() {
    let display = sc::Display::new(1, 800, 600);
    let cfg = Cfg::new();
    let windows: Vec<sc::Window> = Vec::new();
    let filter = ContentFilter::with_display_excluding_windows(&display, &windows);
    let mut stream = Stream::new(&filter, &cfg);

    let mut first = cidre::blocks::ok();
    assert!(!first.is_resolved());
    stream.start_with_ch(&mut first);
    assert!(first.is_resolved());
    assert!(first.wait().is_ok());

    // The second start's own future resolves, to a failure.
    let mut second = cidre::blocks::ok();
    stream.start_with_ch(&mut second);
    assert!(second.is_resolved());
    let err = second.wait().unwrap_err();
    assert_eq!(err.domain, 2);
    assert_eq!(err.code, -3807);
}

#[test]
fn duplicate_output_type_fails() {
    let display = sc::Display::new(1, 800, 600);
    let cfg = Cfg::new();
    let windows: Vec<sc::Window> = Vec::new();
    let filter = ContentFilter::with_display_excluding_windows(&display, &windows);
    let mut stream = Stream::new(&filter, &cfg);
    let out = FrameCounter(0);
    stream
        .add_stream_output(&out, OutputType::Screen, None)
        .expect("first output");
    let e = stream
        .add_stream_output(&out, OutputType::Screen, None)
        .expect_err("same type twice");
    assert_eq!(e.code, -3802);
    stream
        .add_stream_output(&out, OutputType::Audio, None)
        .expect("other type still fine");
}

#[test]
fn cfg_defaults() {
    let cfg = Cfg::new();
    assert_eq!(cfg.sample_rate(), 48000);
    assert_eq!(cfg.channel_count(), 2);
    assert!(!cfg.captures_audio());
    assert!(cfg.shows_cursor());
    assert!(!cfg.show_mouse_clicks());
    assert!(cfg.include_child_windows());
    assert_eq!(cfg.queue_depth(), 8);
    assert_eq!(cfg.pixel_format(), cv::PixelFormat::bgra32());
    assert_eq!(cfg.capture_dynamic_range(), CaptureDynamicRange::Sdr);
    assert!(cfg.mic_capture_device_id().is_none());
    assert_eq!(cfg.color_matrix().get_length(), 0);
}

#[test]
fn cfg_string_properties() {
    let mut cfg = Cfg::new();
    let matrix = cidre::cf::string::Str::from_str("ITU_R_709_2");
    cfg.set_color_matrix(&matrix);
    assert_eq!(cfg.color_matrix().get_length(), 11);
    let mic = cidre::ns::string::Str::with_str("built-in");
    cfg.set_mic_capture_device_id(Some(&mic));
    let got = cfg.mic_capture_device_id().unwrap();
    assert_eq!(&got, &mic);
}

#[test]
fn cfg_presets() {
    let cfg = Cfg::with_preset(CfgPreset::CaptureHdrStreamLocalDisplay);
    assert_eq!(cfg.capture_dynamic_range(), CaptureDynamicRange::HdrLocalDisplay);
    let cfg = Cfg::with_preset(CfgPreset::CaptureHdrScreenshotCanoncalDisplay);
    assert_eq!(cfg.capture_dynamic_range(), CaptureDynamicRange::HdrCanonicalDisplay);
}

#[test]
fn window_filter_ignores_menu_bar_setting() {
    let window = sc::Window::new(7, cidre::cg::Rect::new(0, 0, 400, 300));
    let mut filter = ContentFilter::with_desktop_independent_window(&window);
    assert_eq!(filter.style(), sc::ShareableContentStyle::Window);
    assert!(!filter.include_menu_bar());
    filter.set_include_menu_bar(true);
    assert!(!filter.include_menu_bar());

    let display = sc::Display::new(1, 800, 600);
    let windows: Vec<sc::Window> = Vec::new();
    let mut filter = ContentFilter::with_display_excluding_windows(&display, &windows);
    assert_eq!(filter.style(), sc::ShareableContentStyle::Display);
    assert!(filter.include_menu_bar());
    filter.set_include_menu_bar(false);
    assert!(!filter.include_menu_bar());
    assert_eq!(filter.content_rect().size.width, 800);
}

#[test]
fn recording_outputs_attach_once() {
    let display = sc::Display::new(1, 800, 600);
    let cfg = Cfg::new();
    let windows: Vec<sc::Window> = Vec::new();
    let filter = ContentFilter::with_display_excluding_windows(&display, &windows);
    let mut stream = Stream::new(&filter, &cfg);

    let rec = cidre::sc::stream::RecordingOutput::new(7);
    stream.add_recording_output(&rec).expect("first attach");
    let e = stream.add_recording_output(&rec).expect_err("already attached");
    assert_eq!(e.code, -3810);

    stream.remove_recording_output(&rec).expect("attached");
    let e = stream.remove_recording_output(&rec).expect_err("already removed");
    assert_eq!(e.code, -3811);

    // Another destination is unaffected.
    let other = cidre::sc::stream::RecordingOutput::new(8);
    stream.add_recording_output(&other).expect("fresh destination");
}

#[test]
fn frame_info_keys_are_distinct() {
    let keys = [
        FrameInfo::status(),
        FrameInfo::display_time(),
        FrameInfo::scale_factor(),
        FrameInfo::content_scale(),
        FrameInfo::content_rect(),
        FrameInfo::dirty_rects(),
        FrameInfo::screen_rect(),
        FrameInfo::bounding_rect(),
        FrameInfo::presenter_overlay_content_rect(),
    ];
    for a in 0..keys.len() {
        for b in 0..keys.len() {
            assert_eq!(a == b, keys[a] == keys[b]);
        }
    }
}
