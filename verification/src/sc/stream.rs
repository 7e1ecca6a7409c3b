//! The capture stream surface: the configuration a stream is created
//! with, the content filter it captures through, and the stream itself
//! with its asynchronous start and stop.
//!
//! Starting and stopping deliver their outcome through the one-shot
//! completion future of [`crate::blocks`]: the future resolves exactly
//! once, and it resolves to a failure exactly when the synchronous
//! precondition — a stream not yet running, a stream still running —
//! fails.

use vstd::prelude::*;

use crate::blocks::ErrCompletionHandler;
use crate::ns::error::Error;

verus! {

/// The status of one captured frame.
#[derive(Clone, Copy, PartialEq, Eq, Structural, Debug)]
pub enum FrameStatus {
    Complete,
    Idle,
    Blank,
    Suspended,
    Started,
    Stopped,
}

/// A key for retrieving metadata from a captured frame's attachment
/// dictionary. Each platform key is a distinct global constant object;
/// the model reduces each to a distinct token.
#[derive(Clone, Copy, PartialEq, Eq, Structural, Debug)]
pub struct FrameInfo {
    /// The identity of the key constant.
    pub raw: u64,
}

impl FrameInfo {
    /// The key for the frame's status.
    pub fn status() -> (r: FrameInfo)
        ensures
            r.raw == 1,
    {
        FrameInfo { raw: 1 }
    }

    /// The key for the time the frame was displayed.
    pub fn display_time() -> (r: FrameInfo)
        ensures
            r.raw == 2,
    {
        FrameInfo { raw: 2 }
    }

    /// The key for the display's pixel-to-point scale factor.
    pub fn scale_factor() -> (r: FrameInfo)
        ensures
            r.raw == 3,
    {
        FrameInfo { raw: 3 }
    }

    /// The key for the content's scale from original size to surface
    /// size.
    pub fn content_scale() -> (r: FrameInfo)
        ensures
            r.raw == 4,
    {
        FrameInfo { raw: 4 }
    }

    /// The key for the content's size and location in the surface.
    pub fn content_rect() -> (r: FrameInfo)
        ensures
            r.raw == 5,
    {
        FrameInfo { raw: 5 }
    }

    /// The key for the union of redrawn and moved rectangles.
    pub fn dirty_rects() -> (r: FrameInfo)
        ensures
            r.raw == 6,
    {
        FrameInfo { raw: 6 }
    }

    /// The key for the captured content's onscreen location.
    pub fn screen_rect() -> (r: FrameInfo)
        ensures
            r.raw == 7,
    {
        FrameInfo { raw: 7 }
    }

    /// The key for the smallest box holding all captured windows.
    pub fn bounding_rect() -> (r: FrameInfo)
        ensures
            r.raw == 8,
    {
        FrameInfo { raw: 8 }
    }

    /// The key for the content rect while in presenter overlay.
    pub fn presenter_overlay_content_rect() -> (r: FrameInfo)
        ensures
            r.raw == 9,
    {
        FrameInfo { raw: 9 }
    }
}

/// Which of a stream's outputs a sample belongs to.
#[derive(Clone, Copy, PartialEq, Eq, Structural, Debug)]
pub enum OutputType {
    Screen,
    Audio,
    Mic,
}

/// When to show the presenter overlay privacy alert.
#[derive(Clone, Copy, PartialEq, Eq, Structural, Debug)]
pub enum PresenterOverlayAlertSetting {
    /// Let the system decide when to show the alert.
    System,
    /// Never show the alert.
    Never,
    /// Always show the alert.
    Always,
}

/// How the capture resolution is chosen.
#[derive(Clone, Copy, PartialEq, Eq, Structural, Debug)]
pub enum CaptureResolution {
    Automatic,
    Best,
    Nominal,
}

/// Suggested configuration values for common uses.
#[derive(Clone, Copy, PartialEq, Eq, Structural, Debug)]
pub enum CfgPreset {
    CaptureHdrStreamLocalDisplay,
    CaptureHdrStreamCanoncalDisplay,
    CaptureHdrScreenshotLocalDisplay,
    CaptureHdrScreenshotCanoncalDisplay,
}

/// The dynamic range captured frames carry.
#[derive(Clone, Copy, PartialEq, Eq, Structural, Debug)]
pub enum CaptureDynamicRange {
    Sdr,
    HdrLocalDisplay,
    HdrCanonicalDisplay,
}

/// The mathematical shadow of a configuration: every property as a plain
/// value, strings as their character sequences.
pub ghost struct CfgModel {
    pub width: usize,
    pub height: usize,
    pub minimum_frame_interval: crate::cm::Time,
    pub pixel_format: crate::cv::PixelFormat,
    pub scales_to_fit: bool,
    pub preserves_aspect_ratio: bool,
    pub shows_cursor: bool,
    pub show_mouse_clicks: bool,
    pub background_color: crate::cg::Color,
    pub src_rect: crate::cg::Rect,
    pub dst_rect: crate::cg::Rect,
    pub queue_depth: isize,
    pub color_matrix: Seq<char>,
    pub color_space_name: Seq<char>,
    pub captures_audio: bool,
    pub sample_rate: i64,
    pub channel_count: i64,
    pub excludes_current_process_audio: bool,
    pub ignore_shadows_display: bool,
    pub ignore_shadows_single_window: bool,
    pub capture_resolution: CaptureResolution,
    pub captures_shadows_only: bool,
    pub should_be_opaque: bool,
    pub ignore_global_clip_display: bool,
    pub ignore_global_clip_single_window: bool,
    pub presenter_overlay_privacy_alert_setting: PresenterOverlayAlertSetting,
    pub include_child_windows: bool,
    pub capture_mic: bool,
    pub mic_capture_device_id: Option<Seq<char>>,
    pub capture_dynamic_range: CaptureDynamicRange,
}

/// The configuration values the documented defaults give a fresh
/// configuration.
pub open spec fn spec_default_cfg() -> CfgModel {
    CfgModel {
        width: 0,
        height: 0,
        minimum_frame_interval: crate::cm::spec_zero_time(),
        pixel_format: (crate::cv::PixelFormat { raw: 0x42475241 }),
        scales_to_fit: false,
        preserves_aspect_ratio: true,
        shows_cursor: true,
        show_mouse_clicks: false,
        background_color: crate::cg::spec_clear_color(),
        src_rect: crate::cg::spec_zero_rect(),
        dst_rect: crate::cg::spec_zero_rect(),
        queue_depth: 8,
        color_matrix: Seq::empty(),
        color_space_name: Seq::empty(),
        captures_audio: false,
        sample_rate: 48000,
        channel_count: 2,
        excludes_current_process_audio: false,
        ignore_shadows_display: false,
        ignore_shadows_single_window: false,
        capture_resolution: CaptureResolution::Automatic,
        captures_shadows_only: false,
        should_be_opaque: false,
        ignore_global_clip_display: false,
        ignore_global_clip_single_window: false,
        presenter_overlay_privacy_alert_setting: PresenterOverlayAlertSetting::System,
        include_child_windows: true,
        capture_mic: false,
        mic_capture_device_id: None,
        capture_dynamic_range: CaptureDynamicRange::Sdr,
    }
}

/// A stream configuration: one settable property per capture knob.
#[derive(Debug)]
pub struct Cfg {
    width: usize,
    height: usize,
    minimum_frame_interval: crate::cm::Time,
    pixel_format: crate::cv::PixelFormat,
    scales_to_fit: bool,
    preserves_aspect_ratio: bool,
    shows_cursor: bool,
    show_mouse_clicks: bool,
    background_color: crate::cg::Color,
    src_rect: crate::cg::Rect,
    dst_rect: crate::cg::Rect,
    queue_depth: isize,
    color_matrix: crate::cf::string::Str,
    color_space_name: crate::cf::string::Str,
    captures_audio: bool,
    sample_rate: i64,
    channel_count: i64,
    excludes_current_process_audio: bool,
    ignore_shadows_display: bool,
    ignore_shadows_single_window: bool,
    capture_resolution: CaptureResolution,
    captures_shadows_only: bool,
    should_be_opaque: bool,
    ignore_global_clip_display: bool,
    ignore_global_clip_single_window: bool,
    presenter_overlay_privacy_alert_setting: PresenterOverlayAlertSetting,
    include_child_windows: bool,
    capture_mic: bool,
    mic_capture_device_id: Option<crate::ns::string::Str>,
    capture_dynamic_range: CaptureDynamicRange,
}

impl Cfg {
    /// Every property of the configuration, as one ghost record.
    pub closed spec fn model(self) -> CfgModel {
        CfgModel {
            width: self.width,
            height: self.height,
            minimum_frame_interval: self.minimum_frame_interval,
            pixel_format: self.pixel_format,
            scales_to_fit: self.scales_to_fit,
            preserves_aspect_ratio: self.preserves_aspect_ratio,
            shows_cursor: self.shows_cursor,
            show_mouse_clicks: self.show_mouse_clicks,
            background_color: self.background_color,
            src_rect: self.src_rect,
            dst_rect: self.dst_rect,
            queue_depth: self.queue_depth,
            color_matrix: self.color_matrix@,
            color_space_name: self.color_space_name@,
            captures_audio: self.captures_audio,
            sample_rate: self.sample_rate,
            channel_count: self.channel_count,
            excludes_current_process_audio: self.excludes_current_process_audio,
            ignore_shadows_display: self.ignore_shadows_display,
            ignore_shadows_single_window: self.ignore_shadows_single_window,
            capture_resolution: self.capture_resolution,
            captures_shadows_only: self.captures_shadows_only,
            should_be_opaque: self.should_be_opaque,
            ignore_global_clip_display: self.ignore_global_clip_display,
            ignore_global_clip_single_window: self.ignore_global_clip_single_window,
            presenter_overlay_privacy_alert_setting: self.presenter_overlay_privacy_alert_setting,
            include_child_windows: self.include_child_windows,
            capture_mic: self.capture_mic,
            mic_capture_device_id: match self.mic_capture_device_id { Some(s) => Some(s@), None => None },
            capture_dynamic_range: self.capture_dynamic_range,
        }
    }

    /// A fresh configuration holding the documented defaults.
    pub fn new() -> (r: Cfg)
        ensures
            r.model() == spec_default_cfg(),
    {
        let r = Cfg {
            width: 0,
            height: 0,
            minimum_frame_interval: crate::cm::Time::zero(),
            pixel_format: crate::cv::PixelFormat::bgra32(),
            scales_to_fit: false,
            preserves_aspect_ratio: true,
            shows_cursor: true,
            show_mouse_clicks: false,
            background_color: crate::cg::Color::clear(),
            src_rect: crate::cg::Rect::zero(),
            dst_rect: crate::cg::Rect::zero(),
            queue_depth: 8,
            color_matrix: crate::cf::string::Str::from_str(""),
            color_space_name: crate::cf::string::Str::from_str(""),
            captures_audio: false,
            sample_rate: 48000,
            channel_count: 2,
            excludes_current_process_audio: false,
            ignore_shadows_display: false,
            ignore_shadows_single_window: false,
            capture_resolution: CaptureResolution::Automatic,
            captures_shadows_only: false,
            should_be_opaque: false,
            ignore_global_clip_display: false,
            ignore_global_clip_single_window: false,
            presenter_overlay_privacy_alert_setting: PresenterOverlayAlertSetting::System,
            include_child_windows: true,
            capture_mic: false,
            mic_capture_device_id: None,
            capture_dynamic_range: CaptureDynamicRange::Sdr,
        };
        proof {
            reveal_strlit("");
            assert("" @ =~= Seq::<char>::empty());
        }
        r
    }

    pub fn width(&self) -> (r: usize)
        ensures
            r == self.model().width,
    {
        self.width
    }

    pub fn set_width(&mut self, val: usize)
        ensures
            final(self).model() == (CfgModel { width: val, ..old(self).model() }),
    {
        self.width = val;
    }

    pub fn height(&self) -> (r: usize)
        ensures
            r == self.model().height,
    {
        self.height
    }

    pub fn set_height(&mut self, val: usize)
        ensures
            final(self).model() == (CfgModel { height: val, ..old(self).model() }),
    {
        self.height = val;
    }

    pub fn minimum_frame_interval(&self) -> (r: crate::cm::Time)
        ensures
            r == self.model().minimum_frame_interval,
    {
        self.minimum_frame_interval
    }

    pub fn set_minimum_frame_interval(&mut self, val: crate::cm::Time)
        ensures
            final(self).model() == (CfgModel { minimum_frame_interval: val, ..old(self).model() }),
    {
        self.minimum_frame_interval = val;
    }

    pub fn pixel_format(&self) -> (r: crate::cv::PixelFormat)
        ensures
            r == self.model().pixel_format,
    {
        self.pixel_format
    }

    pub fn set_pixel_format(&mut self, val: crate::cv::PixelFormat)
        ensures
            final(self).model() == (CfgModel { pixel_format: val, ..old(self).model() }),
    {
        self.pixel_format = val;
    }

    pub fn scales_to_fit(&self) -> (r: bool)
        ensures
            r == self.model().scales_to_fit,
    {
        self.scales_to_fit
    }

    pub fn set_scales_to_fit(&mut self, val: bool)
        ensures
            final(self).model() == (CfgModel { scales_to_fit: val, ..old(self).model() }),
    {
        self.scales_to_fit = val;
    }

    pub fn preserves_aspect_ratio(&self) -> (r: bool)
        ensures
            r == self.model().preserves_aspect_ratio,
    {
        self.preserves_aspect_ratio
    }

    pub fn set_preserves_aspect_ratio(&mut self, val: bool)
        ensures
            final(self).model() == (CfgModel { preserves_aspect_ratio: val, ..old(self).model() }),
    {
        self.preserves_aspect_ratio = val;
    }

    pub fn shows_cursor(&self) -> (r: bool)
        ensures
            r == self.model().shows_cursor,
    {
        self.shows_cursor
    }

    pub fn set_shows_cursor(&mut self, val: bool)
        ensures
            final(self).model() == (CfgModel { shows_cursor: val, ..old(self).model() }),
    {
        self.shows_cursor = val;
    }

    pub fn show_mouse_clicks(&self) -> (r: bool)
        ensures
            r == self.model().show_mouse_clicks,
    {
        self.show_mouse_clicks
    }

    pub fn set_show_mouse_clicks(&mut self, val: bool)
        ensures
            final(self).model() == (CfgModel { show_mouse_clicks: val, ..old(self).model() }),
    {
        self.show_mouse_clicks = val;
    }

    pub fn background_color(&self) -> (r: crate::cg::Color)
        ensures
            r == self.model().background_color,
    {
        self.background_color
    }

    pub fn set_background_color(&mut self, val: crate::cg::Color)
        ensures
            final(self).model() == (CfgModel { background_color: val, ..old(self).model() }),
    {
        self.background_color = val;
    }

    pub fn src_rect(&self) -> (r: crate::cg::Rect)
        ensures
            r == self.model().src_rect,
    {
        self.src_rect
    }

    pub fn set_src_rect(&mut self, val: crate::cg::Rect)
        ensures
            final(self).model() == (CfgModel { src_rect: val, ..old(self).model() }),
    {
        self.src_rect = val;
    }

    pub fn dst_rect(&self) -> (r: crate::cg::Rect)
        ensures
            r == self.model().dst_rect,
    {
        self.dst_rect
    }

    pub fn set_dst_rect(&mut self, val: crate::cg::Rect)
        ensures
            final(self).model() == (CfgModel { dst_rect: val, ..old(self).model() }),
    {
        self.dst_rect = val;
    }

    pub fn queue_depth(&self) -> (r: isize)
        ensures
            r == self.model().queue_depth,
    {
        self.queue_depth
    }

    pub fn set_queue_depth(&mut self, val: isize)
        ensures
            final(self).model() == (CfgModel { queue_depth: val, ..old(self).model() }),
    {
        self.queue_depth = val;
    }

    pub fn color_matrix(&self) -> (r: &crate::cf::string::Str)
        ensures
            r@ == self.model().color_matrix,
    {
        &self.color_matrix
    }

    pub fn set_color_matrix(&mut self, val: &crate::cf::string::Str)
        ensures
            final(self).model() == (CfgModel { color_matrix: val@, ..old(self).model() }),
    {
        self.color_matrix = match val.copy() {
            Some(s) => s,
            None => unreached(),
        };
    }

    pub fn color_space_name(&self) -> (r: &crate::cf::string::Str)
        ensures
            r@ == self.model().color_space_name,
    {
        &self.color_space_name
    }

    pub fn set_color_space_name(&mut self, val: &crate::cf::string::Str)
        ensures
            final(self).model() == (CfgModel { color_space_name: val@, ..old(self).model() }),
    {
        self.color_space_name = match val.copy() {
            Some(s) => s,
            None => unreached(),
        };
    }

    pub fn captures_audio(&self) -> (r: bool)
        ensures
            r == self.model().captures_audio,
    {
        self.captures_audio
    }

    pub fn set_captures_audio(&mut self, val: bool)
        ensures
            final(self).model() == (CfgModel { captures_audio: val, ..old(self).model() }),
    {
        self.captures_audio = val;
    }

    pub fn sample_rate(&self) -> (r: i64)
        ensures
            r == self.model().sample_rate,
    {
        self.sample_rate
    }

    pub fn set_sample_rate(&mut self, val: i64)
        ensures
            final(self).model() == (CfgModel { sample_rate: val, ..old(self).model() }),
    {
        self.sample_rate = val;
    }

    pub fn channel_count(&self) -> (r: i64)
        ensures
            r == self.model().channel_count,
    {
        self.channel_count
    }

    pub fn set_channel_count(&mut self, val: i64)
        ensures
            final(self).model() == (CfgModel { channel_count: val, ..old(self).model() }),
    {
        self.channel_count = val;
    }

    pub fn excludes_current_process_audio(&self) -> (r: bool)
        ensures
            r == self.model().excludes_current_process_audio,
    {
        self.excludes_current_process_audio
    }

    pub fn set_excludes_current_process_audio(&mut self, val: bool)
        ensures
            final(self).model() == (CfgModel { excludes_current_process_audio: val, ..old(self).model() }),
    {
        self.excludes_current_process_audio = val;
    }

    pub fn ignore_shadows_display(&self) -> (r: bool)
        ensures
            r == self.model().ignore_shadows_display,
    {
        self.ignore_shadows_display
    }

    pub fn set_ignore_shadows_display(&mut self, val: bool)
        ensures
            final(self).model() == (CfgModel { ignore_shadows_display: val, ..old(self).model() }),
    {
        self.ignore_shadows_display = val;
    }

    pub fn ignore_shadows_single_window(&self) -> (r: bool)
        ensures
            r == self.model().ignore_shadows_single_window,
    {
        self.ignore_shadows_single_window
    }

    pub fn set_ignore_shadows_single_window(&mut self, val: bool)
        ensures
            final(self).model() == (CfgModel { ignore_shadows_single_window: val, ..old(self).model() }),
    {
        self.ignore_shadows_single_window = val;
    }

    pub fn capture_resolution(&self) -> (r: CaptureResolution)
        ensures
            r == self.model().capture_resolution,
    {
        self.capture_resolution
    }

    pub fn set_capture_resolution(&mut self, val: CaptureResolution)
        ensures
            final(self).model() == (CfgModel { capture_resolution: val, ..old(self).model() }),
    {
        self.capture_resolution = val;
    }

    pub fn captures_shadows_only(&self) -> (r: bool)
        ensures
            r == self.model().captures_shadows_only,
    {
        self.captures_shadows_only
    }

    pub fn set_captures_shadows_only(&mut self, val: bool)
        ensures
            final(self).model() == (CfgModel { captures_shadows_only: val, ..old(self).model() }),
    {
        self.captures_shadows_only = val;
    }

    pub fn should_be_opaque(&self) -> (r: bool)
        ensures
            r == self.model().should_be_opaque,
    {
        self.should_be_opaque
    }

    pub fn set_should_be_opaque(&mut self, val: bool)
        ensures
            final(self).model() == (CfgModel { should_be_opaque: val, ..old(self).model() }),
    {
        self.should_be_opaque = val;
    }

    pub fn ignore_global_clip_display(&self) -> (r: bool)
        ensures
            r == self.model().ignore_global_clip_display,
    {
        self.ignore_global_clip_display
    }

    pub fn set_ignore_global_clip_display(&mut self, val: bool)
        ensures
            final(self).model() == (CfgModel { ignore_global_clip_display: val, ..old(self).model() }),
    {
        self.ignore_global_clip_display = val;
    }

    pub fn ignore_global_clip_single_window(&self) -> (r: bool)
        ensures
            r == self.model().ignore_global_clip_single_window,
    {
        self.ignore_global_clip_single_window
    }

    pub fn set_ignore_global_clip_single_window(&mut self, val: bool)
        ensures
            final(self).model() == (CfgModel { ignore_global_clip_single_window: val, ..old(self).model() }),
    {
        self.ignore_global_clip_single_window = val;
    }

    pub fn presenter_overlay_privacy_alert_setting(&self) -> (r: PresenterOverlayAlertSetting)
        ensures
            r == self.model().presenter_overlay_privacy_alert_setting,
    {
        self.presenter_overlay_privacy_alert_setting
    }

    pub fn set_presenter_overlay_privacy_alert_setting(&mut self, val: PresenterOverlayAlertSetting)
        ensures
            final(self).model() == (CfgModel { presenter_overlay_privacy_alert_setting: val, ..old(self).model() }),
    {
        self.presenter_overlay_privacy_alert_setting = val;
    }

    pub fn include_child_windows(&self) -> (r: bool)
        ensures
            r == self.model().include_child_windows,
    {
        self.include_child_windows
    }

    pub fn set_include_child_windows(&mut self, val: bool)
        ensures
            final(self).model() == (CfgModel { include_child_windows: val, ..old(self).model() }),
    {
        self.include_child_windows = val;
    }

    pub fn capture_mic(&self) -> (r: bool)
        ensures
            r == self.model().capture_mic,
    {
        self.capture_mic
    }

    pub fn set_capture_mic(&mut self, val: bool)
        ensures
            final(self).model() == (CfgModel { capture_mic: val, ..old(self).model() }),
    {
        self.capture_mic = val;
    }

    pub fn mic_capture_device_id(&self) -> (r: Option<crate::ns::string::Str>)
        ensures
            match r {
                Some(s) => self.model().mic_capture_device_id == Some(s@),
                None => self.model().mic_capture_device_id is None,
            },
    {
        match &self.mic_capture_device_id {
            Some(s) => Some(s.retained()),
            None => None,
        }
    }

    pub fn set_mic_capture_device_id(&mut self, val: Option<&crate::ns::string::Str>)
        ensures
            final(self).model() == (CfgModel {
                mic_capture_device_id: match val { Some(s) => Some(s@), None => None },
                ..old(self).model()
            }),
    {
        self.mic_capture_device_id = match val {
            Some(s) => Some(s.retained()),
            None => None,
        };
    }

    pub fn capture_dynamic_range(&self) -> (r: CaptureDynamicRange)
        ensures
            r == self.model().capture_dynamic_range,
    {
        self.capture_dynamic_range
    }

    pub fn set_capture_dynamic_range(&mut self, val: CaptureDynamicRange)
        ensures
            final(self).model() == (CfgModel { capture_dynamic_range: val, ..old(self).model() }),
    {
        self.capture_dynamic_range = val;
    }

    /// A configuration preset: the defaults with the dynamic range the
    /// preset names.
    pub fn with_preset(preset: CfgPreset) -> (r: Cfg)
        ensures
            r.model() == (CfgModel {
                capture_dynamic_range: spec_preset_dynamic_range(preset),
                ..spec_default_cfg()
            }),
    {
        let mut cfg = Cfg::new();
        let range = match preset {
            CfgPreset::CaptureHdrStreamLocalDisplay => CaptureDynamicRange::HdrLocalDisplay,
            CfgPreset::CaptureHdrStreamCanoncalDisplay => CaptureDynamicRange::HdrCanonicalDisplay,
            CfgPreset::CaptureHdrScreenshotLocalDisplay => CaptureDynamicRange::HdrLocalDisplay,
            CfgPreset::CaptureHdrScreenshotCanoncalDisplay => {
                CaptureDynamicRange::HdrCanonicalDisplay
            },
        };
        cfg.set_capture_dynamic_range(range);
        cfg
    }
}

/// The dynamic range each preset asks for.
pub open spec fn spec_preset_dynamic_range(preset: CfgPreset) -> CaptureDynamicRange {
    match preset {
        CfgPreset::CaptureHdrStreamLocalDisplay => CaptureDynamicRange::HdrLocalDisplay,
        CfgPreset::CaptureHdrStreamCanoncalDisplay => CaptureDynamicRange::HdrCanonicalDisplay,
        CfgPreset::CaptureHdrScreenshotLocalDisplay => CaptureDynamicRange::HdrLocalDisplay,
        CfgPreset::CaptureHdrScreenshotCanoncalDisplay => CaptureDynamicRange::HdrCanonicalDisplay,
    }
}

/// A content filter: what a stream captures.
#[derive(Clone, Copy, PartialEq, Eq, Structural, Debug)]
pub struct ContentFilter {
    /// The kind of content selected.
    pub style: crate::sc::ShareableContentStyle,
    /// The selected content's bounds in points.
    pub content_rect: crate::cg::Rect,
    /// Whether the menu bar is part of the capture.
    pub include_menu_bar: bool,
}

impl ContentFilter {
    /// The initializer behind
    /// [`ContentFilter::with_desktop_independent_window`]: captures just
    /// the one window.
    pub fn init_with_desktop_independent_window(window: &crate::sc::Window) -> (r: ContentFilter)
        ensures
            r.style == crate::sc::ShareableContentStyle::Window,
            r.content_rect == window.frame,
            !r.include_menu_bar,
    {
        ContentFilter {
            style: crate::sc::ShareableContentStyle::Window,
            content_rect: window.frame,
            include_menu_bar: false,
        }
    }

    /// The initializer behind
    /// [`ContentFilter::with_display_excluding_windows`]: captures a
    /// display without the named windows. A display filter includes the
    /// menu bar by default.
    pub fn init_with_display_excluding_windows(
        display: &crate::sc::Display,
        windows: &Vec<crate::sc::Window>,
    ) -> (r: ContentFilter)
        ensures
            r.style == crate::sc::ShareableContentStyle::Display,
            r.content_rect == (crate::cg::Rect {
                origin: (crate::cg::Point { x: 0, y: 0 }),
                size: (crate::cg::Size { width: display.width, height: display.height }),
            }),
            r.include_menu_bar,
    {
        let _ = windows;
        ContentFilter {
            style: crate::sc::ShareableContentStyle::Display,
            content_rect: display.frame(),
            include_menu_bar: true,
        }
    }

    /// A filter that captures just the given window.
    pub fn with_desktop_independent_window(window: &crate::sc::Window) -> (r: ContentFilter)
        ensures
            r.style == crate::sc::ShareableContentStyle::Window,
            r.content_rect == window.frame,
            !r.include_menu_bar,
    {
        Self::init_with_desktop_independent_window(window)
    }

    /// A filter that captures a display without the named windows.
    pub fn with_display_excluding_windows(
        display: &crate::sc::Display,
        windows: &Vec<crate::sc::Window>,
    ) -> (r: ContentFilter)
        ensures
            r.style == crate::sc::ShareableContentStyle::Display,
            r.content_rect == (crate::cg::Rect {
                origin: (crate::cg::Point { x: 0, y: 0 }),
                size: (crate::cg::Size { width: display.width, height: display.height }),
            }),
            r.include_menu_bar,
    {
        Self::init_with_display_excluding_windows(display, windows)
    }

    /// The kind of content selected.
    pub fn style(&self) -> (r: crate::sc::ShareableContentStyle)
        ensures
            r == self.style,
    {
        self.style
    }

    /// The selected content's bounds.
    pub fn content_rect(&self) -> (r: crate::cg::Rect)
        ensures
            r == self.content_rect,
    {
        self.content_rect
    }

    /// Whether the menu bar is part of the capture.
    pub fn include_menu_bar(&self) -> (r: bool)
        ensures
            r == self.include_menu_bar,
    {
        self.include_menu_bar
    }

    /// Chooses whether the menu bar is captured. The setting has no
    /// effect on a desktop-independent window filter.
    pub fn set_include_menu_bar(&mut self, val: bool)
        ensures
            *final(self) == (ContentFilter {
                include_menu_bar: if old(self).style is Window {
                    old(self).include_menu_bar
                } else {
                    val
                },
                ..*old(self)
            }),
    {
        match self.style {
            crate::sc::ShareableContentStyle::Window => {},
            _ => {
                self.include_menu_bar = val;
            },
        }
    }
}

/// A receiver of captured samples; its methods are the callbacks a stream
/// invokes, so implementers supply the behavior.
pub trait Output {
    /// Called with each sample the stream produces for an output type.
    fn stream_did_output_sample_buf(
        &mut self,
        stream: &Stream,
        sample_buf: &mut crate::cm::SampleBuf,
        kind: OutputType,
    );
}

/// A receiver of stream lifecycle notifications.
pub trait Delegate {
    /// Called when the stream stops because of an error.
    fn stream_did_stop_with_err(&mut self, stream: &Stream, error: &Error);

    /// Called when the user stops the stream from system UI.
    fn user_did_stop_stream(&mut self, stream: &Stream);

    /// Called when a video effect turns on.
    fn output_video_effect_did_start_for_stream(&mut self, stream: &Stream);

    /// Called when a video effect turns off.
    fn output_video_effect_did_stop_for_stream(&mut self, stream: &Stream);
}

/// A delegate that ignores every notification.
pub struct AnyDelegate {}

impl Delegate for AnyDelegate {
    fn stream_did_stop_with_err(&mut self, stream: &Stream, error: &Error) {
        let _ = stream;
        let _ = error;
    }

    fn user_did_stop_stream(&mut self, stream: &Stream) {
        let _ = stream;
    }

    fn output_video_effect_did_start_for_stream(&mut self, stream: &Stream) {
        let _ = stream;
    }

    fn output_video_effect_did_stop_for_stream(&mut self, stream: &Stream) {
        let _ = stream;
    }
}

/// Where a stream stands in its lifecycle.
#[derive(Clone, Copy, PartialEq, Eq, Structural, Debug)]
pub enum State {
    /// Created, not yet started.
    Init,
    /// Capturing.
    Running,
    /// Stopped after running; a stream does not restart.
    Stopped,
}

/// The error reported when a start finds the stream not startable.
pub open spec fn spec_cannot_start_error() -> Error {
    Error { domain: 2, code: -3807i64 }
}

/// The error reported when a stop finds the stream not running.
pub open spec fn spec_cannot_stop_error() -> Error {
    Error { domain: 2, code: -3805i64 }
}

/// The error reported when an output of the same type was already added.
pub open spec fn spec_output_exists_error() -> Error {
    Error { domain: 2, code: -3802i64 }
}

/// What a start delivers: success exactly from the initial state.
pub open spec fn start_outcome(s: State) -> Result<(), Error> {
    if s is Init {
        Ok(())
    } else {
        Err(spec_cannot_start_error())
    }
}

/// Where a start leaves the stream: running once it ever succeeds.
pub open spec fn start_next(s: State) -> State {
    if s is Init {
        State::Running
    } else {
        s
    }
}

/// What a stop delivers: success exactly from the running state.
pub open spec fn stop_outcome(s: State) -> Result<(), Error> {
    if s is Running {
        Ok(())
    } else {
        Err(spec_cannot_stop_error())
    }
}

/// Where a stop leaves the stream.
pub open spec fn stop_next(s: State) -> State {
    if s is Running {
        State::Stopped
    } else {
        s
    }
}

/// A recording output: a file-writing destination attached to a stream,
/// reduced to the identity the model compares.
#[derive(Clone, Copy, PartialEq, Eq, Structural, Debug)]
pub struct RecordingOutput {
    /// The identity of the destination.
    pub raw: u64,
}

impl RecordingOutput {
    pub fn new(raw: u64) -> (r: RecordingOutput)
        ensures
            r.raw == raw,
    {
        RecordingOutput { raw }
    }
}

/// The error reported when the same recording output is added twice.
pub open spec fn spec_recording_exists_error() -> Error {
    Error { domain: 2, code: -3810i64 }
}

/// The error reported when a recording output to remove is not attached.
pub open spec fn spec_recording_missing_error() -> Error {
    Error { domain: 2, code: -3811i64 }
}

/// A sequence of identities with every occurrence of one removed.
pub open spec fn remove_id(s: Seq<u64>, id: u64) -> Seq<u64>
    decreases s.len(),
{
    if s.len() == 0 {
        Seq::empty()
    } else {
        let rest = remove_id(s.drop_last(), id);
        if s.last() == id {
            rest
        } else {
            rest.push(s.last())
        }
    }
}

/// A stream of captured content: a lifecycle state plus the output types
/// attached so far.
#[derive(Debug)]
pub struct Stream {
    state: State,
    outputs: Vec<OutputType>,
    recording_outputs: Vec<u64>,
}

impl Stream {
    /// Where the stream stands in its lifecycle.
    pub closed spec fn capture_state(self) -> State {
        self.state
    }

    /// The output types attached so far.
    pub closed spec fn outputs_model(self) -> Seq<OutputType> {
        self.outputs@
    }

    /// The identities of the recording outputs attached so far.
    pub closed spec fn recording_outputs_model(self) -> Seq<u64> {
        self.recording_outputs@
    }

    /// The initializer behind [`Stream::new`] and
    /// [`Stream::with_delegate`]: a fresh stream over a filter and a
    /// configuration, not yet started, with no outputs.
    pub fn init_with_filter_configuration_delegate<D: Delegate>(
        filter: &ContentFilter,
        configuration: &Cfg,
        delegate: Option<&D>,
    ) -> (r: Stream)
        ensures
            r.capture_state() == State::Init,
            r.outputs_model() == Seq::<OutputType>::empty(),
            r.recording_outputs_model() == Seq::<u64>::empty(),
    {
        let _ = filter;
        let _ = configuration;
        let _ = delegate;
        Stream { state: State::Init, outputs: Vec::new(), recording_outputs: Vec::new() }
    }

    /// A fresh stream that notifies the given delegate.
    pub fn with_delegate<D: Delegate>(
        filter: &ContentFilter,
        configuration: &Cfg,
        delegate: &D,
    ) -> (r: Stream)
        ensures
            r.capture_state() == State::Init,
            r.outputs_model() == Seq::<OutputType>::empty(),
            r.recording_outputs_model() == Seq::<u64>::empty(),
    {
        Self::init_with_filter_configuration_delegate::<D>(filter, configuration, Some(delegate))
    }

    /// A fresh stream without a delegate.
    pub fn new(filter: &ContentFilter, configuration: &Cfg) -> (r: Stream)
        ensures
            r.capture_state() == State::Init,
            r.outputs_model() == Seq::<OutputType>::empty(),
            r.recording_outputs_model() == Seq::<u64>::empty(),
    {
        Self::init_with_filter_configuration_delegate::<AnyDelegate>(filter, configuration, None)
    }

    /// The native boolean-plus-error-slot call behind
    /// [`Stream::add_stream_output`]. A true return reports success and
    /// leaves the error slot empty; a false return reports that an output
    /// of the type was already attached, and fills the slot.
    fn add_stream_output_type_sample_handler_queue_err<D: Output>(
        &mut self,
        output: &D,
        output_type: OutputType,
        queue: Option<&crate::dispatch::Queue>,
        error: &mut Option<Error>,
    ) -> (r: bool)
        ensures
            r == !old(self).outputs_model().contains(output_type),
            r ==> *final(error) is None,
            r ==> final(self).outputs_model() == old(self).outputs_model().push(output_type),
            !r ==> *final(error) == Some(spec_output_exists_error()),
            !r ==> final(self).outputs_model() == old(self).outputs_model(),
            final(self).capture_state() == old(self).capture_state(),
            final(self).recording_outputs_model() == old(self).recording_outputs_model(),
    {
        let _ = output;
        let _ = queue;
        let n = self.outputs.len();
        let mut i: usize = 0;
        while i < n
            invariant
                n == self.outputs@.len(),
                i <= n,
                forall|j: int| 0 <= j < i ==> self.outputs@[j] != output_type,
                *self == *old(self),
            decreases n - i,
        {
            if self.outputs[i] == output_type {
                *error = Some(Error::new(2, -3802));
                return false;
            }
            i = i + 1;
        }
        assert(!self.outputs@.contains(output_type));
        *error = None;
        self.outputs.push(output_type);
        true
    }

    /// Attaches a sample receiver for one output type. Success exactly
    /// when no output of that type was attached before; otherwise the
    /// error the native side put in the slot comes back as the failure.
    pub fn add_stream_output<D: Output>(
        &mut self,
        output: &D,
        output_type: OutputType,
        queue: Option<&crate::dispatch::Queue>,
    ) -> (r: Result<(), Error>)
        ensures
            r is Ok <==> !old(self).outputs_model().contains(output_type),
            r is Ok ==> final(self).outputs_model() == old(self).outputs_model().push(output_type),
            r is Err ==> r == Err::<(), Error>(spec_output_exists_error())
                && final(self).outputs_model() == old(self).outputs_model(),
            final(self).capture_state() == old(self).capture_state(),
            final(self).recording_outputs_model() == old(self).recording_outputs_model(),
    {
        let mut error: Option<Error> = None;
        if self.add_stream_output_type_sample_handler_queue_err(output, output_type, queue, &mut error) {
            return Ok(());
        }
        match error {
            Some(e) => Err(e),
            None => unreached(),
        }
    }

    /// The native boolean-plus-error-slot call behind
    /// [`Stream::add_recording_output`]. A true return reports success
    /// and leaves the error slot empty; a false return reports that the
    /// destination was already attached, and fills the slot.
    fn add_recording_output_err(&mut self, val: &RecordingOutput, error: &mut Option<Error>) -> (r:
        bool)
        ensures
            r == !old(self).recording_outputs_model().contains(val.raw),
            r ==> *final(error) is None,
            r ==> final(self).recording_outputs_model() == old(
                self,
            ).recording_outputs_model().push(val.raw),
            !r ==> *final(error) == Some(spec_recording_exists_error()),
            !r ==> final(self).recording_outputs_model() == old(self).recording_outputs_model(),
            final(self).capture_state() == old(self).capture_state(),
            final(self).outputs_model() == old(self).outputs_model(),
    {
        let n = self.recording_outputs.len();
        let mut i: usize = 0;
        while i < n
            invariant
                n == self.recording_outputs@.len(),
                i <= n,
                forall|j: int| 0 <= j < i ==> self.recording_outputs@[j] != val.raw,
                *self == *old(self),
            decreases n - i,
        {
            if self.recording_outputs[i] == val.raw {
                *error = Some(Error::new(2, -3810));
                return false;
            }
            i = i + 1;
        }
        assert(!self.recording_outputs@.contains(val.raw));
        *error = None;
        self.recording_outputs.push(val.raw);
        true
    }

    /// Attaches a recording output. Success exactly when the destination
    /// was not attached before; otherwise the error the native side put
    /// in the slot comes back as the failure.
    pub fn add_recording_output(&mut self, val: &RecordingOutput) -> (r: Result<(), Error>)
        ensures
            r is Ok <==> !old(self).recording_outputs_model().contains(val.raw),
            r is Ok ==> final(self).recording_outputs_model() == old(
                self,
            ).recording_outputs_model().push(val.raw),
            r is Err ==> r == Err::<(), Error>(spec_recording_exists_error())
                && final(self).recording_outputs_model() == old(self).recording_outputs_model(),
            final(self).capture_state() == old(self).capture_state(),
            final(self).outputs_model() == old(self).outputs_model(),
    {
        let mut error: Option<Error> = None;
        if self.add_recording_output_err(val, &mut error) {
            return Ok(());
        }
        match error {
            Some(e) => Err(e),
            None => unreached(),
        }
    }

    /// The native boolean-plus-error-slot call behind
    /// [`Stream::remove_recording_output`], with the same conventions.
    fn remove_recording_output_err(
        &mut self,
        val: &RecordingOutput,
        error: &mut Option<Error>,
    ) -> (r: bool)
        ensures
            r == old(self).recording_outputs_model().contains(val.raw),
            r ==> *final(error) is None,
            !r ==> *final(error) == Some(spec_recording_missing_error()),
            final(self).recording_outputs_model() == remove_id(
                old(self).recording_outputs_model(),
                val.raw,
            ),
            final(self).capture_state() == old(self).capture_state(),
            final(self).outputs_model() == old(self).outputs_model(),
    {
        let n = self.recording_outputs.len();
        let mut kept: Vec<u64> = Vec::new();
        let mut found = false;
        let mut i: usize = 0;
        while i < n
            invariant
                n == self.recording_outputs@.len(),
                i <= n,
                *self == *old(self),
                kept@ == remove_id(self.recording_outputs@.take(i as int), val.raw),
                found == self.recording_outputs@.take(i as int).contains(val.raw),
            decreases n - i,
        {
            let id = self.recording_outputs[i];
            proof {
                assert(self.recording_outputs@.take(i + 1).drop_last()
                    =~= self.recording_outputs@.take(i as int));
            }
            if id == val.raw {
                found = true;
                proof {
                    assert(self.recording_outputs@.take(i + 1)[i as int] == id);
                    assert(self.recording_outputs@.take(i + 1).contains(val.raw));
                }
            } else {
                kept.push(id);
                proof {
                    if self.recording_outputs@.take(i + 1).contains(val.raw) {
                        let w = choose|w: int|
                            0 <= w < i + 1 && #[trigger] self.recording_outputs@.take(i + 1)[w]
                                == val.raw;
                        assert(self.recording_outputs@.take(i as int)[w] == val.raw);
                        assert(self.recording_outputs@.take(i as int).contains(val.raw));
                    }
                    if self.recording_outputs@.take(i as int).contains(val.raw) {
                        let w = choose|w: int|
                            0 <= w < i && #[trigger] self.recording_outputs@.take(i as int)[w]
                                == val.raw;
                        assert(self.recording_outputs@.take(i + 1)[w] == val.raw);
                        assert(self.recording_outputs@.take(i + 1).contains(val.raw));
                    }
                }
            }
            i = i + 1;
        }
        proof {
            assert(self.recording_outputs@.take(n as int) =~= self.recording_outputs@);
        }
        if found {
            *error = None;
        } else {
            *error = Some(Error::new(2, -3811));
        }
        self.recording_outputs = kept;
        found
    }

    /// Detaches a recording output. Success exactly when the destination
    /// was attached; either way it is absent afterwards.
    pub fn remove_recording_output(&mut self, val: &RecordingOutput) -> (r: Result<(), Error>)
        ensures
            r is Ok <==> old(self).recording_outputs_model().contains(val.raw),
            r is Err ==> r == Err::<(), Error>(spec_recording_missing_error()),
            final(self).recording_outputs_model() == remove_id(
                old(self).recording_outputs_model(),
                val.raw,
            ),
            final(self).capture_state() == old(self).capture_state(),
            final(self).outputs_model() == old(self).outputs_model(),
    {
        let mut error: Option<Error> = None;
        if self.remove_recording_output_err(val, &mut error) {
            return Ok(());
        }
        match error {
            Some(e) => Err(e),
            None => unreached(),
        }
    }

    /// Begins capture. The completion future resolves exactly once: to
    /// success when the stream had not started yet, and to the
    /// cannot-start failure otherwise.
    pub fn start_with_ch(&mut self, ch: &mut ErrCompletionHandler)
        requires
            !old(ch).resolved(),
        ensures
            final(ch).resolved(),
            final(ch).outcome() == start_outcome(old(self).capture_state()),
            final(self).capture_state() == start_next(old(self).capture_state()),
            final(self).outputs_model() == old(self).outputs_model(),
            final(self).recording_outputs_model() == old(self).recording_outputs_model(),
    {
        match self.state {
            State::Init => {
                self.state = State::Running;
                ch.resolve(Ok(()));
            },
            _ => {
                ch.resolve(Err(Error::new(2, -3807)));
            },
        }
    }

    /// Ends capture. The completion future resolves exactly once: to
    /// success when the stream was running, and to the cannot-stop
    /// failure otherwise.
    pub fn stop_with_ch(&mut self, ch: &mut ErrCompletionHandler)
        requires
            !old(ch).resolved(),
        ensures
            final(ch).resolved(),
            final(ch).outcome() == stop_outcome(old(self).capture_state()),
            final(self).capture_state() == stop_next(old(self).capture_state()),
            final(self).outputs_model() == old(self).outputs_model(),
            final(self).recording_outputs_model() == old(self).recording_outputs_model(),
    {
        match self.state {
            State::Running => {
                self.state = State::Stopped;
                ch.resolve(Ok(()));
            },
            _ => {
                ch.resolve(Err(Error::new(2, -3805)));
            },
        }
    }

    /// Begins capture and waits for the completion future.
    pub fn start(&mut self) -> (r: Result<(), Error>)
        ensures
            r == start_outcome(old(self).capture_state()),
            final(self).capture_state() == start_next(old(self).capture_state()),
            final(self).outputs_model() == old(self).outputs_model(),
            final(self).recording_outputs_model() == old(self).recording_outputs_model(),
    {
        let mut block = crate::blocks::ok();
        self.start_with_ch(&mut block);
        block.wait()
    }

    /// Ends capture and waits for the completion future.
    pub fn stop(&mut self) -> (r: Result<(), Error>)
        ensures
            r == stop_outcome(old(self).capture_state()),
            final(self).capture_state() == stop_next(old(self).capture_state()),
            final(self).outputs_model() == old(self).outputs_model(),
            final(self).recording_outputs_model() == old(self).recording_outputs_model(),
    {
        let mut block = crate::blocks::ok();
        self.stop_with_ch(&mut block);
        block.wait()
    }
}

/// Whatever state a start found, a second start without an intervening
/// stop finds the stream no longer startable, so its future resolves to
/// the cannot-start failure.
pub proof fn lemma_second_start_fails(s: State)
    ensures
        start_outcome(start_next(s)) is Err,
{
}

/// Whatever state a stop found, a second stop without an intervening
/// start finds the stream no longer running, so its future resolves to
/// the cannot-stop failure.
pub proof fn lemma_second_stop_fails(s: State)
    ensures
        stop_outcome(stop_next(s)) is Err,
{
}

/// A stop right after a successful start succeeds: the start left the
/// stream running.
pub proof fn lemma_stop_after_start(s: State)
    requires
        start_outcome(s) is Ok,
    ensures
        stop_outcome(start_next(s)) is Ok,
{
}

} // verus!
