use cidre::at::StreamBasicDescription;
use cidre::av::audio::{ChannelLayout, CommonFormat, Format, SettingsKey};
use cidre::av::media_format::{FileType, MediaType, VideoRange};
use cidre::cg::ColorSpace;
use cidre::ci;
use cidre::mlc::TensorData;
use cidre::ns::dictionary::Dictionary;
use cidre::ns::error::{if_false_result, Error};
use cidre::ns::range::Range;
use cidre::ns::string::Str;
use cidre::ns::url::Url;

#[test]
fn error_bridge_ignores_spurious_success_error() {
    // A success with a spuriously populated slot stays a success.
    let spurious = Some(Error::new(5, 5));
    assert_eq!(if_false_result(true, spurious), Ok(()));
    assert_eq!(if_false_result(true, None), Ok(()));
}

#[test]
fn error_bridge_never_fails_silently() {
    let reported = Error::new(4, -2);
    assert_eq!(if_false_result(false, Some(reported)), Err(reported));
    // A violated convention — failure with an empty slot — still surfaces
    // the generic fallback.
    let fallback = if_false_result(false, None).unwrap_err();
    assert_eq!(fallback, Error::new(0, -1));
}

#[test]
fn audio_format_channel_rules() {
    // More than two channels without an explicit layout yields absence.
    let three = StreamBasicDescription::new(44100, 0x6C70636D, 0, 3, 32);
    assert!(Format::with_asbd(&three).is_none());
    let stereo = StreamBasicDescription::new(44100, 0x6C70636D, 0, 2, 32);
    let f = Format::with_asbd(&stereo).unwrap();
    assert_eq!(f.channel_count, 2);
    assert_eq!(f.sample_rate, 44100);

    // An explicit layout admits any channel count.
    let layout = ChannelLayout::new(100, 6);
    let f = Format::with_asbd_and_channel_layout(&three, Some(&layout)).unwrap();
    assert_eq!(f.channel_layout, Some(layout));
    assert!(Format::with_asbd_and_channel_layout(&three, None).is_none());

    assert!(Format::standard_with_sample_rate_and_channels(48000, 0).is_none());
    assert!(Format::standard_with_sample_rate_and_channels(48000, 3).is_none());
    let std_f = Format::standard_with_sample_rate_and_channels(48000, 1).unwrap();
    assert_eq!(std_f.common_format, CommonFormat::PCMFloat32);
    assert!(!std_f.interleaved);

    let f = Format::standard_with_sample_rate_and_channel_layout(96000, &layout);
    assert_eq!(f.channel_count, 6);
    let f = Format::with_common_format_sample_rate_interleaved_channel_layout(
        CommonFormat::PCMInt16,
        22050,
        true,
        &layout,
    );
    assert_eq!(f.common_format, CommonFormat::PCMInt16);
    assert!(f.interleaved);
}

#[test]
fn context_writes_when_input_is_sound() {
    let ctx = ci::Context::with_options(None).unwrap();
    let image = ci::Image::new(100, 100);
    let url = Url::with_fs_path(&Str::with_str("/tmp/out.png"));
    let format = ci::Format::with_raw(1);
    let space = ColorSpace::with_name(1);
    let options = Dictionary::new();
    ctx.write_png_to_url(&image, &url, format, &space, &options)
        .expect("writable");

    let empty_image = ci::Image::new(0, 100);
    let e = ctx
        .write_png_to_url(&empty_image, &url, format, &space, &options)
        .expect_err("no area");
    assert_eq!(e.domain, 3);
    assert_eq!(e.code, 10);

    let no_path = Url::with_fs_path(&Str::with_str(""));
    ctx.write_png_to_url(&image, &no_path, format, &space, &options)
        .expect_err("no path");
}

#[test]
fn tensor_data_lengths() {
    let bytes = [1u8, 2, 3, 4, 5];
    let td = TensorData::with_bytes_no_copy(&bytes, 4);
    assert_eq!(td.len(), 4);
    assert!(!td.is_empty());
    assert_eq!(td.bytes().as_slice(), &[1, 2, 3, 4]);

    let words: [u64; 2] = [1, 2];
    let td = TensorData::with_slice_no_copy(&words);
    assert_eq!(td.len(), 16);

    let empty: [u8; 0] = [];
    let td = TensorData::with_bytes_no_copy(&empty, 0);
    assert!(td.is_empty());

    let mut td = TensorData::with_bytes_no_copy(&bytes, 2);
    td.bytes_mut().push(9);
    assert_eq!(td.len(), 3);
}

#[test]
fn range_arithmetic() {
    let r = Range::new(2, 3);
    assert_eq!(r.location, 2);
    assert_eq!(r.length, 3);
    assert!(r.fits(5));
    assert!(!r.fits(4));
    // A range whose end overflows the machine word still fails cleanly.
    let huge = Range::new(usize::MAX, usize::MAX);
    assert!(!huge.fits(usize::MAX));
}

#[test]
fn dictionary_pairs_up() {
    let d: Dictionary<u32, u32> = Dictionary::with_keys_values(vec![1, 2, 3], vec![10, 20, 30]);
    assert_eq!(d.len(), 3);
    assert_eq!(*d.get(0), (1, 10));
    assert_eq!(*d.get(2), (3, 30));
    let e: Dictionary<u32, u32> = Dictionary::new();
    assert!(e.is_empty());
}

#[test]
fn fixed_pixel_format_codes() {
    assert_eq!(cidre::cv::PixelFormat::bgra32().raw, 0x42475241);
    assert_eq!(cidre::cv::PixelFormat::l10r().raw, 0x6C313072);
    assert_eq!(cidre::cv::PixelFormat::yuv420v().raw, 0x34323076);
    assert_eq!(cidre::cv::PixelFormat::yuv420f().raw, 0x34323066);
}

#[test]
fn ns_string_basics() {
    let s = Str::with_str("héllo");
    assert_eq!(s.len(), 5);
    assert!(!s.is_empty());
    assert_eq!(s.char_at(1), 'é');
    let t = s.retained();
    assert_eq!(&t, &s);
    assert_eq!(t.as_str(), "héllo");
    assert!(Str::with_str("").is_empty());
}

#[test]
fn format_settings_round_trip() {
    let stereo = StreamBasicDescription::new(44100, 0x6C70636D, 0, 2, 32);
    let f = Format::with_asbd(&stereo).unwrap();
    let settings = f.settings();
    assert_eq!(settings.len(), 2);
    let back = Format::with_settings(&settings).unwrap();
    assert_eq!(back.sample_rate, 44100);
    assert_eq!(back.channel_count, 2);

    // A dictionary without a channel count describes no format.
    let partial: Dictionary<SettingsKey, u64> =
        Dictionary::with_keys_values(vec![SettingsKey::sample_rate()], vec![48000]);
    assert!(Format::with_settings(&partial).is_none());
    // Too many channels without a layout describe none either.
    let wide: Dictionary<SettingsKey, u64> = Dictionary::with_keys_values(
        vec![SettingsKey::sample_rate(), SettingsKey::channel_count()],
        vec![48000, 6],
    );
    assert!(Format::with_settings(&wide).is_none());
}

#[test]
fn test_media_type() {
    assert_ne!(MediaType::video(), MediaType::audio());
    assert_ne!(MediaType::text(), MediaType::closed_caption());
    assert_ne!(MediaType::subtitle(), MediaType::timecode());
    assert_ne!(MediaType::metadata(), MediaType::muxed());
    assert_ne!(MediaType::depth_data(), MediaType::metadata_object());
    assert_ne!(VideoRange::sdr(), VideoRange::hlg());
    assert_ne!(VideoRange::hlg(), VideoRange::pq());
    assert_ne!(FileType::qt(), FileType::mp4());
    assert_ne!(FileType::wav(), FileType::aif());
    assert_ne!(FileType::heic(), FileType::heif());
    assert_eq!(MediaType::video(), MediaType::video());
}
