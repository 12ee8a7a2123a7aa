use remotia_ffmpeg_codecs::builder::unwrap_mandatory;
use remotia_ffmpeg_codecs::fillers::{RGBAFrameFiller, YUV420PFrameFiller};
use remotia_ffmpeg_codecs::h264::H264DecoderBuilder;
use remotia_ffmpeg_codecs::options::Options;
use remotia_ffmpeg_codecs::scaling::ScalerBuilder;
use remotia_ffmpeg_codecs::x264::X264EncoderBuilder;

#[test]
fn unwrap_mandatory_returns_the_value() {
    assert_eq!(unwrap_mandatory(Some(42)), 42);
    assert_eq!(unwrap_mandatory(Some("key")), "key");
}

#[test]
fn options_record_entries_in_order() {
    let options = Options::new()
        .set("threads", "4")
        .set_flags("thread_type", "slice", 7);
    let entries = options.entries();
    assert_eq!(entries.len(), 2);
    assert_eq!(entries[0].key, "threads");
    assert_eq!(entries[0].value, "4");
    assert_eq!(entries[0].flags, 0);
    assert_eq!(entries[1].key, "thread_type");
    assert_eq!(entries[1].value, "slice");
    assert_eq!(entries[1].flags, 7);
}

#[test]
fn options_later_entry_for_a_key_comes_after() {
    let options = Options::new().set("preset", "fast").set("preset", "ultrafast");
    let entries = options.entries();
    assert_eq!(entries.len(), 2);
    assert_eq!(entries[1].key, "preset");
    assert_eq!(entries[1].value, "ultrafast");
}

#[test]
fn h264_decoder_builder_collects_fields() {
    let builder: H264DecoderBuilder<u8, i32> = H264DecoderBuilder::new()
        .encoded_buffer_key(1)
        .decoded_buffer_key(2)
        .drain_error(-1)
        .codec_error(-2)
        .width(1280)
        .height(720)
        .input_pixel_format(0)
        .output_pixel_format(26)
        .scaling_flags(2);
    assert_eq!(builder.encoded_buffer_key, Some(1));
    assert_eq!(builder.decoded_buffer_key, Some(2));
    assert_eq!(builder.drain_error, Some(-1));
    assert_eq!(builder.codec_error, Some(-2));
    assert_eq!(builder.width, Some(1280));
    assert_eq!(builder.height, Some(720));
    assert_eq!(builder.input_pixel_format, Some(0));
    assert_eq!(builder.output_pixel_format, Some(26));
    assert_eq!(builder.scaling_flags, Some(2));
    assert!(builder.options.is_none());
}

#[test]
fn h264_decoder_builder_starts_empty() {
    let builder: H264DecoderBuilder<u8, u8> = H264DecoderBuilder::new();
    assert!(builder.encoded_buffer_key.is_none());
    assert!(builder.decoded_buffer_key.is_none());
    assert!(builder.drain_error.is_none());
    assert!(builder.codec_error.is_none());
    assert!(builder.width.is_none());
    assert!(builder.height.is_none());
    assert!(builder.input_pixel_format.is_none());
    assert!(builder.output_pixel_format.is_none());
    assert!(builder.scaling_flags.is_none());
    assert!(builder.options.is_none());
}

#[test]
fn x264_encoder_builder_collects_fields() {
    let builder: X264EncoderBuilder<u8> = X264EncoderBuilder::new()
        .width(640)
        .height(480)
        .rgba_buffer_key(3)
        .encoded_buffer_key(4)
        .input_pixel_format(26)
        .codec_pixel_format(0)
        .scaling_flags(4);
    assert_eq!(builder.width, Some(640));
    assert_eq!(builder.height, Some(480));
    assert_eq!(builder.rgba_buffer_key, Some(3));
    assert_eq!(builder.encoded_buffer_key, Some(4));
    assert_eq!(builder.input_pixel_format, Some(26));
    assert_eq!(builder.codec_pixel_format, Some(0));
    assert_eq!(builder.scaling_flags, Some(4));
    assert!(builder.options.is_none());
}

#[test]
fn scaler_builder_defaults_output_geometry_to_input() {
    let builder = ScalerBuilder::new().input_width(800).input_height(600);
    assert_eq!(builder.effective_output_width(), Some(800));
    assert_eq!(builder.effective_output_height(), Some(600));

    let builder = builder.output_width(400).output_height(300);
    assert_eq!(builder.effective_output_width(), Some(400));
    assert_eq!(builder.effective_output_height(), Some(300));
}

#[test]
fn frame_fillers_keep_their_buffer_key() {
    let rgba = RGBAFrameFiller::new(5u8);
    assert_eq!(rgba.rgba_buffer_key, 5);
    let yuv = YUV420PFrameFiller::new(6u8);
    assert_eq!(yuv.yuv420p_buffer_key, 6);
}
