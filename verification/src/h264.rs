//! Builder for the H.264 decoder processor pair.
//!
//! The builder collects the buffer keys, error markers, codec options and
//! frame geometry that the pusher/puller pair is created with. Collecting
//! and defaulting the fields is plain, verified logic; opening the native
//! decoder from the collected fields happens outside the verified core.

use vstd::prelude::*;
use crate::options::Options;
use crate::PixelFormat;

verus! {

/// Configuration for an H.264 decoder processor pair: which frame-data
/// buffers it reads and writes, which errors it reports, and the geometry
/// and pixel formats of the scaling stage.
pub struct H264DecoderBuilder<K, E> {
    pub encoded_buffer_key: Option<K>,
    pub decoded_buffer_key: Option<K>,
    pub drain_error: Option<E>,
    pub codec_error: Option<E>,
    pub options: Option<Options>,
    pub width: Option<i32>,
    pub height: Option<i32>,
    pub input_pixel_format: Option<PixelFormat>,
    pub output_pixel_format: Option<PixelFormat>,
    pub scaling_flags: Option<u32>,
}

impl<K, E> H264DecoderBuilder<K, E> {
    /// A builder with every field unset.
    pub fn new() -> (r: Self)
        ensures
            r == (H264DecoderBuilder::<K, E> {
                encoded_buffer_key: None,
                decoded_buffer_key: None,
                drain_error: None,
                codec_error: None,
                options: None,
                width: None,
                height: None,
                input_pixel_format: None,
                output_pixel_format: None,
                scaling_flags: None,
            }),
    {
        Self {
            encoded_buffer_key: None,
            decoded_buffer_key: None,
            drain_error: None,
            codec_error: None,
            width: None,
            height: None,
            input_pixel_format: None,
            output_pixel_format: None,
            scaling_flags: None,
            options: None,
        }
    }

    pub fn encoded_buffer_key(self, encoded_buffer_key: K) -> (r: Self)
        ensures
            r == (H264DecoderBuilder { encoded_buffer_key: Some(encoded_buffer_key), ..self }),
    {
        Self { encoded_buffer_key: Some(encoded_buffer_key), ..self }
    }

    pub fn decoded_buffer_key(self, decoded_buffer_key: K) -> (r: Self)
        ensures
            r == (H264DecoderBuilder { decoded_buffer_key: Some(decoded_buffer_key), ..self }),
    {
        Self { decoded_buffer_key: Some(decoded_buffer_key), ..self }
    }

    pub fn drain_error(self, drain_error: E) -> (r: Self)
        ensures
            r == (H264DecoderBuilder { drain_error: Some(drain_error), ..self }),
    {
        Self { drain_error: Some(drain_error), ..self }
    }

    pub fn codec_error(self, codec_error: E) -> (r: Self)
        ensures
            r == (H264DecoderBuilder { codec_error: Some(codec_error), ..self }),
    {
        Self { codec_error: Some(codec_error), ..self }
    }

    pub fn options(self, options: Options) -> (r: Self)
        ensures
            r == (H264DecoderBuilder { options: Some(options), ..self }),
    {
        Self { options: Some(options), ..self }
    }

    pub fn width(self, width: i32) -> (r: Self)
        ensures
            r == (H264DecoderBuilder { width: Some(width), ..self }),
    {
        Self { width: Some(width), ..self }
    }

    pub fn height(self, height: i32) -> (r: Self)
        ensures
            r == (H264DecoderBuilder { height: Some(height), ..self }),
    {
        Self { height: Some(height), ..self }
    }

    pub fn input_pixel_format(self, input_pixel_format: PixelFormat) -> (r: Self)
        ensures
            r == (H264DecoderBuilder { input_pixel_format: Some(input_pixel_format), ..self }),
    {
        Self { input_pixel_format: Some(input_pixel_format), ..self }
    }

    pub fn output_pixel_format(self, output_pixel_format: PixelFormat) -> (r: Self)
        ensures
            r == (H264DecoderBuilder { output_pixel_format: Some(output_pixel_format), ..self }),
    {
        Self { output_pixel_format: Some(output_pixel_format), ..self }
    }

    pub fn scaling_flags(self, scaling_flags: u32) -> (r: Self)
        ensures
            r == (H264DecoderBuilder { scaling_flags: Some(scaling_flags), ..self }),
    {
        Self { scaling_flags: Some(scaling_flags), ..self }
    }
}

} // verus!
