//! Builder for the x264 encoder processor pair.
//!
//! As with the decoder builder, collecting and defaulting the configuration
//! is plain, verified logic; opening the native encoder from the collected
//! fields happens outside the verified core.

use vstd::prelude::*;
use crate::options::Options;
use crate::PixelFormat;

verus! {

/// Configuration for an x264 encoder processor pair: the frame geometry,
/// which frame-data buffers it reads and writes, codec options, and the
/// pixel formats of the scaling stage.
pub struct X264EncoderBuilder<K: Copy> {
    pub width: Option<i32>,
    pub height: Option<i32>,
    pub rgba_buffer_key: Option<K>,
    pub encoded_buffer_key: Option<K>,
    pub options: Option<Options>,
    pub input_pixel_format: Option<PixelFormat>,
    pub codec_pixel_format: Option<PixelFormat>,
    pub scaling_flags: Option<u32>,
}

impl<K: Copy> X264EncoderBuilder<K> {
    /// A builder with every field unset.
    pub fn new() -> (r: Self)
        ensures
            r == (X264EncoderBuilder::<K> {
                width: None,
                height: None,
                rgba_buffer_key: None,
                encoded_buffer_key: None,
                options: None,
                input_pixel_format: None,
                codec_pixel_format: None,
                scaling_flags: None,
            }),
    {
        Self {
            width: None,
            height: None,
            rgba_buffer_key: None,
            encoded_buffer_key: None,
            options: None,
            input_pixel_format: None,
            codec_pixel_format: None,
            scaling_flags: None,
        }
    }

    pub fn width(self, width: i32) -> (r: Self)
        ensures
            r == (X264EncoderBuilder { width: Some(width), ..self }),
    {
        Self { width: Some(width), ..self }
    }

    pub fn height(self, height: i32) -> (r: Self)
        ensures
            r == (X264EncoderBuilder { height: Some(height), ..self }),
    {
        Self { height: Some(height), ..self }
    }

    pub fn rgba_buffer_key(self, rgba_buffer_key: K) -> (r: Self)
        ensures
            r == (X264EncoderBuilder { rgba_buffer_key: Some(rgba_buffer_key), ..self }),
    {
        Self { rgba_buffer_key: Some(rgba_buffer_key), ..self }
    }

    pub fn encoded_buffer_key(self, encoded_buffer_key: K) -> (r: Self)
        ensures
            r == (X264EncoderBuilder { encoded_buffer_key: Some(encoded_buffer_key), ..self }),
    {
        Self { encoded_buffer_key: Some(encoded_buffer_key), ..self }
    }

    pub fn options(self, options: Options) -> (r: Self)
        ensures
            r == (X264EncoderBuilder { options: Some(options), ..self }),
    {
        Self { options: Some(options), ..self }
    }

    pub fn input_pixel_format(self, input_pixel_format: PixelFormat) -> (r: Self)
        ensures
            r == (X264EncoderBuilder { input_pixel_format: Some(input_pixel_format), ..self }),
    {
        Self { input_pixel_format: Some(input_pixel_format), ..self }
    }

    pub fn codec_pixel_format(self, codec_pixel_format: PixelFormat) -> (r: Self)
        ensures
            r == (X264EncoderBuilder { codec_pixel_format: Some(codec_pixel_format), ..self }),
    {
        Self { codec_pixel_format: Some(codec_pixel_format), ..self }
    }

    pub fn scaling_flags(self, scaling_flags: u32) -> (r: Self)
        ensures
            r == (X264EncoderBuilder { scaling_flags: Some(scaling_flags), ..self }),
    {
        Self { scaling_flags: Some(scaling_flags), ..self }
    }
}

} // verus!
