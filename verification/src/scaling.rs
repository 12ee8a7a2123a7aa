//! Builder for the pixel-format scaling stage.
//!
//! The builder collects the input and output geometry and pixel formats of a
//! scaler. Output width and height default to the input's when unset, and
//! the scaling algorithm flags have a bilinear default; creating the native
//! scaling context from the collected fields happens outside the verified
//! core.

use vstd::prelude::*;
use crate::PixelFormat;

verus! {

/// Configuration for a pixel-format scaler: input and output geometry and
/// pixel formats, and the scaling algorithm flags.
pub struct ScalerBuilder {
    pub input_width: Option<i32>,
    pub input_height: Option<i32>,
    pub input_pixel_format: Option<PixelFormat>,
    pub output_width: Option<i32>,
    pub output_height: Option<i32>,
    pub output_pixel_format: Option<PixelFormat>,
    pub scaling_flags: Option<u32>,
}

impl ScalerBuilder {
    /// A builder with every field unset.
    pub fn new() -> (r: Self)
        ensures
            r == (ScalerBuilder {
                input_width: None,
                input_height: None,
                input_pixel_format: None,
                output_width: None,
                output_height: None,
                output_pixel_format: None,
                scaling_flags: None,
            }),
    {
        Self {
            input_width: None,
            input_height: None,
            input_pixel_format: None,
            output_width: None,
            output_height: None,
            output_pixel_format: None,
            scaling_flags: None,
        }
    }

    pub fn input_width(self, input_width: i32) -> (r: Self)
        ensures
            r == (ScalerBuilder { input_width: Some(input_width), ..self }),
    {
        Self { input_width: Some(input_width), ..self }
    }

    pub fn input_height(self, input_height: i32) -> (r: Self)
        ensures
            r == (ScalerBuilder { input_height: Some(input_height), ..self }),
    {
        Self { input_height: Some(input_height), ..self }
    }

    pub fn output_width(self, output_width: i32) -> (r: Self)
        ensures
            r == (ScalerBuilder { output_width: Some(output_width), ..self }),
    {
        Self { output_width: Some(output_width), ..self }
    }

    pub fn output_height(self, output_height: i32) -> (r: Self)
        ensures
            r == (ScalerBuilder { output_height: Some(output_height), ..self }),
    {
        Self { output_height: Some(output_height), ..self }
    }

    pub fn input_pixel_format(self, input_pixel_format: PixelFormat) -> (r: Self)
        ensures
            r == (ScalerBuilder { input_pixel_format: Some(input_pixel_format), ..self }),
    {
        Self { input_pixel_format: Some(input_pixel_format), ..self }
    }

    pub fn output_pixel_format(self, output_pixel_format: PixelFormat) -> (r: Self)
        ensures
            r == (ScalerBuilder { output_pixel_format: Some(output_pixel_format), ..self }),
    {
        Self { output_pixel_format: Some(output_pixel_format), ..self }
    }

    pub fn scaling_flags(self, scaling_flags: u32) -> (r: Self)
        ensures
            r == (ScalerBuilder { scaling_flags: Some(scaling_flags), ..self }),
    {
        Self { scaling_flags: Some(scaling_flags), ..self }
    }

    /// The output width that `build` uses: the explicit one where set, else
    /// the input width.
    pub fn effective_output_width(&self) -> (r: Option<i32>)
        ensures
            r == (if self.output_width.is_some() {
                self.output_width
            } else {
                self.input_width
            }),
    {
        match self.output_width {
            Some(w) => Some(w),
            None => self.input_width,
        }
    }

    /// The output height that `build` uses: the explicit one where set, else
    /// the input height.
    pub fn effective_output_height(&self) -> (r: Option<i32>)
        ensures
            r == (if self.output_height.is_some() {
                self.output_height
            } else {
                self.input_height
            }),
    {
        match self.output_height {
            Some(h) => Some(h),
            None => self.input_height,
        }
    }
}

} // verus!
