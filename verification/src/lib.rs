//! Building blocks for an FFmpeg-based screen-mirroring codec pipeline.
//!
//! The heart of the crate is a verified colour-conversion kernel: planar
//! YUV 4:2:0 frames are turned into packed BGR or BGRA rasters, as a
//! hardware decoder hands them out (possibly with per-plane row padding).
//! Around it stand the plain configuration types of the pipeline stages:
//! builders for the decoder and encoder processors, codec option sets,
//! and frame-filler handles. The processors themselves drive the native
//! codec library and live outside the verified core.

use vstd::prelude::*;

pub mod builder;
pub mod fillers;
pub mod h264;
pub mod options;
pub mod pixel;
pub mod raster;
pub mod scaling;
pub mod x264;

verus! {

/// A pixel format identifier of the native codec library.
pub type PixelFormat = i32;

/// Interface that frame-data carriers implement so the decoder and encoder
/// processors can read encoded packets and hand back decoded rasters.
pub trait FFMpegCodec {
    fn write_packet_data(&mut self, packet_data: &[u8]);

    fn get_packet_data_buffer(&self) -> &[u8];

    fn write_decoded_buffer(&mut self, data: &[u8]);

    fn report_flush_error(&mut self);

    fn report_codec_error(&mut self);

    fn report_decoder_drain_error(&mut self);

    fn set_frame_id(&mut self, frame_id: i64);

    fn get_frame_id(&self) -> i64;
}

} // verus!
