//! Frame fillers: handles that say which frame-data buffer feeds the encoder
//! frame, and in which layout.
//!
//! Copying the buffer into the native frame's planes happens outside the
//! verified core; the types here carry the buffer key the filler reads.

use vstd::prelude::*;

verus! {

/// Filler that feeds a packed RGBA buffer into the encoder frame.
pub struct RGBAFrameFiller<K> {
    pub rgba_buffer_key: K,
}

impl<K> RGBAFrameFiller<K> {
    pub fn new(rgba_buffer_key: K) -> (r: Self)
        ensures
            r == (RGBAFrameFiller { rgba_buffer_key }),
    {
        Self { rgba_buffer_key }
    }
}

/// Filler that feeds a planar YUV 4:2:0 buffer (luma plane, then the two
/// chroma planes) into the encoder frame.
pub struct YUV420PFrameFiller<K> {
    pub yuv420p_buffer_key: K,
}

impl<K> YUV420PFrameFiller<K> {
    pub fn new(yuv420p_buffer_key: K) -> (r: Self)
        ensures
            r == (YUV420PFrameFiller { yuv420p_buffer_key }),
    {
        Self { yuv420p_buffer_key }
    }
}

} // verus!
