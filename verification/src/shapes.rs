//! Capabilities of drawable things.
//!
//! A shape supplies baked vertex data, a painter supplies the brush to
//! draw it with, and an asset knows how to refresh whatever it keeps on
//! the device.  The crate defines the capabilities; concrete shapes and
//! palettes are written by users of the library.

use vstd::prelude::*;
use crate::brush::Brush;
use crate::buffers::VertexBuffer;
use crate::gpuctx::GpuCtx;

verus! {

/// Something with baked vertex data to draw.
pub trait Shape {
    /// The shape's baked vertex and index buffers.
    fn get_vbuffer(&self) -> &VertexBuffer;
}

/// Something that knows which brush to draw with.
pub trait Painter {
    /// The brush this painter draws with.
    fn get_brush(&self) -> &Brush;
}

/// Something holding device state that may need refreshing.
pub trait Asset {
    /// Whether the device state is stale.
    fn needs_update(&self) -> bool;

    /// Refreshes the device state through the journal.
    fn update(&mut self, gpu: &mut GpuCtx);
}

/// A paint source: a painter whose device state can be refreshed.
pub trait Palette: Painter + Asset {

}

} // verus!
