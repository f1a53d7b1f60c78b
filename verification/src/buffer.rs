//! The capability interfaces of the geometry buffers a backend binds.
//! Implemented per render target by the application's backend code; the
//! library only names the capabilities.

use vstd::prelude::*;

verus! {

/// A vertex array object: bound while its buffers are drawn.
pub trait VertexArrayT {
    /// Binds the array for drawing.
    fn bind();

    /// Unbinds the array.
    fn unbind();
}

/// An index buffer: carries the draw indices.
pub trait IndexBufferT {
    /// Uploads the indices.
    fn set_data(&self, data: &[usize]);

    /// Binds the buffer for drawing.
    fn bind();

    /// Unbinds the buffer.
    fn unbind();
}

} // verus!
