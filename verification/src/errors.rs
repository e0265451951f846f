//! The error taxonomy of the pipeline.
//!
//! Every failure names its kind and the offending primitive or image, by
//! index. Failures while resolving or compiling an asset are fatal to the
//! whole load: no partial scene is ever produced. Failures while drawing
//! are fatal to that frame: it is not presented.

use vstd::prelude::*;

verus! {

/// A failure while resolving a parsed document into drawable data.
///
/// `primitive` is the index of the offending primitive in document order
/// (meshes in order, each mesh's primitives in order); `image` is the index
/// of the offending image in the document's image list.
#[derive(Clone, Copy, Debug, PartialEq, Eq, Structural)]
pub enum ParseError {
    /// The primitive has no position array, which is mandatory.
    MissingAttribute { primitive: usize },
    /// The primitive's material resolves to no base-color image: either it
    /// has no reference at all, or the reference is out of range. The draw
    /// stage always samples a texture, so this is fatal.
    MissingTexture { primitive: usize },
    /// The primitive's base-color image is neither 3-channel nor 4-channel
    /// 8-bit; no generic image decode is in scope.
    UnsupportedPixelFormat { image: usize },
    /// The primitive's attribute arrays diverge in length, or it has no
    /// index array and its vertex count admits no triangle-list fallback
    /// (not a multiple of 3, or too large to index with 32 bits).
    MalformedBuffer { primitive: usize },
}

/// A failure while turning resolved data into GPU resources. `mesh` is the
/// index of the offending mesh instance in load order.
#[derive(Clone, Copy, Debug, PartialEq, Eq, Structural)]
pub enum GpuBuildError {
    /// The shared shading program did not compile; no scene is built.
    ShaderCompileError,
    /// A vertex or index buffer upload failed.
    BufferUploadError { mesh: usize },
    /// A texture upload failed.
    TextureUploadError { mesh: usize },
}

/// Why a whole load attempt failed: either the document could not be
/// resolved, or the GPU rejected the resolved data.
#[derive(Clone, Copy, Debug, PartialEq, Eq, Structural)]
pub enum LoadError {
    Parse(ParseError),
    Gpu(GpuBuildError),
}

/// A failure while drawing one frame. `mesh` is the index of the mesh
/// instance whose draw call failed.
#[derive(Clone, Copy, Debug, PartialEq, Eq, Structural)]
pub enum DrawError {
    /// The GL context was not current when the frame started.
    ContextNotCurrent,
    /// A draw call failed mid-frame; the frame must not count as presented.
    DrawCallFailed { mesh: usize },
}

} // verus!
