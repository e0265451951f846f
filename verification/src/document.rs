//! The parsed scene document.
//!
//! This is the in-memory form of the binary scene file, as the external
//! asset loader hands it over: an ordered list of meshes, each an ordered
//! list of primitives, plus the document's embedded images. Attribute
//! arrays that the file may omit are `Option`s here; resolving them (and
//! failing where the format leaves no fallback) is the builder's job.

use vstd::prelude::*;

use crate::geometry::{Vec2, Vec3};

verus! {

/// The channel layout of an embedded image as the loader decoded it. Only
/// 3- and 4-channel 8-bit layouts can be normalized for upload; everything
/// else is `Unsupported` and fails the load.
#[derive(Clone, Copy, Debug, PartialEq, Eq, Structural)]
pub enum PixelFormat {
    Rgb8,
    Rgba8,
    Unsupported,
}

/// One embedded image: dimensions, channel layout, and the raw bytes in
/// pixel order. For the supported layouts the byte count is exactly
/// `width * height * bytes_per_pixel`.
#[derive(Debug)]
pub struct ImageData {
    pub width: u32,
    pub height: u32,
    pub format: PixelFormat,
    pub pixels: Vec<u8>,
}

impl ImageData {
    /// The size invariant: a supported layout holds exactly one byte per
    /// channel per pixel. Nothing is known of an unsupported layout's
    /// size; the load fails on its format before looking at its bytes.
    pub open spec fn size_ok(self) -> bool {
        match self.format {
            PixelFormat::Rgb8 => self.pixels@.len() == self.width * self.height * 3,
            PixelFormat::Rgba8 => self.pixels@.len() == self.width * self.height * 4,
            PixelFormat::Unsupported => true,
        }
    }

    /// Checked constructor: accepts the image exactly when its byte count
    /// matches its stated dimensions and layout.
    pub fn new(width: u32, height: u32, format: PixelFormat, pixels: Vec<u8>) -> (r: Option<
        ImageData,
    >)
        ensures
            match r {
                Some(img) => {
                    &&& img == (ImageData { width, height, format, pixels })
                    &&& img.size_ok()
                },
                None => !(ImageData { width, height, format, pixels }).size_ok(),
            },
    {
        let bytes_per_pixel: u128 = match format {
            PixelFormat::Rgb8 => 3,
            PixelFormat::Rgba8 => 4,
            PixelFormat::Unsupported => 0,
        };
        let w: u128 = width as u128;
        let h: u128 = height as u128;
        proof {
            assert(w * h <= 0xFFFF_FFFF * 0xFFFF_FFFF) by (nonlinear_arith)
                requires
                    w <= 0xFFFF_FFFF,
                    h <= 0xFFFF_FFFF,
            ;
            assert(w * h * bytes_per_pixel <= 0xFFFF_FFFF * 0xFFFF_FFFF * 4) by (nonlinear_arith)
                requires
                    0 <= w * h <= 0xFFFF_FFFF * 0xFFFF_FFFF,
                    0 <= bytes_per_pixel <= 4,
            ;
        }
        let expected: u128 = w * h * bytes_per_pixel;
        if matches!(format, PixelFormat::Unsupported) || pixels.len() as u128 == expected {
            Some(ImageData { width, height, format, pixels })
        } else {
            None
        }
    }
}

/// One drawable piece of a mesh: its vertex attribute arrays, its optional
/// triangle-list index array, and the index of its material's base-color
/// image in the document's image list (if the material references one).
#[derive(Debug)]
pub struct Primitive {
    pub positions: Option<Vec<Vec3>>,
    pub normals: Option<Vec<Vec3>>,
    pub uvs: Option<Vec<Vec2>>,
    pub indices: Option<Vec<u32>>,
    pub base_color_image: Option<usize>,
}

/// A mesh: an ordered sequence of primitives.
#[derive(Debug)]
pub struct Mesh {
    pub primitives: Vec<Primitive>,
}

/// The whole parsed scene file: meshes in order, and the image list that
/// the primitives' material references point into.
#[derive(Debug)]
pub struct Document {
    pub meshes: Vec<Mesh>,
    pub images: Vec<ImageData>,
}

impl Document {
    /// Document well-formedness: every embedded image satisfies its size
    /// invariant. The loader establishes this by constructing images
    /// through [`ImageData::new`].
    pub open spec fn wf(self) -> bool {
        forall|i: int| 0 <= i < self.images@.len() ==> (#[trigger] self.images@[i]).size_ok()
    }
}

} // verus!
