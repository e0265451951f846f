//! The GPU resource builder: from a parsed document to drawable data.
//!
//! For each primitive, in document order, the builder resolves the
//! mandatory position array, zips the attribute arrays index-wise into
//! interleaved vertex records (absent optional arrays supply zero-filled
//! components), resolves the index array (generating the sequential
//! fallback where it is absent), and normalizes the material's base-color
//! image to RGBA8. The first inconsistency aborts the whole load: either
//! every primitive compiles, or no mesh instance at all is produced.

use vstd::prelude::*;

use crate::document::{Document, ImageData, Mesh, PixelFormat, Primitive};
use crate::errors::ParseError;
use crate::geometry::{zero_vec2, zero_vec3, GpuVertex, Vec2, Vec3};
use crate::image::{expand_rgb_to_rgba, rgba_expanded};
use crate::scene::{MeshInstance, SceneModel, Texture};

verus! {

/// All primitives of a mesh list, flattened in document order: meshes in
/// order, each mesh's primitives in order.
pub open spec fn flat_of(meshes: Seq<Mesh>) -> Seq<Primitive>
    decreases meshes.len(),
{
    if meshes.len() == 0 {
        Seq::empty()
    } else {
        flat_of(meshes.drop_last()) + meshes.last().primitives@
    }
}

/// The document's primitives in document order; primitive indices in
/// errors and contracts point into this sequence.
pub open spec fn flat_prims(doc: Document) -> Seq<Primitive> {
    flat_of(doc.meshes@)
}

/// The normal of vertex `i`: the source normal where the primitive has a
/// normal array, the zero vector otherwise.
pub open spec fn normal_from(normals: Option<Vec<Vec3>>, i: int) -> Vec3 {
    match normals {
        Some(ns) => ns@[i],
        None => zero_vec3(),
    }
}

/// The texture coordinate of vertex `i`: the source UV where the primitive
/// has a UV array, the zero coordinate otherwise.
pub open spec fn uv_from(uvs: Option<Vec<Vec2>>, i: int) -> Vec2 {
    match uvs {
        Some(us) => us@[i],
        None => zero_vec2(),
    }
}

/// The compiled vertex `i`: the `i`th element of every present attribute
/// array, zipped into one record.
pub open spec fn vertex_from(
    positions: Seq<Vec3>,
    normals: Option<Vec<Vec3>>,
    uvs: Option<Vec<Vec2>>,
    i: int,
) -> GpuVertex {
    GpuVertex { position: positions[i], normal: normal_from(normals, i), uv: uv_from(uvs, i) }
}

/// Every present attribute array of the primitive has the vertex count of
/// its position array; the vertex count is undefined where they diverge.
pub open spec fn attrs_agree(p: Primitive) -> bool {
    &&& match p.normals {
        Some(ns) => ns@.len() == p.positions->0@.len(),
        None => true,
    }
    &&& match p.uvs {
        Some(us) => us@.len() == p.positions->0@.len(),
        None => true,
    }
}

/// The sequential fallback index list `0, 1, 2, ..., n-1`.
pub open spec fn fallback_seq(n: int) -> Seq<u32> {
    Seq::new(n as nat, |i: int| i as u32)
}

/// The law of the generated fallback: for a primitive of `n` vertices
/// without an index array, the fallback index sequence is
/// `0, 1, 2, ..., n-1`, and it forms exactly `n / 3` whole triangles —
/// the builder only generates it when `n` is a multiple of 3.
pub proof fn lemma_fallback_triangles(n: int)
    requires
        0 <= n,
        n % 3 == 0,
    ensures
        fallback_seq(n).len() == n,
        forall|i: int| 0 <= i < n ==> fallback_seq(n)[i] == i as u32,
        3 * (n / 3) == n,
{
}

/// A primitive without an index array admits the fallback only if its
/// vertex count makes whole triangles and fits a 32-bit index.
pub open spec fn index_fallback_ok(p: Primitive) -> bool {
    match p.indices {
        Some(_) => true,
        None => p.positions->0@.len() % 3 == 0 && p.positions->0@.len() <= u32::MAX,
    }
}

/// The triangle-list indices the primitive is drawn with: its own array if
/// present, the sequential fallback otherwise.
pub open spec fn indices_of(p: Primitive) -> Seq<u32> {
    match p.indices {
        Some(ix) => ix@,
        None => fallback_seq(p.positions->0@.len() as int),
    }
}

/// The primitive's material resolves to a base-color image: it holds a
/// reference, and the reference is in range of the image list.
pub open spec fn image_ref_ok(p: Primitive, images: Seq<ImageData>) -> bool {
    match p.base_color_image {
        Some(ix) => ix < images.len(),
        None => false,
    }
}

/// The base-color image the primitive resolves to.
pub open spec fn resolved_image(p: Primitive, images: Seq<ImageData>) -> ImageData {
    images[p.base_color_image->0 as int]
}

/// The RGBA8 bytes an image is uploaded as: a 4-channel source as it is, a
/// 3-channel source expanded with opaque alpha.
pub open spec fn texture_rgba(img: ImageData) -> Seq<u8> {
    match img.format {
        PixelFormat::Rgba8 => img.pixels@,
        PixelFormat::Rgb8 => rgba_expanded(img.pixels@),
        PixelFormat::Unsupported => Seq::empty(),
    }
}

/// The primitive compiles: it has a position array, its attribute arrays
/// agree, its indices resolve, and its material resolves to a base-color
/// image in a supported pixel format.
pub open spec fn prim_ok(p: Primitive, images: Seq<ImageData>) -> bool {
    &&& p.positions is Some
    &&& attrs_agree(p)
    &&& index_fallback_ok(p)
    &&& image_ref_ok(p, images)
    &&& resolved_image(p, images).format != PixelFormat::Unsupported
}

/// The first failure the builder reports for primitive `pi`, checked in
/// resolution order; `None` exactly when the primitive compiles.
pub open spec fn prim_err(p: Primitive, images: Seq<ImageData>, pi: usize) -> Option<ParseError> {
    if p.positions is None {
        Some(ParseError::MissingAttribute { primitive: pi })
    } else if !attrs_agree(p) {
        Some(ParseError::MalformedBuffer { primitive: pi })
    } else if !index_fallback_ok(p) {
        Some(ParseError::MalformedBuffer { primitive: pi })
    } else if !image_ref_ok(p, images) {
        Some(ParseError::MissingTexture { primitive: pi })
    } else if resolved_image(p, images).format == PixelFormat::Unsupported {
        Some(ParseError::UnsupportedPixelFormat { image: p.base_color_image->0 })
    } else {
        None
    }
}

/// What it means for a compiled mesh instance to be the faithful compiled
/// form of a primitive: one vertex per source tuple, element-wise; the
/// resolved indices; and the resolved image's dimensions and normalized
/// bytes.
pub open spec fn instance_matches(m: MeshInstance, p: Primitive, images: Seq<ImageData>) -> bool {
    &&& m.vertices@.len() == p.positions->0@.len()
    &&& forall|i: int|
        0 <= i < p.positions->0@.len() ==> m.vertices@[i] == vertex_from(
            p.positions->0@,
            p.normals,
            p.uvs,
            i,
        )
    &&& m.indices@ == indices_of(p)
    &&& m.texture.width == resolved_image(p, images).width
    &&& m.texture.height == resolved_image(p, images).height
    &&& m.texture.rgba@ == texture_rgba(resolved_image(p, images))
}

/// Copy a vector of plain values element for element.
fn copy_of<T: Copy>(v: &Vec<T>) -> (r: Vec<T>)
    ensures
        r@ == v@,
{
    let mut r: Vec<T> = Vec::new();
    let mut i: usize = 0;
    while i < v.len()
        invariant
            i <= v@.len(),
            r@ == v@.take(i as int),
        decreases v@.len() - i,
    {
        r.push(v[i]);
        i = i + 1;
    }
    proof {
        assert(r@ =~= v@);
    }
    r
}

/// Generate the sequential fallback index list for `n` vertices.
pub fn fallback_indices(n: usize) -> (r: Vec<u32>)
    requires
        n <= u32::MAX,
    ensures
        r@ == fallback_seq(n as int),
{
    let mut r: Vec<u32> = Vec::new();
    let mut i: usize = 0;
    while i < n
        invariant
            n <= u32::MAX,
            i <= n,
            r@.len() == i,
            forall|j: int| 0 <= j < i ==> r@[j] == j as u32,
        decreases n - i,
    {
        r.push(i as u32);
        i = i + 1;
    }
    proof {
        assert(r@ =~= fallback_seq(n as int));
    }
    r
}

/// Resolve the indices a primitive is drawn with: its own array if
/// present, else the sequential fallback over `vertex_count` — which only
/// exists if the count makes whole triangles and fits a 32-bit index.
pub fn resolve_indices(indices: &Option<Vec<u32>>, vertex_count: usize) -> (r: Option<Vec<u32>>)
    ensures
        match *indices {
            Some(_) => r is Some && r->0@ == indices->0@,
            None => {
                if vertex_count % 3 == 0 && vertex_count <= u32::MAX {
                    r is Some && r->0@ == fallback_seq(vertex_count as int)
                } else {
                    r is None
                }
            },
        },
{
    match indices {
        Some(ix) => Some(copy_of(ix)),
        None => {
            if vertex_count % 3 == 0 && vertex_count <= u32::MAX as usize {
                Some(fallback_indices(vertex_count))
            } else {
                None
            }
        },
    }
}

/// Zip the attribute arrays of one primitive index-wise into interleaved
/// vertex records; absent normal and UV arrays supply zeros.
pub fn compile_vertices(
    positions: &Vec<Vec3>,
    normals: &Option<Vec<Vec3>>,
    uvs: &Option<Vec<Vec2>>,
) -> (r: Vec<GpuVertex>)
    requires
        match *normals {
            Some(ns) => ns@.len() == positions@.len(),
            None => true,
        },
        match *uvs {
            Some(us) => us@.len() == positions@.len(),
            None => true,
        },
    ensures
        r@.len() == positions@.len(),
        forall|i: int|
            0 <= i < positions@.len() ==> r@[i] == vertex_from(positions@, *normals, *uvs, i),
{
    let mut r: Vec<GpuVertex> = Vec::new();
    let mut i: usize = 0;
    while i < positions.len()
        invariant
            i <= positions@.len(),
            match *normals {
                Some(ns) => ns@.len() == positions@.len(),
                None => true,
            },
            match *uvs {
                Some(us) => us@.len() == positions@.len(),
                None => true,
            },
            r@.len() == i,
            forall|j: int| 0 <= j < i ==> r@[j] == vertex_from(positions@, *normals, *uvs, j),
        decreases positions@.len() - i,
    {
        let normal = match normals {
            Some(ns) => ns[i],
            None => Vec3::zero(),
        };
        let uv = match uvs {
            Some(us) => us[i],
            None => Vec2::zero(),
        };
        r.push(GpuVertex { position: positions[i], normal, uv });
        i = i + 1;
    }
    r
}

/// Normalize one image's bytes for upload: a 4-channel source is copied,
/// a 3-channel source is expanded with opaque alpha, and an unsupported
/// layout yields nothing — no generic image decode is in scope.
pub fn normalize_pixels(img: &ImageData) -> (r: Option<Vec<u8>>)
    requires
        img.size_ok(),
    ensures
        match img.format {
            PixelFormat::Unsupported => r is None,
            _ => r is Some && r->0@ == texture_rgba(*img),
        },
{
    match img.format {
        PixelFormat::Rgba8 => Some(copy_of(&img.pixels)),
        PixelFormat::Rgb8 => {
            proof {
                vstd::arithmetic::div_mod::lemma_mod_multiples_basic(
                    (img.width * img.height) as int,
                    3,
                );
            }
            Some(expand_rgb_to_rgba(&img.pixels))
        },
        PixelFormat::Unsupported => None,
    }
}

/// Compile one primitive into its mesh instance, or report the first
/// inconsistency as the error for primitive `primitive_index`.
pub fn build_primitive(p: &Primitive, images: &Vec<ImageData>, primitive_index: usize) -> (r:
    Result<MeshInstance, ParseError>)
    requires
        forall|i: int| 0 <= i < images@.len() ==> (#[trigger] images@[i]).size_ok(),
    ensures
        r is Ok <==> prim_ok(*p, images@),
        r is Ok ==> instance_matches(r->Ok_0, *p, images@),
        r is Err ==> Some(r->Err_0) == prim_err(*p, images@, primitive_index),
{
    let positions = match &p.positions {
        Some(ps) => ps,
        None => {
            return Err(ParseError::MissingAttribute { primitive: primitive_index });
        },
    };
    if let Some(ns) = &p.normals {
        if ns.len() != positions.len() {
            return Err(ParseError::MalformedBuffer { primitive: primitive_index });
        }
    }
    if let Some(us) = &p.uvs {
        if us.len() != positions.len() {
            return Err(ParseError::MalformedBuffer { primitive: primitive_index });
        }
    }
    let indices = match resolve_indices(&p.indices, positions.len()) {
        Some(ix) => ix,
        None => {
            return Err(ParseError::MalformedBuffer { primitive: primitive_index });
        },
    };
    let image_index = match p.base_color_image {
        Some(ix) => ix,
        None => {
            return Err(ParseError::MissingTexture { primitive: primitive_index });
        },
    };
    if image_index >= images.len() {
        return Err(ParseError::MissingTexture { primitive: primitive_index });
    }
    let img = &images[image_index];
    let rgba = match normalize_pixels(img) {
        Some(px) => px,
        None => {
            return Err(ParseError::UnsupportedPixelFormat { image: image_index });
        },
    };
    let vertices = compile_vertices(positions, &p.normals, &p.uvs);
    Ok(
        MeshInstance {
            vertices,
            indices,
            texture: Texture { width: img.width, height: img.height, rgba },
        },
    )
}

/// Flatten a mesh list into its primitives, in document order.
fn flatten_meshes(meshes: Vec<Mesh>) -> (r: Vec<Primitive>)
    ensures
        r@ == flat_of(meshes@),
{
    let ghost all = meshes@;
    let mut meshes = meshes;
    let mut r: Vec<Primitive> = Vec::new();
    while meshes.len() > 0
        invariant
            meshes@.len() <= all.len(),
            meshes@ == all.skip(all.len() - meshes@.len()),
            r@ == flat_of(all.take(all.len() - meshes@.len())),
        decreases meshes@.len(),
    {
        let ghost done: int = all.len() - meshes@.len();
        let mut m = meshes.remove(0);
        proof {
            assert(m == all[done]);
            assert(meshes@ =~= all.skip(done + 1));
        }
        r.append(&mut m.primitives);
        proof {
            assert(all.take(done + 1).drop_last() =~= all.take(done));
            assert(all.take(done + 1).last() == all[done]);
            assert(r@ == flat_of(all.take(done + 1)));
        }
    }
    proof {
        assert(all.take(all.len() as int) =~= all);
    }
    r
}

/// Compile a flattened primitive list, stopping at the first failure.
fn build_instances(prims: &Vec<Primitive>, images: &Vec<ImageData>) -> (r: Result<
    Vec<MeshInstance>,
    ParseError,
>)
    requires
        forall|i: int| 0 <= i < images@.len() ==> (#[trigger] images@[i]).size_ok(),
    ensures
        r is Ok <==> (forall|k: int|
            0 <= k < prims@.len() ==> prim_ok(#[trigger] prims@[k], images@)),
        r is Ok ==> {
            &&& r->Ok_0@.len() == prims@.len()
            &&& forall|k: int|
                0 <= k < prims@.len() ==> instance_matches(
                    #[trigger] r->Ok_0@[k],
                    prims@[k],
                    images@,
                )
        },
        r is Err ==> exists|k: int|
            {
                &&& 0 <= k < prims@.len()
                &&& !prim_ok(#[trigger] prims@[k], images@)
                &&& forall|j: int| 0 <= j < k ==> prim_ok(#[trigger] prims@[j], images@)
                &&& Some(r->Err_0) == prim_err(prims@[k], images@, k as usize)
            },
{
    let mut out: Vec<MeshInstance> = Vec::new();
    let mut k: usize = 0;
    while k < prims.len()
        invariant
            forall|i: int| 0 <= i < images@.len() ==> (#[trigger] images@[i]).size_ok(),
            k <= prims@.len(),
            out@.len() == k,
            forall|j: int| 0 <= j < k ==> prim_ok(#[trigger] prims@[j], images@),
            forall|j: int| 0 <= j < k ==> instance_matches(#[trigger] out@[j], prims@[j], images@),
        decreases prims@.len() - k,
    {
        match build_primitive(&prims[k], images, k) {
            Ok(m) => {
                out.push(m);
            },
            Err(e) => {
                proof {
                    assert(!prim_ok(prims@[k as int], images@));
                }
                return Err(e);
            },
        }
        k = k + 1;
    }
    Ok(out)
}

/// Compile a whole document: every primitive of every mesh, in document
/// order, into the scene's mesh instances. The first inconsistency aborts
/// the load with its error — no partial scene is produced.
pub fn build_scene(doc: Document) -> (r: Result<SceneModel, ParseError>)
    requires
        doc.wf(),
    ensures
        r is Ok <==> (forall|k: int|
            0 <= k < flat_prims(doc).len() ==> prim_ok(#[trigger] flat_prims(doc)[k], doc.images@)),
        r is Ok ==> {
            &&& r->Ok_0.meshes@.len() == flat_prims(doc).len()
            &&& forall|k: int|
                0 <= k < flat_prims(doc).len() ==> instance_matches(
                    #[trigger] r->Ok_0.meshes@[k],
                    flat_prims(doc)[k],
                    doc.images@,
                )
        },
        r is Err ==> exists|k: int|
            {
                &&& 0 <= k < flat_prims(doc).len()
                &&& !prim_ok(#[trigger] flat_prims(doc)[k], doc.images@)
                &&& forall|j: int| 0 <= j < k ==> prim_ok(#[trigger] flat_prims(doc)[j], doc.images@)
                &&& Some(r->Err_0) == prim_err(flat_prims(doc)[k], doc.images@, k as usize)
            },
{
    let Document { meshes, images } = doc;
    let prims = flatten_meshes(meshes);
    proof {
        assert(prims@ == flat_prims(doc));
        assert(images@ == doc.images@);
    }
    match build_instances(&prims, &images) {
        Ok(out) => Ok(SceneModel { meshes: out }),
        Err(e) => Err(e),
    }
}

} // verus!
