use vrm_layer_mate::builder::{
    build_primitive, build_scene, compile_vertices, fallback_indices, resolve_indices,
};
use vrm_layer_mate::document::{Document, ImageData, Mesh, PixelFormat, Primitive};
use vrm_layer_mate::errors::ParseError;
use vrm_layer_mate::geometry::{GpuVertex, Vec2, Vec3};

fn v3(x: f32, y: f32, z: f32) -> Vec3 {
    Vec3 { x: x.to_bits(), y: y.to_bits(), z: z.to_bits() }
}

fn v2(u: f32, v: f32) -> Vec2 {
    Vec2 { u: u.to_bits(), v: v.to_bits() }
}

fn white_rgba_2x2() -> ImageData {
    ImageData::new(2, 2, PixelFormat::Rgba8, vec![255; 16]).unwrap()
}

fn triangle_positions() -> Vec<Vec3> {
    vec![v3(0.0, 0.0, 0.0), v3(1.0, 0.0, 0.0), v3(0.0, 1.0, 0.0)]
}

#[test]
fn vertices_zip_all_arrays_elementwise() {
    let positions = triangle_positions();
    let normals = Some(vec![v3(0.0, 0.0, 1.0), v3(0.0, 1.0, 0.0), v3(1.0, 0.0, 0.0)]);
    let uvs = Some(vec![v2(0.0, 0.0), v2(1.0, 0.0), v2(0.0, 1.0)]);
    let compiled = compile_vertices(&positions, &normals, &uvs);
    assert_eq!(compiled.len(), 3);
    let ns = normals.as_ref().unwrap();
    let us = uvs.as_ref().unwrap();
    for i in 0..3 {
        assert_eq!(compiled[i].position, positions[i]);
        assert_eq!(compiled[i].normal, ns[i]);
        assert_eq!(compiled[i].uv, us[i]);
    }
}

#[test]
fn vertices_zero_fill_missing_arrays() {
    let positions = triangle_positions();
    let compiled = compile_vertices(&positions, &None, &None);
    assert_eq!(compiled.len(), 3);
    for i in 0..3 {
        assert_eq!(
            compiled[i],
            GpuVertex {
                position: positions[i],
                normal: Vec3 { x: 0, y: 0, z: 0 },
                uv: Vec2 { u: 0, v: 0 },
            }
        );
    }
}

#[test]
fn fallback_indices_are_sequential() {
    let ix = fallback_indices(6);
    assert_eq!(ix, vec![0, 1, 2, 3, 4, 5]);
    assert_eq!(ix.len() / 3, 2);
}

#[test]
fn fallback_indices_empty() {
    assert_eq!(fallback_indices(0), Vec::<u32>::new());
}

#[test]
fn resolve_keeps_present_indices() {
    let own: Option<Vec<u32>> = Some(vec![2, 1, 0]);
    // A present index array is kept even where the count is no multiple of 3.
    assert_eq!(resolve_indices(&own, 4), Some(vec![2, 1, 0]));
}

#[test]
fn resolve_generates_fallback() {
    assert_eq!(resolve_indices(&None, 3), Some(vec![0, 1, 2]));
}

#[test]
fn resolve_rejects_partial_triangles() {
    assert_eq!(resolve_indices(&None, 4), None);
}

#[test]
fn primitive_without_positions_is_missing_attribute() {
    let prim = Primitive {
        positions: None,
        normals: None,
        uvs: None,
        indices: None,
        base_color_image: Some(0),
    };
    let images = vec![white_rgba_2x2()];
    let r = build_primitive(&prim, &images, 7);
    assert_eq!(r.err(), Some(ParseError::MissingAttribute { primitive: 7 }));
}

#[test]
fn primitive_with_diverging_normals_is_malformed() {
    let prim = Primitive {
        positions: Some(triangle_positions()),
        normals: Some(vec![v3(0.0, 0.0, 1.0)]),
        uvs: None,
        indices: None,
        base_color_image: Some(0),
    };
    let images = vec![white_rgba_2x2()];
    let r = build_primitive(&prim, &images, 0);
    assert_eq!(r.err(), Some(ParseError::MalformedBuffer { primitive: 0 }));
}

#[test]
fn primitive_without_fallback_triangles_is_malformed() {
    let prim = Primitive {
        positions: Some(vec![v3(0.0, 0.0, 0.0), v3(1.0, 0.0, 0.0)]),
        normals: None,
        uvs: None,
        indices: None,
        base_color_image: Some(0),
    };
    let images = vec![white_rgba_2x2()];
    let r = build_primitive(&prim, &images, 3);
    assert_eq!(r.err(), Some(ParseError::MalformedBuffer { primitive: 3 }));
}

#[test]
fn primitive_with_out_of_range_image_is_missing_texture() {
    let prim = Primitive {
        positions: Some(triangle_positions()),
        normals: None,
        uvs: None,
        indices: None,
        base_color_image: Some(1),
    };
    let images = vec![white_rgba_2x2()];
    let r = build_primitive(&prim, &images, 0);
    assert_eq!(r.err(), Some(ParseError::MissingTexture { primitive: 0 }));
}

#[test]
fn primitive_with_unsupported_image_reports_image_index() {
    let prim = Primitive {
        positions: Some(triangle_positions()),
        normals: None,
        uvs: None,
        indices: None,
        base_color_image: Some(1),
    };
    let odd = ImageData::new(2, 2, PixelFormat::Unsupported, vec![0; 8]).unwrap();
    let images = vec![white_rgba_2x2(), odd];
    let r = build_primitive(&prim, &images, 0);
    assert_eq!(r.err(), Some(ParseError::UnsupportedPixelFormat { image: 1 }));
}

#[test]
fn primitive_with_rgb_image_gets_expanded_texture() {
    let prim = Primitive {
        positions: Some(triangle_positions()),
        normals: None,
        uvs: None,
        indices: Some(vec![0, 1, 2]),
        base_color_image: Some(0),
    };
    let rgb = ImageData::new(1, 2, PixelFormat::Rgb8, vec![9, 8, 7, 6, 5, 4]).unwrap();
    let images = vec![rgb];
    let m = build_primitive(&prim, &images, 0).unwrap();
    assert_eq!(m.texture.width, 1);
    assert_eq!(m.texture.height, 2);
    assert_eq!(m.texture.rgba, vec![9, 8, 7, 255, 6, 5, 4, 255]);
}

#[test]
fn build_single_triangle_document() {
    // One mesh, one primitive: 3 vertices, indices [0,1,2], a 2x2 white
    // RGBA texture, no normals or UVs.
    let prim = Primitive {
        positions: Some(triangle_positions()),
        normals: None,
        uvs: None,
        indices: Some(vec![0, 1, 2]),
        base_color_image: Some(0),
    };
    let doc = Document {
        meshes: vec![Mesh { primitives: vec![prim] }],
        images: vec![white_rgba_2x2()],
    };
    let model = build_scene(doc).unwrap();
    assert_eq!(model.meshes.len(), 1);
    let m = &model.meshes[0];
    assert_eq!(m.vertices.len(), 3);
    for i in 0..3 {
        assert_eq!(m.vertices[i].normal, Vec3 { x: 0, y: 0, z: 0 });
        assert_eq!(m.vertices[i].uv, Vec2 { u: 0, v: 0 });
    }
    assert_eq!(m.vertices[1].position, v3(1.0, 0.0, 0.0));
    assert_eq!(m.indices, vec![0, 1, 2]);
    assert_eq!(m.texture.width, 2);
    assert_eq!(m.texture.height, 2);
    assert_eq!(m.texture.rgba.len(), 2 * 2 * 4);
}

#[test]
fn build_without_texture_reference_fails_whole_document() {
    // Two primitives; the second has no base-color reference. The load
    // fails with its index and produces no mesh instance at all.
    let good = Primitive {
        positions: Some(triangle_positions()),
        normals: None,
        uvs: None,
        indices: Some(vec![0, 1, 2]),
        base_color_image: Some(0),
    };
    let bad = Primitive {
        positions: Some(triangle_positions()),
        normals: None,
        uvs: None,
        indices: Some(vec![0, 1, 2]),
        base_color_image: None,
    };
    let doc = Document {
        meshes: vec![Mesh { primitives: vec![good] }, Mesh { primitives: vec![bad] }],
        images: vec![white_rgba_2x2()],
    };
    let r = build_scene(doc);
    assert_eq!(r.err(), Some(ParseError::MissingTexture { primitive: 1 }));
}

#[test]
fn build_flattens_meshes_in_document_order() {
    let mk = |uv: f32| Primitive {
        positions: Some(vec![v3(uv, 0.0, 0.0), v3(0.0, uv, 0.0), v3(0.0, 0.0, uv)]),
        normals: None,
        uvs: None,
        indices: None,
        base_color_image: Some(0),
    };
    let doc = Document {
        meshes: vec![
            Mesh { primitives: vec![mk(1.0), mk(2.0)] },
            Mesh { primitives: Vec::new() },
            Mesh { primitives: vec![mk(3.0)] },
        ],
        images: vec![white_rgba_2x2()],
    };
    let model = build_scene(doc).unwrap();
    assert_eq!(model.meshes.len(), 3);
    assert_eq!(model.meshes[0].vertices[0].position, v3(1.0, 0.0, 0.0));
    assert_eq!(model.meshes[1].vertices[0].position, v3(2.0, 0.0, 0.0));
    assert_eq!(model.meshes[2].vertices[0].position, v3(3.0, 0.0, 0.0));
    // The generated fallback indices: 0,1,2 for each 3-vertex primitive.
    assert_eq!(model.meshes[0].indices, vec![0, 1, 2]);
}

#[test]
fn build_empty_document() {
    let doc = Document { meshes: Vec::new(), images: Vec::new() };
    let model = build_scene(doc).unwrap();
    assert_eq!(model.meshes.len(), 0);
}
