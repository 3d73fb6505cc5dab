use remouillage::database::geometry::{
    import_mesh, import_model, primitive_material, primitive_vertices, MeshData, PrimitiveData,
    TextureType,
};
use remouillage::database::images::GeometryEntry;
use remouillage::database::json::GeometryJSONEntry;

fn bits3(x: f32, y: f32, z: f32) -> [u32; 3] {
    [x.to_bits(), y.to_bits(), z.to_bits()]
}

fn bits2(u: f32, v: f32) -> [u32; 2] {
    [u.to_bits(), v.to_bits()]
}

fn bare_primitive() -> PrimitiveData {
    PrimitiveData {
        positions: None,
        normals: None,
        tex_coords: None,
        joints: None,
        weights: None,
        indices: None,
        material_name: None,
        diffuse_texture: None,
        normal_texture: None,
        occlusion_texture: None,
        emissive_texture: None,
    }
}

fn triangle() -> PrimitiveData {
    PrimitiveData {
        positions: Some(vec![
            bits3(0.0, 0.0, 0.0),
            bits3(1.0, 0.0, 0.0),
            bits3(0.0, 1.0, 0.0),
        ]),
        normals: Some(vec![bits3(0.0, 0.0, 1.0); 3]),
        tex_coords: Some(vec![bits2(0.0, 0.0), bits2(1.0, 0.0), bits2(0.0, 1.0)]),
        indices: Some(vec![0, 1, 2]),
        ..bare_primitive()
    }
}

#[test]
fn missing_skinning_data_imports_with_neutral_defaults() {
    let p = triangle();
    let vs = primitive_vertices(&p).expect("mandatory attributes are present");
    assert_eq!(vs.len(), 3);
    for v in &vs {
        assert_eq!(v.bone_ids, [0, 0, 0, 0]);
        assert_eq!(v.bone_weights, [0, 0, 0, 0]);
        assert_eq!(f32::from_bits(v.bone_weights[0]), 0.0);
    }
    assert_eq!(vs[1].pos, bits3(1.0, 0.0, 0.0));
    assert_eq!(vs[2].tex_coords, bits2(0.0, 1.0));
}

#[test]
fn present_skinning_data_is_kept_and_widened() {
    let p = PrimitiveData {
        joints: Some(vec![[1u16, 2, 3, 4]; 3]),
        weights: Some(vec![[1.0f32.to_bits(), 0, 0, 0]; 3]),
        ..triangle()
    };
    let vs = primitive_vertices(&p).unwrap();
    assert_eq!(vs[0].bone_ids, [1, 2, 3, 4]);
    assert_eq!(f32::from_bits(vs[0].bone_weights[0]), 1.0);
}

#[test]
fn missing_mandatory_attributes_fail_the_import() {
    let no_positions = PrimitiveData { positions: None, ..triangle() };
    assert!(primitive_vertices(&no_positions).is_none());
    let no_normals = PrimitiveData { normals: None, ..triangle() };
    assert!(primitive_vertices(&no_normals).is_none());
    let no_tex = PrimitiveData { tex_coords: None, ..triangle() };
    assert!(primitive_vertices(&no_tex).is_none());
    // a present buffer that does not match the position count also fails
    let short_normals = PrimitiveData {
        normals: Some(vec![bits3(0.0, 0.0, 1.0); 2]),
        ..triangle()
    };
    assert!(primitive_vertices(&short_normals).is_none());
    let short_joints = PrimitiveData {
        joints: Some(vec![[0u16; 4]; 1]),
        ..triangle()
    };
    assert!(primitive_vertices(&short_joints).is_none());
}

#[test]
fn material_collects_only_bound_texture_roles() {
    let p = PrimitiveData {
        material_name: Some("wood".to_string()),
        diffuse_texture: Some("wood_diffuse".to_string()),
        occlusion_texture: Some("wood_ao".to_string()),
        ..triangle()
    };
    let m = primitive_material(&p);
    assert_eq!(m.name, "wood");
    assert_eq!(m.textures.len(), 2);
    assert_eq!(m.texture(TextureType::Diffuse).unwrap(), "wood_diffuse");
    assert_eq!(m.texture(TextureType::Occlusion).unwrap(), "wood_ao");
    assert!(m.texture(TextureType::Normal).is_none());
    assert!(m.texture(TextureType::Emissive).is_none());

    let unnamed = primitive_material(&bare_primitive());
    assert_eq!(unnamed.name, "Unknown");
    assert!(unnamed.textures.is_empty());
}

#[test]
fn mesh_concatenates_primitives_and_takes_the_last_material() {
    let first = PrimitiveData {
        material_name: Some("first".to_string()),
        ..triangle()
    };
    let second = PrimitiveData {
        material_name: Some("second".to_string()),
        indices: Some(vec![2, 1, 0]),
        ..triangle()
    };
    let md = MeshData { primitives: vec![first, second] };
    let mesh = import_mesh(&md).unwrap();
    assert_eq!(mesh.vertices.len(), 6);
    assert_eq!(mesh.indices, vec![0, 1, 2, 2, 1, 0]);
    assert_eq!(mesh.material.name, "second");
}

#[test]
fn a_mesh_without_primitives_fails_the_import() {
    assert!(import_mesh(&MeshData { primitives: vec![] }).is_none());
}

#[test]
fn a_primitive_without_indices_contributes_none() {
    let md = MeshData {
        primitives: vec![PrimitiveData { indices: None, ..triangle() }],
    };
    let mesh = import_mesh(&md).unwrap();
    assert_eq!(mesh.vertices.len(), 3);
    assert!(mesh.indices.is_empty());
}

#[test]
fn model_import_is_all_or_nothing() {
    let good = MeshData { primitives: vec![triangle()] };
    let model = import_model(&vec![good]).unwrap();
    assert_eq!(model.meshes.len(), 1);

    let good = MeshData { primitives: vec![triangle()] };
    let bad = MeshData {
        primitives: vec![PrimitiveData { positions: None, ..triangle() }],
    };
    assert!(import_model(&vec![good, bad]).is_none());
}

#[test]
fn geometry_entries_materialize_at_most_once_until_unloaded() {
    let good = MeshData { primitives: vec![triangle()] };
    let model = import_model(&vec![good]).unwrap();
    let mut entry = GeometryEntry {
        cfg: GeometryJSONEntry {
            name: "tri".to_string(),
            path: "tri.gltf".to_string(),
            render_mask: "opaque".to_string(),
            meshes: None,
        },
        loaded: None,
    };
    entry.load(model);
    assert!(entry.loaded.is_some());
    assert_eq!(entry.loaded.as_ref().unwrap().meshes.len(), 1);

    // loading again keeps the cached model
    let good = MeshData { primitives: vec![triangle(), triangle()] };
    let second = import_model(&vec![good]).unwrap();
    entry.load(second);
    assert_eq!(entry.loaded.as_ref().unwrap().meshes.len(), 1);

    entry.unload();
    assert!(entry.loaded.is_none());
    let good = MeshData { primitives: vec![triangle(), triangle()] };
    let third = import_model(&vec![good]).unwrap();
    entry.load(third);
    assert_eq!(entry.loaded.as_ref().unwrap().meshes[0].vertices.len(), 6);
}
