//! Geometry importer: a pure transformation from an externally-decoded
//! scene (per-primitive attribute buffers and material descriptions) to
//! a flat mesh list.  Positions, normals and texture coordinates are
//! mandatory; absent skinning buffers are replaced by neutral defaults
//! sized to the vertex count.  Coordinate and weight components are
//! IEEE 754 single bit patterns, carried as plain integers.

use vstd::prelude::*;
use vstd::string::StringExecFns;


verus! {

/// A vertex index into a mesh's vertex list.
pub type Index = u32;

/// One imported vertex.  Component fields hold IEEE 754 single bit
/// patterns; `bone_ids` are plain joint indices.
#[derive(PartialEq, Eq, Clone, Copy, Debug)]
pub struct Vertex {
    pub pos: [u32; 3],
    pub normal: [u32; 3],
    pub tex_coords: [u32; 2],
    pub bone_ids: [u32; 4],
    pub bone_weights: [u32; 4],
}

/// The role a texture plays in a material.
#[derive(PartialEq, Eq, Structural, Hash, Clone, Copy, Debug)]
pub enum TextureType {
    Diffuse,
    Specular,
    Roughness,
    Normal,
    Occlusion,
    Emissive,
    Albedo,
}

/// A material: its name and a role-keyed map of texture names.  A role
/// with no bound texture is simply absent.  The map is one ordered
/// store of pairs with each role occurring at most once.
#[derive(Debug)]
pub struct Material {
    pub name: String,
    pub textures: Vec<(TextureType, String)>,
}

impl Material {
    /// The name of the texture bound to role `t`, if any.
    pub fn texture(&self, t: TextureType) -> (r: Option<&String>)
        ensures
            match r {
                Some(s) => exists|i: int|
                    0 <= i < self.textures@.len() && (#[trigger] self.textures@[i]).0 == t
                        && self.textures@[i].1 == *s,
                None => forall|i: int|
                    0 <= i < self.textures@.len() ==> (#[trigger] self.textures@[i]).0 != t,
            },
    {
        let mut i: usize = 0;
        while i < self.textures.len()
            invariant
                i <= self.textures@.len(),
                forall|k: int| 0 <= k < i as int ==> (#[trigger] self.textures@[k]).0 != t,
            decreases self.textures@.len() - i,
        {
            if self.textures[i].0 == t {
                return Some(&self.textures[i].1);
            }
            i += 1;
        }
        None
    }
}

/// One imported mesh: vertices, indices, material.
#[derive(Debug)]
pub struct Mesh {
    pub vertices: Vec<Vertex>,
    pub indices: Vec<Index>,
    pub material: Material,
}

/// An imported model: a flat mesh list.
#[derive(Debug)]
pub struct Model {
    pub meshes: Vec<Mesh>,
}

/// Decoded attribute buffers of one primitive, as the external decoder
/// hands them back, each buffer optionally present.
#[derive(Debug)]
pub struct PrimitiveData {
    pub positions: Option<Vec<[u32; 3]>>,
    pub normals: Option<Vec<[u32; 3]>>,
    pub tex_coords: Option<Vec<[u32; 2]>>,
    pub joints: Option<Vec<[u16; 4]>>,
    pub weights: Option<Vec<[u32; 4]>>,
    pub indices: Option<Vec<u32>>,
    pub material_name: Option<String>,
    pub diffuse_texture: Option<String>,
    pub normal_texture: Option<String>,
    pub occlusion_texture: Option<String>,
    pub emissive_texture: Option<String>,
}

/// One decoded mesh: its primitives.
#[derive(Debug)]
pub struct MeshData {
    pub primitives: Vec<PrimitiveData>,
}

/// The mandatory buffers of `p` are present and every present buffer
/// matches the position count.
pub open spec fn spec_prim_complete(p: PrimitiveData) -> bool {
    &&& p.positions is Some
    &&& p.normals is Some
    &&& p.normals.unwrap()@.len() == p.positions.unwrap()@.len()
    &&& p.tex_coords is Some
    &&& p.tex_coords.unwrap()@.len() == p.positions.unwrap()@.len()
    &&& p.joints is Some ==> p.joints.unwrap()@.len() == p.positions.unwrap()@.len()
    &&& p.weights is Some ==> p.weights.unwrap()@.len() == p.positions.unwrap()@.len()
}

/// Joint ids widened to the vertex format.
pub open spec fn spec_widen4(j: [u16; 4]) -> [u32; 4] {
    [j[0] as u32, j[1] as u32, j[2] as u32, j[3] as u32]
}

/// The `i`-th vertex `p` imports to: buffers at `i`, with neutral
/// defaults for absent skinning buffers.
pub open spec fn spec_prim_vertex(p: PrimitiveData, i: int) -> Vertex {
    Vertex {
        pos: p.positions.unwrap()@[i],
        normal: p.normals.unwrap()@[i],
        tex_coords: p.tex_coords.unwrap()@[i],
        bone_ids: (match p.joints {
            Some(j) => spec_widen4(j@[i]),
            None => [0u32, 0u32, 0u32, 0u32],
        }),
        bone_weights: (match p.weights {
            Some(w) => w@[i],
            None => [0u32, 0u32, 0u32, 0u32],
        }),
    }
}

/// The vertex list `p` imports to: one vertex per source position.
pub open spec fn spec_prim_seq(p: PrimitiveData) -> Seq<Vertex> {
    Seq::new(p.positions.unwrap()@.len(), |i: int| spec_prim_vertex(p, i))
}

/// The name the material of `p` imports under.
pub open spec fn spec_material_name(p: PrimitiveData) -> Seq<char> {
    match p.material_name {
        Some(n) => n@,
        None => "Unknown"@,
    }
}

/// The role-keyed texture map of `p`'s material: a pair per bound role,
/// in a fixed role order, so each role occurs at most once.
pub open spec fn spec_material_textures(p: PrimitiveData) -> Seq<(TextureType, String)> {
    (match p.diffuse_texture {
        Some(t) => seq![(TextureType::Diffuse, t)],
        None => Seq::<(TextureType, String)>::empty(),
    }) + (match p.normal_texture {
        Some(t) => seq![(TextureType::Normal, t)],
        None => Seq::<(TextureType, String)>::empty(),
    }) + (match p.occlusion_texture {
        Some(t) => seq![(TextureType::Occlusion, t)],
        None => Seq::<(TextureType, String)>::empty(),
    }) + (match p.emissive_texture {
        Some(t) => seq![(TextureType::Emissive, t)],
        None => Seq::<(TextureType, String)>::empty(),
    })
}

/// Joint ids widened to the vertex format.
fn widen4(j: [u16; 4]) -> (r: [u32; 4])
    ensures
        r == spec_widen4(j),
{
    let r: [u32; 4] = [j[0] as u32, j[1] as u32, j[2] as u32, j[3] as u32];
    proof {
        assert(r =~= spec_widen4(j));
    }
    r
}

/// Imports the vertices of one primitive: `None` exactly when a
/// mandatory buffer is absent or a present buffer does not match the
/// position count; otherwise one vertex per source position, with
/// neutral joints and weights where the skinning buffers are absent.
pub fn primitive_vertices(p: &PrimitiveData) -> (r: Option<Vec<Vertex>>)
    ensures
        match r {
            Some(v) => spec_prim_complete(*p) && v@ == spec_prim_seq(*p),
            None => !spec_prim_complete(*p),
        },
{
    let positions = match &p.positions {
        Some(v) => v,
        None => {
            return None;
        },
    };
    let normals = match &p.normals {
        Some(v) => v,
        None => {
            return None;
        },
    };
    let tex_coords = match &p.tex_coords {
        Some(v) => v,
        None => {
            return None;
        },
    };
    let n = positions.len();
    if normals.len() != n || tex_coords.len() != n {
        return None;
    }
    match &p.joints {
        Some(j) => {
            if j.len() != n {
                return None;
            }
        },
        None => {},
    }
    match &p.weights {
        Some(w) => {
            if w.len() != n {
                return None;
            }
        },
        None => {},
    }
    let mut out: Vec<Vertex> = Vec::new();
    let mut i: usize = 0;
    while i < n
        invariant
            spec_prim_complete(*p),
            n == p.positions.unwrap()@.len(),
            i <= n,
            out@.len() == i,
            forall|k: int| 0 <= k < i as int ==> out@[k] == spec_prim_vertex(*p, k),
        decreases n - i,
    {
        let bone_ids: [u32; 4] = match &p.joints {
            Some(j) => widen4(j[i]),
            None => [0u32, 0u32, 0u32, 0u32],
        };
        let bone_weights: [u32; 4] = match &p.weights {
            Some(w) => w[i],
            None => [0u32, 0u32, 0u32, 0u32],
        };
        let positions = p.positions.as_ref().unwrap();
        let normals = p.normals.as_ref().unwrap();
        let tex = p.tex_coords.as_ref().unwrap();
        out.push(
            Vertex {
                pos: positions[i],
                normal: normals[i],
                tex_coords: tex[i],
                bone_ids,
                bone_weights,
            },
        );
        i += 1;
    }
    proof {
        assert(out@ =~= spec_prim_seq(*p));
    }
    Some(out)
}

/// Imports the material of one primitive: the declared name (or
/// "Unknown") and a role-keyed map holding exactly the bound textures.
pub fn primitive_material(p: &PrimitiveData) -> (m: Material)
    ensures
        m.name@ == spec_material_name(*p),
        m.textures@ == spec_material_textures(*p),
{
    let name: String = match &p.material_name {
        Some(n) => n.clone(),
        None => String::from_str("Unknown"),
    };
    let mut textures: Vec<(TextureType, String)> = Vec::new();
    match &p.diffuse_texture {
        Some(t) => textures.push((TextureType::Diffuse, t.clone())),
        None => {},
    }
    match &p.normal_texture {
        Some(t) => textures.push((TextureType::Normal, t.clone())),
        None => {},
    }
    match &p.occlusion_texture {
        Some(t) => textures.push((TextureType::Occlusion, t.clone())),
        None => {},
    }
    match &p.emissive_texture {
        Some(t) => textures.push((TextureType::Emissive, t.clone())),
        None => {},
    }
    proof {
        assert(textures@ =~= spec_material_textures(*p));
    }
    Material { name, textures }
}

/// A decoded mesh imports when it has at least one primitive (the last
/// primitive's material becomes the mesh's) and every primitive is
/// complete.
pub open spec fn spec_mesh_ok(m: MeshData) -> bool {
    &&& m.primitives@.len() > 0
    &&& forall|i: int|
        0 <= i < m.primitives@.len() ==> spec_prim_complete(#[trigger] m.primitives@[i])
}

/// The vertices a primitive list imports to, concatenated in order.
pub open spec fn spec_mesh_vertices(prims: Seq<PrimitiveData>) -> Seq<Vertex>
    decreases prims.len(),
{
    if prims.len() == 0 {
        Seq::empty()
    } else {
        spec_mesh_vertices(prims.drop_last()) + spec_prim_seq(prims.last())
    }
}

/// The indices a primitive list imports to, concatenated in order; a
/// primitive without indices contributes nothing.
pub open spec fn spec_mesh_indices(prims: Seq<PrimitiveData>) -> Seq<u32>
    decreases prims.len(),
{
    if prims.len() == 0 {
        Seq::empty()
    } else {
        spec_mesh_indices(prims.drop_last()) + (match prims.last().indices {
            Some(ix) => ix@,
            None => Seq::<u32>::empty(),
        })
    }
}

/// `mesh` is what `md` imports to.
pub open spec fn spec_mesh_matches(mesh: Mesh, md: MeshData) -> bool {
    &&& mesh.vertices@ == spec_mesh_vertices(md.primitives@)
    &&& mesh.indices@ == spec_mesh_indices(md.primitives@)
    &&& mesh.material.name@ == spec_material_name(md.primitives@.last())
    &&& mesh.material.textures@ == spec_material_textures(md.primitives@.last())
}

/// Imports one decoded mesh: `None` exactly when it has no primitive or
/// some primitive is incomplete; no partial mesh is ever returned.
pub fn import_mesh(md: &MeshData) -> (r: Option<Mesh>)
    ensures
        match r {
            Some(mesh) => spec_mesh_ok(*md) && spec_mesh_matches(mesh, *md),
            None => !spec_mesh_ok(*md),
        },
{
    let prim_count = md.primitives.len();
    if prim_count == 0 {
        return None;
    }
    let mut vertices: Vec<Vertex> = Vec::new();
    let mut indices: Vec<u32> = Vec::new();
    let mut i: usize = 0;
    while i < prim_count
        invariant
            prim_count == md.primitives@.len(),
            i <= prim_count,
            forall|k: int|
                0 <= k < i as int ==> spec_prim_complete(#[trigger] md.primitives@[k]),
            vertices@ == spec_mesh_vertices(md.primitives@.take(i as int)),
            indices@ == spec_mesh_indices(md.primitives@.take(i as int)),
        decreases prim_count - i,
    {
        let p = &md.primitives[i];
        let mut vs = match primitive_vertices(p) {
            Some(v) => v,
            None => {
                return None;
            },
        };
        proof {
            let taken = md.primitives@.take(i as int + 1);
            assert(taken.drop_last() =~= md.primitives@.take(i as int));
            assert(taken.last() == md.primitives@[i as int]);
        }
        vertices.append(&mut vs);
        match &p.indices {
            Some(ix) => {
                indices.extend_from_slice(ix.as_slice());
            },
            None => {},
        }
        proof {
            assert(vertices@ =~= spec_mesh_vertices(md.primitives@.take(i as int + 1)));
            assert(indices@ =~= spec_mesh_indices(md.primitives@.take(i as int + 1)));
        }
        i += 1;
    }
    let material = primitive_material(&md.primitives[prim_count - 1]);
    proof {
        assert(md.primitives@.take(prim_count as int) =~= md.primitives@);
        assert(md.primitives@.last() == md.primitives@[prim_count - 1]);
    }
    Some(Mesh { vertices, indices, material })
}

/// Every decoded mesh of the scene imports.
pub open spec fn spec_model_ok(scene: Seq<MeshData>) -> bool {
    forall|i: int| 0 <= i < scene.len() ==> spec_mesh_ok(#[trigger] scene[i])
}

/// Imports an externally-decoded scene into a flat mesh list: `None`
/// exactly when some mesh fails to import; otherwise one mesh per
/// decoded mesh, in order.  No partial model is ever returned.
pub fn import_model(scene: &Vec<MeshData>) -> (r: Option<Model>)
    ensures
        match r {
            Some(model) => spec_model_ok(scene@) && model.meshes@.len() == scene@.len() && forall|
                i: int,
            |
                0 <= i < scene@.len() ==> spec_mesh_matches(
                    #[trigger] model.meshes@[i],
                    scene@[i],
                ),
            None => !spec_model_ok(scene@),
        },
{
    let mut meshes: Vec<Mesh> = Vec::new();
    let mut i: usize = 0;
    while i < scene.len()
        invariant
            i <= scene@.len(),
            meshes@.len() == i,
            forall|k: int|
                0 <= k < i as int ==> spec_mesh_ok(#[trigger] scene@[k]) && spec_mesh_matches(
                    meshes@[k],
                    scene@[k],
                ),
        decreases scene@.len() - i,
    {
        let mesh = match import_mesh(&scene[i]) {
            Some(m) => m,
            None => {
                return None;
            },
        };
        meshes.push(mesh);
        i += 1;
    }
    Some(Model { meshes })
}

/// A primitive with no skinning buffers imports with neutral skinning:
/// one vertex per source position, each with joint ids 0,0,0,0 and
/// weights 0,0,0,0.
pub proof fn lemma_default_skinning(p: PrimitiveData)
    requires
        spec_prim_complete(p),
        p.joints is None,
        p.weights is None,
    ensures
        spec_prim_seq(p).len() == p.positions.unwrap()@.len(),
        forall|i: int, j: int|
            0 <= i < spec_prim_seq(p).len() && 0 <= j < 4
                ==> #[trigger] spec_prim_seq(p)[i].bone_ids[j] == 0,
        forall|i: int, j: int|
            0 <= i < spec_prim_seq(p).len() && 0 <= j < 4
                ==> #[trigger] spec_prim_seq(p)[i].bone_weights[j] == 0,
{
}

} // verus!
