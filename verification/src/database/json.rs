//! Manifest schema of the asset database.  A root manifest names
//! per-category sub-manifests; each category sub-manifest lists named
//! entries.  The readers turn JSON text into the plain configuration
//! values the registries are built from, with exact contracts: each
//! reader succeeds precisely on text whose decoded tree has the
//! category's shape, returns exactly the fields the tree holds, and a
//! missing or ill-typed field is a parse error naming the field.

use vstd::prelude::*;

use crate::canvas::{parse_rect, spec_rect_fields, Rect2D};
use crate::error::Error;
use crate::jsonval;
use crate::schema;

verus! {

/// One image entry of an image sub-manifest: `{name, path}`.
#[derive(Debug)]
pub struct ImageJSONEntry {
    pub name: String,
    pub path: String,
}

/// An image sub-manifest: `{"images": [...]}`.
#[derive(Debug)]
pub struct ImageJSON {
    pub images: Vec<ImageJSONEntry>,
}

/// One named sprite of an atlas: `{name, id, bounds}`.
#[derive(Debug)]
pub struct AtlasJSONSprite {
    pub name: String,
    pub id: u32,
    pub bounds: Rect2D,
}

/// Automatic sprite slicing of an atlas: `{name, bounds, stride}`.
#[derive(Debug)]
pub struct AtlasJSONAutoGen {
    pub name: String,
    pub bounds: Rect2D,
    pub stride: u32,
}

/// How an atlas is sliced into sprites.  A manifest entry carries
/// exactly one of an explicit sprite list (`entries`) or an automatic
/// generation rule (`auto_gen`); the choice is resolved once at parse
/// time.
#[derive(Debug)]
pub enum AtlasSlicing {
    Entries(Vec<AtlasJSONSprite>),
    AutoGen(AtlasJSONAutoGen),
}

/// One atlas entry of an atlas sub-manifest.
#[derive(Debug)]
pub struct AtlasJSONEntry {
    pub name: String,
    pub path: String,
    pub slicing: AtlasSlicing,
}

/// An atlas sub-manifest: `{"atlases": [...]}`.
#[derive(Debug)]
pub struct AtlasJSON {
    pub atlases: Vec<AtlasJSONEntry>,
}

/// One font entry of a font sub-manifest: `{name, path, size,
/// glyphs?}`.  The point size is an IEEE 754 double bit pattern,
/// carried as a plain integer; an absent `glyphs` field means the
/// default typeset.
#[derive(Debug)]
pub struct TTFJSONEntry {
    pub name: String,
    pub path: String,
    pub size_bits: u64,
    pub glyphs: Option<String>,
}

/// A font sub-manifest: `{"fonts": [...]}`.
#[derive(Debug)]
pub struct TTFJSON {
    pub fonts: Vec<TTFJSONEntry>,
}

/// Per-mesh overrides of a geometry entry.  Schema only: the geometry
/// category is a known gap, deliberately not wired into the database.
#[derive(Debug)]
pub struct MeshInfo {
    pub name: Option<String>,
    pub material: Option<String>,
    pub render_mask: Option<String>,
}

/// One model entry of a geometry sub-manifest.
#[derive(Debug)]
pub struct GeometryJSONEntry {
    pub name: String,
    pub path: String,
    pub render_mask: String,
    pub meshes: Option<Vec<MeshInfo>>,
}

/// A geometry sub-manifest: `{"models": [...]}`.
#[derive(Debug)]
pub struct GeometryJSON {
    pub models: Vec<GeometryJSONEntry>,
}

/// A material list manifest.
#[derive(Debug)]
pub struct MaterialJSON {
    pub materials: Vec<crate::database::geometry::Material>,
}

/// The root manifest: optional references to per-category sub-manifests
/// and auxiliary paths.  The render-graph and shader references are
/// schema-only placeholders with no consuming logic here.
#[derive(Debug)]
pub struct DatabaseJSON {
    pub image_cfg: Option<String>,
    pub atlas_cfg: Option<String>,
    pub geometry_cfg: Option<String>,
    pub ttf_cfg: Option<String>,
    pub particle_cfg: Option<String>,
    pub render_graph_path: Option<String>,
    pub shader_path: Option<String>,
}

/// An optional string of the crate relates to an optional field of the
/// tree: the field read without failing, and the values agree.
pub open spec fn spec_opt_field_matches(o: Option<String>, f: Option<Option<Seq<char>>>) -> bool {
    match f {
        Some(Some(s)) => o matches Some(x) && x@ == s,
        Some(None) => o is None,
        None => false,
    }
}

/// Text is a well-formed root manifest: well-formed JSON whose optional
/// fields, where present, are strings.
pub open spec fn spec_root_manifest_ok(text: Seq<char>) -> bool {
    match jsonval::spec_parsed(text) {
        Some(root) => {
            &&& schema::spec_opt_str_field(root, "image_cfg"@) is Some
            &&& schema::spec_opt_str_field(root, "atlas_cfg"@) is Some
            &&& schema::spec_opt_str_field(root, "geometry_cfg"@) is Some
            &&& schema::spec_opt_str_field(root, "ttf_cfg"@) is Some
            &&& schema::spec_opt_str_field(root, "particle_cfg"@) is Some
            &&& schema::spec_opt_str_field(root, "render_graph_path"@) is Some
            &&& schema::spec_opt_str_field(root, "shader_path"@) is Some
        },
        None => false,
    }
}

impl DatabaseJSON {
    /// Reads a root manifest from JSON text.  Succeeds exactly on a
    /// well-formed root manifest, returning exactly its fields; every
    /// field is optional, and a category absent here yields an empty
    /// registry, not an error.
    pub fn from_json_str(text: &str) -> (r: Result<DatabaseJSON, Error>)
        ensures
            r is Ok <==> spec_root_manifest_ok(text@),
            r matches Err(e) ==> e.is_parse(),
            r matches Ok(d) ==> ({
                let root = jsonval::spec_parsed(text@).unwrap();
                &&& spec_opt_field_matches(d.image_cfg, schema::spec_opt_str_field(root, "image_cfg"@))
                &&& spec_opt_field_matches(d.atlas_cfg, schema::spec_opt_str_field(root, "atlas_cfg"@))
                &&& spec_opt_field_matches(
                    d.geometry_cfg,
                    schema::spec_opt_str_field(root, "geometry_cfg"@),
                )
                &&& spec_opt_field_matches(d.ttf_cfg, schema::spec_opt_str_field(root, "ttf_cfg"@))
                &&& spec_opt_field_matches(
                    d.particle_cfg,
                    schema::spec_opt_str_field(root, "particle_cfg"@),
                )
                &&& spec_opt_field_matches(
                    d.render_graph_path,
                    schema::spec_opt_str_field(root, "render_graph_path"@),
                )
                &&& spec_opt_field_matches(
                    d.shader_path,
                    schema::spec_opt_str_field(root, "shader_path"@),
                )
            }),
    {
        let root = match jsonval::parse_value(text) {
            Ok(v) => v,
            Err(m) => {
                return Err(Error::ParseError(m));
            },
        };
        let image_cfg = schema::get_opt_string_field(&root, "image_cfg")?;
        let atlas_cfg = schema::get_opt_string_field(&root, "atlas_cfg")?;
        let geometry_cfg = schema::get_opt_string_field(&root, "geometry_cfg")?;
        let ttf_cfg = schema::get_opt_string_field(&root, "ttf_cfg")?;
        let particle_cfg = schema::get_opt_string_field(&root, "particle_cfg")?;
        let render_graph_path = schema::get_opt_string_field(&root, "render_graph_path")?;
        let shader_path = schema::get_opt_string_field(&root, "shader_path")?;
        Ok(
            DatabaseJSON {
                image_cfg,
                atlas_cfg,
                geometry_cfg,
                ttf_cfg,
                particle_cfg,
                render_graph_path,
                shader_path,
            },
        )
    }
}

/// The elements of the `images` list of an image sub-manifest's tree.
pub open spec fn spec_images_list(root: serde_json::Value) -> Option<Seq<serde_json::Value>> {
    match jsonval::spec_value_get(root, "images"@) {
        Some(a) => jsonval::spec_value_array(a),
        None => None,
    }
}

/// One element of the `images` list has the entry shape.
pub open spec fn spec_image_entry_ok(v: serde_json::Value) -> bool {
    &&& schema::spec_str_field(v, "name"@) is Some
    &&& schema::spec_str_field(v, "path"@) is Some
}

/// `e` holds exactly the fields of list element `v`.
pub open spec fn spec_image_entry_matches(e: ImageJSONEntry, v: serde_json::Value) -> bool {
    &&& Some(e.name@) == schema::spec_str_field(v, "name"@)
    &&& Some(e.path@) == schema::spec_str_field(v, "path"@)
}

/// Text is a well-formed image sub-manifest.
pub open spec fn spec_image_manifest_ok(text: Seq<char>) -> bool {
    match jsonval::spec_parsed(text) {
        Some(root) => match spec_images_list(root) {
            Some(vs) => forall|i: int| 0 <= i < vs.len() ==> spec_image_entry_ok(#[trigger] vs[i]),
            None => false,
        },
        None => false,
    }
}

impl ImageJSON {
    /// Reads an image sub-manifest from JSON text.  Succeeds exactly on
    /// a well-formed image sub-manifest, returning one entry per list
    /// element, in order, with exactly the declared fields.
    pub fn from_json_str(text: &str) -> (r: Result<ImageJSON, Error>)
        ensures
            r is Ok <==> spec_image_manifest_ok(text@),
            r matches Err(e) ==> e.is_parse(),
            r matches Ok(j) ==> ({
                let vs = spec_images_list(jsonval::spec_parsed(text@).unwrap()).unwrap();
                &&& j.images@.len() == vs.len()
                &&& forall|i: int|
                    0 <= i < vs.len() ==> spec_image_entry_matches(
                        j.images@[i],
                        #[trigger] vs[i],
                    )
            }),
    {
        let root = match jsonval::parse_value(text) {
            Ok(v) => v,
            Err(m) => {
                return Err(Error::ParseError(m));
            },
        };
        let list = match jsonval::value_get(&root, "images") {
            Some(c) => match jsonval::value_as_array(c) {
                Some(a) => a,
                None => {
                    return Err(schema::field_error("images"));
                },
            },
            None => {
                return Err(schema::field_error("images"));
            },
        };
        let mut images: Vec<ImageJSONEntry> = Vec::new();
        let mut i: usize = 0;
        while i < list.len()
            invariant
                jsonval::spec_parsed(text@) == Some(root),
                spec_images_list(root) == Some(list@),
                i <= list@.len(),
                images@.len() == i as int,
                forall|k: int|
                    0 <= k < i as int ==> spec_image_entry_matches(
                        #[trigger] images@[k],
                        list@[k],
                    ),
            decreases list@.len() - i,
        {
            let v = &list[i];
            let name = schema::get_string_field(v, "name")?;
            let path = schema::get_string_field(v, "path")?;
            images.push(ImageJSONEntry { name, path });
            i += 1;
        }
        proof {
            assert forall|k: int| 0 <= k < list@.len() implies spec_image_entry_ok(
                #[trigger] list@[k],
            ) by {
                assert(spec_image_entry_matches(images@[k], list@[k]));
            }
        }
        Ok(ImageJSON { images })
    }
}

/// The `bounds` rectangle of `v`, if it has one.
pub open spec fn spec_bounds_of(v: serde_json::Value) -> Option<Rect2D> {
    match jsonval::spec_value_get(v, "bounds"@) {
        Some(b) => spec_rect_fields(b),
        None => None,
    }
}

/// One element of an atlas entry's `entries` list has the sprite shape.
pub open spec fn spec_sprite_ok(v: serde_json::Value) -> bool {
    &&& schema::spec_str_field(v, "name"@) is Some
    &&& schema::spec_u32_field(v, "id"@) is Some
    &&& spec_bounds_of(v) is Some
}

/// `s` holds exactly the fields of sprite element `v`.
pub open spec fn spec_sprite_matches(s: AtlasJSONSprite, v: serde_json::Value) -> bool {
    &&& Some(s.name@) == schema::spec_str_field(v, "name"@)
    &&& Some(s.id) == schema::spec_u32_field(v, "id"@)
    &&& Some(s.bounds) == spec_bounds_of(v)
}

/// An `auto_gen` object has the generation-rule shape.
pub open spec fn spec_autogen_ok(v: serde_json::Value) -> bool {
    &&& schema::spec_str_field(v, "name"@) is Some
    &&& spec_bounds_of(v) is Some
    &&& schema::spec_u32_field(v, "stride"@) is Some
}

/// `g` holds exactly the fields of `auto_gen` object `v`.
pub open spec fn spec_autogen_matches(g: AtlasJSONAutoGen, v: serde_json::Value) -> bool {
    &&& Some(g.name@) == schema::spec_str_field(v, "name"@)
    &&& Some(g.bounds) == spec_bounds_of(v)
    &&& Some(g.stride) == schema::spec_u32_field(v, "stride"@)
}

/// One element of the `atlases` list has the entry shape: name, path,
/// and exactly one of a well-formed `entries` list or a well-formed
/// `auto_gen` rule.
pub open spec fn spec_atlas_entry_ok(v: serde_json::Value) -> bool {
    &&& schema::spec_str_field(v, "name"@) is Some
    &&& schema::spec_str_field(v, "path"@) is Some
    &&& match (jsonval::spec_value_get(v, "entries"@), jsonval::spec_value_get(v, "auto_gen"@)) {
        (Some(ev), None) => match jsonval::spec_value_array(ev) {
            Some(vs) => forall|i: int| 0 <= i < vs.len() ==> spec_sprite_ok(#[trigger] vs[i]),
            None => false,
        },
        (None, Some(av)) => spec_autogen_ok(av),
        _ => false,
    }
}

/// `e` holds exactly the fields of atlas list element `v`, with the
/// slicing choice resolved.
pub open spec fn spec_atlas_entry_matches(e: AtlasJSONEntry, v: serde_json::Value) -> bool {
    &&& Some(e.name@) == schema::spec_str_field(v, "name"@)
    &&& Some(e.path@) == schema::spec_str_field(v, "path"@)
    &&& match (jsonval::spec_value_get(v, "entries"@), jsonval::spec_value_get(v, "auto_gen"@)) {
        (Some(ev), None) => {
            &&& e.slicing matches AtlasSlicing::Entries(sp)
            &&& jsonval::spec_value_array(ev) matches Some(vs)
            &&& sp@.len() == vs.len()
            &&& forall|i: int|
                0 <= i < vs.len() ==> spec_sprite_matches(sp@[i], #[trigger] vs[i])
        },
        (None, Some(av)) => e.slicing matches AtlasSlicing::AutoGen(g) && spec_autogen_matches(
            g,
            av,
        ),
        _ => false,
    }
}

/// The elements of the `atlases` list of an atlas sub-manifest's tree.
pub open spec fn spec_atlases_list(root: serde_json::Value) -> Option<Seq<serde_json::Value>> {
    match jsonval::spec_value_get(root, "atlases"@) {
        Some(a) => jsonval::spec_value_array(a),
        None => None,
    }
}

/// Text is a well-formed atlas sub-manifest.
pub open spec fn spec_atlas_manifest_ok(text: Seq<char>) -> bool {
    match jsonval::spec_parsed(text) {
        Some(root) => match spec_atlases_list(root) {
            Some(vs) => forall|i: int| 0 <= i < vs.len() ==> spec_atlas_entry_ok(#[trigger] vs[i]),
            None => false,
        },
        None => false,
    }
}

/// Reads a `bounds` field: an `{x, y, w, h}` pixel rectangle.
fn parse_bounds(v: &serde_json::Value) -> (r: Result<Rect2D, Error>)
    ensures
        match r {
            Ok(rc) => spec_bounds_of(*v) == Some(rc),
            Err(e) => spec_bounds_of(*v) is None && e.is_parse(),
        },
{
    match jsonval::value_get(v, "bounds") {
        Some(b) => parse_rect(b),
        None => Err(schema::field_error("bounds")),
    }
}

/// Reads one sprite of an atlas entry's explicit sprite list.
fn parse_atlas_sprite(v: &serde_json::Value) -> (r: Result<AtlasJSONSprite, Error>)
    ensures
        match r {
            Ok(s) => spec_sprite_ok(*v) && spec_sprite_matches(s, *v),
            Err(e) => !spec_sprite_ok(*v) && e.is_parse(),
        },
{
    let name = schema::get_string_field(v, "name")?;
    let id = schema::get_u32_field(v, "id")?;
    let bounds = parse_bounds(v)?;
    Ok(AtlasJSONSprite { name, id, bounds })
}

/// Reads one atlas entry, resolving the `entries` / `auto_gen` choice:
/// exactly one of the two must be present.
fn parse_atlas_entry(v: &serde_json::Value) -> (r: Result<AtlasJSONEntry, Error>)
    ensures
        match r {
            Ok(e) => spec_atlas_entry_ok(*v) && spec_atlas_entry_matches(e, *v),
            Err(e) => !spec_atlas_entry_ok(*v) && e.is_parse(),
        },
{
    let name = schema::get_string_field(v, "name")?;
    let path = schema::get_string_field(v, "path")?;
    let entries_val = jsonval::value_get(v, "entries");
    let auto_val = jsonval::value_get(v, "auto_gen");
    let slicing: AtlasSlicing = match (entries_val, auto_val) {
        (Some(ev), None) => {
            let list = match jsonval::value_as_array(ev) {
                Some(a) => a,
                None => {
                    return Err(schema::field_error("entries"));
                },
            };
            let mut sprites: Vec<AtlasJSONSprite> = Vec::new();
            let mut i: usize = 0;
            while i < list.len()
                invariant
                    jsonval::spec_value_get(*v, "entries"@) matches Some(evv)
                        && jsonval::spec_value_array(evv) == Some(list@),
                    jsonval::spec_value_get(*v, "auto_gen"@) is None,
                    i <= list@.len(),
                    sprites@.len() == i as int,
                    forall|k: int|
                        0 <= k < i as int ==> spec_sprite_ok(#[trigger] list@[k])
                            && spec_sprite_matches(sprites@[k], list@[k]),
                decreases list@.len() - i,
            {
                let sprite = match parse_atlas_sprite(&list[i]) {
                    Ok(sp) => sp,
                    Err(err) => {
                        proof {
                            let ev = jsonval::spec_value_get(*v, "entries"@).unwrap();
                            let vs = jsonval::spec_value_array(ev).unwrap();
                            assert(vs == list@);
                            assert((i as int) < vs.len() && !spec_sprite_ok(vs[i as int]));
                            assert(!spec_atlas_entry_ok(*v));
                        }
                        return Err(err);
                    },
                };
                sprites.push(sprite);
                i += 1;
            }
            AtlasSlicing::Entries(sprites)
        },
        (None, Some(av)) => {
            let gname = schema::get_string_field(av, "name")?;
            let bounds = parse_bounds(av)?;
            let stride = schema::get_u32_field(av, "stride")?;
            AtlasSlicing::AutoGen(AtlasJSONAutoGen { name: gname, bounds, stride })
        },
        _ => {
            return Err(schema::field_error("entries"));
        },
    };
    Ok(AtlasJSONEntry { name, path, slicing })
}

impl AtlasJSON {
    /// Reads an atlas sub-manifest from JSON text.  Succeeds exactly on
    /// a well-formed atlas sub-manifest, returning one entry per list
    /// element, in order, with exactly the declared fields and the
    /// slicing choice resolved.
    pub fn from_json_str(text: &str) -> (r: Result<AtlasJSON, Error>)
        ensures
            r is Ok <==> spec_atlas_manifest_ok(text@),
            r matches Err(e) ==> e.is_parse(),
            r matches Ok(j) ==> ({
                let vs = spec_atlases_list(jsonval::spec_parsed(text@).unwrap()).unwrap();
                &&& j.atlases@.len() == vs.len()
                &&& forall|i: int|
                    0 <= i < vs.len() ==> spec_atlas_entry_matches(
                        j.atlases@[i],
                        #[trigger] vs[i],
                    )
            }),
    {
        let root = match jsonval::parse_value(text) {
            Ok(v) => v,
            Err(m) => {
                return Err(Error::ParseError(m));
            },
        };
        let list = match jsonval::value_get(&root, "atlases") {
            Some(c) => match jsonval::value_as_array(c) {
                Some(a) => a,
                None => {
                    return Err(schema::field_error("atlases"));
                },
            },
            None => {
                return Err(schema::field_error("atlases"));
            },
        };
        let mut atlases: Vec<AtlasJSONEntry> = Vec::new();
        let mut i: usize = 0;
        while i < list.len()
            invariant
                jsonval::spec_parsed(text@) == Some(root),
                spec_atlases_list(root) == Some(list@),
                i <= list@.len(),
                atlases@.len() == i as int,
                forall|k: int|
                    0 <= k < i as int ==> spec_atlas_entry_ok(#[trigger] list@[k])
                        && spec_atlas_entry_matches(atlases@[k], list@[k]),
            decreases list@.len() - i,
        {
            atlases.push(parse_atlas_entry(&list[i])?);
            i += 1;
        }
        Ok(AtlasJSON { atlases })
    }
}

/// The elements of the `fonts` list of a font sub-manifest's tree.
pub open spec fn spec_fonts_list(root: serde_json::Value) -> Option<Seq<serde_json::Value>> {
    match jsonval::spec_value_get(root, "fonts"@) {
        Some(a) => jsonval::spec_value_array(a),
        None => None,
    }
}

/// One element of the `fonts` list has the entry shape: name and path
/// strings, a numeric size, and glyphs that are a string if present.
pub open spec fn spec_font_entry_ok(v: serde_json::Value) -> bool {
    &&& schema::spec_str_field(v, "name"@) is Some
    &&& schema::spec_str_field(v, "path"@) is Some
    &&& schema::spec_f64_field(v, "size"@) is Some
    &&& schema::spec_opt_str_field(v, "glyphs"@) is Some
}

/// `e` holds exactly the fields of font list element `v`.
pub open spec fn spec_font_entry_matches(e: TTFJSONEntry, v: serde_json::Value) -> bool {
    &&& Some(e.name@) == schema::spec_str_field(v, "name"@)
    &&& Some(e.path@) == schema::spec_str_field(v, "path"@)
    &&& Some(e.size_bits) == schema::spec_f64_field(v, "size"@)
    &&& spec_opt_field_matches(e.glyphs, schema::spec_opt_str_field(v, "glyphs"@))
}

/// Text is a well-formed font sub-manifest.
pub open spec fn spec_font_manifest_ok(text: Seq<char>) -> bool {
    match jsonval::spec_parsed(text) {
        Some(root) => match spec_fonts_list(root) {
            Some(vs) => forall|i: int| 0 <= i < vs.len() ==> spec_font_entry_ok(#[trigger] vs[i]),
            None => false,
        },
        None => false,
    }
}

impl TTFJSON {
    /// Reads a font sub-manifest from JSON text.  Succeeds exactly on a
    /// well-formed font sub-manifest, returning one entry per list
    /// element, in order, with exactly the declared fields; the size is
    /// carried as an IEEE 754 double bit pattern.
    pub fn from_json_str(text: &str) -> (r: Result<TTFJSON, Error>)
        ensures
            r is Ok <==> spec_font_manifest_ok(text@),
            r matches Err(e) ==> e.is_parse(),
            r matches Ok(j) ==> ({
                let vs = spec_fonts_list(jsonval::spec_parsed(text@).unwrap()).unwrap();
                &&& j.fonts@.len() == vs.len()
                &&& forall|i: int|
                    0 <= i < vs.len() ==> spec_font_entry_matches(j.fonts@[i], #[trigger] vs[i])
            }),
    {
        let root = match jsonval::parse_value(text) {
            Ok(v) => v,
            Err(m) => {
                return Err(Error::ParseError(m));
            },
        };
        let list = match jsonval::value_get(&root, "fonts") {
            Some(c) => match jsonval::value_as_array(c) {
                Some(a) => a,
                None => {
                    return Err(schema::field_error("fonts"));
                },
            },
            None => {
                return Err(schema::field_error("fonts"));
            },
        };
        let mut fonts: Vec<TTFJSONEntry> = Vec::new();
        let mut i: usize = 0;
        while i < list.len()
            invariant
                jsonval::spec_parsed(text@) == Some(root),
                spec_fonts_list(root) == Some(list@),
                i <= list@.len(),
                fonts@.len() == i as int,
                forall|k: int|
                    0 <= k < i as int ==> spec_font_entry_ok(#[trigger] list@[k])
                        && spec_font_entry_matches(fonts@[k], list@[k]),
            decreases list@.len() - i,
        {
            let v = &list[i];
            let name = schema::get_string_field(v, "name")?;
            let path = schema::get_string_field(v, "path")?;
            let size_bits = schema::get_float_bits_field(v, "size")?;
            let glyphs = schema::get_opt_string_field(v, "glyphs")?;
            fonts.push(TTFJSONEntry { name, path, size_bits, glyphs });
            i += 1;
        }
        Ok(TTFJSON { fonts })
    }
}

} // verus!
