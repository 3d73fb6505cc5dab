//! The asset database: four category registries built once from a root
//! manifest and its referenced sub-manifests, with per-entry lazy
//! materialization.  Reading the manifest files, decoding images,
//! rasterizing fonts and importing models are external capabilities:
//! the caller reads and decodes, this module decides.  A fetch is split
//! into its decisions: `*_load_request` says whether a decode is owed
//! and with which parameters, `store_*` caches what the decoder handed
//! back (keeping an already-cached payload, so each entry decodes at
//! most once until unloaded), `get_*` returns the entry, and `unload_*`
//! clears it so the next fetch decodes anew.

pub mod font;
pub mod geometry;
pub mod images;
pub mod json;

use vstd::prelude::*;
use vstd::string::StringExecFns;

use crate::error::Error;
use self::font::{
    spec_typeset,
    string_chars,
    default_typeset,
    TTFont,
    RASTER_ATLAS_HEIGHT,
    RASTER_ATLAS_WIDTH,
};
use self::images::{
    parse_atlasses,
    parse_images,
    parse_ttfs,
    spec_parse_atlasses,
    spec_parse_images,
    spec_parse_ttfs,
    AtlasEntry,
    AtlasRegistry,
    ImageEntry,
    ImageLoadInfo,
    ImageRegistry,
    TTFEntry,
    TTFRegistry,
};
use self::json::{AtlasJSON, DatabaseJSON, ImageJSON, TTFJSON};

verus! {

/// The path of an asset relative to the process, resolved against the
/// database's base path.
pub open spec fn spec_full_path(base: Seq<char>, rel: Seq<char>) -> Seq<char> {
    base + "/"@ + rel
}

/// Joins the database's base path with a manifest-relative path.
pub fn join_path(base: &str, rel: &str) -> (r: String)
    ensures
        r@ == spec_full_path(base@, rel@),
{
    let s = String::from_str(base);
    let s = s.concat("/");
    let s = s.concat(rel);
    s
}

/// What the external image decoder is asked to decode: the asset's full
/// path.
#[derive(Debug)]
pub struct ImageLoadRequest {
    pub path: String,
}

/// What the external font rasterizer is asked to rasterize: the font's
/// full path, the raster atlas dimensions, the declared point size (an
/// IEEE 754 double bit pattern), and the typeset.
#[derive(Debug)]
pub struct TTFLoadRequest {
    pub path: String,
    pub width: u32,
    pub height: u32,
    pub size_bits: u64,
    pub typeset: Vec<char>,
}

/// The asset database.
pub struct Database {
    base_path: String,
    images: ImageRegistry,
    atlases: AtlasRegistry,
    ttfs: TTFRegistry,
    particle_cfg: String,
}

impl Database {
    pub closed spec fn spec_base_path(&self) -> Seq<char> {
        self.base_path@
    }

    pub closed spec fn spec_images(&self) -> Seq<ImageEntry> {
        self.images@
    }

    pub closed spec fn spec_atlases(&self) -> Seq<AtlasEntry> {
        self.atlases@
    }

    pub closed spec fn spec_ttfs(&self) -> Seq<TTFEntry> {
        self.ttfs@
    }

    pub closed spec fn spec_particle_cfg(&self) -> Seq<char> {
        self.particle_cfg@
    }

    /// The position the image category addresses under `name`: the last
    /// entry bearing it, if any.
    pub open spec fn spec_image_find(&self, name: Seq<char>) -> Option<int> {
        images::spec_find_last(
            self.spec_images().map(|k: int, e: ImageEntry| e.cfg.name@),
            name,
        )
    }

    /// The position the atlas category addresses under `name`.
    pub open spec fn spec_atlas_find(&self, name: Seq<char>) -> Option<int> {
        images::spec_find_last(
            self.spec_atlases().map(|k: int, e: AtlasEntry| e.cfg.name@),
            name,
        )
    }

    /// The position the font category addresses under `name`.
    pub open spec fn spec_ttf_find(&self, name: Seq<char>) -> Option<int> {
        images::spec_find_last(
            self.spec_ttfs().map(|k: int, e: TTFEntry| e.cfg.name@),
            name,
        )
    }

    /// Builds the database from the parsed root manifest and the parsed
    /// sub-manifests of the categories the root references.  A category
    /// absent from the root yields an empty registry, not an error; the
    /// geometry category is a known gap and is not wired in.
    pub fn new(
        base_path: &str,
        root: DatabaseJSON,
        images: Option<ImageJSON>,
        atlases: Option<AtlasJSON>,
        fonts: Option<TTFJSON>,
    ) -> (db: Database)
        ensures
            db.spec_base_path() == base_path@,
            db.spec_images() == (match images {
                Some(j) => spec_parse_images(j.images@),
                None => Seq::<ImageEntry>::empty(),
            }),
            db.spec_atlases() == (match atlases {
                Some(j) => spec_parse_atlasses(j.atlases@),
                None => Seq::<AtlasEntry>::empty(),
            }),
            db.spec_ttfs() == (match fonts {
                Some(j) => spec_parse_ttfs(j.fonts@),
                None => Seq::<TTFEntry>::empty(),
            }),
            db.spec_particle_cfg() == (match root.particle_cfg {
                Some(p) => p@,
                None => Seq::<char>::empty(),
            }),
    {
        let image_reg = match images {
            Some(j) => parse_images(j),
            None => ImageRegistry::empty(),
        };
        let atlas_reg = match atlases {
            Some(j) => parse_atlasses(j),
            None => AtlasRegistry::empty(),
        };
        let ttf_reg = match fonts {
            Some(j) => parse_ttfs(j),
            None => TTFRegistry::empty(),
        };
        let particle_cfg = match root.particle_cfg {
            Some(p) => p,
            None => String::new(),
        };
        Database {
            base_path: String::from_str(base_path),
            images: image_reg,
            atlases: atlas_reg,
            ttfs: ttf_reg,
            particle_cfg,
        }
    }

    /// The base path all manifest-relative paths resolve against.
    pub fn base_path(&self) -> (r: &str)
        ensures
            r@ == self.spec_base_path(),
    {
        self.base_path.as_str()
    }

    /// The particle-system configuration path of the root manifest, or
    /// the empty string when the root declared none.
    pub fn particle_system_cfg_path(&self) -> (r: Result<String, Error>)
        ensures
            r matches Ok(p) && p@ == self.spec_particle_cfg(),
    {
        Ok(self.particle_cfg.clone())
    }

    /// How many image entries the database holds.
    pub fn image_count(&self) -> (r: usize)
        ensures
            r == self.spec_images().len(),
    {
        self.images.len()
    }

    /// How many atlas entries the database holds.
    pub fn atlas_count(&self) -> (r: usize)
        ensures
            r == self.spec_atlases().len(),
    {
        self.atlases.len()
    }

    /// How many font entries the database holds.
    pub fn ttf_count(&self) -> (r: usize)
        ensures
            r == self.spec_ttfs().len(),
    {
        self.ttfs.len()
    }

    /// The image entry addressed as `name`; a lookup error naming the
    /// entry exactly when the name is absent.
    pub fn get_image(&self, name: &str) -> (r: Result<&ImageEntry, Error>)
        ensures
            match r {
                Ok(e) => self.spec_image_find(name@) matches Some(i) && *e == self.spec_images()[i],
                Err(e) => self.spec_image_find(name@) is None && e.is_lookup() && e.subject()
                    == name@,
            },
    {
        match self.images.find(name) {
            Some(i) => Ok(self.images.at(i)),
            None => Err(Error::LookupError(String::from_str(name))),
        }
    }

    /// The atlas entry addressed as `name`; a lookup error naming the
    /// entry exactly when the name is absent.
    pub fn get_atlas(&self, name: &str) -> (r: Result<&AtlasEntry, Error>)
        ensures
            match r {
                Ok(e) => self.spec_atlas_find(name@) matches Some(i) && *e
                    == self.spec_atlases()[i],
                Err(e) => self.spec_atlas_find(name@) is None && e.is_lookup() && e.subject()
                    == name@,
            },
    {
        match self.atlases.find(name) {
            Some(i) => Ok(self.atlases.at(i)),
            None => Err(Error::LookupError(String::from_str(name))),
        }
    }

    /// The font entry addressed as `name`; a lookup error naming the
    /// entry exactly when the name is absent.
    pub fn get_ttf(&self, name: &str) -> (r: Result<&TTFEntry, Error>)
        ensures
            match r {
                Ok(e) => self.spec_ttf_find(name@) matches Some(i) && *e == self.spec_ttfs()[i],
                Err(e) => self.spec_ttf_find(name@) is None && e.is_lookup() && e.subject()
                    == name@,
            },
    {
        match self.ttfs.find(name) {
            Some(i) => Ok(self.ttfs.at(i)),
            None => Err(Error::LookupError(String::from_str(name))),
        }
    }

    /// Whether fetching image `name` owes a decode: a lookup error
    /// exactly when the name is absent; `None` when the payload is
    /// cached (no decode); otherwise the decode request, addressing the
    /// entry's source file under the base path.
    pub fn image_load_request(&self, name: &str) -> (r: Result<Option<ImageLoadRequest>, Error>)
        ensures
            match r {
                Ok(opt) => self.spec_image_find(name@) matches Some(i) && (match opt {
                    None => self.spec_images()[i].loaded is Some,
                    Some(req) => self.spec_images()[i].loaded is None && req.path@
                        == spec_full_path(self.spec_base_path(), self.spec_images()[i].cfg.path@),
                }),
                Err(e) => self.spec_image_find(name@) is None && e.is_lookup() && e.subject()
                    == name@,
            },
    {
        match self.images.find(name) {
            Some(i) => {
                let e = self.images.at(i);
                if e.loaded.is_some() {
                    Ok(None)
                } else {
                    let path = join_path(self.base_path.as_str(), e.cfg.path.as_str());
                    Ok(Some(ImageLoadRequest { path }))
                }
            },
            None => Err(Error::LookupError(String::from_str(name))),
        }
    }

    /// Whether fetching atlas `name` owes a decode; as for images.
    pub fn atlas_load_request(&self, name: &str) -> (r: Result<Option<ImageLoadRequest>, Error>)
        ensures
            match r {
                Ok(opt) => self.spec_atlas_find(name@) matches Some(i) && (match opt {
                    None => self.spec_atlases()[i].loaded is Some,
                    Some(req) => self.spec_atlases()[i].loaded is None && req.path@
                        == spec_full_path(self.spec_base_path(), self.spec_atlases()[i].cfg.path@),
                }),
                Err(e) => self.spec_atlas_find(name@) is None && e.is_lookup() && e.subject()
                    == name@,
            },
    {
        match self.atlases.find(name) {
            Some(i) => {
                let e = self.atlases.at(i);
                if e.loaded.is_some() {
                    Ok(None)
                } else {
                    let path = join_path(self.base_path.as_str(), e.cfg.path.as_str());
                    Ok(Some(ImageLoadRequest { path }))
                }
            },
            None => Err(Error::LookupError(String::from_str(name))),
        }
    }

    /// Whether fetching font `name` owes a rasterization: a lookup
    /// error exactly when the name is absent; `None` when the font is
    /// cached; otherwise the rasterization request, carrying the font's
    /// full path, the raster atlas dimensions, the declared point size
    /// (as an IEEE 754 double bit pattern), and the typeset — the
    /// declared glyphs, or the default typeset (ASCII 0 through 126)
    /// when none are declared.
    pub fn ttf_load_request(&self, name: &str) -> (r: Result<Option<TTFLoadRequest>, Error>)
        ensures
            match r {
                Ok(opt) => self.spec_ttf_find(name@) matches Some(i) && (match opt {
                    None => self.spec_ttfs()[i].loaded is Some,
                    Some(req) => self.spec_ttfs()[i].loaded is None && req.path@
                        == spec_full_path(self.spec_base_path(), self.spec_ttfs()[i].cfg.path@)
                        && req.width == RASTER_ATLAS_WIDTH && req.height == RASTER_ATLAS_HEIGHT
                        && req.size_bits == self.spec_ttfs()[i].cfg.size_bits && req.typeset@ == spec_typeset(
                        self.spec_ttfs()[i].cfg,
                    ),
                }),
                Err(e) => self.spec_ttf_find(name@) is None && e.is_lookup() && e.subject()
                    == name@,
            },
    {
        match self.ttfs.find(name) {
            Some(i) => {
                let e = self.ttfs.at(i);
                if e.loaded.is_some() {
                    Ok(None)
                } else {
                    let path = join_path(self.base_path.as_str(), e.cfg.path.as_str());
                    let typeset: Vec<char> = match &e.cfg.glyphs {
                        Some(g) => string_chars(g.as_str()),
                        None => default_typeset(),
                    };
                    Ok(
                        Some(
                            TTFLoadRequest {
                                path,
                                width: RASTER_ATLAS_WIDTH,
                                height: RASTER_ATLAS_HEIGHT,
                                size_bits: e.cfg.size_bits,
                                typeset,
                            },
                        ),
                    )
                }
            },
            None => Err(Error::LookupError(String::from_str(name))),
        }
    }

    /// Caches a decoded image payload for entry `name`: a lookup error
    /// exactly when the name is absent (the database unchanged); kept
    /// unchanged when a payload is already cached, so each entry
    /// decodes at most once until unloaded.
    pub fn store_image(&mut self, name: &str, data: ImageLoadInfo) -> (r: Result<(), Error>)
        ensures
            match r {
                Err(e) => old(self).spec_image_find(name@) is None && e.is_lookup() && e.subject()
                    == name@ && *final(self) == *old(self),
                Ok(()) => old(self).spec_image_find(name@) matches Some(i) && ({
                    let pre = old(self).spec_images();
                    &&& (pre[i].loaded is Some ==> final(self).spec_images() == pre && spec_same_but_images(
                        *old(self),
                        *final(self),
                    ))
                    &&& (pre[i].loaded is None ==> final(self).spec_images() == pre.update(
                        i,
                        (ImageEntry { cfg: pre[i].cfg, loaded: Some(data) }),
                    ) && spec_same_but_images(*old(self), *final(self)))
                }),
            },
    {
        match self.images.find(name) {
            Some(i) => {
                self.images.store_at(i, data);
                Ok(())
            },
            None => Err(Error::LookupError(String::from_str(name))),
        }
    }

    /// Caches a decoded atlas payload for entry `name`; as for images.
    pub fn store_atlas(&mut self, name: &str, data: ImageLoadInfo) -> (r: Result<(), Error>)
        ensures
            match r {
                Err(e) => old(self).spec_atlas_find(name@) is None && e.is_lookup() && e.subject()
                    == name@ && *final(self) == *old(self),
                Ok(()) => old(self).spec_atlas_find(name@) matches Some(i) && ({
                    let pre = old(self).spec_atlases();
                    &&& (pre[i].loaded is Some ==> final(self).spec_atlases() == pre && spec_same_but_atlases(
                        *old(self),
                        *final(self),
                    ))
                    &&& (pre[i].loaded is None ==> final(self).spec_atlases() == pre.update(
                        i,
                        (AtlasEntry { cfg: pre[i].cfg, loaded: Some(data) }),
                    ) && spec_same_but_atlases(*old(self), *final(self)))
                }),
            },
    {
        match self.atlases.find(name) {
            Some(i) => {
                self.atlases.store_at(i, data);
                Ok(())
            },
            None => Err(Error::LookupError(String::from_str(name))),
        }
    }

    /// Caches a rasterized font for entry `name`; as for images.
    pub fn store_ttf(&mut self, name: &str, font: TTFont) -> (r: Result<(), Error>)
        ensures
            match r {
                Err(e) => old(self).spec_ttf_find(name@) is None && e.is_lookup() && e.subject()
                    == name@ && *final(self) == *old(self),
                Ok(()) => old(self).spec_ttf_find(name@) matches Some(i) && ({
                    let pre = old(self).spec_ttfs();
                    &&& (pre[i].loaded is Some ==> final(self).spec_ttfs() == pre && spec_same_but_ttfs(
                        *old(self),
                        *final(self),
                    ))
                    &&& (pre[i].loaded is None ==> final(self).spec_ttfs() == pre.update(
                        i,
                        (TTFEntry { cfg: pre[i].cfg, loaded: Some(font) }),
                    ) && spec_same_but_ttfs(*old(self), *final(self)))
                }),
            },
    {
        match self.ttfs.find(name) {
            Some(i) => {
                self.ttfs.store_at(i, font);
                Ok(())
            },
            None => Err(Error::LookupError(String::from_str(name))),
        }
    }

    /// Clears the cached payload of image `name`, so the next fetch
    /// decodes anew.  Unloading an entry that is not loaded, or a name
    /// that is absent, is a no-op, never an error.
    pub fn unload_image(&mut self, name: &str)
        ensures
            match old(self).spec_image_find(name@) {
                None => *final(self) == *old(self),
                Some(i) => final(self).spec_images() == old(self).spec_images().update(
                    i,
                    (ImageEntry { cfg: old(self).spec_images()[i].cfg, loaded: None }),
                ) && spec_same_but_images(*old(self), *final(self)),
            },
    {
        match self.images.find(name) {
            Some(i) => self.images.unload_at(i),
            None => {},
        }
    }

    /// Clears the cached payload of atlas `name`; as for images.
    pub fn unload_atlas(&mut self, name: &str)
        ensures
            match old(self).spec_atlas_find(name@) {
                None => *final(self) == *old(self),
                Some(i) => final(self).spec_atlases() == old(self).spec_atlases().update(
                    i,
                    (AtlasEntry { cfg: old(self).spec_atlases()[i].cfg, loaded: None }),
                ) && spec_same_but_atlases(*old(self), *final(self)),
            },
    {
        match self.atlases.find(name) {
            Some(i) => self.atlases.unload_at(i),
            None => {},
        }
    }

    /// Clears the cached font of entry `name`; as for images.
    pub fn unload_ttf(&mut self, name: &str)
        ensures
            match old(self).spec_ttf_find(name@) {
                None => *final(self) == *old(self),
                Some(i) => final(self).spec_ttfs() == old(self).spec_ttfs().update(
                    i,
                    (TTFEntry { cfg: old(self).spec_ttfs()[i].cfg, loaded: None }),
                ) && spec_same_but_ttfs(*old(self), *final(self)),
            },
    {
        match self.ttfs.find(name) {
            Some(i) => self.ttfs.unload_at(i),
            None => {},
        }
    }
}

/// `post` differs from `pre` at most in its image registry.
pub open spec fn spec_same_but_images(pre: Database, post: Database) -> bool {
    &&& post.spec_atlases() == pre.spec_atlases()
    &&& post.spec_ttfs() == pre.spec_ttfs()
    &&& post.spec_base_path() == pre.spec_base_path()
    &&& post.spec_particle_cfg() == pre.spec_particle_cfg()
}

/// `post` differs from `pre` at most in its atlas registry.
pub open spec fn spec_same_but_atlases(pre: Database, post: Database) -> bool {
    &&& post.spec_images() == pre.spec_images()
    &&& post.spec_ttfs() == pre.spec_ttfs()
    &&& post.spec_base_path() == pre.spec_base_path()
    &&& post.spec_particle_cfg() == pre.spec_particle_cfg()
}

/// `post` differs from `pre` at most in its font registry.
pub open spec fn spec_same_but_ttfs(pre: Database, post: Database) -> bool {
    &&& post.spec_images() == pre.spec_images()
    &&& post.spec_atlases() == pre.spec_atlases()
    &&& post.spec_base_path() == pre.spec_base_path()
    &&& post.spec_particle_cfg() == pre.spec_particle_cfg()
}

/// A name-preserving update leaves the addressed position of an image
/// registry unchanged: storing or unloading a payload never re-routes a
/// fetch.
pub proof fn lemma_image_find_stable(s: Seq<ImageEntry>, i: int, e: ImageEntry, name: Seq<char>)
    requires
        0 <= i < s.len(),
        e.cfg.name@ == s[i].cfg.name@,
    ensures
        images::spec_find_last(
            s.update(i, e).map(|k: int, t: ImageEntry| t.cfg.name@),
            name,
        ) == images::spec_find_last(s.map(|k: int, t: ImageEntry| t.cfg.name@), name),
{
    let n0 = s.map(|k: int, t: ImageEntry| t.cfg.name@);
    let n1 = s.update(i, e).map(|k: int, t: ImageEntry| t.cfg.name@);
    assert(n0 =~= n1);
}

/// As for fonts below: fetching an image twice without an intervening
/// unload decodes at most once, and unloading forces a fresh decode
/// with no stale data.  `db1` is `db0` after the decode result `data`
/// was stored for the unloaded entry addressed as `name` (what
/// `store_image` ensures); `db2` is `db1` after `unload_image(name)`.
pub proof fn lemma_image_cache_round_trip(
    db0: Database,
    db1: Database,
    db2: Database,
    name: Seq<char>,
    i: int,
    data: ImageLoadInfo,
)
    requires
        db0.spec_image_find(name) == Some(i),
        0 <= i < db0.spec_images().len(),
        db0.spec_images()[i].loaded is None,
        db1.spec_images() == db0.spec_images().update(
            i,
            (ImageEntry { cfg: db0.spec_images()[i].cfg, loaded: Some(data) }),
        ),
        db2.spec_images() == db1.spec_images().update(
            i,
            (ImageEntry { cfg: db1.spec_images()[i].cfg, loaded: None }),
        ),
    ensures
        db1.spec_image_find(name) == Some(i),
        db1.spec_images()[i].loaded == Some(data),
        db1.spec_images()[i].cfg == db0.spec_images()[i].cfg,
        db2.spec_image_find(name) == Some(i),
        db2.spec_images()[i].loaded is None,
        db2.spec_images()[i].cfg == db0.spec_images()[i].cfg,
{
    lemma_image_find_stable(
        db0.spec_images(),
        i,
        (ImageEntry { cfg: db0.spec_images()[i].cfg, loaded: Some(data) }),
        name,
    );
    lemma_image_find_stable(
        db1.spec_images(),
        i,
        (ImageEntry { cfg: db1.spec_images()[i].cfg, loaded: None }),
        name,
    );
}

/// A name-preserving update leaves the addressed position of a font
/// registry unchanged: storing or unloading a payload never re-routes a
/// fetch.
pub proof fn lemma_ttf_find_stable(s: Seq<TTFEntry>, i: int, e: TTFEntry, name: Seq<char>)
    requires
        0 <= i < s.len(),
        e.cfg.name@ == s[i].cfg.name@,
    ensures
        images::spec_find_last(
            s.update(i, e).map(|k: int, t: TTFEntry| t.cfg.name@),
            name,
        ) == images::spec_find_last(s.map(|k: int, t: TTFEntry| t.cfg.name@), name),
{
    let n0 = s.map(|k: int, t: TTFEntry| t.cfg.name@);
    let n1 = s.update(i, e).map(|k: int, t: TTFEntry| t.cfg.name@);
    assert(n0 =~= n1);
}

/// Fetching twice without an intervening unload decodes at most once,
/// and unloading forces a fresh decode with no stale data.  `db0` holds
/// an unloaded font entry addressed as `name`; `db1` is `db0` after the
/// decode result `font` was stored (what `store_ttf` ensures); `db2` is
/// `db1` after `unload_ttf(name)`.  Then the second fetch on `db1`
/// finds the payload cached — it owes no decode and returns `font`
/// itself — and the fetch after the unload finds no payload, owing a
/// fresh decode for the unchanged configuration.
pub proof fn lemma_fetch_cache_round_trip(
    db0: Database,
    db1: Database,
    db2: Database,
    name: Seq<char>,
    i: int,
    font: TTFont,
)
    requires
        db0.spec_ttf_find(name) == Some(i),
        0 <= i < db0.spec_ttfs().len(),
        db0.spec_ttfs()[i].loaded is None,
        db1.spec_ttfs() == db0.spec_ttfs().update(
            i,
            (TTFEntry { cfg: db0.spec_ttfs()[i].cfg, loaded: Some(font) }),
        ),
        db2.spec_ttfs() == db1.spec_ttfs().update(
            i,
            (TTFEntry { cfg: db1.spec_ttfs()[i].cfg, loaded: None }),
        ),
    ensures
        db1.spec_ttf_find(name) == Some(i),
        db1.spec_ttfs()[i].loaded == Some(font),
        db1.spec_ttfs()[i].cfg == db0.spec_ttfs()[i].cfg,
        db2.spec_ttf_find(name) == Some(i),
        db2.spec_ttfs()[i].loaded is None,
        db2.spec_ttfs()[i].cfg == db0.spec_ttfs()[i].cfg,
{
    lemma_ttf_find_stable(
        db0.spec_ttfs(),
        i,
        (TTFEntry { cfg: db0.spec_ttfs()[i].cfg, loaded: Some(font) }),
        name,
    );
    lemma_ttf_find_stable(
        db1.spec_ttfs(),
        i,
        (TTFEntry { cfg: db1.spec_ttfs()[i].cfg, loaded: None }),
        name,
    );
}

} // verus!
