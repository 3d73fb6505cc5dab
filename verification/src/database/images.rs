//! Asset entries and category registries.  An entry pairs its immutable
//! manifest configuration with an optionally-present payload; absence
//! means "not yet materialized", never a silent failure.  A registry is
//! one ordered store of entries; the name index is derived from it, with
//! later manifest items shadowing earlier ones of the same name, as in a
//! map built by insertion.

use vstd::prelude::*;

use crate::database::font::TTFont;
use crate::database::geometry::Model;
use crate::database::json::{AtlasJSONEntry, ImageJSON, ImageJSONEntry, TTFJSONEntry};
use crate::database::json::{AtlasJSON, TTFJSON};
use crate::database::json::GeometryJSONEntry;
use crate::strcmp::str_eq;

verus! {

/// A decoded image payload, as the external decoder hands it back:
/// RGBA8 pixels and their dimensions.
#[derive(Debug, PartialEq)]
pub struct ImageLoadInfo {
    pub width: u32,
    pub height: u32,
    pub data: Vec<u8>,
}

/// A named image entry: configuration plus the lazily-decoded payload.
#[derive(Debug)]
pub struct ImageEntry {
    pub cfg: ImageJSONEntry,
    pub loaded: Option<ImageLoadInfo>,
}

impl ImageEntry {
    /// Stores a decoded payload in the cache.
    pub fn load(&mut self, data: ImageLoadInfo)
        ensures
            final(self).cfg == old(self).cfg,
            final(self).loaded == Some(data),
    {
        self.loaded = Some(data);
    }

    /// Clears the cached payload; the next fetch must decode anew.
    pub fn unload(&mut self)
        ensures
            final(self).cfg == old(self).cfg,
            final(self).loaded is None,
    {
        self.loaded = None;
    }
}

/// A named atlas entry: configuration plus the lazily-decoded payload.
#[derive(Debug)]
pub struct AtlasEntry {
    pub cfg: AtlasJSONEntry,
    pub loaded: Option<ImageLoadInfo>,
}

impl AtlasEntry {
    /// Stores a decoded payload in the cache.
    pub fn load(&mut self, data: ImageLoadInfo)
        ensures
            final(self).cfg == old(self).cfg,
            final(self).loaded == Some(data),
    {
        self.loaded = Some(data);
    }

    /// Clears the cached payload; the next fetch must decode anew.
    pub fn unload(&mut self)
        ensures
            final(self).cfg == old(self).cfg,
            final(self).loaded is None,
    {
        self.loaded = None;
    }
}

/// A named geometry entry: configuration plus the lazily-imported
/// model.  The geometry category is not wired into the database (a
/// known gap); the entry type and its lifecycle stand on their own.
#[derive(Debug)]
pub struct GeometryEntry {
    pub cfg: GeometryJSONEntry,
    pub loaded: Option<Model>,
}

impl GeometryEntry {
    /// Stores an imported model, keeping an already-cached one: the
    /// payload is materialized at most once until unloaded.
    pub fn load(&mut self, model: Model)
        ensures
            old(self).loaded is Some ==> *final(self) == *old(self),
            old(self).loaded is None ==> final(self).cfg == old(self).cfg && final(self).loaded
                == Some(model),
    {
        if self.loaded.is_none() {
            self.loaded = Some(model);
        }
    }

    /// Clears the cached model; the next fetch must import anew.
    pub fn unload(&mut self)
        ensures
            final(self).cfg == old(self).cfg,
            final(self).loaded is None,
    {
        self.loaded = None;
    }
}

/// A named font entry: configuration plus the lazily-rasterized font.
#[derive(Debug)]
pub struct TTFEntry {
    pub cfg: TTFJSONEntry,
    pub loaded: Option<TTFont>,
}

impl TTFEntry {
    /// Stores a rasterized font in the cache.
    pub fn load(&mut self, font: TTFont)
        ensures
            final(self).cfg == old(self).cfg,
            final(self).loaded == Some(font),
    {
        self.loaded = Some(font);
    }

    /// Clears the cached font; the next fetch must rasterize anew.
    pub fn unload(&mut self)
        ensures
            final(self).cfg == old(self).cfg,
            final(self).loaded is None,
    {
        self.loaded = None;
    }
}

/// The position `fetch` addresses under `name`: the last position whose
/// name equals it, if any.
pub open spec fn spec_find_last(names: Seq<Seq<char>>, name: Seq<char>) -> Option<int>
    decreases names.len(),
{
    if names.len() == 0 {
        None
    } else if names.last() == name {
        Some(names.len() - 1)
    } else {
        spec_find_last(names.drop_last(), name)
    }
}

/// What `spec_find_last` returns: the unique last match, or nothing
/// when no position matches.
pub proof fn lemma_find_last_props(names: Seq<Seq<char>>, name: Seq<char>)
    ensures
        match spec_find_last(names, name) {
            Some(i) => 0 <= i < names.len() && names[i] == name && (forall|j: int|
                i < j < names.len() ==> names[j] != name),
            None => forall|j: int| 0 <= j < names.len() ==> names[j] != name,
        },
    decreases names.len(),
{
    if names.len() > 0 && names.last() != name {
        lemma_find_last_props(names.drop_last(), name);
        assert forall|j: int| 0 <= j < names.len() - 1 implies names.drop_last()[j] == names[j] by {}
    }
}

/// The registry of image entries.
#[derive(Debug)]
pub struct ImageRegistry {
    items: Vec<ImageEntry>,
}

impl View for ImageRegistry {
    type V = Seq<ImageEntry>;

    closed spec fn view(&self) -> Seq<ImageEntry> {
        self.items@
    }
}

impl ImageRegistry {
    /// The declared names, in manifest order.
    pub open spec fn spec_names(&self) -> Seq<Seq<char>> {
        self@.map(|i: int, e: ImageEntry| e.cfg.name@)
    }

    /// The position `fetch` addresses under `name`.
    pub open spec fn spec_find(&self, name: Seq<char>) -> Option<int> {
        spec_find_last(self.spec_names(), name)
    }

    /// An empty registry, for a category the root manifest omits.
    pub fn empty() -> (r: ImageRegistry)
        ensures
            r@ == Seq::<ImageEntry>::empty(),
    {
        ImageRegistry { items: Vec::new() }
    }

    pub fn len(&self) -> (r: usize)
        ensures
            r == self@.len(),
    {
        self.items.len()
    }

    /// The entry at position `i`.
    pub fn at(&self, i: usize) -> (r: &ImageEntry)
        requires
            i < self@.len(),
        ensures
            *r == self@[i as int],
    {
        &self.items[i]
    }

    /// The position of the entry addressed as `name`, if any.
    pub fn find(&self, name: &str) -> (r: Option<usize>)
        ensures
            match r {
                Some(i) => i < self@.len() && self.spec_find(name@) == Some(i as int),
                None => self.spec_find(name@) is None,
            },
    {
        let mut i: usize = self.items.len();
        while i > 0
            invariant
                i <= self@.len(),
                forall|j: int| i as int <= j < self@.len() ==> self.spec_names()[j] != name@,
            decreases i,
        {
            i = i - 1;
            proof {
                assert(self.spec_names()[i as int] == self@[i as int].cfg.name@);
            }
            if str_eq(self.items[i].cfg.name.as_str(), name) {
                proof {
                    lemma_find_last_props(self.spec_names(), name@);
                }
                return Some(i);
            }
        }
        proof {
            lemma_find_last_props(self.spec_names(), name@);
        }
        None
    }

    /// Stores a decoded payload for the entry at `i`, keeping an
    /// already-cached one: at most one decode per entry until unloaded.
    pub fn store_at(&mut self, i: usize, data: ImageLoadInfo)
        requires
            i < old(self)@.len(),
        ensures
            old(self)@[i as int].loaded is Some ==> final(self)@ == old(self)@,
            old(self)@[i as int].loaded is None ==> final(self)@ == old(self)@.update(
                i as int,
                (ImageEntry { cfg: old(self)@[i as int].cfg, loaded: Some(data) }),
            ),
    {
        let e = &mut self.items[i];
        if e.loaded.is_none() {
            e.load(data);
        } else {
            proof {
                assert(final(self)@ =~= old(self)@);
            }
        }
    }

    /// Clears the payload of the entry at `i`.
    pub fn unload_at(&mut self, i: usize)
        requires
            i < old(self)@.len(),
        ensures
            final(self)@ == old(self)@.update(
                i as int,
                (ImageEntry { cfg: old(self)@[i as int].cfg, loaded: None }),
            ),
    {
        let e = &mut self.items[i];
        e.unload();
    }
}

/// The registry of atlas entries.
#[derive(Debug)]
pub struct AtlasRegistry {
    items: Vec<AtlasEntry>,
}

impl View for AtlasRegistry {
    type V = Seq<AtlasEntry>;

    closed spec fn view(&self) -> Seq<AtlasEntry> {
        self.items@
    }
}

impl AtlasRegistry {
    /// The declared names, in manifest order.
    pub open spec fn spec_names(&self) -> Seq<Seq<char>> {
        self@.map(|i: int, e: AtlasEntry| e.cfg.name@)
    }

    /// The position `fetch` addresses under `name`.
    pub open spec fn spec_find(&self, name: Seq<char>) -> Option<int> {
        spec_find_last(self.spec_names(), name)
    }

    /// An empty registry, for a category the root manifest omits.
    pub fn empty() -> (r: AtlasRegistry)
        ensures
            r@ == Seq::<AtlasEntry>::empty(),
    {
        AtlasRegistry { items: Vec::new() }
    }

    pub fn len(&self) -> (r: usize)
        ensures
            r == self@.len(),
    {
        self.items.len()
    }

    /// The entry at position `i`.
    pub fn at(&self, i: usize) -> (r: &AtlasEntry)
        requires
            i < self@.len(),
        ensures
            *r == self@[i as int],
    {
        &self.items[i]
    }

    /// The position of the entry addressed as `name`, if any.
    pub fn find(&self, name: &str) -> (r: Option<usize>)
        ensures
            match r {
                Some(i) => i < self@.len() && self.spec_find(name@) == Some(i as int),
                None => self.spec_find(name@) is None,
            },
    {
        let mut i: usize = self.items.len();
        while i > 0
            invariant
                i <= self@.len(),
                forall|j: int| i as int <= j < self@.len() ==> self.spec_names()[j] != name@,
            decreases i,
        {
            i = i - 1;
            proof {
                assert(self.spec_names()[i as int] == self@[i as int].cfg.name@);
            }
            if str_eq(self.items[i].cfg.name.as_str(), name) {
                proof {
                    lemma_find_last_props(self.spec_names(), name@);
                }
                return Some(i);
            }
        }
        proof {
            lemma_find_last_props(self.spec_names(), name@);
        }
        None
    }

    /// Stores a decoded payload for the entry at `i`, keeping an
    /// already-cached one: at most one decode per entry until unloaded.
    pub fn store_at(&mut self, i: usize, data: ImageLoadInfo)
        requires
            i < old(self)@.len(),
        ensures
            old(self)@[i as int].loaded is Some ==> final(self)@ == old(self)@,
            old(self)@[i as int].loaded is None ==> final(self)@ == old(self)@.update(
                i as int,
                (AtlasEntry { cfg: old(self)@[i as int].cfg, loaded: Some(data) }),
            ),
    {
        let e = &mut self.items[i];
        if e.loaded.is_none() {
            e.load(data);
        } else {
            proof {
                assert(final(self)@ =~= old(self)@);
            }
        }
    }

    /// Clears the payload of the entry at `i`.
    pub fn unload_at(&mut self, i: usize)
        requires
            i < old(self)@.len(),
        ensures
            final(self)@ == old(self)@.update(
                i as int,
                (AtlasEntry { cfg: old(self)@[i as int].cfg, loaded: None }),
            ),
    {
        let e = &mut self.items[i];
        e.unload();
    }
}

/// The registry of font entries.
#[derive(Debug)]
pub struct TTFRegistry {
    items: Vec<TTFEntry>,
}

impl View for TTFRegistry {
    type V = Seq<TTFEntry>;

    closed spec fn view(&self) -> Seq<TTFEntry> {
        self.items@
    }
}

impl TTFRegistry {
    /// The declared names, in manifest order.
    pub open spec fn spec_names(&self) -> Seq<Seq<char>> {
        self@.map(|i: int, e: TTFEntry| e.cfg.name@)
    }

    /// The position `fetch` addresses under `name`.
    pub open spec fn spec_find(&self, name: Seq<char>) -> Option<int> {
        spec_find_last(self.spec_names(), name)
    }

    /// An empty registry, for a category the root manifest omits.
    pub fn empty() -> (r: TTFRegistry)
        ensures
            r@ == Seq::<TTFEntry>::empty(),
    {
        TTFRegistry { items: Vec::new() }
    }

    pub fn len(&self) -> (r: usize)
        ensures
            r == self@.len(),
    {
        self.items.len()
    }

    /// The entry at position `i`.
    pub fn at(&self, i: usize) -> (r: &TTFEntry)
        requires
            i < self@.len(),
        ensures
            *r == self@[i as int],
    {
        &self.items[i]
    }

    /// The position of the entry addressed as `name`, if any.
    pub fn find(&self, name: &str) -> (r: Option<usize>)
        ensures
            match r {
                Some(i) => i < self@.len() && self.spec_find(name@) == Some(i as int),
                None => self.spec_find(name@) is None,
            },
    {
        let mut i: usize = self.items.len();
        while i > 0
            invariant
                i <= self@.len(),
                forall|j: int| i as int <= j < self@.len() ==> self.spec_names()[j] != name@,
            decreases i,
        {
            i = i - 1;
            proof {
                assert(self.spec_names()[i as int] == self@[i as int].cfg.name@);
            }
            if str_eq(self.items[i].cfg.name.as_str(), name) {
                proof {
                    lemma_find_last_props(self.spec_names(), name@);
                }
                return Some(i);
            }
        }
        proof {
            lemma_find_last_props(self.spec_names(), name@);
        }
        None
    }

    /// Stores a rasterized font for the entry at `i`, keeping an
    /// already-cached one: at most one rasterization per entry until
    /// unloaded.
    pub fn store_at(&mut self, i: usize, font: TTFont)
        requires
            i < old(self)@.len(),
        ensures
            old(self)@[i as int].loaded is Some ==> final(self)@ == old(self)@,
            old(self)@[i as int].loaded is None ==> final(self)@ == old(self)@.update(
                i as int,
                (TTFEntry { cfg: old(self)@[i as int].cfg, loaded: Some(font) }),
            ),
    {
        let e = &mut self.items[i];
        if e.loaded.is_none() {
            e.load(font);
        } else {
            proof {
                assert(final(self)@ =~= old(self)@);
            }
        }
    }

    /// Clears the payload of the entry at `i`.
    pub fn unload_at(&mut self, i: usize)
        requires
            i < old(self)@.len(),
        ensures
            final(self)@ == old(self)@.update(
                i as int,
                (TTFEntry { cfg: old(self)@[i as int].cfg, loaded: None }),
            ),
    {
        let e = &mut self.items[i];
        e.unload();
    }
}

/// The image registry a parsed sub-manifest describes: one unloaded
/// entry per manifest item, in manifest order.
pub open spec fn spec_parse_images(s: Seq<ImageJSONEntry>) -> Seq<ImageEntry> {
    s.map(|i: int, c: ImageJSONEntry| ImageEntry { cfg: c, loaded: None })
}

/// Builds the image registry from a parsed sub-manifest.
pub fn parse_images(info: ImageJSON) -> (r: ImageRegistry)
    ensures
        r@ == spec_parse_images(info.images@),
{
    let ghost orig = info.images@;
    let mut src = info.images;
    let mut items: Vec<ImageEntry> = Vec::new();
    let n = src.len();
    let mut i: usize = 0;
    while i < n
        invariant
            n == orig.len(),
            i <= n,
            src@ =~= orig.skip(i as int),
            items@.len() == i,
            forall|k: int|
                0 <= k < i as int ==> (#[trigger] items@[k]).cfg == orig[k] && items@[k].loaded
                    is None,
        decreases n - i,
    {
        proof {
            assert(src@[0] == orig[i as int]);
        }
        let c = src.remove(0);
        items.push(ImageEntry { cfg: c, loaded: None });
        proof {
            assert(src@ =~= orig.skip(i as int + 1));
        }
        i += 1;
    }
    proof {
        assert(items@ =~= spec_parse_images(orig));
    }
    ImageRegistry { items }
}

/// The atlas registry a parsed sub-manifest describes.
pub open spec fn spec_parse_atlasses(s: Seq<AtlasJSONEntry>) -> Seq<AtlasEntry> {
    s.map(|i: int, c: AtlasJSONEntry| AtlasEntry { cfg: c, loaded: None })
}

/// Builds the atlas registry from a parsed sub-manifest.
pub fn parse_atlasses(info: AtlasJSON) -> (r: AtlasRegistry)
    ensures
        r@ == spec_parse_atlasses(info.atlases@),
{
    let ghost orig = info.atlases@;
    let mut src = info.atlases;
    let mut items: Vec<AtlasEntry> = Vec::new();
    let n = src.len();
    let mut i: usize = 0;
    while i < n
        invariant
            n == orig.len(),
            i <= n,
            src@ =~= orig.skip(i as int),
            items@.len() == i,
            forall|k: int|
                0 <= k < i as int ==> (#[trigger] items@[k]).cfg == orig[k] && items@[k].loaded
                    is None,
        decreases n - i,
    {
        proof {
            assert(src@[0] == orig[i as int]);
        }
        let c = src.remove(0);
        items.push(AtlasEntry { cfg: c, loaded: None });
        proof {
            assert(src@ =~= orig.skip(i as int + 1));
        }
        i += 1;
    }
    proof {
        assert(items@ =~= spec_parse_atlasses(orig));
    }
    AtlasRegistry { items }
}

/// The font registry a parsed sub-manifest describes.
pub open spec fn spec_parse_ttfs(s: Seq<TTFJSONEntry>) -> Seq<TTFEntry> {
    s.map(|i: int, c: TTFJSONEntry| TTFEntry { cfg: c, loaded: None })
}

/// Builds the font registry from a parsed sub-manifest.
pub fn parse_ttfs(info: TTFJSON) -> (r: TTFRegistry)
    ensures
        r@ == spec_parse_ttfs(info.fonts@),
{
    let ghost orig = info.fonts@;
    let mut src = info.fonts;
    let mut items: Vec<TTFEntry> = Vec::new();
    let n = src.len();
    let mut i: usize = 0;
    while i < n
        invariant
            n == orig.len(),
            i <= n,
            src@ =~= orig.skip(i as int),
            items@.len() == i,
            forall|k: int|
                0 <= k < i as int ==> (#[trigger] items@[k]).cfg == orig[k] && items@[k].loaded
                    is None,
        decreases n - i,
    {
        proof {
            assert(src@[0] == orig[i as int]);
        }
        let c = src.remove(0);
        items.push(TTFEntry { cfg: c, loaded: None });
        proof {
            assert(src@ =~= orig.skip(i as int + 1));
        }
        i += 1;
    }
    proof {
        assert(items@ =~= spec_parse_ttfs(orig));
    }
    TTFRegistry { items }
}

} // verus!
