//! Rasterized-font payloads and typesets.  The rasterizer itself is an
//! external capability: the database computes which characters to
//! rasterize (the typeset) and caches what the rasterizer hands back.

use vstd::prelude::*;

use crate::database::json::TTFJSONEntry;

verus! {

/// The number of characters in the default typeset: the ASCII range 0
/// through 126 inclusive.
pub const DEFAULT_TYPESET_LEN: u8 = 127;

/// The width, in pixels, of the atlas a font is rasterized into.
pub const RASTER_ATLAS_WIDTH: u32 = 1280;

/// The height, in pixels, of the atlas a font is rasterized into.
pub const RASTER_ATLAS_HEIGHT: u32 = 1024;

/// A rasterized font, as the external rasterizer hands it back: a pixel
/// atlas and the typeset it was rasterized with.
#[derive(Debug)]
pub struct TTFont {
    pub width: u32,
    pub height: u32,
    pub pixels: Vec<u8>,
    pub typeset: Vec<char>,
}

/// The default typeset: the ASCII characters 0 through 126 inclusive.
pub open spec fn spec_default_typeset() -> Seq<char> {
    Seq::new(DEFAULT_TYPESET_LEN as nat, |i: int| (i as u8) as char)
}

/// The typeset a font entry rasterizes with: its declared glyphs, or
/// the default typeset when it declares none.
pub open spec fn spec_typeset(cfg: TTFJSONEntry) -> Seq<char> {
    match cfg.glyphs {
        Some(g) => g@,
        None => spec_default_typeset(),
    }
}

/// The default typeset as a character list.
pub fn default_typeset() -> (r: Vec<char>)
    ensures
        r@ == spec_default_typeset(),
{
    let mut out: Vec<char> = Vec::new();
    let mut i: u8 = 0;
    while i < DEFAULT_TYPESET_LEN
        invariant
            i <= DEFAULT_TYPESET_LEN,
            out@.len() == i as int,
            forall|k: int| 0 <= k < i as int ==> out@[k] == ((k as u8) as char),
        decreases DEFAULT_TYPESET_LEN - i,
    {
        out.push(i as char);
        i += 1;
    }
    proof {
        assert(out@ =~= spec_default_typeset());
    }
    out
}

/// The characters of a string, in order.
pub fn string_chars(s: &str) -> (r: Vec<char>)
    ensures
        r@ == s@,
{
    let n = s.unicode_len();
    let mut out: Vec<char> = Vec::new();
    let mut i: usize = 0;
    while i < n
        invariant
            n == s@.len(),
            i <= n,
            out@.len() == i as int,
            forall|k: int| 0 <= k < i as int ==> out@[k] == s@[k],
        decreases n - i,
    {
        out.push(s.get_char(i));
        i += 1;
    }
    proof {
        assert(out@ =~= s@);
    }
    out
}

/// A font entry with no declared glyph set rasterizes with the default
/// typeset: exactly the ASCII characters 0 through 126 inclusive.
pub proof fn lemma_default_typeset(cfg: TTFJSONEntry)
    requires
        cfg.glyphs is None,
    ensures
        spec_typeset(cfg) == spec_default_typeset(),
        spec_typeset(cfg).len() == 127,
        forall|i: int| 0 <= i < 127 ==> spec_typeset(cfg)[i] == ((i as u8) as char),
{
}

} // verus!
