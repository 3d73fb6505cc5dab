//! Render-target composer.  A declarative attachment list plus a viewport
//! is turned into a `Canvas`: one ordered store of realized attachments
//! (each pairing its descriptor with the backend image and view created
//! for it), a render-pass handle, and name/index lookup derived from the
//! ordered store, so the positional and associative views can never
//! diverge.
//!
//! The GPU backend is an injected capability: `Canvas::image_requests`
//! says which images the composer needs, in declaration order (colors
//! first, then depth); the caller allocates them and hands the handles to
//! `Canvas::new`, which checks and assembles the result.

use vstd::prelude::*;
use vstd::string::StringExecFns;

use crate::error::Error;
use crate::jsonval;
use crate::schema;
use crate::strcmp::str_eq;

verus! {

/// Pixel format of an attachment image.
#[derive(PartialEq, Eq, Structural, Clone, Copy, Debug)]
pub enum Format {
    RGBA8,
    BGRA8,
    RGBA32F,
    D24S8,
}

/// Multisample count of an attachment image.
#[derive(PartialEq, Eq, Structural, Clone, Copy, Debug)]
pub enum SampleCount {
    S1,
    S2,
    S4,
    S8,
}

/// What happens to an attachment's contents when a render pass begins.
#[derive(PartialEq, Eq, Structural, Clone, Copy, Debug)]
pub enum LoadOp {
    Load,
    Clear,
    DontCare,
}

/// What happens to an attachment's contents when a render pass ends.
#[derive(PartialEq, Eq, Structural, Clone, Copy, Debug)]
pub enum StoreOp {
    Store,
    DontCare,
}

/// An axis-aligned pixel rectangle.
#[derive(PartialEq, Eq, Structural, Clone, Copy, Debug)]
pub struct Rect2D {
    pub x: u32,
    pub y: u32,
    pub w: u32,
    pub h: u32,
}

/// The render area shared by all attachments of a canvas.  The depth
/// bounds are IEEE 754 double bit patterns, carried as plain integers.
#[derive(PartialEq, Eq, Structural, Clone, Copy, Debug)]
pub struct Viewport {
    pub area: Rect2D,
    pub min_depth_bits: u64,
    pub max_depth_bits: u64,
}

/// Opaque reference to a backend image.  The underlying device memory is
/// owned by the GPU context the caller injects, never by this crate.
#[derive(PartialEq, Eq, Structural, Clone, Copy, Debug)]
pub struct ImageHandle {
    pub id: u64,
}

/// Opaque reference to a backend view of an image.
#[derive(PartialEq, Eq, Structural, Clone, Copy, Debug)]
pub struct ImageViewHandle {
    pub id: u64,
}

/// Opaque reference to a backend render pass.
#[derive(PartialEq, Eq, Structural, Clone, Copy, Debug)]
pub struct RenderPassHandle {
    pub id: u64,
}

/// Declarative description of one attachment, immutable once read from a
/// manifest.  The clear color holds four IEEE 754 double bit patterns.
#[derive(Debug)]
pub struct CanvasAttachment {
    pub name: String,
    pub format: Format,
    pub samples: SampleCount,
    pub load_op: LoadOp,
    pub store_op: StoreOp,
    pub stencil_load_op: LoadOp,
    pub stencil_store_op: StoreOp,
    pub clear_color: [u64; 4],
}

/// A realized attachment: the backend image and view created for a
/// descriptor, together with the descriptor itself.
#[derive(Debug)]
pub struct CanvasAttachmentDetail {
    pub img: ImageHandle,
    pub view: ImageViewHandle,
    pub info: CanvasAttachment,
}

/// A declarative canvas: named attachment list plus viewport.
#[derive(Debug)]
pub struct CanvasCreateInfo {
    pub name: String,
    pub viewport: Viewport,
    pub color_attachments: Vec<CanvasAttachment>,
    pub depth_stencil: Option<CanvasAttachment>,
}

/// One image the composer asks the backend for.
#[derive(Debug)]
pub struct ImageRequest {
    pub name: String,
    pub width: u32,
    pub height: u32,
    pub format: Format,
}

/// What the backend created for one image request.
#[derive(PartialEq, Eq, Structural, Clone, Copy, Debug)]
pub struct BackendAttachment {
    pub img: ImageHandle,
    pub view: ImageViewHandle,
}

impl CanvasCreateInfo {
    /// Every declared attachment, colors in declaration order, then the
    /// depth/stencil attachment if present.
    pub open spec fn spec_all_attachments(&self) -> Seq<CanvasAttachment> {
        match self.depth_stencil {
            Some(d) => self.color_attachments@ + seq![d],
            None => self.color_attachments@,
        }
    }

    /// A valid descriptor set declares each attachment name once.
    pub open spec fn names_unique(&self) -> bool {
        forall|i: int, j: int|
            0 <= i < j < self.spec_all_attachments().len() ==> (
            #[trigger] self.spec_all_attachments()[i]).name@ != (
            #[trigger] self.spec_all_attachments()[j]).name@
    }
}

/// `r` asks for the image that realizes descriptor `a` under viewport
/// `vp`: same name and format, sized to the viewport's pixel area.
pub open spec fn spec_request_for(r: ImageRequest, a: CanvasAttachment, vp: Viewport) -> bool {
    &&& r.name@ == a.name@
    &&& r.width == vp.area.w
    &&& r.height == vp.area.h
    &&& r.format == a.format
}

/// Some attachment in `s` bears `name`.
pub open spec fn spec_contains_name(s: Seq<CanvasAttachmentDetail>, name: Seq<char>) -> bool {
    exists|i: int| 0 <= i < s.len() && (#[trigger] s[i]).info.name@ == name
}

/// A composed render target: attachments, viewport and render pass.
pub struct Canvas {
    name: String,
    viewport: Viewport,
    colors: Vec<CanvasAttachmentDetail>,
    depth: Option<CanvasAttachmentDetail>,
    render_pass: RenderPassHandle,
}

impl Canvas {
    pub closed spec fn spec_name(&self) -> Seq<char> {
        self.name@
    }

    pub closed spec fn spec_viewport(&self) -> Viewport {
        self.viewport
    }

    pub closed spec fn spec_render_pass(&self) -> RenderPassHandle {
        self.render_pass
    }

    /// The realized color attachments, in declaration order.
    pub closed spec fn spec_colors(&self) -> Seq<CanvasAttachmentDetail> {
        self.colors@
    }

    /// The realized depth/stencil attachment, if one was declared.
    pub closed spec fn spec_depth(&self) -> Option<CanvasAttachmentDetail> {
        self.depth
    }

    /// Every realized attachment, colors first, then depth if present.
    pub open spec fn spec_attachments(&self) -> Seq<CanvasAttachmentDetail> {
        match self.spec_depth() {
            Some(d) => self.spec_colors() + seq![d],
            None => self.spec_colors(),
        }
    }

    /// Attachment names are unique within a canvas.
    pub open spec fn wf(&self) -> bool {
        forall|i: int, j: int|
            0 <= i < j < self.spec_attachments().len() ==> (
            #[trigger] self.spec_attachments()[i]).info.name@ != (
            #[trigger] self.spec_attachments()[j]).info.name@
    }

    /// The canvas was assembled from descriptor set `info`, the backend
    /// resources `res` (one per request of `image_requests`, in order)
    /// and the render pass `rp`.
    pub open spec fn composed_from(
        &self,
        info: CanvasCreateInfo,
        res: Seq<BackendAttachment>,
        rp: RenderPassHandle,
    ) -> bool {
        &&& self.spec_name() == info.name@
        &&& self.spec_viewport() == info.viewport
        &&& self.spec_render_pass() == rp
        &&& self.spec_colors().len() == info.color_attachments@.len()
        &&& res.len() == info.spec_all_attachments().len()
        &&& forall|i: int|
            0 <= i < info.color_attachments@.len() ==> (#[trigger] self.spec_colors()[i]).info
                == info.color_attachments@[i] && self.spec_colors()[i].img == res[i].img
                && self.spec_colors()[i].view == res[i].view
        &&& match info.depth_stencil {
            Some(d) => {
                &&& self.spec_depth() matches Some(dd)
                &&& dd.info == d
                &&& dd.img == res[info.color_attachments@.len() as int].img
                &&& dd.view == res[info.color_attachments@.len() as int].view
            },
            None => self.spec_depth() is None,
        }
    }

    pub fn viewport(&self) -> (r: Viewport)
        ensures
            r == self.spec_viewport(),
    {
        self.viewport
    }

    pub fn render_pass(&self) -> (r: RenderPassHandle)
        ensures
            r == self.spec_render_pass(),
    {
        self.render_pass
    }

    pub fn name(&self) -> (r: String)
        ensures
            r@ == self.spec_name(),
    {
        self.name.clone()
    }

    /// The number of color attachments.
    pub fn color_count(&self) -> (r: usize)
        ensures
            r == self.spec_colors().len(),
    {
        self.colors.len()
    }

    /// The realized depth/stencil attachment, if one was declared.
    pub fn depth_attachment(&self) -> (r: Option<&CanvasAttachmentDetail>)
        ensures
            match r {
                Some(d) => self.spec_depth() matches Some(dd) && dd == *d,
                None => self.spec_depth() is None,
            },
    {
        self.depth.as_ref()
    }

    /// The backend view of the `idx`-th color attachment, in declaration
    /// order; a lookup error when `idx` is out of range.
    pub fn color_attachment(&self, idx: u32) -> (r: Result<ImageViewHandle, Error>)
        ensures
            match r {
                Ok(v) => idx < self.spec_colors().len() && v == self.spec_colors()[idx as int].view,
                Err(e) => idx >= self.spec_colors().len() && e.is_lookup(),
            },
    {
        if (idx as usize) < self.colors.len() {
            Ok(self.colors[idx as usize].view)
        } else {
            Err(Error::LookupError(self.name.clone()))
        }
    }

    /// The realized attachment bearing `name`, color or depth; `None`
    /// when no declared attachment bears it (never a partial match or a
    /// default).
    pub fn color_attachment_by_name<'a>(&'a self, name: &str) -> (r: Option<
        &'a CanvasAttachmentDetail,
    >)
        ensures
            match r {
                Some(d) => exists|i: int|
                    0 <= i < self.spec_attachments().len() && #[trigger] self.spec_attachments()[i]
                        == *d && d.info.name@ == name@,
                None => !spec_contains_name(self.spec_attachments(), name@),
            },
    {
        let mut i: usize = 0;
        while i < self.colors.len()
            invariant
                i <= self.spec_colors().len(),
                forall|k: int|
                    0 <= k < i as int ==> (#[trigger] self.spec_colors()[k]).info.name@ != name@,
            decreases self.spec_colors().len() - i,
        {
            if str_eq(self.colors[i].info.name.as_str(), name) {
                let d = &self.colors[i];
                proof {
                    assert(self.spec_attachments()[i as int] == self.spec_colors()[i as int]);
                }
                return Some(d);
            }
            i += 1;
        }
        match &self.depth {
            Some(d) => {
                if str_eq(d.info.name.as_str(), name) {
                    proof {
                        let n = self.spec_colors().len() as int;
                        assert(self.spec_attachments()[n] == self.spec_depth().unwrap());
                    }
                    Some(d)
                } else {
                    proof {
                        assert forall|k: int|
                            0 <= k < self.spec_attachments().len() implies (
                        #[trigger] self.spec_attachments()[k]).info.name@ != name@ by {
                            if k < self.spec_colors().len() {
                                assert(self.spec_attachments()[k] == self.spec_colors()[k]);
                            } else {
                                assert(self.spec_attachments()[k] == self.spec_depth().unwrap());
                            }
                        }
                    }
                    None
                }
            },
            None => None,
        }
    }

    /// The backend images this descriptor set needs: one per declared
    /// attachment, colors in declaration order, then depth if present.
    /// Build order is significant: render-pass slot indices derive from
    /// it.
    pub fn image_requests(info: &CanvasCreateInfo) -> (r: Vec<ImageRequest>)
        ensures
            r@.len() == info.spec_all_attachments().len(),
            forall|i: int|
                0 <= i < r@.len() ==> spec_request_for(
                    #[trigger] r@[i],
                    info.spec_all_attachments()[i],
                    info.viewport,
                ),
    {
        let mut out: Vec<ImageRequest> = Vec::new();
        let mut i: usize = 0;
        while i < info.color_attachments.len()
            invariant
                i <= info.color_attachments@.len(),
                out@.len() == i,
                forall|k: int|
                    0 <= k < i as int ==> spec_request_for(
                        #[trigger] out@[k],
                        info.color_attachments@[k],
                        info.viewport,
                    ),
            decreases info.color_attachments@.len() - i,
        {
            let a = &info.color_attachments[i];
            out.push(
                ImageRequest {
                    name: a.name.clone(),
                    width: info.viewport.area.w,
                    height: info.viewport.area.h,
                    format: a.format,
                },
            );
            i += 1;
        }
        match &info.depth_stencil {
            Some(d) => {
                out.push(
                    ImageRequest {
                        name: d.name.clone(),
                        width: info.viewport.area.w,
                        height: info.viewport.area.h,
                        format: d.format,
                    },
                );
            },
            None => {},
        }
        proof {
            assert forall|i: int|
                0 <= i < out@.len() implies spec_request_for(
                #[trigger] out@[i],
                info.spec_all_attachments()[i],
                info.viewport,
            ) by {
                if i < info.color_attachments@.len() {
                    assert(info.spec_all_attachments()[i] == info.color_attachments@[i]);
                }
            }
        }
        out
    }

    /// Composes a canvas.  `resources[i]` must hold what the backend
    /// created for the `i`-th request of `image_requests(&info)`; a
    /// backend error reports a resource count that does not match the
    /// declared attachments, a parse error a duplicate attachment name.
    /// No partially-built canvas is ever returned.
    pub fn new(
        info: CanvasCreateInfo,
        resources: Vec<BackendAttachment>,
        render_pass: RenderPassHandle,
    ) -> (r: Result<Canvas, Error>)
        ensures
            match r {
                Ok(c) => {
                    &&& resources@.len() == info.spec_all_attachments().len()
                    &&& info.names_unique()
                    &&& c.composed_from(info, resources@, render_pass)
                    &&& c.wf()
                },
                Err(e) => {
                    if resources@.len() != info.spec_all_attachments().len() {
                        e.is_backend()
                    } else {
                        !info.names_unique() && e.is_parse()
                    }
                },
            },
    {
        let ghost ginfo = info;
        let n = info.color_attachments.len();
        let expected_ok: bool = match &info.depth_stencil {
            Some(_) => resources.len() >= 1 && resources.len() - 1 == n,
            None => resources.len() == n,
        };
        if !expected_ok {
            return Err(Error::BackendError(info.name));
        }
        if !names_unique_exec(&info) {
            return Err(Error::ParseError(info.name));
        }
        let CanvasCreateInfo { name, viewport, color_attachments, depth_stencil } = info;
        let ghost info_colors = color_attachments@;
        let mut remaining = color_attachments;
        let mut colors: Vec<CanvasAttachmentDetail> = Vec::new();
        let mut i: usize = 0;
        while i < n
            invariant
                n == info_colors.len(),
                i <= n,
                remaining@ =~= info_colors.skip(i as int),
                colors@.len() == i,
                n <= resources@.len(),
                forall|k: int|
                    0 <= k < i as int ==> (#[trigger] colors@[k]).info == info_colors[k]
                        && colors@[k].img == resources@[k].img && colors@[k].view
                        == resources@[k].view,
            decreases n - i,
        {
            proof {
                assert(remaining@[0] == info_colors[i as int]);
            }
            let a = remaining.remove(0);
            let res = resources[i];
            colors.push(CanvasAttachmentDetail { img: res.img, view: res.view, info: a });
            proof {
                assert(remaining@ =~= info_colors.skip(i as int + 1));
            }
            i += 1;
        }
        let depth: Option<CanvasAttachmentDetail> = match depth_stencil {
            Some(d) => {
                let res = resources[n];
                Some(CanvasAttachmentDetail { img: res.img, view: res.view, info: d })
            },
            None => None,
        };
        let c = Canvas { name, viewport, colors, depth, render_pass };
        proof {
            let all = ginfo.spec_all_attachments();
            let catt = c.spec_attachments();
            assert(c.composed_from(ginfo, resources@, render_pass));
            assert(catt.len() == all.len());
            assert forall|p: int| 0 <= p < catt.len() implies (#[trigger] catt[p]).info == all[p]
                by {
                if p < info_colors.len() {
                    assert(catt[p] == c.spec_colors()[p]);
                    assert(all[p] == info_colors[p]);
                } else {
                    assert(catt[p] == c.spec_depth().unwrap());
                }
            }
            assert forall|p: int, q: int| 0 <= p < q < catt.len() implies (
            #[trigger] catt[p]).info.name@ != (#[trigger] catt[q]).info.name@ by {
                assert(catt[p].info == all[p]);
                assert(catt[q].info == all[q]);
            }
        }
        Ok(c)
    }
}

/// Whether some attachment after position `i` bears the same name as the
/// attachment at `i`.
fn name_repeats_after(info: &CanvasCreateInfo, i: usize, total: usize) -> (r: bool)
    requires
        total == info.spec_all_attachments().len(),
        i < total,
    ensures
        r == exists|b: int|
            i < b < total as int && (#[trigger] info.spec_all_attachments()[b]).name@
                == info.spec_all_attachments()[i as int].name@,
{
    let mut j: usize = i + 1;
    while j < total
        invariant
            total == info.spec_all_attachments().len(),
            i < total,
            i < j,
            j <= total,
            forall|b: int|
                i < b < j as int ==> (#[trigger] info.spec_all_attachments()[b]).name@
                    != info.spec_all_attachments()[i as int].name@,
        decreases total - j,
    {
        if str_eq(attachment_name(info, i), attachment_name(info, j)) {
            return true;
        }
        j += 1;
    }
    false
}

/// Whether every declared attachment name of `info` occurs once.
fn names_unique_exec(info: &CanvasCreateInfo) -> (r: bool)
    requires
        info.spec_all_attachments().len() <= usize::MAX,
    ensures
        r == info.names_unique(),
{
    let total = attachment_count(info);
    let mut i: usize = 0;
    while i < total
        invariant
            total == info.spec_all_attachments().len(),
            i <= total,
            forall|a: int, b: int|
                0 <= a < b < total as int && a < i as int ==> (
                #[trigger] info.spec_all_attachments()[a]).name@ != (
                #[trigger] info.spec_all_attachments()[b]).name@,
        decreases total - i,
    {
        if name_repeats_after(info, i, total) {
            return false;
        }
        i += 1;
    }
    true
}

/// How many attachments `info` declares, colors and depth together.
fn attachment_count(info: &CanvasCreateInfo) -> (r: usize)
    requires
        info.spec_all_attachments().len() <= usize::MAX,
    ensures
        r == info.spec_all_attachments().len(),
{
    match &info.depth_stencil {
        Some(_) => info.color_attachments.len() + 1,
        None => info.color_attachments.len(),
    }
}

/// The name of the `i`-th declared attachment of `info`.
fn attachment_name<'a>(info: &'a CanvasCreateInfo, i: usize) -> (r: &'a str)
    requires
        i < info.spec_all_attachments().len(),
    ensures
        r@ == info.spec_all_attachments()[i as int].name@,
{
    if i < info.color_attachments.len() {
        info.color_attachments[i].name.as_str()
    } else {
        info.depth_stencil.as_ref().unwrap().name.as_str()
    }
}

/// Bit pattern of the IEEE 754 double 1.0, the default upper depth
/// bound of a viewport read from a manifest.
pub const DEPTH_ONE_BITS: u64 = 0x3FF0000000000000;

/// The pixel format named by `s` in a manifest, if any.
pub open spec fn spec_format_of(s: Seq<char>) -> Option<Format> {
    if s == "RGBA8"@ {
        Some(Format::RGBA8)
    } else if s == "BGRA8"@ {
        Some(Format::BGRA8)
    } else if s == "RGBA32F"@ {
        Some(Format::RGBA32F)
    } else if s == "D24S8"@ {
        Some(Format::D24S8)
    } else {
        None
    }
}

/// The sample count named by `n` in a manifest, if any.
pub open spec fn spec_samples_of(n: u64) -> Option<SampleCount> {
    if n == 1 {
        Some(SampleCount::S1)
    } else if n == 2 {
        Some(SampleCount::S2)
    } else if n == 4 {
        Some(SampleCount::S4)
    } else if n == 8 {
        Some(SampleCount::S8)
    } else {
        None
    }
}

/// The load operation named by `s` in a manifest, if any.
pub open spec fn spec_load_op_of(s: Seq<char>) -> Option<LoadOp> {
    if s == "Load"@ {
        Some(LoadOp::Load)
    } else if s == "Clear"@ {
        Some(LoadOp::Clear)
    } else if s == "DontCare"@ {
        Some(LoadOp::DontCare)
    } else {
        None
    }
}

/// The store operation named by `s` in a manifest, if any.
pub open spec fn spec_store_op_of(s: Seq<char>) -> Option<StoreOp> {
    if s == "Store"@ {
        Some(StoreOp::Store)
    } else if s == "DontCare"@ {
        Some(StoreOp::DontCare)
    } else {
        None
    }
}

/// The pixel format a manifest names `s`; a parse error for an unknown
/// name.
pub fn parse_format(s: &str) -> (r: Result<Format, Error>)
    ensures
        match r {
            Ok(f) => spec_format_of(s@) == Some(f),
            Err(e) => spec_format_of(s@) is None && e.is_parse(),
        },
{
    if str_eq(s, "RGBA8") {
        Ok(Format::RGBA8)
    } else if str_eq(s, "BGRA8") {
        Ok(Format::BGRA8)
    } else if str_eq(s, "RGBA32F") {
        Ok(Format::RGBA32F)
    } else if str_eq(s, "D24S8") {
        Ok(Format::D24S8)
    } else {
        Err(Error::ParseError(String::from_str(s)))
    }
}

/// The sample count a manifest names `n`; a parse error for an
/// unsupported count.
pub fn parse_samples(n: u64) -> (r: Result<SampleCount, Error>)
    ensures
        match r {
            Ok(c) => spec_samples_of(n) == Some(c),
            Err(e) => spec_samples_of(n) is None && e.is_parse(),
        },
{
    if n == 1 {
        Ok(SampleCount::S1)
    } else if n == 2 {
        Ok(SampleCount::S2)
    } else if n == 4 {
        Ok(SampleCount::S4)
    } else if n == 8 {
        Ok(SampleCount::S8)
    } else {
        Err(schema::field_error("samples"))
    }
}

/// The load operation a manifest names `s`; a parse error for an unknown
/// name.
pub fn parse_load_op(s: &str) -> (r: Result<LoadOp, Error>)
    ensures
        match r {
            Ok(op) => spec_load_op_of(s@) == Some(op),
            Err(e) => spec_load_op_of(s@) is None && e.is_parse(),
        },
{
    if str_eq(s, "Load") {
        Ok(LoadOp::Load)
    } else if str_eq(s, "Clear") {
        Ok(LoadOp::Clear)
    } else if str_eq(s, "DontCare") {
        Ok(LoadOp::DontCare)
    } else {
        Err(Error::ParseError(String::from_str(s)))
    }
}

/// The store operation a manifest names `s`; a parse error for an
/// unknown name.
pub fn parse_store_op(s: &str) -> (r: Result<StoreOp, Error>)
    ensures
        match r {
            Ok(op) => spec_store_op_of(s@) == Some(op),
            Err(e) => spec_store_op_of(s@) is None && e.is_parse(),
        },
{
    if str_eq(s, "Store") {
        Ok(StoreOp::Store)
    } else if str_eq(s, "DontCare") {
        Ok(StoreOp::DontCare)
    } else {
        Err(Error::ParseError(String::from_str(s)))
    }
}

/// The `{x, y, w, h}` rectangle a tree object holds, if each field is
/// a 32-bit integer.
pub open spec fn spec_rect_fields(v: serde_json::Value) -> Option<Rect2D> {
    match (
        schema::spec_u32_field(v, "x"@),
        schema::spec_u32_field(v, "y"@),
        schema::spec_u32_field(v, "w"@),
        schema::spec_u32_field(v, "h"@),
    ) {
        (Some(x), Some(y), Some(w), Some(h)) => Some(Rect2D { x, y, w, h }),
        _ => None,
    }
}

/// The viewport a tree object holds: a required `area` rectangle and
/// optional `min_depth` / `max_depth` bounds defaulting to 0 and 1.
pub open spec fn spec_viewport_of(v: serde_json::Value) -> Option<Viewport> {
    match jsonval::spec_value_get(v, "area"@) {
        Some(a) => match (
            spec_rect_fields(a),
            schema::spec_f64_field_or(v, "min_depth"@, 0),
            schema::spec_f64_field_or(v, "max_depth"@, DEPTH_ONE_BITS),
        ) {
            (Some(area), Some(min_depth_bits), Some(max_depth_bits)) => Some(
                Viewport { area, min_depth_bits, max_depth_bits },
            ),
            _ => None,
        },
        None => None,
    }
}

/// The `clear_color` of a tree object: an array of exactly four
/// numbers, as IEEE 754 double bit patterns.
pub open spec fn spec_clear_color_of(v: serde_json::Value) -> Option<[u64; 4]> {
    match jsonval::spec_value_get(v, "clear_color"@) {
        Some(c) => match jsonval::spec_value_array(c) {
            Some(a) => if a.len() == 4 {
                match (
                    jsonval::spec_value_f64_bits(a[0]),
                    jsonval::spec_value_f64_bits(a[1]),
                    jsonval::spec_value_f64_bits(a[2]),
                    jsonval::spec_value_f64_bits(a[3]),
                ) {
                    (Some(b0), Some(b1), Some(b2), Some(b3)) => Some([b0, b1, b2, b3]),
                    _ => None,
                }
            } else {
                None
            },
            None => None,
        },
        None => None,
    }
}

/// A tree object has the attachment shape: every field present, the
/// format, sample count and operations naming known values.
pub open spec fn spec_attachment_ok(v: serde_json::Value) -> bool {
    &&& schema::spec_str_field(v, "name"@) is Some
    &&& match schema::spec_str_field(v, "format"@) {
        Some(s) => spec_format_of(s) is Some,
        None => false,
    }
    &&& match schema::spec_u64_field(v, "samples"@) {
        Some(n) => spec_samples_of(n) is Some,
        None => false,
    }
    &&& match schema::spec_str_field(v, "load_op"@) {
        Some(s) => spec_load_op_of(s) is Some,
        None => false,
    }
    &&& match schema::spec_str_field(v, "store_op"@) {
        Some(s) => spec_store_op_of(s) is Some,
        None => false,
    }
    &&& match schema::spec_str_field(v, "stencil_load_op"@) {
        Some(s) => spec_load_op_of(s) is Some,
        None => false,
    }
    &&& match schema::spec_str_field(v, "stencil_store_op"@) {
        Some(s) => spec_store_op_of(s) is Some,
        None => false,
    }
    &&& spec_clear_color_of(v) is Some
}

/// `a` holds exactly the descriptor that tree object `v` declares.
pub open spec fn spec_attachment_matches(a: CanvasAttachment, v: serde_json::Value) -> bool {
    &&& spec_attachment_ok(v)
    &&& Some(a.name@) == schema::spec_str_field(v, "name"@)
    &&& Some(a.format) == spec_format_of(schema::spec_str_field(v, "format"@).unwrap())
    &&& Some(a.samples) == spec_samples_of(schema::spec_u64_field(v, "samples"@).unwrap())
    &&& Some(a.load_op) == spec_load_op_of(schema::spec_str_field(v, "load_op"@).unwrap())
    &&& Some(a.store_op) == spec_store_op_of(schema::spec_str_field(v, "store_op"@).unwrap())
    &&& Some(a.stencil_load_op) == spec_load_op_of(
        schema::spec_str_field(v, "stencil_load_op"@).unwrap(),
    )
    &&& Some(a.stencil_store_op) == spec_store_op_of(
        schema::spec_str_field(v, "stencil_store_op"@).unwrap(),
    )
    &&& Some(a.clear_color) == spec_clear_color_of(v)
}

/// The elements of the `color_attachments` list of a canvas manifest's
/// tree.
pub open spec fn spec_colors_list(root: serde_json::Value) -> Option<Seq<serde_json::Value>> {
    match jsonval::spec_value_get(root, "color_attachments"@) {
        Some(c) => jsonval::spec_value_array(c),
        None => None,
    }
}

/// Text is a well-formed canvas manifest: well-formed JSON declaring a
/// name, a viewport, a list of well-formed color attachments, and an
/// optional well-formed depth/stencil attachment.
pub open spec fn spec_canvas_manifest_ok(text: Seq<char>) -> bool {
    match jsonval::spec_parsed(text) {
        Some(root) => {
            &&& schema::spec_str_field(root, "name"@) is Some
            &&& match jsonval::spec_value_get(root, "viewport"@) {
                Some(vp) => spec_viewport_of(vp) is Some,
                None => false,
            }
            &&& match spec_colors_list(root) {
                Some(vs) => forall|i: int|
                    0 <= i < vs.len() ==> spec_attachment_ok(#[trigger] vs[i]),
                None => false,
            }
            &&& match jsonval::spec_value_get(root, "depth_stencil"@) {
                Some(d) => spec_attachment_ok(d),
                None => true,
            }
        },
        None => false,
    }
}

/// Reads an `{x, y, w, h}` pixel rectangle.
pub(crate) fn parse_rect(v: &serde_json::Value) -> (r: Result<Rect2D, Error>)
    ensures
        match r {
            Ok(rc) => spec_rect_fields(*v) == Some(rc),
            Err(e) => spec_rect_fields(*v) is None && e.is_parse(),
        },
{
    let x = schema::get_u32_field(v, "x")?;
    let y = schema::get_u32_field(v, "y")?;
    let w = schema::get_u32_field(v, "w")?;
    let h = schema::get_u32_field(v, "h")?;
    Ok(Rect2D { x, y, w, h })
}

/// Reads a viewport: a required `area` rectangle and optional
/// `min_depth` / `max_depth` bounds defaulting to 0 and 1.
fn parse_viewport(v: &serde_json::Value) -> (r: Result<Viewport, Error>)
    ensures
        match r {
            Ok(vp) => spec_viewport_of(*v) == Some(vp),
            Err(e) => spec_viewport_of(*v) is None && e.is_parse(),
        },
{
    let area = match jsonval::value_get(v, "area") {
        Some(a) => parse_rect(a)?,
        None => {
            return Err(schema::field_error("area"));
        },
    };
    let min_depth_bits = schema::get_float_bits_or(v, "min_depth", 0)?;
    let max_depth_bits = schema::get_float_bits_or(v, "max_depth", DEPTH_ONE_BITS)?;
    Ok(Viewport { area, min_depth_bits, max_depth_bits })
}

/// Reads a `clear_color` field: an array of exactly four numbers,
/// carried as IEEE 754 double bit patterns.
fn parse_clear_color(v: &serde_json::Value) -> (r: Result<[u64; 4], Error>)
    ensures
        match r {
            Ok(cc) => spec_clear_color_of(*v) == Some(cc),
            Err(e) => spec_clear_color_of(*v) is None && e.is_parse(),
        },
{
    let arr = match jsonval::value_get(v, "clear_color") {
        Some(c) => match jsonval::value_as_array(c) {
            Some(a) => a,
            None => {
                return Err(schema::field_error("clear_color"));
            },
        },
        None => {
            return Err(schema::field_error("clear_color"));
        },
    };
    if arr.len() != 4 {
        return Err(schema::field_error("clear_color"));
    }
    let b0 = clear_component(&arr[0])?;
    let b1 = clear_component(&arr[1])?;
    let b2 = clear_component(&arr[2])?;
    let b3 = clear_component(&arr[3])?;
    let cc: [u64; 4] = [b0, b1, b2, b3];
    proof {
        assert(spec_clear_color_of(*v) == Some(cc));
    }
    Ok(cc)
}

/// One clear-color component as a double bit pattern.
fn clear_component(v: &serde_json::Value) -> (r: Result<u64, Error>)
    ensures
        match r {
            Ok(b) => jsonval::spec_value_f64_bits(*v) == Some(b),
            Err(e) => jsonval::spec_value_f64_bits(*v) is None && e.is_parse(),
        },
{
    match jsonval::value_as_float_bits(v) {
        Some(b) => Ok(b),
        None => Err(schema::field_error("clear_color")),
    }
}

/// Reads one attachment descriptor: `{name, format, samples, load_op,
/// store_op, stencil_load_op, stencil_store_op, clear_color}`.
fn parse_attachment(v: &serde_json::Value) -> (r: Result<CanvasAttachment, Error>)
    ensures
        match r {
            Ok(a) => spec_attachment_matches(a, *v),
            Err(e) => !spec_attachment_ok(*v) && e.is_parse(),
        },
{
    let name = schema::get_string_field(v, "name")?;
    let format_name = schema::get_string_field(v, "format")?;
    let format = parse_format(format_name.as_str())?;
    let samples = parse_samples(schema::get_u64_field(v, "samples")?)?;
    let load_name = schema::get_string_field(v, "load_op")?;
    let load_op = parse_load_op(load_name.as_str())?;
    let store_name = schema::get_string_field(v, "store_op")?;
    let store_op = parse_store_op(store_name.as_str())?;
    let sl_name = schema::get_string_field(v, "stencil_load_op")?;
    let stencil_load_op = parse_load_op(sl_name.as_str())?;
    let ss_name = schema::get_string_field(v, "stencil_store_op")?;
    let stencil_store_op = parse_store_op(ss_name.as_str())?;
    let clear_color = parse_clear_color(v)?;
    Ok(
        CanvasAttachment {
            name,
            format,
            samples,
            load_op,
            store_op,
            stencil_load_op,
            stencil_store_op,
            clear_color,
        },
    )
}

impl CanvasCreateInfo {
    /// Reads a canvas manifest from JSON text: `{name, viewport,
    /// color_attachments, depth_stencil?}`.  Succeeds exactly on a
    /// well-formed canvas manifest, returning exactly the declared
    /// descriptors in declaration order; malformed text or a schema
    /// mismatch is a parse error naming the field that failed.  A
    /// descriptor set built this way composes identically to the same
    /// set supplied programmatically, since `Canvas::new` sees only the
    /// returned value.
    pub fn from_json_str(text: &str) -> (r: Result<CanvasCreateInfo, Error>)
        ensures
            r is Ok <==> spec_canvas_manifest_ok(text@),
            r matches Err(e) ==> e.is_parse(),
            r matches Ok(info) ==> ({
                let root = jsonval::spec_parsed(text@).unwrap();
                let vs = spec_colors_list(root).unwrap();
                &&& Some(info.name@) == schema::spec_str_field(root, "name"@)
                &&& Some(info.viewport) == spec_viewport_of(
                    jsonval::spec_value_get(root, "viewport"@).unwrap(),
                )
                &&& info.color_attachments@.len() == vs.len()
                &&& forall|i: int|
                    0 <= i < vs.len() ==> spec_attachment_matches(
                        info.color_attachments@[i],
                        #[trigger] vs[i],
                    )
                &&& match jsonval::spec_value_get(root, "depth_stencil"@) {
                    Some(d) => info.depth_stencil matches Some(a) && spec_attachment_matches(a, d),
                    None => info.depth_stencil is None,
                }
            }),
    {
        let root = match jsonval::parse_value(text) {
            Ok(v) => v,
            Err(m) => {
                return Err(Error::ParseError(m));
            },
        };
        let name = schema::get_string_field(&root, "name")?;
        let viewport = match jsonval::value_get(&root, "viewport") {
            Some(v) => parse_viewport(v)?,
            None => {
                return Err(schema::field_error("viewport"));
            },
        };
        let colors_val = match jsonval::value_get(&root, "color_attachments") {
            Some(c) => match jsonval::value_as_array(c) {
                Some(a) => a,
                None => {
                    return Err(schema::field_error("color_attachments"));
                },
            },
            None => {
                return Err(schema::field_error("color_attachments"));
            },
        };
        let mut color_attachments: Vec<CanvasAttachment> = Vec::new();
        let mut i: usize = 0;
        while i < colors_val.len()
            invariant
                jsonval::spec_parsed(text@) == Some(root),
                spec_colors_list(root) == Some(colors_val@),
                i <= colors_val@.len(),
                color_attachments@.len() == i as int,
                forall|k: int|
                    0 <= k < i as int ==> spec_attachment_matches(
                        #[trigger] color_attachments@[k],
                        colors_val@[k],
                    ),
            decreases colors_val@.len() - i,
        {
            color_attachments.push(parse_attachment(&colors_val[i])?);
            i += 1;
        }
        let depth_stencil = match jsonval::value_get(&root, "depth_stencil") {
            Some(d) => Some(parse_attachment(d)?),
            None => None,
        };
        proof {
            assert forall|k: int| 0 <= k < colors_val@.len() implies spec_attachment_ok(
                #[trigger] colors_val@[k],
            ) by {
                assert(spec_attachment_matches(color_attachments@[k], colors_val@[k]));
            }
        }
        Ok(CanvasCreateInfo { name, viewport, color_attachments, depth_stencil })
    }
}

/// For a valid descriptor set, composition realizes every declared
/// attachment under its declared name and position: the `i`-th declared
/// attachment stands at position `i` of the canvas's attachment store
/// with the backend view created for request `i`, no other position
/// bears its name, and for a color attachment the by-index accessor's
/// view is the one created for it.
pub proof fn lemma_compose_lookup(
    c: Canvas,
    info: CanvasCreateInfo,
    res: Seq<BackendAttachment>,
    rp: RenderPassHandle,
    i: int,
)
    requires
        c.composed_from(info, res, rp),
        info.names_unique(),
        0 <= i < info.spec_all_attachments().len(),
    ensures
        c.spec_attachments().len() == info.spec_all_attachments().len(),
        c.spec_attachments()[i].info == info.spec_all_attachments()[i],
        c.spec_attachments()[i].view == res[i].view,
        spec_contains_name(c.spec_attachments(), info.spec_all_attachments()[i].name@),
        forall|j: int|
            0 <= j < c.spec_attachments().len() && (#[trigger] c.spec_attachments()[j]).info.name@
                == info.spec_all_attachments()[i].name@ ==> j == i,
        i < info.color_attachments@.len() ==> c.spec_colors()[i].view == res[i].view,
{
    let all = info.spec_all_attachments();
    let catt = c.spec_attachments();
    let n = info.color_attachments@.len() as int;
    assert forall|j: int| 0 <= j < catt.len() implies (#[trigger] catt[j]).info == all[j] && catt[j].view
        == res[j].view by {
        if j < n {
            assert(catt[j] == c.spec_colors()[j]);
            assert(all[j] == info.color_attachments@[j]);
        } else {
            assert(info.depth_stencil is Some);
            assert(catt[j] == c.spec_depth().unwrap());
            assert(all[j] == info.depth_stencil.unwrap());
        }
    }
    assert(catt[i].info.name@ == all[i].name@);
    assert(spec_contains_name(catt, all[i].name@));
    assert forall|j: int|
        0 <= j < catt.len() && (#[trigger] catt[j]).info.name@ == all[i].name@ implies j == i by {
        assert(catt[j].info == all[j]);
    }
}

} // verus!
