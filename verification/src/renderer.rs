//! The glyph sequence renderer: rasterizes each character of a text
//! independently, in input order, and accumulates one render result per
//! character.

use vstd::prelude::*;
use vstd::string::StrSliceExecFns;

use crate::canvas::BoundingBox;
use crate::canvas::CoverageCanvas;
use crate::canvas::GlyphRenderResult;
use crate::canvas::PixelFormat;
use crate::raster::RenderError;
use crate::raster::canvas_new_a8;
use crate::raster::canvas_take;
use crate::raster::glyph_for_char;
use crate::raster::load_font;
use crate::raster::raster_bounds_bilevel;
use crate::raster::rasterize_glyph_bilevel;
use crate::raster::select_font;
use crate::raster::spec_contains_nul;
use crate::raster::system_source_new;
use crate::raster::units_per_em;

verus! {

/// The point size every glyph is rasterized at.
pub const POINT_SIZE: u16 = 64;

/// True when the string holds a NUL character, which the font store's
/// C-string lookup cannot carry.
fn contains_nul(s: &str) -> (r: bool)
    ensures
        r == spec_contains_nul(s@),
{
    let char_count = s.unicode_len();
    let mut i: usize = 0;
    while i < char_count
        invariant
            char_count == s@.len(),
            i <= char_count,
            forall|j: int| 0 <= j < i ==> s@[j] != '\0',
        decreases char_count - i,
    {
        if s.get_char(i) == '\0' {
            proof {
                assert(s@[i as int] == '\0');
            }
            return true;
        }
        i = i + 1;
    }
    false
}

/// Accepts a bounding box exactly when it has the non-negative dimensions
/// that canvas allocation needs; the rasterizer's box is rejected otherwise.
pub fn validate_bounds(b: BoundingBox) -> (r: Result<(), RenderError>)
    ensures
        r is Ok <==> b.wf(),
        r is Err ==> r->Err_0 is BoundsComputationFailure,
{
    if b.width < 0 || b.height < 0 {
        Err(RenderError::BoundsComputationFailure)
    } else {
        Ok(())
    }
}

/// Accumulates the render results of a character sequence, one per character,
/// in the order the characters were supplied.
pub struct App {
    /// PostScript name of the font every glyph is rendered with.
    pub font_name: String,
    /// One entry per rendered character, in input order.
    pub chart_slice: Vec<GlyphRenderResult>,
}

impl App {
    /// Every accumulated render result pairs a canvas with the bounding box
    /// it was sized to.
    pub open spec fn wf(self) -> bool {
        forall|i: int|
            0 <= i < self.chart_slice@.len() ==> (#[trigger] self.chart_slice@[i]).wf()
    }

    /// A fresh renderer for the named font, with no results yet.
    pub fn new(font_name: String) -> (app: App)
        ensures
            app.font_name == font_name,
            app.chart_slice@.len() == 0,
            app.wf(),
    {
        App { font_name, chart_slice: Vec::new() }
    }

    /// Rasterizes one character: resolves the font by PostScript name, maps
    /// the character to its glyph, computes the glyph's pixel bounding box at
    /// `POINT_SIZE` with hinting off and bilevel rasterization, and paints
    /// coverage into a canvas sized to that box. The font store is consulted
    /// anew on every call; there is no cache and no fallback font. A name
    /// holding a NUL character matches no font, as the store cannot carry
    /// one; a face reporting zero units-per-em is refused as unloadable; a
    /// bounding box with a negative dimension is rejected by
    /// `validate_bounds`.
    pub fn render_char(font_name: &str, ch: char) -> (r: Result<GlyphRenderResult, RenderError>)
        ensures
            r is Ok ==> r->Ok_0.wf(),
            r is Ok ==> r->Ok_0.canvas.format is A8,
            r is Ok ==> r->Ok_0.canvas.stride == r->Ok_0.canvas.width,
            spec_contains_nul(font_name@) ==> r is Err && r->Err_0 is FontNotFound,
    {
        if contains_nul(font_name) {
            return Err(RenderError::FontNotFound);
        }
        let source = system_source_new();
        let handle = match select_font(&source, font_name) {
            Ok(handle) => handle,
            Err(e) => {
                return Err(e);
            },
        };
        let font = match load_font(&handle) {
            Ok(font) => font,
            Err(e) => {
                return Err(e);
            },
        };
        if units_per_em(&font) == 0 {
            return Err(RenderError::FontLoadFailure);
        }
        let glyph_id = match glyph_for_char(&font, ch) {
            Some(glyph_id) => glyph_id,
            None => {
                return Err(RenderError::GlyphNotMapped);
            },
        };
        let bounds = match raster_bounds_bilevel(&font, glyph_id, POINT_SIZE) {
            Ok(bounds) => bounds,
            Err(e) => {
                return Err(e);
            },
        };
        match validate_bounds(bounds) {
            Ok(()) => {},
            Err(e) => {
                return Err(e);
            },
        }
        let mut raw_canvas = canvas_new_a8(bounds.width, bounds.height);
        match rasterize_glyph_bilevel(
            &mut raw_canvas,
            &font,
            glyph_id,
            POINT_SIZE,
            bounds.origin_x,
            bounds.origin_y,
        ) {
            Ok(()) => {},
            Err(e) => {
                return Err(e);
            },
        }
        let (pixels, stride) = canvas_take(raw_canvas);
        let canvas = CoverageCanvas {
            pixels,
            stride,
            width: bounds.width as usize,
            height: bounds.height as usize,
            format: PixelFormat::A8,
        };
        Ok(GlyphRenderResult { bounds, canvas })
    }

    /// Rasterizes every character of `text` independently and in input
    /// order, and appends one render result per character. The whole batch
    /// fails on the first character that cannot be rendered: the accumulated
    /// results are then left exactly as they were.
    pub fn render_str(&mut self, text: &str) -> (r: Result<(), RenderError>)
        ensures
            final(self).font_name == old(self).font_name,
            r is Ok ==> final(self).chart_slice@.len() == old(self).chart_slice@.len()
                + text@.len(),
            r is Ok ==> forall|i: int|
                0 <= i < old(self).chart_slice@.len() ==> final(self).chart_slice@[i] == old(
                    self,
                ).chart_slice@[i],
            r is Ok ==> forall|i: int|
                old(self).chart_slice@.len() <= i < final(self).chart_slice@.len() ==> (
                #[trigger] final(self).chart_slice@[i]).wf(),
            r is Ok && old(self).wf() ==> final(self).wf(),
            r is Err ==> *final(self) == *old(self),
            text@.len() == 0 ==> r is Ok,
    {
        let mut rendered: Vec<GlyphRenderResult> = Vec::new();
        let char_count = text.unicode_len();
        let mut i: usize = 0;
        while i < char_count
            invariant
                char_count == text@.len(),
                i <= char_count,
                rendered@.len() == i,
                forall|j: int| 0 <= j < i ==> (#[trigger] rendered@[j]).wf(),
            decreases char_count - i,
        {
            let ch = text.get_char(i);
            match App::render_char(self.font_name.as_str(), ch) {
                Ok(result) => {
                    rendered.push(result);
                },
                Err(e) => {
                    return Err(e);
                },
            }
            i = i + 1;
        }
        self.chart_slice.append(&mut rendered);
        Ok(())
    }
}

} // verus!
