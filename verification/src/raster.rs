//! Trusted boundary to the font-kit rasterizer.
//!
//! Font lookup, font loading, glyph-id resolution, bounding-box computation
//! and coverage painting are done by font-kit. Each call stands behind one
//! wrapper whose contract states what the call's source shows; what a call
//! returns depends on the fonts installed on the host, so the contracts
//! promise nothing of the successful values beyond buffer bookkeeping.

use font_kit::canvas::Canvas;
use font_kit::canvas::Format;
use font_kit::canvas::RasterizationOptions;
use font_kit::error::GlyphLoadingError;
use font_kit::error::SelectionError;
use font_kit::font::Font;
use font_kit::handle::Handle;
use font_kit::hinting::HintingOptions;
use font_kit::source::SystemSource;
use pathfinder_geometry::transform2d::Transform2F;
use pathfinder_geometry::vector::Vector2I;
use vstd::prelude::*;

use crate::canvas::BoundingBox;

verus! {

/// Why a glyph could not be rendered. Every failure aborts the glyph; there
/// is no retry and no fallback font.
#[derive(Clone, Copy, PartialEq, Eq, Structural, Debug)]
pub enum RenderError {
    /// The named font is absent from the host system.
    FontNotFound,
    /// A font resource was found but could not be loaded or parsed.
    FontLoadFailure,
    /// The character has no glyph mapping in the selected font.
    GlyphNotMapped,
    /// The rasterizer could not compute bounds for, or paint, the glyph.
    BoundsComputationFailure,
}

#[verifier::external_type_specification]
#[verifier::external_body]
pub struct ExSystemSource(SystemSource);

#[verifier::external_type_specification]
#[verifier::external_body]
pub struct ExHandle(Handle);

#[verifier::external_type_specification]
#[verifier::external_body]
pub struct ExFont(Font);

#[verifier::external_type_specification]
#[verifier::external_body]
pub struct ExCanvas(Canvas);

/// The bytes a font-kit canvas holds, in row-major order.
pub uninterp spec fn canvas_pixels(c: Canvas) -> Seq<u8>;

/// The number of bytes between successive rows of a font-kit canvas.
pub uninterp spec fn canvas_stride(c: Canvas) -> nat;

/// Whether a font-kit canvas uses the one-alpha-byte-per-pixel format.
pub uninterp spec fn canvas_is_a8(c: Canvas) -> bool;

/// The design units per em square of a font face; zero marks a face that is
/// not scalable (a bitmap-only font).
pub uninterp spec fn font_units_per_em(f: Font) -> nat;

/// Whether a character sequence holds a NUL character, which the font
/// store's C-string API cannot carry.
pub open spec fn spec_contains_nul(s: Seq<char>) -> bool {
    exists|i: int| 0 <= i < s.len() && s[i] == '\0'
}

/// Relies on font_kit::source::SystemSource::new: opens the host's
/// installed-font database for queries.
#[verifier::external_body]
pub(crate) fn system_source_new() -> SystemSource {
    SystemSource::new()
}

/// Relies on font_kit::source::SystemSource::select_by_postscript_name: looks
/// a font up by exact PostScript name. Which handle comes back depends on the
/// host's installed fonts, so nothing is promised of the `Ok` case; a missing
/// font reports `NotFound` and an unreadable font store reports
/// `CannotAccessSource`, mapped here to the library's error taxonomy. The
/// lookup hands the name to the font store as a C string, which cannot hold a
/// NUL character, so such names are excluded; the call aborts only if the
/// host's store itself carries a font path that is not valid UTF-8, which no
/// condition on the arguments can exclude.
#[verifier::external_body]
pub(crate) fn select_font(source: &SystemSource, name: &str) -> (r: Result<Handle, RenderError>)
    requires
        !spec_contains_nul(name@),
    ensures
        r is Err ==> (r->Err_0 is FontNotFound || r->Err_0 is FontLoadFailure),
{
    match source.select_by_postscript_name(name) {
        Ok(handle) => Ok(handle),
        Err(SelectionError::NotFound) => Err(RenderError::FontNotFound),
        Err(SelectionError::CannotAccessSource { .. }) => Err(RenderError::FontLoadFailure),
    }
}

/// Relies on font_kit::handle::Handle::load: loads and parses the font
/// resource behind the handle; parse and read failures are reported as load
/// failures. One abort remains: after parsing, font-kit asserts that FreeType
/// accepts a character size of units-per-em, and a face made only of bitmap
/// strikes yet carrying a nonzero units-per-em (sbix color fonts) fails that
/// size request when no strike sits at that size, aborting rather than
/// erring. Font-kit exposes no scalability flag by which a condition on the
/// handle could exclude that class of faces.
#[verifier::external_body]
pub(crate) fn load_font(handle: &Handle) -> (r: Result<Font, RenderError>)
    ensures
        r is Err ==> r->Err_0 is FontLoadFailure,
{
    match handle.load() {
        Ok(font) => Ok(font),
        Err(_) => Err(RenderError::FontLoadFailure),
    }
}

/// Relies on font_kit::font::Font::glyph_for_char: maps a character to the
/// font's internal glyph identifier, or `None` when the font has no glyph
/// for it. The identifier depends on the font resource, so nothing is
/// promised of it.
#[verifier::external_body]
pub(crate) fn glyph_for_char(font: &Font, ch: char) -> Option<u32> {
    font.glyph_for_char(ch)
}

/// Relies on font_kit::font::Font::metrics: reads the face's units-per-em,
/// a fixed property of the loaded font resource. FreeType reports zero for
/// most bitmap-only faces, though a face made of bitmap strikes can still
/// carry a nonzero value from its header.
#[verifier::external_body]
pub(crate) fn units_per_em(font: &Font) -> (u: u32)
    ensures
        u as nat == font_units_per_em(*font),
{
    font.metrics().units_per_em
}

/// Relies on font_kit::font::Font::raster_bounds: computes the integer pixel
/// bounding box the glyph occupies at the given point size under the identity
/// transform, with hinting off and bilevel rasterization. The box depends on
/// the font resource, so only the error taxonomy is stated: the rasterizer
/// reports a missing glyph or a platform failure.
#[verifier::external_body]
pub(crate) fn raster_bounds_bilevel(font: &Font, glyph_id: u32, point_size: u16) -> (r: Result<
    BoundingBox,
    RenderError,
>)
    ensures
        r is Err ==> (r->Err_0 is GlyphNotMapped || r->Err_0 is BoundsComputationFailure),
{
    let identity = Transform2F::default();
    let opts = (HintingOptions::None, RasterizationOptions::Bilevel);
    match font.raster_bounds(glyph_id, point_size.into(), identity, opts.0, opts.1) {
        Ok(r) => Ok(BoundingBox {
            origin_x: r.origin_x(),
            origin_y: r.origin_y(),
            width: r.width(),
            height: r.height(),
        }),
        Err(GlyphLoadingError::NoSuchGlyph) => Err(RenderError::GlyphNotMapped),
        Err(GlyphLoadingError::PlatformError) => Err(RenderError::BoundsComputationFailure),
    }
}

/// Relies on font_kit::canvas::Canvas::new: allocates a zeroed alpha-format
/// canvas whose stride equals the pixel width (one byte per pixel) and whose
/// buffer holds exactly stride times height bytes.
#[verifier::external_body]
pub(crate) fn canvas_new_a8(width: i32, height: i32) -> (c: Canvas)
    requires
        0 <= width,
        0 <= height,
    ensures
        canvas_is_a8(c),
        canvas_stride(c) == width as nat,
        canvas_pixels(c).len() == (width as nat) * (height as nat),
        forall|i: int| 0 <= i < canvas_pixels(c).len() ==> canvas_pixels(c)[i] == 0,
{
    Canvas::new(Vector2I::new(width, height), Format::A8)
}

/// Relies on font_kit::font::Font::rasterize_glyph: paints the glyph's
/// coverage into the canvas at the given point size, with the outline
/// translated by the negated bounding-box origin, hinting off and bilevel
/// rasterization. Painting writes into the existing buffer only: the buffer
/// length and the stride are unchanged whatever the outcome. Which bytes are
/// painted depends on the font resource. The canvas must be alpha-format:
/// the bilevel blit aborts on any other. A face with zero units-per-em is
/// excluded, since FreeType refuses, by abort, to set a point size on it;
/// a face made only of bitmap strikes yet carrying a nonzero units-per-em
/// (sbix color fonts) fails the same size request when no strike matches the
/// requested size, an abort that no condition expressible here excludes,
/// as font-kit exposes no scalability flag.
#[verifier::external_body]
pub(crate) fn rasterize_glyph_bilevel(
    canvas: &mut Canvas,
    font: &Font,
    glyph_id: u32,
    point_size: u16,
    origin_x: i32,
    origin_y: i32,
) -> (r: Result<(), RenderError>)
    requires
        canvas_is_a8(*old(canvas)),
        font_units_per_em(*font) != 0,
    ensures
        canvas_stride(*final(canvas)) == canvas_stride(*old(canvas)),
        canvas_pixels(*final(canvas)).len() == canvas_pixels(*old(canvas)).len(),
        r is Err ==> (r->Err_0 is GlyphNotMapped || r->Err_0 is BoundsComputationFailure),
{
    let shift = Transform2F::from_translation(-Vector2I::new(origin_x, origin_y).to_f32());
    let opts = (HintingOptions::None, RasterizationOptions::Bilevel);
    match font.rasterize_glyph(canvas, glyph_id, point_size.into(), shift, opts.0, opts.1) {
        Ok(()) => Ok(()),
        Err(GlyphLoadingError::NoSuchGlyph) => Err(RenderError::GlyphNotMapped),
        Err(GlyphLoadingError::PlatformError) => Err(RenderError::BoundsComputationFailure),
    }
}

/// Takes the pixel buffer and the row stride out of a font-kit canvas.
#[verifier::external_body]
pub(crate) fn canvas_take(c: Canvas) -> (r: (Vec<u8>, usize))
    ensures
        r.0@ == canvas_pixels(c),
        r.1 as nat == canvas_stride(c),
{
    (c.pixels, c.stride)
}

} // verus!
