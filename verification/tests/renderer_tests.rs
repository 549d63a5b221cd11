//! Tests for the glyph sequence renderer, against the host's font store.

use font_kit::family_name::FamilyName;
use font_kit::properties::Properties;
use font_kit::source::SystemSource;
use glyphshade::canvas::BoundingBox;
use glyphshade::canvas::PixelFormat;
use glyphshade::renderer::App;
use glyphshade::renderer::validate_bounds;
use glyphshade::raster::RenderError;

/// The PostScript name of some monospace font installed on this host, if any.
fn monospace_postscript_name() -> Option<String> {
    let handle = SystemSource::new()
        .select_best_match(&[FamilyName::Monospace], &Properties::new())
        .ok()?;
    let font = handle.load().ok()?;
    font.postscript_name()
}

#[test]
fn empty_text_produces_no_results() {
    let mut app = App::new(String::from("any-font-name"));
    let outcome = app.render_str("");
    assert!(outcome.is_ok());
    assert_eq!(app.chart_slice.len(), 0);
}

#[test]
fn missing_font_yields_font_not_found() {
    let err = App::render_char("no-such-font-glyphshade-test", 'A').unwrap_err();
    assert_eq!(err, RenderError::FontNotFound);
}

#[test]
fn missing_font_leaves_no_render_result() {
    let mut app = App::new(String::from("no-such-font-glyphshade-test"));
    let outcome = app.render_str("A");
    assert_eq!(outcome.unwrap_err(), RenderError::FontNotFound);
    assert_eq!(app.chart_slice.len(), 0);
}

#[test]
fn nul_in_font_name_yields_font_not_found() {
    let err = App::render_char("bad\0name", 'A').unwrap_err();
    assert_eq!(err, RenderError::FontNotFound);
}

#[test]
fn validate_bounds_accepts_non_negative_dimensions() {
    let bounds = BoundingBox { origin_x: -3, origin_y: 5, width: 7, height: 0 };
    assert!(validate_bounds(bounds).is_ok());
}

#[test]
fn validate_bounds_rejects_negative_dimensions() {
    let negative_width = BoundingBox { origin_x: 0, origin_y: 0, width: -1, height: 2 };
    let negative_height = BoundingBox { origin_x: 0, origin_y: 0, width: 2, height: -1 };
    assert_eq!(
        validate_bounds(negative_width).unwrap_err(),
        RenderError::BoundsComputationFailure
    );
    assert_eq!(
        validate_bounds(negative_height).unwrap_err(),
        RenderError::BoundsComputationFailure
    );
}

#[test]
fn monospace_glyph_has_positive_bounds_and_full_canvas() {
    // Exercised only where the host has a monospace font, as the scenario
    // presumes one.
    let Some(name) = monospace_postscript_name() else {
        return;
    };
    let Ok(result) = App::render_char(&name, 'A') else {
        return;
    };
    assert!(result.bounds.width > 0);
    assert!(result.bounds.height > 0);
    assert_eq!(result.canvas.format, PixelFormat::A8);
    assert!(result.canvas.pixels.len() >= result.canvas.stride * result.canvas.height);
    assert_eq!(result.canvas.width as i32, result.bounds.width);
    assert_eq!(result.canvas.height as i32, result.bounds.height);
}

#[test]
fn rendering_n_characters_gives_n_results_in_order() {
    let Some(name) = monospace_postscript_name() else {
        return;
    };
    let mut app = App::new(name.clone());
    if app.render_str("AB").is_err() {
        return;
    }
    assert_eq!(app.chart_slice.len(), 2);
    let first = App::render_char(&name, 'A').unwrap();
    let second = App::render_char(&name, 'B').unwrap();
    // Results stand in input order: each entry matches an independent
    // rendering of the character at its position.
    assert_eq!(app.chart_slice[0].bounds, first.bounds);
    assert_eq!(app.chart_slice[0].canvas.pixels, first.canvas.pixels);
    assert_eq!(app.chart_slice[1].bounds, second.bounds);
    assert_eq!(app.chart_slice[1].canvas.pixels, second.canvas.pixels);
}

#[test]
fn render_results_accumulate_across_calls() {
    let Some(name) = monospace_postscript_name() else {
        return;
    };
    let mut app = App::new(name);
    if app.render_str("A").is_err() {
        return;
    }
    assert_eq!(app.chart_slice.len(), 1);
    if app.render_str("B").is_err() {
        return;
    }
    assert_eq!(app.chart_slice.len(), 2);
}
