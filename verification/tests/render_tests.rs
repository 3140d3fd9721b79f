use freshview::cells::{draws_text, run_text, style_runs, CellStyle, Run};
use freshview::color::{background_color, paints_background, translate_color, Color, Rgba};
use freshview::pixels::{pixmap_to_rgba, rgb_to_rgba, PixelError};

fn rgba(r: u8, g: u8, b: u8, a: u8) -> Rgba {
    Rgba { r, g, b, a }
}

#[test]
fn test_translate_named_colors() {
    assert_eq!(translate_color(Color::Reset), rgba(255, 255, 255, 255));
    assert_eq!(translate_color(Color::Black), rgba(0, 0, 0, 255));
    assert_eq!(translate_color(Color::Red), rgba(205, 0, 0, 255));
    assert_eq!(translate_color(Color::Blue), rgba(0, 0, 238, 255));
    assert_eq!(translate_color(Color::Gray), rgba(229, 229, 229, 255));
    assert_eq!(translate_color(Color::DarkGray), rgba(127, 127, 127, 255));
    assert_eq!(translate_color(Color::LightBlue), rgba(92, 92, 255, 255));
    assert_eq!(translate_color(Color::White), rgba(255, 255, 255, 255));
}

#[test]
fn test_translate_rgb_and_indexed() {
    assert_eq!(translate_color(Color::Rgb(1, 2, 3)), rgba(1, 2, 3, 255));
    assert_eq!(translate_color(Color::Indexed(1)), rgba(205, 0, 0, 255));
    assert_eq!(translate_color(Color::Indexed(15)), rgba(255, 255, 255, 255));
    assert_eq!(translate_color(Color::Indexed(16)), rgba(160, 160, 160, 255));
    assert_eq!(translate_color(Color::Indexed(255)), rgba(160, 160, 160, 255));
}

#[test]
fn test_named_colors_match_palette() {
    let named = [
        Color::Black, Color::Red, Color::Green, Color::Yellow, Color::Blue, Color::Magenta, Color::Cyan,
        Color::Gray, Color::DarkGray, Color::LightRed, Color::LightGreen, Color::LightYellow,
        Color::LightBlue, Color::LightMagenta, Color::LightCyan, Color::White,
    ];
    for (i, c) in named.iter().enumerate() {
        assert_eq!(translate_color(*c), translate_color(Color::Indexed(i as u8)));
    }
}

#[test]
fn test_background_only_when_not_default() {
    assert_eq!(background_color(Color::Reset), rgba(0, 0, 0, 0));
    assert!(!paints_background(Color::Reset));
    assert!(paints_background(Color::Black));
    assert!(paints_background(Color::Rgb(0, 0, 0)));
    assert_eq!(background_color(Color::Green), rgba(0, 205, 0, 255));
}

fn style(fg: Color, bg: Color) -> CellStyle {
    CellStyle { fg, bg }
}

#[test]
fn test_style_runs_groups_equal_neighbours() {
    let a = style(Color::White, Color::Reset);
    let b = style(Color::Red, Color::Reset);
    let c = style(Color::Red, Color::Blue);
    let cells = vec![a, a, a, b, c, c, a];
    let runs = style_runs(&cells);
    assert_eq!(
        runs,
        vec![
            Run { start: 0, len: 3 },
            Run { start: 3, len: 1 },
            Run { start: 4, len: 2 },
            Run { start: 6, len: 1 },
        ]
    );
}

#[test]
fn test_style_runs_edge_cases() {
    assert_eq!(style_runs(&vec![]), vec![]);
    let a = style(Color::Indexed(3), Color::Rgb(1, 1, 1));
    assert_eq!(style_runs(&vec![a; 120]), vec![Run { start: 0, len: 120 }]);
}

#[test]
fn test_run_text_and_visibility() {
    let symbols: Vec<String> = vec!["a".into(), " ".into(), "b".into(), " ".into(), " ".into()];
    let t = run_text(&symbols, Run { start: 0, len: 3 });
    assert_eq!(t, "a b");
    assert!(draws_text(&t));
    let blank = run_text(&symbols, Run { start: 3, len: 2 });
    assert_eq!(blank, "  ");
    assert!(!draws_text(&blank));
    assert!(!draws_text(""));
    assert!(!draws_text("\t\u{3000}"));
    assert!(draws_text("  x "));
}

#[test]
fn test_rgb_to_rgba_adds_opaque_alpha() {
    let samples = [1u8, 2, 3, 4, 5, 6];
    assert_eq!(rgb_to_rgba(&samples, 2), vec![1, 2, 3, 255, 4, 5, 6, 255]);
    assert_eq!(rgb_to_rgba(&samples, 0), Vec::<u8>::new());
}

#[test]
fn test_pixmap_to_rgba_formats() {
    let rgba = [9u8, 8, 7, 6, 5, 4, 3, 2];
    assert_eq!(pixmap_to_rgba(&rgba, 4, 2, 1), Ok(rgba.to_vec()));
    let rgb = [10u8, 20, 30, 40, 50, 60];
    let out = pixmap_to_rgba(&rgb, 3, 1, 2).unwrap();
    assert_eq!(out.len(), (1 * 2 * 4) as usize);
    assert_eq!(out, vec![10, 20, 30, 255, 40, 50, 60, 255]);
}

#[test]
fn test_pixmap_to_rgba_rejects_other_formats() {
    let gray = [1u8, 2];
    let err = pixmap_to_rgba(&gray, 1, 2, 1).unwrap_err();
    assert_eq!(err, PixelError::UnexpectedFormat(1));
    assert_eq!(err.components(), 1);
    assert_eq!(pixmap_to_rgba(&gray, 2, 1, 1), Err(PixelError::UnexpectedFormat(2)));
}
