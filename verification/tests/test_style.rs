use tui_core::style::{
    Style, StyleFlag, TWColor, BOLD_SET, COLOR_BG_SET, COLOR_FG_SET, COMPUTED_SET, DIM_SET,
    HIDDEN_SET, MARGIN_SET, REVERSE_SET, STRIKETHROUGH_SET, UNDERLINE_SET,
};
use tui_core::stylesheet::Stylesheet;

fn contains(mask: StyleFlag, flag: StyleFlag) -> bool {
    mask & flag == flag
}

#[test]
fn test_bitflags() {
    let mut mask1: StyleFlag = 0;
    mask1 |= UNDERLINE_SET;
    mask1 |= DIM_SET;
    assert!(contains(mask1, UNDERLINE_SET));
    assert!(contains(mask1, DIM_SET));
    assert!(!contains(mask1, COLOR_FG_SET));
    assert!(!contains(mask1, COLOR_BG_SET));
    assert!(!contains(mask1, BOLD_SET));
    assert!(!contains(mask1, MARGIN_SET));

    let mask2: StyleFlag = BOLD_SET | DIM_SET;
    assert!(contains(mask2, BOLD_SET));
    assert!(contains(mask2, DIM_SET));
    assert!(!contains(mask2, UNDERLINE_SET));
    assert!(!contains(mask2, COLOR_FG_SET));
    assert!(!contains(mask2, COLOR_BG_SET));
    assert!(!contains(mask2, MARGIN_SET));

    assert!(!contains(mask1, mask2));
}

#[test]
fn test_all_fields_in_style() {
    let mut style = Style {
        id: "foo".to_string(),
        bold: true,
        dim: true,
        underline: true,
        reverse: true,
        hidden: true,
        strikethrough: true,
        color_fg: Some(TWColor::Red),
        color_bg: Some(TWColor::Rgb { r: 0, g: 0, b: 0 }),
        margin: Some(10),
        ..Style::default()
    };

    assert!(!style.computed);
    assert_eq!(style.id, "foo");
    assert!(style.bold);
    assert!(style.dim);
    assert!(style.underline);
    assert!(style.reverse);
    assert!(style.hidden);
    assert!(style.strikethrough);
    assert_eq!(style.color_fg, Some(TWColor::Red));
    assert_eq!(style.color_bg, Some(TWColor::Rgb { r: 0, g: 0, b: 0 }));
    assert_eq!(style.margin, Some(10));

    let mask = style.get_bitflags();
    assert!(!contains(mask, COMPUTED_SET));
    assert!(contains(mask, BOLD_SET));
    assert!(contains(mask, DIM_SET));
    assert!(contains(mask, UNDERLINE_SET));
    assert!(contains(mask, REVERSE_SET));
    assert!(contains(mask, HIDDEN_SET));
    assert!(contains(mask, STRIKETHROUGH_SET));
    assert!(contains(mask, COLOR_FG_SET));
    assert!(contains(mask, COLOR_BG_SET));
    assert!(contains(mask, MARGIN_SET));
}

#[test]
fn test_style() {
    let mut style = make_a_style("test_style");
    let bitflags = style.get_bitflags();
    assert!(contains(bitflags, BOLD_SET));
    assert!(contains(bitflags, DIM_SET));
    assert!(!contains(bitflags, UNDERLINE_SET));
}

#[test]
fn test_cascade_style() {
    let style_bold_green_fg = Style {
        bold: true,
        color_fg: Some(TWColor::Green),
        ..Style::default()
    };
    let style_dim = Style { dim: true, ..Style::default() };
    let style_yellow_bg = Style { color_bg: Some(TWColor::Yellow), ..Style::default() };
    let style_margin = Style { margin: Some(2), ..Style::default() };
    let style_red_fg = Style { color_fg: Some(TWColor::Red), ..Style::default() };

    let mut computed_style = style_bold_green_fg
        .add(&style_dim)
        .add(&style_yellow_bg)
        .add(&style_margin)
        .add(&style_red_fg);

    let mask = computed_style.get_bitflags();
    let wanted = COLOR_FG_SET | COLOR_BG_SET | BOLD_SET | DIM_SET | MARGIN_SET | COMPUTED_SET;
    assert!(contains(mask, wanted));

    assert_eq!(computed_style.color_bg.unwrap(), TWColor::Yellow);
    assert_eq!(computed_style.color_fg.unwrap(), TWColor::Red);
    assert!(computed_style.bold);
    assert!(computed_style.dim);
    assert!(computed_style.computed);
    assert_eq!(computed_style.margin.unwrap(), 2);
    assert!(!computed_style.underline);
}

#[test]
fn test_stylesheet() {
    let mut stylesheet = Stylesheet::new();

    let style1 = make_a_style("style1");
    let result = stylesheet.add_style(style1);
    assert!(result.is_ok());
    assert_eq!(stylesheet.styles.len(), 1);

    let style2 = make_a_style("style2");
    let result = stylesheet.add_style(style2);
    assert!(result.is_ok());
    assert_eq!(stylesheet.styles.len(), 2);

    assert_eq!(stylesheet.find_style_by_id("style1").unwrap().id, "style1");
    assert_eq!(stylesheet.find_style_by_id("style2").unwrap().id, "style2");
    assert!(stylesheet.find_style_by_id("style3").is_none());

    let result = stylesheet.find_styles_by_ids(vec!["style1", "style2"]);
    assert_eq!(result.as_ref().unwrap().len(), 2);
    assert_eq!(result.as_ref().unwrap()[0].id, "style1");
    assert_eq!(result.as_ref().unwrap()[1].id, "style2");
    assert_eq!(stylesheet.find_styles_by_ids(vec!["style3", "style4"]), None);
}

#[test]
fn test_compute_cascade_overrides() {
    let style_a = Style {
        id: "a".to_string(),
        color_fg: Some(TWColor::Red),
        bold: true,
        ..Style::default()
    };
    let style_b = Style { id: "b".to_string(), color_fg: Some(TWColor::Green), ..Style::default() };

    let computed = Stylesheet::compute(Some(vec![style_a, style_b])).unwrap();
    assert_eq!(computed.color_fg, Some(TWColor::Green));
    assert!(computed.bold);
    assert!(computed.computed);
    assert_eq!(computed.id, "");

    assert!(Stylesheet::compute(None).is_none());
    assert!(Stylesheet::compute(Some(vec![])).is_none());
}

#[test]
fn test_add_style_empty_id_rejected() {
    let mut stylesheet = Stylesheet::new();
    let unnamed = Style { bold: true, ..Style::default() };
    let result = stylesheet.add_style(unnamed);
    assert!(result.is_err());
    let error = result.unwrap_err();
    assert_eq!(error.err_type, tui_core::errors::LayoutErrorType::EmptyStyleId);
    assert_eq!(error.message(), "style id cannot be empty");
    assert_eq!(stylesheet.styles.len(), 0);
}

#[test]
fn test_reset_bitflags() {
    let mut style = make_a_style("fresh");
    assert!(style.cached_bitflags.is_none());
    let first = style.get_bitflags();
    assert_eq!(style.cached_bitflags, Some(first));
    style.reset_bitflags();
    assert!(style.cached_bitflags.is_none());
    assert_eq!(style.gen_bitflags(), first);
}

/// Helper function.
fn make_a_style(id: &str) -> Style {
    let black = TWColor::Rgb { r: 0, g: 0, b: 0 };
    Style {
        id: id.to_string(),
        color_bg: Some(black),
        color_fg: Some(black),
        dim: true,
        bold: true,
        ..Style::default()
    }
}
