use tui_core::dimens::{Percent, Position, RequestedSizePercent, Size};
use tui_core::errors::{CommonResult, LayoutErrorType};
use tui_core::style::{Style, TWColor};
use tui_core::stylesheet::Stylesheet;
use tui_core::tw_area::{TWArea, TWAreaProps, TWBoxProps};
use tui_core::tw_box::{Direction, TWBox};

fn req_size(width: i32, height: i32) -> RequestedSizePercent {
    RequestedSizePercent::try_from((width, height)).unwrap()
}

fn pos(col: u16, row: u16) -> Position {
    Position { col, row }
}

fn size(width: u16, height: u16) -> Size {
    Size { width, height }
}

#[test]
fn test_simple_2_col_layout() {
    let mut tw_area = TWArea {
        stylesheet: create_stylesheet().unwrap(),
        ..TWArea::default()
    };
    tw_area
        .area_start(TWAreaProps { pos: pos(0, 0), size: size(500, 500) })
        .unwrap();
    create_main_container(&mut tw_area).unwrap();
    tw_area.area_end().unwrap();
    println!("{:?}", &tw_area.render_buffer);
}

/// Main container "container".
fn create_main_container(tw_area: &mut TWArea) -> CommonResult<()> {
    tw_area.box_start(TWBoxProps {
        id: "container".to_string(),
        dir: Direction::Horizontal,
        req_size: req_size(100, 100),
        styles: None,
    })?;
    make_container_assertions(tw_area);
    create_left_col(tw_area)?;
    create_right_col(tw_area)?;
    tw_area.box_end()?;
    Ok(())
}

fn make_container_assertions(tw_area: &TWArea) {
    let layout_item = tw_area.stack_of_boxes.first().unwrap();
    assert_eq!(layout_item.id, "container");
    assert_eq!(layout_item.dir, Direction::Horizontal);
    assert_eq!(layout_item.origin_pos, pos(0, 0));
    assert_eq!(layout_item.bounds_size, size(500, 500));
    assert_eq!(layout_item.req_size_percent, req_size(100, 100));
    assert_eq!(layout_item.box_cursor_pos, Some(pos(0, 0)));
    assert_eq!(layout_item.content_cursor_pos, None);
    assert_eq!(layout_item.get_computed_style(), None);
}

/// Left column "col_1".
fn create_left_col(tw_area: &mut TWArea) -> CommonResult<()> {
    let styles = tw_area.stylesheet.find_styles_by_ids(vec!["style1"]);
    tw_area.box_start(TWBoxProps {
        id: "col_1".to_string(),
        dir: Direction::Vertical,
        req_size: req_size(50, 100),
        styles,
    })?;
    tw_area.print_inside_box(vec!["col 1 - Hello"])?;
    tw_area.print_inside_box(vec!["col 1 - World"])?;
    make_left_col_assertions(tw_area);
    tw_area.box_end()?;
    Ok(())
}

fn make_left_col_assertions(tw_area: &TWArea) {
    let layout_item = tw_area.stack_of_boxes.last().unwrap();
    assert_eq!(layout_item.id, "col_1");
    assert_eq!(layout_item.dir, Direction::Vertical);
    assert_eq!(layout_item.origin_pos, pos(2, 2)); // Take margin into account.
    assert_eq!(layout_item.bounds_size, size(246, 496)); // Take margin into account.
    assert_eq!(layout_item.req_size_percent, req_size(50, 100));
    assert_eq!(layout_item.box_cursor_pos, None);
    assert_eq!(layout_item.content_cursor_pos, Some(pos(0, 2)));
    assert_eq!(
        layout_item.get_computed_style(),
        Stylesheet::compute(tw_area.stylesheet.find_styles_by_ids(vec!["style1"]))
    );
}

/// Right column "col_2".
fn create_right_col(tw_area: &mut TWArea) -> CommonResult<()> {
    let styles = tw_area.stylesheet.find_styles_by_ids(vec!["style2"]);
    tw_area.box_start(TWBoxProps {
        id: "col_2".to_string(),
        dir: Direction::Vertical,
        req_size: req_size(50, 100),
        styles,
    })?;
    tw_area.print_inside_box(vec!["col 2 - Hello"])?;
    tw_area.print_inside_box(vec!["col 2 - World"])?;
    make_right_col_assertions(tw_area);
    tw_area.box_end()?;
    Ok(())
}

fn make_right_col_assertions(tw_area: &TWArea) {
    let current_box = tw_area.stack_of_boxes.last().unwrap();
    assert_eq!(current_box.id, "col_2");
    assert_eq!(current_box.dir, Direction::Vertical);
    assert_eq!(current_box.origin_pos, pos(253, 3)); // Take margin into account.
    assert_eq!(current_box.bounds_size, size(244, 494)); // Take margin into account.
    assert_eq!(current_box.req_size_percent, req_size(50, 100));
    assert_eq!(current_box.box_cursor_pos, None);
    assert_eq!(current_box.content_cursor_pos, Some(pos(0, 2)));
    assert_eq!(
        current_box.get_computed_style(),
        Stylesheet::compute(tw_area.stylesheet.find_styles_by_ids(vec!["style2"]))
    );
}

/// Create a stylesheet containing styles.
fn create_stylesheet() -> CommonResult<Stylesheet> {
    let mut stylesheet = Stylesheet::new();
    stylesheet.add_styles(vec![create_style1(), create_style2()])?;
    Ok(stylesheet)
}

fn create_style1() -> Style {
    let yellow = TWColor::Rgb { r: 255, g: 255, b: 0 };
    let grey = TWColor::Rgb { r: 128, g: 128, b: 128 };
    Style {
        id: "style1".to_string(),
        color_fg: Some(yellow),
        color_bg: Some(grey),
        dim: true,
        bold: true,
        margin: Some(2),
        ..Style::default()
    }
}

fn create_style2() -> Style {
    let black = TWColor::Rgb { r: 0, g: 0, b: 0 };
    let white = TWColor::Rgb { r: 255, g: 255, b: 255 };
    Style {
        id: "style2".to_string(),
        color_fg: Some(black),
        color_bg: Some(white),
        underline: true,
        strikethrough: true,
        margin: Some(3),
        ..Style::default()
    }
}

#[test]
fn test_mismatched_area_start() {
    let mut tw_area = TWArea::default();
    tw_area
        .area_start(TWAreaProps { pos: pos(0, 0), size: size(100, 100) })
        .unwrap();
    tw_area.box_start(root_props("root")).unwrap();
    let result = tw_area.area_start(TWAreaProps { pos: pos(0, 0), size: size(100, 100) });
    assert_eq!(result.unwrap_err().err_type, LayoutErrorType::MismatchedAreaStart);
}

#[test]
fn test_mismatched_area_end() {
    let mut tw_area = TWArea::default();
    tw_area
        .area_start(TWAreaProps { pos: pos(0, 0), size: size(100, 100) })
        .unwrap();
    tw_area.box_start(root_props("root")).unwrap();
    let result = tw_area.area_end();
    assert_eq!(result.unwrap_err().err_type, LayoutErrorType::MismatchedAreaEnd);
    tw_area.box_end().unwrap();
    assert!(tw_area.area_end().is_ok());
}

#[test]
fn test_mismatched_box_end() {
    let mut tw_area = TWArea::default();
    tw_area
        .area_start(TWAreaProps { pos: pos(0, 0), size: size(100, 100) })
        .unwrap();
    let result = tw_area.box_end();
    let error = result.unwrap_err();
    assert_eq!(error.err_type, LayoutErrorType::MismatchedBoxEnd);
    assert_eq!(error.message(), "box_end called with an empty stack of boxes");
}

#[test]
fn test_print_with_empty_stack() {
    let mut tw_area = TWArea::default();
    tw_area
        .area_start(TWAreaProps { pos: pos(0, 0), size: size(100, 100) })
        .unwrap();
    let result = tw_area.print_inside_box(vec!["orphan line"]);
    assert_eq!(result.unwrap_err().err_type, LayoutErrorType::StackShouldNotBeEmpty);
    // With nothing to print there is nothing to fail on.
    assert!(tw_area.print_inside_box(vec![]).is_ok());
}

#[test]
fn test_grandchild_box_cursor_undefined() {
    let mut tw_area = TWArea::default();
    tw_area
        .area_start(TWAreaProps { pos: pos(0, 0), size: size(100, 100) })
        .unwrap();
    tw_area.box_start(root_props("root")).unwrap();
    tw_area.box_start(child_props("child")).unwrap();
    // A child box starts with no box cursor, so it cannot contain boxes.
    let result = tw_area.box_start(child_props("grandchild"));
    assert_eq!(result.unwrap_err().err_type, LayoutErrorType::BoxCursorPositionUndefined);
}

#[test]
fn test_next_box_pos_needs_cursor() {
    let mut tw_area = TWArea::default();
    tw_area
        .area_start(TWAreaProps { pos: pos(0, 0), size: size(100, 100) })
        .unwrap();
    tw_area.box_start(root_props("root")).unwrap();
    tw_area.box_start(child_props("child")).unwrap();
    let result = tw_area.calc_where_to_insert_new_box_in_tw_area(size(10, 10));
    assert_eq!(result.unwrap_err().err_type, LayoutErrorType::ErrorCalculatingNextBoxPos);
}

#[test]
fn test_vertical_flow_keeps_column() {
    let mut tw_area = TWArea::default();
    tw_area
        .area_start(TWAreaProps { pos: pos(0, 0), size: size(100, 100) })
        .unwrap();
    tw_area.box_start(TWBoxProps {
        id: "rows".to_string(),
        dir: Direction::Vertical,
        req_size: req_size(100, 100),
        styles: None,
    })
    .unwrap();
    tw_area.box_start(child_props("row_1")).unwrap();
    tw_area.box_end().unwrap();
    // Vertical flow: only the row component of the cursor advances.
    assert_eq!(tw_area.stack_of_boxes.last().unwrap().box_cursor_pos, Some(pos(0, 50)));
    tw_area.box_end().unwrap();
    tw_area.area_end().unwrap();
}

fn root_props(id: &str) -> TWBoxProps {
    TWBoxProps {
        id: id.to_string(),
        dir: Direction::Horizontal,
        req_size: req_size(100, 100),
        styles: None,
    }
}

fn child_props(id: &str) -> TWBoxProps {
    TWBoxProps {
        id: id.to_string(),
        dir: Direction::Vertical,
        req_size: req_size(50, 50),
        styles: None,
    }
}

#[test]
fn test_make_box_margin_clamps_at_zero() {
    let style = Style { id: "wide".to_string(), margin: Some(30), ..Style::default() };
    let computed = Stylesheet::compute(Some(vec![style]));
    let b = TWBox::make_box(
        "tiny".to_string(),
        Direction::Horizontal,
        size(40, 40),
        pos(0, 0),
        Percent::try_from(100).unwrap(),
        Percent::try_from(100).unwrap(),
        computed,
    );
    // 40 cells shrunk by twice a 30-cell margin clamps at zero.
    assert_eq!(b.bounds_size, size(0, 0));
    assert_eq!(b.origin_pos, pos(30, 30));
}
