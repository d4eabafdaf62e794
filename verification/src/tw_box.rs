//! One rectangular, positioned, sized, styled region in the nesting stack.
//!
//! A root box is sized against the area; a child box is sized against its
//! container and has its origin shifted and bounds shrunk by the computed
//! style's margin. Shrinking clamps at zero, so a margin that is large
//! relative to the allocated size can never underflow the geometry.

use vstd::prelude::*;

use crate::dimens::{
    sat_add_unit, sat_sub_unit, spec_calc_percentage, unit_add, Percent, Position,
    RequestedSizePercent, Size, UnitType,
};
use crate::style::{copy_style, Style};

verus! {

/// The flow axis along which a container advances its box cursor when
/// children are added.
#[derive(Copy, Clone, PartialEq, Eq, Structural, Debug)]
pub enum Direction {
    Horizontal,
    Vertical,
}

impl Default for Direction {
    fn default() -> (r: Direction)
        ensures
            r == Direction::Horizontal,
    {
        Direction::Horizontal
    }
}

/// The margin carried by an optional computed style, if any.
pub open spec fn spec_style_margin(style: Option<Style>) -> Option<UnitType> {
    match style {
        Some(s) => s.margin,
        None => None,
    }
}

/// A box origin shifted inward by the margin on both axes (saturating).
pub open spec fn spec_margin_adjusted_origin(origin: Position, margin: Option<UnitType>) -> Position {
    match margin {
        Some(m) => Position { col: sat_add_unit(origin.col, m), row: sat_add_unit(origin.row, m) },
        None => origin,
    }
}

/// Box bounds shrunk by twice the margin on both axes, clamping at zero.
pub open spec fn spec_margin_adjusted_bounds(bounds: Size, margin: Option<UnitType>) -> Size {
    match margin {
        Some(m) => Size {
            width: sat_sub_unit(bounds.width, sat_add_unit(m, m)),
            height: sat_sub_unit(bounds.height, sat_add_unit(m, m)),
        },
        None => bounds,
    }
}

/// A box is a rectangle with a position and size. The direction of the box
/// determines how its contained elements are positioned.
#[derive(Clone, PartialEq, Debug)]
pub struct TWBox {
    pub id: String,
    pub dir: Direction,
    /// Absolute position, already margin-adjusted.
    pub origin_pos: Position,
    /// Absolute extent, already margin-adjusted.
    pub bounds_size: Size,
    pub req_size_percent: RequestedSizePercent,
    /// Where the next child box will be placed; only meaningful on a
    /// container currently being filled.
    pub box_cursor_pos: Option<Position>,
    /// Where the next printed line will be placed inside this box.
    pub content_cursor_pos: Option<Position>,
    /// The cascade of all styles supplied at creation, if any.
    pub computed_style: Option<Style>,
}

impl TWBox {
    /// A copy of the computed style stored for this box.
    pub fn get_computed_style(&self) -> (r: Option<Style>)
        ensures
            r == self.computed_style,
    {
        match &self.computed_style {
            Some(s) => Some(copy_style(s)),
            None => None,
        }
    }

    /// The root box: explicitly positioned at the area origin and sized as a
    /// share of the area; its box cursor starts at its origin.
    pub fn make_root_box(
        id: String,
        size: Size,
        origin_pos: Position,
        width_pc: Percent,
        height_pc: Percent,
        dir: Direction,
        computed_style: Option<Style>,
    ) -> (r: TWBox)
        requires
            width_pc.is_valid(),
            height_pc.is_valid(),
        ensures
            r.id == id,
            r.dir == dir,
            r.origin_pos == origin_pos,
            r.bounds_size == (Size {
                width: spec_calc_percentage(width_pc, size.width),
                height: spec_calc_percentage(height_pc, size.height),
            }),
            r.req_size_percent == (RequestedSizePercent { width: width_pc, height: height_pc }),
            r.box_cursor_pos == Some(origin_pos),
            r.content_cursor_pos is None,
            r.computed_style == computed_style,
    {
        let bounds_size = size.scale(width_pc, height_pc);
        TWBox {
            id,
            dir,
            origin_pos,
            bounds_size,
            req_size_percent: RequestedSizePercent { width: width_pc, height: height_pc },
            box_cursor_pos: origin_pos.as_some(),
            content_cursor_pos: None,
            computed_style,
        }
    }

    /// A child box: sized as a share of its container's bounds, placed at the
    /// container's box cursor, then shifted and shrunk by the computed
    /// style's margin. Its own box cursor starts unset.
    pub fn make_box(
        id: String,
        dir: Direction,
        container_bounds: Size,
        origin_pos: Position,
        width_pc: Percent,
        height_pc: Percent,
        computed_style: Option<Style>,
    ) -> (r: TWBox)
        requires
            width_pc.is_valid(),
            height_pc.is_valid(),
        ensures
            r.id == id,
            r.dir == dir,
            r.origin_pos == spec_margin_adjusted_origin(
                origin_pos,
                spec_style_margin(computed_style),
            ),
            r.bounds_size == spec_margin_adjusted_bounds(
                Size {
                    width: spec_calc_percentage(width_pc, container_bounds.width),
                    height: spec_calc_percentage(height_pc, container_bounds.height),
                },
                spec_style_margin(computed_style),
            ),
            r.req_size_percent == (RequestedSizePercent { width: width_pc, height: height_pc }),
            r.box_cursor_pos is None,
            r.content_cursor_pos is None,
            r.computed_style == computed_style,
    {
        let mut style_adjusted_origin = origin_pos;
        let mut style_adjusted_bounds_size = container_bounds.scale(width_pc, height_pc);

        if let Some(style) = &computed_style {
            if let Some(margin) = style.margin {
                style_adjusted_origin = style_adjusted_origin.add_scalar(margin);
                style_adjusted_bounds_size = style_adjusted_bounds_size.sub_scalar(
                    unit_add(margin, margin),
                );
            }
        }

        TWBox {
            id,
            dir,
            origin_pos: style_adjusted_origin,
            bounds_size: style_adjusted_bounds_size,
            req_size_percent: RequestedSizePercent { width: width_pc, height: height_pc },
            box_cursor_pos: None,
            content_cursor_pos: None,
            computed_style,
        }
    }
}

} // verus!
