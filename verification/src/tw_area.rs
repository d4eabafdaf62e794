//! The layout engine: a stack-discipline nested box layout over one
//! rectangular area of the terminal screen.
//!
//! An application issues `area_start -> box_start -> (print | nested
//! box_start/box_end)* -> box_end -> area_end` calls against one [`TWArea`].
//! Each `box_start` computes the child's geometry from the box currently on
//! top of the stack (or from the area, for the root), cascades the supplied
//! styles, and pushes a [`TWBox`]; paint calls append [`TWCommand`]s to the
//! render buffer. The stack must be empty at both `area_start` and
//! `area_end`; violations are reported as typed errors, never panics.

use vstd::prelude::*;

use crate::dimens::{
    sat_add_unit, spec_calc_percentage, unit_add, Percent, Position, RequestedSizePercent, Size,
    UnitType,
};
use crate::errors::{CommonResult, LayoutError, LayoutErrorType};
use crate::style::Style;
use crate::stylesheet::{spec_computed_style_ok, Stylesheet};
use crate::tw_box::{
    spec_margin_adjusted_bounds, spec_margin_adjusted_origin, spec_style_margin, Direction, TWBox,
};
use crate::tw_command::{TWCommand, TWCommandQueue};

verus! {

/// How siblings are laid out along the parent's flow axis: the flow-axis
/// component of the cursor advances by the allocated extent and the
/// cross-axis component is held at the cursor's existing value.
pub open spec fn spec_next_box_cursor(cursor: Position, allocated: Size, dir: Direction) -> Position {
    match dir {
        Direction::Horizontal => Position {
            col: sat_add_unit(cursor.col, allocated.width),
            row: cursor.row,
        },
        Direction::Vertical => Position {
            col: cursor.col,
            row: sat_add_unit(cursor.row, allocated.height),
        },
    }
}

/// Where the next printed line goes inside a box: its content cursor,
/// defaulting to the box-relative origin when still unset.
pub open spec fn spec_content_start(b: TWBox) -> Position {
    match b.content_cursor_pos {
        Some(p) => p,
        None => Position { col: 0, row: 0 },
    }
}

/// A row advanced by `k` single-row steps, each saturating.
pub open spec fn spec_row_plus(row: UnitType, k: int) -> UnitType {
    if row + k > u16::MAX {
        u16::MAX
    } else {
        (row + k) as UnitType
    }
}

/// Properties that are needed to create a [`TWBox`].
#[derive(Clone, Debug)]
pub struct TWBoxProps {
    pub id: String,
    pub dir: Direction,
    pub req_size: RequestedSizePercent,
    pub styles: Option<Vec<Style>>,
}

impl Default for TWBoxProps {
    fn default() -> (r: TWBoxProps)
        ensures
            r.id@ == Seq::<char>::empty(),
            r.dir == Direction::Horizontal,
            r.req_size.width.value == 0,
            r.req_size.height.value == 0,
            r.styles is None,
    {
        TWBoxProps {
            id: String::new(),
            dir: Direction::Horizontal,
            req_size: RequestedSizePercent { width: Percent { value: 0 }, height: Percent { value: 0 } },
            styles: None,
        }
    }
}

/// Properties that are needed to start a layout pass on a [`TWArea`].
#[derive(Copy, Clone, PartialEq, Eq, Structural, Debug, Default)]
pub struct TWAreaProps {
    pub pos: Position,
    pub size: Size,
}

/// Represents a rectangular area of the terminal screen, and not necessarily
/// the full terminal screen.
#[derive(Clone, Debug)]
pub struct TWArea {
    pub origin_pos: Position,
    pub box_size: Size,
    pub stack_of_boxes: Vec<TWBox>,
    pub stylesheet: Stylesheet,
    pub render_buffer: TWCommandQueue,
}

impl Default for TWArea {
    fn default() -> (r: TWArea)
        ensures
            r.origin_pos == (Position { col: 0, row: 0 }),
            r.box_size == (Size { width: 0, height: 0 }),
            r.stack_of_boxes@ == Seq::<TWBox>::empty(),
            r.stylesheet.styles@ == Seq::<Style>::empty(),
            r.render_buffer.queue@ == Seq::<TWCommand>::empty(),
    {
        TWArea {
            origin_pos: Position { col: 0, row: 0 },
            box_size: Size { width: 0, height: 0 },
            stack_of_boxes: Vec::new(),
            stylesheet: Stylesheet::new(),
            render_buffer: TWCommandQueue::new(),
        }
    }
}

impl TWArea {
    /// Opens a layout pass: records the area's absolute origin and size.
    /// Fails with [`LayoutErrorType::MismatchedAreaStart`] iff boxes are
    /// still open, leaving the engine unchanged in that case.
    pub fn area_start(&mut self, props: TWAreaProps) -> (r: CommonResult<()>)
        ensures
            old(self).stack_of_boxes@.len() > 0 ==> r is Err && r->Err_0.err_type
                == LayoutErrorType::MismatchedAreaStart && *final(self) == *old(self),
            old(self).stack_of_boxes@.len() == 0 ==> {
                &&& r is Ok
                &&& final(self).origin_pos == props.pos
                &&& final(self).box_size == props.size
                &&& final(self).stack_of_boxes == old(self).stack_of_boxes
                &&& final(self).stylesheet == old(self).stylesheet
                &&& final(self).render_buffer == old(self).render_buffer
            },
    {
        if !self.stack_of_boxes.is_empty() {
            return Err(LayoutError::new(LayoutErrorType::MismatchedAreaStart));
        }
        self.origin_pos = props.pos;
        self.box_size = props.size;
        Ok(())
    }

    /// Closes a layout pass. Fails with
    /// [`LayoutErrorType::MismatchedAreaEnd`] iff some `box_start` was not
    /// matched by a `box_end`. Never changes the engine.
    pub fn area_end(&mut self) -> (r: CommonResult<()>)
        ensures
            *final(self) == *old(self),
            r is Ok <==> old(self).stack_of_boxes@.len() == 0,
            r is Err ==> r->Err_0.err_type == LayoutErrorType::MismatchedAreaEnd,
    {
        if !self.stack_of_boxes.is_empty() {
            return Err(LayoutError::new(LayoutErrorType::MismatchedAreaEnd));
        }
        Ok(())
    }

    /// Closes the box currently on top of the stack. Fails with
    /// [`LayoutErrorType::MismatchedBoxEnd`] iff no box is open.
    pub fn box_end(&mut self) -> (r: CommonResult<()>)
        ensures
            old(self).stack_of_boxes@.len() == 0 ==> r is Err && r->Err_0.err_type
                == LayoutErrorType::MismatchedBoxEnd && *final(self) == *old(self),
            old(self).stack_of_boxes@.len() > 0 ==> {
                &&& r is Ok
                &&& final(self).stack_of_boxes@ == old(self).stack_of_boxes@.drop_last()
                &&& final(self).origin_pos == old(self).origin_pos
                &&& final(self).box_size == old(self).box_size
                &&& final(self).stylesheet == old(self).stylesheet
                &&& final(self).render_buffer == old(self).render_buffer
            },
    {
        if self.stack_of_boxes.is_empty() {
            return Err(LayoutError::new(LayoutErrorType::MismatchedBoxEnd));
        }
        self.stack_of_boxes.pop();
        Ok(())
    }

    /// The box on top of the stack (the one currently being filled), or
    /// [`LayoutErrorType::StackShouldNotBeEmpty`] if none is open.
    pub fn current_box(&self) -> (r: CommonResult<&TWBox>)
        ensures
            r is Ok <==> self.stack_of_boxes@.len() > 0,
            r is Ok ==> *r->Ok_0 == self.stack_of_boxes@.last(),
            r is Err ==> r->Err_0.err_type == LayoutErrorType::StackShouldNotBeEmpty,
    {
        if self.stack_of_boxes.is_empty() {
            return Err(LayoutError::new(LayoutErrorType::StackShouldNotBeEmpty));
        }
        let n = self.stack_of_boxes.len();
        Ok(&self.stack_of_boxes[n - 1])
    }

    /// The fields a box operation never touches.
    pub open spec fn spec_same_but_stack(pre: TWArea, post: TWArea) -> bool {
        &&& post.origin_pos == pre.origin_pos
        &&& post.box_size == pre.box_size
        &&& post.stylesheet == pre.stylesheet
        &&& post.render_buffer == pre.render_buffer
    }

    /// Advances the current box's cursor to where the next sibling box will
    /// be placed, and returns that position. Must be called *before* the new
    /// box is pushed. Fails with
    /// [`LayoutErrorType::ErrorCalculatingNextBoxPos`] iff the current box's
    /// cursor is unset, and with [`LayoutErrorType::StackShouldNotBeEmpty`]
    /// iff no box is open; the engine is unchanged on failure.
    pub fn calc_where_to_insert_new_box_in_tw_area(&mut self, allocated_size: Size) -> (r:
        CommonResult<Position>)
        ensures
            old(self).stack_of_boxes@.len() == 0 ==> r is Err && r->Err_0.err_type
                == LayoutErrorType::StackShouldNotBeEmpty && *final(self) == *old(self),
            old(self).stack_of_boxes@.len() > 0 && old(self).stack_of_boxes@.last().box_cursor_pos
                is None ==> r is Err && r->Err_0.err_type
                == LayoutErrorType::ErrorCalculatingNextBoxPos && *final(self) == *old(self),
            old(self).stack_of_boxes@.len() > 0 && old(self).stack_of_boxes@.last().box_cursor_pos
                is Some ==> ({
                let top = old(self).stack_of_boxes@.last();
                let new_pos = spec_next_box_cursor(
                    top.box_cursor_pos->0,
                    allocated_size,
                    top.dir,
                );
                &&& r == Ok::<Position, LayoutError>(new_pos)
                &&& final(self).stack_of_boxes@ == old(self).stack_of_boxes@.update(
                    old(self).stack_of_boxes@.len() - 1,
                    (TWBox { box_cursor_pos: Some(new_pos), ..top }),
                )
                &&& Self::spec_same_but_stack(*old(self), *final(self))
            }),
    {
        let n = self.stack_of_boxes.len();
        if n == 0 {
            return Err(LayoutError::new(LayoutErrorType::StackShouldNotBeEmpty));
        }
        let cursor_opt = self.stack_of_boxes[n - 1].box_cursor_pos;
        match cursor_opt {
            None => Err(LayoutError::new(LayoutErrorType::ErrorCalculatingNextBoxPos)),
            Some(box_cursor_pos) => {
                let dir = self.stack_of_boxes[n - 1].dir;
                let new_pos = match dir {
                    Direction::Horizontal => Position {
                        col: unit_add(box_cursor_pos.col, allocated_size.width),
                        row: box_cursor_pos.row,
                    },
                    Direction::Vertical => Position {
                        col: box_cursor_pos.col,
                        row: unit_add(box_cursor_pos.row, allocated_size.height),
                    },
                };
                let top = &mut self.stack_of_boxes[n - 1];
                top.box_cursor_pos = Some(new_pos);
                Ok(new_pos)
            },
        }
    }

    /// Returns where the next line of content goes inside the current box
    /// (initializing the content cursor to the box-relative origin if it was
    /// unset) and advances the cursor by the content size. Fails with
    /// [`LayoutErrorType::StackShouldNotBeEmpty`] iff no box is open.
    pub fn calc_where_to_insert_new_content_in_box(&mut self, content_size: Size) -> (r:
        CommonResult<Position>)
        ensures
            old(self).stack_of_boxes@.len() == 0 ==> r is Err && r->Err_0.err_type
                == LayoutErrorType::StackShouldNotBeEmpty && *final(self) == *old(self),
            old(self).stack_of_boxes@.len() > 0 ==> ({
                let top = old(self).stack_of_boxes@.last();
                let current = spec_content_start(top);
                let new_pos = Position {
                    col: sat_add_unit(current.col, content_size.width),
                    row: sat_add_unit(current.row, content_size.height),
                };
                &&& r == Ok::<Position, LayoutError>(current)
                &&& final(self).stack_of_boxes@ == old(self).stack_of_boxes@.update(
                    old(self).stack_of_boxes@.len() - 1,
                    (TWBox { content_cursor_pos: Some(new_pos), ..top }),
                )
                &&& Self::spec_same_but_stack(*old(self), *final(self))
            }),
    {
        let n = self.stack_of_boxes.len();
        if n == 0 {
            return Err(LayoutError::new(LayoutErrorType::StackShouldNotBeEmpty));
        }
        let current = match self.stack_of_boxes[n - 1].content_cursor_pos {
            Some(p) => p,
            None => Position { col: 0, row: 0 },
        };
        let new_pos = current.add_size(content_size);
        let top = &mut self.stack_of_boxes[n - 1];
        top.content_cursor_pos = Some(new_pos);
        Ok(current)
    }

    /// What pushing the root box leaves behind: the area's fields untouched,
    /// one new box sized against the area, positioned at the area origin,
    /// with its box cursor started there.
    pub open spec fn spec_root_box_pushed(pre: TWArea, post: TWArea, props: TWBoxProps) -> bool {
        &&& post.stack_of_boxes@.len() == pre.stack_of_boxes@.len() + 1
        &&& post.stack_of_boxes@.drop_last() == pre.stack_of_boxes@
        &&& ({
            let b = post.stack_of_boxes@.last();
            &&& b.id == props.id
            &&& b.dir == props.dir
            &&& b.origin_pos == pre.origin_pos
            &&& b.bounds_size == (Size {
                width: spec_calc_percentage(props.req_size.width, pre.box_size.width),
                height: spec_calc_percentage(props.req_size.height, pre.box_size.height),
            })
            &&& b.req_size_percent == props.req_size
            &&& b.box_cursor_pos == Some(pre.origin_pos)
            &&& b.content_cursor_pos is None
            &&& spec_computed_style_ok(b.computed_style, props.styles)
        })
        &&& Self::spec_same_but_stack(pre, post)
    }

    /// What pushing a child box leaves behind: the container's box cursor
    /// advanced along its flow axis, and one new box sized against the
    /// container, placed at the cursor's previous position and adjusted by
    /// its computed style's margin.
    pub open spec fn spec_child_box_pushed(pre: TWArea, post: TWArea, props: TWBoxProps) -> bool {
        let n = pre.stack_of_boxes@.len();
        let top = pre.stack_of_boxes@.last();
        let container_bounds = top.bounds_size;
        let alloc = Size {
            width: spec_calc_percentage(props.req_size.width, container_bounds.width),
            height: spec_calc_percentage(props.req_size.height, container_bounds.height),
        };
        let new_cursor = spec_next_box_cursor(top.box_cursor_pos->0, alloc, top.dir);
        &&& post.stack_of_boxes@.len() == n + 1
        &&& post.stack_of_boxes@.drop_last() == pre.stack_of_boxes@.update(
            n - 1,
            (TWBox { box_cursor_pos: Some(new_cursor), ..top }),
        )
        &&& ({
            let b = post.stack_of_boxes@.last();
            let margin = spec_style_margin(b.computed_style);
            &&& b.id == props.id
            &&& b.dir == props.dir
            &&& b.origin_pos == spec_margin_adjusted_origin(top.box_cursor_pos->0, margin)
            &&& b.bounds_size == spec_margin_adjusted_bounds(alloc, margin)
            &&& b.req_size_percent == props.req_size
            &&& b.box_cursor_pos is None
            &&& b.content_cursor_pos is None
            &&& spec_computed_style_ok(b.computed_style, props.styles)
        })
        &&& Self::spec_same_but_stack(pre, post)
    }

    /// Pushes the root box: explicitly sized against the area and positioned
    /// at the area origin. The supplied styles are cascaded into the box's
    /// computed style.
    pub fn add_root_box(&mut self, props: TWBoxProps) -> (r: CommonResult<()>)
        requires
            props.req_size.is_valid(),
        ensures
            r is Ok,
            Self::spec_root_box_pushed(*old(self), *final(self), props),
    {
        let TWBoxProps { id, dir, req_size, styles } = props;
        let computed_style = Stylesheet::compute(styles);
        let b = TWBox::make_root_box(
            id,
            self.box_size,
            self.origin_pos,
            req_size.width,
            req_size.height,
            dir,
            computed_style,
        );
        self.stack_of_boxes.push(b);
        proof {
            assert(self.stack_of_boxes@.drop_last() =~= old(self).stack_of_boxes@);
        }
        Ok(())
    }

    /// Pushes a child box of the current box: sized against the container,
    /// placed at the container's box cursor, which is advanced along the
    /// container's flow axis before the child is pushed. Fails with
    /// [`LayoutErrorType::BoxCursorPositionUndefined`] iff the container's
    /// cursor is unset, and with [`LayoutErrorType::StackShouldNotBeEmpty`]
    /// iff no box is open; the engine is unchanged on failure.
    pub fn add_box(&mut self, props: TWBoxProps) -> (r: CommonResult<()>)
        requires
            props.req_size.is_valid(),
        ensures
            old(self).stack_of_boxes@.len() == 0 ==> r is Err && r->Err_0.err_type
                == LayoutErrorType::StackShouldNotBeEmpty && *final(self) == *old(self),
            old(self).stack_of_boxes@.len() > 0 && old(self).stack_of_boxes@.last().box_cursor_pos
                is None ==> r is Err && r->Err_0.err_type
                == LayoutErrorType::BoxCursorPositionUndefined && *final(self) == *old(self),
            old(self).stack_of_boxes@.len() > 0 && old(self).stack_of_boxes@.last().box_cursor_pos
                is Some ==> r is Ok && Self::spec_child_box_pushed(*old(self), *final(self), props),
    {
        let n = self.stack_of_boxes.len();
        if n == 0 {
            return Err(LayoutError::new(LayoutErrorType::StackShouldNotBeEmpty));
        }
        let cursor_opt = self.stack_of_boxes[n - 1].box_cursor_pos;
        let old_position = match cursor_opt {
            Some(p) => p,
            None => {
                return Err(LayoutError::new(LayoutErrorType::BoxCursorPositionUndefined));
            },
        };
        let container_bounds = self.stack_of_boxes[n - 1].bounds_size;
        let requested_size_allocation = container_bounds.scale(
            props.req_size.width,
            props.req_size.height,
        );
        match self.calc_where_to_insert_new_box_in_tw_area(requested_size_allocation) {
            Ok(_) => {},
            Err(e) => {
                return Err(e);
            },
        }
        let TWBoxProps { id, dir, req_size, styles } = props;
        let computed_style = Stylesheet::compute(styles);
        let b = TWBox::make_box(
            id,
            dir,
            container_bounds,
            old_position,
            req_size.width,
            req_size.height,
            computed_style,
        );
        self.stack_of_boxes.push(b);
        proof {
            assert(self.stack_of_boxes@.drop_last() =~= old(self).stack_of_boxes@.update(
                n - 1,
                self.stack_of_boxes@[n - 1],
            ));
        }
        Ok(())
    }

    /// Adds a new box on the stack with the given direction, requested size
    /// percentages and styles: the root box when the stack is empty, a child
    /// of the current box otherwise.
    pub fn box_start(&mut self, tw_box_props: TWBoxProps) -> (r: CommonResult<()>)
        requires
            tw_box_props.req_size.is_valid(),
        ensures
            old(self).stack_of_boxes@.len() == 0 ==> r is Ok && Self::spec_root_box_pushed(
                *old(self),
                *final(self),
                tw_box_props,
            ),
            old(self).stack_of_boxes@.len() > 0 && old(self).stack_of_boxes@.last().box_cursor_pos
                is None ==> r is Err && r->Err_0.err_type
                == LayoutErrorType::BoxCursorPositionUndefined && *final(self) == *old(self),
            old(self).stack_of_boxes@.len() > 0 && old(self).stack_of_boxes@.last().box_cursor_pos
                is Some ==> r is Ok && Self::spec_child_box_pushed(
                *old(self),
                *final(self),
                tw_box_props,
            ),
    {
        if self.stack_of_boxes.is_empty() {
            self.add_root_box(tw_box_props)
        } else {
            self.add_box(tw_box_props)
        }
    }

    /// The command triple queued for one printed line: a cursor move to the
    /// absolute position, the box's colors, then the text with attributes.
    pub open spec fn spec_print_triple(
        cmds: Seq<TWCommand>,
        base: int,
        abs_pos: Position,
        style: Option<Style>,
        text: Seq<char>,
    ) -> bool {
        &&& cmds[base] == (TWCommand::MoveCursorPosition(abs_pos.col, abs_pos.row))
        &&& cmds[base + 1] == (TWCommand::ApplyColors(style))
        &&& match cmds[base + 2] {
            TWCommand::PrintWithAttributes(t, s) => t@ == text && s == style,
            _ => false,
        }
    }

    /// The absolute position of the `k`-th printed line: the box origin plus
    /// the content cursor, whose row advances by one per line. (Column
    /// advance is deferred: text width and wrapping are out of scope.)
    pub open spec fn spec_print_line_pos(top: TWBox, k: int) -> Position {
        let start = spec_content_start(top);
        Position {
            col: sat_add_unit(top.origin_pos.col, start.col),
            row: sat_add_unit(top.origin_pos.row, spec_row_plus(start.row, k)),
        }
    }

    /// Prints each line into the current box: queues a move-cursor,
    /// apply-style and print command triple per line and advances the box's
    /// content cursor one row per line. Fails with
    /// [`LayoutErrorType::StackShouldNotBeEmpty`] iff there is at least one
    /// line and no box is open; with no lines it is a no-op.
    pub fn print_inside_box(&mut self, text_vec: Vec<&str>) -> (r: CommonResult<()>)
        ensures
            text_vec@.len() == 0 ==> r is Ok && *final(self) == *old(self),
            text_vec@.len() > 0 && old(self).stack_of_boxes@.len() == 0 ==> r is Err
                && r->Err_0.err_type == LayoutErrorType::StackShouldNotBeEmpty && *final(self)
                == *old(self),
            text_vec@.len() > 0 && old(self).stack_of_boxes@.len() > 0 ==> ({
                let top = old(self).stack_of_boxes@.last();
                let start = spec_content_start(top);
                let nlines = text_vec@.len() as int;
                let base = old(self).render_buffer.queue@.len() as int;
                &&& r is Ok
                &&& final(self).render_buffer.queue@.len() == base + 3 * nlines
                &&& final(self).render_buffer.queue@.subrange(0, base) == old(
                    self,
                ).render_buffer.queue@
                &&& (forall|k: int|
                    0 <= k < nlines ==> Self::spec_print_triple(
                        final(self).render_buffer.queue@,
                        base + 3 * k,
                        Self::spec_print_line_pos(top, k),
                        top.computed_style,
                        text_vec@[k]@,
                    ))
                &&& final(self).stack_of_boxes@ == old(self).stack_of_boxes@.update(
                    old(self).stack_of_boxes@.len() - 1,
                    (TWBox {
                        content_cursor_pos: Some(
                            Position { col: start.col, row: spec_row_plus(start.row, nlines) },
                        ),
                        ..top
                    }),
                )
                &&& final(self).origin_pos == old(self).origin_pos
                &&& final(self).box_size == old(self).box_size
                &&& final(self).stylesheet == old(self).stylesheet
            }),
    {
        let nlines = text_vec.len();
        if nlines == 0 {
            return Ok(());
        }
        let n_boxes = self.stack_of_boxes.len();
        if n_boxes == 0 {
            return Err(LayoutError::new(LayoutErrorType::StackShouldNotBeEmpty));
        }
        let ghost top = self.stack_of_boxes@.last();
        let ghost start = spec_content_start(top);
        let ghost base = self.render_buffer.queue@.len() as int;
        let mut k: usize = 0;
        while k < nlines
            invariant
                k <= nlines,
                nlines == text_vec@.len(),
                0 < n_boxes == old(self).stack_of_boxes@.len(),
                top == old(self).stack_of_boxes@.last(),
                start == spec_content_start(top),
                base == old(self).render_buffer.queue@.len() as int,
                self.stack_of_boxes@ == (if k == 0 {
                    old(self).stack_of_boxes@
                } else {
                    old(self).stack_of_boxes@.update(
                        n_boxes - 1,
                        (TWBox {
                            content_cursor_pos: Some(
                                Position {
                                    col: start.col,
                                    row: spec_row_plus(start.row, k as int),
                                },
                            ),
                            ..top
                        }),
                    )
                }),
                self.render_buffer.queue@.len() == base + 3 * k,
                self.render_buffer.queue@.subrange(0, base) == old(self).render_buffer.queue@,
                forall|j: int|
                    0 <= j < k ==> Self::spec_print_triple(
                        self.render_buffer.queue@,
                        base + 3 * j,
                        Self::spec_print_line_pos(top, j),
                        top.computed_style,
                        text_vec@[j]@,
                    ),
                self.origin_pos == old(self).origin_pos,
                self.box_size == old(self).box_size,
                self.stylesheet == old(self).stylesheet,
            decreases nlines - k,
        {
            let ghost queue_before = self.render_buffer.queue@;
            proof {
                assert(self.stack_of_boxes@.last().origin_pos == top.origin_pos);
                assert(self.stack_of_boxes@.last().computed_style == top.computed_style);
                assert(spec_content_start(self.stack_of_boxes@.last()) == (Position {
                    col: start.col,
                    row: spec_row_plus(start.row, k as int),
                }));
            }
            let content_relative_pos = match self.calc_where_to_insert_new_content_in_box(
                Size { width: 0, height: 1 },
            ) {
                Ok(p) => p,
                Err(e) => {
                    return Err(e);
                },
            };
            proof {
                assert(sat_add_unit(start.col, 0) == start.col);
                assert(sat_add_unit(spec_row_plus(start.row, k as int), 1) == spec_row_plus(
                    start.row,
                    k as int + 1,
                ));
            }
            let nb = self.stack_of_boxes.len();
            let box_origin_pos = self.stack_of_boxes[nb - 1].origin_pos;
            let new_absolute_pos = box_origin_pos.add_pos(content_relative_pos);
            let style_for_colors = self.stack_of_boxes[nb - 1].get_computed_style();
            let style_for_print = self.stack_of_boxes[nb - 1].get_computed_style();
            self.render_buffer.push(
                TWCommand::MoveCursorPosition(new_absolute_pos.col, new_absolute_pos.row),
            );
            self.render_buffer.push(TWCommand::ApplyColors(style_for_colors));
            self.render_buffer.push(
                TWCommand::PrintWithAttributes(text_vec[k].to_owned(), style_for_print),
            );
            proof {
                assert(self.render_buffer.queue@.subrange(0, base) =~= old(
                    self,
                ).render_buffer.queue@);
                assert(Self::spec_print_triple(
                    self.render_buffer.queue@,
                    base + 3 * (k as int),
                    Self::spec_print_line_pos(top, k as int),
                    top.computed_style,
                    text_vec@[k as int]@,
                ));
                assert forall|j: int|
                    0 <= j < k implies Self::spec_print_triple(
                    self.render_buffer.queue@,
                    base + 3 * j,
                    Self::spec_print_line_pos(top, j),
                    top.computed_style,
                    text_vec@[j]@,
                ) by {
                    assert(self.render_buffer.queue@[base + 3 * j] == queue_before[base + 3 * j]);
                    assert(self.render_buffer.queue@[base + 3 * j + 1] == queue_before[base + 3 * j
                        + 1]);
                    assert(self.render_buffer.queue@[base + 3 * j + 2] == queue_before[base + 3 * j
                        + 2]);
                }
            }
            k += 1;
        }
        Ok(())
    }
}

/// One step of the box nesting protocol: a `box_start` call (which pushes
/// exactly one box) or a `box_end` call (which pops exactly one, and fails
/// with `MismatchedBoxEnd` exactly when the stack is empty).
pub enum BoxNesting {
    Start,
    End,
}

/// The stack depth the nesting protocol reaches after `ops`, starting from
/// `depth` open boxes — or `None` if some `End` meets an empty stack, which
/// is exactly the `MismatchedBoxEnd` case of [`TWArea::box_end`].
pub open spec fn spec_run_nesting(depth: int, ops: Seq<BoxNesting>) -> Option<int>
    decreases ops.len(),
{
    if ops.len() == 0 {
        Some(depth)
    } else {
        match ops[0] {
            BoxNesting::Start => spec_run_nesting(depth + 1, ops.drop_first()),
            BoxNesting::End => if depth == 0 {
                None
            } else {
                spec_run_nesting(depth - 1, ops.drop_first())
            },
        }
    }
}

/// Net number of boxes a sequence of nesting steps opens.
pub open spec fn spec_nesting_sum(ops: Seq<BoxNesting>) -> int
    decreases ops.len(),
{
    if ops.len() == 0 {
        0
    } else {
        (if ops[0] is Start {
            1int
        } else {
            -1int
        }) + spec_nesting_sum(ops.drop_first())
    }
}

/// Well-formed nesting under one area pass: no prefix closes more boxes than
/// were opened before it, and the whole sequence closes every box it opens.
pub open spec fn spec_well_nested(ops: Seq<BoxNesting>) -> bool {
    &&& (forall|i: int| 0 <= i <= ops.len() ==> spec_nesting_sum(#[trigger] ops.take(i)) >= 0)
    &&& spec_nesting_sum(ops) == 0
}

proof fn lemma_run_nesting_general(depth: int, ops: Seq<BoxNesting>)
    requires
        depth >= 0,
        forall|i: int|
            0 <= i <= ops.len() ==> depth + spec_nesting_sum(#[trigger] ops.take(i)) >= 0,
    ensures
        spec_run_nesting(depth, ops) == Some(depth + spec_nesting_sum(ops)),
    decreases ops.len(),
{
    if ops.len() == 0 {
    } else {
        let rest = ops.drop_first();
        assert forall|i: int|
            0 <= i <= rest.len() implies spec_nesting_sum(#[trigger] rest.take(i))
            == spec_nesting_sum(ops.take(i + 1)) - (if ops[0] is Start {
            1int
        } else {
            -1int
        }) by {
            assert(ops.take(i + 1).drop_first() =~= rest.take(i));
            assert(ops.take(i + 1)[0] == ops[0]);
        }
        assert(ops.take(ops.len() as int) =~= ops);
        match ops[0] {
            BoxNesting::Start => {
                lemma_run_nesting_general(depth + 1, rest);
            },
            BoxNesting::End => {
                assert(rest.take(0) =~= Seq::<BoxNesting>::empty());
                assert(spec_nesting_sum(rest.take(0)) == 0);
                assert(spec_nesting_sum(ops.take(1)) == -1);
                assert(depth >= 1);
                lemma_run_nesting_general(depth - 1, rest);
            },
        }
    }
}

/// Stack discipline, first half: for any well-formed sequence of
/// `box_start`/`box_end` steps nested under one `area_start`/`area_end`, no
/// `box_end` ever meets an empty stack and the stack is empty exactly at the
/// end — the state [`TWArea::area_end`] requires for success.
pub proof fn lemma_stack_discipline(ops: Seq<BoxNesting>)
    requires
        spec_well_nested(ops),
    ensures
        spec_run_nesting(0, ops) == Some(0int),
{
    assert(ops.take(ops.len() as int) =~= ops);
    lemma_run_nesting_general(0, ops);
}

/// Stack discipline, second half: a sequence with an unmatched `box_end`
/// (some prefix closes more boxes than were opened) runs into the
/// `MismatchedBoxEnd` failure.
pub proof fn lemma_unmatched_box_end(depth: int, ops: Seq<BoxNesting>, i: int)
    requires
        depth >= 0,
        0 <= i <= ops.len(),
        depth + spec_nesting_sum(ops.take(i)) < 0,
    ensures
        spec_run_nesting(depth, ops) is None,
    decreases ops.len(),
{
    assert(ops.take(0) =~= Seq::<BoxNesting>::empty());
    assert(i != 0);
    let rest = ops.drop_first();
    assert(ops.take(i).drop_first() =~= rest.take(i - 1));
    assert(ops.take(i)[0] == ops[0]);
    match ops[0] {
        BoxNesting::Start => {
            lemma_unmatched_box_end(depth + 1, rest, i - 1);
        },
        BoxNesting::End => {
            if depth > 0 {
                lemma_unmatched_box_end(depth - 1, rest, i - 1);
            }
        },
    }
}

} // verus!
