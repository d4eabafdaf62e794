//! Abstract paint instruction set and the ordered buffer that holds it.
//!
//! A [`TWCommandQueue`] accumulates [`TWCommand`]s in FIFO order during one
//! layout pass. [`TWCommandQueue::flush`] translates the whole queue, in push
//! order, into the flat sequence of primitive [`TerminalOp`]s that a terminal
//! driver executes one by one; the core decides *what* to emit, never how the
//! escape sequences are produced. Raw-mode toggles force an immediate flush of
//! everything queued before them, so mode changes are never batched together
//! with pending paint operations.

use vstd::prelude::*;

use crate::dimens::{sat_sub_unit, unit_sub, Size, UnitType};
use crate::style::{Style, StyleSpec, TWColor};

verus! {

/// One abstract paint or terminal-mode instruction.
#[derive(Clone, PartialEq, Eq, Debug)]
pub enum TWCommand {
    EnterRawMode,
    ExitRawMode,
    /// (column, row).
    MoveCursorPosition(UnitType, UnitType),
    ClearScreen,
    SetFgColor(TWColor),
    SetBgColor(TWColor),
    ResetColor,
    /// Emits the color-setting operations implied by a computed style.
    ApplyColors(Option<Style>),
    /// Emits attribute toggles, prints the text, then resets the attributes
    /// if any were set.
    PrintWithAttributes(String, Option<Style>),
    CursorShow,
    CursorHide,
}

/// A boolean attribute a terminal driver can toggle.
#[derive(Copy, Clone, PartialEq, Eq, Structural, Debug)]
pub enum TWAttribute {
    Bold,
    Dim,
    Underlined,
    Reverse,
    Hidden,
    Strikethrough,
    /// Clears every attribute set so far.
    Reset,
}

/// One primitive call into the terminal driver. This is the whole vocabulary
/// the core ever asks a driver to execute.
#[derive(Clone, PartialEq, Eq, Debug)]
pub enum TerminalOp {
    EnableRawMode,
    DisableRawMode,
    EnableMouseCapture,
    DisableMouseCapture,
    EnterAlternateScreen,
    LeaveAlternateScreen,
    /// (column, row).
    MoveTo(UnitType, UnitType),
    ClearAll,
    SetFgColor(TWColor),
    SetBgColor(TWColor),
    ResetColor,
    SetAttribute(TWAttribute),
    Print(String),
    CursorShow,
    CursorHide,
    /// Pushes everything queued so far out to the output stream.
    Flush,
}

/// The color-setting operations implied by a computed style: background
/// first, then foreground, each only when present.
pub open spec fn spec_apply_colors_ops(s: StyleSpec) -> Seq<TerminalOp> {
    (match s.color_bg {
        Some(c) => seq![TerminalOp::SetBgColor(c)],
        None => Seq::<TerminalOp>::empty(),
    }) + (match s.color_fg {
        Some(c) => seq![TerminalOp::SetFgColor(c)],
        None => Seq::<TerminalOp>::empty(),
    })
}

/// The attribute toggles implied by a style, in a fixed order: bold, dim,
/// underline, reverse, hidden, strikethrough.
pub open spec fn spec_attr_ops(s: StyleSpec) -> Seq<TerminalOp> {
    (if s.bold {
        seq![TerminalOp::SetAttribute(TWAttribute::Bold)]
    } else {
        Seq::<TerminalOp>::empty()
    }) + (if s.dim {
        seq![TerminalOp::SetAttribute(TWAttribute::Dim)]
    } else {
        Seq::<TerminalOp>::empty()
    }) + (if s.underline {
        seq![TerminalOp::SetAttribute(TWAttribute::Underlined)]
    } else {
        Seq::<TerminalOp>::empty()
    }) + (if s.reverse {
        seq![TerminalOp::SetAttribute(TWAttribute::Reverse)]
    } else {
        Seq::<TerminalOp>::empty()
    }) + (if s.hidden {
        seq![TerminalOp::SetAttribute(TWAttribute::Hidden)]
    } else {
        Seq::<TerminalOp>::empty()
    }) + (if s.strikethrough {
        seq![TerminalOp::SetAttribute(TWAttribute::Strikethrough)]
    } else {
        Seq::<TerminalOp>::empty()
    })
}

/// The driver operations one command translates to.
pub open spec fn spec_translate(cmd: TWCommand) -> Seq<TerminalOp> {
    match cmd {
        TWCommand::EnterRawMode => seq![
            TerminalOp::EnableRawMode,
            TerminalOp::EnableMouseCapture,
            TerminalOp::EnterAlternateScreen,
            TerminalOp::MoveTo(0, 0),
            TerminalOp::ClearAll,
            TerminalOp::CursorHide,
            TerminalOp::Flush,
        ],
        TWCommand::ExitRawMode => seq![
            TerminalOp::CursorShow,
            TerminalOp::LeaveAlternateScreen,
            TerminalOp::DisableMouseCapture,
            TerminalOp::Flush,
            TerminalOp::DisableRawMode,
        ],
        TWCommand::MoveCursorPosition(col, row) => seq![TerminalOp::MoveTo(col, row)],
        TWCommand::ClearScreen => seq![TerminalOp::ClearAll],
        TWCommand::SetFgColor(c) => seq![TerminalOp::SetFgColor(c)],
        TWCommand::SetBgColor(c) => seq![TerminalOp::SetBgColor(c)],
        TWCommand::ResetColor => seq![TerminalOp::ResetColor],
        TWCommand::ApplyColors(style) => match style {
            Some(s) => spec_apply_colors_ops(s@),
            None => Seq::<TerminalOp>::empty(),
        },
        TWCommand::PrintWithAttributes(text, style) => match style {
            Some(s) => {
                let attrs = spec_attr_ops(s@);
                if attrs.len() > 0 {
                    attrs.push(TerminalOp::Print(text)).push(
                        TerminalOp::SetAttribute(TWAttribute::Reset),
                    )
                } else {
                    seq![TerminalOp::Print(text)]
                }
            },
            None => seq![TerminalOp::Print(text)],
        },
        TWCommand::CursorShow => seq![TerminalOp::CursorShow],
        TWCommand::CursorHide => seq![TerminalOp::CursorHide],
    }
}

/// The translation of a whole queue: each command's operations, in push order.
pub open spec fn spec_translate_all(q: Seq<TWCommand>) -> Seq<TerminalOp>
    decreases q.len(),
{
    if q.len() == 0 {
        Seq::<TerminalOp>::empty()
    } else {
        spec_translate_all(q.drop_last()) + spec_translate(q.last())
    }
}

/// What flushing a queue hands to the driver: the translation of every
/// command in push order, always followed by one final output-stream flush.
/// (Raw-mode toggles additionally carry an inline flush of their own, so a
/// mode change is never batched with the paint operations around it.)
pub open spec fn spec_flush_ops(q: Seq<TWCommand>) -> Seq<TerminalOp> {
    spec_translate_all(q).push(TerminalOp::Flush)
}

/// Queue-order law: translation distributes over concatenation. Every
/// operation produced by a command pushed earlier precedes every operation
/// produced by a command pushed later.
pub proof fn lemma_translate_all_append(a: Seq<TWCommand>, b: Seq<TWCommand>)
    ensures
        spec_translate_all(a + b) == spec_translate_all(a) + spec_translate_all(b),
    decreases b.len(),
{
    if b.len() == 0 {
        assert(a + b =~= a);
        assert(spec_translate_all(a) + spec_translate_all(b) =~= spec_translate_all(a));
    } else {
        lemma_translate_all_append(a, b.drop_last());
        assert((a + b).drop_last() =~= a + b.drop_last());
        assert(spec_translate_all(a + b) == spec_translate_all(a) + (spec_translate_all(
            b.drop_last(),
        ) + spec_translate(b.last()))) by {
            assert(spec_translate_all(a) + spec_translate_all(b.drop_last()) + spec_translate(
                b.last(),
            ) =~= spec_translate_all(a) + (spec_translate_all(b.drop_last()) + spec_translate(
                b.last(),
            )));
        }
    }
}

/// Appends the color-setting operations of one computed style: background
/// first, then foreground, each only when present.
fn push_apply_colors_ops(ops: &mut Vec<TerminalOp>, style_val: &Style)
    ensures
        final(ops)@ == old(ops)@ + spec_apply_colors_ops(style_val@),
{
    let ghost prefix_ops = ops@;
    match style_val.color_bg {
        Some(c) => {
            ops.push(TerminalOp::SetBgColor(c));
        },
        None => {},
    }
    match style_val.color_fg {
        Some(c) => {
            ops.push(TerminalOp::SetFgColor(c));
        },
        None => {},
    }
    proof {
        assert(ops@ =~= prefix_ops + spec_apply_colors_ops(style_val@));
    }
}

/// Appends the operations of one styled print: the attribute toggles in
/// fixed order, the print itself, then an attribute reset if any toggle was
/// emitted.
fn push_print_with_attributes_ops(ops: &mut Vec<TerminalOp>, text: &String, style_val: &Style)
    ensures
        final(ops)@ == old(ops)@ + spec_translate(
            TWCommand::PrintWithAttributes(*text, Some(*style_val)),
        ),
{
    let ghost prefix_ops = ops@;
    let mut needs_reset = false;
    if style_val.bold {
        ops.push(TerminalOp::SetAttribute(TWAttribute::Bold));
        needs_reset = true;
    }
    if style_val.dim {
        ops.push(TerminalOp::SetAttribute(TWAttribute::Dim));
        needs_reset = true;
    }
    if style_val.underline {
        ops.push(TerminalOp::SetAttribute(TWAttribute::Underlined));
        needs_reset = true;
    }
    if style_val.reverse {
        ops.push(TerminalOp::SetAttribute(TWAttribute::Reverse));
        needs_reset = true;
    }
    if style_val.hidden {
        ops.push(TerminalOp::SetAttribute(TWAttribute::Hidden));
        needs_reset = true;
    }
    if style_val.strikethrough {
        ops.push(TerminalOp::SetAttribute(TWAttribute::Strikethrough));
        needs_reset = true;
    }
    proof {
        assert(ops@ =~= prefix_ops + spec_attr_ops(style_val@));
        assert(needs_reset <==> spec_attr_ops(style_val@).len() > 0);
    }
    ops.push(TerminalOp::Print(text.clone()));
    if needs_reset {
        ops.push(TerminalOp::SetAttribute(TWAttribute::Reset));
    }
    proof {
        assert(ops@ =~= prefix_ops + spec_translate(
            TWCommand::PrintWithAttributes(*text, Some(*style_val)),
        ));
    }
}

/// An ordered, append-only buffer of paint commands; push order is the
/// execution order.
#[derive(Clone, PartialEq, Eq, Debug)]
pub struct TWCommandQueue {
    pub queue: Vec<TWCommand>,
}

impl Default for TWCommandQueue {
    fn default() -> (r: TWCommandQueue)
        ensures
            r.queue@ == Seq::<TWCommand>::empty(),
    {
        TWCommandQueue { queue: Vec::new() }
    }
}

impl TWCommandQueue {
    pub fn new() -> (r: TWCommandQueue)
        ensures
            r.queue@ == Seq::<TWCommand>::empty(),
    {
        TWCommandQueue { queue: Vec::new() }
    }

    /// Appends one command at the end of the queue.
    pub fn push(&mut self, cmd_wrapper: TWCommand)
        ensures
            final(self).queue@ == old(self).queue@.push(cmd_wrapper),
    {
        self.queue.push(cmd_wrapper);
    }

    /// Appends every command of `other` after the commands of `self`,
    /// keeping both orders.
    pub fn join(&mut self, other: TWCommandQueue)
        ensures
            final(self).queue@ == old(self).queue@ + other.queue@,
    {
        let mut other_commands = other.queue;
        self.queue.append(&mut other_commands);
    }

    /// Translates the queue, in push order, into the driver operations to
    /// execute, closing the batch with one final output-stream flush.
    /// Raw-mode toggles additionally flush inline, so mode changes are never
    /// batched with pending paint operations.
    #[verifier::rlimit(100)]
    pub fn flush(&self) -> (ops: Vec<TerminalOp>)
        ensures
            ops@ == spec_flush_ops(self.queue@),
    {
        let mut ops: Vec<TerminalOp> = Vec::new();
        let n = self.queue.len();
        let mut i: usize = 0;
        while i < n
            invariant
                i <= n,
                n == self.queue@.len(),
                ops@ == spec_translate_all(self.queue@.take(i as int)),
            decreases n - i,
        {
            let ghost prefix_ops = ops@;
            proof {
                assert(self.queue@.take(i + 1).drop_last() =~= self.queue@.take(i as int));
                assert(self.queue@.take(i + 1).last() == self.queue@[i as int]);
            }
            let cmd = &self.queue[i];
            match cmd {
                TWCommand::EnterRawMode => {
                    ops.push(TerminalOp::EnableRawMode);
                    ops.push(TerminalOp::EnableMouseCapture);
                    ops.push(TerminalOp::EnterAlternateScreen);
                    ops.push(TerminalOp::MoveTo(0, 0));
                    ops.push(TerminalOp::ClearAll);
                    ops.push(TerminalOp::CursorHide);
                    ops.push(TerminalOp::Flush);
                },
                TWCommand::ExitRawMode => {
                    ops.push(TerminalOp::CursorShow);
                    ops.push(TerminalOp::LeaveAlternateScreen);
                    ops.push(TerminalOp::DisableMouseCapture);
                    ops.push(TerminalOp::Flush);
                    ops.push(TerminalOp::DisableRawMode);
                },
                TWCommand::MoveCursorPosition(col, row) => {
                    ops.push(TerminalOp::MoveTo(*col, *row));
                },
                TWCommand::ClearScreen => {
                    ops.push(TerminalOp::ClearAll);
                },
                TWCommand::SetFgColor(color) => {
                    ops.push(TerminalOp::SetFgColor(*color));
                },
                TWCommand::SetBgColor(color) => {
                    ops.push(TerminalOp::SetBgColor(*color));
                },
                TWCommand::ResetColor => {
                    ops.push(TerminalOp::ResetColor);
                },
                TWCommand::CursorShow => {
                    ops.push(TerminalOp::CursorShow);
                },
                TWCommand::CursorHide => {
                    ops.push(TerminalOp::CursorHide);
                },
                TWCommand::ApplyColors(style) => {
                    match style {
                        Some(style_val) => {
                            push_apply_colors_ops(&mut ops, style_val);
                        },
                        None => {},
                    }
                },
                TWCommand::PrintWithAttributes(text, style) => {
                    match style {
                        Some(style_val) => {
                            push_print_with_attributes_ops(&mut ops, text, style_val);
                        },
                        None => {
                            ops.push(TerminalOp::Print(text.clone()));
                        },
                    }
                },
            }
            proof {
                assert(ops@ =~= spec_translate_all(self.queue@.take(i as int)) + spec_translate(
                    self.queue@[i as int],
                ));
            }
            i += 1;
        }
        proof {
            assert(self.queue@.take(n as int) =~= self.queue@);
        }
        ops.push(TerminalOp::Flush);
        ops
    }
}

/// Appends the 'quit' hint, centered at the bottom of the given area: a
/// cursor move followed by an unstyled print of the message.
pub fn append_quit_msg_center_bottom(queue: &mut TWCommandQueue, size: Size)
    ensures
        final(queue).queue@.len() == old(queue).queue@.len() + 2,
        final(queue).queue@.subrange(0, old(queue).queue@.len() as int) == old(queue).queue@,
        final(queue).queue@[old(queue).queue@.len() as int] == (TWCommand::MoveCursorPosition(
            sat_sub_unit((size.width / 2) as UnitType, ("Press Ctrl + q to exit!"@.len() / 2) as UnitType),
            sat_sub_unit(size.height, 1),
        )),
        match final(queue).queue@[old(queue).queue@.len() as int + 1] {
            TWCommand::PrintWithAttributes(t, s) => t@ == "Press Ctrl + q to exit!"@ && s is None,
            _ => false,
        },
{
    let message = "Press Ctrl + q to exit!";
    proof {
        reveal_strlit("Press Ctrl + q to exit!");
        assert(message@.len() == 23);
    }
    let half_len: UnitType = 11;
    let col = unit_sub(size.width / 2, half_len);
    let row = unit_sub(size.height, 1);
    let ghost before = queue.queue@;
    queue.push(TWCommand::MoveCursorPosition(col, row));
    queue.push(TWCommand::PrintWithAttributes(message.to_owned(), None));
    proof {
        assert(queue.queue@.subrange(0, before.len() as int) =~= before);
    }
}

} // verus!
