use tui_core::dimens::Size;
use tui_core::style::{Style, TWColor};
use tui_core::tw_command::{
    append_quit_msg_center_bottom, TWAttribute, TWCommand, TWCommandQueue, TerminalOp,
};

#[test]
fn test_queue_flush_preserves_push_order() {
    let mut queue = TWCommandQueue::default();
    queue.push(TWCommand::SetFgColor(TWColor::Red));
    queue.push(TWCommand::MoveCursorPosition(3, 7));
    queue.push(TWCommand::ClearScreen);
    let ops = queue.flush();
    assert_eq!(
        ops,
        vec![
            TerminalOp::SetFgColor(TWColor::Red),
            TerminalOp::MoveTo(3, 7),
            TerminalOp::ClearAll,
            TerminalOp::Flush,
        ]
    );
}

#[test]
fn test_flush_enter_raw_mode_flushes_inline() {
    let mut queue = TWCommandQueue::default();
    queue.push(TWCommand::EnterRawMode);
    queue.push(TWCommand::ClearScreen);
    let ops = queue.flush();
    // The mode change flushes inline, and the paint op queued after it is
    // still covered by the final flush of the batch.
    assert_eq!(
        ops,
        vec![
            TerminalOp::EnableRawMode,
            TerminalOp::EnableMouseCapture,
            TerminalOp::EnterAlternateScreen,
            TerminalOp::MoveTo(0, 0),
            TerminalOp::ClearAll,
            TerminalOp::CursorHide,
            TerminalOp::Flush,
            TerminalOp::ClearAll,
            TerminalOp::Flush,
        ]
    );
}

#[test]
fn test_flush_exit_raw_mode() {
    let mut queue = TWCommandQueue::default();
    queue.push(TWCommand::CursorShow);
    queue.push(TWCommand::ExitRawMode);
    let ops = queue.flush();
    assert_eq!(
        ops,
        vec![
            TerminalOp::CursorShow,
            TerminalOp::CursorShow,
            TerminalOp::LeaveAlternateScreen,
            TerminalOp::DisableMouseCapture,
            TerminalOp::Flush,
            TerminalOp::DisableRawMode,
            TerminalOp::Flush,
        ]
    );
}

#[test]
fn test_flush_apply_colors() {
    let style = Style {
        id: "palette".to_string(),
        color_fg: Some(TWColor::Green),
        color_bg: Some(TWColor::Black),
        ..Style::default()
    };
    let mut queue = TWCommandQueue::default();
    queue.push(TWCommand::ApplyColors(Some(style)));
    queue.push(TWCommand::ApplyColors(None));
    let ops = queue.flush();
    assert_eq!(
        ops,
        vec![
            TerminalOp::SetBgColor(TWColor::Black),
            TerminalOp::SetFgColor(TWColor::Green),
            TerminalOp::Flush,
        ]
    );
}

#[test]
fn test_flush_print_with_attributes() {
    let style = Style {
        id: "loud".to_string(),
        bold: true,
        underline: true,
        ..Style::default()
    };
    let mut queue = TWCommandQueue::default();
    queue.push(TWCommand::PrintWithAttributes("hello".to_string(), Some(style)));
    queue.push(TWCommand::PrintWithAttributes("plain".to_string(), None));
    let ops = queue.flush();
    assert_eq!(
        ops,
        vec![
            TerminalOp::SetAttribute(TWAttribute::Bold),
            TerminalOp::SetAttribute(TWAttribute::Underlined),
            TerminalOp::Print("hello".to_string()),
            TerminalOp::SetAttribute(TWAttribute::Reset),
            TerminalOp::Print("plain".to_string()),
            TerminalOp::Flush,
        ]
    );
}

#[test]
fn test_flush_print_without_toggles_needs_no_reset() {
    let style = Style {
        id: "calm".to_string(),
        color_fg: Some(TWColor::White),
        ..Style::default()
    };
    let mut queue = TWCommandQueue::default();
    queue.push(TWCommand::PrintWithAttributes("quiet".to_string(), Some(style)));
    let ops = queue.flush();
    assert_eq!(ops, vec![TerminalOp::Print("quiet".to_string()), TerminalOp::Flush]);
}

#[test]
fn test_queue_join_keeps_both_orders() {
    let mut first = TWCommandQueue::default();
    first.push(TWCommand::CursorHide);
    let mut second = TWCommandQueue::default();
    second.push(TWCommand::ResetColor);
    second.push(TWCommand::CursorShow);
    first.join(second);
    assert_eq!(
        first.queue,
        vec![TWCommand::CursorHide, TWCommand::ResetColor, TWCommand::CursorShow]
    );
}

#[test]
fn test_append_quit_msg_center_bottom() {
    let mut queue = TWCommandQueue::default();
    append_quit_msg_center_bottom(&mut queue, Size { width: 500, height: 500 });
    assert_eq!(queue.queue.len(), 2);
    // Column 500/2 - 23/2 = 239, bottom row 499.
    assert_eq!(queue.queue[0], TWCommand::MoveCursorPosition(239, 499));
    assert_eq!(
        queue.queue[1],
        TWCommand::PrintWithAttributes("Press Ctrl + q to exit!".to_string(), None)
    );
}

#[test]
fn test_append_quit_msg_tiny_screen_clamps() {
    let mut queue = TWCommandQueue::default();
    append_quit_msg_center_bottom(&mut queue, Size { width: 10, height: 0 });
    // 10/2 is smaller than half the message, and there is no bottom row.
    assert_eq!(queue.queue[0], TWCommand::MoveCursorPosition(0, 0));
}
