use tui_core::dimens::Position;
use tui_core::focus::StateManageFocusData;
use tui_core::sample_app::AppState;

#[test]
fn test_focus_id_round_trip() {
    let mut focus = StateManageFocusData::new();
    assert_eq!(focus.get_focus_id(), "");
    focus.set_focus_id("col_1");
    assert_eq!(focus.get_focus_id(), "col_1");
    focus.set_focus_id("col_2");
    assert_eq!(focus.get_focus_id(), "col_2");
}

#[test]
fn test_cursor_position_map() {
    let mut focus = StateManageFocusData::default();
    assert_eq!(focus.get_cursor_position_for_id("col_1"), None);

    focus.set_cursor_position_for_id("col_1", Some(Position { col: 1, row: 2 }));
    focus.set_cursor_position_for_id("col_2", Some(Position { col: 3, row: 4 }));
    assert_eq!(focus.get_cursor_position_for_id("col_1"), Some(Position { col: 1, row: 2 }));
    assert_eq!(focus.get_cursor_position_for_id("col_2"), Some(Position { col: 3, row: 4 }));

    // Updating one id leaves the other untouched.
    focus.set_cursor_position_for_id("col_1", Some(Position { col: 9, row: 9 }));
    assert_eq!(focus.get_cursor_position_for_id("col_1"), Some(Position { col: 9, row: 9 }));
    assert_eq!(focus.get_cursor_position_for_id("col_2"), Some(Position { col: 3, row: 4 }));

    // An entry can explicitly hold no cursor.
    focus.set_cursor_position_for_id("col_1", None);
    assert_eq!(focus.get_cursor_position_for_id("col_1"), None);
    assert_eq!(focus.cursor_position_map.len(), 2);
}

#[test]
fn test_app_state_focus() {
    let mut state = AppState::default();
    assert_eq!(state.stack, vec![0]);
    assert_eq!(state.get_focus_id(), "");
    state.set_focus_id("col_2".to_string());
    assert_eq!(state.get_focus_id(), "col_2");
    assert_eq!(state.stack, vec![0]);
}
