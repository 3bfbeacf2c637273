use bbiribarabu::keys::{KeyCode, KeyEvent, KeyEventKind, KeyModifiers};
use bbiribarabu::ui::{
    Focus, InputMode, KeyContext, LogEntry, Notice, UiAction, UiState, VoiceSignal,
};

fn key(code: KeyCode) -> KeyEvent {
    KeyEvent {
        code,
        modifiers: KeyModifiers { ctrl: false, alt: false, shift: false },
        kind: KeyEventKind::Press,
    }
}

fn ctrl(code: KeyCode) -> KeyEvent {
    KeyEvent {
        code,
        modifiers: KeyModifiers { ctrl: true, alt: false, shift: false },
        kind: KeyEventKind::Press,
    }
}

fn ctx(list_len: usize, selected: Option<(&str, &str)>) -> KeyContext {
    KeyContext {
        list_len,
        selected: selected.map(|(id, text)| LogEntry { id: id.to_string(), text: text.to_string() }),
        log_inner_height: 5,
        input_inner_width: 40,
    }
}

fn log_panel() -> UiState {
    let mut ui = UiState::new();
    let out = ui.handle_key(key(KeyCode::Esc), &ctx(0, None));
    assert!(matches!(out.action, UiAction::Nothing));
    assert_eq!(ui.focus, Focus::LogInput);
    ui
}

fn type_text(ui: &mut UiState, text: &str, c: &KeyContext) {
    for ch in text.chars() {
        ui.handle_key(key(KeyCode::Char(ch)), c);
    }
}

#[test]
fn starts_in_the_terminal() {
    let ui = UiState::new();
    assert_eq!(ui.focus, Focus::Terminal);
    assert_eq!(ui.mode, InputMode::Normal);
    assert_eq!(ui.log_input.text(), "");
    assert!(!ui.voice_active);
}

#[test]
fn terminal_keys_are_sent_to_the_shell() {
    let mut ui = UiState::new();
    let c = ctx(0, None);
    match ui.handle_key(key(KeyCode::Char('q')), &c).action {
        UiAction::Send(bytes) => assert_eq!(bytes, b"q".to_vec()),
        other => panic!("{:?}", other),
    }
    match ui.handle_key(ctrl(KeyCode::Char('c')), &c).action {
        UiAction::Send(bytes) => assert_eq!(bytes, vec![0x03]),
        other => panic!("{:?}", other),
    }
    match ui.handle_key(key(KeyCode::Up), &c).action {
        UiAction::Send(bytes) => assert_eq!(bytes, b"\x1b[A".to_vec()),
        other => panic!("{:?}", other),
    }
    assert!(matches!(ui.handle_key(key(KeyCode::CapsLock), &c).action, UiAction::Nothing));
    let release = KeyEvent { kind: KeyEventKind::Release, ..key(KeyCode::Char('a')) };
    assert!(matches!(ui.handle_key(release, &c).action, UiAction::Nothing));
}

#[test]
fn terminal_scroll_keys() {
    let mut ui = UiState::new();
    let c = ctx(0, None);
    assert!(matches!(ui.handle_key(ctrl(KeyCode::Up), &c).action, UiAction::ScrollUp(1)));
    assert!(matches!(ui.handle_key(ctrl(KeyCode::Down), &c).action, UiAction::ScrollDown(1)));
    assert!(matches!(ui.handle_key(key(KeyCode::PageUp), &c).action, UiAction::ScrollUp(5)));
    assert!(matches!(ui.handle_key(key(KeyCode::PageDown), &c).action, UiAction::ScrollDown(5)));
    assert!(matches!(UiState::wheel(true), UiAction::ScrollUp(3)));
    assert!(matches!(UiState::wheel(false), UiAction::ScrollDown(3)));
}

#[test]
fn escape_switches_the_panel() {
    let mut ui = UiState::new();
    let c = ctx(0, None);
    ui.handle_key(key(KeyCode::Esc), &c);
    assert_eq!(ui.focus, Focus::LogInput);
    ui.handle_key(key(KeyCode::Esc), &c);
    assert_eq!(ui.focus, Focus::Terminal);
}

#[test]
fn q_quits_from_the_log_panel_only() {
    let mut ui = log_panel();
    assert!(matches!(ui.handle_key(key(KeyCode::Char('q')), &ctx(0, None)).action, UiAction::Quit));
    let mut ui = log_panel();
    ui.handle_key(key(KeyCode::Char('i')), &ctx(0, None));
    assert!(matches!(ui.handle_key(key(KeyCode::Char('q')), &ctx(0, None)).action, UiAction::Nothing));
    assert_eq!(ui.log_input.text(), "q");
}

#[test]
fn f2_toggles_the_overlay_and_still_reaches_the_shell() {
    let mut ui = UiState::new();
    match ui.handle_key(key(KeyCode::F(2)), &ctx(0, None)).action {
        UiAction::Send(bytes) => assert_eq!(bytes, b"\x1bOQ".to_vec()),
        other => panic!("{:?}", other),
    }
    assert!(ui.debug_overlay);
    let mut ui = log_panel();
    ui.handle_key(key(KeyCode::F(2)), &ctx(0, None));
    assert!(ui.debug_overlay);
    ui.handle_key(key(KeyCode::F(2)), &ctx(0, None));
    assert!(!ui.debug_overlay);
}

#[test]
fn a_new_entry_is_appended() {
    let mut ui = log_panel();
    let c = ctx(0, None);
    ui.handle_key(key(KeyCode::Char('i')), &c);
    assert_eq!(ui.mode, InputMode::EditingLog);
    type_text(&mut ui, "fix bug", &c);
    assert_eq!(ui.log_input.text(), "fix bug");
    assert_eq!(ui.log_input.cursor(), 7);
    match ui.handle_key(key(KeyCode::Enter), &c).action {
        UiAction::AppendLog { text } => assert_eq!(text, "fix bug"),
        other => panic!("{:?}", other),
    }
    assert_eq!(ui.mode, InputMode::Normal);
    assert_eq!(ui.log_input.text(), "");
    assert_eq!(ui.log_input.cursor(), 0);
}

#[test]
fn a_blank_entry_is_dropped() {
    let mut ui = log_panel();
    let c = ctx(1, Some(("7", "old")));
    ui.handle_key(key(KeyCode::Char('e')), &c);
    assert_eq!(ui.editing_log_id.as_deref(), Some("7"));
    for _ in 0..3 {
        ui.handle_key(key(KeyCode::Backspace), &c);
    }
    type_text(&mut ui, "  ", &c);
    assert!(matches!(ui.handle_key(key(KeyCode::Enter), &c).action, UiAction::Nothing));
    assert_eq!(ui.mode, InputMode::Normal);
    assert!(ui.editing_log_id.is_none());
    assert_eq!(ui.log_input.text(), "");
}

#[test]
fn an_edited_entry_is_updated() {
    let mut ui = log_panel();
    let c = ctx(3, Some(("42", "old text")));
    ui.handle_key(key(KeyCode::Char('e')), &c);
    assert_eq!(ui.mode, InputMode::EditingLog);
    assert_eq!(ui.log_input.text(), "old text");
    assert_eq!(ui.log_input.cursor(), 8);
    type_text(&mut ui, "!", &c);
    match ui.handle_key(key(KeyCode::Enter), &c).action {
        UiAction::UpdateLog { id, text } => {
            assert_eq!(id, "42");
            assert_eq!(text, "old text!");
        }
        other => panic!("{:?}", other),
    }
    assert!(ui.editing_log_id.is_none());
}

#[test]
fn editing_without_a_selection_does_nothing() {
    let mut ui = log_panel();
    ui.handle_key(key(KeyCode::Char('e')), &ctx(0, None));
    assert_eq!(ui.mode, InputMode::Normal);
}

#[test]
fn escape_cancels_an_entry() {
    let mut ui = log_panel();
    let c = ctx(1, Some(("1", "x")));
    ui.handle_key(key(KeyCode::Char('e')), &c);
    type_text(&mut ui, "yz", &c);
    assert!(matches!(ui.handle_key(key(KeyCode::Esc), &c).action, UiAction::Nothing));
    assert_eq!(ui.mode, InputMode::Normal);
    assert_eq!(ui.focus, Focus::LogInput);
    assert_eq!(ui.log_input.text(), "");
    assert!(ui.editing_log_id.is_none());
}

#[test]
fn delete_asks_first() {
    let mut ui = log_panel();
    ui.handle_key(key(KeyCode::Char('d')), &ctx(0, None));
    assert_eq!(ui.mode, InputMode::Normal);
    let c = ctx(2, Some(("1", "x")));
    ui.handle_key(key(KeyCode::Char('d')), &c);
    assert_eq!(ui.mode, InputMode::ConfirmDelete);
    assert!(matches!(ui.handle_key(key(KeyCode::Char('x')), &c).action, UiAction::Nothing));
    assert_eq!(ui.mode, InputMode::ConfirmDelete);
    assert!(matches!(ui.handle_key(key(KeyCode::Char('n')), &c).action, UiAction::Nothing));
    assert_eq!(ui.mode, InputMode::Normal);
    ui.handle_key(key(KeyCode::Char('d')), &c);
    assert!(matches!(ui.handle_key(key(KeyCode::Esc), &c).action, UiAction::Nothing));
    assert_eq!(ui.mode, InputMode::Normal);
    assert_eq!(ui.focus, Focus::LogInput);
    ui.handle_key(key(KeyCode::Char('d')), &c);
    assert!(matches!(ui.handle_key(key(KeyCode::Char('y')), &c).action, UiAction::DeleteSelected));
    assert_eq!(ui.mode, InputMode::Normal);
    ui.handle_key(key(KeyCode::Char('d')), &c);
    assert!(matches!(ui.handle_key(key(KeyCode::Char('y')), &ctx(2, None)).action, UiAction::Nothing));
    assert_eq!(ui.mode, InputMode::Normal);
}

#[test]
fn selection_after_a_delete() {
    let mut ui = UiState::new();
    ui.selected_log_index = 4;
    ui.log_deleted(5);
    assert_eq!(ui.selected_log_index, 3);
    ui.selected_log_index = 1;
    ui.log_deleted(5);
    assert_eq!(ui.selected_log_index, 1);
    ui.log_deleted(1);
    assert_eq!(ui.selected_log_index, 0);
    ui.selected_log_index = 9;
    ui.log_deleted(0);
    assert_eq!(ui.selected_log_index, 0);
}

#[test]
fn searching_edits_the_query() {
    let mut ui = log_panel();
    let c = ctx(0, None);
    ui.handle_key(key(KeyCode::Char('/')), &c);
    assert_eq!(ui.mode, InputMode::Searching);
    type_text(&mut ui, "bug", &c);
    assert_eq!(ui.search.text(), "bug");
    ui.handle_key(key(KeyCode::Enter), &c);
    assert_eq!(ui.mode, InputMode::Normal);
    assert_eq!(ui.search.text(), "bug");
    ui.handle_key(key(KeyCode::Char('/')), &c);
    assert_eq!(ui.search.cursor(), 3);
    ui.handle_key(key(KeyCode::Backspace), &c);
    assert_eq!(ui.search.text(), "bu");
    ui.handle_key(key(KeyCode::Esc), &c);
    assert_eq!(ui.mode, InputMode::Normal);
    assert_eq!(ui.search.text(), "");
    assert_eq!(ui.focus, Focus::LogInput);
}

#[test]
fn arrows_move_the_selection() {
    let mut ui = log_panel();
    let c = ctx(12, None);
    ui.handle_key(key(KeyCode::Up), &c);
    assert_eq!(ui.selected_log_index, 0);
    ui.handle_key(key(KeyCode::Down), &c);
    ui.handle_key(key(KeyCode::Down), &c);
    assert_eq!(ui.selected_log_index, 2);
    ui.handle_key(key(KeyCode::PageDown), &c);
    assert_eq!(ui.selected_log_index, 7);
    ui.handle_key(key(KeyCode::PageDown), &c);
    assert_eq!(ui.selected_log_index, 11);
    ui.handle_key(key(KeyCode::Down), &c);
    assert_eq!(ui.selected_log_index, 11);
    ui.handle_key(key(KeyCode::PageUp), &c);
    assert_eq!(ui.selected_log_index, 6);
    ui.handle_key(key(KeyCode::PageUp), &c);
    ui.handle_key(key(KeyCode::PageUp), &c);
    assert_eq!(ui.selected_log_index, 0);
    ui.handle_key(key(KeyCode::PageDown), &ctx(0, None));
    assert_eq!(ui.selected_log_index, 0);
    let flat = KeyContext { log_inner_height: 0, ..ctx(12, None) };
    ui.handle_key(key(KeyCode::PageDown), &flat);
    assert_eq!(ui.selected_log_index, 1);
}

#[test]
fn arrows_scroll_the_list_sideways() {
    let mut ui = log_panel();
    let c = ctx(3, None);
    ui.handle_key(key(KeyCode::Left), &c);
    assert_eq!(ui.log_scroll_x, 0);
    ui.handle_key(key(KeyCode::Right), &c);
    ui.handle_key(key(KeyCode::Right), &c);
    assert_eq!(ui.log_scroll_x, 8);
    ui.handle_key(key(KeyCode::Left), &c);
    assert_eq!(ui.log_scroll_x, 4);
    ui.handle_key(key(KeyCode::Home), &c);
    assert_eq!(ui.log_scroll_x, 0);
}

#[test]
fn list_is_clamped_around_the_selection() {
    let mut ui = UiState::new();
    ui.selected_log_index = 30;
    ui.log_scroll_y = 50;
    ui.clamp_list(20, 5);
    assert_eq!((ui.selected_log_index, ui.log_scroll_y), (19, 15));
    ui.selected_log_index = 3;
    ui.clamp_list(20, 5);
    assert_eq!((ui.selected_log_index, ui.log_scroll_y), (3, 3));
    ui.selected_log_index = 9;
    ui.clamp_list(20, 5);
    assert_eq!((ui.selected_log_index, ui.log_scroll_y), (9, 5));
    ui.clamp_list(20, 0);
    assert_eq!((ui.selected_log_index, ui.log_scroll_y), (9, 0));
    ui.clamp_list(0, 5);
    assert_eq!((ui.selected_log_index, ui.log_scroll_y), (0, 0));
    ui.selected_log_index = 2;
    ui.log_scroll_y = 1;
    ui.clamp_list(3, 10);
    assert_eq!((ui.selected_log_index, ui.log_scroll_y), (2, 0));
}

#[test]
fn list_window_is_within_the_list() {
    let mut ui = UiState::new();
    assert_eq!(ui.list_window(10, 4), (0, 4));
    ui.log_scroll_y = 8;
    assert_eq!(ui.list_window(10, 4), (8, 10));
    ui.log_scroll_y = 30;
    assert_eq!(ui.list_window(10, 4), (10, 10));
    assert_eq!(ui.list_window(0, 4), (0, 0));
    ui.log_scroll_y = 2;
    assert_eq!(ui.list_window(10, usize::MAX), (2, 10));
}

#[test]
fn v_starts_and_stops_a_recording() {
    let mut ui = log_panel();
    let c = ctx(0, None);
    let out = ui.handle_key(key(KeyCode::Char('v')), &c);
    assert!(matches!(out.action, UiAction::StartVoice));
    assert_eq!(out.signal, None);
    assert!(ui.voice_active);
    let out = ui.handle_key(key(KeyCode::Char('v')), &c);
    assert!(matches!(out.action, UiAction::Nothing));
    assert_eq!(out.signal, Some(VoiceSignal::Stop));
    assert_eq!(out.notice, Some(Notice::SavingLog));
    assert!(ui.voice_stopping);
    let out = ui.handle_key(key(KeyCode::Char('v')), &c);
    assert_eq!(out.signal, Some(VoiceSignal::Stop));
    assert_eq!(out.notice, None);
    ui.voice_finished();
    assert!(!ui.voice_active && !ui.voice_stopping);
    assert_eq!(ui.voice_signal, VoiceSignal::Idle);
}

#[test]
fn any_other_key_cancels_a_recording_and_still_acts() {
    let mut ui = log_panel();
    let c = ctx(4, None);
    ui.handle_key(key(KeyCode::Char('v')), &c);
    let out = ui.handle_key(key(KeyCode::Down), &c);
    assert_eq!(out.signal, Some(VoiceSignal::Cancel));
    assert_eq!(out.notice, Some(Notice::RecordingCancelled));
    assert_eq!(ui.selected_log_index, 1);
    assert!(!ui.voice_stopping);
    let out = ui.handle_key(key(KeyCode::Down), &c);
    assert_eq!(out.signal, Some(VoiceSignal::Cancel));
    assert_eq!(out.notice, None);
    let out = ui.handle_key(key(KeyCode::Char('v')), &c);
    assert_eq!(out.signal, Some(VoiceSignal::Stop));
    assert_eq!(out.notice, None);
    assert!(!ui.voice_stopping);
}

#[test]
fn a_new_branch_drops_what_is_typed() {
    let mut ui = log_panel();
    let c = ctx(1, Some(("1", "x")));
    ui.handle_key(key(KeyCode::Char('e')), &c);
    ui.on_branch_changed();
    assert_eq!(ui.mode, InputMode::Normal);
    assert_eq!(ui.log_input.text(), "");
    assert!(ui.editing_log_id.is_none());
    ui.handle_key(key(KeyCode::Char('d')), &c);
    ui.on_branch_changed();
    assert_eq!(ui.mode, InputMode::Normal);
    ui.handle_key(key(KeyCode::Char('/')), &c);
    type_text(&mut ui, "q", &c);
    ui.on_branch_changed();
    assert_eq!(ui.mode, InputMode::Searching);
    assert_eq!(ui.search.text(), "q");
}
