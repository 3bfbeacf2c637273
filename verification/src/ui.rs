//! The state of the user interface and what each key does to it. The
//! caller draws the state and carries out the actions.

use vstd::prelude::*;
use crate::keys::{encode_key_event, key_bytes, KeyCode, KeyEvent};
use crate::line_edit::{is_edit_key, scroll_of, LineEdit};
use crate::text::{trim, trimmed};

verus! {

/// Which panel the keys go to.
#[derive(Clone, Copy, Debug, PartialEq, Eq, Structural)]
pub enum Focus {
    Terminal,
    LogInput,
}

/// What the log panel is doing.
#[derive(Clone, Copy, Debug, PartialEq, Eq, Structural)]
pub enum InputMode {
    Normal,
    EditingLog,
    ConfirmDelete,
    Searching,
}

/// What the recorder has been told.
#[derive(Clone, Copy, Debug, PartialEq, Eq, Structural)]
pub enum VoiceSignal {
    /// Nothing yet.
    Idle,
    /// To stop and transcribe.
    Stop,
    /// To give up.
    Cancel,
}

/// Something to tell the user.
#[derive(Clone, Copy, Debug, PartialEq, Eq, Structural)]
pub enum Notice {
    RecordingCancelled,
    SavingLog,
}

/// What the caller is to do after a key.
#[derive(Debug)]
pub enum UiAction {
    Nothing,
    /// Leave the program.
    Quit,
    /// Send the bytes to the shell.
    Send(Vec<u8>),
    /// Scroll the terminal up by so many rows.
    ScrollUp(usize),
    /// Scroll the terminal down by so many rows.
    ScrollDown(usize),
    /// Delete the selected log entry.
    DeleteSelected,
    /// Replace the text of the log entry `id`.
    UpdateLog { id: String, text: String },
    /// Add a log entry.
    AppendLog { text: String },
    /// Start recording.
    StartVoice,
}

/// What a key led to.
#[derive(Debug)]
pub struct Outcome {
    /// What to tell the recorder, if anything.
    pub signal: Option<VoiceSignal>,
    pub notice: Option<Notice>,
    pub action: UiAction,
}

/// A log entry as the list shows it.
#[derive(Debug)]
pub struct LogEntry {
    pub id: String,
    pub text: String,
}

/// What a key handler needs to know of what is on screen.
#[derive(Debug)]
pub struct KeyContext {
    /// How many entries the list shows.
    pub list_len: usize,
    /// The selected entry, if the selection is within the list.
    pub selected: Option<LogEntry>,
    /// How many entries the list panel has room for.
    pub log_inner_height: usize,
    /// How many columns the input field has.
    pub input_inner_width: usize,
}

/// The state of the user interface.
pub struct UiState {
    pub focus: Focus,
    pub mode: InputMode,
    pub log_input: LineEdit,
    pub search: LineEdit,
    pub selected_log_index: usize,
    pub log_scroll_y: usize,
    pub log_scroll_x: usize,
    pub editing_log_id: Option<String>,
    pub debug_overlay: bool,
    /// Whether a recording is under way.
    pub voice_active: bool,
    pub voice_signal: VoiceSignal,
    pub voice_stopping: bool,
}

/// How far the list moves sideways at once.
pub const LIST_STEP_X: usize = 4;

/// How many rows Page Up and Page Down scroll the terminal.
pub const PAGE_ROWS: usize = 5;

/// How many rows the mouse wheel scrolls the terminal.
pub const WHEEL_ROWS: usize = 3;

/// Whether a field is empty, with cursor and scroll at its start.
pub open spec fn is_cleared(field: LineEdit) -> bool {
    field.chars() == Seq::<char>::empty() && field.at() == 0 && field.scrolled() == 0
}

/// Whether a field holds `text`, with the cursor behind it and the scroll
/// following from `scroll_x`.
pub open spec fn holds_text(field: LineEdit, text: Seq<char>, inner_width: usize, scroll_x: usize) -> bool {
    &&& field.chars() == text
    &&& field.at() == text.len()
    &&& field.scrolled() == scroll_of(text, field.at(), inner_width, scroll_x)
}

/// The text of an id, if there is one.
pub open spec fn id_text(id: Option<String>) -> Option<Seq<char>> {
    match id {
        Some(s) => Some(s@),
        None => None,
    }
}

/// `a - b`, or 0 where `b` is larger.
pub open spec fn minus(a: usize, b: usize) -> usize {
    if a >= b {
        (a - b) as usize
    } else {
        0
    }
}

/// `a + b`, or the largest `usize` where that is less.
pub open spec fn plus(a: usize, b: usize) -> usize {
    if a + b <= usize::MAX {
        (a + b) as usize
    } else {
        usize::MAX
    }
}

/// The state after the recorder was told what a key means to it: `v`
/// stops the recording, any other key cancels it. Only the first signal
/// counts, and a stop is remembered.
pub open spec fn after_voice(s: UiState, code: KeyCode) -> UiState {
    if !s.voice_active {
        s
    } else if code == KeyCode::Char('v') {
        UiState {
            voice_signal: VoiceSignal::Stop,
            voice_stopping: s.voice_stopping || s.voice_signal == VoiceSignal::Idle,
            ..s
        }
    } else {
        UiState { voice_signal: VoiceSignal::Cancel, ..s }
    }
}

/// What the recorder is told on a key.
pub open spec fn voice_signal_for(s: UiState, code: KeyCode) -> Option<VoiceSignal> {
    if !s.voice_active {
        None
    } else if code == KeyCode::Char('v') {
        Some(VoiceSignal::Stop)
    } else {
        Some(VoiceSignal::Cancel)
    }
}

/// What the user is told on a key during a recording.
pub open spec fn voice_notice_for(s: UiState, code: KeyCode) -> Option<Notice> {
    if !s.voice_active || s.voice_signal != VoiceSignal::Idle {
        None
    } else if code == KeyCode::Char('v') {
        Some(Notice::SavingLog)
    } else {
        Some(Notice::RecordingCancelled)
    }
}

/// Whether `action` is what a key does in the terminal panel: some keys
/// scroll it, every other key is sent to the shell if it has a byte
/// sequence.
pub open spec fn terminal_action(key: KeyEvent, action: UiAction) -> bool {
    if key.code == KeyCode::Up && key.modifiers.ctrl {
        action == UiAction::ScrollUp(1)
    } else if key.code == KeyCode::Down && key.modifiers.ctrl {
        action == UiAction::ScrollDown(1)
    } else if key.code == KeyCode::PageUp {
        action == UiAction::ScrollUp(PAGE_ROWS)
    } else if key.code == KeyCode::PageDown {
        action == UiAction::ScrollDown(PAGE_ROWS)
    } else {
        match key_bytes(key) {
            Some(bytes) => action matches UiAction::Send(sent) && sent@ == bytes,
            None => action is Nothing,
        }
    }
}

/// The selection after a key that moves it.
pub open spec fn moved_selection(selected: usize, code: KeyCode, ctx: KeyContext) -> usize {
    let step = if ctx.log_inner_height > 1 {
        ctx.log_inner_height
    } else {
        1
    };
    match code {
        KeyCode::Up => minus(selected, 1),
        KeyCode::Down => if selected + 1 < ctx.list_len {
            (selected + 1) as usize
        } else {
            selected
        },
        KeyCode::PageUp => minus(selected, step),
        KeyCode::PageDown => if ctx.list_len == 0 {
            0
        } else if plus(selected, step) < ctx.list_len - 1 {
            plus(selected, step)
        } else {
            (ctx.list_len - 1) as usize
        },
        _ => selected,
    }
}

/// The sideways scroll of the list after a key that moves it.
pub open spec fn moved_list_scroll(scroll_x: usize, code: KeyCode) -> usize {
    match code {
        KeyCode::Left => minus(scroll_x, LIST_STEP_X),
        KeyCode::Right => plus(scroll_x, LIST_STEP_X),
        KeyCode::Home => 0,
        _ => scroll_x,
    }
}

/// What a key does while the log panel waits: `i` starts a new entry, `e`
/// edits the selected one, `d` asks whether to delete it, `/` searches,
/// `v` starts a recording, and the arrow keys move through the list.
pub open spec fn normal_key(s: UiState, code: KeyCode, ctx: KeyContext, new: UiState, action: UiAction) -> bool {
    let w = ctx.input_inner_width;
    match code {
        KeyCode::Char(c) => if c == 'i' {
            &&& action is Nothing
            &&& is_cleared(new.log_input)
            &&& new == UiState {
                mode: InputMode::EditingLog,
                log_input: new.log_input,
                editing_log_id: None,
                ..s
            }
        } else if c == 'd' {
            &&& action is Nothing
            &&& new == UiState {
                mode: if ctx.list_len > 0 {
                    InputMode::ConfirmDelete
                } else {
                    s.mode
                },
                ..s
            }
        } else if c == 'e' {
            &&& action is Nothing
            &&& match ctx.selected {
                Some(entry) => {
                    &&& holds_text(new.log_input, entry.text@, w, s.log_input.scrolled())
                    &&& id_text(new.editing_log_id) == Some(entry.id@)
                    &&& new == UiState {
                        mode: InputMode::EditingLog,
                        log_input: new.log_input,
                        editing_log_id: new.editing_log_id,
                        ..s
                    }
                },
                None => new == s,
            }
        } else if c == '/' {
            &&& action is Nothing
            &&& holds_text(new.search, s.search.chars(), w, s.search.scrolled())
            &&& new == UiState { mode: InputMode::Searching, search: new.search, ..s }
        } else if c == 'v' {
            if s.voice_active {
                action is Nothing && new == s
            } else {
                action is StartVoice && new == UiState {
                    voice_active: true,
                    voice_signal: VoiceSignal::Idle,
                    ..s
                }
            }
        } else {
            action is Nothing && new == s
        },
        _ => {
            &&& action is Nothing
            &&& new == UiState {
                selected_log_index: moved_selection(s.selected_log_index, code, ctx),
                log_scroll_x: moved_list_scroll(s.log_scroll_x, code),
                ..s
            }
        },
    }
}

/// What a key does to the search field: `Esc` drops the search, `Enter`
/// keeps it, the edit keys edit the query.
pub open spec fn searching_key(s: UiState, code: KeyCode, ctx: KeyContext, new: UiState) -> bool {
    if code == KeyCode::Esc {
        is_cleared(new.search) && new == UiState {
            mode: InputMode::Normal,
            search: new.search,
            ..s
        }
    } else if code == KeyCode::Enter {
        new == UiState { mode: InputMode::Normal, ..s }
    } else if is_edit_key(code) {
        s.search.edited(new.search, code, ctx.input_inner_width) && new == UiState {
            search: new.search,
            ..s
        }
    } else {
        new == s
    }
}

/// What `Enter` does with the text of an entry: a text of white space
/// alone is dropped, any other replaces the entry that is edited or
/// becomes a new one.
pub open spec fn entry_action(text: Seq<char>, editing: Option<Seq<char>>, action: UiAction) -> bool {
    if trimmed(text).len() == 0 {
        action is Nothing
    } else {
        match editing {
            Some(id) => action matches UiAction::UpdateLog { id: i, text: t } && i@ == id && t@
                == text,
            None => action matches UiAction::AppendLog { text: t } && t@ == text,
        }
    }
}

/// What a key does to the entry field: `Esc` drops the entry, `Enter`
/// saves it, the edit keys edit it.
pub open spec fn editing_key(s: UiState, code: KeyCode, ctx: KeyContext, new: UiState, action: UiAction) -> bool {
    if code == KeyCode::Esc || code == KeyCode::Enter {
        &&& if code == KeyCode::Enter {
            entry_action(s.log_input.chars(), id_text(s.editing_log_id), action)
        } else {
            action is Nothing
        }
        &&& is_cleared(new.log_input)
        &&& new == UiState {
            mode: InputMode::Normal,
            log_input: new.log_input,
            editing_log_id: None,
            ..s
        }
    } else if is_edit_key(code) {
        &&& action is Nothing
        &&& s.log_input.edited(new.log_input, code, ctx.input_inner_width)
        &&& new == UiState { log_input: new.log_input, ..s }
    } else {
        action is Nothing && new == s
    }
}

/// Whether `Esc` switches the panel: it does unless the log panel needs
/// it to leave a field or a question.
pub open spec fn switches_focus(s: UiState, code: KeyCode) -> bool {
    code == KeyCode::Esc && !(s.focus == Focus::LogInput && s.mode != InputMode::Normal)
}

/// What a key does once the recorder has had its say.
pub open spec fn routed(s: UiState, key: KeyEvent, ctx: KeyContext, new: UiState, action: UiAction) -> bool {
    let code = key.code;
    if s.mode == InputMode::ConfirmDelete {
        if code == KeyCode::Char('y') {
            &&& new == UiState { mode: InputMode::Normal, ..s }
            &&& if ctx.selected is Some {
                action is DeleteSelected
            } else {
                action is Nothing
            }
        } else if code == KeyCode::Char('n') || code == KeyCode::Esc {
            new == UiState { mode: InputMode::Normal, ..s } && action is Nothing
        } else {
            new == s && action is Nothing
        }
    } else if switches_focus(s, code) {
        &&& action is Nothing
        &&& new == UiState {
            focus: if s.focus == Focus::Terminal {
                Focus::LogInput
            } else {
                Focus::Terminal
            },
            ..s
        }
    } else if code == KeyCode::Char('q') && s.focus == Focus::LogInput && s.mode
        == InputMode::Normal {
        new == s && action is Quit
    } else {
        let t = UiState {
            debug_overlay: if code == KeyCode::F(2) {
                !s.debug_overlay
            } else {
                s.debug_overlay
            },
            ..s
        };
        match s.focus {
            Focus::Terminal => new == t && terminal_action(key, action),
            Focus::LogInput => match s.mode {
                InputMode::Normal => normal_key(t, code, ctx, new, action),
                InputMode::Searching => searching_key(t, code, ctx, new) && action is Nothing,
                InputMode::EditingLog => editing_key(t, code, ctx, new, action),
                InputMode::ConfirmDelete => new == t && action is Nothing,
            },
        }
    }
}

/// Whether `new` and `out` are what the key `key` makes of the state `s`.
/// While a recording is under way, the key first goes to the recorder,
/// and `v` goes nowhere else.
pub open spec fn key_effect(s: UiState, key: KeyEvent, ctx: KeyContext, new: UiState, out: Outcome) -> bool {
    &&& out.signal == voice_signal_for(s, key.code)
    &&& out.notice == voice_notice_for(s, key.code)
    &&& if s.voice_active && key.code == KeyCode::Char('v') {
        new == after_voice(s, key.code) && out.action is Nothing
    } else {
        routed(after_voice(s, key.code), key, ctx, new, out.action)
    }
}

impl UiState {
    /// The invariant: the cursors of both fields stand within their texts.
    pub open spec fn wf(&self) -> bool {
        self.log_input.wf() && self.search.wf()
    }

    /// The state at start: the terminal has the focus, nothing is typed,
    /// selected or recorded.
    pub fn new() -> (state: Self)
        ensures
            state.wf(),
            state.focus == Focus::Terminal,
            state.mode == InputMode::Normal,
            is_cleared(state.log_input),
            is_cleared(state.search),
            state.selected_log_index == 0,
            state.log_scroll_y == 0,
            state.log_scroll_x == 0,
            state.editing_log_id is None,
            !state.debug_overlay,
            !state.voice_active,
            state.voice_signal == VoiceSignal::Idle,
            !state.voice_stopping,
    {
        UiState {
            focus: Focus::Terminal,
            mode: InputMode::Normal,
            log_input: LineEdit::new(),
            search: LineEdit::new(),
            selected_log_index: 0,
            log_scroll_y: 0,
            log_scroll_x: 0,
            editing_log_id: None,
            debug_overlay: false,
            voice_active: false,
            voice_signal: VoiceSignal::Idle,
            voice_stopping: false,
        }
    }

    /// What a key does in the terminal panel.
    pub fn terminal_key(key: KeyEvent) -> (action: UiAction)
        ensures
            terminal_action(key, action),
    {
        match key.code {
            KeyCode::Up => {
                if key.modifiers.ctrl {
                    return UiAction::ScrollUp(1);
                }
            },
            KeyCode::Down => {
                if key.modifiers.ctrl {
                    return UiAction::ScrollDown(1);
                }
            },
            KeyCode::PageUp => {
                return UiAction::ScrollUp(PAGE_ROWS);
            },
            KeyCode::PageDown => {
                return UiAction::ScrollDown(PAGE_ROWS);
            },
            _ => {},
        }
        match encode_key_event(key) {
            Some(bytes) => UiAction::Send(bytes),
            None => UiAction::Nothing,
        }
    }

    /// What a key does while the log panel waits.
    pub fn normal_mode_key(&mut self, code: KeyCode, ctx: &KeyContext) -> (action: UiAction)
        requires
            old(self).wf(),
        ensures
            final(self).wf(),
            normal_key(*old(self), code, *ctx, *final(self), action),
    {
        let w = ctx.input_inner_width;
        match code {
            KeyCode::Char(c) => {
                if c == 'i' {
                    self.mode = InputMode::EditingLog;
                    self.log_input.clear();
                    self.editing_log_id = None;
                } else if c == 'd' {
                    if ctx.list_len > 0 {
                        self.mode = InputMode::ConfirmDelete;
                    }
                } else if c == 'e' {
                    if let Some(entry) = &ctx.selected {
                        self.mode = InputMode::EditingLog;
                        self.log_input.set_text(entry.text.as_str(), w);
                        self.editing_log_id = Some(entry.id.clone());
                    }
                } else if c == '/' {
                    self.mode = InputMode::Searching;
                    self.search.end(w);
                } else if c == 'v' {
                    if !self.voice_active {
                        self.voice_active = true;
                        self.voice_signal = VoiceSignal::Idle;
                        return UiAction::StartVoice;
                    }
                }
            },
            KeyCode::Up => {
                self.selected_log_index = self.selected_log_index.saturating_sub(1);
            },
            KeyCode::Down => {
                if self.selected_log_index < usize::MAX && self.selected_log_index + 1
                    < ctx.list_len {
                    self.selected_log_index += 1;
                }
            },
            KeyCode::PageUp => {
                let step = if ctx.log_inner_height > 1 {
                    ctx.log_inner_height
                } else {
                    1
                };
                self.selected_log_index = self.selected_log_index.saturating_sub(step);
            },
            KeyCode::PageDown => {
                let step = if ctx.log_inner_height > 1 {
                    ctx.log_inner_height
                } else {
                    1
                };
                let next = self.selected_log_index.saturating_add(step);
                self.selected_log_index = if ctx.list_len == 0 {
                    0
                } else if next < ctx.list_len - 1 {
                    next
                } else {
                    ctx.list_len - 1
                };
            },
            KeyCode::Left => {
                self.log_scroll_x = self.log_scroll_x.saturating_sub(LIST_STEP_X);
            },
            KeyCode::Right => {
                self.log_scroll_x = self.log_scroll_x.saturating_add(LIST_STEP_X);
            },
            KeyCode::Home => {
                self.log_scroll_x = 0;
            },
            _ => {},
        }
        UiAction::Nothing
    }

    /// What a key does to the search field.
    pub fn searching_mode_key(&mut self, code: KeyCode, ctx: &KeyContext)
        requires
            old(self).wf(),
        ensures
            final(self).wf(),
            searching_key(*old(self), code, *ctx, *final(self)),
    {
        match code {
            KeyCode::Esc => {
                self.mode = InputMode::Normal;
                self.search.clear();
            },
            KeyCode::Enter => {
                self.mode = InputMode::Normal;
            },
            _ => {
                self.search.apply_key(code, ctx.input_inner_width);
            },
        }
    }

    /// What a key does to the entry field.
    pub fn editing_mode_key(&mut self, code: KeyCode, ctx: &KeyContext) -> (action: UiAction)
        requires
            old(self).wf(),
        ensures
            final(self).wf(),
            editing_key(*old(self), code, *ctx, *final(self), action),
    {
        match code {
            KeyCode::Esc => {
                self.mode = InputMode::Normal;
                self.log_input.clear();
                self.editing_log_id = None;
                UiAction::Nothing
            },
            KeyCode::Enter => {
                let mut editing: Option<String> = None;
                std::mem::swap(&mut self.editing_log_id, &mut editing);
                let action = if trim(self.log_input.text()).is_empty() {
                    UiAction::Nothing
                } else {
                    let text = self.log_input.text().to_owned();
                    match editing {
                        Some(id) => UiAction::UpdateLog { id, text },
                        None => UiAction::AppendLog { text },
                    }
                };
                self.log_input.clear();
                self.mode = InputMode::Normal;
                action
            },
            _ => {
                self.log_input.apply_key(code, ctx.input_inner_width);
                UiAction::Nothing
            },
        }
    }

    /// What a key does once the recorder has had its say.
    pub fn route_key(&mut self, key: KeyEvent, ctx: &KeyContext) -> (action: UiAction)
        requires
            old(self).wf(),
        ensures
            final(self).wf(),
            routed(*old(self), key, *ctx, *final(self), action),
    {
        match self.mode {
            InputMode::ConfirmDelete => {
                match key.code {
                    KeyCode::Char(c) => {
                        if c == 'y' {
                            self.mode = InputMode::Normal;
                            if ctx.selected.is_some() {
                                return UiAction::DeleteSelected;
                            }
                        } else if c == 'n' {
                            self.mode = InputMode::Normal;
                        }
                    },
                    KeyCode::Esc => {
                        self.mode = InputMode::Normal;
                    },
                    _ => {},
                }
                return UiAction::Nothing;
            },
            _ => {},
        }
        let in_field = match self.focus {
            Focus::LogInput => match self.mode {
                InputMode::Normal => false,
                _ => true,
            },
            Focus::Terminal => false,
        };
        match key.code {
            KeyCode::Esc => {
                if !in_field {
                    self.focus = match self.focus {
                        Focus::Terminal => Focus::LogInput,
                        Focus::LogInput => Focus::Terminal,
                    };
                    return UiAction::Nothing;
                }
            },
            KeyCode::Char(c) => {
                if c == 'q' {
                    match (self.focus, self.mode) {
                        (Focus::LogInput, InputMode::Normal) => {
                            return UiAction::Quit;
                        },
                        _ => {},
                    }
                }
            },
            KeyCode::F(n) => {
                if n == 2 {
                    self.debug_overlay = !self.debug_overlay;
                }
            },
            _ => {},
        }
        match self.focus {
            Focus::Terminal => Self::terminal_key(key),
            Focus::LogInput => match self.mode {
                InputMode::Normal => self.normal_mode_key(key.code, ctx),
                InputMode::Searching => {
                    self.searching_mode_key(key.code, ctx);
                    UiAction::Nothing
                },
                InputMode::EditingLog => self.editing_mode_key(key.code, ctx),
                InputMode::ConfirmDelete => UiAction::Nothing,
            },
        }
    }

    /// What a key does: the new state, and what the caller is to do.
    pub fn handle_key(&mut self, key: KeyEvent, ctx: &KeyContext) -> (out: Outcome)
        requires
            old(self).wf(),
        ensures
            final(self).wf(),
            key_effect(*old(self), key, *ctx, *final(self), out),
    {
        let mut signal: Option<VoiceSignal> = None;
        let mut notice: Option<Notice> = None;
        if self.voice_active {
            let stops = match key.code {
                KeyCode::Char(c) => c == 'v',
                _ => false,
            };
            let first = match self.voice_signal {
                VoiceSignal::Idle => true,
                _ => false,
            };
            if stops {
                self.voice_signal = VoiceSignal::Stop;
                signal = Some(VoiceSignal::Stop);
                if first {
                    self.voice_stopping = true;
                    notice = Some(Notice::SavingLog);
                }
                return Outcome { signal, notice, action: UiAction::Nothing };
            }
            self.voice_signal = VoiceSignal::Cancel;
            signal = Some(VoiceSignal::Cancel);
            if first {
                notice = Some(Notice::RecordingCancelled);
            }
        }
        let action = self.route_key(key, ctx);
        Outcome { signal, notice, action }
    }

    /// What a turn of the mouse wheel does: it scrolls the terminal.
    pub fn wheel(up: bool) -> (action: UiAction)
        ensures
            action == if up {
                UiAction::ScrollUp(WHEEL_ROWS)
            } else {
                UiAction::ScrollDown(WHEEL_ROWS)
            },
    {
        if up {
            UiAction::ScrollUp(WHEEL_ROWS)
        } else {
            UiAction::ScrollDown(WHEEL_ROWS)
        }
    }

    /// Another branch was checked out: an entry that is being typed is
    /// dropped, and a question that is open is closed.
    pub fn on_branch_changed(&mut self)
        requires
            old(self).wf(),
        ensures
            final(self).wf(),
            match old(self).mode {
                InputMode::EditingLog => is_cleared(final(self).log_input) && *final(self) == (UiState {
                    mode: InputMode::Normal,
                    log_input: final(self).log_input,
                    editing_log_id: None,
                    ..*old(self)
                }),
                InputMode::ConfirmDelete => *final(self) == (UiState {
                    mode: InputMode::Normal,
                    ..*old(self)
                }),
                _ => *final(self) == *old(self),
            },
    {
        match self.mode {
            InputMode::EditingLog => {
                self.mode = InputMode::Normal;
                self.log_input.clear();
                self.editing_log_id = None;
            },
            InputMode::ConfirmDelete => {
                self.mode = InputMode::Normal;
            },
            _ => {},
        }
    }

    /// The recording is over.
    pub fn voice_finished(&mut self)
        ensures
            *final(self) == (UiState {
                voice_active: false,
                voice_signal: VoiceSignal::Idle,
                voice_stopping: false,
                ..*old(self)
            }),
    {
        self.voice_active = false;
        self.voice_signal = VoiceSignal::Idle;
        self.voice_stopping = false;
    }

    /// The selected entry was deleted from a list of `len_before` entries:
    /// the selection stays within what is left.
    pub fn log_deleted(&mut self, len_before: usize)
        ensures
            *final(self) == (UiState {
                selected_log_index: selection_within(
                    old(self).selected_log_index,
                    minus(len_before, 1),
                ),
                ..*old(self)
            }),
    {
        let left = len_before.saturating_sub(1);
        if left == 0 {
            self.selected_log_index = 0;
        } else if self.selected_log_index >= left {
            self.selected_log_index = left - 1;
        }
    }

    /// Keeps the selection within a list of `len` entries and the list
    /// scrolled so that a panel with room for `inner_height` entries
    /// shows the selected one.
    pub fn clamp_list(&mut self, len: usize, inner_height: usize)
        ensures
            *final(self) == (UiState {
                selected_log_index: selection_within(old(self).selected_log_index, len),
                log_scroll_y: list_scroll(
                    selection_within(old(self).selected_log_index, len),
                    old(self).log_scroll_y,
                    len,
                    inner_height,
                ),
                ..*old(self)
            }),
    {
        if len == 0 {
            self.selected_log_index = 0;
            self.log_scroll_y = 0;
            return ;
        }
        if self.selected_log_index >= len {
            self.selected_log_index = len - 1;
        }
        if inner_height == 0 {
            self.log_scroll_y = 0;
            return ;
        }
        let max_start = len.saturating_sub(inner_height);
        if self.log_scroll_y > max_start {
            self.log_scroll_y = max_start;
        }
        if self.selected_log_index < self.log_scroll_y {
            self.log_scroll_y = self.selected_log_index;
        } else if self.selected_log_index - self.log_scroll_y >= inner_height {
            self.log_scroll_y = self.selected_log_index + 1 - inner_height;
        }
    }

    /// The entries that the list panel shows: from which one up to which
    /// one.
    pub fn list_window(&self, len: usize, inner_height: usize) -> (window: (usize, usize))
        ensures
            window.0 == if self.log_scroll_y < len {
                self.log_scroll_y
            } else {
                len
            },
            window.1 == if window.0 + inner_height < len {
                (window.0 + inner_height) as usize
            } else {
                len
            },
    {
        let start = if self.log_scroll_y < len {
            self.log_scroll_y
        } else {
            len
        };
        let end = if inner_height < len - start {
            start + inner_height
        } else {
            len
        };
        (start, end)
    }
}

/// The selection in a list of `len` entries: the last entry where it was
/// beyond, the first where the list is empty.
pub open spec fn selection_within(selected: usize, len: usize) -> usize {
    if len == 0 {
        0
    } else if selected >= len {
        (len - 1) as usize
    } else {
        selected
    }
}

/// The entry with which a panel of `inner_height` entries starts, in a
/// list of `len` entries that was scrolled to `scroll_y`: the list is not
/// scrolled past its end, and then as little further as shows the
/// selected entry.
pub open spec fn list_scroll(selected: usize, scroll_y: usize, len: usize, inner_height: usize) -> usize {
    if len == 0 || inner_height == 0 {
        0
    } else {
        let max_start = minus(len, inner_height);
        let start = if scroll_y > max_start {
            max_start
        } else {
            scroll_y
        };
        if selected < start {
            selected
        } else if selected >= start + inner_height {
            (selected + 1 - inner_height) as usize
        } else {
            start
        }
    }
}

/// The list always shows the selected entry, and it is never scrolled
/// past its end.
pub proof fn lemma_selection_is_shown(selected: usize, scroll_y: usize, len: usize, inner_height: usize)
    requires
        len > 0,
        inner_height > 0,
    ensures
        ({
            let s = selection_within(selected, len);
            let y = list_scroll(s, scroll_y, len, inner_height);
            s < len && y <= s < y + inner_height && y <= minus(len, inner_height)
        }),
{
}

} // verus!
