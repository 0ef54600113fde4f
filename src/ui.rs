//! The interactive front: input line editing, tabs, and the key bindings that
//! drive the event loop.
use vstd::prelude::*;
use crate::numtext::{decimal, decimal_text, push_char};

verus! {

/// Modifier bits of a key press.
pub const SHIFT: u8 = 1;
pub const CONTROL: u8 = 2;

/// The key of a key press.
#[derive(Clone, Copy, Debug, PartialEq, Eq, Structural)]
pub enum KeyCode {
    Char(char),
    Enter,
    Backspace,
    Tab,
    Up,
    Down,
    Left,
    Right,
    Other,
}

/// A key press: the key and the exact set of modifier bits held.
#[derive(Clone, Copy, Debug, PartialEq, Eq, Structural)]
pub struct KeyPress {
    pub code: KeyCode,
    pub modifiers: u8,
}

/// What a key press asks for.
#[derive(Clone, Copy, Debug, PartialEq, Eq, Structural)]
pub enum UiCommand {
    ConfirmExit,
    EndOfInput,
    NewTab,
    CloseTab,
    NextTab,
    SplitPaneVertical,
    SplitPaneHorizontal,
    FuzzyFinder,
    OpenHistory,
    GitStatus,
    ToggleAutowirePanel,
    ShowAutowireStatus,
    ShowAutowireServices,
    Submit,
    Insert(char),
    Backspace,
    HistoryPrevious,
    HistoryNext,
    CursorLeft,
    CursorRight,
    Ignore,
}

/// The key bindings, first match wins. Control and a letter for the tab,
/// pane and panel actions; Enter submits; any other character is typed.
pub open spec fn key_command(k: KeyPress) -> UiCommand {
    let ctrl = k.modifiers == CONTROL;
    let shift = k.modifiers == SHIFT;
    match k.code {
        KeyCode::Char(c) => {
            if ctrl && c == 'c' {
                UiCommand::ConfirmExit
            } else if ctrl && c == 'd' {
                UiCommand::EndOfInput
            } else if ctrl && c == 't' {
                UiCommand::NewTab
            } else if ctrl && c == 'w' {
                UiCommand::CloseTab
            } else if shift && c == 'd' {
                UiCommand::SplitPaneVertical
            } else if (ctrl || shift) && c == 'h' {
                UiCommand::SplitPaneHorizontal
            } else if ctrl && c == 'f' {
                UiCommand::FuzzyFinder
            } else if ctrl && c == 'r' {
                UiCommand::OpenHistory
            } else if ctrl && c == 'g' {
                UiCommand::GitStatus
            } else if ctrl && c == ' ' {
                UiCommand::ToggleAutowirePanel
            } else if ctrl && c == 'a' {
                UiCommand::ShowAutowireStatus
            } else if ctrl && c == 's' {
                UiCommand::ShowAutowireServices
            } else {
                UiCommand::Insert(c)
            }
        },
        KeyCode::Tab => if ctrl {
            UiCommand::NextTab
        } else {
            UiCommand::Ignore
        },
        KeyCode::Enter => UiCommand::Submit,
        KeyCode::Backspace => UiCommand::Backspace,
        KeyCode::Up => UiCommand::HistoryPrevious,
        KeyCode::Down => UiCommand::HistoryNext,
        KeyCode::Left => UiCommand::CursorLeft,
        KeyCode::Right => UiCommand::CursorRight,
        KeyCode::Other => UiCommand::Ignore,
    }
}

/// The binding of a key press.
pub fn classify(k: KeyPress) -> (r: UiCommand)
    ensures
        r == key_command(k),
{
    let ctrl = k.modifiers == CONTROL;
    let shift = k.modifiers == SHIFT;
    match k.code {
        KeyCode::Char(c) => {
            if ctrl && c == 'c' {
                UiCommand::ConfirmExit
            } else if ctrl && c == 'd' {
                UiCommand::EndOfInput
            } else if ctrl && c == 't' {
                UiCommand::NewTab
            } else if ctrl && c == 'w' {
                UiCommand::CloseTab
            } else if shift && c == 'd' {
                UiCommand::SplitPaneVertical
            } else if (ctrl || shift) && c == 'h' {
                UiCommand::SplitPaneHorizontal
            } else if ctrl && c == 'f' {
                UiCommand::FuzzyFinder
            } else if ctrl && c == 'r' {
                UiCommand::OpenHistory
            } else if ctrl && c == 'g' {
                UiCommand::GitStatus
            } else if ctrl && c == ' ' {
                UiCommand::ToggleAutowirePanel
            } else if ctrl && c == 'a' {
                UiCommand::ShowAutowireStatus
            } else if ctrl && c == 's' {
                UiCommand::ShowAutowireServices
            } else {
                UiCommand::Insert(c)
            }
        },
        KeyCode::Tab => if ctrl {
            UiCommand::NextTab
        } else {
            UiCommand::Ignore
        },
        KeyCode::Enter => UiCommand::Submit,
        KeyCode::Backspace => UiCommand::Backspace,
        KeyCode::Up => UiCommand::HistoryPrevious,
        KeyCode::Down => UiCommand::HistoryNext,
        KeyCode::Left => UiCommand::CursorLeft,
        KeyCode::Right => UiCommand::CursorRight,
        KeyCode::Other => UiCommand::Ignore,
    }
}

/// What the event loop does after a key press.
#[derive(Debug)]
pub enum LoopAction {
    Continue,
    Exit,
    /// Run this command line, then clear the input.
    Submit(String),
}

/// The mathematical state of the front.
pub struct UiView {
    pub input: Seq<char>,
    /// Cursor position, in characters.
    pub cursor: nat,
    pub tabs: Seq<Seq<char>>,
    pub active_tab: nat,
    pub autowire_panel: bool,
}

/// The title of the `n`-th tab.
pub open spec fn tab_title(n: nat) -> Seq<char> {
    "Tab "@ + decimal_text(n)
}

/// The state after a command; `Submit` leaves it as it is (the input is
/// cleared once the command has run).
pub open spec fn ui_after(v: UiView, cmd: UiCommand) -> UiView {
    match cmd {
        UiCommand::Insert(c) => UiView {
            input: v.input.take(v.cursor as int).push(c) + v.input.skip(v.cursor as int),
            cursor: v.cursor + 1,
            ..v
        },
        UiCommand::Backspace => if v.cursor > 0 {
            UiView {
                input: v.input.take(v.cursor - 1) + v.input.skip(v.cursor as int),
                cursor: (v.cursor - 1) as nat,
                ..v
            }
        } else {
            v
        },
        UiCommand::CursorLeft => if v.cursor > 0 {
            UiView { cursor: (v.cursor - 1) as nat, ..v }
        } else {
            v
        },
        UiCommand::CursorRight => if v.cursor < v.input.len() {
            UiView { cursor: v.cursor + 1, ..v }
        } else {
            v
        },
        UiCommand::NewTab => UiView {
            tabs: v.tabs.push(tab_title(v.tabs.len() + 1)),
            active_tab: v.tabs.len(),
            ..v
        },
        UiCommand::CloseTab => if v.tabs.len() > 1 {
            UiView {
                tabs: v.tabs.remove(v.active_tab as int),
                active_tab: if v.active_tab >= v.tabs.len() - 1 {
                    (v.tabs.len() - 2) as nat
                } else {
                    v.active_tab
                },
                ..v
            }
        } else {
            v
        },
        UiCommand::NextTab => UiView { active_tab: (v.active_tab + 1) % v.tabs.len(), ..v },
        UiCommand::ToggleAutowirePanel => UiView { autowire_panel: !v.autowire_panel, ..v },
        UiCommand::ShowAutowireStatus => UiView { autowire_panel: true, ..v },
        UiCommand::ShowAutowireServices => UiView { autowire_panel: true, ..v },
        _ => v,
    }
}

/// What the loop does on a command, given the input line at that moment.
pub open spec fn loop_action(input: Seq<char>, cmd: UiCommand) -> Option<Option<Seq<char>>> {
    match cmd {
        UiCommand::ConfirmExit => None,
        UiCommand::EndOfInput => if input.len() == 0 {
            None
        } else {
            Some(None)
        },
        UiCommand::Submit => if input.len() > 0 {
            Some(Some(input))
        } else {
            Some(None)
        },
        _ => Some(None),
    }
}

/// The meaning of a `LoopAction`: `None` to exit, `Some(Some(c))` to run `c`.
pub open spec fn action_view(a: LoopAction) -> Option<Option<Seq<char>>> {
    match a {
        LoopAction::Exit => None,
        LoopAction::Continue => Some(None),
        LoopAction::Submit(s) => Some(Some(s@)),
    }
}

pub struct TerminalUI {
    input_buffer: String,
    cursor_pos: usize,
    active_tab: usize,
    tabs: Vec<String>,
    show_autowire_panel: bool,
}

impl View for TerminalUI {
    type V = UiView;

    closed spec fn view(&self) -> UiView {
        UiView {
            input: self.input_buffer@,
            cursor: self.cursor_pos as nat,
            tabs: self.tabs@.map_values(|t: String| t@),
            active_tab: self.active_tab as nat,
            autowire_panel: self.show_autowire_panel,
        }
    }
}

impl TerminalUI {
    /// The cursor is within the input; there is always a tab, and the active
    /// one exists.
    pub open spec fn wf(&self) -> bool {
        &&& self@.cursor <= self@.input.len()
        &&& self@.tabs.len() >= 1
        &&& self@.active_tab < self@.tabs.len()
    }

    pub fn new() -> (r: TerminalUI)
        ensures
            r.wf(),
            r@.input.len() == 0,
            r@.cursor == 0,
            r@.tabs == seq!["Terminal"@],
            r@.active_tab == 0,
            !r@.autowire_panel,
    {
        let mut tabs: Vec<String> = Vec::new();
        tabs.push("Terminal".to_string());
        let r = TerminalUI {
            input_buffer: String::new(),
            cursor_pos: 0,
            active_tab: 0,
            tabs,
            show_autowire_panel: false,
        };
        proof {
            assert(r@.tabs =~= seq!["Terminal"@]);
        }
        r
    }

    pub fn input_char(&mut self, c: char)
        requires
            old(self).wf(),
            old(self)@.input.len() < usize::MAX,
        ensures
            final(self).wf(),
            final(self)@ == ui_after(old(self)@, UiCommand::Insert(c)),
    {
        let n = self.input_buffer.as_str().unicode_len();
        let mut s = self.input_buffer.as_str().substring_char(0, self.cursor_pos).to_string();
        push_char(&mut s, c);
        s.append(self.input_buffer.as_str().substring_char(self.cursor_pos, n));
        proof {
            let v = old(self)@;
            assert(s@ =~= v.input.take(v.cursor as int).push(c) + v.input.skip(v.cursor as int));
        }
        self.input_buffer = s;
        self.cursor_pos = self.cursor_pos + 1;
        proof {
            assert(self@ == ui_after(old(self)@, UiCommand::Insert(c)));
        }
    }

    pub fn input_backspace(&mut self)
        requires
            old(self).wf(),
        ensures
            final(self).wf(),
            final(self)@ == ui_after(old(self)@, UiCommand::Backspace),
    {
        if self.cursor_pos > 0 {
            let n = self.input_buffer.as_str().unicode_len();
            let mut s = self.input_buffer.as_str().substring_char(0, self.cursor_pos - 1).to_string();
            s.append(self.input_buffer.as_str().substring_char(self.cursor_pos, n));
            proof {
                let v = old(self)@;
                assert(s@ =~= v.input.take(v.cursor - 1) + v.input.skip(v.cursor as int));
            }
            self.input_buffer = s;
            self.cursor_pos = self.cursor_pos - 1;
        }
    }

    pub fn get_input(&self) -> (r: String)
        ensures
            r@ == self@.input,
    {
        self.input_buffer.clone()
    }

    pub fn clear_input(&mut self)
        requires
            old(self).wf(),
        ensures
            final(self).wf(),
            final(self)@ == (UiView { input: Seq::empty(), cursor: 0, ..old(self)@ }),
    {
        self.input_buffer = String::new();
        self.cursor_pos = 0;
        proof {
            assert(self@ == (UiView { input: Seq::empty(), cursor: 0, ..old(self)@ }));
        }
    }

    pub fn is_input_empty(&self) -> (r: bool)
        ensures
            r == (self@.input.len() == 0),
    {
        self.input_buffer.as_str().is_empty()
    }

    pub fn cursor_left(&mut self)
        requires
            old(self).wf(),
        ensures
            final(self).wf(),
            final(self)@ == ui_after(old(self)@, UiCommand::CursorLeft),
    {
        if self.cursor_pos > 0 {
            self.cursor_pos = self.cursor_pos - 1;
        }
    }

    pub fn cursor_right(&mut self)
        requires
            old(self).wf(),
        ensures
            final(self).wf(),
            final(self)@ == ui_after(old(self)@, UiCommand::CursorRight),
    {
        if self.cursor_pos < self.input_buffer.as_str().unicode_len() {
            self.cursor_pos = self.cursor_pos + 1;
        }
    }

    pub fn new_tab(&mut self)
        requires
            old(self).wf(),
            old(self)@.tabs.len() < usize::MAX,
        ensures
            final(self).wf(),
            final(self)@ == ui_after(old(self)@, UiCommand::NewTab),
    {
        let mut title = "Tab ".to_string();
        let num = decimal(self.tabs.len() + 1);
        title.append(num.as_str());
        let ghost before = self.tabs@;
        self.tabs.push(title);
        self.active_tab = self.tabs.len() - 1;
        proof {
            assert(self.tabs@.map_values(|t: String| t@) =~= before.map_values(|t: String| t@).push(
                tab_title(before.len() + 1),
            ));
        }
    }

    pub fn close_tab(&mut self)
        requires
            old(self).wf(),
        ensures
            final(self).wf(),
            final(self)@ == ui_after(old(self)@, UiCommand::CloseTab),
    {
        if self.tabs.len() > 1 {
            let ghost before = self.tabs@;
            self.tabs.remove(self.active_tab);
            if self.active_tab >= self.tabs.len() {
                self.active_tab = self.tabs.len() - 1;
            }
            proof {
                assert(self.tabs@.map_values(|t: String| t@) =~= before.map_values(|t: String| t@).remove(
                    old(self).active_tab as int,
                ));
            }
        }
    }

    pub fn next_tab(&mut self)
        requires
            old(self).wf(),
        ensures
            final(self).wf(),
            final(self)@ == ui_after(old(self)@, UiCommand::NextTab),
    {
        let len = self.tabs.len();
        assert(self@.tabs.len() == len);
        self.active_tab = (self.active_tab + 1) % len;
    }

    pub fn show_ai_suggestions_with_autowire(&mut self)
        requires
            old(self).wf(),
        ensures
            final(self).wf(),
            final(self)@ == ui_after(old(self)@, UiCommand::ToggleAutowirePanel),
    {
        self.show_autowire_panel = !self.show_autowire_panel;
    }

    pub fn show_autowire_status(&mut self)
        requires
            old(self).wf(),
        ensures
            final(self).wf(),
            final(self)@ == ui_after(old(self)@, UiCommand::ShowAutowireStatus),
    {
        self.show_autowire_panel = true;
    }

    pub fn show_autowire_services(&mut self)
        requires
            old(self).wf(),
        ensures
            final(self).wf(),
            final(self)@ == ui_after(old(self)@, UiCommand::ShowAutowireServices),
    {
        self.show_autowire_panel = true;
    }

    /// Steps back through earlier commands; the front keeps no position in the history yet, so nothing changes.
    pub fn history_previous(&mut self)
        ensures
            final(self)@ == old(self)@,
    {
    }

    /// Steps forward through earlier commands; nothing changes yet.
    pub fn history_next(&mut self)
        ensures
            final(self)@ == old(self)@,
    {
    }

    /// Splits the pane side by side; panes are not drawn yet, so nothing changes.
    pub fn split_pane_vertical(&mut self)
        ensures
            final(self)@ == old(self)@,
    {
    }

    /// Splits the pane top and bottom; nothing changes yet.
    pub fn split_pane_horizontal(&mut self)
        ensures
            final(self)@ == old(self)@,
    {
    }

    /// Opens the fuzzy finder; nothing changes yet.
    pub fn open_fuzzy_finder(&mut self)
        ensures
            final(self)@ == old(self)@,
    {
    }

    /// Opens the history view; nothing changes yet.
    pub fn open_history(&mut self)
        ensures
            final(self)@ == old(self)@,
    {
    }

    /// Opens the git status view; nothing changes yet.
    pub fn open_git_status(&mut self)
        ensures
            final(self)@ == old(self)@,
    {
    }

    /// Shows local suggestions; there are none, so nothing changes.
    pub fn show_ai_suggestions(&mut self)
        ensures
            final(self)@ == old(self)@,
    {
    }

    /// Asks whether to leave; leaving is always confirmed.
    pub fn confirm_exit(&self) -> (r: bool)
        ensures
            r,
    {
        true
    }

    pub fn autowire_panel_shown(&self) -> (r: bool)
        ensures
            r == self@.autowire_panel,
    {
        self.show_autowire_panel
    }

    pub fn tab_titles(&self) -> (r: &Vec<String>)
        ensures
            r@.map_values(|t: String| t@) == self@.tabs,
    {
        &self.tabs
    }

    pub fn active_tab(&self) -> (r: usize)
        ensures
            r == self@.active_tab,
    {
        self.active_tab
    }

    /// Carries out a command on the front and says what the loop does next.
    pub fn apply(&mut self, cmd: UiCommand) -> (r: LoopAction)
        requires
            old(self).wf(),
            old(self)@.tabs.len() < usize::MAX,
            old(self)@.input.len() < usize::MAX,
        ensures
            final(self).wf(),
            final(self)@ == ui_after(old(self)@, cmd),
            action_view(r) == loop_action(old(self)@.input, cmd),
    {
        match cmd {
            UiCommand::ConfirmExit => if self.confirm_exit() {
                LoopAction::Exit
            } else {
                LoopAction::Continue
            },
            UiCommand::EndOfInput => if self.is_input_empty() {
                LoopAction::Exit
            } else {
                LoopAction::Continue
            },
            UiCommand::NewTab => {
                self.new_tab();
                LoopAction::Continue
            },
            UiCommand::CloseTab => {
                self.close_tab();
                LoopAction::Continue
            },
            UiCommand::NextTab => {
                self.next_tab();
                LoopAction::Continue
            },
            UiCommand::ToggleAutowirePanel => {
                self.show_ai_suggestions_with_autowire();
                LoopAction::Continue
            },
            UiCommand::ShowAutowireStatus => {
                self.show_autowire_status();
                LoopAction::Continue
            },
            UiCommand::ShowAutowireServices => {
                self.show_autowire_services();
                LoopAction::Continue
            },
            UiCommand::Submit => {
                let command = self.get_input();
                if !command.as_str().is_empty() {
                    LoopAction::Submit(command)
                } else {
                    LoopAction::Continue
                }
            },
            UiCommand::Insert(c) => {
                self.input_char(c);
                LoopAction::Continue
            },
            UiCommand::Backspace => {
                self.input_backspace();
                LoopAction::Continue
            },
            UiCommand::CursorLeft => {
                self.cursor_left();
                LoopAction::Continue
            },
            UiCommand::CursorRight => {
                self.cursor_right();
                LoopAction::Continue
            },
            UiCommand::SplitPaneVertical => {
                self.split_pane_vertical();
                LoopAction::Continue
            },
            UiCommand::SplitPaneHorizontal => {
                self.split_pane_horizontal();
                LoopAction::Continue
            },
            UiCommand::FuzzyFinder => {
                self.open_fuzzy_finder();
                LoopAction::Continue
            },
            UiCommand::OpenHistory => {
                self.open_history();
                LoopAction::Continue
            },
            UiCommand::GitStatus => {
                self.open_git_status();
                LoopAction::Continue
            },
            UiCommand::HistoryPrevious => {
                self.history_previous();
                LoopAction::Continue
            },
            UiCommand::HistoryNext => {
                self.history_next();
                LoopAction::Continue
            },
            UiCommand::Ignore => LoopAction::Continue,
        }
    }

    /// One key press: its binding, carried out.
    pub fn handle_key(&mut self, key: KeyPress) -> (r: LoopAction)
        requires
            old(self).wf(),
            old(self)@.tabs.len() < usize::MAX,
            old(self)@.input.len() < usize::MAX,
        ensures
            final(self).wf(),
            final(self)@ == ui_after(old(self)@, key_command(key)),
            action_view(r) == loop_action(old(self)@.input, key_command(key)),
    {
        let cmd = classify(key);
        self.apply(cmd)
    }
}

} // verus!
