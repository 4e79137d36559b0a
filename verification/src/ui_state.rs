//! The decision logic of the interactive view: which keystroke does what
//! in which input mode, how the tab selection cycles, how inbound events
//! are routed into the two histories, and how the histories are kept from
//! growing without bound. Drawing and key polling happen outside the
//! library; they feed keys in and carry the returned actions out.

use vstd::prelude::*;
use crate::message::{Message, MessageKind};

verus! {

/// Whether keystrokes steer the view or fill the input line.
#[derive(Debug, Clone, Copy, PartialEq, Eq, Structural)]
pub enum InputMode {
    Normal,
    Editing,
}

/// A keystroke, as the decision logic reads it.
#[derive(Debug, Clone, Copy, PartialEq, Eq, Structural)]
pub enum Key {
    Char(char),
    Esc,
    Enter,
    Tab,
    Backspace,
    Other,
}

/// What the surrounding loop must do after a keystroke: nothing beyond
/// redrawing, quit the program, or send the finished input line as a chat
/// message.
#[derive(Debug)]
pub enum UiAction {
    Idle,
    Quit,
    Send(Vec<char>),
}

/// How many events a history may hold before it is trimmed.
pub const HISTORY_LIMIT: usize = 100;

/// How many of the oldest events a trim removes.
pub const HISTORY_TRIM: usize = 50;

/// The view state the keyboard and the event stream drive.
#[derive(Debug)]
pub struct UiState {
    pub input_mode: InputMode,
    pub tab_selected: usize,
    pub input_buf: Vec<char>,
    pub chat_history: Vec<Message>,
    pub gift_history: Vec<Message>,
}

impl UiState {
    /// A fresh view: normal mode, first tab, everything empty.
    pub fn new() -> (s: UiState)
        ensures
            s.input_mode == InputMode::Normal,
            s.tab_selected == 0,
            s.input_buf@ == Seq::<char>::empty(),
            s.chat_history@ == Seq::<Message>::empty(),
            s.gift_history@ == Seq::<Message>::empty(),
    {
        UiState {
            input_mode: InputMode::Normal,
            tab_selected: 0,
            input_buf: Vec::new(),
            chat_history: Vec::new(),
            gift_history: Vec::new(),
        }
    }

    /// Moves the tab selection one to the right, wrapping from the third
    /// tab back to the first.
    pub fn tab_next(&mut self)
        ensures
            final(self).tab_selected == (if old(self).tab_selected + 1 > 2 {
                0int
            } else {
                old(self).tab_selected + 1
            }),
            final(self).input_mode == old(self).input_mode,
            final(self).input_buf == old(self).input_buf,
            final(self).chat_history == old(self).chat_history,
            final(self).gift_history == old(self).gift_history,
    {
        if self.tab_selected >= 2 {
            self.tab_selected = 0;
        } else {
            self.tab_selected = self.tab_selected + 1;
        }
    }

    /// Routes one inbound event: chat messages into the chat history,
    /// gifts into the gift history, everything else dropped.
    pub fn push_message(&mut self, m: Message)
        ensures
            final(self).chat_history@ == (if m.kind == MessageKind::DANMU_MSG {
                old(self).chat_history@.push(m)
            } else {
                old(self).chat_history@
            }),
            final(self).gift_history@ == (if m.kind == MessageKind::SEND_GIFT {
                old(self).gift_history@.push(m)
            } else {
                old(self).gift_history@
            }),
            final(self).input_mode == old(self).input_mode,
            final(self).tab_selected == old(self).tab_selected,
            final(self).input_buf == old(self).input_buf,
    {
        match m.kind {
            MessageKind::DANMU_MSG => self.chat_history.push(m),
            MessageKind::SEND_GIFT => self.gift_history.push(m),
            _ => {},
        }
    }

    /// Keeps the histories bounded: one that has reached the limit loses
    /// its oldest events, the rest stays in order.
    pub fn trim_histories(&mut self)
        ensures
            final(self).chat_history@ == (if old(self).chat_history@.len() >= HISTORY_LIMIT {
                old(self).chat_history@.skip(HISTORY_TRIM as int)
            } else {
                old(self).chat_history@
            }),
            final(self).gift_history@ == (if old(self).gift_history@.len() >= HISTORY_LIMIT {
                old(self).gift_history@.skip(HISTORY_TRIM as int)
            } else {
                old(self).gift_history@
            }),
            final(self).chat_history@.len() < HISTORY_LIMIT || final(self).chat_history@.len()
                <= old(self).chat_history@.len() - HISTORY_TRIM,
            final(self).input_mode == old(self).input_mode,
            final(self).tab_selected == old(self).tab_selected,
            final(self).input_buf == old(self).input_buf,
    {
        if self.chat_history.len() >= HISTORY_LIMIT {
            let tail = self.chat_history.split_off(HISTORY_TRIM);
            self.chat_history = tail;
            assert(self.chat_history@ =~= old(self).chat_history@.skip(HISTORY_TRIM as int));
        }
        if self.gift_history.len() >= HISTORY_LIMIT {
            let tail = self.gift_history.split_off(HISTORY_TRIM);
            self.gift_history = tail;
            assert(self.gift_history@ =~= old(self).gift_history@.skip(HISTORY_TRIM as int));
        }
    }

    /// Applies one keystroke. In normal mode `e` starts editing, `q` asks
    /// to quit and the tab key cycles the tabs; in editing mode
    /// characters and backspace edit the input line, escape leaves editing
    /// and enter hands a non-empty line out to be sent, clearing it.
    pub fn on_key(&mut self, k: Key) -> (a: UiAction)
        ensures
            final(self).chat_history == old(self).chat_history,
            final(self).gift_history == old(self).gift_history,
            old(self).input_mode == InputMode::Normal ==> ({
                &&& final(self).input_buf == old(self).input_buf
                &&& match k {
                    Key::Char(c) => if c == 'e' {
                        &&& final(self).input_mode == InputMode::Editing
                        &&& final(self).tab_selected == old(self).tab_selected
                        &&& a matches UiAction::Idle
                    } else if c == 'q' {
                        &&& final(self).input_mode == InputMode::Normal
                        &&& final(self).tab_selected == old(self).tab_selected
                        &&& a matches UiAction::Quit
                    } else {
                        &&& *final(self) == *old(self)
                        &&& a matches UiAction::Idle
                    },
                    Key::Tab => {
                        &&& final(self).input_mode == InputMode::Normal
                        &&& final(self).tab_selected == (if old(self).tab_selected + 1 > 2 {
                            0int
                        } else {
                            old(self).tab_selected + 1
                        })
                        &&& a matches UiAction::Idle
                    },
                    _ => {
                        &&& *final(self) == *old(self)
                        &&& a matches UiAction::Idle
                    },
                }
            }),
            old(self).input_mode == InputMode::Editing ==> ({
                &&& final(self).tab_selected == old(self).tab_selected
                &&& match k {
                    Key::Esc => {
                        &&& final(self).input_mode == InputMode::Normal
                        &&& final(self).input_buf == old(self).input_buf
                        &&& a matches UiAction::Idle
                    },
                    Key::Char(c) => {
                        &&& final(self).input_mode == InputMode::Editing
                        &&& final(self).input_buf@ == old(self).input_buf@.push(c)
                        &&& a matches UiAction::Idle
                    },
                    Key::Backspace => {
                        &&& final(self).input_mode == InputMode::Editing
                        &&& final(self).input_buf@ == (if old(self).input_buf@.len() > 0 {
                            old(self).input_buf@.drop_last()
                        } else {
                            old(self).input_buf@
                        })
                        &&& a matches UiAction::Idle
                    },
                    Key::Enter => {
                        &&& final(self).input_mode == InputMode::Editing
                        &&& if old(self).input_buf@.len() > 0 {
                            &&& final(self).input_buf@ == Seq::<char>::empty()
                            &&& (a matches UiAction::Send(text) && text@ == old(
                                self,
                            ).input_buf@)
                        } else {
                            &&& final(self).input_buf == old(self).input_buf
                            &&& a matches UiAction::Idle
                        }
                    },
                    _ => {
                        &&& *final(self) == *old(self)
                        &&& a matches UiAction::Idle
                    },
                }
            }),
    {
        match self.input_mode {
            InputMode::Normal => {
                match k {
                    Key::Char(c) => {
                        if c == 'e' {
                            self.input_mode = InputMode::Editing;
                            UiAction::Idle
                        } else if c == 'q' {
                            UiAction::Quit
                        } else {
                            UiAction::Idle
                        }
                    },
                    Key::Tab => {
                        self.tab_next();
                        UiAction::Idle
                    },
                    _ => UiAction::Idle,
                }
            },
            InputMode::Editing => {
                match k {
                    Key::Esc => {
                        self.input_mode = InputMode::Normal;
                        UiAction::Idle
                    },
                    Key::Char(c) => {
                        self.input_buf.push(c);
                        UiAction::Idle
                    },
                    Key::Backspace => {
                        self.input_buf.pop();
                        UiAction::Idle
                    },
                    Key::Enter => {
                        if self.input_buf.len() > 0 {
                            let mut text: Vec<char> = Vec::new();
                            std::mem::swap(&mut text, &mut self.input_buf);
                            UiAction::Send(text)
                        } else {
                            UiAction::Idle
                        }
                    },
                    _ => UiAction::Idle,
                }
            },
        }
    }
}

} // verus!
