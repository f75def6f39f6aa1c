//! The text-entry component behind the filter box: a line of text, a
//! cursor, and a two-state input mode (normal and edit).
use vstd::prelude::*;
use vstd::string::StrSliceExecFns;
use vstd::string::StringExecFns;
use crate::keyevent::{KeyCode, KeyInput};
use crate::strutil::string_push_char;

verus! {

/// The two input modes: keys navigate in `NormalMode` and type in
/// `EditMode`.
#[derive(Clone, Copy, Debug, PartialEq, Eq, Structural)]
pub enum InputMode {
    NormalMode,
    EditMode,
}

/// The mathematical reading of the component.
pub struct TextInputV {
    pub title: Seq<char>,
    pub default_msg: Seq<char>,
    pub msg: Seq<char>,
    pub is_active: bool,
    pub input_mode: InputMode,
    pub cursor: usize,
}

/// What one key press does to the component, and whether it is consumed:
/// `Enter` starts editing; while editing, characters are typed at the
/// cursor, `Backspace` deletes, the arrows move the cursor, and `Esc`
/// leaves editing.
pub open spec fn text_transition(pre: TextInputV, key: KeyInput) -> (TextInputV, bool) {
    if pre.input_mode is NormalMode {
        if key.code is Enter {
            ((TextInputV { input_mode: InputMode::EditMode, ..pre }), true)
        } else {
            (pre, false)
        }
    } else {
        match key.code {
            KeyCode::Char(c) => (
                (TextInputV {
                    msg: pre.msg.insert(pre.cursor as int, c),
                    cursor: (pre.cursor + 1) as usize,
                    ..pre
                }),
                true,
            ),
            KeyCode::Backspace => (
                (if pre.cursor > 0 {
                    TextInputV {
                        msg: pre.msg.remove(pre.cursor - 1),
                        cursor: (pre.cursor - 1) as usize,
                        ..pre
                    }
                } else {
                    pre
                }),
                true,
            ),
            KeyCode::Right => (
                (TextInputV {
                    cursor: (if pre.cursor < pre.msg.len() {
                        (pre.cursor + 1) as usize
                    } else {
                        pre.cursor
                    }),
                    ..pre
                }),
                true,
            ),
            KeyCode::Left => (
                (TextInputV {
                    cursor: (if pre.cursor > 0 {
                        (pre.cursor - 1) as usize
                    } else {
                        0usize
                    }),
                    ..pre
                }),
                true,
            ),
            KeyCode::Esc => ((TextInputV { input_mode: InputMode::NormalMode, ..pre }), true),
            _ => (pre, false),
        }
    }
}

/// The text-entry component: its title, the placeholder shown while empty,
/// the entered text, and the cursor position (in characters).
pub struct TextInputComponent {
    title: String,
    default_msg: String,
    msg: Vec<char>,
    is_active: bool,
    input_mode: InputMode,
    cursor_position: usize,
}

impl View for TextInputComponent {
    type V = TextInputV;

    closed spec fn view(&self) -> TextInputV {
        TextInputV {
            title: self.title@,
            default_msg: self.default_msg@,
            msg: self.msg@,
            is_active: self.is_active,
            input_mode: self.input_mode,
            cursor: self.cursor_position,
        }
    }
}

impl TextInputComponent {
    /// The cursor never leaves the entered text.
    pub open spec fn wf(&self) -> bool {
        self@.cursor <= self@.msg.len()
    }

    /// A fresh component: empty text, cursor at 0, normal mode, inactive.
    pub fn new(title: &str, default_msg: &str) -> (r: Self)
        ensures
            r@.title == title@,
            r@.default_msg == default_msg@,
            r@.msg == Seq::<char>::empty(),
            r@.is_active == false,
            r@.input_mode is NormalMode,
            r@.cursor == 0,
            r.wf(),
    {
        Self {
            msg: Vec::new(),
            is_active: false,
            title: title.to_owned(),
            default_msg: default_msg.to_owned(),
            input_mode: InputMode::NormalMode,
            cursor_position: 0,
        }
    }

    /// The entered text.
    pub fn get_text(&self) -> (r: String)
        ensures
            r@ == self@.msg,
    {
        let mut s = String::new();
        let mut i: usize = 0;
        while i < self.msg.len()
            invariant
                i <= self.msg.len(),
                s@ == self@.msg.take(i as int),
            decreases self.msg.len() - i,
        {
            string_push_char(&mut s, self.msg[i]);
            proof {
                assert(self@.msg.take(i as int + 1) =~= self@.msg.take(i as int).push(
                    self@.msg[i as int],
                ));
            }
            i += 1;
        }
        proof {
            assert(self@.msg.take(self@.msg.len() as int) =~= self@.msg);
        }
        s
    }

    /// Flips whether the component is the active one.
    pub fn toggle_active(&mut self)
        ensures
            final(self)@ == (TextInputV { is_active: !old(self)@.is_active, ..old(self)@ }),
    {
        self.is_active = !self.is_active;
    }

    /// Marks the component active.
    pub fn select(&mut self)
        ensures
            final(self)@ == (TextInputV { is_active: true, ..old(self)@ }),
    {
        self.is_active = true;
    }

    /// Marks the component inactive.
    pub fn deselect(&mut self)
        ensures
            final(self)@ == (TextInputV { is_active: false, ..old(self)@ }),
    {
        self.is_active = false;
    }

    /// Sets the input mode.
    pub fn set_input_mode(&mut self, mode: InputMode)
        ensures
            final(self)@ == (TextInputV { input_mode: mode, ..old(self)@ }),
    {
        self.input_mode = mode;
    }

    /// Whether keys currently navigate rather than type.
    pub fn is_normal_mode(&self) -> (r: bool)
        ensures
            r == (self@.input_mode is NormalMode),
    {
        match self.input_mode {
            InputMode::NormalMode => true,
            InputMode::EditMode => false,
        }
    }

    /// Replaces the title.
    pub fn set_title(&mut self, title: String)
        ensures
            final(self)@ == (TextInputV { title: title@, ..old(self)@ }),
    {
        self.title = title;
    }

    /// The title, for the frame around the component.
    pub fn get_title(&self) -> (r: String)
        ensures
            r@ == self@.title,
    {
        self.title.clone()
    }

    /// Whether the component is the active one.
    pub fn is_active(&self) -> (r: bool)
        ensures
            r == self@.is_active,
    {
        self.is_active
    }

    /// Moves the cursor one character right, stopping at the end.
    pub fn next_cursor(&mut self)
        requires
            old(self).wf(),
        ensures
            final(self).wf(),
            final(self)@ == (TextInputV {
                cursor: (if old(self)@.cursor < old(self)@.msg.len() {
                    (old(self)@.cursor + 1) as usize
                } else {
                    old(self)@.cursor
                }),
                ..old(self)@
            }),
    {
        if let Some(pos) = self.next_char_position() {
            self.cursor_position = pos;
        }
    }

    /// Moves the cursor one character left, stopping at the start.
    pub fn prev_cursor(&mut self)
        ensures
            final(self)@ == (TextInputV {
                cursor: (if old(self)@.cursor > 0 {
                    (old(self)@.cursor - 1) as usize
                } else {
                    0usize
                }),
                ..old(self)@
            }),
    {
        if self.cursor_position > 0 {
            self.cursor_position = self.cursor_position - 1;
        }
    }

    /// The cursor position one character right of the current one, or
    /// nothing when the cursor already sits at the end.
    pub fn next_char_position(&self) -> (r: Option<usize>)
        requires
            self.wf(),
        ensures
            r == (if self@.cursor < self@.msg.len() {
                Option::Some((self@.cursor + 1) as usize)
            } else {
                Option::<usize>::None
            }),
    {
        if self.cursor_position >= self.msg.len() {
            return None;
        }
        Some(self.cursor_position + 1)
    }

    /// Deletes the character left of the cursor, if there is one, moving
    /// the cursor onto the gap.
    pub fn delete(&mut self)
        requires
            old(self).wf(),
        ensures
            final(self).wf(),
            old(self)@.cursor > 0 ==> final(self)@ == (TextInputV {
                msg: old(self)@.msg.remove(old(self)@.cursor - 1),
                cursor: (old(self)@.cursor - 1) as usize,
                ..old(self)@
            }),
            old(self)@.cursor == 0 ==> final(self)@ == old(self)@,
    {
        if self.cursor_position > 0 {
            self.prev_cursor();
            self.msg.remove(self.cursor_position);
        }
    }

    /// `msg` with `ch` spliced in at character position `at`: how the
    /// cursor bar is shown inside the text.
    pub fn insert_cursor(msg: &str, at: usize, ch: &str) -> (r: String)
        requires
            at <= msg@.len(),
        ensures
            r@ == msg@.take(at as int) + ch@ + msg@.skip(at as int),
    {
        let n = msg.unicode_len();
        let first = msg.substring_char(0, at);
        let last = msg.substring_char(at, n);
        let mut r = first.to_owned();
        r.append(ch);
        r.append(last);
        r
    }

    /// The line to paint: the placeholder while the text is empty, and the
    /// cursor bar spliced in while in edit mode.
    pub fn display_text(&self) -> (r: String)
        requires
            self.wf(),
        ensures
            ({
                let base = if self@.msg.len() == 0 {
                    self@.default_msg
                } else {
                    self@.msg
                };
                if self@.input_mode is NormalMode {
                    r@ == base
                } else {
                    r@ == base.take(self@.cursor as int) + "|"@ + base.skip(self@.cursor as int)
                }
            }),
    {
        let text = self.get_text();
        let base = if text.as_str().is_empty() {
            self.default_msg.clone()
        } else {
            text
        };
        if self.is_normal_mode() {
            base
        } else {
            Self::insert_cursor(base.as_str(), self.cursor_position, "|")
        }
    }

    /// One key press, in either mode: `Enter` starts editing; while
    /// editing, characters are typed at the cursor, `Backspace` deletes,
    /// the arrows move the cursor, and `Esc` leaves editing. Reports
    /// whether the key was consumed.
    pub fn handle_event(&mut self, key: KeyInput) -> (r: bool)
        requires
            old(self).wf(),
        ensures
            final(self).wf(),
            (final(self)@, r) == text_transition(old(self)@, key),
    {
        let mut solved = true;
        if self.is_normal_mode() {
            match key.code {
                KeyCode::Enter => self.set_input_mode(InputMode::EditMode),
                _ => solved = false,
            }
        } else {
            match key.code {
                KeyCode::Char(c) => {
                    self.msg.insert(self.cursor_position, c);
                    self.next_cursor();
                },
                KeyCode::Backspace => self.delete(),
                KeyCode::Right => self.next_cursor(),
                KeyCode::Left => self.prev_cursor(),
                KeyCode::Esc => self.set_input_mode(InputMode::NormalMode),
                _ => solved = false,
            }
        }
        solved
    }
}

} // verus!
