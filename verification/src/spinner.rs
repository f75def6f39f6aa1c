//! The loading spinner: a fixed message followed by a frame character that
//! advances on every read.
use vstd::prelude::*;
use crate::strutil::string_push_char;

verus! {

/// The mathematical reading of the spinner.
pub struct SpinnerV {
    pub description: Seq<char>,
    pub frames: Seq<char>,
    pub pos: usize,
}

/// The spinner: its message, its frame characters, and the frame to show
/// next.
pub struct Spinner {
    description: String,
    spinner: Vec<char>,
    pub current_pos: usize,
}

impl View for Spinner {
    type V = SpinnerV;

    closed spec fn view(&self) -> SpinnerV {
        SpinnerV { description: self.description@, frames: self.spinner@, pos: self.current_pos }
    }
}

/// The frames used when the caller supplies none.
pub open spec fn default_frames() -> Seq<char> {
    seq!['\u{28fe}', '\u{28fd}', '\u{28fb}', '\u{28bf}', '\u{287f}', '\u{28df}', '\u{28ef}', '\u{28f7}']
}

impl Spinner {
    /// There is at least one frame and the position points at one.
    pub open spec fn wf(&self) -> bool {
        self@.frames.len() > 0 && self@.pos < self@.frames.len()
    }

    /// A fresh spinner over the given frames, or over the braille wheel
    /// when none are given, starting at the first frame.
    pub fn new(description: &str, spinner: Option<Vec<char>>) -> (r: Self)
        requires
            (spinner matches Option::Some(v) ==> v@.len() > 0),
        ensures
            r@.description == description@,
            r@.frames == (match spinner {
                Option::Some(v) => v@,
                Option::None => default_frames(),
            }),
            r@.pos == 0,
            r.wf(),
    {
        let frames = if let Some(s) = spinner {
            s
        } else {
            let mut v: Vec<char> = Vec::new();
            v.push('\u{28fe}');
            v.push('\u{28fd}');
            v.push('\u{28fb}');
            v.push('\u{28bf}');
            v.push('\u{287f}');
            v.push('\u{28df}');
            v.push('\u{28ef}');
            v.push('\u{28f7}');
            proof {
                assert(v@ =~= default_frames());
            }
            v
        };
        Self { description: description.to_owned(), spinner: frames, current_pos: 0 }
    }

    /// Advances to the next frame, going back to the first past the last.
    pub fn next_pos(&mut self)
        requires
            old(self).wf(),
        ensures
            final(self).wf(),
            final(self)@.description == old(self)@.description,
            final(self)@.frames == old(self)@.frames,
            final(self)@.pos == (if old(self)@.pos == old(self)@.frames.len() - 1 {
                0int
            } else {
                old(self)@.pos + 1
            }),
    {
        if self.current_pos == self.spinner.len() - 1 {
            self.current_pos = 0;
        } else {
            self.current_pos = self.current_pos + 1;
        }
    }

    /// The frame to show, advancing for the next read.
    pub fn get_spinner_char(&mut self) -> (c: char)
        requires
            old(self).wf(),
        ensures
            final(self).wf(),
            c == old(self)@.frames[old(self)@.pos as int],
            final(self)@.description == old(self)@.description,
            final(self)@.frames == old(self)@.frames,
            final(self)@.pos == (if old(self)@.pos == old(self)@.frames.len() - 1 {
                0int
            } else {
                old(self)@.pos + 1
            }),
    {
        let c = self.spinner[self.current_pos];
        self.next_pos();
        c
    }

    /// The message with the current frame appended, advancing the frame.
    pub fn get_message(&mut self) -> (r: String)
        requires
            old(self).wf(),
        ensures
            final(self).wf(),
            r@ == old(self)@.description.push(old(self)@.frames[old(self)@.pos as int]),
            final(self)@.description == old(self)@.description,
            final(self)@.frames == old(self)@.frames,
            final(self)@.pos == (if old(self)@.pos == old(self)@.frames.len() - 1 {
                0int
            } else {
                old(self)@.pos + 1
            }),
    {
        let c = self.get_spinner_char();
        let mut r = self.description.clone();
        string_push_char(&mut r, c);
        r
    }

    /// Starts over at the first frame.
    pub fn reset(&mut self)
        ensures
            final(self)@.description == old(self)@.description,
            final(self)@.frames == old(self)@.frames,
            final(self)@.pos == 0,
    {
        self.current_pos = 0;
    }
}

} // verus!
