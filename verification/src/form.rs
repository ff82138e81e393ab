//! The transient text form used while adding or editing a song.
//!
//! Three text fields — title, artist, URL — and the index of the one that
//! currently receives keystrokes. The form is reset on entering the
//! add-song screen, pre-populated on entering the edit-song screen, and
//! simply abandoned on cancel.

use vstd::prelude::*;
use crate::song::{Song, SongView};
use crate::textops::{string_push, string_pop};

verus! {

pub struct FormBuffer {
    pub title: String,
    pub artist: String,
    pub url: String,
    pub active_field: usize,
}

/// The mathematical value of a [`FormBuffer`].
#[verifier::ext_equal]
pub struct FormView {
    pub title: Seq<char>,
    pub artist: Seq<char>,
    pub url: Seq<char>,
    pub active_field: usize,
}

impl View for FormBuffer {
    type V = FormView;

    open spec fn view(&self) -> FormView {
        FormView {
            title: self.title@,
            artist: self.artist@,
            url: self.url@,
            active_field: self.active_field,
        }
    }
}

/// An empty form with the first field active.
pub open spec fn form_cleared() -> FormView {
    FormView {
        title: Seq::empty(),
        artist: Seq::empty(),
        url: Seq::empty(),
        active_field: 0,
    }
}

/// The form pre-populated from a song, first field active.
pub open spec fn form_for_song(song: SongView) -> FormView {
    FormView { title: song.title, artist: song.artist, url: song.url, active_field: 0 }
}

/// A keystroke appended to the active field; a form whose active field is
/// out of range is left alone.
pub open spec fn form_push(f: FormView, c: char) -> FormView {
    if f.active_field == 0 {
        FormView { title: f.title.push(c), ..f }
    } else if f.active_field == 1 {
        FormView { artist: f.artist.push(c), ..f }
    } else if f.active_field == 2 {
        FormView { url: f.url.push(c), ..f }
    } else {
        f
    }
}

/// The last character removed from the active field, when it has one.
pub open spec fn form_backspace(f: FormView) -> FormView {
    if f.active_field == 0 && f.title.len() > 0 {
        FormView { title: f.title.drop_last(), ..f }
    } else if f.active_field == 1 && f.artist.len() > 0 {
        FormView { artist: f.artist.drop_last(), ..f }
    } else if f.active_field == 2 && f.url.len() > 0 {
        FormView { url: f.url.drop_last(), ..f }
    } else {
        f
    }
}

/// The next of the three fields made active, wrapping around.
pub open spec fn form_next_field(f: FormView) -> FormView {
    FormView { active_field: ((f.active_field + 1) % 3) as usize, ..f }
}

/// The previous of the three fields made active, wrapping around.
pub open spec fn form_prev_field(f: FormView) -> FormView {
    FormView {
        active_field: if f.active_field > 0 {
            (f.active_field - 1) as usize
        } else {
            2
        },
        ..f
    }
}

impl FormBuffer {
    /// Clears all three fields and makes the first one active.
    pub fn clear(&mut self)
        ensures
            final(self)@ == form_cleared(),
    {
        self.title = String::new();
        self.artist = String::new();
        self.url = String::new();
        self.active_field = 0;
    }

    /// Loads a song's fields into the form and makes the first one active.
    pub fn load_song(&mut self, song: &Song)
        ensures
            final(self)@ == form_for_song(song@),
    {
        self.title = song.title.clone();
        self.artist = song.artist.clone();
        self.url = song.url.clone();
        self.active_field = 0;
    }

    /// Appends a character to the active field.
    pub fn push_char(&mut self, c: char)
        ensures
            final(self)@ == form_push(old(self)@, c),
    {
        if self.active_field == 0 {
            string_push(&mut self.title, c);
        } else if self.active_field == 1 {
            string_push(&mut self.artist, c);
        } else if self.active_field == 2 {
            string_push(&mut self.url, c);
        }
    }

    /// Removes the last character of the active field, when it has one.
    pub fn backspace(&mut self)
        ensures
            final(self)@ == form_backspace(old(self)@),
    {
        if self.active_field == 0 {
            if !self.title.as_str().is_empty() {
                let _ = string_pop(&mut self.title);
            }
        } else if self.active_field == 1 {
            if !self.artist.as_str().is_empty() {
                let _ = string_pop(&mut self.artist);
            }
        } else if self.active_field == 2 {
            if !self.url.as_str().is_empty() {
                let _ = string_pop(&mut self.url);
            }
        }
    }

    /// Makes the next field active, wrapping over the three fields.
    pub fn next_field(&mut self)
        requires
            old(self)@.active_field < 3,
        ensures
            final(self)@ == form_next_field(old(self)@),
    {
        self.active_field = (self.active_field + 1) % 3;
    }

    /// Makes the previous field active, wrapping over the three fields.
    pub fn prev_field(&mut self)
        ensures
            final(self)@ == form_prev_field(old(self)@),
    {
        if self.active_field > 0 {
            self.active_field = self.active_field - 1;
        } else {
            self.active_field = 2;
        }
    }
}

} // verus!
