//! A standalone music-player skeleton: a named playlist, a cursor with
//! wraparound, a playing flag and a clamped volume.

use vstd::prelude::*;
use crate::machine::{step_down, step_up};

verus! {

pub struct MusicPlayer {
    pub current_playlist: Vec<String>,
    pub current_index: usize,
    pub is_playing: bool,
    pub volume: u8,
}

/// The cursor points into the playlist, or sits at zero when the
/// playlist is empty.
pub open spec fn player_wf(p: MusicPlayer) -> bool {
    &&& p.current_playlist@.len() == 0 ==> p.current_index == 0
    &&& p.current_playlist@.len() > 0 ==> (p.current_index as int) < p.current_playlist@.len()
}

impl MusicPlayer {
    /// An empty player: no playlist, cursor at zero, paused, volume at
    /// eighty.
    pub fn new() -> (r: Self)
        ensures
            r.current_playlist@.len() == 0,
            r.current_index == 0,
            !r.is_playing,
            r.volume == 80,
            player_wf(r),
    {
        MusicPlayer {
            current_playlist: Vec::new(),
            current_index: 0,
            is_playing: false,
            volume: 80,
        }
    }

    /// Marks the player as playing.
    pub fn play(&mut self)
        ensures
            *final(self) == (MusicPlayer { is_playing: true, ..*old(self) }),
    {
        self.is_playing = true;
    }

    /// Marks the player as paused.
    pub fn pause(&mut self)
        ensures
            *final(self) == (MusicPlayer { is_playing: false, ..*old(self) }),
    {
        self.is_playing = false;
    }

    /// Moves the cursor one track forward, wrapping to the first; a no-op
    /// on an empty playlist.
    pub fn next(&mut self)
        requires
            player_wf(*old(self)),
        ensures
            player_wf(*final(self)),
            old(self).current_playlist@.len() > 0 ==> final(self).current_index == step_down(
                old(self).current_index,
                old(self).current_playlist@.len() as int,
            ),
            old(self).current_playlist@.len() == 0 ==> final(self).current_index == old(
                self,
            ).current_index,
            final(self).current_playlist == old(self).current_playlist,
            final(self).is_playing == old(self).is_playing,
            final(self).volume == old(self).volume,
    {
        if self.current_playlist.len() > 0 {
            self.current_index = if self.current_index + 1 < self.current_playlist.len() {
                self.current_index + 1
            } else {
                0
            };
        }
    }

    /// Moves the cursor one track back, wrapping to the last; a no-op on
    /// an empty playlist.
    pub fn prev(&mut self)
        requires
            player_wf(*old(self)),
        ensures
            player_wf(*final(self)),
            old(self).current_playlist@.len() > 0 ==> final(self).current_index == step_up(
                old(self).current_index,
                old(self).current_playlist@.len() as int,
            ),
            old(self).current_playlist@.len() == 0 ==> final(self).current_index == old(
                self,
            ).current_index,
            final(self).current_playlist == old(self).current_playlist,
            final(self).is_playing == old(self).is_playing,
            final(self).volume == old(self).volume,
    {
        if self.current_playlist.len() > 0 {
            self.current_index = if self.current_index > 0 {
                self.current_index - 1
            } else {
                self.current_playlist.len() - 1
            };
        }
    }

    /// Sets the volume, clamped to one hundred.
    pub fn set_volume(&mut self, volume: u8)
        ensures
            final(self).volume == if volume > 100 {
                100u8
            } else {
                volume
            },
            final(self).volume <= 100,
            final(self).current_playlist == old(self).current_playlist,
            final(self).current_index == old(self).current_index,
            final(self).is_playing == old(self).is_playing,
    {
        self.volume = if volume > 100 {
            100
        } else {
            volume
        };
    }
}

} // verus!
