//! A standalone video-player skeleton: playlist, cursor, playing flag,
//! volume and a fullscreen toggle.

use vstd::prelude::*;

verus! {

pub struct VideoPlayer {
    pub current_playlist: Vec<String>,
    pub current_index: usize,
    pub is_playing: bool,
    pub volume: u8,
    pub fullscreen: bool,
}

impl VideoPlayer {
    /// An empty player: no playlist, cursor at zero, paused, volume at
    /// eighty, windowed.
    pub fn new() -> (r: Self)
        ensures
            r.current_playlist@.len() == 0,
            r.current_index == 0,
            !r.is_playing,
            r.volume == 80,
            !r.fullscreen,
    {
        VideoPlayer {
            current_playlist: Vec::new(),
            current_index: 0,
            is_playing: false,
            volume: 80,
            fullscreen: false,
        }
    }

    /// Marks the player as playing.
    pub fn play(&mut self)
        ensures
            *final(self) == (VideoPlayer { is_playing: true, ..*old(self) }),
    {
        self.is_playing = true;
    }

    /// Marks the player as paused.
    pub fn pause(&mut self)
        ensures
            *final(self) == (VideoPlayer { is_playing: false, ..*old(self) }),
    {
        self.is_playing = false;
    }

    /// Flips between fullscreen and windowed.
    pub fn toggle_fullscreen(&mut self)
        ensures
            *final(self) == (VideoPlayer { fullscreen: !old(self).fullscreen, ..*old(self) }),
    {
        self.fullscreen = !self.fullscreen;
    }
}

} // verus!
