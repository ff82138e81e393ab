//! The executable music-player controller.
//!
//! Every method is verified to follow the transition functions of
//! [`crate::machine`] exactly: the new state is the one the mathematics
//! names, and the returned [`Effects`] say precisely what the caller owes
//! the surroundings — one playlist save, and the playback commands in
//! order.

use vstd::prelude::*;
use crate::form::FormBuffer;
use crate::keys::Key;
use crate::machine::{
    ControllerView, MusicPlayerMode, add_song_step, browse_step, controller_step,
    delete_confirm_step, edit_song_step, now_playing_step, play_step, spawn_failed_step,
    spawn_ok_step, step_down, step_up, stop_step, toggle_step, wf,
};
use crate::playback::{CommandView, Effects, PlaybackCommand, PlaybackSession};
use crate::song::{Song, default_playlist, default_playlist_view};

verus! {

/// The music player: modal state, playlist, selection, form, session.
pub struct MusicPlayerController {
    pub mode: MusicPlayerMode,
    pub playlist: Vec<Song>,
    pub selected_song_index: usize,
    pub form: FormBuffer,
    pub session: PlaybackSession,
    pub home_dir: Option<String>,
}

impl View for MusicPlayerController {
    type V = ControllerView;

    open spec fn view(&self) -> ControllerView {
        ControllerView {
            mode: self.mode,
            playlist: self.playlist.deep_view(),
            selected_song_index: self.selected_song_index,
            form: self.form@,
            session: self.session@,
            home_dir: self.home_dir.deep_view(),
        }
    }
}

fn no_effects() -> (e: Effects)
    ensures
        e@.save == false,
        e@.commands == Seq::<CommandView>::empty(),
{
    let e = Effects { save: false, commands: Vec::new() };
    proof {
        assert(e@.commands =~= Seq::<CommandView>::empty());
    }
    e
}

impl MusicPlayerController {
    /// A fresh controller on the browse screen: the given playlist, or the
    /// built-in samples when none was persisted; first song selected,
    /// volume at eighty, nothing playing.
    pub fn new(loaded: Option<Vec<Song>>, home_dir: Option<String>) -> (r: Self)
        ensures
            r@.mode == MusicPlayerMode::Browse,
            r@.playlist == match loaded {
                Some(v) => v.deep_view(),
                None => default_playlist_view(),
            },
            r@.selected_song_index == 0,
            r@.form == crate::form::form_cleared(),
            r@.session.current_song_title is None,
            !r@.session.is_playing,
            r@.session.volume == 80,
            r@.session.process is None,
            r@.home_dir == home_dir.deep_view(),
            wf(r@),
    {
        let playlist = match loaded {
            Some(v) => v,
            None => default_playlist(),
        };
        let r = MusicPlayerController {
            mode: MusicPlayerMode::Browse,
            playlist,
            selected_song_index: 0,
            form: FormBuffer {
                title: String::new(),
                artist: String::new(),
                url: String::new(),
                active_field: 0,
            },
            session: PlaybackSession {
                current_song_title: None,
                is_playing: false,
                volume: 80,
                process: None,
            },
            home_dir,
        };
        proof {
            assert(r@.form =~= crate::form::form_cleared());
        }
        r
    }

    /// Starts playback of the selected song; a no-op on an empty playlist.
    /// The returned commands replace whatever was live: first the kill of
    /// a live process, then the spawn.
    pub fn play_selected_song(&mut self) -> (cmds: Vec<PlaybackCommand>)
        requires
            wf(old(self)@),
        ensures
            final(self)@ == play_step(old(self)@).state,
            cmds.deep_view() == play_step(old(self)@).commands,
            wf(final(self)@),
    {
        let mut cmds: Vec<PlaybackCommand> = Vec::new();
        if self.playlist.len() == 0 {
            proof {
                assert(cmds.deep_view() =~= play_step(old(self)@).commands);
            }
            return cmds;
        }
        if self.session.process.is_some() {
            cmds.push(PlaybackCommand::Kill);
        }
        self.session.is_playing = true;
        self.session.process = None;
        let title = self.playlist[self.selected_song_index].title.clone();
        self.session.current_song_title = Some(title);
        let source = self.playlist[self.selected_song_index].resolve_source(&self.home_dir);
        let volume = self.session.volume;
        cmds.push(PlaybackCommand::Spawn { source, volume });
        proof {
            assert(final(self)@ =~~= play_step(old(self)@).state);
            assert(cmds.deep_view() =~~= play_step(old(self)@).commands);
        }
        cmds
    }

    /// Stops playback: clears the logical state and, when a process is
    /// live, demands its kill.
    pub fn stop_playback(&mut self) -> (cmds: Vec<PlaybackCommand>)
        requires
            wf(old(self)@),
        ensures
            final(self)@ == stop_step(old(self)@).state,
            cmds.deep_view() == stop_step(old(self)@).commands,
            wf(final(self)@),
    {
        let mut cmds: Vec<PlaybackCommand> = Vec::new();
        if self.session.process.is_some() {
            cmds.push(PlaybackCommand::Kill);
        }
        self.session.is_playing = false;
        self.session.current_song_title = None;
        self.session.process = None;
        proof {
            assert(final(self)@ =~~= stop_step(old(self)@).state);
            assert(cmds.deep_view() =~~= stop_step(old(self)@).commands);
        }
        cmds
    }

    /// Flips the play/pause flag; when a process is live, demands the
    /// best-effort pause signal.
    pub fn toggle_playback(&mut self) -> (cmds: Vec<PlaybackCommand>)
        requires
            wf(old(self)@),
        ensures
            final(self)@ == toggle_step(old(self)@).state,
            cmds.deep_view() == toggle_step(old(self)@).commands,
            wf(final(self)@),
    {
        let mut cmds: Vec<PlaybackCommand> = Vec::new();
        self.session.is_playing = !self.session.is_playing;
        if self.session.process.is_some() {
            cmds.push(PlaybackCommand::PauseSignal);
        }
        proof {
            assert(final(self)@ =~~= toggle_step(old(self)@).state);
            assert(cmds.deep_view() =~~= toggle_step(old(self)@).commands);
        }
        cmds
    }

    /// Advances the selection with wraparound and restarts playback; a
    /// no-op on an empty playlist.
    pub fn next_song(&mut self) -> (cmds: Vec<PlaybackCommand>)
        requires
            wf(old(self)@),
        ensures
            final(self)@ == now_playing_step(old(self)@, Key::Char('n')).state,
            cmds.deep_view() == now_playing_step(old(self)@, Key::Char('n')).commands,
            wf(final(self)@),
    {
        if self.playlist.len() > 0 {
            self.selected_song_index = if self.selected_song_index + 1 < self.playlist.len() {
                self.selected_song_index + 1
            } else {
                0
            };
            let cmds = self.play_selected_song();
            cmds
        } else {
            let cmds: Vec<PlaybackCommand> = Vec::new();
            proof {
                assert(cmds.deep_view() =~= now_playing_step(old(self)@, Key::Char('n')).commands);
            }
            cmds
        }
    }

    /// Retreats the selection with wraparound and restarts playback; a
    /// no-op on an empty playlist.
    pub fn prev_song(&mut self) -> (cmds: Vec<PlaybackCommand>)
        requires
            wf(old(self)@),
        ensures
            final(self)@ == now_playing_step(old(self)@, Key::Char('p')).state,
            cmds.deep_view() == now_playing_step(old(self)@, Key::Char('p')).commands,
            wf(final(self)@),
    {
        if self.playlist.len() > 0 {
            self.selected_song_index = if self.selected_song_index == 0 {
                self.playlist.len() - 1
            } else {
                self.selected_song_index - 1
            };
            let cmds = self.play_selected_song();
            cmds
        } else {
            let cmds: Vec<PlaybackCommand> = Vec::new();
            proof {
                assert(cmds.deep_view() =~= now_playing_step(old(self)@, Key::Char('p')).commands);
            }
            cmds
        }
    }

    /// Records that the demanded spawn came up, under this handle.
    pub fn spawn_succeeded(&mut self, handle: u64)
        ensures
            final(self)@ == spawn_ok_step(old(self)@, handle),
    {
        self.session.process = Some(handle);
        proof {
            assert(final(self)@ =~~= spawn_ok_step(old(self)@, handle));
        }
    }

    /// Records that the demanded spawn failed: the session falls back to
    /// idle and the controller stays usable.
    pub fn spawn_failed(&mut self)
        ensures
            final(self)@ == spawn_failed_step(old(self)@),
    {
        self.session.is_playing = false;
        self.session.current_song_title = None;
        proof {
            assert(final(self)@ =~~= spawn_failed_step(old(self)@));
        }
    }

    /// One key on the browse screen.
    pub fn handle_browse_mode(&mut self, key: Key) -> (e: Effects)
        requires
            wf(old(self)@),
        ensures
            final(self)@ == browse_step(old(self)@, key).state,
            e@.save == browse_step(old(self)@, key).save,
            e@.commands == browse_step(old(self)@, key).commands,
            wf(final(self)@),
    {
        match key {
            Key::Down => {
                if self.playlist.len() > 0 {
                    self.selected_song_index = if self.selected_song_index + 1
                        < self.playlist.len() {
                        self.selected_song_index + 1
                    } else {
                        0
                    };
                }
                no_effects()
            },
            Key::Up => {
                if self.playlist.len() > 0 {
                    self.selected_song_index = if self.selected_song_index == 0 {
                        self.playlist.len() - 1
                    } else {
                        self.selected_song_index - 1
                    };
                }
                no_effects()
            },
            Key::Enter => {
                if self.playlist.len() > 0 {
                    let cmds = self.play_selected_song();
                    self.mode = MusicPlayerMode::NowPlaying;
                    Effects { save: false, commands: cmds }
                } else {
                    no_effects()
                }
            },
            Key::Char(ch) => {
                if ch == 'a' {
                    self.form.clear();
                    self.mode = MusicPlayerMode::AddSong;
                    no_effects()
                } else if ch == 'e' {
                    if self.playlist.len() > 0 {
                        let song = &self.playlist[self.selected_song_index];
                        let title = song.title.clone();
                        let artist = song.artist.clone();
                        let url = song.url.clone();
                        self.form.title = title;
                        self.form.artist = artist;
                        self.form.url = url;
                        self.form.active_field = 0;
                        self.mode = MusicPlayerMode::EditSong;
                        proof {
                            assert(final(self)@ =~~= browse_step(old(self)@, key).state);
                        }
                    }
                    no_effects()
                } else if ch == 'd' {
                    if self.playlist.len() > 0 {
                        self.mode = MusicPlayerMode::DeleteConfirm;
                    }
                    no_effects()
                } else {
                    no_effects()
                }
            },
            _ => no_effects(),
        }
    }

    /// One key on the now-playing screen.
    pub fn handle_now_playing_mode(&mut self, key: Key) -> (e: Effects)
        requires
            wf(old(self)@),
        ensures
            final(self)@ == now_playing_step(old(self)@, key).state,
            e@.save == now_playing_step(old(self)@, key).save,
            e@.commands == now_playing_step(old(self)@, key).commands,
            wf(final(self)@),
    {
        match key {
            Key::Char(ch) => {
                if ch == ' ' {
                    let cmds = self.toggle_playback();
                    Effects { save: false, commands: cmds }
                } else if ch == 'n' {
                    let cmds = self.next_song();
                    Effects { save: false, commands: cmds }
                } else if ch == 'p' {
                    let cmds = self.prev_song();
                    Effects { save: false, commands: cmds }
                } else if ch == '+' {
                    self.session.volume = if self.session.volume + 5 >= 100 {
                        100
                    } else {
                        self.session.volume + 5
                    };
                    no_effects()
                } else if ch == '-' {
                    self.session.volume = if self.session.volume >= 5 {
                        self.session.volume - 5
                    } else {
                        0
                    };
                    no_effects()
                } else if ch == 'b' {
                    self.mode = MusicPlayerMode::Browse;
                    no_effects()
                } else {
                    no_effects()
                }
            },
            Key::Esc => {
                let cmds = self.stop_playback();
                self.mode = MusicPlayerMode::Browse;
                Effects { save: false, commands: cmds }
            },
            _ => no_effects(),
        }
    }

    /// One key on the add-song screen.
    pub fn handle_add_song_mode(&mut self, key: Key) -> (e: Effects)
        requires
            wf(old(self)@),
        ensures
            final(self)@ == add_song_step(old(self)@, key).state,
            e@.save == add_song_step(old(self)@, key).save,
            e@.commands == add_song_step(old(self)@, key).commands,
            wf(final(self)@),
    {
        match key {
            Key::Esc => {
                self.mode = MusicPlayerMode::Browse;
                no_effects()
            },
            Key::Enter => {
                if self.form.active_field < 2 {
                    self.form.active_field = self.form.active_field + 1;
                    no_effects()
                } else {
                    let song = Song {
                        title: self.form.title.clone(),
                        artist: self.form.artist.clone(),
                        url: self.form.url.clone(),
                        path: None,
                    };
                    self.playlist.push(song);
                    self.mode = MusicPlayerMode::Browse;
                    proof {
                        assert(final(self)@.playlist =~~= add_song_step(
                            old(self)@,
                            key,
                        ).state.playlist);
                    }
                    Effects { save: true, commands: Vec::new() }
                }
            },
            Key::Tab => {
                self.form.next_field();
                no_effects()
            },
            Key::BackTab => {
                self.form.prev_field();
                no_effects()
            },
            Key::Backspace => {
                self.form.backspace();
                no_effects()
            },
            Key::Char(ch) => {
                self.form.push_char(ch);
                no_effects()
            },
            _ => no_effects(),
        }
    }

    /// One key on the edit-song screen.
    pub fn handle_edit_song_mode(&mut self, key: Key) -> (e: Effects)
        requires
            wf(old(self)@),
        ensures
            final(self)@ == edit_song_step(old(self)@, key).state,
            e@.save == edit_song_step(old(self)@, key).save,
            e@.commands == edit_song_step(old(self)@, key).commands,
            wf(final(self)@),
    {
        match key {
            Key::Esc => {
                self.mode = MusicPlayerMode::Browse;
                no_effects()
            },
            Key::Enter => {
                if self.form.active_field < 2 {
                    self.form.active_field = self.form.active_field + 1;
                    no_effects()
                } else {
                    if self.selected_song_index < self.playlist.len() {
                        let i = self.selected_song_index;
                        let title = self.form.title.clone();
                        let artist = self.form.artist.clone();
                        let url = self.form.url.clone();
                        self.playlist[i].title = title;
                        self.playlist[i].artist = artist;
                        self.playlist[i].url = url;
                        proof {
                            let target = edit_song_step(old(self)@, key).state.playlist;
                            assert forall|j: int|
                                0 <= j < self.playlist.deep_view().len() implies #[trigger] self
                                .playlist.deep_view()[j] == target[j] by {
                                if j != i {
                                    assert(self.playlist@[j] == old(self).playlist@[j]);
                                }
                            }
                            assert(self.playlist.deep_view() =~~= target);
                        }
                    }
                    self.mode = MusicPlayerMode::Browse;
                    Effects { save: true, commands: Vec::new() }
                }
            },
            Key::Tab => {
                self.form.next_field();
                no_effects()
            },
            Key::BackTab => {
                self.form.prev_field();
                no_effects()
            },
            Key::Backspace => {
                self.form.backspace();
                no_effects()
            },
            Key::Char(ch) => {
                self.form.push_char(ch);
                no_effects()
            },
            _ => no_effects(),
        }
    }

    /// One key on the delete-confirmation screen.
    pub fn handle_delete_confirm_mode(&mut self, key: Key) -> (e: Effects)
        requires
            wf(old(self)@),
        ensures
            final(self)@ == delete_confirm_step(old(self)@, key).state,
            e@.save == delete_confirm_step(old(self)@, key).save,
            e@.commands == delete_confirm_step(old(self)@, key).commands,
            wf(final(self)@),
    {
        match key {
            Key::Char(ch) => {
                if ch == 'y' {
                    if self.playlist.len() > 0 {
                        let _ = self.playlist.remove(self.selected_song_index);
                        if self.selected_song_index >= self.playlist.len()
                            && self.playlist.len() > 0 {
                            self.selected_song_index = self.playlist.len() - 1;
                        }
                        self.mode = MusicPlayerMode::Browse;
                        proof {
                            assert(final(self)@.playlist =~~= delete_confirm_step(
                                old(self)@,
                                key,
                            ).state.playlist);
                        }
                        Effects { save: true, commands: Vec::new() }
                    } else {
                        self.mode = MusicPlayerMode::Browse;
                        no_effects()
                    }
                } else if ch == 'n' {
                    self.mode = MusicPlayerMode::Browse;
                    no_effects()
                } else {
                    no_effects()
                }
            },
            Key::Esc => {
                self.mode = MusicPlayerMode::Browse;
                no_effects()
            },
            _ => no_effects(),
        }
    }

    /// One key event, dispatched to the handler of the live mode.
    pub fn handle_music_player_input(&mut self, key: Key) -> (e: Effects)
        requires
            wf(old(self)@),
        ensures
            final(self)@ == controller_step(old(self)@, key).state,
            e@.save == controller_step(old(self)@, key).save,
            e@.commands == controller_step(old(self)@, key).commands,
            wf(final(self)@),
    {
        match self.mode {
            MusicPlayerMode::Browse => self.handle_browse_mode(key),
            MusicPlayerMode::NowPlaying => self.handle_now_playing_mode(key),
            MusicPlayerMode::AddSong => self.handle_add_song_mode(key),
            MusicPlayerMode::EditSong => self.handle_edit_song_mode(key),
            MusicPlayerMode::DeleteConfirm => self.handle_delete_confirm_mode(key),
        }
    }
}

} // verus!
