//! The modal state machine of the music player, as mathematics.
//!
//! [`ControllerView`] is the abstract state of the controller and
//! [`controller_step`] is its transition function: one key event in, the
//! next state plus the demanded side effects out. The executable
//! controller is verified to follow these functions exactly, so every
//! question about its behaviour can be answered here.

use vstd::prelude::*;
use crate::form::{
    FormView, form_backspace, form_cleared, form_for_song, form_next_field, form_prev_field,
    form_push,
};
use crate::keys::Key;
use crate::playback::{CommandView, SessionView, session_stopped, volume_down, volume_up};
use crate::song::{SongView, resolved_source};

verus! {

/// Which screen of the music player is live, and so which key handler.
#[derive(Clone, Copy, PartialEq, Eq, Structural, Debug)]
pub enum MusicPlayerMode {
    Browse,
    NowPlaying,
    AddSong,
    EditSong,
    DeleteConfirm,
}

/// The abstract state of the music player controller.
#[verifier::ext_equal]
pub struct ControllerView {
    pub mode: MusicPlayerMode,
    pub playlist: Seq<SongView>,
    pub selected_song_index: usize,
    pub form: FormView,
    pub session: SessionView,
    pub home_dir: Option<Seq<char>>,
}

/// One transition: the state afterwards and the side effects owed.
#[verifier::ext_equal]
pub struct StepView {
    pub state: ControllerView,
    pub save: bool,
    pub commands: Seq<CommandView>,
}

/// Well-formedness of a controller state: the selection points into the
/// playlist (or sits at zero when there is nothing to select), the form's
/// active field is one of its three, and the volume is a percentage.
pub open spec fn wf(c: ControllerView) -> bool {
    &&& c.playlist.len() == 0 ==> c.selected_song_index == 0
    &&& c.playlist.len() > 0 ==> (c.selected_song_index as int) < c.playlist.len()
    &&& c.form.active_field < 3
    &&& c.session.volume <= 100
}

/// A key that changes nothing.
pub open spec fn no_step(c: ControllerView) -> StepView {
    StepView { state: c, save: false, commands: Seq::empty() }
}

/// The selection moved one song down, wrapping to the top past the end.
pub open spec fn step_down(sel: usize, len: int) -> usize {
    if sel + 1 < len {
        (sel + 1) as usize
    } else {
        0
    }
}

/// The selection moved one song up, wrapping to the bottom past the start.
pub open spec fn step_up(sel: usize, len: int) -> usize {
    if sel > 0 {
        (sel - 1) as usize
    } else {
        (len - 1) as usize
    }
}

/// Starting playback of the selected song: a no-op on an empty playlist;
/// otherwise any live process is to be killed, the session records the
/// selected title as current and playing — the process slot stays empty
/// until the spawn outcome is reported — and a spawn of the resolved
/// source at the current volume is demanded.
pub open spec fn play_step(c: ControllerView) -> StepView {
    if c.playlist.len() == 0 {
        no_step(c)
    } else {
        let song = c.playlist[c.selected_song_index as int];
        StepView {
            state: ControllerView {
                session: SessionView {
                    current_song_title: Some(song.title),
                    is_playing: true,
                    process: None,
                    ..c.session
                },
                ..c
            },
            save: false,
            commands: (if c.session.process is Some {
                seq![CommandView::Kill]
            } else {
                Seq::empty()
            }) + seq![
                CommandView::Spawn {
                    source: resolved_source(song, c.home_dir),
                    volume: c.session.volume,
                },
            ],
        }
    }
}

/// Stopping playback: the session is cleared and a live process is to be
/// killed.
pub open spec fn stop_step(c: ControllerView) -> StepView {
    StepView {
        state: ControllerView { session: session_stopped(c.session), ..c },
        save: false,
        commands: if c.session.process is Some {
            seq![CommandView::Kill]
        } else {
            Seq::empty()
        },
    }
}

/// Toggling play/pause: the logical flag flips, and when a process is
/// live the best-effort pause signal is sent to it.
pub open spec fn toggle_step(c: ControllerView) -> StepView {
    StepView {
        state: ControllerView {
            session: SessionView { is_playing: !c.session.is_playing, ..c.session },
            ..c
        },
        save: false,
        commands: if c.session.process is Some {
            seq![CommandView::PauseSignal]
        } else {
            Seq::empty()
        },
    }
}

/// The browse screen: navigate the playlist, start playback, or enter one
/// of the add, edit or delete screens. Every operation that needs a
/// selected song is a guarded no-op on an empty playlist.
pub open spec fn browse_step(c: ControllerView, key: Key) -> StepView {
    match key {
        Key::Down => if c.playlist.len() > 0 {
            no_step(
                ControllerView {
                    selected_song_index: step_down(c.selected_song_index, c.playlist.len() as int),
                    ..c
                },
            )
        } else {
            no_step(c)
        },
        Key::Up => if c.playlist.len() > 0 {
            no_step(
                ControllerView {
                    selected_song_index: step_up(c.selected_song_index, c.playlist.len() as int),
                    ..c
                },
            )
        } else {
            no_step(c)
        },
        Key::Enter => if c.playlist.len() > 0 {
            let played = play_step(c);
            StepView {
                state: ControllerView { mode: MusicPlayerMode::NowPlaying, ..played.state },
                ..played
            }
        } else {
            no_step(c)
        },
        Key::Char(ch) => if ch == 'a' {
            no_step(ControllerView { mode: MusicPlayerMode::AddSong, form: form_cleared(), ..c })
        } else if ch == 'e' {
            if c.playlist.len() > 0 {
                no_step(
                    ControllerView {
                        mode: MusicPlayerMode::EditSong,
                        form: form_for_song(c.playlist[c.selected_song_index as int]),
                        ..c
                    },
                )
            } else {
                no_step(c)
            }
        } else if ch == 'd' {
            if c.playlist.len() > 0 {
                no_step(ControllerView { mode: MusicPlayerMode::DeleteConfirm, ..c })
            } else {
                no_step(c)
            }
        } else {
            no_step(c)
        },
        _ => no_step(c),
    }
}

/// The now-playing screen: pause/resume, skip with wraparound, adjust the
/// clamped volume, or leave — plain back keeps the music running, escape
/// stops it first.
pub open spec fn now_playing_step(c: ControllerView, key: Key) -> StepView {
    match key {
        Key::Char(ch) => if ch == ' ' {
            toggle_step(c)
        } else if ch == 'n' {
            if c.playlist.len() > 0 {
                play_step(
                    ControllerView {
                        selected_song_index: step_down(
                            c.selected_song_index,
                            c.playlist.len() as int,
                        ),
                        ..c
                    },
                )
            } else {
                no_step(c)
            }
        } else if ch == 'p' {
            if c.playlist.len() > 0 {
                play_step(
                    ControllerView {
                        selected_song_index: step_up(
                            c.selected_song_index,
                            c.playlist.len() as int,
                        ),
                        ..c
                    },
                )
            } else {
                no_step(c)
            }
        } else if ch == '+' {
            no_step(
                ControllerView {
                    session: SessionView { volume: volume_up(c.session.volume), ..c.session },
                    ..c
                },
            )
        } else if ch == '-' {
            no_step(
                ControllerView {
                    session: SessionView { volume: volume_down(c.session.volume), ..c.session },
                    ..c
                },
            )
        } else if ch == 'b' {
            no_step(ControllerView { mode: MusicPlayerMode::Browse, ..c })
        } else {
            no_step(c)
        },
        Key::Esc => {
            let stopped = stop_step(c);
            StepView {
                state: ControllerView { mode: MusicPlayerMode::Browse, ..stopped.state },
                ..stopped
            }
        },
        _ => no_step(c),
    }
}

/// The song a submitted form stands for: its three fields, and no path.
pub open spec fn song_of_form(f: FormView) -> SongView {
    SongView { title: f.title, artist: f.artist, url: f.url, path: None }
}

/// Keys common to the add-song and edit-song screens: typing into and
/// moving between the three fields. `None` for a key the two screens
/// handle differently.
pub open spec fn form_edit_step(c: ControllerView, key: Key) -> Option<StepView> {
    match key {
        Key::Tab => Some(no_step(ControllerView { form: form_next_field(c.form), ..c })),
        Key::BackTab => Some(no_step(ControllerView { form: form_prev_field(c.form), ..c })),
        Key::Backspace => Some(no_step(ControllerView { form: form_backspace(c.form), ..c })),
        Key::Char(ch) => Some(no_step(ControllerView { form: form_push(c.form, ch), ..c })),
        Key::Esc => Some(no_step(ControllerView { mode: MusicPlayerMode::Browse, ..c })),
        _ => None,
    }
}

/// The add-song screen: form editing; enter advances through the fields
/// and, on the last one, appends the form as a new song, persists, and
/// returns to browsing. Escape discards the form without persisting.
pub open spec fn add_song_step(c: ControllerView, key: Key) -> StepView {
    match form_edit_step(c, key) {
        Some(step) => step,
        None => match key {
            Key::Enter => if c.form.active_field < 2 {
                no_step(
                    ControllerView {
                        form: FormView { active_field: (c.form.active_field + 1) as usize, ..c.form },
                        ..c
                    },
                )
            } else {
                StepView {
                    state: ControllerView {
                        mode: MusicPlayerMode::Browse,
                        playlist: c.playlist.push(song_of_form(c.form)),
                        ..c
                    },
                    save: true,
                    commands: Seq::empty(),
                }
            },
            _ => no_step(c),
        },
    }
}

/// The edit-song screen: form editing; enter advances through the fields
/// and, on the last one, overwrites the selected song's title, artist and
/// URL — its stored path survives — persists, and returns to browsing.
/// Escape discards the form without persisting.
pub open spec fn edit_song_step(c: ControllerView, key: Key) -> StepView {
    match form_edit_step(c, key) {
        Some(step) => step,
        None => match key {
            Key::Enter => if c.form.active_field < 2 {
                no_step(
                    ControllerView {
                        form: FormView { active_field: (c.form.active_field + 1) as usize, ..c.form },
                        ..c
                    },
                )
            } else {
                let i = c.selected_song_index as int;
                StepView {
                    state: ControllerView {
                        mode: MusicPlayerMode::Browse,
                        playlist: if i < c.playlist.len() {
                            c.playlist.update(
                                i,
                                SongView {
                                    title: c.form.title,
                                    artist: c.form.artist,
                                    url: c.form.url,
                                    path: c.playlist[i].path,
                                },
                            )
                        } else {
                            c.playlist
                        },
                        ..c
                    },
                    save: true,
                    commands: Seq::empty(),
                }
            },
            _ => no_step(c),
        },
    }
}

/// The selection after a song was removed: pulled back onto the new last
/// element when it pointed past the end of the shrunken playlist.
pub open spec fn selection_after_remove(sel: usize, new_len: int) -> usize {
    if sel >= new_len && new_len > 0 {
        (new_len - 1) as usize
    } else {
        sel
    }
}

/// The delete-confirmation screen: `y` removes the selected song and
/// persists; `n` or escape cancels. Either way back to browsing.
pub open spec fn delete_confirm_step(c: ControllerView, key: Key) -> StepView {
    match key {
        Key::Char(ch) => if ch == 'y' {
            if c.playlist.len() > 0 {
                let shorter = c.playlist.remove(c.selected_song_index as int);
                StepView {
                    state: ControllerView {
                        mode: MusicPlayerMode::Browse,
                        playlist: shorter,
                        selected_song_index: selection_after_remove(
                            c.selected_song_index,
                            shorter.len() as int,
                        ),
                        ..c
                    },
                    save: true,
                    commands: Seq::empty(),
                }
            } else {
                no_step(ControllerView { mode: MusicPlayerMode::Browse, ..c })
            }
        } else if ch == 'n' {
            no_step(ControllerView { mode: MusicPlayerMode::Browse, ..c })
        } else {
            no_step(c)
        },
        Key::Esc => no_step(ControllerView { mode: MusicPlayerMode::Browse, ..c }),
        _ => no_step(c),
    }
}

/// A successful spawn reported back: the fresh process handle fills the
/// one process slot.
pub open spec fn spawn_ok_step(c: ControllerView, handle: u64) -> ControllerView {
    ControllerView {
        session: SessionView { process: Some(handle), ..c.session },
        ..c
    }
}

/// A failed spawn reported back: the session falls back to idle — nothing
/// current, not playing — and the failure is fatal to nothing else.
pub open spec fn spawn_failed_step(c: ControllerView) -> ControllerView {
    ControllerView {
        session: SessionView { current_song_title: None, is_playing: false, ..c.session },
        ..c
    }
}

/// One key event dispatched to the handler of the live mode.
pub open spec fn controller_step(c: ControllerView, key: Key) -> StepView {
    match c.mode {
        MusicPlayerMode::Browse => browse_step(c, key),
        MusicPlayerMode::NowPlaying => now_playing_step(c, key),
        MusicPlayerMode::AddSong => add_song_step(c, key),
        MusicPlayerMode::EditSong => edit_song_step(c, key),
        MusicPlayerMode::DeleteConfirm => delete_confirm_step(c, key),
    }
}

} // verus!
