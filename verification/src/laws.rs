//! Proved laws of the music-player state machine.
//!
//! Each proof function here states a guarantee of the controller over the
//! transition functions of [`crate::machine`], which the executable
//! controller is verified to follow exactly.

use vstd::prelude::*;
use crate::codec::{parse_playlist, playlist_json};
use crate::keys::Key;
use crate::machine::{
    ControllerView, MusicPlayerMode, controller_step, play_step, song_of_form, spawn_ok_step, wf,
};
use crate::playback::CommandView;
use crate::roundtrip::lemma_playlist_round_trip;
use crate::song::resolved_source;

verus! {

/// The state reached by feeding a sequence of keys to the controller.
pub open spec fn apply_keys(c: ControllerView, keys: Seq<Key>) -> ControllerView
    decreases keys.len(),
{
    if keys.len() == 0 {
        c
    } else {
        apply_keys(controller_step(c, keys[0]).state, keys.skip(1))
    }
}

/// Every key event preserves well-formedness: the selection stays inside
/// the playlist, the active form field stays one of the three, and the
/// volume stays a percentage.
pub proof fn lemma_step_preserves_wf(c: ControllerView, key: Key)
    requires
        wf(c),
    ensures
        wf(controller_step(c, key).state),
{
}

/// A playlist navigation key on the browse screen keeps the selection
/// within the playlist and wraps at both ends: down from the last song
/// selects the first, up from the first selects the last.
pub proof fn lemma_browse_navigation_wraps(c: ControllerView, key: Key)
    requires
        wf(c),
        c.mode == MusicPlayerMode::Browse,
        1 <= c.playlist.len() <= usize::MAX,
        key == Key::Down || key == Key::Up,
    ensures
        (controller_step(c, key).state.selected_song_index as int) < c.playlist.len(),
        key == Key::Down && c.selected_song_index as int == c.playlist.len() - 1
            ==> controller_step(c, key).state.selected_song_index == 0,
        key == Key::Down && (c.selected_song_index as int) < c.playlist.len() - 1
            ==> controller_step(c, key).state.selected_song_index as int
                == c.selected_song_index + 1,
        key == Key::Up && c.selected_song_index == 0
            ==> controller_step(c, key).state.selected_song_index as int == c.playlist.len() - 1,
        key == Key::Up && c.selected_song_index > 0
            ==> controller_step(c, key).state.selected_song_index as int
                == c.selected_song_index - 1,
        controller_step(c, key).state.playlist == c.playlist,
        controller_step(c, key).state.mode == MusicPlayerMode::Browse,
{
}

/// Any sequence of down and up keys on the browse screen keeps the
/// selection within the playlist, and touches nothing but the selection.
pub proof fn lemma_browse_navigation_in_bounds(c: ControllerView, keys: Seq<Key>)
    requires
        wf(c),
        c.mode == MusicPlayerMode::Browse,
        1 <= c.playlist.len() <= usize::MAX,
        forall|i: int| 0 <= i < keys.len() ==> keys[i] == Key::Down || keys[i] == Key::Up,
    ensures
        (apply_keys(c, keys).selected_song_index as int) < c.playlist.len(),
        apply_keys(c, keys).playlist == c.playlist,
        apply_keys(c, keys).mode == MusicPlayerMode::Browse,
        wf(apply_keys(c, keys)),
    decreases keys.len(),
{
    if keys.len() > 0 {
        let c1 = controller_step(c, keys[0]).state;
        lemma_browse_navigation_wraps(c, keys[0]);
        assert forall|i: int| 0 <= i < keys.skip(1).len() implies keys.skip(1)[i] == Key::Down
            || keys.skip(1)[i] == Key::Up by {
            assert(keys.skip(1)[i] == keys[i + 1]);
        }
        lemma_browse_navigation_in_bounds(c1, keys.skip(1));
    }
}

/// Confirming a delete while the last song is selected moves the
/// selection to the new last element; deleting the only song leaves the
/// playlist empty with the selection at zero. Either way the remaining
/// songs are exactly the others, in order, and the change is persisted.
pub proof fn lemma_delete_last_selected(c: ControllerView)
    requires
        wf(c),
        c.mode == MusicPlayerMode::DeleteConfirm,
        c.playlist.len() > 0,
        c.selected_song_index as int == c.playlist.len() - 1,
    ensures
        controller_step(c, Key::Char('y')).state.playlist
            == c.playlist.remove(c.selected_song_index as int),
        controller_step(c, Key::Char('y')).state.playlist.len() == c.playlist.len() - 1,
        c.playlist.len() > 1 ==> controller_step(c, Key::Char('y')).state.selected_song_index as int
            == c.playlist.len() - 2,
        c.playlist.len() == 1 ==> controller_step(c, Key::Char('y')).state.selected_song_index
            == 0,
        controller_step(c, Key::Char('y')).save,
        wf(controller_step(c, Key::Char('y')).state),
{
}

/// Submitting the edit form changes only the selected song, and of it
/// only the title, artist and URL — its stored path, every other song,
/// and the order all survive; the change is persisted.
pub proof fn lemma_edit_changes_only_selected(c: ControllerView)
    requires
        wf(c),
        c.mode == MusicPlayerMode::EditSong,
        c.form.active_field == 2,
        c.playlist.len() > 0,
    ensures
        controller_step(c, Key::Enter).state.playlist.len() == c.playlist.len(),
        forall|j: int|
            0 <= j < c.playlist.len() && j != c.selected_song_index as int
                ==> controller_step(c, Key::Enter).state.playlist[j] == c.playlist[j],
        controller_step(c, Key::Enter).state.playlist[c.selected_song_index as int].title
            == c.form.title,
        controller_step(c, Key::Enter).state.playlist[c.selected_song_index as int].artist
            == c.form.artist,
        controller_step(c, Key::Enter).state.playlist[c.selected_song_index as int].url
            == c.form.url,
        controller_step(c, Key::Enter).state.playlist[c.selected_song_index as int].path
            == c.playlist[c.selected_song_index as int].path,
        controller_step(c, Key::Enter).save,
{
}

/// Submitting the add-song form appends the form's fields as a new song
/// with no stored path, persists, and what was persisted reads back as
/// exactly the new playlist — so a reload right after the add ends with
/// that song as the last element.
pub proof fn lemma_add_then_reload(c: ControllerView)
    requires
        wf(c),
        c.mode == MusicPlayerMode::AddSong,
        c.form.active_field == 2,
    ensures
        controller_step(c, Key::Enter).save,
        controller_step(c, Key::Enter).state.playlist == c.playlist.push(song_of_form(c.form)),
        parse_playlist(playlist_json(controller_step(c, Key::Enter).state.playlist)) == Some(
            controller_step(c, Key::Enter).state.playlist,
        ),
        controller_step(c, Key::Enter).state.playlist.last() == song_of_form(c.form),
        song_of_form(c.form).path is None,
        song_of_form(c.form).title == c.form.title,
        song_of_form(c.form).artist == c.form.artist,
        song_of_form(c.form).url == c.form.url,
{
    lemma_playlist_round_trip(controller_step(c, Key::Enter).state.playlist);
}

/// Cancelling the add-song or edit-song screen mutates no playlist state,
/// demands no save and no playback command, and returns to browsing.
pub proof fn lemma_cancel_changes_nothing(c: ControllerView)
    requires
        c.mode == MusicPlayerMode::AddSong || c.mode == MusicPlayerMode::EditSong,
    ensures
        controller_step(c, Key::Esc).state.playlist == c.playlist,
        controller_step(c, Key::Esc).state.selected_song_index == c.selected_song_index,
        controller_step(c, Key::Esc).state.session == c.session,
        !controller_step(c, Key::Esc).save,
        controller_step(c, Key::Esc).commands == Seq::<CommandView>::empty(),
        controller_step(c, Key::Esc).state.mode == MusicPlayerMode::Browse,
{
}

/// Skipping forward or back on a single-song playlist reselects that one
/// song and restarts its playback: the demanded commands end in a spawn
/// of its resolved source.
pub proof fn lemma_single_song_skip_reselects(c: ControllerView, key: Key)
    requires
        wf(c),
        c.mode == MusicPlayerMode::NowPlaying,
        c.playlist.len() == 1,
        key == Key::Char('n') || key == Key::Char('p'),
    ensures
        controller_step(c, key).state.selected_song_index == 0,
        controller_step(c, key).state.session.is_playing,
        controller_step(c, key).commands.len() > 0,
        controller_step(c, key).commands.last() == (CommandView::Spawn {
            source: resolved_source(c.playlist[0], c.home_dir),
            volume: c.session.volume,
        }),
{
}

/// Volume adjustments are clamped: up moves five towards one hundred and
/// never past it, down moves five towards zero and never below it.
pub proof fn lemma_volume_clamped(c: ControllerView, key: Key)
    requires
        wf(c),
        c.mode == MusicPlayerMode::NowPlaying,
        key == Key::Char('+') || key == Key::Char('-'),
    ensures
        controller_step(c, key).state.session.volume <= 100,
        key == Key::Char('+') ==> controller_step(c, key).state.session.volume as int == if c
            .session.volume + 5 >= 100 {
            100int
        } else {
            c.session.volume + 5
        },
        key == Key::Char('-') ==> controller_step(c, key).state.session.volume as int == if c
            .session.volume >= 5 {
            c.session.volume - 5
        } else {
            0int
        },
{
}

/// Starting playback always replaces the live process: whenever one is
/// live it is killed before the spawn, the process slot is empty until
/// the spawn outcome arrives, and a reported success fills it with just
/// the new handle — so exactly one player is live afterwards.
pub proof fn lemma_play_replaces_process(c: ControllerView, handle: u64)
    requires
        wf(c),
        c.playlist.len() > 0,
        c.session.process is Some,
    ensures
        play_step(c).commands[0] == CommandView::Kill,
        play_step(c).state.session.process is None,
        spawn_ok_step(play_step(c).state, handle).session.process == Some(handle),
{
}

} // verus!
