//! The playback session: the logical record of what is playing, and the
//! commands the controller issues to whoever owns the external player
//! process.
//!
//! The library never talks to the operating system itself. It keeps a
//! model of the external process — the `process` slot holds the handle of
//! the one live player, or nothing — and hands out [`PlaybackCommand`]
//! values; the process owner executes them in order and reports the
//! outcome of a spawn back through the controller.

use vstd::prelude::*;

verus! {

/// The logical playback state. `process` mirrors the one optional external
/// player process: it can hold at most one handle, so at most one player
/// is ever considered live.
pub struct PlaybackSession {
    pub current_song_title: Option<String>,
    pub is_playing: bool,
    pub volume: u8,
    pub process: Option<u64>,
}

/// The mathematical value of a [`PlaybackSession`].
#[verifier::ext_equal]
pub struct SessionView {
    pub current_song_title: Option<Seq<char>>,
    pub is_playing: bool,
    pub volume: u8,
    pub process: Option<u64>,
}

impl View for PlaybackSession {
    type V = SessionView;

    open spec fn view(&self) -> SessionView {
        SessionView {
            current_song_title: match self.current_song_title {
                Some(t) => Some(t@),
                None => None,
            },
            is_playing: self.is_playing,
            volume: self.volume,
            process: self.process,
        }
    }
}

/// An instruction to the owner of the external player process.
pub enum PlaybackCommand {
    /// Kill the live process and wait for it.
    Kill,
    /// Start the player on this source at this volume.
    Spawn { source: String, volume: u8 },
    /// Send the best-effort pause/resume control message.
    PauseSignal,
}

/// The mathematical value of a [`PlaybackCommand`].
#[verifier::ext_equal]
pub enum CommandView {
    Kill,
    Spawn { source: Seq<char>, volume: u8 },
    PauseSignal,
}

impl View for PlaybackCommand {
    type V = CommandView;

    open spec fn view(&self) -> CommandView {
        match self {
            PlaybackCommand::Kill => CommandView::Kill,
            PlaybackCommand::Spawn { source, volume } => CommandView::Spawn {
                source: source@,
                volume: *volume,
            },
            PlaybackCommand::PauseSignal => CommandView::PauseSignal,
        }
    }
}

impl DeepView for PlaybackCommand {
    type V = CommandView;

    open spec fn deep_view(&self) -> CommandView {
        self.view()
    }
}

/// Everything a key event asks the surroundings to do: persist the
/// playlist, and drive the external player.
pub struct Effects {
    pub save: bool,
    pub commands: Vec<PlaybackCommand>,
}

/// The mathematical value of an [`Effects`].
#[verifier::ext_equal]
pub struct EffectsView {
    pub save: bool,
    pub commands: Seq<CommandView>,
}

impl View for Effects {
    type V = EffectsView;

    open spec fn view(&self) -> EffectsView {
        EffectsView { save: self.save, commands: self.commands.deep_view() }
    }
}

/// A session with playback cleared: nothing current, not playing, no live
/// process; the volume setting survives.
pub open spec fn session_stopped(s: SessionView) -> SessionView {
    SessionView { current_song_title: None, is_playing: false, process: None, ..s }
}

/// Raising the volume one step: up by five, clamped at one hundred.
pub open spec fn volume_up(v: u8) -> u8 {
    if v + 5 >= 100 {
        100
    } else {
        (v + 5) as u8
    }
}

/// Lowering the volume one step: down by five, stopping at zero.
pub open spec fn volume_down(v: u8) -> u8 {
    if v >= 5 {
        (v - 5) as u8
    } else {
        0
    }
}

} // verus!
