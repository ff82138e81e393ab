use terminus::controller::MusicPlayerController;
use terminus::keys::Key;
use terminus::machine::MusicPlayerMode;
use terminus::playback::PlaybackCommand;
use terminus::song::Song;

fn song(title: &str, artist: &str, url: &str) -> Song {
    Song { title: title.to_string(), artist: artist.to_string(), url: url.to_string(), path: None }
}

fn three_song_controller() -> MusicPlayerController {
    MusicPlayerController::new(
        Some(vec![
            song("One", "A", "u1"),
            song("Two", "B", "u2"),
            song("Three", "C", "u3"),
        ]),
        Some("/home/someone".to_string()),
    )
}

#[test]
fn new_controller_starts_browsing_with_defaults() {
    let c = MusicPlayerController::new(None, None);
    assert_eq!(c.mode, MusicPlayerMode::Browse);
    assert_eq!(c.playlist.len(), 3);
    assert_eq!(c.selected_song_index, 0);
    assert_eq!(c.session.volume, 80);
    assert!(!c.session.is_playing);
    assert!(c.session.process.is_none());
    assert_eq!(
        c.playlist[0].title,
        "Indonesian Folk Music Medley 2024 Ver. - hololive ID [Cover]"
    );
    assert_eq!(c.playlist[2].url, "https://youtu.be/wlyRGXUwjVA?feature=shared");
    assert!(c.playlist.iter().all(|s| s.path.is_none()));
}

#[test]
fn browse_down_wraps_at_end() {
    let mut c = three_song_controller();
    c.handle_music_player_input(Key::Down);
    assert_eq!(c.selected_song_index, 1);
    c.handle_music_player_input(Key::Down);
    assert_eq!(c.selected_song_index, 2);
    c.handle_music_player_input(Key::Down);
    assert_eq!(c.selected_song_index, 0);
    assert_eq!(c.mode, MusicPlayerMode::Browse);
}

#[test]
fn browse_up_wraps_at_start() {
    let mut c = three_song_controller();
    c.handle_music_player_input(Key::Up);
    assert_eq!(c.selected_song_index, 2);
    c.handle_music_player_input(Key::Up);
    assert_eq!(c.selected_song_index, 1);
}

#[test]
fn browse_navigation_stays_in_bounds() {
    let mut c = three_song_controller();
    let keys = [
        Key::Down, Key::Down, Key::Up, Key::Down, Key::Down, Key::Down, Key::Up, Key::Up,
        Key::Up, Key::Up, Key::Down,
    ];
    for k in keys {
        c.handle_music_player_input(k);
        assert!(c.selected_song_index < c.playlist.len());
        assert_eq!(c.mode, MusicPlayerMode::Browse);
    }
}

#[test]
fn browse_navigation_on_empty_playlist_is_a_no_op() {
    let mut c = MusicPlayerController::new(Some(Vec::new()), None);
    let e = c.handle_music_player_input(Key::Down);
    assert_eq!(c.selected_song_index, 0);
    assert!(!e.save);
    assert!(e.commands.is_empty());
    let e = c.handle_music_player_input(Key::Enter);
    assert_eq!(c.mode, MusicPlayerMode::Browse);
    assert!(e.commands.is_empty());
}

#[test]
fn enter_starts_playback_and_moves_to_now_playing() {
    let mut c = three_song_controller();
    let e = c.handle_music_player_input(Key::Enter);
    assert_eq!(c.mode, MusicPlayerMode::NowPlaying);
    assert!(c.session.is_playing);
    assert_eq!(c.session.current_song_title.as_deref(), Some("One"));
    assert_eq!(e.commands.len(), 1);
    match &e.commands[0] {
        PlaybackCommand::Spawn { source, volume } => {
            assert_eq!(source, "u1");
            assert_eq!(*volume, 80);
        }
        _ => panic!("expected a spawn command"),
    }
    assert!(!e.save);
}

#[test]
fn starting_playback_over_live_process_kills_it_first() {
    let mut c = three_song_controller();
    c.handle_music_player_input(Key::Enter);
    c.spawn_succeeded(41);
    assert_eq!(c.session.process, Some(41));
    // A second start must first kill the live player, then spawn once.
    let cmds = c.play_selected_song();
    assert_eq!(cmds.len(), 2);
    assert!(matches!(cmds[0], PlaybackCommand::Kill));
    assert!(matches!(cmds[1], PlaybackCommand::Spawn { .. }));
    assert!(c.session.process.is_none());
    c.spawn_succeeded(42);
    assert_eq!(c.session.process, Some(42));
}

#[test]
fn spawn_failure_reverts_to_idle() {
    let mut c = three_song_controller();
    c.handle_music_player_input(Key::Enter);
    c.spawn_failed();
    assert!(!c.session.is_playing);
    assert!(c.session.current_song_title.is_none());
    assert!(c.session.process.is_none());
    // The controller stays usable.
    let e = c.handle_music_player_input(Key::Char('n'));
    assert!(!e.commands.is_empty());
}

#[test]
fn next_and_previous_on_single_song_reselect_and_replay() {
    let mut c = MusicPlayerController::new(Some(vec![song("Solo", "A", "u")]), None);
    c.handle_music_player_input(Key::Enter);
    let cmds = c.next_song();
    assert_eq!(c.selected_song_index, 0);
    assert!(c.session.is_playing);
    assert!(matches!(cmds.last(), Some(PlaybackCommand::Spawn { .. })));
    let cmds = c.prev_song();
    assert_eq!(c.selected_song_index, 0);
    assert!(matches!(cmds.last(), Some(PlaybackCommand::Spawn { .. })));
}

#[test]
fn now_playing_skip_wraps_both_ways() {
    let mut c = three_song_controller();
    c.handle_music_player_input(Key::Enter);
    c.handle_music_player_input(Key::Char('n'));
    assert_eq!(c.selected_song_index, 1);
    c.handle_music_player_input(Key::Char('p'));
    assert_eq!(c.selected_song_index, 0);
    c.handle_music_player_input(Key::Char('p'));
    assert_eq!(c.selected_song_index, 2);
    c.handle_music_player_input(Key::Char('n'));
    assert_eq!(c.selected_song_index, 0);
}

#[test]
fn volume_up_is_clamped_at_one_hundred() {
    let mut c = three_song_controller();
    c.handle_music_player_input(Key::Enter);
    assert_eq!(c.session.volume, 80);
    for _ in 0..5 {
        c.handle_music_player_input(Key::Char('+'));
    }
    assert_eq!(c.session.volume, 100);
    c.handle_music_player_input(Key::Char('+'));
    assert_eq!(c.session.volume, 100);
}

#[test]
fn volume_down_stops_at_zero() {
    let mut c = three_song_controller();
    c.handle_music_player_input(Key::Enter);
    for _ in 0..4 {
        c.handle_music_player_input(Key::Char('+'));
    }
    assert_eq!(c.session.volume, 100);
    for _ in 0..25 {
        c.handle_music_player_input(Key::Char('-'));
    }
    assert_eq!(c.session.volume, 0);
}

#[test]
fn space_toggles_and_signals_live_process() {
    let mut c = three_song_controller();
    c.handle_music_player_input(Key::Enter);
    c.spawn_succeeded(7);
    let e = c.handle_music_player_input(Key::Char(' '));
    assert!(!c.session.is_playing);
    assert!(matches!(e.commands[..], [PlaybackCommand::PauseSignal]));
    // Without a live process the signal is not sent.
    c.stop_playback();
    let e = c.handle_music_player_input(Key::Char(' '));
    assert!(c.session.is_playing);
    assert!(e.commands.is_empty());
}

#[test]
fn back_keeps_playback_escape_stops_it() {
    let mut c = three_song_controller();
    c.handle_music_player_input(Key::Enter);
    c.spawn_succeeded(9);
    let e = c.handle_music_player_input(Key::Char('b'));
    assert_eq!(c.mode, MusicPlayerMode::Browse);
    assert!(c.session.is_playing);
    assert!(e.commands.is_empty());
    c.handle_music_player_input(Key::Enter);
    c.spawn_succeeded(10);
    let e = c.handle_music_player_input(Key::Esc);
    assert_eq!(c.mode, MusicPlayerMode::Browse);
    assert!(!c.session.is_playing);
    assert!(c.session.current_song_title.is_none());
    assert!(matches!(e.commands[..], [PlaybackCommand::Kill]));
}

#[test]
fn add_song_form_flow_appends_and_saves() {
    let mut c = three_song_controller();
    c.handle_music_player_input(Key::Char('a'));
    assert_eq!(c.mode, MusicPlayerMode::AddSong);
    assert_eq!(c.form.active_field, 0);
    assert!(c.form.title.is_empty());
    for ch in "New".chars() {
        c.handle_music_player_input(Key::Char(ch));
    }
    c.handle_music_player_input(Key::Enter);
    for ch in "Band".chars() {
        c.handle_music_player_input(Key::Char(ch));
    }
    c.handle_music_player_input(Key::Enter);
    for ch in "http://x".chars() {
        c.handle_music_player_input(Key::Char(ch));
    }
    let e = c.handle_music_player_input(Key::Enter);
    assert!(e.save);
    assert_eq!(c.mode, MusicPlayerMode::Browse);
    assert_eq!(c.playlist.len(), 4);
    let added = &c.playlist[3];
    assert_eq!(added.title, "New");
    assert_eq!(added.artist, "Band");
    assert_eq!(added.url, "http://x");
    assert!(added.path.is_none());
}

#[test]
fn form_tab_backtab_and_backspace() {
    let mut c = three_song_controller();
    c.handle_music_player_input(Key::Char('a'));
    c.handle_music_player_input(Key::Tab);
    assert_eq!(c.form.active_field, 1);
    c.handle_music_player_input(Key::Tab);
    c.handle_music_player_input(Key::Tab);
    assert_eq!(c.form.active_field, 0);
    c.handle_music_player_input(Key::BackTab);
    assert_eq!(c.form.active_field, 2);
    c.handle_music_player_input(Key::Char('a'));
    c.handle_music_player_input(Key::Char('b'));
    c.handle_music_player_input(Key::Backspace);
    assert_eq!(c.form.url, "a");
    // Backspace on an already-empty field changes nothing.
    c.handle_music_player_input(Key::Backspace);
    c.handle_music_player_input(Key::Backspace);
    assert_eq!(c.form.url, "");
}

#[test]
fn cancel_from_add_song_changes_nothing() {
    let mut c = three_song_controller();
    let before: Vec<String> = c.playlist.iter().map(|s| s.title.clone()).collect();
    c.handle_music_player_input(Key::Char('a'));
    for ch in "Thrown away".chars() {
        c.handle_music_player_input(Key::Char(ch));
    }
    let e = c.handle_music_player_input(Key::Esc);
    assert_eq!(c.mode, MusicPlayerMode::Browse);
    assert!(!e.save);
    assert!(e.commands.is_empty());
    let after: Vec<String> = c.playlist.iter().map(|s| s.title.clone()).collect();
    assert_eq!(before, after);
}

#[test]
fn cancel_from_edit_song_changes_nothing() {
    let mut c = three_song_controller();
    c.handle_music_player_input(Key::Down);
    c.handle_music_player_input(Key::Char('e'));
    assert_eq!(c.mode, MusicPlayerMode::EditSong);
    assert_eq!(c.form.title, "Two");
    for ch in "junk".chars() {
        c.handle_music_player_input(Key::Char(ch));
    }
    let e = c.handle_music_player_input(Key::Esc);
    assert_eq!(c.mode, MusicPlayerMode::Browse);
    assert!(!e.save);
    assert_eq!(c.playlist[1].title, "Two");
}

#[test]
fn edit_song_changes_only_the_selected_song() {
    let mut c = three_song_controller();
    c.playlist[1].path = Some("~/music/two.mp3".to_string());
    c.handle_music_player_input(Key::Down);
    c.handle_music_player_input(Key::Char('e'));
    assert_eq!(c.form.title, "Two");
    assert_eq!(c.form.artist, "B");
    assert_eq!(c.form.url, "u2");
    // Append to the title, then submit through all three fields.
    c.handle_music_player_input(Key::Char('!'));
    c.handle_music_player_input(Key::Enter);
    c.handle_music_player_input(Key::Enter);
    let e = c.handle_music_player_input(Key::Enter);
    assert!(e.save);
    assert_eq!(c.mode, MusicPlayerMode::Browse);
    assert_eq!(c.playlist.len(), 3);
    assert_eq!(c.playlist[1].title, "Two!");
    assert_eq!(c.playlist[1].artist, "B");
    assert_eq!(c.playlist[1].url, "u2");
    // The stored path survives an edit; the neighbours are untouched.
    assert_eq!(c.playlist[1].path.as_deref(), Some("~/music/two.mp3"));
    assert_eq!(c.playlist[0].title, "One");
    assert_eq!(c.playlist[2].title, "Three");
}

#[test]
fn delete_last_selected_moves_selection_to_new_last() {
    let mut c = three_song_controller();
    c.handle_music_player_input(Key::Up);
    assert_eq!(c.selected_song_index, 2);
    c.handle_music_player_input(Key::Char('d'));
    assert_eq!(c.mode, MusicPlayerMode::DeleteConfirm);
    let e = c.handle_music_player_input(Key::Char('y'));
    assert!(e.save);
    assert_eq!(c.playlist.len(), 2);
    assert_eq!(c.selected_song_index, 1);
    assert_eq!(c.playlist[1].title, "Two");
}

#[test]
fn delete_only_song_leaves_empty_playlist_selection_zero() {
    let mut c = MusicPlayerController::new(Some(vec![song("Solo", "A", "u")]), None);
    c.handle_music_player_input(Key::Char('d'));
    let e = c.handle_music_player_input(Key::Char('y'));
    assert!(e.save);
    assert!(c.playlist.is_empty());
    assert_eq!(c.selected_song_index, 0);
    assert_eq!(c.mode, MusicPlayerMode::Browse);
}

#[test]
fn delete_declined_keeps_playlist() {
    let mut c = three_song_controller();
    c.handle_music_player_input(Key::Char('d'));
    let e = c.handle_music_player_input(Key::Char('n'));
    assert!(!e.save);
    assert_eq!(c.playlist.len(), 3);
    assert_eq!(c.mode, MusicPlayerMode::Browse);
    c.handle_music_player_input(Key::Char('d'));
    let e = c.handle_music_player_input(Key::Esc);
    assert!(!e.save);
    assert_eq!(c.playlist.len(), 3);
}

#[test]
fn unhandled_keys_change_nothing() {
    let mut c = three_song_controller();
    let e = c.handle_music_player_input(Key::Char('z'));
    assert!(!e.save);
    assert!(e.commands.is_empty());
    assert_eq!(c.mode, MusicPlayerMode::Browse);
    assert_eq!(c.selected_song_index, 0);
}
