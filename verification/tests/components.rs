use terminus::file_tools::FileTools;
use terminus::menu::{MainMenu, MenuItem};
use terminus::music::MusicPlayer;
use terminus::song::Song;
use terminus::video::VideoPlayer;

#[test]
fn resolve_source_prefers_path_and_expands_tilde() {
    let home = Some("/home/someone".to_string());
    let with_tilde = Song {
        title: "t".to_string(),
        artist: "a".to_string(),
        url: "http://u".to_string(),
        path: Some("~/music/x.mp3".to_string()),
    };
    assert_eq!(with_tilde.resolve_source(&home), "/home/someone/music/x.mp3");
    // Without a home directory the expansion falls back to the root.
    assert_eq!(with_tilde.resolve_source(&None), "/music/x.mp3");
    let plain_path = Song { path: Some("/abs/y.mp3".to_string()), ..with_tilde };
    assert_eq!(plain_path.resolve_source(&home), "/abs/y.mp3");
    let no_path = Song {
        title: "t".to_string(),
        artist: "a".to_string(),
        url: "http://u".to_string(),
        path: None,
    };
    assert_eq!(no_path.resolve_source(&home), "http://u");
}

#[test]
fn resolve_source_with_trailing_slash_home() {
    let home = Some("/root/".to_string());
    let s = Song {
        title: "t".to_string(),
        artist: "a".to_string(),
        url: "u".to_string(),
        path: Some("~/x".to_string()),
    };
    assert_eq!(s.resolve_source(&home), "/root/x");
}

#[test]
fn menu_next_and_previous_wrap() {
    let mut m = MainMenu::new();
    assert_eq!(m.selected_item, MenuItem::MusicPlayer);
    m.next();
    assert_eq!(m.selected_item, MenuItem::VideoPlayer);
    m.next();
    m.next();
    m.next();
    assert_eq!(m.selected_item, MenuItem::Quit);
    m.next();
    assert_eq!(m.selected_item, MenuItem::MusicPlayer);
    m.previous();
    assert_eq!(m.selected_item, MenuItem::Quit);
    m.previous();
    assert_eq!(m.selected_item, MenuItem::ComingSoon);
}

#[test]
fn menu_titles_and_descriptions() {
    let m = MainMenu::new();
    assert_eq!(m.get_menu_title(MenuItem::MusicPlayer), "🎵 Music Player");
    assert_eq!(m.get_menu_title(MenuItem::Quit), "❌ Quit");
    assert_eq!(
        m.get_menu_description(MenuItem::FileTools),
        "Future toolkit: rename, organize, compress"
    );
    assert_eq!(m.get_menu_description(MenuItem::Quit), "Exit the application");
}

#[test]
fn music_player_skeleton_navigates_and_clamps() {
    let mut p = MusicPlayer::new();
    assert_eq!(p.volume, 80);
    assert!(!p.is_playing);
    p.play();
    assert!(p.is_playing);
    p.pause();
    assert!(!p.is_playing);
    // Navigation on an empty playlist stays put.
    p.next();
    p.prev();
    assert_eq!(p.current_index, 0);
    p.current_playlist = vec!["a".to_string(), "b".to_string(), "c".to_string()];
    p.next();
    p.next();
    assert_eq!(p.current_index, 2);
    p.next();
    assert_eq!(p.current_index, 0);
    p.prev();
    assert_eq!(p.current_index, 2);
    p.set_volume(101);
    assert_eq!(p.volume, 100);
    p.set_volume(30);
    assert_eq!(p.volume, 30);
}

#[test]
fn video_player_skeleton_toggles() {
    let mut v = VideoPlayer::new();
    assert!(!v.fullscreen);
    v.toggle_fullscreen();
    assert!(v.fullscreen);
    v.toggle_fullscreen();
    assert!(!v.fullscreen);
    v.play();
    assert!(v.is_playing);
    v.pause();
    assert!(!v.is_playing);
}

#[test]
fn file_tools_select_joins_under_current_directory() {
    let mut t = FileTools::new(Some("/home/someone".to_string()));
    assert_eq!(t.current_dir, "/home/someone");
    t.select_file("notes.txt");
    assert_eq!(t.selected_files.last().map(String::as_str), Some("/home/someone/notes.txt"));
    // The unimplemented operations leave everything alone.
    t.change_directory("/elsewhere");
    t.bulk_rename("a", "b");
    assert_eq!(t.current_dir, "/home/someone");
    assert_eq!(t.selected_files.len(), 1);
    let fallback = FileTools::new(None);
    assert_eq!(fallback.current_dir, "/");
}
