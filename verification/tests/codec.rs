use terminus::codec::{playlist_from_json, playlist_to_json};
use terminus::controller::MusicPlayerController;
use terminus::keys::Key;
use terminus::song::Song;

fn song(title: &str, artist: &str, url: &str, path: Option<&str>) -> Song {
    Song {
        title: title.to_string(),
        artist: artist.to_string(),
        url: url.to_string(),
        path: path.map(|p| p.to_string()),
    }
}

#[test]
fn empty_playlist_renders_as_empty_array() {
    let rendered = playlist_to_json(&Vec::new());
    assert_eq!(rendered, "[]");
}

#[test]
fn one_song_renders_pretty_printed() {
    let songs = vec![song("Title", "Artist", "http://u", None)];
    let rendered = playlist_to_json(&songs);
    let expected = "[\n  {\n    \"title\": \"Title\",\n    \"artist\": \"Artist\",\n    \"url\": \"http://u\",\n    \"path\": null\n  }\n]";
    assert_eq!(rendered, expected);
}

#[test]
fn path_renders_as_string_when_present() {
    let songs = vec![song("T", "A", "u", Some("~/a.mp3"))];
    let rendered = playlist_to_json(&songs);
    assert!(rendered.contains("\"path\": \"~/a.mp3\""));
}

#[test]
fn quotes_backslashes_and_controls_are_escaped() {
    let songs = vec![song("A \"quoted\" name\\here", "B\n", "u", None)];
    let rendered = playlist_to_json(&songs);
    assert!(rendered.contains("A \\\"quoted\\\" name\\\\here"));
    assert!(rendered.contains("B\\u000a"));
}

#[test]
fn round_trip_keeps_every_field() {
    let songs = vec![
        song("One \"best\" song", "A\\B", "http://u?x=1&y=2", None),
        song("Zwei\tdrei", "Ünïcödé 🎶", "u2", Some("~/music/z.flac")),
        song("", "", "", Some("")),
    ];
    let rendered = playlist_to_json(&songs);
    let back = playlist_from_json(&rendered).expect("rendered playlist must parse");
    assert_eq!(back.len(), songs.len());
    for (a, b) in songs.iter().zip(back.iter()) {
        assert_eq!(a.title, b.title);
        assert_eq!(a.artist, b.artist);
        assert_eq!(a.url, b.url);
        assert_eq!(a.path, b.path);
    }
}

#[test]
fn parse_accepts_other_whitespace_shapes() {
    let text = " [ { \"title\" : \"T\" , \"artist\" : \"A\" , \"url\" : \"u\" , \"path\" : null } ] ";
    let parsed = playlist_from_json(text).expect("whitespace-shaped document must parse");
    assert_eq!(parsed.len(), 1);
    assert_eq!(parsed[0].title, "T");
    assert!(parsed[0].path.is_none());
}

#[test]
fn parse_accepts_missing_path_member() {
    let text = "[{\"title\":\"T\",\"artist\":\"A\",\"url\":\"u\"}]";
    let parsed = playlist_from_json(text).expect("document without path must parse");
    assert_eq!(parsed.len(), 1);
    assert!(parsed[0].path.is_none());
}

#[test]
fn parse_decodes_short_and_unicode_escapes() {
    let text = "[{\"title\":\"a\\nb\\t\\\"c\\\"\\\\d\\/e\",\"artist\":\"\\u0041\\u00e9\",\"url\":\"u\",\"path\":null}]";
    let parsed = playlist_from_json(text).expect("escaped document must parse");
    assert_eq!(parsed[0].title, "a\nb\t\"c\"\\d/e");
    assert_eq!(parsed[0].artist, "Aé");
}

#[test]
fn parse_accepts_uppercase_hex_and_rare_short_escapes() {
    let text = "[{\"title\":\"\\u00E9\\u004A\",\"artist\":\"x\\by\\fz\",\"url\":\"u\",\"path\":null}]";
    let parsed = playlist_from_json(text).expect("uppercase hex escapes must parse");
    assert_eq!(parsed[0].title, "éJ");
    assert_eq!(parsed[0].artist, "x\u{8}y\u{c}z");
}

#[test]
fn parse_empty_array_yields_empty_playlist() {
    assert_eq!(playlist_from_json("[]").expect("empty array must parse").len(), 0);
    assert_eq!(playlist_from_json("  [ ]  ").expect("spaced empty array must parse").len(), 0);
}

#[test]
fn parse_rejects_malformed_documents() {
    assert!(playlist_from_json("").is_none());
    assert!(playlist_from_json("not json").is_none());
    assert!(playlist_from_json("[").is_none());
    assert!(playlist_from_json("[{]").is_none());
    assert!(playlist_from_json("[{\"title\":\"T\"}]").is_none());
    // Wrong member order is not this format.
    assert!(playlist_from_json("[{\"artist\":\"A\",\"title\":\"T\",\"url\":\"u\"}]").is_none());
    // A quote ended early leaves the members malformed.
    assert!(playlist_from_json("[{\"title\":\"T,\"artist\":\"A\",\"url\":\"u\"}]").is_none());
    // Trailing content after the array.
    assert!(playlist_from_json("[] trailing").is_none());
    // A lone surrogate escape is not a character.
    assert!(
        playlist_from_json("[{\"title\":\"\\ud800\",\"artist\":\"A\",\"url\":\"u\"}]").is_none()
    );
    // A raw control character inside a string is refused.
    assert!(
        playlist_from_json("[{\"title\":\"a\u{1}b\",\"artist\":\"A\",\"url\":\"u\"}]").is_none()
    );
}

#[test]
fn default_playlist_round_trips() {
    let songs = terminus::song::default_playlist();
    let rendered = playlist_to_json(&songs);
    let back = playlist_from_json(&rendered).expect("default playlist must round-trip");
    assert_eq!(back.len(), 3);
    assert_eq!(back[1].title, "Terhebat - hololive ID [Cover]");
    assert_eq!(back[1].artist, "hololive ID");
    assert_eq!(back[1].url, "https://youtu.be/PaOMF-g1ZWU?feature=shared");
}

#[test]
fn add_song_then_reload_ends_with_the_submitted_song() {
    let mut c = MusicPlayerController::new(None, None);
    c.handle_music_player_input(Key::Char('a'));
    for ch in "Fresh".chars() {
        c.handle_music_player_input(Key::Char(ch));
    }
    c.handle_music_player_input(Key::Enter);
    for ch in "Someone".chars() {
        c.handle_music_player_input(Key::Char(ch));
    }
    c.handle_music_player_input(Key::Enter);
    for ch in "http://song".chars() {
        c.handle_music_player_input(Key::Char(ch));
    }
    let effects = c.handle_music_player_input(Key::Enter);
    assert!(effects.save);
    // What the demanded save writes, a reload reads back.
    let stored = playlist_to_json(&c.playlist);
    let reloaded = playlist_from_json(&stored).expect("stored playlist must parse");
    let last = reloaded.last().expect("reloaded playlist is non-empty");
    assert_eq!(last.title, "Fresh");
    assert_eq!(last.artist, "Someone");
    assert_eq!(last.url, "http://song");
    assert!(last.path.is_none());
}
