//! The persisted playlist format.
//!
//! A playlist is stored as a pretty-printed JSON array of objects with the
//! fields `title`, `artist`, `url` and `path` (a string or `null`), two
//! spaces of indentation per level. [`playlist_json`] defines the exact
//! text written for a playlist and [`parse_playlist`] the meaning of a
//! stored text; parsing is tolerant of whitespace, of a missing `path`
//! member and of the short JSON escapes, so it also reads files written by
//! other serializers of the same format. Rendering what was parsed and
//! parsing what was rendered are proved to invert each other in
//! [`crate::laws`].

use vstd::prelude::*;
use vstd::string::StrSliceExecFns;
use vstd::string::StringExecFns;
use crate::song::{Song, SongView};
use crate::textops::{char_from_u32, string_push};

verus! {

// ---------------------------------------------------------------------
// The fixed pieces of the rendered text.
// ---------------------------------------------------------------------

/// Indented opening brace of one song object.
pub open spec fn obj_open() -> Seq<char> {
    seq![' ', ' ', '{']
}

/// Line break, member indentation, and the quoted `title` key.
pub open spec fn key_title() -> Seq<char> {
    seq!['\n', ' ', ' ', ' ', ' ', '"', 't', 'i', 't', 'l', 'e', '"', ':', ' ']
}

/// Separator, member indentation, and the quoted `artist` key.
pub open spec fn key_artist() -> Seq<char> {
    seq![',', '\n', ' ', ' ', ' ', ' ', '"', 'a', 'r', 't', 'i', 's', 't', '"', ':', ' ']
}

/// Separator, member indentation, and the quoted `url` key.
pub open spec fn key_url() -> Seq<char> {
    seq![',', '\n', ' ', ' ', ' ', ' ', '"', 'u', 'r', 'l', '"', ':', ' ']
}

/// Separator, member indentation, and the quoted `path` key.
pub open spec fn key_path() -> Seq<char> {
    seq![',', '\n', ' ', ' ', ' ', ' ', '"', 'p', 'a', 't', 'h', '"', ':', ' ']
}

/// Line break and indented closing brace of one song object.
pub open spec fn obj_close() -> Seq<char> {
    seq!['\n', ' ', ' ', '}']
}

/// The JSON `null` keyword.
pub open spec fn null_text() -> Seq<char> {
    seq!['n', 'u', 'l', 'l']
}

// ---------------------------------------------------------------------
// Rendering, as mathematics.
// ---------------------------------------------------------------------

/// The lowercase hexadecimal digit of a value below sixteen.
pub open spec fn hex_digit(v: int) -> char {
    if v < 10 {
        (48 + v) as char
    } else {
        (87 + v) as char
    }
}

/// How one character is written inside a JSON string: quote and backslash
/// escaped, control characters as a four-digit escape, everything else as
/// itself.
pub open spec fn escape_char(c: char) -> Seq<char> {
    if c == '"' {
        seq!['\\', '"']
    } else if c == '\\' {
        seq!['\\', '\\']
    } else if (c as u32) < 0x20 {
        seq!['\\', 'u', '0', '0', hex_digit((c as u32) as int / 16), hex_digit((c as u32) as int % 16)]
    } else {
        seq![c]
    }
}

/// A string's characters written one after the other, each escaped.
pub open spec fn escape_string(s: Seq<char>) -> Seq<char>
    decreases s.len(),
{
    if s.len() == 0 {
        Seq::empty()
    } else {
        escape_char(s[0]) + escape_string(s.skip(1))
    }
}

/// A JSON string: the escaped characters between two quotes.
pub open spec fn quoted(s: Seq<char>) -> Seq<char> {
    seq!['"'] + escape_string(s) + seq!['"']
}

/// One song object, pretty-printed at one level of indentation.
pub open spec fn song_json(s: SongView) -> Seq<char> {
    obj_open() + key_title() + quoted(s.title) + key_artist() + quoted(s.artist) + key_url()
        + quoted(s.url) + key_path() + (match s.path {
        Some(p) => quoted(p),
        None => null_text(),
    }) + obj_close()
}

/// Every song after the first, each preceded by the separator.
pub open spec fn songs_tail_json(songs: Seq<SongView>) -> Seq<char>
    decreases songs.len(),
{
    if songs.len() == 0 {
        Seq::empty()
    } else {
        seq![',', '\n'] + song_json(songs[0]) + songs_tail_json(songs.skip(1))
    }
}

/// The whole stored document for a playlist.
pub open spec fn playlist_json(songs: Seq<SongView>) -> Seq<char> {
    if songs.len() == 0 {
        seq!['[', ']']
    } else {
        seq!['[', '\n'] + song_json(songs[0]) + songs_tail_json(songs.skip(1)) + seq!['\n', ']']
    }
}

// ---------------------------------------------------------------------
// Parsing, as mathematics.
// ---------------------------------------------------------------------

/// A JSON whitespace character.
pub open spec fn is_ws(c: char) -> bool {
    c == ' ' || c == '\n' || c == '\t' || c == '\r'
}

/// The input with its leading whitespace dropped.
pub open spec fn skip_ws(s: Seq<char>) -> Seq<char>
    decreases s.len(),
{
    if s.len() > 0 && is_ws(s[0]) {
        skip_ws(s.skip(1))
    } else {
        s
    }
}

/// The rest of the input after an expected literal text, when it is there.
pub open spec fn expect(s: Seq<char>, lit: Seq<char>) -> Option<Seq<char>> {
    if lit.len() <= s.len() && s.take(lit.len() as int) == lit {
        Some(s.skip(lit.len() as int))
    } else {
        None
    }
}

/// The value of a hexadecimal digit character, either case.
pub open spec fn hex_val(c: char) -> Option<int> {
    let v = c as int;
    if 48 <= v <= 57 {
        Some(v - 48)
    } else if 97 <= v <= 102 {
        Some(v - 87)
    } else if 65 <= v <= 70 {
        Some(v - 55)
    } else {
        None
    }
}

/// The character a short JSON escape stands for.
pub open spec fn short_escape(e: char) -> Option<char> {
    if e == '"' {
        Some('"')
    } else if e == '\\' {
        Some('\\')
    } else if e == '/' {
        Some('/')
    } else if e == 'n' {
        Some('\n')
    } else if e == 't' {
        Some('\t')
    } else if e == 'r' {
        Some('\r')
    } else if e == 'b' {
        Some('\u{8}')
    } else if e == 'f' {
        Some('\u{c}')
    } else {
        None
    }
}

/// The content of a JSON string, read from just after its opening quote:
/// the decoded characters, and the rest of the input after the closing
/// quote. Raw control characters and unpaired surrogate escapes are
/// refused, as JSON demands.
pub open spec fn parse_string_body(s: Seq<char>) -> Option<(Seq<char>, Seq<char>)>
    decreases s.len(),
{
    if s.len() == 0 {
        None
    } else if s[0] == '"' {
        Some((Seq::empty(), s.skip(1)))
    } else if s[0] == '\\' {
        if s.len() < 2 {
            None
        } else if s[1] == 'u' {
            if s.len() < 6 {
                None
            } else {
                match (hex_val(s[2]), hex_val(s[3]), hex_val(s[4]), hex_val(s[5])) {
                    (Some(h1), Some(h2), Some(h3), Some(h4)) => {
                        let v = h1 * 4096 + h2 * 256 + h3 * 16 + h4;
                        if 0xD800 <= v < 0xE000 {
                            None
                        } else {
                            match parse_string_body(s.skip(6)) {
                                Some((tail, rest)) => Some((seq![v as char] + tail, rest)),
                                None => None,
                            }
                        }
                    },
                    _ => None,
                }
            }
        } else {
            match short_escape(s[1]) {
                Some(c) => match parse_string_body(s.skip(2)) {
                    Some((tail, rest)) => Some((seq![c] + tail, rest)),
                    None => None,
                },
                None => None,
            }
        }
    } else if (s[0] as u32) < 0x20 {
        None
    } else {
        match parse_string_body(s.skip(1)) {
            Some((tail, rest)) => Some((seq![s[0]] + tail, rest)),
            None => None,
        }
    }
}

/// A JSON string token, leading whitespace allowed.
pub open spec fn parse_string(s: Seq<char>) -> Option<(Seq<char>, Seq<char>)> {
    let t = skip_ws(s);
    if t.len() > 0 && t[0] == '"' {
        parse_string_body(t.skip(1))
    } else {
        None
    }
}

/// A quoted key of the given name, its colon, and its string value.
pub open spec fn parse_keyed_string(s: Seq<char>, name: Seq<char>) -> Option<
    (Seq<char>, Seq<char>),
> {
    match expect(skip_ws(s), seq!['"'] + name + seq!['"']) {
        Some(r1) => match expect(skip_ws(r1), seq![':']) {
            Some(r2) => parse_string(r2),
            None => None,
        },
        None => None,
    }
}

/// A path value: `null`, or a string.
pub open spec fn parse_path_value(s: Seq<char>) -> Option<(Option<Seq<char>>, Seq<char>)> {
    let t = skip_ws(s);
    match expect(t, null_text()) {
        Some(rest) => Some((None, rest)),
        None => match parse_string(t) {
            Some((v, rest)) => Some((Some(v), rest)),
            None => None,
        },
    }
}

/// One song object: `title`, `artist` and `url` in this order, then an
/// optional `path` member, whitespace free between tokens.
pub open spec fn parse_song(s: Seq<char>) -> Option<(SongView, Seq<char>)> {
    match expect(skip_ws(s), seq!['{']) {
        Some(r0) => match parse_keyed_string(r0, seq!['t', 'i', 't', 'l', 'e']) {
            Some((title, r1)) => match expect(skip_ws(r1), seq![',']) {
                Some(r1c) => match parse_keyed_string(r1c, seq!['a', 'r', 't', 'i', 's', 't']) {
                    Some((artist, r2)) => match expect(skip_ws(r2), seq![',']) {
                        Some(r2c) => match parse_keyed_string(r2c, seq!['u', 'r', 'l']) {
                            Some((url, r3)) => {
                                let t3 = skip_ws(r3);
                                match expect(t3, seq![',']) {
                                    Some(r3c) => match expect(
                                        skip_ws(r3c),
                                        seq!['"', 'p', 'a', 't', 'h', '"'],
                                    ) {
                                        Some(r4) => match expect(skip_ws(r4), seq![':']) {
                                            Some(r5) => match parse_path_value(r5) {
                                                Some((path, r6)) => match expect(
                                                    skip_ws(r6),
                                                    seq!['}'],
                                                ) {
                                                    Some(rest) => Some(
                                                        (SongView { title, artist, url, path }, rest),
                                                    ),
                                                    None => None,
                                                },
                                                None => None,
                                            },
                                            None => None,
                                        },
                                        None => None,
                                    },
                                    None => match expect(t3, seq!['}']) {
                                        Some(rest) => Some(
                                            (SongView { title, artist, url, path: None }, rest),
                                        ),
                                        None => None,
                                    },
                                }
                            },
                            None => None,
                        },
                        None => None,
                    },
                    None => None,
                },
                None => None,
            },
            None => None,
        },
        None => None,
    }
}

/// The songs after the first: either the closing bracket ends the array,
/// or a comma introduces one more song.
pub open spec fn parse_more_songs(s: Seq<char>, acc: Seq<SongView>) -> Option<
    (Seq<SongView>, Seq<char>),
>
    decreases s.len(),
{
    let t = skip_ws(s);
    match expect(t, seq![']']) {
        Some(rest) => Some((acc, rest)),
        None => if t.len() > 0 && t[0] == ',' {
            match parse_song(t.skip(1)) {
                Some((song, rest)) => if rest.len() < s.len() {
                    parse_more_songs(rest, acc.push(song))
                } else {
                    None
                },
                None => None,
            }
        } else {
            None
        },
    }
}

/// A stored playlist document: a whole JSON array of songs and nothing
/// after it.
pub open spec fn parse_playlist(s: Seq<char>) -> Option<Seq<SongView>> {
    match expect(skip_ws(s), seq!['[']) {
        Some(r0) => {
            let t0 = skip_ws(r0);
            match expect(t0, seq![']']) {
                Some(rest) => if skip_ws(rest).len() == 0 {
                    Some(Seq::empty())
                } else {
                    None
                },
                None => match parse_song(t0) {
                    Some((song, r1)) => match parse_more_songs(r1, seq![song]) {
                        Some((songs, rest)) => if skip_ws(rest).len() == 0 {
                            Some(songs)
                        } else {
                            None
                        },
                        None => None,
                    },
                    None => None,
                },
            }
        },
        None => None,
    }
}

// ---------------------------------------------------------------------
// Rendering, executed.
// ---------------------------------------------------------------------

/// The lowercase hexadecimal digit of a value below sixteen.
fn hex_digit_char(v: u8) -> (c: char)
    requires
        v < 16,
    ensures
        c == hex_digit(v as int),
{
    match v {
        0 => '0',
        1 => '1',
        2 => '2',
        3 => '3',
        4 => '4',
        5 => '5',
        6 => '6',
        7 => '7',
        8 => '8',
        9 => '9',
        10 => 'a',
        11 => 'b',
        12 => 'c',
        13 => 'd',
        14 => 'e',
        _ => 'f',
    }
}

/// Appends one escaped character.
fn escape_char_into(out: &mut String, c: char)
    ensures
        final(out)@ == old(out)@ + escape_char(c),
{
    if c == '"' {
        string_push(out, '\\');
        string_push(out, '"');
        proof {
            assert(final(out)@ =~= old(out)@ + escape_char(c));
        }
    } else if c == '\\' {
        string_push(out, '\\');
        string_push(out, '\\');
        proof {
            assert(final(out)@ =~= old(out)@ + escape_char(c));
        }
    } else if (c as u32) < 0x20 {
        let v = c as u32;
        string_push(out, '\\');
        string_push(out, 'u');
        string_push(out, '0');
        string_push(out, '0');
        string_push(out, hex_digit_char((v / 16) as u8));
        string_push(out, hex_digit_char((v % 16) as u8));
        proof {
            assert(final(out)@ =~= old(out)@ + escape_char(c));
        }
    } else {
        string_push(out, c);
        proof {
            assert(final(out)@ =~= old(out)@ + escape_char(c));
        }
    }
}

/// Appends the escaped characters of `s` from position `i` on.
fn escape_from_into(out: &mut String, s: &str, i: usize)
    requires
        i <= s@.len(),
    ensures
        final(out)@ == old(out)@ + escape_string(s@.skip(i as int)),
    decreases s@.len() - i,
{
    let n = s.unicode_len();
    if i == n {
        proof {
            assert(s@.skip(i as int) =~= Seq::<char>::empty());
            assert(final(out)@ =~= old(out)@ + escape_string(s@.skip(i as int)));
        }
    } else {
        let c = s.get_char(i);
        escape_char_into(out, c);
        escape_from_into(out, s, i + 1);
        proof {
            assert(s@.skip(i as int).skip(1) =~= s@.skip(i as int + 1));
            assert(escape_string(s@.skip(i as int)) == escape_char(c) + escape_string(
                s@.skip(i as int + 1),
            ));
            assert(final(out)@ =~= old(out)@ + escape_string(s@.skip(i as int)));
        }
    }
}

/// Appends a JSON string.
fn quoted_into(out: &mut String, s: &str)
    ensures
        final(out)@ == old(out)@ + quoted(s@),
{
    string_push(out, '"');
    escape_from_into(out, s, 0);
    string_push(out, '"');
    proof {
        assert(s@.skip(0) =~= s@);
        assert(final(out)@ =~= old(out)@ + quoted(s@));
    }
}

/// Appends one pretty-printed song object.
fn song_json_into(out: &mut String, song: &Song)
    ensures
        final(out)@ == old(out)@ + song_json(song@),
{
    out.append("  {\n    \"title\": ");
    proof {
        reveal_strlit("  {\n    \"title\": ");
        assert("  {\n    \"title\": "@ =~= obj_open() + key_title());
    }
    quoted_into(out, song.title.as_str());
    out.append(",\n    \"artist\": ");
    proof {
        reveal_strlit(",\n    \"artist\": ");
        assert(",\n    \"artist\": "@ =~= key_artist());
    }
    quoted_into(out, song.artist.as_str());
    out.append(",\n    \"url\": ");
    proof {
        reveal_strlit(",\n    \"url\": ");
        assert(",\n    \"url\": "@ =~= key_url());
    }
    quoted_into(out, song.url.as_str());
    out.append(",\n    \"path\": ");
    proof {
        reveal_strlit(",\n    \"path\": ");
        assert(",\n    \"path\": "@ =~= key_path());
    }
    match &song.path {
        Some(p) => {
            quoted_into(out, p.as_str());
        },
        None => {
            out.append("null");
            proof {
                reveal_strlit("null");
                assert("null"@ =~= null_text());
            }
        },
    }
    out.append("\n  }");
    proof {
        reveal_strlit("\n  }");
        assert("\n  }"@ =~= obj_close());
        assert(final(out)@ =~= old(out)@ + song_json(song@));
    }
}

/// Appends the separated song objects of the playlist from index `i` on.
fn songs_tail_into(out: &mut String, songs: &Vec<Song>, i: usize)
    requires
        i <= songs@.len(),
    ensures
        final(out)@ == old(out)@ + songs_tail_json(songs.deep_view().skip(i as int)),
    decreases songs@.len() - i,
{
    if i == songs.len() {
        proof {
            assert(songs.deep_view().skip(i as int) =~= Seq::<SongView>::empty());
            assert(final(out)@ =~= old(out)@ + songs_tail_json(songs.deep_view().skip(i as int)));
        }
    } else {
        out.append(",\n");
        proof {
            reveal_strlit(",\n");
            assert(",\n"@ =~= seq![',', '\n']);
        }
        song_json_into(out, &songs[i]);
        songs_tail_into(out, songs, i + 1);
        proof {
            let dv = songs.deep_view();
            assert(dv.skip(i as int).skip(1) =~= dv.skip(i as int + 1));
            assert(dv.skip(i as int)[0] == songs@[i as int]@);
            assert(final(out)@ =~= old(out)@ + songs_tail_json(dv.skip(i as int)));
        }
    }
}

/// The stored document for a playlist, ready to be written out.
pub fn playlist_to_json(songs: &Vec<Song>) -> (r: String)
    ensures
        r@ == playlist_json(songs.deep_view()),
{
    if songs.len() == 0 {
        let r = "[]".to_owned();
        proof {
            reveal_strlit("[]");
            assert(songs.deep_view().len() == 0);
            assert(r@ =~= playlist_json(songs.deep_view()));
        }
        r
    } else {
        let mut out = "[\n".to_owned();
        proof {
            reveal_strlit("[\n");
            assert("[\n"@ =~= seq!['[', '\n']);
        }
        song_json_into(&mut out, &songs[0]);
        songs_tail_into(&mut out, songs, 1);
        out.append("\n]");
        proof {
            reveal_strlit("\n]");
            assert("\n]"@ =~= seq!['\n', ']']);
            let dv = songs.deep_view();
            assert(dv[0] == songs@[0]@);
            assert(out@ =~= playlist_json(dv));
        }
        out
    }
}

// ---------------------------------------------------------------------
// Parsing, executed.
// ---------------------------------------------------------------------

fn str_to_chars(s: &str) -> (v: Vec<char>)
    ensures
        v@ == s@,
{
    let n = s.unicode_len();
    let mut v: Vec<char> = Vec::new();
    let mut i: usize = 0;
    while i < n
        invariant
            i <= n,
            n == s@.len(),
            v@ == s@.take(i as int),
        decreases n - i,
    {
        v.push(s.get_char(i));
        i = i + 1;
        proof {
            assert(v@ =~= s@.take(i as int));
        }
    }
    proof {
        assert(s@.take(n as int) =~= s@);
    }
    v
}

fn skip_ws_at(s: &Vec<char>, i: usize) -> (j: usize)
    requires
        i <= s@.len(),
    ensures
        i <= j <= s@.len(),
        skip_ws(s@.skip(i as int)) == s@.skip(j as int),
    decreases s@.len() - i,
{
    if i < s.len() {
        let c = s[i];
        if c == ' ' || c == '\n' || c == '\t' || c == '\r' {
            proof {
                assert(s@.skip(i as int).skip(1) =~= s@.skip(i as int + 1));
            }
            skip_ws_at(s, i + 1)
        } else {
            i
        }
    } else {
        proof {
            assert(s@.skip(i as int) =~= Seq::<char>::empty());
        }
        i
    }
}

fn expect_at(s: &Vec<char>, i: usize, lit: &str) -> (r: Option<usize>)
    requires
        i <= s@.len(),
    ensures
        match r {
            Some(j) => i <= j <= s@.len() && expect(s@.skip(i as int), lit@) == Some(
                s@.skip(j as int),
            ),
            None => expect(s@.skip(i as int), lit@) is None,
        },
{
    let m = lit.unicode_len();
    if m > s.len() - i {
        return None;
    }
    let mut k: usize = 0;
    while k < m
        invariant
            k <= m,
            m == lit@.len(),
            i + m <= s@.len(),
            s@.len() <= usize::MAX,
            forall|t: int| 0 <= t < k ==> s@.skip(i as int)[t] == lit@[t],
        decreases m - k,
    {
        if s[i + k] != lit.get_char(k) {
            proof {
                assert(s@.skip(i as int)[k as int] != lit@[k as int]);
                assert(s@.skip(i as int).take(m as int)[k as int] != lit@[k as int]);
            }
            return None;
        }
        k = k + 1;
    }
    proof {
        assert(s@.skip(i as int).take(m as int) =~= lit@);
        assert(s@.skip(i as int).skip(m as int) =~= s@.skip(i as int + m as int));
    }
    Some(i + m)
}

fn hex_val_char(c: char) -> (r: Option<u8>)
    ensures
        match r {
            Some(v) => hex_val(c) == Some(v as int) && v < 16,
            None => hex_val(c) is None,
        },
{
    let u = c as u32;
    if 48 <= u && u <= 57 {
        Some((u - 48) as u8)
    } else if 97 <= u && u <= 102 {
        Some((u - 87) as u8)
    } else if 65 <= u && u <= 70 {
        Some((u - 55) as u8)
    } else {
        None
    }
}

fn short_escape_char(e: char) -> (r: Option<char>)
    ensures
        r == short_escape(e),
{
    if e == '"' {
        Some('"')
    } else if e == '\\' {
        Some('\\')
    } else if e == '/' {
        Some('/')
    } else if e == 'n' {
        Some('\n')
    } else if e == 't' {
        Some('\t')
    } else if e == 'r' {
        Some('\r')
    } else if e == 'b' {
        Some('\u{8}')
    } else if e == 'f' {
        Some('\u{c}')
    } else {
        None
    }
}

fn prepend_char(c: char, tail: String) -> (r: String)
    ensures
        r@ == seq![c] + tail@,
{
    let mut out = String::new();
    string_push(&mut out, c);
    out.append(tail.as_str());
    proof {
        assert(out@ =~= seq![c] + tail@);
    }
    out
}

fn parse_string_body_at(s: &Vec<char>, i: usize) -> (r: Option<(String, usize)>)
    requires
        i <= s@.len(),
    ensures
        match r {
            Some((v, j)) => i <= j <= s@.len() && parse_string_body(s@.skip(i as int)) == Some(
                (v@, s@.skip(j as int)),
            ),
            None => parse_string_body(s@.skip(i as int)) is None,
        },
    decreases s@.len() - i,
{
    if i == s.len() {
        return None;
    }
    let c = s[i];
    proof {
        assert(s@.skip(i as int)[0] == c);
    }
    if c == '"' {
        let out = String::new();
        proof {
            assert(out@ =~= Seq::<char>::empty());
            assert(s@.skip(i as int).skip(1) =~= s@.skip(i as int + 1));
        }
        return Some((out, i + 1));
    }
    if c == '\\' {
        if s.len() - i < 2 {
            return None;
        }
        let e = s[i + 1];
        proof {
            assert(s@.skip(i as int)[1] == e);
        }
        if e == 'u' {
            if s.len() - i < 6 {
                return None;
            }
            proof {
                assert(s@.skip(i as int)[2] == s@[i as int + 2]);
                assert(s@.skip(i as int)[3] == s@[i as int + 3]);
                assert(s@.skip(i as int)[4] == s@[i as int + 4]);
                assert(s@.skip(i as int)[5] == s@[i as int + 5]);
            }
            let h1 = hex_val_char(s[i + 2]);
            let h2 = hex_val_char(s[i + 3]);
            let h3 = hex_val_char(s[i + 4]);
            let h4 = hex_val_char(s[i + 5]);
            match (h1, h2, h3, h4) {
                (Some(d1), Some(d2), Some(d3), Some(d4)) => {
                    let v: u32 = (d1 as u32) * 4096 + (d2 as u32) * 256 + (d3 as u32) * 16 + (
                    d4 as u32);
                    if 0xD800 <= v && v < 0xE000 {
                        return None;
                    }
                    match char_from_u32(v) {
                        Some(decoded) => {
                            match parse_string_body_at(s, i + 6) {
                                Some((tail, j)) => {
                                    proof {
                                        assert(s@.skip(i as int).skip(6) =~= s@.skip(i as int + 6));
                                    }
                                    Some((prepend_char(decoded, tail), j))
                                },
                                None => {
                                    proof {
                                        assert(s@.skip(i as int).skip(6) =~= s@.skip(i as int + 6));
                                    }
                                    None
                                },
                            }
                        },
                        None => {
                            proof {
                                assert(false);
                            }
                            None
                        },
                    }
                },
                _ => None,
            }
        } else {
            match short_escape_char(e) {
                Some(decoded) => {
                    match parse_string_body_at(s, i + 2) {
                        Some((tail, j)) => {
                            proof {
                                assert(s@.skip(i as int).skip(2) =~= s@.skip(i as int + 2));
                            }
                            Some((prepend_char(decoded, tail), j))
                        },
                        None => {
                            proof {
                                assert(s@.skip(i as int).skip(2) =~= s@.skip(i as int + 2));
                            }
                            None
                        },
                    }
                },
                None => None,
            }
        }
    } else {
        if (c as u32) < 0x20 {
            return None;
        }
        match parse_string_body_at(s, i + 1) {
            Some((tail, j)) => {
                proof {
                    assert(s@.skip(i as int).skip(1) =~= s@.skip(i as int + 1));
                }
                Some((prepend_char(c, tail), j))
            },
            None => {
                proof {
                    assert(s@.skip(i as int).skip(1) =~= s@.skip(i as int + 1));
                }
                None
            },
        }
    }
}

fn parse_string_at(s: &Vec<char>, i: usize) -> (r: Option<(String, usize)>)
    requires
        i <= s@.len(),
    ensures
        match r {
            Some((v, j)) => i <= j <= s@.len() && parse_string(s@.skip(i as int)) == Some(
                (v@, s@.skip(j as int)),
            ),
            None => parse_string(s@.skip(i as int)) is None,
        },
{
    let t = skip_ws_at(s, i);
    if t < s.len() && s[t] == '"' {
        proof {
            assert(s@.skip(t as int).skip(1) =~= s@.skip(t as int + 1));
        }
        match parse_string_body_at(s, t + 1) {
            Some((v, j)) => Some((v, j)),
            None => None,
        }
    } else {
        None
    }
}

/// The key name inside a quoted key text.
pub open spec fn unquoted(l: Seq<char>) -> Seq<char> {
    l.subrange(1, l.len() - 1)
}

fn parse_keyed_string_at(s: &Vec<char>, i: usize, quoted_key: &str) -> (r: Option<(String, usize)>)
    requires
        i <= s@.len(),
        quoted_key@.len() >= 2,
        quoted_key@.first() == '"',
        quoted_key@.last() == '"',
    ensures
        match r {
            Some((v, j)) => i <= j <= s@.len() && parse_keyed_string(
                s@.skip(i as int),
                unquoted(quoted_key@),
            ) == Some((v@, s@.skip(j as int))),
            None => parse_keyed_string(s@.skip(i as int), unquoted(quoted_key@)) is None,
        },
{
    proof {
        assert(quoted_key@ =~= seq!['"'] + unquoted(quoted_key@) + seq!['"']);
    }
    let t = skip_ws_at(s, i);
    match expect_at(s, t, quoted_key) {
        Some(r1) => {
            let t2 = skip_ws_at(s, r1);
            proof {
                reveal_strlit(":");
                assert(":"@ =~= seq![':']);
            }
            match expect_at(s, t2, ":") {
                Some(r2) => parse_string_at(s, r2),
                None => None,
            }
        },
        None => None,
    }
}

fn parse_path_value_at(s: &Vec<char>, i: usize) -> (r: Option<(Option<String>, usize)>)
    requires
        i <= s@.len(),
    ensures
        match r {
            Some((v, j)) => i <= j <= s@.len() && parse_path_value(s@.skip(i as int)) == Some(
                (v.deep_view(), s@.skip(j as int)),
            ),
            None => parse_path_value(s@.skip(i as int)) is None,
        },
{
    let t = skip_ws_at(s, i);
    proof {
        reveal_strlit("null");
        assert("null"@ =~= null_text());
    }
    match expect_at(s, t, "null") {
        Some(rest) => Some((None, rest)),
        None => match parse_string_at(s, t) {
            Some((v, j)) => Some((Some(v), j)),
            None => None,
        },
    }
}

fn parse_song_at(s: &Vec<char>, i: usize) -> (r: Option<(Song, usize)>)
    requires
        i <= s@.len(),
    ensures
        match r {
            Some((song, j)) => i <= j <= s@.len() && parse_song(s@.skip(i as int)) == Some(
                (song@, s@.skip(j as int)),
            ),
            None => parse_song(s@.skip(i as int)) is None,
        },
{
    let t = skip_ws_at(s, i);
    proof {
        reveal_strlit("{");
        assert("{"@ =~= seq!['{']);
        reveal_strlit("}");
        assert("}"@ =~= seq!['}']);
        reveal_strlit(",");
        assert(","@ =~= seq![',']);
        reveal_strlit(":");
        assert(":"@ =~= seq![':']);
        reveal_strlit("\"title\"");
        assert(unquoted("\"title\""@) =~= seq!['t', 'i', 't', 'l', 'e']);
        reveal_strlit("\"artist\"");
        assert(unquoted("\"artist\""@) =~= seq!['a', 'r', 't', 'i', 's', 't']);
        reveal_strlit("\"url\"");
        assert(unquoted("\"url\""@) =~= seq!['u', 'r', 'l']);
        reveal_strlit("\"path\"");
        assert("\"path\""@ =~= seq!['"', 'p', 'a', 't', 'h', '"']);
    }
    let r0 = match expect_at(s, t, "{") {
        Some(r0) => r0,
        None => {
            return None;
        },
    };
    let (title, r1) = match parse_keyed_string_at(s, r0, "\"title\"") {
        Some(p) => p,
        None => {
            return None;
        },
    };
    let t1 = skip_ws_at(s, r1);
    let r1c = match expect_at(s, t1, ",") {
        Some(j) => j,
        None => {
            return None;
        },
    };
    let (artist, r2) = match parse_keyed_string_at(s, r1c, "\"artist\"") {
        Some(p) => p,
        None => {
            return None;
        },
    };
    let t2 = skip_ws_at(s, r2);
    let r2c = match expect_at(s, t2, ",") {
        Some(j) => j,
        None => {
            return None;
        },
    };
    let (url, r3) = match parse_keyed_string_at(s, r2c, "\"url\"") {
        Some(p) => p,
        None => {
            return None;
        },
    };
    let t3 = skip_ws_at(s, r3);
    match expect_at(s, t3, ",") {
        Some(r3c) => {
            let t4 = skip_ws_at(s, r3c);
            let r4 = match expect_at(s, t4, "\"path\"") {
                Some(j) => j,
                None => {
                    return None;
                },
            };
            let t5 = skip_ws_at(s, r4);
            let r5 = match expect_at(s, t5, ":") {
                Some(j) => j,
                None => {
                    return None;
                },
            };
            let (path, r6) = match parse_path_value_at(s, r5) {
                Some(p) => p,
                None => {
                    return None;
                },
            };
            let t6 = skip_ws_at(s, r6);
            match expect_at(s, t6, "}") {
                Some(rest) => Some((Song { title, artist, url, path }, rest)),
                None => None,
            }
        },
        None => {
            match expect_at(s, t3, "}") {
                Some(rest) => Some((Song { title, artist, url, path: None }, rest)),
                None => None,
            }
        },
    }
}

fn parse_more_songs_at(s: &Vec<char>, i: usize, songs: &mut Vec<Song>) -> (r: Option<usize>)
    requires
        i <= s@.len(),
    ensures
        match r {
            Some(j) => j <= s@.len() && parse_more_songs(s@.skip(i as int), old(songs).deep_view())
                == Some((final(songs).deep_view(), s@.skip(j as int))),
            None => parse_more_songs(s@.skip(i as int), old(songs).deep_view()) is None,
        },
    decreases s@.len() - i,
{
    let t = skip_ws_at(s, i);
    proof {
        reveal_strlit("]");
        assert("]"@ =~= seq![']']);
    }
    match expect_at(s, t, "]") {
        Some(j) => {
            return Some(j);
        },
        None => {},
    }
    if t < s.len() && s[t] == ',' {
        proof {
            assert(s@.skip(t as int).skip(1) =~= s@.skip(t as int + 1));
        }
        match parse_song_at(s, t + 1) {
            Some((song, j2)) => {
                if j2 > i {
                    songs.push(song);
                    proof {
                        assert(songs.deep_view() =~= old(songs).deep_view().push(song@));
                    }
                    parse_more_songs_at(s, j2, songs)
                } else {
                    None
                }
            },
            None => None,
        }
    } else {
        None
    }
}

/// The playlist a stored document holds, or nothing when the text is not
/// a playlist document.
pub fn playlist_from_json(s: &str) -> (r: Option<Vec<Song>>)
    ensures
        match r {
            Some(v) => parse_playlist(s@) == Some(v.deep_view()),
            None => parse_playlist(s@) is None,
        },
{
    let chars = str_to_chars(s);
    proof {
        assert(chars@.skip(0) =~= s@);
        reveal_strlit("[");
        assert("["@ =~= seq!['[']);
        reveal_strlit("]");
        assert("]"@ =~= seq![']']);
    }
    let t = skip_ws_at(&chars, 0);
    let r0 = match expect_at(&chars, t, "[") {
        Some(j) => j,
        None => {
            return None;
        },
    };
    let t0 = skip_ws_at(&chars, r0);
    match expect_at(&chars, t0, "]") {
        Some(rest) => {
            let e = skip_ws_at(&chars, rest);
            if e == chars.len() {
                let out: Vec<Song> = Vec::new();
                proof {
                    assert(out.deep_view() =~= Seq::<SongView>::empty());
                    assert(s@.skip(e as int).len() == 0);
                }
                Some(out)
            } else {
                proof {
                    assert(skip_ws(chars@.skip(rest as int)).len() > 0);
                }
                None
            }
        },
        None => {
            let (song, r1) = match parse_song_at(&chars, t0) {
                Some(p) => p,
                None => {
                    return None;
                },
            };
            let mut songs: Vec<Song> = Vec::new();
            songs.push(song);
            proof {
                assert(songs.deep_view() =~= seq![song@]);
            }
            match parse_more_songs_at(&chars, r1, &mut songs) {
                Some(rest) => {
                    let e = skip_ws_at(&chars, rest);
                    if e == chars.len() {
                        proof {
                            assert(s@.skip(e as int).len() == 0);
                        }
                        Some(songs)
                    } else {
                        proof {
                            assert(skip_ws(chars@.skip(rest as int)).len() > 0);
                        }
                        None
                    }
                },
                None => None,
            }
        },
    }
}

} // verus!
