//! Rendering and parsing of the playlist format invert each other.
//!
//! The chain of lemmas here follows the shape of the rendered text — one
//! lemma per syntactic layer — and ends in [`lemma_playlist_round_trip`]:
//! parsing a rendered playlist yields exactly the playlist that was
//! rendered.

use vstd::prelude::*;
use crate::codec::{
    escape_char, escape_string, expect, hex_digit, hex_val, is_ws, key_artist, key_path, key_title,
    key_url, null_text, obj_close, parse_keyed_string, parse_more_songs, parse_path_value,
    parse_playlist,
    parse_song, parse_string, parse_string_body, playlist_json, quoted, short_escape, skip_ws,
    song_json, songs_tail_json,
};
use crate::song::SongView;

verus! {

/// Dropping leading whitespace ignores a whitespace prefix.
proof fn lemma_skip_ws_concat(pfx: Seq<char>, s: Seq<char>)
    requires
        forall|i: int| 0 <= i < pfx.len() ==> is_ws(#[trigger] pfx[i]),
    ensures
        skip_ws(pfx + s) == skip_ws(s),
    decreases pfx.len(),
{
    if pfx.len() == 0 {
        assert(pfx + s =~= s);
    } else {
        assert((pfx + s)[0] == pfx[0]);
        assert((pfx + s).skip(1) =~= pfx.skip(1) + s);
        lemma_skip_ws_concat(pfx.skip(1), s);
    }
}

/// Dropping leading whitespace twice is dropping it once.
proof fn lemma_skip_ws_idem(s: Seq<char>)
    ensures
        skip_ws(skip_ws(s)) == skip_ws(s),
    decreases s.len(),
{
    if s.len() > 0 && is_ws(s[0]) {
        lemma_skip_ws_idem(s.skip(1));
    }
}

/// An expected literal standing at the front of the input is found there.
proof fn lemma_expect_prefix(lit: Seq<char>, rest: Seq<char>)
    ensures
        expect(lit + rest, lit) == Some(rest),
{
    assert((lit + rest).take(lit.len() as int) =~= lit);
    assert((lit + rest).skip(lit.len() as int) =~= rest);
}

/// An expected text is missed when the input opens with another character.
proof fn lemma_expect_fails(s: Seq<char>, lit: Seq<char>)
    requires
        lit.len() > 0,
        s.len() == 0 || s[0] != lit[0],
    ensures
        expect(s, lit) is None,
{
    if lit.len() <= s.len() {
        assert(s.take(lit.len() as int)[0] == s[0]);
        assert(s.take(lit.len() as int) != lit);
    }
}

/// A hexadecimal digit reads back as its value.
proof fn lemma_hex_round_trip(d: int)
    requires
        0 <= d < 16,
    ensures
        hex_val(hex_digit(d)) == Some(d),
{
}

/// The escaped text of a string, up to its closing quote, reads back as
/// exactly that string, leaving everything after the quote untouched.
proof fn lemma_parse_escaped(s: Seq<char>, rest: Seq<char>)
    ensures
        parse_string_body(escape_string(s) + seq!['"'] + rest) == Some((s, rest)),
    decreases s.len(),
{
    let input = escape_string(s) + seq!['"'] + rest;
    if s.len() == 0 {
        assert(escape_string(s) =~= Seq::<char>::empty());
        assert(input =~= seq!['"'] + rest);
        assert(input[0] == '"');
        assert(input.skip(1) =~= rest);
    } else {
        let c = s[0];
        let tail_input = escape_string(s.skip(1)) + seq!['"'] + rest;
        lemma_parse_escaped(s.skip(1), rest);
        assert(input =~= escape_char(c) + tail_input);
        assert(seq![c] + s.skip(1) =~= s);
        if c == '"' {
            assert(input[0] == '\\' && input[1] == '"');
            assert(input.skip(2) =~= tail_input);
            assert(short_escape('"') == Some('"'));
        } else if c == '\\' {
            assert(input[0] == '\\' && input[1] == '\\');
            assert(input.skip(2) =~= tail_input);
            assert(short_escape('\\') == Some('\\'));
        } else if (c as u32) < 0x20 {
            let u = (c as u32) as int;
            let hi = u / 16;
            let lo = u % 16;
            assert(input[0] == '\\' && input[1] == 'u');
            assert(input[2] == '0' && input[3] == '0');
            assert(input[4] == hex_digit(hi) && input[5] == hex_digit(lo));
            assert(hex_val('0') == Some(0int));
            lemma_hex_round_trip(hi);
            lemma_hex_round_trip(lo);
            let v = 0 * 4096 + 0 * 256 + hi * 16 + lo;
            assert(v == u);
            assert(!(0xD800 <= v < 0xE000));
            assert((v as u32) == c as u32);
            vstd::utf8::char_u32_cast(c, c as u32);
            assert(((v as u32) as char) == c);
            assert(input.skip(6) =~= tail_input);
        } else {
            assert(input[0] == c);
            assert(input.skip(1) =~= tail_input);
        }
    }
}

/// A quoted string reads back as its content.
proof fn lemma_parse_quoted(v: Seq<char>, rest: Seq<char>)
    ensures
        parse_string(quoted(v) + rest) == Some((v, rest)),
{
    let input = quoted(v) + rest;
    assert(input[0] == '"');
    assert(input.skip(1) =~= escape_string(v) + seq!['"'] + rest);
    lemma_parse_escaped(v, rest);
}

/// One rendered object member — line break, indentation, quoted key,
/// colon, quoted value — reads back as its value.
proof fn lemma_member_parses(name: Seq<char>, value: Seq<char>, rest: Seq<char>)
    ensures
        parse_keyed_string_of(name, value, rest) == Some((value, rest)),
{
    let qname = seq!['"'] + name + seq!['"'];
    let after = qname + seq![':', ' '] + quoted(value) + rest;
    let input = member_text(name, value, rest);
    assert(input =~= seq!['\n', ' ', ' ', ' ', ' '] + after);
    lemma_skip_ws_concat(seq!['\n', ' ', ' ', ' ', ' '], after);
    assert(after[0] == '"');
    assert(skip_ws(after) == after);
    assert(after =~= qname + (seq![':', ' '] + quoted(value) + rest));
    lemma_expect_prefix(qname, seq![':', ' '] + quoted(value) + rest);
    let r1 = seq![':', ' '] + quoted(value) + rest;
    assert(r1[0] == ':');
    assert(skip_ws(r1) == r1);
    assert(r1 =~= seq![':'] + (seq![' '] + quoted(value) + rest));
    lemma_expect_prefix(seq![':'], seq![' '] + quoted(value) + rest);
    let r2 = seq![' '] + quoted(value) + rest;
    assert(r2 =~= seq![' '] + (quoted(value) + rest));
    lemma_skip_ws_concat(seq![' '], quoted(value) + rest);
    lemma_parse_quoted(value, rest);
    assert(skip_ws(r2) == skip_ws(quoted(value) + rest));
    assert(parse_string(r2) == parse_string(quoted(value) + rest));
}

/// The text of one rendered member, with what follows it.
spec fn member_text(name: Seq<char>, value: Seq<char>, rest: Seq<char>) -> Seq<char> {
    seq!['\n', ' ', ' ', ' ', ' '] + (seq!['"'] + name + seq!['"']) + seq![':', ' '] + quoted(value)
        + rest
}

/// What parsing one member of that text yields.
spec fn parse_keyed_string_of(name: Seq<char>, value: Seq<char>, rest: Seq<char>) -> Option<
    (Seq<char>, Seq<char>),
> {
    parse_keyed_string(member_text(name, value, rest), name)
}

/// A rendered song object, under any leading whitespace, reads back as
/// exactly that song; and the text visibly starts with its opening brace.
#[verifier::rlimit(100)]
proof fn lemma_song_json_parses(song: SongView, pfx: Seq<char>, rest: Seq<char>)
    requires
        forall|i: int| 0 <= i < pfx.len() ==> is_ws(#[trigger] pfx[i]),
    ensures
        parse_song(pfx + song_json(song) + rest) == Some((song, rest)),
        skip_ws(pfx + song_json(song) + rest).len() > 0,
        skip_ws(pfx + song_json(song) + rest)[0] == '{',
{
    let input = pfx + song_json(song) + rest;
    let name_t = seq!['t', 'i', 't', 'l', 'e'];
    let name_a = seq!['a', 'r', 't', 'i', 's', 't'];
    let name_u = seq!['u', 'r', 'l'];
    let path_text: Seq<char> = match song.path {
        Some(p) => quoted(p),
        None => null_text(),
    };
    let r4 = key_path() + path_text + obj_close() + rest;
    let r3 = member_text(name_u, song.url, r4);
    let r2c = seq![','] + r3;
    let r2 = member_text(name_a, song.artist, r2c);
    let r1c = seq![','] + r2;
    let r1 = member_text(name_t, song.title, r1c);
    let braced = seq!['{'] + r1;

    assert(key_title() =~= seq!['\n', ' ', ' ', ' ', ' '] + (seq!['"'] + name_t + seq!['"']) + seq![
        ':',
        ' ',
    ]);
    assert(key_artist() =~= seq![','] + (seq!['\n', ' ', ' ', ' ', ' '] + (seq!['"'] + name_a
        + seq!['"']) + seq![':', ' ']));
    assert(key_url() =~= seq![','] + (seq!['\n', ' ', ' ', ' ', ' '] + (seq!['"'] + name_u + seq![
        '"',
    ]) + seq![':', ' ']));
    assert(input =~= (pfx + seq![' ', ' ']) + braced);

    // The leading whitespace and the object's own indentation fall away.
    let pfx2 = pfx + seq![' ', ' '];
    assert(forall|i: int| 0 <= i < pfx2.len() ==> is_ws(#[trigger] pfx2[i]));
    lemma_skip_ws_concat(pfx2, braced);
    assert(braced[0] == '{');
    assert(skip_ws(braced) == braced);
    assert(braced =~= seq!['{'] + r1);
    lemma_expect_prefix(seq!['{'], r1);

    // The three string members.
    lemma_member_parses(name_t, song.title, r1c);
    assert(r1c[0] == ',');
    assert(skip_ws(r1c) == r1c);
    lemma_expect_prefix(seq![','], r2);
    lemma_member_parses(name_a, song.artist, r2c);
    assert(r2c[0] == ',');
    assert(skip_ws(r2c) == r2c);
    lemma_expect_prefix(seq![','], r3);
    lemma_member_parses(name_u, song.url, r4);

    // The path member.
    assert(r4 =~= seq![','] + (seq!['\n', ' ', ' ', ' ', ' '] + (seq!['"'] + seq![
        'p',
        'a',
        't',
        'h',
    ] + seq!['"']) + seq![':', ' '] + path_text + (obj_close() + rest)));
    let after_comma = seq!['\n', ' ', ' ', ' ', ' '] + (seq!['"'] + seq!['p', 'a', 't', 'h'] + seq![
        '"',
    ]) + seq![':', ' '] + path_text + (obj_close() + rest);
    assert(r4[0] == ',');
    assert(skip_ws(r4) == r4);
    lemma_expect_prefix(seq![','], after_comma);
    let qpath = seq!['"'] + seq!['p', 'a', 't', 'h'] + seq!['"'];
    assert(qpath =~= seq!['"', 'p', 'a', 't', 'h', '"']);
    let after_ws = qpath + seq![':', ' '] + path_text + (obj_close() + rest);
    assert(after_comma =~= seq!['\n', ' ', ' ', ' ', ' '] + after_ws);
    lemma_skip_ws_concat(seq!['\n', ' ', ' ', ' ', ' '], after_ws);
    assert(after_ws[0] == '"');
    assert(skip_ws(after_ws) == after_ws);
    assert(after_ws =~= qpath + (seq![':', ' '] + path_text + (obj_close() + rest)));
    lemma_expect_prefix(qpath, seq![':', ' '] + path_text + (obj_close() + rest));
    let pr1 = seq![':', ' '] + path_text + (obj_close() + rest);
    assert(pr1[0] == ':');
    assert(skip_ws(pr1) == pr1);
    assert(pr1 =~= seq![':'] + (seq![' '] + path_text + (obj_close() + rest)));
    lemma_expect_prefix(seq![':'], seq![' '] + path_text + (obj_close() + rest));
    let pr2 = seq![' '] + path_text + (obj_close() + rest);
    assert(pr2 =~= seq![' '] + (path_text + (obj_close() + rest)));
    lemma_skip_ws_concat(seq![' '], path_text + (obj_close() + rest));
    let pt = path_text + (obj_close() + rest);
    match song.path {
        Some(p) => {
            assert(pt =~= quoted(p) + (obj_close() + rest));
            assert(pt[0] == '"');
            assert(skip_ws(pt) == pt);
            lemma_expect_fails(pt, null_text());
            lemma_parse_quoted(p, obj_close() + rest);
            assert(parse_string(pt) == parse_string(quoted(p) + (obj_close() + rest)));
        },
        None => {
            assert(pt =~= null_text() + (obj_close() + rest));
            assert(pt[0] == 'n');
            assert(skip_ws(pt) == pt);
            lemma_expect_prefix(null_text(), obj_close() + rest);
        },
    }

    // The closing brace.
    let r6 = obj_close() + rest;
    assert(r6 =~= seq!['\n', ' ', ' '] + (seq!['}'] + rest));
    lemma_skip_ws_concat(seq!['\n', ' ', ' '], seq!['}'] + rest);
    assert((seq!['}'] + rest)[0] == '}');
    assert(skip_ws(seq!['}'] + rest) == seq!['}'] + rest);
    lemma_expect_prefix(seq!['}'], rest);

    assert((SongView {
        title: song.title,
        artist: song.artist,
        url: song.url,
        path: song.path,
    }) =~= song);

    // The steps of the parse, chained.
    assert(skip_ws(input) == braced);
    assert(expect(skip_ws(input), seq!['{']) == Some(r1));
    assert(parse_keyed_string(r1, name_t) == Some((song.title, r1c)));
    assert(expect(skip_ws(r1c), seq![',']) == Some(r2));
    assert(parse_keyed_string(r2, name_a) == Some((song.artist, r2c)));
    assert(expect(skip_ws(r2c), seq![',']) == Some(r3));
    assert(parse_keyed_string(r3, name_u) == Some((song.url, r4)));
    assert(expect(skip_ws(r4), seq![',']) == Some(after_comma));
    assert(expect(skip_ws(after_comma), seq!['"', 'p', 'a', 't', 'h', '"']) == Some(pr1));
    assert(expect(skip_ws(pr1), seq![':']) == Some(pr2));
    assert(parse_path_value(pr2) == Some((song.path, r6)));
    assert(expect(skip_ws(r6), seq!['}']) == Some(rest));
}

/// The rendered tail of a playlist — every song after the first, then the
/// closing bracket — reads back as those songs appended to what was
/// already collected.
proof fn lemma_more_songs_parse(songs: Seq<SongView>, acc: Seq<SongView>, rest: Seq<char>)
    ensures
        parse_more_songs(songs_tail_json(songs) + seq!['\n', ']'] + rest, acc) == Some(
            (acc + songs, rest),
        ),
    decreases songs.len(),
{
    let input = songs_tail_json(songs) + seq!['\n', ']'] + rest;
    if songs.len() == 0 {
        assert(songs_tail_json(songs) =~= Seq::<char>::empty());
        assert(input =~= seq!['\n'] + (seq![']'] + rest));
        lemma_skip_ws_concat(seq!['\n'], seq![']'] + rest);
        assert((seq![']'] + rest)[0] == ']');
        assert(skip_ws(seq![']'] + rest) == seq![']'] + rest);
        lemma_expect_prefix(seq![']'], rest);
        assert(acc + songs =~= acc);
    } else {
        let song = songs[0];
        let tail = songs_tail_json(songs.skip(1)) + seq!['\n', ']'] + rest;
        let body = seq!['\n'] + song_json(song) + tail;
        assert(input =~= seq![','] + body);
        assert(input[0] == ',');
        assert(skip_ws(input) == input);
        lemma_expect_fails(input, seq![']']);
        assert(input.skip(1) =~= body);
        lemma_song_json_parses(song, seq!['\n'], tail);
        assert(body =~= seq!['\n'] + song_json(song) + tail);
        // The rest after one song is strictly shorter than the input.
        assert(tail.len() < input.len());
        lemma_more_songs_parse(songs.skip(1), acc.push(song), rest);
        assert(acc.push(song) + songs.skip(1) =~= acc + songs);
    }
}

/// Parsing a rendered playlist yields exactly the playlist that was
/// rendered: the stored format loses nothing.
#[verifier::rlimit(100)]
pub proof fn lemma_playlist_round_trip(songs: Seq<SongView>)
    ensures
        parse_playlist(playlist_json(songs)) == Some(songs),
{
    let input = playlist_json(songs);
    if songs.len() == 0 {
        assert(input =~= seq!['['] + seq![']']);
        assert(input[0] == '[');
        assert(skip_ws(input) == input);
        lemma_expect_prefix(seq!['['], seq![']']);
        assert(seq![']'] =~= seq![']'] + Seq::<char>::empty());
        assert(skip_ws(seq![']'] + Seq::<char>::empty()) == seq![']'] + Seq::<char>::empty());
        lemma_expect_prefix(seq![']'], Seq::<char>::empty());
        assert(skip_ws(Seq::<char>::empty()).len() == 0);
        assert(Seq::<SongView>::empty() =~= songs);
    } else {
        let song = songs[0];
        let tail = songs_tail_json(songs.skip(1)) + seq!['\n', ']'] + Seq::<char>::empty();
        let body = seq!['\n'] + song_json(song) + tail;
        assert(input =~= seq!['['] + body);
        assert(input[0] == '[');
        assert(skip_ws(input) == input);
        lemma_expect_prefix(seq!['['], body);
        lemma_song_json_parses(song, seq!['\n'], tail);
        let t0 = skip_ws(body);
        lemma_skip_ws_idem(body);
        assert(t0.len() > 0 && t0[0] == '{');
        lemma_expect_fails(t0, seq![']']);
        assert(parse_song(t0) == parse_song(body));
        lemma_more_songs_parse(songs.skip(1), seq![song], Seq::<char>::empty());
        assert(seq![song] + songs.skip(1) =~= songs);
        assert(skip_ws(Seq::<char>::empty()).len() == 0);

        // The steps of the parse, chained.
        assert(expect(skip_ws(input), seq!['[']) == Some(body));
        assert(expect(t0, seq![']']) is None);
        assert(parse_song(t0) == Some((song, tail)));
        assert(parse_more_songs(tail, seq![song]) == Some((songs, Seq::<char>::empty())));
    }
}

} // verus!
