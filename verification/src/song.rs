//! The playlist data model: a song and how its playback source is resolved.

use vstd::prelude::*;
use vstd::string::StrSliceExecFns;
use vstd::string::StringExecFns;

verus! {

/// A playable track, either a remote URL or a local file; when a local
/// path is present it is preferred at playback time.
pub struct Song {
    pub title: String,
    pub artist: String,
    pub url: String,
    pub path: Option<String>,
}

/// The mathematical value of a [`Song`]: its fields as character sequences.
#[verifier::ext_equal]
pub struct SongView {
    pub title: Seq<char>,
    pub artist: Seq<char>,
    pub url: Seq<char>,
    pub path: Option<Seq<char>>,
}

impl View for Song {
    type V = SongView;

    open spec fn view(&self) -> SongView {
        SongView {
            title: self.title@,
            artist: self.artist@,
            url: self.url@,
            path: match self.path {
                Some(p) => Some(p@),
                None => None,
            },
        }
    }
}

impl DeepView for Song {
    type V = SongView;

    open spec fn deep_view(&self) -> SongView {
        self.view()
    }
}

/// Whether a stored path is relative to the user's home directory.
pub open spec fn is_tilde_path(p: Seq<char>) -> bool {
    p.len() >= 2 && p[0] == '~' && p[1] == '/'
}

/// Appending a relative path under a base directory, the way a path join
/// behaves: an absolute right-hand side replaces the base, and a separator
/// is inserted only when the base does not already end in one.
pub open spec fn join_under(base: Seq<char>, rel: Seq<char>) -> Seq<char> {
    if rel.len() > 0 && rel[0] == '/' {
        rel
    } else if base.len() > 0 && base.last() == '/' {
        base + rel
    } else {
        base + seq!['/'] + rel
    }
}

/// What the external player is asked to open for a song: the stored path
/// with `~/` expanded against the home directory when one is present,
/// otherwise the URL.
pub open spec fn resolved_source(song: SongView, home: Option<Seq<char>>) -> Seq<char> {
    match song.path {
        Some(p) => if is_tilde_path(p) {
            join_under(
                match home {
                    Some(h) => h,
                    None => seq!['/'],
                },
                p.skip(2),
            )
        } else {
            p
        },
        None => song.url,
    }
}

pub(crate) fn join_path(base: &str, rel: &str) -> (r: String)
    ensures
        r@ == join_under(base@, rel@),
{
    let rel_len = rel.unicode_len();
    if rel_len > 0 && rel.get_char(0) == '/' {
        return rel.to_owned();
    }
    let base_len = base.unicode_len();
    let mut r = base.to_owned();
    if !(base_len > 0 && base.get_char(base_len - 1) == '/') {
        r.append("/");
        proof {
            reveal_strlit("/");
            assert(r@ =~= base@ + seq!['/']);
        }
    }
    r.append(rel);
    proof {
        if !(base@.len() > 0 && base@.last() == '/') {
            assert(r@ =~= base@ + seq!['/'] + rel@);
        }
    }
    r
}

impl Song {
    /// The string handed to the external player for this song.
    pub fn resolve_source(&self, home: &Option<String>) -> (r: String)
        ensures
            r@ == resolved_source(self@, home.deep_view()),
    {
        match &self.path {
            Some(p) => {
                let n = p.as_str().unicode_len();
                if n >= 2 && p.as_str().get_char(0) == '~' && p.as_str().get_char(1) == '/' {
                    let rest = p.as_str().substring_char(2, n);
                    proof {
                        assert(rest@ =~= p@.skip(2));
                    }
                    match home {
                        Some(h) => join_path(h.as_str(), rest),
                        None => {
                            proof {
                                reveal_strlit("/");
                                assert("/"@ =~= seq!['/']);
                            }
                            join_path("/", rest)
                        },
                    }
                } else {
                    p.clone()
                }
            },
            None => self.url.clone(),
        }
    }
}

/// The three built-in sample songs, as values.
pub open spec fn default_playlist_view() -> Seq<SongView> {
    seq![
        SongView {
            title: "Indonesian Folk Music Medley 2024 Ver. - hololive ID [Cover]"@,
            artist: "hololive ID"@,
            url: "https://youtu.be/rjhIMMSolmc?feature=shared"@,
            path: None,
        },
        SongView {
            title: "Terhebat - hololive ID [Cover]"@,
            artist: "hololive ID"@,
            url: "https://youtu.be/PaOMF-g1ZWU?feature=shared"@,
            path: None,
        },
        SongView {
            title: "Bebas - hololive ID [Cover]"@,
            artist: "hololive ID"@,
            url: "https://youtu.be/wlyRGXUwjVA?feature=shared"@,
            path: None,
        },
    ]
}

/// The built-in sample playlist used when nothing was persisted yet.
pub fn default_playlist() -> (r: Vec<Song>)
    ensures
        r.deep_view() == default_playlist_view(),
{
    let mut r: Vec<Song> = Vec::new();
    r.push(Song {
        title: "Indonesian Folk Music Medley 2024 Ver. - hololive ID [Cover]".to_owned(),
        artist: "hololive ID".to_owned(),
        url: "https://youtu.be/rjhIMMSolmc?feature=shared".to_owned(),
        path: None,
    });
    r.push(Song {
        title: "Terhebat - hololive ID [Cover]".to_owned(),
        artist: "hololive ID".to_owned(),
        url: "https://youtu.be/PaOMF-g1ZWU?feature=shared".to_owned(),
        path: None,
    });
    r.push(Song {
        title: "Bebas - hololive ID [Cover]".to_owned(),
        artist: "hololive ID".to_owned(),
        url: "https://youtu.be/wlyRGXUwjVA?feature=shared".to_owned(),
        path: None,
    });
    proof {
        assert(r.deep_view() =~~= default_playlist_view());
    }
    r
}

} // verus!
