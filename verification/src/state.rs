//! The player's data model: tracks, playback state, themes and the configuration records.
//!
//! Floating-point values (a track's duration, the volume, the elapsed time) are not part
//! of this model; the application shell carries them.
use vstd::prelude::*;

use crate::text::{
    chars_of, find_chars, lemma_find_unique, occurs_at, spec_contains, spec_find, spec_trim,
    str_eq, string_from_chars, to_owned_string, trim,
};

verus! {

/// A track of the playlist, described by its file path.
pub struct TrackInfo {
    pub id: u32,
    pub name: String,
    pub artist: String,
    pub path: String,
}

impl Clone for TrackInfo {
    fn clone(&self) -> (r: Self)
        ensures
            r == *self,
    {
        TrackInfo {
            id: self.id,
            name: self.name.clone(),
            artist: self.artist.clone(),
            path: self.path.clone(),
        }
    }
}

/// The file name that stands in when a path has no usable stem.
pub open spec fn stem_or_unknown(stem: Option<Seq<char>>) -> Seq<char> {
    match stem {
        Some(s) => s,
        None => "Unknown"@,
    }
}

/// The separator between artist and title in a file name.
pub open spec fn artist_separator() -> Seq<char> {
    " - "@
}

/// The artist that a file name ("Artist - Name") announces.
pub open spec fn spec_track_artist(filename: Seq<char>) -> Seq<char> {
    match spec_find(filename, artist_separator()) {
        Some(pos) => spec_trim(filename.subrange(0, pos)),
        None => "Unknown Artist"@,
    }
}

/// The title that a file name ("Artist - Name") announces.
pub open spec fn spec_track_name(filename: Seq<char>) -> Seq<char> {
    match spec_find(filename, artist_separator()) {
        Some(pos) => spec_trim(filename.subrange(pos + 3, filename.len() as int)),
        None => filename,
    }
}

/// The index of the last `c` in `s`, or -1 when there is none.
pub open spec fn last_index_of(s: Seq<char>, c: char) -> int
    decreases s.len(),
{
    if s.len() == 0 {
        -1
    } else if s.last() == c {
        s.len() - 1
    } else {
        last_index_of(s.drop_last(), c)
    }
}

/// What follows the last '/' of a path (the whole path when it has none).
pub open spec fn last_segment(p: Seq<char>) -> Seq<char> {
    p.subrange(last_index_of(p, '/') + 1, p.len() as int)
}

/// A path separator on some platform: '/' everywhere, a backslash on Windows too.
pub open spec fn is_path_sep(c: char) -> bool {
    c == '/' || c == '\\'
}

/// The index of the last path separator of either kind in `s`, or -1 when there is none.
pub open spec fn last_sep_index(s: Seq<char>) -> int
    decreases s.len(),
{
    if s.len() == 0 {
        -1
    } else if is_path_sep(s.last()) {
        s.len() - 1
    } else {
        last_sep_index(s.drop_last())
    }
}

/// What follows the last separator of a path as Windows reads it ('/' or a backslash).
pub open spec fn win_last_segment(p: Seq<char>) -> Seq<char> {
    p.subrange(last_sep_index(p) + 1, p.len() as int)
}

/// A normal file name: not empty, "." or "..".
pub open spec fn normal_name(n: Seq<char>) -> bool {
    n.len() > 0 && n != "."@ && n != ".."@
}

/// A path with no Windows prefix other than a drive followed by a separator: it does not
/// start with two separators (a network share or a verbatim path), and a ':' in second
/// place (a drive "C:") is followed by a separator.
pub open spec fn no_windows_prefix(p: Seq<char>) -> bool {
    &&& !(p.len() >= 2 && is_path_sep(p[0]) && is_path_sep(p[1]))
    &&& (p.len() >= 2 && p[1] == ':' ==> p.len() >= 3 && is_path_sep(p[2]))
}

/// A path whose file name every platform reads alike: no backslash (a separator on
/// Windows only), no Windows prefix but a drive followed by '/', and a last '/'-segment
/// that is a normal file name. A ':' elsewhere is an ordinary character everywhere.
pub open spec fn plain_path(p: Seq<char>) -> bool {
    &&& !p.contains('\\')
    &&& no_windows_prefix(p)
    &&& normal_name(last_segment(p))
}

/// A path whose file name is a normal name both as Unix reads it (after the last '/')
/// and as Windows reads it (after the last '/' or a backslash), with no Windows prefix but a
/// drive followed by a separator.
pub open spec fn two_platform_path(p: Seq<char>) -> bool {
    &&& no_windows_prefix(p)
    &&& normal_name(last_segment(p))
    &&& normal_name(win_last_segment(p))
}

/// The stem of a file name: the name up to its final '.', or the whole name when it has
/// no '.' or only a leading one.
pub open spec fn name_stem(name: Seq<char>) -> Seq<char> {
    let k = last_index_of(name, '.');
    if k > 0 {
        name.subrange(0, k)
    } else {
        name
    }
}

/// The stem of a path's file name as Unix reads it.
pub open spec fn spec_file_stem(p: Seq<char>) -> Seq<char> {
    name_stem(last_segment(p))
}

/// The stem of a path's file name as Windows reads it.
pub open spec fn spec_win_file_stem(p: Seq<char>) -> Seq<char> {
    name_stem(win_last_segment(p))
}

/// Calls `Path::file_stem` on the path and keeps the stem when it is valid UTF-8.
/// std's documentation gives the stem: the file name is the last normal component
/// (separators are '/' on Unix, '/' and a backslash on Windows; a Windows path may begin with a
/// prefix: a drive "C:" or a share or verbatim path starting with two separators), and the
/// stem is that name up to its final '.' (the whole name when it has no '.', or only a
/// leading one); a part of a `str` cut at ASCII characters is valid UTF-8. So on a plain
/// path the stem is the same on every platform, and on a path whose last segment is a
/// normal name under either reading it is the Unix or the Windows stem, by the platform.
/// On other paths (other prefixes, a trailing separator, "." or "..") nothing is claimed.
#[verifier::external_body]
fn path_file_stem(path: &str) -> (r: Option<String>)
    ensures
        plain_path(path@) ==> r is Some && r.unwrap()@ == spec_file_stem(path@),
        two_platform_path(path@) ==> r is Some && (r.unwrap()@ == spec_file_stem(path@)
            || r.unwrap()@ == spec_win_file_stem(path@)),
{
    std::path::Path::new(path).file_stem().and_then(|s| s.to_str()).map(|s| s.to_string())
}

/// The artist and title that a stem announces are those of the record.
pub open spec fn parsed_from(t: TrackInfo, stem: Seq<char>) -> bool {
    t.artist@ == spec_track_artist(stem) && t.name@ == spec_track_name(stem)
}

/// Builds the track record for `path` from the stem of its file name (`None` when the path
/// has none): "Artist - Name" is split at the first " - " and both sides are trimmed;
/// otherwise the artist is "Unknown Artist" and the whole stem is the name.
pub fn track_info_from_stem(stem: Option<&str>, path: &str, id: u32) -> (r: TrackInfo)
    ensures
        r.id == id,
        r.path@ == path@,
        r.artist@ == spec_track_artist(stem_or_unknown(
            match stem {
                Some(s) => Some(s@),
                None => None,
            },
        )),
        r.name@ == spec_track_name(stem_or_unknown(
            match stem {
                Some(s) => Some(s@),
                None => None,
            },
        )),
{
    let filename: String = match stem {
        Some(s) => to_owned_string(s),
        None => to_owned_string("Unknown"),
    };
    let cs = chars_of(filename.as_str());
    let sep = chars_of(" - ");
    match find_chars(&cs, &sep) {
        Some(pos) => {
            proof {
                reveal_strlit(" - ");
                lemma_find_unique(cs@, sep@, pos as int);
                assert(sep@.len() == 3);
                assert(pos + 3 <= cs@.len());
            }
            let left = string_from_chars(&cs.as_slice()[0..pos]);
            let end = cs.len();
            assert(pos + 3 <= end);
            let start = pos + 3;
            let right = string_from_chars(&cs.as_slice()[start..end]);
            let artist = trim(left.as_str());
            let name = trim(right.as_str());
            TrackInfo { id, name, artist, path: to_owned_string(path) }
        },
        None => {
            assert(spec_find(cs@, sep@) is None);
            TrackInfo {
                id,
                name: filename,
                artist: to_owned_string("Unknown Artist"),
                path: to_owned_string(path),
            }
        },
    }
}

/// Derives track info from a file path by parsing the file name
/// ("Artist - Name.ext"; falls back to "Unknown Artist" and the file name). On a plain
/// path the stem is known exactly; on a path that Unix and Windows split differently it is
/// the stem of the platform's reading; on another it is whatever `Path::file_stem` finds.
pub fn extract_track_info(path_str: &str, id: u32) -> (r: TrackInfo)
    ensures
        r.id == id,
        r.path@ == path_str@,
        plain_path(path_str@) ==> r.artist@ == spec_track_artist(spec_file_stem(path_str@))
            && r.name@ == spec_track_name(spec_file_stem(path_str@)),
        two_platform_path(path_str@) ==> parsed_from(r, spec_file_stem(path_str@)) || parsed_from(
            r,
            spec_win_file_stem(path_str@),
        ),
        exists|stem: Option<Seq<char>>|
            r.artist@ == spec_track_artist(stem_or_unknown(stem)) && r.name@ == spec_track_name(
                stem_or_unknown(stem),
            ),
{
    let stem = path_file_stem(path_str);
    let r = match &stem {
        Some(s) => track_info_from_stem(Some(s.as_str()), path_str, id),
        None => track_info_from_stem(None, path_str, id),
    };
    let ghost g: Option<Seq<char>> = match stem {
        Some(s) => Some(s@),
        None => None,
    };
    assert(r.artist@ == spec_track_artist(stem_or_unknown(g)) && r.name@ == spec_track_name(
        stem_or_unknown(g),
    ));
    r
}

/// Whether the player is playing, paused or stopped.
#[derive(PartialEq, Eq, Structural, Clone, Copy, Debug)]
pub enum PlaybackState {
    Playing,
    Paused,
    Stopped,
}

/// What the player reports about playback (the timing and volume figures are kept by the
/// application shell).
pub struct PlaybackStatus {
    pub state: PlaybackState,
    pub current_track_index: Option<usize>,
    pub current_track: Option<TrackInfo>,
}

/// The colour theme of the interface.
#[derive(PartialEq, Eq, Structural, Clone, Copy, Debug)]
pub enum Theme {
    Dark,
    Light,
}

/// The name under which a theme is stored.
pub open spec fn spec_theme_name(t: Theme) -> Seq<char> {
    match t {
        Theme::Dark => "dark"@,
        Theme::Light => "light"@,
    }
}

/// The theme that a stored name denotes: "light" is the light theme, anything else dark.
pub open spec fn spec_theme_from_name(s: Seq<char>) -> Theme {
    if s == "light"@ {
        Theme::Light
    } else {
        Theme::Dark
    }
}

impl Theme {
    /// The name under which the theme is stored.
    pub fn as_str(&self) -> (r: &'static str)
        ensures
            r@ == spec_theme_name(*self),
    {
        match self {
            Theme::Dark => "dark",
            Theme::Light => "light",
        }
    }

    /// The theme that a stored name denotes: "light" is the light theme, anything else dark.
    pub fn from_str(s: &str) -> (r: Self)
        ensures
            r == spec_theme_from_name(s@),
    {
        if str_eq(s, "light") {
            Theme::Light
        } else {
            Theme::Dark
        }
    }
}

/// The chat assistant's settings.
pub struct AiConfig {
    pub api_key: String,
    pub model: String,
}

/// The model that the assistant uses unless told otherwise.
pub open spec fn default_model() -> Seq<char> {
    "deepseek-chat"@
}

impl Clone for AiConfig {
    fn clone(&self) -> (r: Self)
        ensures
            r == *self,
    {
        AiConfig { api_key: self.api_key.clone(), model: self.model.clone() }
    }
}

impl Default for AiConfig {
    fn default() -> (r: Self)
        ensures
            r.api_key@ == Seq::<char>::empty(),
            r.model@ == default_model(),
    {
        AiConfig { api_key: String::new(), model: to_owned_string("deepseek-chat") }
    }
}

/// One message of a chat ("user", "assistant" or "system").
pub struct AiMessage {
    pub role: String,
    pub content: String,
}

/// A chat request: the conversation so far.
pub struct AiChatRequest {
    pub messages: Vec<AiMessage>,
}

/// A card that the interface shows for a track the assistant acted on.
pub struct MusicCard {
    pub track_name: String,
    pub artist: String,
    pub action: String,
    pub track_index: Option<usize>,
}

/// The assistant's answer, with an optional card.
pub struct AiChatResponse {
    pub reply: String,
    pub music_card: Option<MusicCard>,
}

/// The speech service's settings.
pub struct SpeechConfig {
    pub access_key_id: String,
    pub access_key_secret: String,
    pub app_key: String,
    pub voice: String,
    pub enabled: bool,
}

/// The voice used unless told otherwise.
pub open spec fn default_voice() -> Seq<char> {
    "zhixiaoxia"@
}

impl Clone for SpeechConfig {
    fn clone(&self) -> (r: Self)
        ensures
            r == *self,
    {
        SpeechConfig {
            access_key_id: self.access_key_id.clone(),
            access_key_secret: self.access_key_secret.clone(),
            app_key: self.app_key.clone(),
            voice: self.voice.clone(),
            enabled: self.enabled,
        }
    }
}

impl Default for SpeechConfig {
    fn default() -> (r: Self)
        ensures
            r.access_key_id@ == Seq::<char>::empty(),
            r.access_key_secret@ == Seq::<char>::empty(),
            r.app_key@ == Seq::<char>::empty(),
            r.voice@ == default_voice(),
            !r.enabled,
    {
        SpeechConfig {
            access_key_id: String::new(),
            access_key_secret: String::new(),
            app_key: String::new(),
            voice: to_owned_string("zhixiaoxia"),
            enabled: false,
        }
    }
}

/// The result of a speech request: synthesized audio or recognized text.
pub struct SpeechResponse {
    pub audio_base64: Option<String>,
    pub text: Option<String>,
}

/// The player's state (the volume is kept by the application shell).
pub struct AppState {
    pub playlist: Vec<TrackInfo>,
    pub current_index: Option<usize>,
    pub playback_state: PlaybackState,
    pub theme: Theme,
    pub ai_config: AiConfig,
    pub speech_config: SpeechConfig,
}

/// Law: a theme read back from its stored name is the same theme.
pub proof fn law_theme_name_roundtrip(t: Theme)
    ensures
        spec_theme_from_name(spec_theme_name(t)) == t,
{
    reveal_strlit("dark");
    reveal_strlit("light");
    assert("dark"@.len() != "light"@.len());
}

/// The last `c` of `a + b` is in `b` when `b` has one, else it is the last of `a`.
proof fn lemma_last_index_of_append(a: Seq<char>, b: Seq<char>, c: char)
    ensures
        last_index_of(a + b, c) == if last_index_of(b, c) >= 0 {
            a.len() + last_index_of(b, c)
        } else {
            last_index_of(a, c)
        },
    decreases b.len(),
{
    if b.len() == 0 {
        assert(a + b =~= a);
    } else {
        assert((a + b).drop_last() =~= a + b.drop_last());
        lemma_last_index_of_append(a, b.drop_last(), c);
    }
}

/// A sequence without `c` has no last `c`.
proof fn lemma_last_index_of_absent(b: Seq<char>, c: char)
    requires
        forall|i: int| 0 <= i < b.len() ==> b[i] != c,
    ensures
        last_index_of(b, c) == -1,
    decreases b.len(),
{
    if b.len() > 0 {
        assert(b.last() == b[b.len() - 1]);
        lemma_last_index_of_absent(b.drop_last(), c);
    }
}

/// The last separator of `a + b` is in `b` when `b` has one, else it is the last of `a`.
proof fn lemma_last_sep_index_append(a: Seq<char>, b: Seq<char>)
    ensures
        last_sep_index(a + b) == if last_sep_index(b) >= 0 {
            a.len() + last_sep_index(b)
        } else {
            last_sep_index(a)
        },
    decreases b.len(),
{
    if b.len() == 0 {
        assert(a + b =~= a);
    } else {
        assert((a + b).drop_last() =~= a + b.drop_last());
        lemma_last_sep_index_append(a, b.drop_last());
    }
}

/// A sequence without separators has no last separator.
proof fn lemma_last_sep_index_absent(b: Seq<char>)
    requires
        forall|i: int| 0 <= i < b.len() ==> !is_path_sep(b[i]),
    ensures
        last_sep_index(b) == -1,
    decreases b.len(),
{
    if b.len() > 0 {
        assert(b.last() == b[b.len() - 1]);
        lemma_last_sep_index_absent(b.drop_last());
    }
}

/// Law: the file name of `DIR/NAME.EXT` is `NAME.EXT` and its stem is `NAME`, on Unix and
/// on Windows alike, when NAME is not empty, NAME and EXT hold no separator and EXT holds
/// no '.'; a ':' anywhere changes nothing. With no Windows prefix before it, such a path
/// is one whose file name both platforms read as a normal name.
pub proof fn law_file_stem_of_name(dir: Seq<char>, name: Seq<char>, ext: Seq<char>)
    requires
        name.len() > 0,
        !(name == seq!['.'] && ext.len() == 0),
        forall|i: int| 0 <= i < name.len() ==> !is_path_sep(#[trigger] name[i]),
        forall|i: int| 0 <= i < ext.len() ==> !is_path_sep(#[trigger] ext[i]) && ext[i] != '.',
    ensures
        ({
            let p = dir + seq!['/'] + name + seq!['.'] + ext;
            &&& last_segment(p) == name + seq!['.'] + ext
            &&& win_last_segment(p) == name + seq!['.'] + ext
            &&& spec_file_stem(p) == name
            &&& spec_win_file_stem(p) == name
            &&& no_windows_prefix(p) ==> two_platform_path(p)
        }),
{
    let head = dir + seq!['/'];
    let tail = name + seq!['.'] + ext;
    let p = dir + seq!['/'] + name + seq!['.'] + ext;
    assert(p =~= head + tail);
    assert forall|i: int| 0 <= i < tail.len() implies !is_path_sep(tail[i]) by {
        if i < name.len() {
            assert(tail[i] == name[i]);
        } else if i > name.len() {
            assert(tail[i] == ext[i - name.len() - 1]);
        }
    }
    lemma_last_index_of_absent(tail, '/');
    lemma_last_index_of_append(head, tail, '/');
    assert(head.last() == '/');
    assert(head.drop_last() =~= dir);
    assert(last_index_of(head, '/') == dir.len());
    assert(last_segment(p) =~= tail);
    lemma_last_sep_index_absent(tail);
    lemma_last_sep_index_append(head, tail);
    assert(last_sep_index(head) == dir.len());
    assert(win_last_segment(p) =~= tail);
    let nd = name + seq!['.'];
    assert(tail =~= nd + ext);
    assert forall|i: int| 0 <= i < ext.len() implies ext[i] != '.' by {}
    lemma_last_index_of_absent(ext, '.');
    lemma_last_index_of_append(nd, ext, '.');
    assert(nd.last() == '.');
    assert(last_index_of(nd, '.') == name.len());
    assert(tail.subrange(0, name.len() as int) =~= name);
    reveal_strlit(".");
    reveal_strlit("..");
    assert(tail.len() >= 2);
    if tail == ".."@ {
        assert(tail[0] == '.');
        assert(name.len() == 1);
        assert(name =~= seq!['.']);
        assert(ext.len() == 0);
    }
}

/// Law: a stem "ARTIST - TITLE" whose artist part holds no '-' gives the trimmed ARTIST
/// as artist and the trimmed TITLE (which may itself hold " - ") as title.
pub proof fn law_artist_title_split(artist: Seq<char>, title: Seq<char>)
    requires
        forall|i: int| 0 <= i < artist.len() ==> #[trigger] artist[i] != '-',
    ensures
        spec_track_artist(artist + seq![' ', '-', ' '] + title) == spec_trim(artist),
        spec_track_name(artist + seq![' ', '-', ' '] + title) == spec_trim(title),
{
    reveal_strlit(" - ");
    let sep = artist_separator();
    assert(sep =~= seq![' ', '-', ' ']);
    let hay = artist + seq![' ', '-', ' '] + title;
    let n = artist.len() as int;
    assert(hay.subrange(n, n + 3) =~= sep);
    assert(occurs_at(hay, sep, n));
    assert forall|j: int| 0 <= j < n implies !occurs_at(hay, sep, j) by {
        if occurs_at(hay, sep, j) {
            assert(hay.subrange(j, j + 3)[1] == sep[1]);
            assert(hay[j + 1] == '-');
            if j + 1 < n {
                assert(hay[j + 1] == artist[j + 1]);
            } else {
                assert(hay[j + 1] == ' ');
            }
        }
    }
    lemma_find_unique(hay, sep, n);
    assert(hay.subrange(0, n) =~= artist);
    assert(hay.subrange(n + 3, hay.len() as int) =~= title);
}

} // verus!
