//! The player's commands: what each one does to the playlist and the playback state, and
//! what it asks of the audio player.
//!
//! The audio device is driven by the application shell: a command here updates the state
//! and returns a `PlayerAction`, which the shell performs when a player is available.
use vstd::prelude::*;

use crate::speech::{sanitize_voice, spec_sanitize_voice};
use crate::state::{
    default_model, extract_track_info, is_path_sep, law_artist_title_split,
    law_file_stem_of_name, no_windows_prefix, parsed_from, plain_path, spec_file_stem,
    spec_theme_from_name, spec_track_artist, spec_track_name, spec_win_file_stem,
    stem_or_unknown, two_platform_path, AppState, PlaybackState, PlaybackStatus,
    SpeechConfig, Theme, TrackInfo,
};
use crate::text::{spec_trim, to_owned_string};

verus! {

/// What the audio player is asked to do.
pub enum PlayerAction {
    Nothing,
    Pause,
    Resume,
    Stop,
    /// Play the file at `path` from its start (and apply the volume).
    Play { path: String },
}

/// The part of the player's state that the commands change.
pub struct PlayerModel {
    pub playlist: Seq<TrackInfo>,
    pub current_index: Option<usize>,
    pub playback_state: PlaybackState,
}

impl PlayerModel {
    /// The current index, when there is one, points into the playlist.
    pub open spec fn wf(self) -> bool {
        match self.current_index {
            Some(i) => i < self.playlist.len(),
            None => true,
        }
    }

    /// The current track, when the current index points into the playlist.
    pub open spec fn current_track(self) -> Option<TrackInfo> {
        match self.current_index {
            Some(i) => if i < self.playlist.len() {
                Some(self.playlist[i as int])
            } else {
                None
            },
            None => None,
        }
    }
}

impl AppState {
    /// The playlist and playback part of the state.
    pub open spec fn model(&self) -> PlayerModel {
        PlayerModel {
            playlist: self.playlist@,
            current_index: self.current_index,
            playback_state: self.playback_state,
        }
    }

    /// The settings part of the state is as in `other`.
    pub open spec fn same_settings(&self, other: AppState) -> bool {
        self.theme == other.theme && self.ai_config == other.ai_config && self.speech_config
            == other.speech_config
    }
}

/// `t` is the record that `extract_track_info` gives for `path` and `id`.
pub open spec fn is_track_for(t: TrackInfo, path: Seq<char>, id: u32) -> bool {
    &&& t.id == id
    &&& t.path@ == path
    &&& plain_path(path) ==> t.artist@ == spec_track_artist(spec_file_stem(path)) && t.name@
        == spec_track_name(spec_file_stem(path))
    &&& two_platform_path(path) ==> parsed_from(t, spec_file_stem(path)) || parsed_from(
        t,
        spec_win_file_stem(path),
    )
    &&& exists|stem: Option<Seq<char>>|
        t.artist@ == spec_track_artist(stem_or_unknown(stem)) && t.name@ == spec_track_name(
            stem_or_unknown(stem),
        )
}

/// The status that the state reports.
pub fn get_status(state: &AppState) -> (r: PlaybackStatus)
    ensures
        r.state == state.playback_state,
        r.current_track_index == state.current_index,
        r.current_track == state.model().current_track(),
{
    let current_track = match state.current_index {
        Some(i) => if i < state.playlist.len() {
            Some(state.playlist[i].clone())
        } else {
            None
        },
        None => None,
    };
    PlaybackStatus {
        state: state.playback_state,
        current_track_index: state.current_index,
        current_track,
    }
}

/// The track records for `paths`, numbered from 0.
pub fn load_tracks(paths: Vec<String>) -> (r: Result<Vec<TrackInfo>, String>)
    ensures
        r matches Ok(tracks) && tracks@.len() == paths@.len() && forall|i: int|
            0 <= i < paths@.len() ==> is_track_for(#[trigger] tracks@[i], paths@[i]@, i as u32),
{
    let mut tracks: Vec<TrackInfo> = Vec::new();
    let mut i: usize = 0;
    while i < paths.len()
        invariant
            i <= paths.len(),
            tracks@.len() == i,
            forall|j: int| 0 <= j < i ==> is_track_for(#[trigger] tracks@[j], paths@[j]@, j as u32),
        decreases paths.len() - i,
    {
        let t = extract_track_info(paths[i].as_str(), i as u32);
        tracks.push(t);
        i += 1;
    }
    Ok(tracks)
}

/// Appends the tracks for `paths` to the playlist, numbering them on from the playlist's
/// length, and returns them. (The shell then saves the playlist.)
pub fn add_tracks(state: &mut AppState, paths: Vec<String>) -> (r: Vec<TrackInfo>)
    requires
        paths@.len() == 0 || (old(state).playlist@.len() as u32) + paths@.len() <= u32::MAX + 1,
    ensures
        r@.len() == paths@.len(),
        forall|i: int|
            0 <= i < paths@.len() ==> is_track_for(
                #[trigger] r@[i],
                paths@[i]@,
                ((old(state).playlist@.len() as u32) + i) as u32,
            ),
        final(state).playlist@ == old(state).playlist@ + r@,
        final(state).current_index == old(state).current_index,
        final(state).playback_state == old(state).playback_state,
        final(state).same_settings(*old(state)),
{
    let start_id = state.playlist.len() as u32;
    let mut tracks: Vec<TrackInfo> = Vec::new();
    let mut i: usize = 0;
    while i < paths.len()
        invariant
            i <= paths.len(),
            tracks@.len() == i,
            paths@.len() == 0 || start_id + paths@.len() <= u32::MAX + 1,
            forall|j: int|
                0 <= j < i ==> is_track_for(
                    #[trigger] tracks@[j],
                    paths@[j]@,
                    (start_id + j) as u32,
                ),
        decreases paths.len() - i,
    {
        let t = extract_track_info(paths[i].as_str(), start_id + i as u32);
        tracks.push(t);
        i += 1;
    }
    let mut j: usize = 0;
    let ghost before = state.playlist@;
    while j < tracks.len()
        invariant
            j <= tracks.len(),
            state.playlist@ == before + tracks@.take(j as int),
            state.current_index == old(state).current_index,
            state.playback_state == old(state).playback_state,
            state.same_settings(*old(state)),
            before == old(state).playlist@,
        decreases tracks.len() - j,
    {
        state.playlist.push(tracks[j].clone());
        assert(tracks@.take(j + 1) == tracks@.take(j as int).push(tracks@[j as int]));
        j += 1;
    }
    assert(tracks@.take(tracks.len() as int) == tracks@);
    tracks
}

/// The playback state after the start of the track at `index`.
pub open spec fn spec_play(m: PlayerModel, index: usize) -> PlayerModel {
    PlayerModel { current_index: Some(index), playback_state: PlaybackState::Playing, ..m }
}

/// The track to play for `play(index)`, or the error for an index past the playlist.
pub fn play_request(state: &AppState, index: usize) -> (r: Result<TrackInfo, String>)
    ensures
        index < state.playlist@.len() ==> r == Ok::<TrackInfo, String>(state.playlist@[index as int]),
        index >= state.playlist@.len() ==> (r matches Err(e) && e@ == "索引超出播放列表范围"@),
{
    if index >= state.playlist.len() {
        return Err(to_owned_string("索引超出播放列表范围"));
    }
    Ok(state.playlist[index].clone())
}

/// Records that the track at `index` has started: it is current and playing.
pub fn play_started(state: &mut AppState, index: usize)
    requires
        index < old(state).playlist@.len(),
    ensures
        final(state).model() == spec_play(old(state).model(), index),
        final(state).same_settings(*old(state)),
{
    state.current_index = Some(index);
    state.playback_state = PlaybackState::Playing;
}

/// The playback state after play/pause, with the action asked of the player.
pub open spec fn spec_play_pause(m: PlayerModel, has_player: bool) -> (PlayerModel, Option<usize>) {
    if !has_player {
        (m, None)
    } else {
        match m.playback_state {
            PlaybackState::Playing => (
                PlayerModel { playback_state: PlaybackState::Paused, ..m },
                None,
            ),
            PlaybackState::Paused => (
                PlayerModel { playback_state: PlaybackState::Playing, ..m },
                None,
            ),
            PlaybackState::Stopped => match m.current_index {
                Some(i) => if i < m.playlist.len() {
                    (PlayerModel { playback_state: PlaybackState::Playing, ..m }, Some(i))
                } else {
                    (m, None)
                },
                None => (m, None),
            },
        }
    }
}

/// Toggles between playing and paused; a stopped player restarts the current track.
/// Without a player nothing changes.
pub fn play_pause(state: &mut AppState, has_player: bool) -> (r: PlayerAction)
    ensures
        final(state).model() == spec_play_pause(old(state).model(), has_player).0,
        final(state).same_settings(*old(state)),
        match spec_play_pause(old(state).model(), has_player).1 {
            Some(i) => r matches PlayerAction::Play { path } && path@ == old(
                state,
            ).playlist@[i as int].path@,
            None => if has_player && old(state).playback_state == PlaybackState::Playing {
                r is Pause
            } else if has_player && old(state).playback_state == PlaybackState::Paused {
                r is Resume
            } else {
                r is Nothing
            },
        },
{
    if !has_player {
        return PlayerAction::Nothing;
    }
    match state.playback_state {
        PlaybackState::Playing => {
            state.playback_state = PlaybackState::Paused;
            PlayerAction::Pause
        },
        PlaybackState::Paused => {
            state.playback_state = PlaybackState::Playing;
            PlayerAction::Resume
        },
        PlaybackState::Stopped => {
            match state.current_index {
                Some(idx) => {
                    if idx < state.playlist.len() {
                        let path = state.playlist[idx].path.clone();
                        state.playback_state = PlaybackState::Playing;
                        PlayerAction::Play { path }
                    } else {
                        PlayerAction::Nothing
                    }
                },
                None => PlayerAction::Nothing,
            }
        },
    }
}

/// Stops playback: the player is asked to stop and the state becomes stopped.
pub fn stop_audio(state: &mut AppState) -> (r: PlayerAction)
    ensures
        final(state).model() == (PlayerModel {
            playback_state: PlaybackState::Stopped,
            ..old(state).model()
        }),
        final(state).same_settings(*old(state)),
        r is Stop,
{
    state.playback_state = PlaybackState::Stopped;
    PlayerAction::Stop
}

/// The index after "next": the following track, wrapping to the first.
pub open spec fn spec_next_index(cur: Option<usize>, len: nat) -> usize {
    match cur {
        Some(i) => if i + 1 < len {
            (i + 1) as usize
        } else {
            0
        },
        None => 0,
    }
}

/// The index after "previous": the preceding track, wrapping to the last.
pub open spec fn spec_prev_index(cur: Option<usize>, len: nat) -> usize {
    match cur {
        Some(i) => if i > 0 {
            (i - 1) as usize
        } else {
            (len - 1) as usize
        },
        None => 0,
    }
}

/// The state after "next" on a non-empty playlist.
pub open spec fn spec_next(m: PlayerModel) -> PlayerModel {
    spec_play(m, spec_next_index(m.current_index, m.playlist.len()))
}

/// The state after "previous" on a non-empty playlist.
pub open spec fn spec_prev(m: PlayerModel) -> PlayerModel {
    spec_play(m, spec_prev_index(m.current_index, m.playlist.len()))
}

/// Plays the next track, wrapping to the first; `None` on an empty playlist.
pub fn next_track(state: &mut AppState) -> (r: Option<PlayerAction>)
    ensures
        final(state).same_settings(*old(state)),
        old(state).playlist@.len() == 0 ==> r is None && final(state).model() == old(state).model(),
        old(state).playlist@.len() > 0 ==> final(state).model() == spec_next(old(state).model())
            && (r matches Some(PlayerAction::Play { path }) && path@ == old(state).playlist@[spec_next_index(
            old(state).current_index,
            old(state).playlist@.len(),
        ) as int].path@),
{
    if state.playlist.len() == 0 {
        return None;
    }
    let next_idx: usize = match state.current_index {
        Some(i) => if i < state.playlist.len() - 1 {
            i + 1
        } else {
            0
        },
        None => 0,
    };
    let path = state.playlist[next_idx].path.clone();
    state.current_index = Some(next_idx);
    state.playback_state = PlaybackState::Playing;
    Some(PlayerAction::Play { path })
}

/// Plays the previous track, wrapping to the last; `None` on an empty playlist.
/// (The step back indexes the playlist at the current index minus one, so that index must
/// not lie more than one past the playlist's end.)
pub fn prev_track(state: &mut AppState) -> (r: Option<PlayerAction>)
    requires
        match old(state).current_index {
            Some(i) => i <= old(state).playlist@.len(),
            None => true,
        },
    ensures
        final(state).same_settings(*old(state)),
        old(state).playlist@.len() == 0 ==> r is None && final(state).model() == old(state).model(),
        old(state).playlist@.len() > 0 ==> final(state).model() == spec_prev(old(state).model())
            && (r matches Some(PlayerAction::Play { path }) && path@ == old(state).playlist@[spec_prev_index(
            old(state).current_index,
            old(state).playlist@.len(),
        ) as int].path@),
{
    if state.playlist.len() == 0 {
        return None;
    }
    let prev_idx: usize = match state.current_index {
        Some(i) => if i > 0 {
            i - 1
        } else {
            state.playlist.len() - 1
        },
        None => 0,
    };
    let path = state.playlist[prev_idx].path.clone();
    state.current_index = Some(prev_idx);
    state.playback_state = PlaybackState::Playing;
    Some(PlayerAction::Play { path })
}

/// What removing a track means for the current index, decided before the removal.
pub struct RemovalEffect {
    /// The removed track was the current one.
    pub was_current: bool,
    /// The removed track came before the current one.
    pub shifted_before: bool,
}

/// Removes the track at `index` from the playlist and tells what that means for the
/// current index. (The shell saves the playlist, then applies the effect with
/// `finish_remove_track`.)
pub fn remove_track(state: &mut AppState, index: usize) -> (r: RemovalEffect)
    requires
        index < old(state).playlist@.len(),
    ensures
        final(state).playlist@ == old(state).playlist@.remove(index as int),
        final(state).current_index == old(state).current_index,
        final(state).playback_state == old(state).playback_state,
        final(state).same_settings(*old(state)),
        r.was_current == (old(state).current_index == Some(index)),
        r.shifted_before == (old(state).current_index matches Some(c) && index < c),
{
    let was_current = match state.current_index {
        Some(c) => c == index,
        None => false,
    };
    let shifted_before = match state.current_index {
        Some(c) => index < c,
        None => false,
    };
    state.playlist.remove(index);
    RemovalEffect { was_current, shifted_before }
}

/// The state after a removal's effect is applied.
pub open spec fn spec_finish_remove(m: PlayerModel, e: RemovalEffect) -> PlayerModel {
    if e.was_current {
        PlayerModel { playback_state: PlaybackState::Stopped, current_index: None, ..m }
    } else if e.shifted_before {
        PlayerModel {
            current_index: match m.current_index {
                Some(c) => Some((c - 1) as usize),
                None => None,
            },
            ..m
        }
    } else {
        m
    }
}

/// Applies a removal's effect: removing the current track stops playback and clears the
/// current index; removing a track before it moves the index back by one.
pub fn finish_remove_track(state: &mut AppState, effect: RemovalEffect) -> (r: PlayerAction)
    requires
        effect.shifted_before ==> (old(state).current_index matches Some(c) && c > 0),
    ensures
        final(state).model() == spec_finish_remove(old(state).model(), effect),
        final(state).same_settings(*old(state)),
        effect.was_current ==> r is Stop,
        !effect.was_current ==> r is Nothing,
        effect.was_current ==> final(state).playback_state == PlaybackState::Stopped
            && final(state).current_index is None,
        !effect.was_current ==> final(state).playback_state == old(state).playback_state,
        !effect.was_current && !effect.shifted_before ==> final(state).current_index == old(
            state,
        ).current_index,
        !effect.was_current && effect.shifted_before ==> final(state).current_index == Some(
            (old(state).current_index.unwrap() - 1) as usize,
        ),
        final(state).playlist@ == old(state).playlist@,
{
    if effect.was_current {
        state.playback_state = PlaybackState::Stopped;
        state.current_index = None;
        PlayerAction::Stop
    } else if effect.shifted_before {
        state.current_index = match state.current_index {
            Some(c) => Some(c - 1),
            None => None,
        };
        PlayerAction::Nothing
    } else {
        PlayerAction::Nothing
    }
}

/// Sets the theme that `theme_str` names and returns it (the shell saves it).
pub fn set_theme(state: &mut AppState, theme_str: &str) -> (r: Theme)
    ensures
        r == spec_theme_from_name(theme_str@),
        final(state).theme == r,
        final(state).model() == old(state).model(),
        final(state).ai_config == old(state).ai_config,
        final(state).speech_config == old(state).speech_config,
{
    let theme = Theme::from_str(theme_str);
    state.theme = theme;
    theme
}

/// Sets the assistant's API key; the model goes back to "deepseek-chat".
pub fn set_ai_api_key(state: &mut AppState, api_key: String)
    ensures
        final(state).ai_config.api_key@ == api_key@,
        final(state).ai_config.model@ == default_model(),
        final(state).model() == old(state).model(),
        final(state).theme == old(state).theme,
        final(state).speech_config == old(state).speech_config,
{
    state.ai_config.api_key = api_key;
    state.ai_config.model = to_owned_string("deepseek-chat");
}

/// Stores the speech settings with the voice made safe, and returns what was stored (the
/// shell saves it).
pub fn set_speech_config(state: &mut AppState, speech: SpeechConfig) -> (r: SpeechConfig)
    ensures
        r.voice@ == spec_sanitize_voice(speech.voice@),
        r.access_key_id == speech.access_key_id,
        r.access_key_secret == speech.access_key_secret,
        r.app_key == speech.app_key,
        r.enabled == speech.enabled,
        final(state).speech_config == r,
        final(state).model() == old(state).model(),
        final(state).theme == old(state).theme,
        final(state).ai_config == old(state).ai_config,
{
    let mut speech = speech;
    let voice = to_owned_string(sanitize_voice(speech.voice.as_str()));
    speech.voice = voice;
    state.speech_config = speech.clone();
    speech
}

/// Makes the stored voice safe and returns the speech settings.
pub fn get_speech_config(state: &mut AppState) -> (r: SpeechConfig)
    ensures
        final(state).speech_config.voice@ == spec_sanitize_voice(old(state).speech_config.voice@),
        final(state).speech_config.access_key_id == old(state).speech_config.access_key_id,
        final(state).speech_config.access_key_secret == old(state).speech_config.access_key_secret,
        final(state).speech_config.app_key == old(state).speech_config.app_key,
        final(state).speech_config.enabled == old(state).speech_config.enabled,
        r == final(state).speech_config,
        final(state).model() == old(state).model(),
        final(state).theme == old(state).theme,
        final(state).ai_config == old(state).ai_config,
{
    let voice = to_owned_string(sanitize_voice(state.speech_config.voice.as_str()));
    state.speech_config.voice = voice;
    state.speech_config.clone()
}

// ---------------------------------------------------------------------------
// Laws
// ---------------------------------------------------------------------------

/// Law: every command keeps the current index pointing into the playlist.
pub proof fn law_commands_keep_wf(m: PlayerModel, index: usize, has_player: bool, removed: usize)
    requires
        m.wf(),
    ensures
        index < m.playlist.len() ==> spec_play(m, index).wf(),
        spec_play_pause(m, has_player).0.wf(),
        (PlayerModel { playback_state: PlaybackState::Stopped, ..m }).wf(),
        m.playlist.len() > 0 ==> spec_next(m).wf(),
        m.playlist.len() > 0 ==> spec_prev(m).wf(),
        removed < m.playlist.len() ==> spec_finish_remove(
            PlayerModel { playlist: m.playlist.remove(removed as int), ..m },
            RemovalEffect {
                was_current: m.current_index == Some(removed),
                shifted_before: m.current_index matches Some(c) && removed < c,
            },
        ).wf(),
{
}

/// Law: a track loaded from `DIR/ARTIST - TITLE.EXT` has the trimmed ARTIST as artist and
/// the trimmed TITLE as title, whatever DIR holds (a ':' too) and on every platform, when
/// the path has no Windows prefix but a drive followed by a separator, ARTIST holds no
/// '-', ARTIST and TITLE hold no separator and EXT holds no separator or '.'.
pub proof fn law_track_named_by_file(
    t: TrackInfo,
    id: u32,
    dir: Seq<char>,
    artist: Seq<char>,
    title: Seq<char>,
    ext: Seq<char>,
)
    requires
        is_track_for(
            t,
            dir + seq!['/'] + (artist + seq![' ', '-', ' '] + title) + seq!['.'] + ext,
            id,
        ),
        no_windows_prefix(
            dir + seq!['/'] + (artist + seq![' ', '-', ' '] + title) + seq!['.'] + ext,
        ),
        forall|i: int| 0 <= i < artist.len() ==> #[trigger] artist[i] != '-' && !is_path_sep(
            artist[i],
        ),
        forall|i: int| 0 <= i < title.len() ==> !is_path_sep(#[trigger] title[i]),
        forall|i: int| 0 <= i < ext.len() ==> !is_path_sep(#[trigger] ext[i]) && ext[i] != '.',
    ensures
        t.artist@ == spec_trim(artist),
        t.name@ == spec_trim(title),
{
    let name = artist + seq![' ', '-', ' '] + title;
    assert forall|i: int| 0 <= i < name.len() implies !is_path_sep(#[trigger] name[i]) by {
        if i < artist.len() {
            assert(name[i] == artist[i]);
        } else if i >= artist.len() + 3 {
            assert(name[i] == title[i - artist.len() - 3]);
        }
    }
    assert(name[artist.len() as int + 1] == '-');
    law_file_stem_of_name(dir, name, ext);
    law_artist_title_split(artist, title);
}

/// Law: "previous" undoes "next", and "next" undoes "previous", on a track of the
/// playlist.
pub proof fn law_next_prev_inverse(m: PlayerModel)
    requires
        m.wf(),
        m.current_index is Some,
        m.playlist.len() <= usize::MAX,
    ensures
        spec_prev(spec_next(m)).current_index == m.current_index,
        spec_next(spec_prev(m)).current_index == m.current_index,
{
}

/// Law: removing a track other than the current one keeps the same track current;
/// removing the current track stops playback.
pub proof fn law_remove_keeps_current(m: PlayerModel, removed: usize)
    requires
        m.wf(),
        removed < m.playlist.len(),
    ensures
        ({
            let after = spec_finish_remove(
                PlayerModel { playlist: m.playlist.remove(removed as int), ..m },
                RemovalEffect {
                    was_current: m.current_index == Some(removed),
                    shifted_before: m.current_index matches Some(c) && removed < c,
                },
            );
            &&& m.current_index != Some(removed) ==> after.current_track() == m.current_track()
            &&& m.current_index == Some(removed) ==> after.current_index is None
                && after.playback_state == PlaybackState::Stopped
        }),
{
}

/// Law: removing a track other than the current one leaves the playback state as it was
/// (a paused track stays paused, a playing one playing) and keeps the playlist's other
/// tracks in order; removing the current track stops playback, and nothing else does.
pub proof fn law_remove_other_keeps_playback(m: PlayerModel, removed: usize)
    requires
        m.wf(),
        removed < m.playlist.len(),
    ensures
        ({
            let after = spec_finish_remove(
                PlayerModel { playlist: m.playlist.remove(removed as int), ..m },
                RemovalEffect {
                    was_current: m.current_index == Some(removed),
                    shifted_before: m.current_index matches Some(c) && removed < c,
                },
            );
            &&& after.playlist == m.playlist.remove(removed as int)
            &&& m.current_index != Some(removed) ==> after.playback_state == m.playback_state
            &&& (after.playback_state == PlaybackState::Stopped && m.playback_state
                != PlaybackState::Stopped) ==> m.current_index == Some(removed)
            &&& m.current_index == Some(removed) ==> after.playback_state == PlaybackState::Stopped
        }),
{
}

/// Law: with a player, play/pause twice from playing or paused comes back to the same
/// state.
pub proof fn law_play_pause_twice(m: PlayerModel)
    requires
        m.playback_state != PlaybackState::Stopped,
    ensures
        spec_play_pause(spec_play_pause(m, true).0, true).0 == m,
{
}

} // verus!
