//! The chat assistant: the tools it may call on the player, what each tool does and
//! answers, the music card shown with a reply, and the conversation loop with the model.
//!
//! The HTTP exchange with the model and the audio device are the application shell's
//! business; the functions here decide what is sent, what each tool does to the state and
//! what the player is asked to do.
use vstd::prelude::*;

use crate::commands::{spec_next_index, spec_prev_index, PlayerAction, PlayerModel};
use crate::config::strings_view;
use crate::text::pairs_view;
use crate::json::{model_as_str, model_as_u64, JsonModel, JsonValue};
use crate::state::{AiChatRequest, AiChatResponse, AppState, MusicCard, PlaybackState, TrackInfo};
use crate::text::{
    contains, push_decimal, push_str, spec_contains, spec_decimal, spec_to_lowercase, str_eq,
    to_lowercase, to_owned_string,
};

verus! {

// ---------------------------------------------------------------------------
// Text of the replies
// ---------------------------------------------------------------------------

/// Lines joined by newlines.
pub open spec fn join_lines(lines: Seq<Seq<char>>) -> Seq<char>
    decreases lines.len(),
{
    if lines.len() == 0 {
        Seq::empty()
    } else if lines.len() == 1 {
        lines[0]
    } else {
        join_lines(lines.drop_last()) + "\n"@ + lines.last()
    }
}

/// Joins lines with newlines.
pub fn join_lines_exec(lines: &Vec<String>) -> (r: String)
    ensures
        r@ == join_lines(strings_view(lines@)),
{
    let ghost v = strings_view(lines@);
    let mut r = String::new();
    let mut i: usize = 0;
    while i < lines.len()
        invariant
            i <= lines@.len(),
            v == strings_view(lines@),
            r@ == join_lines(v.take(i as int)),
        decreases lines.len() - i,
    {
        assert(v.take(i + 1).drop_last() =~= v.take(i as int));
        assert(v.take(i + 1).last() == lines@[i as int]@);
        if i > 0 {
            push_str(&mut r, "\n");
        }
        push_str(&mut r, lines[i].as_str());
        proof {
            if i == 0 {
                assert(join_lines(v.take(0)) =~= Seq::<char>::empty());
                assert(v.take(1)[0] == lines@[0]@);
                assert(r@ =~= join_lines(v.take(1)));
            }
        }
        i += 1;
    }
    assert(v.take(lines@.len() as int) =~= v);
    r
}

/// "name - artist".
pub open spec fn name_artist(t: TrackInfo) -> Seq<char> {
    t.name@ + " - "@ + t.artist@
}

fn push_name_artist(out: &mut String, t: &TrackInfo)
    ensures
        final(out)@ == old(out)@ + name_artist(*t),
{
    push_str(out, t.name.as_str());
    push_str(out, " - ");
    push_str(out, t.artist.as_str());
    assert(final(out)@ =~= old(out)@ + name_artist(*t));
}

/// A line of the playlist listing: "i. name - artist".
pub open spec fn playlist_line(i: int, t: TrackInfo) -> Seq<char> {
    spec_decimal(i as nat) + ". "@ + name_artist(t)
}

/// The reply to `get_playlist`.
pub open spec fn spec_playlist_reply(pl: Seq<TrackInfo>) -> Seq<char> {
    if pl.len() == 0 {
        "播放列表是空的，还没有添加任何歌曲。"@
    } else {
        "当前播放列表：\n"@ + join_lines(Seq::new(pl.len(), |i: int| playlist_line(i, pl[i])))
    }
}

/// The label of a playback state.
pub open spec fn status_label(s: PlaybackState) -> Seq<char> {
    match s {
        PlaybackState::Playing => "▶ 正在播放"@,
        PlaybackState::Paused => "⏸ 已暂停"@,
        PlaybackState::Stopped => "⏹ 已停止"@,
    }
}

/// The reply to `get_current_track`.
pub open spec fn spec_current_track_reply(m: PlayerModel) -> Seq<char> {
    match m.current_track() {
        Some(t) => status_label(m.playback_state) + ": "@ + name_artist(t),
        None => "当前没有播放任何歌曲。"@,
    }
}

/// The lower-case title and artist of each track.
pub open spec fn lowered_names(pl: Seq<TrackInfo>) -> Seq<(Seq<char>, Seq<char>)> {
    Seq::new(
        pl.len(),
        |i: int| (spec_to_lowercase(pl[i].name@), spec_to_lowercase(pl[i].artist@)),
    )
}

/// Whether a (lower-case) title and artist match a (lower-case) query.
pub open spec fn names_match(names: (Seq<char>, Seq<char>), q: Seq<char>) -> bool {
    spec_contains(names.0, q) || spec_contains(names.1, q)
}

/// The indices, among the first `n` entries, of those that match the query.
pub open spec fn matching_indices(names: Seq<(Seq<char>, Seq<char>)>, q: Seq<char>, n: nat) -> Seq<
    usize,
>
    decreases n,
{
    if n == 0 {
        Seq::empty()
    } else {
        let r = matching_indices(names, q, (n - 1) as nat);
        if names_match(names[n - 1], q) {
            r.push((n - 1) as usize)
        } else {
            r
        }
    }
}

/// A line of the search results: "name - artist（索引 i）".
pub open spec fn search_line(i: usize, t: TrackInfo) -> Seq<char> {
    name_artist(t) + "（索引 "@ + spec_decimal(i as nat) + "）"@
}

/// The (lower-case) query of a `search_local_music` call: its `query` string, or empty.
pub open spec fn search_query(args: JsonModel) -> Seq<char> {
    spec_to_lowercase(
        match model_as_str(args.get("query"@)) {
            Some(q) => q,
            None => Seq::empty(),
        },
    )
}

/// The reply to `search_local_music`, given each track's lower-case title and artist and
/// the lower-case query.
pub open spec fn spec_search_reply(
    pl: Seq<TrackInfo>,
    names: Seq<(Seq<char>, Seq<char>)>,
    q: Seq<char>,
) -> Seq<char> {
    let found = matching_indices(names, q, names.len());
    if found.len() == 0 {
        "没有找到与\""@ + q + "\"匹配的歌曲。"@
    } else {
        "找到 "@ + spec_decimal(found.len()) + " 首匹配歌曲：\n"@ + join_lines(
            Seq::new(found.len(), |k: int| search_line(found[k], pl[found[k] as int])),
        )
    }
}

// ---------------------------------------------------------------------------
// The tools
// ---------------------------------------------------------------------------

/// Whether the audio player can be reached, as the shell finds it.
pub enum PlayerSlot {
    /// The player's lock is poisoned (a task panicked while holding it).
    Poisoned,
    /// No player has been created yet.
    Empty,
    /// A player is there.
    Ready,
}

/// The message of a poisoned lock, as std's `PoisonError` displays it.
pub open spec fn poisoned_message() -> Seq<char> {
    "poisoned lock: another task failed inside"@
}

/// The error a tool answers when the player's lock is poisoned.
fn poisoned_error() -> (r: String)
    ensures
        r@ == poisoned_message(),
{
    to_owned_string("poisoned lock: another task failed inside")
}

/// What a tool call comes to.
pub enum ToolOutcome {
    /// The tool has done its work: the reply (or error) for the model, what the player is
    /// asked to do, and whether the playback state changed (and is announced).
    Done { result: Result<String, String>, action: PlayerAction, notify: bool },
    /// Play the track at `index` (file `path`): the shell creates the player if needed and
    /// starts the file; when that succeeds it calls `finish_play_track`, and a failure's
    /// message is the tool's error.
    StartTrack { index: usize, path: String },
    /// Set the volume: the shell reads the `volume` argument and sets it.
    AdjustVolume,
}

/// The view of a player action.
pub enum ActionModel {
    Nothing,
    Pause,
    Resume,
    Stop,
    Play(Seq<char>),
}

/// The view of a player action.
pub open spec fn action_view(a: PlayerAction) -> ActionModel {
    match a {
        PlayerAction::Nothing => ActionModel::Nothing,
        PlayerAction::Pause => ActionModel::Pause,
        PlayerAction::Resume => ActionModel::Resume,
        PlayerAction::Stop => ActionModel::Stop,
        PlayerAction::Play { path } => ActionModel::Play(path@),
    }
}

/// The view of a tool's outcome.
pub enum OutcomeModel {
    Done { result: Result<Seq<char>, Seq<char>>, action: ActionModel, notify: bool },
    StartTrack { index: usize, path: Seq<char> },
    AdjustVolume,
}

/// The view of a tool's outcome.
pub open spec fn outcome_view(o: ToolOutcome) -> OutcomeModel {
    match o {
        ToolOutcome::Done { result, action, notify } => OutcomeModel::Done {
            result: match result {
                Ok(s) => Ok(s@),
                Err(e) => Err(e@),
            },
            action: action_view(action),
            notify,
        },
        ToolOutcome::StartTrack { index, path } => OutcomeModel::StartTrack { index, path: path@ },
        ToolOutcome::AdjustVolume => OutcomeModel::AdjustVolume,
    }
}

/// A finished tool call that leaves the player alone.
pub open spec fn answer(m: PlayerModel, result: Result<Seq<char>, Seq<char>>) -> (
    OutcomeModel,
    PlayerModel,
) {
    (OutcomeModel::Done { result, action: ActionModel::Nothing, notify: false }, m)
}

/// The outcome of `play_track`.
pub open spec fn spec_play_track(m: PlayerModel, args: JsonModel, slot: PlayerSlot) -> (
    OutcomeModel,
    PlayerModel,
) {
    match model_as_u64(args.get("index"@)) {
        None => answer(m, Err("缺少 index 参数"@)),
        Some(v) => {
            let idx = v as usize;
            if idx >= m.playlist.len() {
                answer(
                    m,
                    Err(
                        "索引 "@ + spec_decimal(idx as nat) + " 超出播放列表范围（共 "@
                            + spec_decimal(m.playlist.len()) + " 首）"@,
                    ),
                )
            } else {
                match slot {
                    PlayerSlot::Poisoned => answer(m, Err(poisoned_message())),
                    _ => (
                        OutcomeModel::StartTrack { index: idx, path: m.playlist[idx as int].path@ },
                        m,
                    ),
                }
            }
        },
    }
}

/// The outcome of `toggle_playback`.
pub open spec fn spec_toggle(m: PlayerModel, slot: PlayerSlot) -> (OutcomeModel, PlayerModel) {
    match slot {
        PlayerSlot::Poisoned => answer(m, Err(poisoned_message())),
        PlayerSlot::Empty => answer(m, Ok("播放器尚未初始化。"@)),
        PlayerSlot::Ready => match m.playback_state {
            PlaybackState::Playing => (
                OutcomeModel::Done {
                    result: Ok("⏸ 已暂停播放"@),
                    action: ActionModel::Pause,
                    notify: true,
                },
                PlayerModel { playback_state: PlaybackState::Paused, ..m },
            ),
            PlaybackState::Paused => (
                OutcomeModel::Done {
                    result: Ok("▶ 已恢复播放"@),
                    action: ActionModel::Resume,
                    notify: true,
                },
                PlayerModel { playback_state: PlaybackState::Playing, ..m },
            ),
            PlaybackState::Stopped => answer(m, Ok("当前没有歌曲在播放，请先选择一首歌。"@)),
        },
    }
}

/// The outcome of `next_track` (`forward`) or `prev_track`.
pub open spec fn spec_skip(m: PlayerModel, slot: PlayerSlot, forward: bool) -> (
    OutcomeModel,
    PlayerModel,
) {
    if m.playlist.len() == 0 {
        answer(m, Ok("播放列表是空的。"@))
    } else {
        let idx = if forward {
            spec_next_index(m.current_index, m.playlist.len())
        } else {
            spec_prev_index(m.current_index, m.playlist.len())
        };
        let t = m.playlist[idx as int];
        (
            OutcomeModel::Done {
                result: Ok(
                    (if forward {
                        "切换到下一首："@
                    } else {
                        "切换到上一首："@
                    }) + name_artist(t),
                ),
                action: if slot is Ready {
                    ActionModel::Play(t.path@)
                } else {
                    ActionModel::Nothing
                },
                notify: true,
            },
            PlayerModel {
                current_index: Some(idx),
                playback_state: PlaybackState::Playing,
                ..m
            },
        )
    }
}

/// The outcome of `stop_playback`.
pub open spec fn spec_stop(m: PlayerModel, slot: PlayerSlot) -> (OutcomeModel, PlayerModel) {
    (
        OutcomeModel::Done {
            result: Ok("⏹ 已停止播放"@),
            action: if slot is Ready {
                ActionModel::Stop
            } else {
                ActionModel::Nothing
            },
            notify: true,
        },
        PlayerModel { playback_state: PlaybackState::Stopped, ..m },
    )
}

/// What a tool call does: its outcome and the playback state after it.
pub open spec fn spec_execute_tool(
    name: Seq<char>,
    args: JsonModel,
    m: PlayerModel,
    slot: PlayerSlot,
) -> (OutcomeModel, PlayerModel) {
    if name == "get_playlist"@ {
        answer(m, Ok(spec_playlist_reply(m.playlist)))
    } else if name == "get_current_track"@ {
        answer(m, Ok(spec_current_track_reply(m)))
    } else if name == "search_local_music"@ {
        answer(m, Ok(spec_search_reply(m.playlist, lowered_names(m.playlist), search_query(args))))
    } else if name == "play_track"@ {
        spec_play_track(m, args, slot)
    } else if name == "toggle_playback"@ {
        spec_toggle(m, slot)
    } else if name == "next_track"@ {
        spec_skip(m, slot, true)
    } else if name == "prev_track"@ {
        spec_skip(m, slot, false)
    } else if name == "set_volume"@ {
        (OutcomeModel::AdjustVolume, m)
    } else if name == "stop_playback"@ {
        spec_stop(m, slot)
    } else {
        answer(m, Err("未知工具: "@ + name))
    }
}

fn done(result: Result<String, String>) -> (r: ToolOutcome)
    ensures
        r == (ToolOutcome::Done { result, action: PlayerAction::Nothing, notify: false }),
{
    ToolOutcome::Done { result, action: PlayerAction::Nothing, notify: false }
}

/// The reply to `get_playlist`: the numbered tracks, or a note that the list is empty.
pub fn playlist_reply(playlist: &Vec<TrackInfo>) -> (r: String)
    ensures
        r@ == spec_playlist_reply(playlist@),
{
    if playlist.len() == 0 {
        return to_owned_string("播放列表是空的，还没有添加任何歌曲。");
    }
    let ghost pl = playlist@;
    let mut lines: Vec<String> = Vec::new();
    let mut i: usize = 0;
    while i < playlist.len()
        invariant
            i <= playlist@.len(),
            pl == playlist@,
            lines@.len() == i,
            forall|j: int| 0 <= j < i ==> (#[trigger] lines@[j])@ == playlist_line(j, pl[j]),
        decreases playlist.len() - i,
    {
        let mut line = String::new();
        push_decimal(&mut line, i as u128);
        push_str(&mut line, ". ");
        push_name_artist(&mut line, &playlist[i]);
        assert(line@ =~= playlist_line(i as int, pl[i as int]));
        lines.push(line);
        i += 1;
    }
    assert(strings_view(lines@) =~= Seq::new(pl.len(), |i: int| playlist_line(i, pl[i])));
    let mut r = to_owned_string("当前播放列表：\n");
    let body = join_lines_exec(&lines);
    push_str(&mut r, body.as_str());
    r
}

/// The reply to `get_current_track`: the state and the current track, or a note that
/// nothing plays.
pub fn current_track_reply(state: &AppState) -> (r: String)
    ensures
        r@ == spec_current_track_reply(state.model()),
{
    match state.current_index {
        Some(idx) => {
            if idx < state.playlist.len() {
                let mut r = match state.playback_state {
                    PlaybackState::Playing => to_owned_string("▶ 正在播放"),
                    PlaybackState::Paused => to_owned_string("⏸ 已暂停"),
                    PlaybackState::Stopped => to_owned_string("⏹ 已停止"),
                };
                push_str(&mut r, ": ");
                push_name_artist(&mut r, &state.playlist[idx]);
                r
            } else {
                to_owned_string("当前没有播放任何歌曲。")
            }
        },
        None => to_owned_string("当前没有播放任何歌曲。"),
    }
}

/// The lower-case title and artist of each track.
fn lowercase_names(playlist: &Vec<TrackInfo>) -> (r: Vec<(String, String)>)
    ensures
        pairs_view(r@) == lowered_names(playlist@),
        r@.len() == playlist@.len(),
{
    let mut r: Vec<(String, String)> = Vec::new();
    let mut i: usize = 0;
    while i < playlist.len()
        invariant
            i <= playlist@.len(),
            r@.len() == i,
            forall|j: int|
                0 <= j < i ==> (#[trigger] r@[j]).0@ == spec_to_lowercase(playlist@[j].name@)
                    && r@[j].1@ == spec_to_lowercase(playlist@[j].artist@),
        decreases playlist.len() - i,
    {
        let name = to_lowercase(playlist[i].name.as_str());
        let artist = to_lowercase(playlist[i].artist.as_str());
        r.push((name, artist));
        i += 1;
    }
    assert(pairs_view(r@) =~= lowered_names(playlist@));
    r
}

/// The reply to `search_local_music`: the tracks whose lower-case title or artist
/// (`names`, one pair per track) contains the lower-case query, with their indices, or a
/// note that none matches.
pub fn search_reply(playlist: &Vec<TrackInfo>, names: &Vec<(String, String)>, query: &str) -> (r:
    String)
    requires
        names@.len() == playlist@.len(),
    ensures
        r@ == spec_search_reply(playlist@, pairs_view(names@), query@),
{
    let ghost pl = playlist@;
    let ghost nm = pairs_view(names@);
    let ghost q = query@;
    let mut found: Vec<usize> = Vec::new();
    let mut i: usize = 0;
    while i < names.len()
        invariant
            i <= names@.len(),
            names@.len() == pl.len(),
            nm == pairs_view(names@),
            q == query@,
            found@ == matching_indices(nm, q, i as nat),
            forall|k: int| 0 <= k < found@.len() ==> (#[trigger] found@[k]) < i,
        decreases names.len() - i,
    {
        assert(nm[i as int] == (names@[i as int].0@, names@[i as int].1@));
        if contains(names[i].0.as_str(), query) || contains(names[i].1.as_str(), query) {
            found.push(i);
        }
        i += 1;
    }
    if found.len() == 0 {
        let mut r = to_owned_string("没有找到与\"");
        push_str(&mut r, query);
        push_str(&mut r, "\"匹配的歌曲。");
        return r;
    }
    let mut lines: Vec<String> = Vec::new();
    let mut k: usize = 0;
    while k < found.len()
        invariant
            k <= found@.len(),
            pl == playlist@,
            nm.len() == pl.len(),
            found@ == matching_indices(nm, q, nm.len()),
            forall|j: int| 0 <= j < found@.len() ==> (#[trigger] found@[j]) < pl.len(),
            lines@.len() == k,
            forall|j: int|
                0 <= j < k ==> (#[trigger] lines@[j])@ == search_line(found@[j], pl[found@[j] as int]),
        decreases found.len() - k,
    {
        let idx = found[k];
        let mut line = String::new();
        push_name_artist(&mut line, &playlist[idx]);
        push_str(&mut line, "（索引 ");
        push_decimal(&mut line, idx as u128);
        push_str(&mut line, "）");
        assert(line@ =~= search_line(idx, pl[idx as int]));
        lines.push(line);
        k += 1;
    }
    assert(strings_view(lines@) =~= Seq::new(
        found@.len(),
        |j: int| search_line(found@[j], pl[found@[j] as int]),
    ));
    let mut r = to_owned_string("找到 ");
    push_decimal(&mut r, found.len() as u128);
    push_str(&mut r, " 首匹配歌曲：\n");
    let body = join_lines_exec(&lines);
    push_str(&mut r, body.as_str());
    r
}

/// The outcome of `play_track`: the `index` argument must be a track of the playlist and
/// the player's lock must be usable.
fn play_track_tool(args: &JsonValue, state: &AppState, slot: PlayerSlot) -> (r: ToolOutcome)
    ensures
        (outcome_view(r), state.model()) == spec_play_track(state.model(), args@, slot),
{
    let v = match args.get("index") {
        Some(x) => x.as_u64(),
        None => None,
    };
    match v {
        None => done(Err(to_owned_string("缺少 index 参数"))),
        Some(v) => {
            let idx = v as usize;
            if idx >= state.playlist.len() {
                let mut e = to_owned_string("索引 ");
                push_decimal(&mut e, idx as u128);
                push_str(&mut e, " 超出播放列表范围（共 ");
                push_decimal(&mut e, state.playlist.len() as u128);
                push_str(&mut e, " 首）");
                assert(e@ =~= "索引 "@ + spec_decimal(idx as nat) + " 超出播放列表范围（共 "@
                    + spec_decimal(state.playlist@.len()) + " 首）"@);
                done(Err(e))
            } else {
                match slot {
                    PlayerSlot::Poisoned => done(Err(poisoned_error())),
                    _ => ToolOutcome::StartTrack { index: idx, path: state.playlist[idx].path.clone() },
                }
            }
        },
    }
}

/// Records that the track chosen by `play_track` has started: it is current and playing.
/// Returns the tool's reply.
pub fn finish_play_track(state: &mut AppState, index: usize) -> (r: String)
    requires
        index < old(state).playlist@.len(),
    ensures
        final(state).model() == crate::commands::spec_play(old(state).model(), index),
        final(state).same_settings(*old(state)),
        r@ == "正在播放："@ + name_artist(old(state).playlist@[index as int]),
{
    state.current_index = Some(index);
    state.playback_state = PlaybackState::Playing;
    let mut r = to_owned_string("正在播放：");
    push_name_artist(&mut r, &state.playlist[index]);
    r
}

fn toggle_tool(state: &mut AppState, slot: PlayerSlot) -> (r: ToolOutcome)
    ensures
        (outcome_view(r), final(state).model()) == spec_toggle(old(state).model(), slot),
        final(state).same_settings(*old(state)),
{
    match slot {
        PlayerSlot::Poisoned => done(Err(poisoned_error())),
        PlayerSlot::Empty => done(Ok(to_owned_string("播放器尚未初始化。"))),
        PlayerSlot::Ready => match state.playback_state {
            PlaybackState::Playing => {
                state.playback_state = PlaybackState::Paused;
                ToolOutcome::Done {
                    result: Ok(to_owned_string("⏸ 已暂停播放")),
                    action: PlayerAction::Pause,
                    notify: true,
                }
            },
            PlaybackState::Paused => {
                state.playback_state = PlaybackState::Playing;
                ToolOutcome::Done {
                    result: Ok(to_owned_string("▶ 已恢复播放")),
                    action: PlayerAction::Resume,
                    notify: true,
                }
            },
            PlaybackState::Stopped => done(Ok(to_owned_string("当前没有歌曲在播放，请先选择一首歌。"))),
        },
    }
}

fn skip_tool(state: &mut AppState, slot: PlayerSlot, forward: bool) -> (r: ToolOutcome)
    requires
        !forward ==> match old(state).current_index {
            Some(i) => i <= old(state).playlist@.len(),
            None => true,
        },
    ensures
        (outcome_view(r), final(state).model()) == spec_skip(old(state).model(), slot, forward),
        final(state).same_settings(*old(state)),
{
    if state.playlist.len() == 0 {
        return done(Ok(to_owned_string("播放列表是空的。")));
    }
    let len = state.playlist.len();
    let idx: usize = if forward {
        match state.current_index {
            Some(i) => if i < len - 1 {
                i + 1
            } else {
                0
            },
            None => 0,
        }
    } else {
        match state.current_index {
            Some(i) => if i > 0 {
                i - 1
            } else {
                len - 1
            },
            None => 0,
        }
    };
    let mut reply = if forward {
        to_owned_string("切换到下一首：")
    } else {
        to_owned_string("切换到上一首：")
    };
    push_name_artist(&mut reply, &state.playlist[idx]);
    let action = match slot {
        PlayerSlot::Ready => PlayerAction::Play { path: state.playlist[idx].path.clone() },
        _ => PlayerAction::Nothing,
    };
    state.current_index = Some(idx);
    state.playback_state = PlaybackState::Playing;
    ToolOutcome::Done { result: Ok(reply), action, notify: true }
}

fn stop_tool(state: &mut AppState, slot: PlayerSlot) -> (r: ToolOutcome)
    ensures
        (outcome_view(r), final(state).model()) == spec_stop(old(state).model(), slot),
        final(state).same_settings(*old(state)),
{
    let action = match slot {
        PlayerSlot::Ready => PlayerAction::Stop,
        _ => PlayerAction::Nothing,
    };
    state.playback_state = PlaybackState::Stopped;
    ToolOutcome::Done { result: Ok(to_owned_string("⏹ 已停止播放")), action, notify: true }
}

/// Executes the tool `name` that the model called with `args`, on the player's state.
/// The tools: `get_playlist`, `get_current_track`, `search_local_music` (by `query`),
/// `play_track` (by `index`), `toggle_playback`, `next_track`, `prev_track`, `set_volume`
/// (left to the shell) and `stop_playback`; any other name is an error.
pub fn execute_tool(name: &str, args: &JsonValue, state: &mut AppState, slot: PlayerSlot) -> (r:
    ToolOutcome)
    requires
        name@ == "prev_track"@ ==> match old(state).current_index {
            Some(i) => i <= old(state).playlist@.len(),
            None => true,
        },
    ensures
        (outcome_view(r), final(state).model()) == spec_execute_tool(
            name@,
            args@,
            old(state).model(),
            slot,
        ),
        final(state).same_settings(*old(state)),
{
    if str_eq(name, "get_playlist") {
        return done(Ok(playlist_reply(&state.playlist)));
    }
    if str_eq(name, "get_current_track") {
        return done(Ok(current_track_reply(state)));
    }
    if str_eq(name, "search_local_music") {
        let q = match args.get("query") {
            Some(v) => match v.as_str() {
                Some(s) => s.clone(),
                None => String::new(),
            },
            None => String::new(),
        };
        let lowered = to_lowercase(q.as_str());
        let names = lowercase_names(&state.playlist);
        return done(Ok(search_reply(&state.playlist, &names, lowered.as_str())));
    }
    if str_eq(name, "play_track") {
        return play_track_tool(args, state, slot);
    }
    if str_eq(name, "toggle_playback") {
        return toggle_tool(state, slot);
    }
    if str_eq(name, "next_track") {
        return skip_tool(state, slot, true);
    }
    if str_eq(name, "prev_track") {
        return skip_tool(state, slot, false);
    }
    if str_eq(name, "set_volume") {
        return ToolOutcome::AdjustVolume;
    }
    if str_eq(name, "stop_playback") {
        return stop_tool(state, slot);
    }
    let mut e = to_owned_string("未知工具: ");
    push_str(&mut e, name);
    done(Err(e))
}

// ---------------------------------------------------------------------------
// Music cards
// ---------------------------------------------------------------------------

/// The card for the current track: its title and artist, action "play", its index.
pub open spec fn card_for(m: PlayerModel, c: MusicCard) -> bool {
    match m.current_track() {
        Some(t) => c.track_name@ == t.name@ && c.artist@ == t.artist@ && c.action@ == "play"@
            && c.track_index == m.current_index,
        None => false,
    }
}

/// The card for the current track, when there is one.
pub fn build_current_track_card(state: &AppState) -> (r: Option<MusicCard>)
    ensures
        r is Some <==> state.model().current_track() is Some,
        r matches Some(c) ==> card_for(state.model(), c),
{
    match state.current_index {
        Some(idx) => {
            if idx < state.playlist.len() {
                let track = &state.playlist[idx];
                Some(
                    MusicCard {
                        track_name: track.name.clone(),
                        artist: track.artist.clone(),
                        action: to_owned_string("play"),
                        track_index: Some(idx),
                    },
                )
            } else {
                None
            }
        },
        None => None,
    }
}

/// The card for the current track when the reply speaks of playing ("正在播放" or
/// "播放").
pub fn try_build_music_card(reply: &str, state: &AppState) -> (r: Option<MusicCard>)
    ensures
        r is Some <==> (spec_contains(reply@, "正在播放"@) || spec_contains(reply@, "播放"@))
            && state.model().current_track() is Some,
        r matches Some(c) ==> card_for(state.model(), c),
{
    if !contains(reply, "正在播放") && !contains(reply, "播放") {
        return None;
    }
    build_current_track_card(state)
}

// ---------------------------------------------------------------------------
// Tool definitions
// ---------------------------------------------------------------------------

/// A function that the model may call.
pub struct ToolFunction {
    pub name: String,
    pub description: String,
    pub parameters: JsonValue,
}

/// A tool offered to the model.
pub struct ToolDef {
    pub tool_type: String,
    pub function: ToolFunction,
}

/// The schema of a tool without parameters.
pub open spec fn no_params() -> JsonModel {
    JsonModel::Object(
        seq![("type"@, JsonModel::Str("object"@)), ("properties"@, JsonModel::Object(seq![]))],
    )
}

/// The schema of a tool with one required parameter.
pub open spec fn one_param(p: Seq<char>, ty: Seq<char>, desc: Seq<char>) -> JsonModel {
    JsonModel::Object(
        seq![
            ("type"@, JsonModel::Str("object"@)),
            (
                "properties"@,
                JsonModel::Object(
                    seq![
                        (
                            p,
                            JsonModel::Object(
                                seq![
                                    ("type"@, JsonModel::Str(ty)),
                                    ("description"@, JsonModel::Str(desc)),
                                ],
                            ),
                        ),
                    ],
                ),
            ),
            ("required"@, JsonModel::Array(seq![JsonModel::Str(p)])),
        ],
    )
}

/// The tools offered to the model: name, description and parameter schema.
pub open spec fn spec_tools() -> Seq<(Seq<char>, Seq<char>, JsonModel)> {
    seq![
        ("get_playlist"@, "获取当前播放列表的所有歌曲"@, no_params()),
        ("get_current_track"@, "获取当前正在播放的歌曲信息"@, no_params()),
        (
            "search_local_music"@,
            "在本地播放列表中搜索匹配的歌曲，按歌名或歌手搜索"@,
            one_param("query"@, "string"@, "搜索关键词，可以是歌名或歌手名"@),
        ),
        (
            "play_track"@,
            "播放指定索引的歌曲"@,
            one_param("index"@, "integer"@, "歌曲在播放列表中的索引（从0开始）"@),
        ),
        ("toggle_playback"@, "切换播放/暂停状态"@, no_params()),
        ("next_track"@, "播放下一首歌"@, no_params()),
        ("prev_track"@, "播放上一首歌"@, no_params()),
        (
            "set_volume"@,
            "调节音量大小，范围 0.0（静音）到 1.0（最大）"@,
            one_param("volume"@, "number"@, "音量值，0.0 到 1.0 之间"@),
        ),
        ("stop_playback"@, "停止播放"@, no_params()),
    ]
}

/// A tool definition is the `function` tool with this name, description and schema.
pub open spec fn tool_is(t: ToolDef, d: (Seq<char>, Seq<char>, JsonModel)) -> bool {
    t.tool_type@ == "function"@ && t.function.name@ == d.0 && t.function.description@ == d.1
        && t.function.parameters@ == d.2
}

fn no_params_value() -> (r: JsonValue)
    ensures
        r@ == no_params(),
{
    let mut m: Vec<(String, JsonValue)> = Vec::new();
    m.push((to_owned_string("type"), JsonValue::string("object")));
    let empty: Vec<(String, JsonValue)> = Vec::new();
    let props = JsonValue::Object(empty);
    assert(props@ == JsonModel::Object(seq![])) by {
        assert(crate::json::members_view(empty@) =~= seq![]);
    }
    m.push((to_owned_string("properties"), props));
    assert(crate::json::members_view(m@) =~= seq![
        ("type"@, JsonModel::Str("object"@)),
        ("properties"@, JsonModel::Object(seq![])),
    ]);
    JsonValue::Object(m)
}

fn one_param_value(p: &str, ty: &str, desc: &str) -> (r: JsonValue)
    ensures
        r@ == one_param(p@, ty@, desc@),
{
    let mut inner: Vec<(String, JsonValue)> = Vec::new();
    inner.push((to_owned_string("type"), JsonValue::string(ty)));
    inner.push((to_owned_string("description"), JsonValue::string(desc)));
    let inner_v = JsonValue::Object(inner);
    assert(crate::json::members_view(inner@) =~= seq![
        ("type"@, JsonModel::Str(ty@)),
        ("description"@, JsonModel::Str(desc@)),
    ]);
    let mut props: Vec<(String, JsonValue)> = Vec::new();
    props.push((to_owned_string(p), inner_v));
    let props_v = JsonValue::Object(props);
    assert(crate::json::members_view(props@) =~= seq![
        (p@, JsonModel::Object(seq![("type"@, JsonModel::Str(ty@)), ("description"@, JsonModel::Str(desc@))])),
    ]);
    let mut req: Vec<JsonValue> = Vec::new();
    req.push(JsonValue::string(p));
    let req_v = JsonValue::Array(req);
    assert(crate::json::elems_view(req@) =~= seq![JsonModel::Str(p@)]);
    let mut m: Vec<(String, JsonValue)> = Vec::new();
    m.push((to_owned_string("type"), JsonValue::string("object")));
    m.push((to_owned_string("properties"), props_v));
    m.push((to_owned_string("required"), req_v));
    let r = JsonValue::Object(m);
    assert(crate::json::members_view(m@) =~= seq![
        ("type"@, JsonModel::Str("object"@)),
        ("properties"@, props_v@),
        ("required"@, req_v@),
    ]);
    r
}

fn tool(name: &str, description: &str, parameters: JsonValue) -> (r: ToolDef)
    ensures
        tool_is(r, (name@, description@, parameters@)),
{
    ToolDef {
        tool_type: to_owned_string("function"),
        function: ToolFunction {
            name: to_owned_string(name),
            description: to_owned_string(description),
            parameters,
        },
    }
}

/// The tools offered to the model, in order.
pub fn build_tools() -> (r: Vec<ToolDef>)
    ensures
        r@.len() == spec_tools().len(),
        forall|i: int| 0 <= i < r@.len() ==> tool_is(#[trigger] r@[i], spec_tools()[i]),
{
    let mut v: Vec<ToolDef> = Vec::new();
    v.push(tool("get_playlist", "获取当前播放列表的所有歌曲", no_params_value()));
    v.push(tool("get_current_track", "获取当前正在播放的歌曲信息", no_params_value()));
    v.push(
        tool(
            "search_local_music",
            "在本地播放列表中搜索匹配的歌曲，按歌名或歌手搜索",
            one_param_value("query", "string", "搜索关键词，可以是歌名或歌手名"),
        ),
    );
    v.push(
        tool(
            "play_track",
            "播放指定索引的歌曲",
            one_param_value("index", "integer", "歌曲在播放列表中的索引（从0开始）"),
        ),
    );
    v.push(tool("toggle_playback", "切换播放/暂停状态", no_params_value()));
    v.push(tool("next_track", "播放下一首歌", no_params_value()));
    v.push(tool("prev_track", "播放上一首歌", no_params_value()));
    v.push(
        tool(
            "set_volume",
            "调节音量大小，范围 0.0（静音）到 1.0（最大）",
            one_param_value("volume", "number", "音量值，0.0 到 1.0 之间"),
        ),
    );
    v.push(tool("stop_playback", "停止播放", no_params_value()));
    v
}

// ---------------------------------------------------------------------------
// The conversation
// ---------------------------------------------------------------------------

/// The function named in a tool call, with its JSON arguments.
pub struct ToolCallFunction {
    pub name: String,
    pub arguments: String,
}

impl Clone for ToolCallFunction {
    fn clone(&self) -> (r: Self)
        ensures
            r == *self,
    {
        ToolCallFunction { name: self.name.clone(), arguments: self.arguments.clone() }
    }
}

/// A tool call requested by the model.
pub struct ToolCall {
    pub id: String,
    pub call_type: String,
    pub function: ToolCallFunction,
}

impl Clone for ToolCall {
    fn clone(&self) -> (r: Self)
        ensures
            r == *self,
    {
        ToolCall {
            id: self.id.clone(),
            call_type: self.call_type.clone(),
            function: self.function.clone(),
        }
    }
}

/// A message of the conversation sent to the model.
pub struct ChatMessage {
    pub role: String,
    pub content: String,
    pub tool_calls: Option<Vec<ToolCall>>,
    pub tool_call_id: Option<String>,
}

/// The view of a message: role, content, tool calls and the id it answers.
pub open spec fn msg_view(m: ChatMessage) -> (Seq<char>, Seq<char>, Option<Seq<ToolCall>>, Option<Seq<char>>) {
    (
        m.role@,
        m.content@,
        match m.tool_calls {
            Some(v) => Some(v@),
            None => None,
        },
        match m.tool_call_id {
            Some(s) => Some(s@),
            None => None,
        },
    )
}

/// The views of a list of messages.
pub open spec fn msgs_view(v: Seq<ChatMessage>) -> Seq<(Seq<char>, Seq<char>, Option<Seq<ToolCall>>, Option<Seq<char>>)> {
    Seq::new(v.len(), |i: int| msg_view(v[i]))
}

/// A copy of a list of tool calls.
fn clone_calls(v: &Vec<ToolCall>) -> (r: Vec<ToolCall>)
    ensures
        r@ == v@,
{
    let mut r: Vec<ToolCall> = Vec::new();
    let mut i: usize = 0;
    while i < v.len()
        invariant
            i <= v@.len(),
            r@ == v@.take(i as int),
        decreases v.len() - i,
    {
        r.push(v[i].clone());
        assert(v@.take(i + 1) =~= v@.take(i as int).push(v@[i as int]));
        i += 1;
    }
    assert(v@.take(v@.len() as int) =~= v@);
    r
}

/// A copy of a message.
fn clone_message(m: &ChatMessage) -> (r: ChatMessage)
    ensures
        msg_view(r) == msg_view(*m),
{
    ChatMessage {
        role: m.role.clone(),
        content: m.content.clone(),
        tool_calls: match &m.tool_calls {
            Some(v) => Some(clone_calls(v)),
            None => None,
        },
        tool_call_id: match &m.tool_call_id {
            Some(s) => Some(s.clone()),
            None => None,
        },
    }
}

/// A copy of a list of messages.
fn clone_messages(v: &Vec<ChatMessage>) -> (r: Vec<ChatMessage>)
    ensures
        msgs_view(r@) == msgs_view(v@),
{
    let mut r: Vec<ChatMessage> = Vec::new();
    let mut i: usize = 0;
    while i < v.len()
        invariant
            i <= v@.len(),
            r@.len() == i,
            forall|j: int| 0 <= j < i ==> msg_view(#[trigger] r@[j]) == msg_view(v@[j]),
        decreases v.len() - i,
    {
        r.push(clone_message(&v[i]));
        i += 1;
    }
    assert(msgs_view(r@) =~= msgs_view(v@));
    r
}

/// A message of the model's reply.
pub struct ResponseMessage {
    pub role: String,
    pub content: Option<String>,
    pub tool_calls: Option<Vec<ToolCall>>,
}

/// A request to the chat model.
pub struct ChatRequest {
    pub model: String,
    pub messages: Vec<ChatMessage>,
    pub tools: Vec<ToolDef>,
    pub tool_choice: String,
}

/// The most requests one chat sends to the model.
pub const MAX_ROUNDS: usize = 5;

/// The instructions that open every conversation.
pub const SYSTEM_PROMPT: &'static str = "你是一个超有活力的音乐搭子，叫 Claudio，运行在 Claudio Desktop 音乐播放器里。\
                      你的任务就是像朋友一样跟用户聊天，帮ta推荐好听的歌、控制播放、扯扯日常。\
                      你可以用工具来看播放列表、搜歌、切歌、调音量什么的。\
                      注意几点：\
                      1. 说话要像真人一样，用口语，别整那些文绉绉的书面语。短句、自然，偶尔加个语气词。\
                      2. 根据用户的说话风格来调整，ta随意你也随意，ta正经你也正经点。\
                      3. 推荐音乐前先看看播放列表里有啥，别瞎推不存在的歌。\
                      4. 用户说要听什么歌，先搜一下再播放，别直接放。\
                      5. 每次操作后简单说一句你做了什么就行，别啰嗦。\
                      6. 适当用点音乐相关的emoji，但别刷屏。";

/// The reply when no API key is set.
pub const NO_KEY_REPLY: &'static str = "请先设置你的 DeepSeek API Key，这样我才能和你聊天！在输入框中输入你的 API Key 即可。🔑";

/// The reply when the model still calls tools after the last round.
pub const GIVE_UP_REPLY: &'static str = "我已经处理了你的请求，但可能需要更具体的指令。请告诉我你还想做什么？🎵";

/// A message with this role and content and no tool fields.
pub open spec fn plain_message(m: ChatMessage, role: Seq<char>, content: Seq<char>) -> bool {
    m.role@ == role && m.content@ == content && m.tool_calls is None && m.tool_call_id is None
}

/// A conversation in progress with the model.
pub struct ChatSession {
    pub model: String,
    pub messages: Vec<ChatMessage>,
    /// A `play_track` call has been made.
    pub did_play: bool,
    /// Requests sent so far.
    pub rounds: usize,
}

/// How a chat begins: at once with a reply (no API key), or with a conversation.
pub enum ChatStart {
    Reply(AiChatResponse),
    Session(ChatSession),
}

/// What the model's reply asks for next.
pub enum ChatStep {
    /// Run these tool calls, record each result, and ask again.
    RunTools(Vec<ToolCall>),
    /// The final text reply.
    Finish(String),
}

impl ChatSession {
    /// The session never sends more than `MAX_ROUNDS` requests.
    pub open spec fn wf(&self) -> bool {
        self.rounds <= MAX_ROUNDS
    }
}

/// Starts a chat: without an API key the reply asks for one; otherwise the conversation
/// opens with the system instructions followed by the user's messages.
pub fn start_chat(request: &AiChatRequest, api_key: &str, model: &str) -> (r: ChatStart)
    ensures
        api_key@.len() == 0 <==> r is Reply,
        r matches ChatStart::Reply(resp) ==> resp.reply@ == NO_KEY_REPLY@ && resp.music_card is None,
        r matches ChatStart::Session(s) ==> {
            &&& s.wf()
            &&& s.rounds == 0
            &&& !s.did_play
            &&& s.model@ == model@
            &&& s.messages@.len() == request.messages@.len() + 1
            &&& plain_message(s.messages@[0], "system"@, SYSTEM_PROMPT@)
            &&& forall|i: int|
                0 <= i < request.messages@.len() ==> plain_message(
                    #[trigger] s.messages@[i + 1],
                    request.messages@[i].role@,
                    request.messages@[i].content@,
                )
        },
{
    if api_key.is_empty() {
        return ChatStart::Reply(
            AiChatResponse { reply: to_owned_string(NO_KEY_REPLY), music_card: None },
        );
    }
    let mut messages: Vec<ChatMessage> = Vec::new();
    messages.push(
        ChatMessage {
            role: to_owned_string("system"),
            content: to_owned_string(SYSTEM_PROMPT),
            tool_calls: None,
            tool_call_id: None,
        },
    );
    let mut i: usize = 0;
    while i < request.messages.len()
        invariant
            i <= request.messages@.len(),
            messages@.len() == i + 1,
            plain_message(messages@[0], "system"@, SYSTEM_PROMPT@),
            forall|j: int|
                0 <= j < i ==> plain_message(
                    #[trigger] messages@[j + 1],
                    request.messages@[j].role@,
                    request.messages@[j].content@,
                ),
        decreases request.messages.len() - i,
    {
        let msg = &request.messages[i];
        messages.push(
            ChatMessage {
                role: msg.role.clone(),
                content: msg.content.clone(),
                tool_calls: None,
                tool_call_id: None,
            },
        );
        i += 1;
    }
    ChatStart::Session(
        ChatSession { model: to_owned_string(model), messages, did_play: false, rounds: 0 },
    )
}

impl ChatSession {
    /// The next request to the model: the conversation so far with the tools, the model
    /// choosing whether to call them; `None` once `MAX_ROUNDS` requests have been sent.
    pub fn next_request(&mut self) -> (r: Option<ChatRequest>)
        requires
            old(self).wf(),
        ensures
            final(self).wf(),
            final(self).messages == old(self).messages,
            final(self).model == old(self).model,
            final(self).did_play == old(self).did_play,
            old(self).rounds < MAX_ROUNDS ==> final(self).rounds == old(self).rounds + 1,
            old(self).rounds >= MAX_ROUNDS ==> final(self).rounds == old(self).rounds && r is None,
            r matches Some(req) ==> {
                &&& req.model@ == old(self).model@
                &&& msgs_view(req.messages@) == msgs_view(old(self).messages@)
                &&& req.tool_choice@ == "auto"@
                &&& req.tools@.len() == spec_tools().len()
                &&& forall|i: int| 0 <= i < req.tools@.len() ==> tool_is(#[trigger] req.tools@[i], spec_tools()[i])
            },
            old(self).rounds < MAX_ROUNDS ==> r is Some,
    {
        if self.rounds >= MAX_ROUNDS {
            return None;
        }
        self.rounds = self.rounds + 1;
        let messages = clone_messages(&self.messages);
        Some(
            ChatRequest {
                model: self.model.clone(),
                messages,
                tools: build_tools(),
                tool_choice: to_owned_string("auto"),
            },
        )
    }

    /// Takes the model's reply (its first choice). Tool calls are added to the
    /// conversation as an assistant message and returned to be run; otherwise the
    /// message's text is the final reply. No choice at all is an error.
    pub fn on_reply(&mut self, choices: Vec<ResponseMessage>) -> (r: Result<ChatStep, String>)
        requires
            old(self).wf(),
        ensures
            final(self).wf(),
            final(self).rounds == old(self).rounds,
            final(self).did_play == old(self).did_play,
            final(self).model == old(self).model,
            choices@.len() == 0 ==> (r matches Err(e) && e@ == "AI 返回了空响应"@) && final(self).messages == old(self).messages,
            choices@.len() > 0 ==> match choices@[0].tool_calls {
                Some(calls) => (r matches Ok(ChatStep::RunTools(c)) && c@ == calls@) && final(self).messages@.len() == old(self).messages@.len() + 1 && final(self).messages@.drop_last() == old(self).messages@ && ({
                    let m = final(self).messages@.last();
                    &&& m.role@ == "assistant"@
                    &&& m.content@ == match choices@[0].content {
                        Some(c) => c@,
                        None => Seq::<char>::empty(),
                    }
                    &&& m.tool_calls matches Some(tc) && tc@ == calls@
                    &&& m.tool_call_id is None
                }),
                None => (r matches Ok(ChatStep::Finish(reply)) && reply@ == match choices@[0].content {
                    Some(c) => c@,
                    None => Seq::<char>::empty(),
                }) && final(self).messages == old(self).messages,
            },
    {
        let mut choices = choices;
        if choices.len() == 0 {
            return Err(to_owned_string("AI 返回了空响应"));
        }
        let choice = choices.remove(0);
        let content = match choice.content {
            Some(c) => c,
            None => String::new(),
        };
        match choice.tool_calls {
            Some(calls) => {
                let kept = clone_calls(&calls);
                let ghost before = self.messages@;
                self.messages.push(
                    ChatMessage {
                        role: to_owned_string("assistant"),
                        content,
                        tool_calls: Some(kept),
                        tool_call_id: None,
                    },
                );
                assert(self.messages@.drop_last() =~= before);
                Ok(ChatStep::RunTools(calls))
            },
            None => Ok(ChatStep::Finish(content)),
        }
    }

    /// Adds a tool's result to the conversation (an error as "错误: " and its message),
    /// answering the call's id, and notes a `play_track` call.
    pub fn record_tool_result(&mut self, call: &ToolCall, result: Result<String, String>)
        requires
            old(self).wf(),
        ensures
            final(self).wf(),
            final(self).rounds == old(self).rounds,
            final(self).model == old(self).model,
            final(self).did_play == (old(self).did_play || call.function.name@ == "play_track"@),
            final(self).messages@.len() == old(self).messages@.len() + 1,
            final(self).messages@.drop_last() == old(self).messages@,
            ({
                let m = final(self).messages@.last();
                &&& m.role@ == "tool"@
                &&& m.content@ == match result {
                    Ok(s) => s@,
                    Err(e) => "错误: "@ + e@,
                }
                &&& m.tool_calls is None
                &&& m.tool_call_id matches Some(id) && id@ == call.id@
            }),
    {
        if str_eq(call.function.name.as_str(), "play_track") {
            self.did_play = true;
        }
        let content = match result {
            Ok(s) => s,
            Err(e) => {
                let mut m = to_owned_string("错误: ");
                push_str(&mut m, e.as_str());
                m
            },
        };
        let ghost before = self.messages@;
        self.messages.push(
            ChatMessage {
                role: to_owned_string("tool"),
                content,
                tool_calls: None,
                tool_call_id: Some(call.id.clone()),
            },
        );
        assert(self.messages@.drop_last() =~= before);
    }

    /// The final answer with the model's reply: after a `play_track` call the card shows
    /// the current track; otherwise it does when the reply speaks of playing. Without the
    /// state (its lock poisoned) there is no card.
    pub fn finish(&self, reply: String, state: Option<&AppState>) -> (r: AiChatResponse)
        ensures
            r.reply == reply,
            match state {
                None => r.music_card is None,
                Some(st) => if self.did_play {
                    (r.music_card is Some <==> st.model().current_track() is Some)
                        && (r.music_card matches Some(c) ==> card_for(st.model(), c))
                } else {
                    (r.music_card is Some <==> (spec_contains(reply@, "正在播放"@) || spec_contains(
                        reply@,
                        "播放"@,
                    )) && st.model().current_track() is Some) && (r.music_card matches Some(c)
                        ==> card_for(st.model(), c))
                },
            },
    {
        let music_card = match state {
            None => None,
            Some(st) => if self.did_play {
                build_current_track_card(st)
            } else {
                try_build_music_card(reply.as_str(), st)
            },
        };
        AiChatResponse { reply, music_card }
    }

    /// The answer when the rounds ran out: a note asking for clearer instructions, with
    /// the current track's card after a `play_track` call.
    pub fn give_up(&self, state: Option<&AppState>) -> (r: AiChatResponse)
        ensures
            r.reply@ == GIVE_UP_REPLY@,
            match state {
                Some(st) if self.did_play => (r.music_card is Some <==> st.model().current_track() is Some)
                    && (r.music_card matches Some(c) ==> card_for(st.model(), c)),
                _ => r.music_card is None,
            },
    {
        let music_card = match state {
            Some(st) => if self.did_play {
                build_current_track_card(st)
            } else {
                None
            },
            None => None,
        };
        AiChatResponse { reply: to_owned_string(GIVE_UP_REPLY), music_card }
    }
}

// ---------------------------------------------------------------------------
// Laws
// ---------------------------------------------------------------------------

/// Law: the search lists exactly the entries whose title or artist contains the query,
/// each by its index, in playlist order.
pub proof fn law_search_lists_exactly_the_matches(
    names: Seq<(Seq<char>, Seq<char>)>,
    q: Seq<char>,
    n: nat,
)
    requires
        n <= names.len(),
        names.len() <= usize::MAX,
    ensures
        forall|i: int|
            0 <= i < n ==> (matching_indices(names, q, n).contains(i as usize) <==> names_match(
                #[trigger] names[i],
                q,
            )),
        forall|k: int|
            0 <= k < matching_indices(names, q, n).len() ==> #[trigger] matching_indices(
                names,
                q,
                n,
            )[k] < n,
        forall|a: int, b: int|
            0 <= a < b < matching_indices(names, q, n).len() ==> #[trigger] matching_indices(
                names,
                q,
                n,
            )[a] < #[trigger] matching_indices(names, q, n)[b],
    decreases n,
{
    if n > 0 {
        law_search_lists_exactly_the_matches(names, q, (n - 1) as nat);
        let prev = matching_indices(names, q, (n - 1) as nat);
        let cur = matching_indices(names, q, n);
        assert forall|i: int| 0 <= i < n implies (cur.contains(i as usize) <==> names_match(
            #[trigger] names[i],
            q,
        )) by {
            if names_match(names[n - 1], q) {
                assert(cur == prev.push((n - 1) as usize));
                if i == n - 1 {
                    assert(cur[prev.len() as int] == (n - 1) as usize);
                } else {
                    if cur.contains(i as usize) {
                        let k = choose|k: int| 0 <= k < cur.len() && cur[k] == i as usize;
                        if k < prev.len() {
                            assert(prev[k] == i as usize);
                        }
                    }
                    if prev.contains(i as usize) {
                        let k = choose|k: int| 0 <= k < prev.len() && prev[k] == i as usize;
                        assert(cur[k] == i as usize);
                    }
                }
            } else {
                if i == n - 1 {
                    if cur.contains(i as usize) {
                        let k = choose|k: int| 0 <= k < cur.len() && cur[k] == i as usize;
                        assert(prev[k] < n - 1);
                    }
                }
            }
        }
    }
}

/// Law: `get_current_track` answers with a label that matches the playback state:
/// "▶ 正在播放: " while playing, "⏸ 已暂停: " while paused, "⏹ 已停止: " when stopped,
/// followed by the current track's "title - artist"; with no current track it says so.
/// It changes nothing and asks nothing of the player.
pub proof fn law_current_track_label(args: JsonModel, m: PlayerModel, slot: PlayerSlot)
    ensures
        spec_execute_tool("get_current_track"@, args, m, slot).1 == m,
        ({
            let r = spec_execute_tool("get_current_track"@, args, m, slot).0;
            let reply = |s: Seq<char>|
                OutcomeModel::Done { result: Ok(s), action: ActionModel::Nothing, notify: false };
            match m.current_track() {
                None => r == reply("当前没有播放任何歌曲。"@),
                Some(t) => match m.playback_state {
                    PlaybackState::Playing => r == reply(
                        "▶ 正在播放: "@ + t.name@ + " - "@ + t.artist@,
                    ),
                    PlaybackState::Paused => r == reply("⏸ 已暂停: "@ + t.name@ + " - "@ + t.artist@),
                    PlaybackState::Stopped => r == reply(
                        "⏹ 已停止: "@ + t.name@ + " - "@ + t.artist@,
                    ),
                },
            }
        }),
{
    reveal_strlit("get_current_track");
    reveal_strlit("get_playlist");
    assert("get_current_track"@[4] != "get_playlist"@[4]);
    reveal_strlit("▶ 正在播放");
    reveal_strlit("⏸ 已暂停");
    reveal_strlit("⏹ 已停止");
    reveal_strlit(": ");
    reveal_strlit(" - ");
    reveal_strlit("▶ 正在播放: ");
    reveal_strlit("⏸ 已暂停: ");
    reveal_strlit("⏹ 已停止: ");
    assert("▶ 正在播放"@ + ": "@ =~= "▶ 正在播放: "@);
    assert("⏸ 已暂停"@ + ": "@ =~= "⏸ 已暂停: "@);
    assert("⏹ 已停止"@ + ": "@ =~= "⏹ 已停止: "@);
    match m.current_track() {
        None => {},
        Some(t) => {
            let l = status_label(m.playback_state);
            assert(l + ": "@ + name_artist(t) =~= (l + ": "@) + t.name@ + " - "@ + t.artist@);
        },
    }
}

/// Law: every tool keeps the current index pointing into the playlist.
pub proof fn law_tools_keep_wf(name: Seq<char>, args: JsonModel, m: PlayerModel, slot: PlayerSlot)
    requires
        m.wf(),
    ensures
        spec_execute_tool(name, args, m, slot).1.wf(),
{
}

/// One of the tools offered to the model.
pub open spec fn is_tool_name(name: Seq<char>) -> bool {
    exists|i: int| 0 <= i < spec_tools().len() && (#[trigger] spec_tools()[i]).0 == name
}

/// The error for a tool that is not offered.
pub open spec fn unknown_tool_error(name: Seq<char>) -> Seq<char> {
    "未知工具: "@ + name
}

/// Law: a name that is not one of the offered tools is answered with "未知工具: " and the
/// name, with the state kept and nothing asked of the player; an offered tool never gets
/// that error.
pub proof fn law_unknown_tool(name: Seq<char>, args: JsonModel, m: PlayerModel, slot: PlayerSlot)
    ensures
        !is_tool_name(name) ==> spec_execute_tool(name, args, m, slot) == answer(
            m,
            Err(unknown_tool_error(name)),
        ),
        is_tool_name(name) ==> !(spec_execute_tool(name, args, m, slot).0 == (OutcomeModel::Done {
            result: Err(unknown_tool_error(name)),
            action: ActionModel::Nothing,
            notify: false,
        })),
{
    let tools = spec_tools();
    if !is_tool_name(name) {
        assert(tools[0].0 != name);
        assert(tools[1].0 != name);
        assert(tools[2].0 != name);
        assert(tools[3].0 != name);
        assert(tools[4].0 != name);
        assert(tools[5].0 != name);
        assert(tools[6].0 != name);
        assert(tools[7].0 != name);
        assert(tools[8].0 != name);
    } else {
        reveal_strlit("未知工具: ");
        reveal_strlit("缺少 index 参数");
        reveal_strlit("索引 ");
        reveal_strlit("poisoned lock: another task failed inside");
        assert(poisoned_message()[0] == 'p');
        let u = unknown_tool_error(name);
        assert(u[0] == '未');
        assert("缺少 index 参数"@[0] != '未');
        assert(("索引 "@ + spec_decimal(0))[0] == '索');
        let r = spec_execute_tool(name, args, m, slot).0;
        if name == "play_track"@ {
            match model_as_u64(args.get("index"@)) {
                None => {},
                Some(v) => {
                    let idx = v as usize;
                    if idx >= m.playlist.len() {
                        let t = "索引 "@ + spec_decimal(idx as nat) + " 超出播放列表范围（共 "@
                            + spec_decimal(m.playlist.len()) + " 首）"@;
                        assert(t[0] == "索引 "@[0]);
                    }
                },
            }
        }
        if r == (OutcomeModel::Done {
            result: Err(u),
            action: ActionModel::Nothing,
            notify: false,
        }) {
            assert(false);
        }
    }
}

} // verus!
