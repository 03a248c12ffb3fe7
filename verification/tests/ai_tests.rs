use claudio::ai::{
    build_current_track_card, build_tools, execute_tool, finish_play_track, search_reply, start_chat,
    try_build_music_card, ChatStart, ChatStep, PlayerSlot, ResponseMessage, ToolCall,
    ToolCallFunction, ToolOutcome, GIVE_UP_REPLY, MAX_ROUNDS, NO_KEY_REPLY, SYSTEM_PROMPT,
};
use claudio::commands::PlayerAction;
use claudio::json::JsonValue;
use claudio::state::{
    AiChatRequest, AiConfig, AiMessage, AppState, PlaybackState, SpeechConfig, Theme, TrackInfo,
};

fn track(id: u32, artist: &str, name: &str) -> TrackInfo {
    TrackInfo {
        id,
        name: name.to_string(),
        artist: artist.to_string(),
        path: format!("/m/{} - {}.mp3", artist, name),
    }
}

fn state(current: Option<usize>, ps: PlaybackState) -> AppState {
    AppState {
        playlist: vec![
            track(0, "Queen", "Bohemian Rhapsody"),
            track(1, "周杰伦", "晴天"),
            track(2, "Muse", "Queen of Hearts"),
        ],
        current_index: current,
        playback_state: ps,
        theme: Theme::Dark,
        ai_config: AiConfig::default(),
        speech_config: SpeechConfig::default(),
    }
}

fn args(members: Vec<(&str, JsonValue)>) -> JsonValue {
    JsonValue::Object(members.into_iter().map(|(k, v)| (k.to_string(), v)).collect())
}

fn reply(o: &ToolOutcome) -> Result<String, String> {
    match o {
        ToolOutcome::Done { result, .. } => result.clone(),
        _ => Err("not done".to_string()),
    }
}

fn notify(o: &ToolOutcome) -> bool {
    matches!(o, ToolOutcome::Done { notify: true, .. })
}

#[test]
fn get_playlist_lists_tracks() {
    let mut s = state(None, PlaybackState::Stopped);
    let o = execute_tool("get_playlist", &JsonValue::Null, &mut s, PlayerSlot::Empty);
    assert_eq!(
        reply(&o).unwrap(),
        "当前播放列表：\n0. Bohemian Rhapsody - Queen\n1. 晴天 - 周杰伦\n2. Queen of Hearts - Muse"
    );
    assert!(!notify(&o));
    s.playlist.clear();
    let o = execute_tool("get_playlist", &JsonValue::Null, &mut s, PlayerSlot::Empty);
    assert_eq!(reply(&o).unwrap(), "播放列表是空的，还没有添加任何歌曲。");
}

#[test]
fn get_current_track_reports_state() {
    let mut s = state(Some(1), PlaybackState::Paused);
    let o = execute_tool("get_current_track", &JsonValue::Null, &mut s, PlayerSlot::Ready);
    assert_eq!(reply(&o).unwrap(), "⏸ 已暂停: 晴天 - 周杰伦");
    let mut s = state(None, PlaybackState::Stopped);
    let o = execute_tool("get_current_track", &JsonValue::Null, &mut s, PlayerSlot::Ready);
    assert_eq!(reply(&o).unwrap(), "当前没有播放任何歌曲。");
}

#[test]
fn search_is_case_insensitive() {
    let mut s = state(None, PlaybackState::Stopped);
    let a = args(vec![("query", JsonValue::string("QUEEN"))]);
    let o = execute_tool("search_local_music", &a, &mut s, PlayerSlot::Empty);
    assert_eq!(
        reply(&o).unwrap(),
        "找到 2 首匹配歌曲：\nBohemian Rhapsody - Queen（索引 0）\nQueen of Hearts - Muse（索引 2）"
    );
    let a = args(vec![("query", JsonValue::string("Abba"))]);
    let o = execute_tool("search_local_music", &a, &mut s, PlayerSlot::Empty);
    assert_eq!(reply(&o).unwrap(), "没有找到与\"abba\"匹配的歌曲。");
    let o = execute_tool("search_local_music", &JsonValue::Null, &mut s, PlayerSlot::Empty);
    assert!(reply(&o).unwrap().starts_with("找到 3 首匹配歌曲"));
}

#[test]
fn play_track_checks_its_argument() {
    let mut s = state(None, PlaybackState::Stopped);
    let o = execute_tool("play_track", &JsonValue::Null, &mut s, PlayerSlot::Ready);
    assert_eq!(reply(&o).err(), Some("缺少 index 参数".to_string()));
    let a = args(vec![("index", JsonValue::Number("7".to_string()))]);
    let o = execute_tool("play_track", &a, &mut s, PlayerSlot::Ready);
    assert_eq!(reply(&o).err(), Some("索引 7 超出播放列表范围（共 3 首）".to_string()));
    let a = args(vec![("index", JsonValue::Number("1".to_string()))]);
    let o = execute_tool("play_track", &a, &mut s, PlayerSlot::Poisoned);
    assert_eq!(reply(&o).err(), Some("poisoned lock: another task failed inside".to_string()));
    assert_eq!(s.current_index, None);
}

#[test]
fn play_track_starts_the_track() {
    let mut s = state(None, PlaybackState::Stopped);
    let a = args(vec![("index", JsonValue::Number("1".to_string()))]);
    match execute_tool("play_track", &a, &mut s, PlayerSlot::Empty) {
        ToolOutcome::StartTrack { index, path } => {
            assert_eq!(index, 1);
            assert_eq!(path, "/m/周杰伦 - 晴天.mp3");
            assert_eq!(s.current_index, None);
            let r = finish_play_track(&mut s, index);
            assert_eq!(r, "正在播放：晴天 - 周杰伦");
            assert_eq!(s.current_index, Some(1));
            assert_eq!(s.playback_state, PlaybackState::Playing);
        }
        _ => panic!("expected start"),
    }
}

#[test]
fn toggle_playback_cases() {
    let mut s = state(Some(0), PlaybackState::Playing);
    let o = execute_tool("toggle_playback", &JsonValue::Null, &mut s, PlayerSlot::Ready);
    assert_eq!(reply(&o).unwrap(), "⏸ 已暂停播放");
    assert!(matches!(o, ToolOutcome::Done { action: PlayerAction::Pause, notify: true, .. }));
    assert_eq!(s.playback_state, PlaybackState::Paused);
    let o = execute_tool("toggle_playback", &JsonValue::Null, &mut s, PlayerSlot::Ready);
    assert_eq!(reply(&o).unwrap(), "▶ 已恢复播放");
    assert_eq!(s.playback_state, PlaybackState::Playing);
    let o = execute_tool("toggle_playback", &JsonValue::Null, &mut s, PlayerSlot::Empty);
    assert_eq!(reply(&o).unwrap(), "播放器尚未初始化。");
    let mut s = state(Some(0), PlaybackState::Stopped);
    let o = execute_tool("toggle_playback", &JsonValue::Null, &mut s, PlayerSlot::Ready);
    assert_eq!(reply(&o).unwrap(), "当前没有歌曲在播放，请先选择一首歌。");
    assert!(!notify(&o));
}

#[test]
fn next_and_prev_tools() {
    let mut s = state(Some(2), PlaybackState::Paused);
    let o = execute_tool("next_track", &JsonValue::Null, &mut s, PlayerSlot::Ready);
    assert_eq!(reply(&o).unwrap(), "切换到下一首：Bohemian Rhapsody - Queen");
    assert!(matches!(&o, ToolOutcome::Done { action: PlayerAction::Play { path }, .. } if path == "/m/Queen - Bohemian Rhapsody.mp3"));
    assert_eq!(s.current_index, Some(0));
    let o = execute_tool("prev_track", &JsonValue::Null, &mut s, PlayerSlot::Empty);
    assert_eq!(reply(&o).unwrap(), "切换到上一首：Queen of Hearts - Muse");
    assert!(matches!(o, ToolOutcome::Done { action: PlayerAction::Nothing, notify: true, .. }));
    assert_eq!(s.current_index, Some(2));
    s.playlist.clear();
    s.current_index = None;
    let o = execute_tool("next_track", &JsonValue::Null, &mut s, PlayerSlot::Ready);
    assert_eq!(reply(&o).unwrap(), "播放列表是空的。");
}

#[test]
fn other_tools() {
    let mut s = state(Some(0), PlaybackState::Playing);
    assert!(matches!(
        execute_tool("set_volume", &JsonValue::Null, &mut s, PlayerSlot::Ready),
        ToolOutcome::AdjustVolume
    ));
    let o = execute_tool("stop_playback", &JsonValue::Null, &mut s, PlayerSlot::Ready);
    assert_eq!(reply(&o).unwrap(), "⏹ 已停止播放");
    assert!(matches!(o, ToolOutcome::Done { action: PlayerAction::Stop, .. }));
    assert_eq!(s.playback_state, PlaybackState::Stopped);
    let o = execute_tool("dance", &JsonValue::Null, &mut s, PlayerSlot::Ready);
    assert_eq!(reply(&o).err(), Some("未知工具: dance".to_string()));
}

#[test]
fn tools_offered() {
    let tools = build_tools();
    let names: Vec<&str> = tools.iter().map(|t| t.function.name.as_str()).collect();
    assert_eq!(
        names,
        vec![
            "get_playlist",
            "get_current_track",
            "search_local_music",
            "play_track",
            "toggle_playback",
            "next_track",
            "prev_track",
            "set_volume",
            "stop_playback"
        ]
    );
    assert!(tools.iter().all(|t| t.tool_type == "function"));
    let req = tools[3].function.parameters.get("required").and_then(|r| r.as_array()).unwrap();
    assert_eq!(req[0].as_str().map(|s| s.as_str()), Some("index"));
}

#[test]
fn music_cards() {
    let s = state(Some(1), PlaybackState::Playing);
    let c = build_current_track_card(&s).unwrap();
    assert_eq!(c.track_name, "晴天");
    assert_eq!(c.artist, "周杰伦");
    assert_eq!(c.action, "play");
    assert_eq!(c.track_index, Some(1));
    assert!(try_build_music_card("好的，正在播放晴天", &s).is_some());
    assert!(try_build_music_card("来听听吧", &s).is_none());
    let s = state(None, PlaybackState::Stopped);
    assert!(build_current_track_card(&s).is_none());
    assert!(try_build_music_card("播放", &s).is_none());
}

fn request() -> AiChatRequest {
    AiChatRequest { messages: vec![AiMessage { role: "user".to_string(), content: "hi".to_string() }] }
}

#[test]
fn chat_without_key_asks_for_one() {
    match start_chat(&request(), "", "deepseek-chat") {
        ChatStart::Reply(r) => {
            assert_eq!(r.reply, NO_KEY_REPLY);
            assert!(r.music_card.is_none());
        }
        _ => panic!("expected reply"),
    }
}

#[test]
fn chat_conversation_loop() {
    let mut session = match start_chat(&request(), "key", "deepseek-chat") {
        ChatStart::Session(s) => s,
        _ => panic!("expected session"),
    };
    assert_eq!(session.messages.len(), 2);
    assert_eq!(session.messages[0].role, "system");
    assert_eq!(session.messages[0].content, SYSTEM_PROMPT);
    assert!(SYSTEM_PROMPT.starts_with("你是一个超有活力的音乐搭子，叫 Claudio，运行在 Claudio Desktop 音乐播放器里。你的任务"));
    assert_eq!(session.messages[1].content, "hi");

    let req = session.next_request().unwrap();
    assert_eq!(req.tool_choice, "auto");
    assert_eq!(req.messages.len(), 2);
    assert_eq!(req.tools.len(), 9);

    assert_eq!(session.on_reply(vec![]).err(), Some("AI 返回了空响应".to_string()));

    let call = ToolCall {
        id: "c1".to_string(),
        call_type: "function".to_string(),
        function: ToolCallFunction { name: "play_track".to_string(), arguments: "{}".to_string() },
    };
    let step = session.on_reply(vec![ResponseMessage {
        role: "assistant".to_string(),
        content: None,
        tool_calls: Some(vec![call.clone()]),
    }]);
    let calls = match step {
        Ok(ChatStep::RunTools(c)) => c,
        _ => panic!("expected tools"),
    };
    assert_eq!(calls.len(), 1);
    assert_eq!(session.messages.len(), 3);
    assert_eq!(session.messages[2].role, "assistant");
    assert_eq!(session.messages[2].content, "");
    session.record_tool_result(&calls[0], Err("bad".to_string()));
    assert!(session.did_play);
    assert_eq!(session.messages[3].role, "tool");
    assert_eq!(session.messages[3].content, "错误: bad");
    assert_eq!(session.messages[3].tool_call_id.as_deref(), Some("c1"));

    let step = session.on_reply(vec![ResponseMessage {
        role: "assistant".to_string(),
        content: Some("好的".to_string()),
        tool_calls: None,
    }]);
    let text = match step {
        Ok(ChatStep::Finish(t)) => t,
        _ => panic!("expected finish"),
    };
    let s = state(Some(0), PlaybackState::Playing);
    let resp = session.finish(text, Some(&s));
    assert_eq!(resp.reply, "好的");
    assert_eq!(resp.music_card.map(|c| c.track_index), Some(Some(0)));
}

#[test]
fn chat_sends_at_most_five_requests() {
    let mut session = match start_chat(&request(), "key", "m") {
        ChatStart::Session(s) => s,
        _ => panic!("expected session"),
    };
    for _ in 0..MAX_ROUNDS {
        assert!(session.next_request().is_some());
    }
    assert!(session.next_request().is_none());
    assert_eq!(session.rounds, 5);
    let s = state(Some(1), PlaybackState::Playing);
    let resp = session.give_up(Some(&s));
    assert_eq!(resp.reply, GIVE_UP_REPLY);
    assert!(resp.music_card.is_none());
}

#[test]
fn search_reply_uses_the_given_lowercase_names() {
    let s = state(None, PlaybackState::Stopped);
    let names = vec![
        ("x".to_string(), "y".to_string()),
        ("hit me".to_string(), "z".to_string()),
        ("q".to_string(), "hit".to_string()),
    ];
    assert_eq!(
        search_reply(&s.playlist, &names, "hit"),
        "找到 2 首匹配歌曲：\n晴天 - 周杰伦（索引 1）\nQueen of Hearts - Muse（索引 2）"
    );
    assert_eq!(search_reply(&s.playlist, &names, "nope"), "没有找到与\"nope\"匹配的歌曲。");
}

#[test]
fn unknown_tool_keeps_state_even_with_a_poisoned_lock() {
    let mut s = state(Some(1), PlaybackState::Paused);
    let o = execute_tool("rewind", &JsonValue::Null, &mut s, PlayerSlot::Poisoned);
    assert_eq!(reply(&o).err(), Some("未知工具: rewind".to_string()));
    assert!(matches!(o, ToolOutcome::Done { action: PlayerAction::Nothing, notify: false, .. }));
    assert_eq!(s.current_index, Some(1));
    assert_eq!(s.playback_state, PlaybackState::Paused);
}
