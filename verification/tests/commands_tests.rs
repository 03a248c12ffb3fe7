use claudio::commands::{
    add_tracks, finish_remove_track, get_speech_config, get_status, load_tracks, next_track,
    play_pause, play_request, play_started, prev_track, remove_track, set_ai_api_key,
    set_speech_config, set_theme, stop_audio, PlayerAction,
};
use claudio::state::{AiConfig, AppState, PlaybackState, SpeechConfig, Theme, TrackInfo};

fn track(id: u32, name: &str) -> TrackInfo {
    TrackInfo {
        id,
        name: name.to_string(),
        artist: format!("artist {}", id),
        path: format!("/music/{}.mp3", name),
    }
}

fn state(n: u32, current: Option<usize>, ps: PlaybackState) -> AppState {
    AppState {
        playlist: (0..n).map(|i| track(i, &format!("t{}", i))).collect(),
        current_index: current,
        playback_state: ps,
        theme: Theme::Dark,
        ai_config: AiConfig::default(),
        speech_config: SpeechConfig::default(),
    }
}

fn play_path(a: &Option<PlayerAction>) -> Option<String> {
    match a {
        Some(PlayerAction::Play { path }) => Some(path.clone()),
        _ => None,
    }
}

#[test]
fn next_track_wraps_to_first() {
    let mut s = state(3, Some(2), PlaybackState::Paused);
    let a = next_track(&mut s);
    assert_eq!(s.current_index, Some(0));
    assert_eq!(s.playback_state, PlaybackState::Playing);
    assert_eq!(play_path(&a), Some("/music/t0.mp3".to_string()));
    let mut s = state(3, None, PlaybackState::Stopped);
    next_track(&mut s);
    assert_eq!(s.current_index, Some(0));
    let mut s = state(3, Some(0), PlaybackState::Stopped);
    next_track(&mut s);
    assert_eq!(s.current_index, Some(1));
}

#[test]
fn prev_track_wraps_to_last() {
    let mut s = state(3, Some(0), PlaybackState::Playing);
    let a = prev_track(&mut s);
    assert_eq!(s.current_index, Some(2));
    assert_eq!(play_path(&a), Some("/music/t2.mp3".to_string()));
    let mut s = state(3, None, PlaybackState::Stopped);
    prev_track(&mut s);
    assert_eq!(s.current_index, Some(0));
}

#[test]
fn next_and_prev_on_empty_playlist() {
    let mut s = state(0, None, PlaybackState::Stopped);
    assert!(next_track(&mut s).is_none());
    assert!(prev_track(&mut s).is_none());
    assert_eq!(s.playback_state, PlaybackState::Stopped);
}

#[test]
fn prev_undoes_next() {
    for i in 0..4usize {
        let mut s = state(4, Some(i), PlaybackState::Playing);
        next_track(&mut s);
        prev_track(&mut s);
        assert_eq!(s.current_index, Some(i));
        prev_track(&mut s);
        next_track(&mut s);
        assert_eq!(s.current_index, Some(i));
    }
}

#[test]
fn play_checks_the_index() {
    let s = state(2, None, PlaybackState::Stopped);
    assert_eq!(play_request(&s, 2).err(), Some("索引超出播放列表范围".to_string()));
    let t = play_request(&s, 1).ok().unwrap();
    assert_eq!(t.path, "/music/t1.mp3");
    let mut s = s;
    play_started(&mut s, 1);
    assert_eq!(s.current_index, Some(1));
    assert_eq!(s.playback_state, PlaybackState::Playing);
    let st = get_status(&s);
    assert_eq!(st.current_track_index, Some(1));
    assert_eq!(st.current_track.map(|t| t.name), Some("t1".to_string()));
}

#[test]
fn play_pause_toggles() {
    let mut s = state(2, Some(1), PlaybackState::Playing);
    assert!(matches!(play_pause(&mut s, true), PlayerAction::Pause));
    assert_eq!(s.playback_state, PlaybackState::Paused);
    assert!(matches!(play_pause(&mut s, true), PlayerAction::Resume));
    assert_eq!(s.playback_state, PlaybackState::Playing);
}

#[test]
fn play_pause_restarts_when_stopped() {
    let mut s = state(2, Some(1), PlaybackState::Stopped);
    match play_pause(&mut s, true) {
        PlayerAction::Play { path } => assert_eq!(path, "/music/t1.mp3"),
        _ => panic!("expected play"),
    }
    assert_eq!(s.playback_state, PlaybackState::Playing);
    let mut s = state(2, None, PlaybackState::Stopped);
    assert!(matches!(play_pause(&mut s, true), PlayerAction::Nothing));
    assert_eq!(s.playback_state, PlaybackState::Stopped);
}

#[test]
fn play_pause_without_player_changes_nothing() {
    let mut s = state(2, Some(0), PlaybackState::Playing);
    assert!(matches!(play_pause(&mut s, false), PlayerAction::Nothing));
    assert_eq!(s.playback_state, PlaybackState::Playing);
}

#[test]
fn stop_sets_stopped() {
    let mut s = state(2, Some(0), PlaybackState::Playing);
    assert!(matches!(stop_audio(&mut s), PlayerAction::Stop));
    assert_eq!(s.playback_state, PlaybackState::Stopped);
    assert_eq!(s.current_index, Some(0));
}

#[test]
fn removing_before_current_keeps_the_current_track() {
    let mut s = state(4, Some(2), PlaybackState::Playing);
    let e = remove_track(&mut s, 0);
    assert!(!e.was_current && e.shifted_before);
    assert!(matches!(finish_remove_track(&mut s, e), PlayerAction::Nothing));
    assert_eq!(s.current_index, Some(1));
    assert_eq!(s.playlist[1].name, "t2");
    assert_eq!(s.playback_state, PlaybackState::Playing);
}

#[test]
fn removing_the_current_track_stops() {
    let mut s = state(4, Some(2), PlaybackState::Playing);
    let e = remove_track(&mut s, 2);
    assert!(matches!(finish_remove_track(&mut s, e), PlayerAction::Stop));
    assert_eq!(s.current_index, None);
    assert_eq!(s.playback_state, PlaybackState::Stopped);
    assert_eq!(s.playlist.len(), 3);
}

#[test]
fn removing_after_current_changes_nothing_else() {
    let mut s = state(4, Some(1), PlaybackState::Paused);
    let e = remove_track(&mut s, 3);
    finish_remove_track(&mut s, e);
    assert_eq!(s.current_index, Some(1));
    assert_eq!(s.playback_state, PlaybackState::Paused);
}

#[test]
fn tracks_are_numbered() {
    let tracks = load_tracks(vec!["/a/X - Y.mp3".to_string(), "/b/z.ogg".to_string()]).unwrap();
    assert_eq!(tracks.len(), 2);
    assert_eq!(tracks[0].id, 0);
    assert_eq!(tracks[0].artist, "X");
    assert_eq!(tracks[1].id, 1);
    assert_eq!(tracks[1].name, "z");
    let mut s = state(2, None, PlaybackState::Stopped);
    let added = add_tracks(&mut s, vec!["/c/w.mp3".to_string()]);
    assert_eq!(added.len(), 1);
    assert_eq!(added[0].id, 2);
    assert_eq!(s.playlist.len(), 3);
    assert_eq!(s.playlist[2].path, "/c/w.mp3");
}

#[test]
fn settings_commands() {
    let mut s = state(1, None, PlaybackState::Stopped);
    assert_eq!(set_theme(&mut s, "light"), Theme::Light);
    assert_eq!(s.theme, Theme::Light);
    set_ai_api_key(&mut s, "sk".to_string());
    assert_eq!(s.ai_config.api_key, "sk");
    assert_eq!(s.ai_config.model, "deepseek-chat");
    let mut cfg = SpeechConfig::default();
    cfg.voice = "longxiaochun".to_string();
    cfg.app_key = "app".to_string();
    let stored = set_speech_config(&mut s, cfg);
    assert_eq!(stored.voice, "zhixiaoxia");
    assert_eq!(s.speech_config.app_key, "app");
    s.speech_config.voice = "cosyvoice-v1".to_string();
    let got = get_speech_config(&mut s);
    assert_eq!(got.voice, "zhixiaoxia");
    assert_eq!(s.speech_config.voice, "zhixiaoxia");
    s.speech_config.voice = "xiaoyun".to_string();
    assert_eq!(get_speech_config(&mut s).voice, "xiaoyun");
}
