use claudio::ai::{execute_tool, PlayerSlot, ToolOutcome};
use claudio::json::{parse_u64, JsonValue};
use claudio::speech::tts_audio;
use claudio::state::{AiConfig, AppState, PlaybackState, SpeechConfig, Theme, TrackInfo};
use claudio::text::push_decimal;

#[test]
fn decimal_text_reads_back() {
    for n in [0u64, 7, 10, 99, 100, 4096, 1234567890123, u64::MAX] {
        let mut s = String::new();
        push_decimal(&mut s, n as u128);
        assert_eq!(parse_u64(&s), Some(n));
    }
}

#[test]
fn base64_length_is_four_per_started_group() {
    for n in 0..10usize {
        let bytes = vec![0xa5u8; n];
        assert_eq!(tts_audio(true, "audio/x", &bytes).unwrap().len(), (n + 2) / 3 * 4);
    }
}

fn track(i: u32) -> TrackInfo {
    TrackInfo { id: i, name: format!("n{}", i), artist: "a".to_string(), path: format!("/p{}", i) }
}

#[test]
fn tools_keep_the_current_index_in_the_playlist() {
    let mut s = AppState {
        playlist: (0..3).map(track).collect(),
        current_index: Some(2),
        playback_state: PlaybackState::Playing,
        theme: Theme::Dark,
        ai_config: AiConfig::default(),
        speech_config: SpeechConfig::default(),
    };
    let script = [
        "next_track",
        "prev_track",
        "prev_track",
        "toggle_playback",
        "stop_playback",
        "next_track",
        "get_playlist",
        "play_track",
        "toggle_playback",
        "prev_track",
    ];
    for name in script {
        let o = execute_tool(name, &JsonValue::Null, &mut s, PlayerSlot::Ready);
        assert!(!matches!(o, ToolOutcome::StartTrack { .. }));
        match s.current_index {
            Some(i) => assert!(i < s.playlist.len()),
            None => {}
        }
    }
    assert_eq!(s.current_index, Some(1));
}
