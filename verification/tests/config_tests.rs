use claudio::config::{
    load_ai_config, load_playlist_paths, load_speech_config, load_theme, save_ai_config,
    save_playlist, save_speech_config, save_theme,
};
use claudio::json::JsonValue;
use claudio::state::{AiConfig, SpeechConfig, Theme, TrackInfo};

fn empty() -> JsonValue {
    JsonValue::Object(vec![])
}

fn track(path: &str) -> TrackInfo {
    TrackInfo { id: 0, name: String::new(), artist: String::new(), path: path.to_string() }
}

#[test]
fn theme_round_trip() {
    let mut c = empty();
    save_theme(&mut c, &Theme::Light);
    assert_eq!(load_theme(&c), Theme::Light);
    save_theme(&mut c, &Theme::Dark);
    assert_eq!(load_theme(&c), Theme::Dark);
}

#[test]
fn theme_defaults_to_dark() {
    assert_eq!(load_theme(&empty()), Theme::Dark);
    assert_eq!(load_theme(&JsonValue::Null), Theme::Dark);
    let c = JsonValue::Object(vec![("theme".to_string(), JsonValue::Bool(true))]);
    assert_eq!(load_theme(&c), Theme::Dark);
    let c = JsonValue::Object(vec![("theme".to_string(), JsonValue::string("LIGHT"))]);
    assert_eq!(load_theme(&c), Theme::Dark);
}

#[test]
fn save_theme_on_null_document() {
    let mut c = JsonValue::Null;
    save_theme(&mut c, &Theme::Light);
    assert_eq!(load_theme(&c), Theme::Light);
}

#[test]
fn ai_config_round_trip_and_defaults() {
    let mut c = empty();
    let d = load_ai_config(&c);
    assert_eq!(d.api_key, "");
    assert_eq!(d.model, "deepseek-chat");
    save_ai_config(&mut c, &AiConfig { api_key: "sk-1".to_string(), model: "m2".to_string() });
    let r = load_ai_config(&c);
    assert_eq!(r.api_key, "sk-1");
    assert_eq!(r.model, "m2");
    let c = JsonValue::Object(vec![(
        "ai".to_string(),
        JsonValue::Object(vec![("api_key".to_string(), JsonValue::string("k"))]),
    )]);
    let r = load_ai_config(&c);
    assert_eq!(r.api_key, "k");
    assert_eq!(r.model, "deepseek-chat");
}

#[test]
fn speech_config_round_trip_and_defaults() {
    let mut c = empty();
    let d = load_speech_config(&c);
    assert_eq!(d.voice, "zhixiaoxia");
    assert!(!d.enabled);
    assert_eq!(d.app_key, "");
    let s = SpeechConfig {
        access_key_id: "id".to_string(),
        access_key_secret: "s3".to_string(),
        app_key: "app".to_string(),
        voice: "xiaoyun".to_string(),
        enabled: true,
    };
    save_speech_config(&mut c, &s);
    let r = load_speech_config(&c);
    assert_eq!(r.access_key_id, "id");
    assert_eq!(r.access_key_secret, "s3");
    assert_eq!(r.app_key, "app");
    assert_eq!(r.voice, "xiaoyun");
    assert!(r.enabled);
    let c = JsonValue::Object(vec![(
        "speech".to_string(),
        JsonValue::Object(vec![("enabled".to_string(), JsonValue::string("yes"))]),
    )]);
    assert!(!load_speech_config(&c).enabled);
}

#[test]
fn playlist_round_trip() {
    let mut c = empty();
    assert!(load_playlist_paths(&c).is_empty());
    save_playlist(&mut c, &[track("/a.mp3"), track("/b.flac")]);
    assert_eq!(load_playlist_paths(&c), vec!["/a.mp3".to_string(), "/b.flac".to_string()]);
}

#[test]
fn playlist_skips_non_strings() {
    let c = JsonValue::Object(vec![(
        "playlist".to_string(),
        JsonValue::Array(vec![
            JsonValue::string("x"),
            JsonValue::Number("1".to_string()),
            JsonValue::Null,
            JsonValue::string("y"),
        ]),
    )]);
    assert_eq!(load_playlist_paths(&c), vec!["x".to_string(), "y".to_string()]);
    let c = JsonValue::Object(vec![("playlist".to_string(), JsonValue::string("x"))]);
    assert!(load_playlist_paths(&c).is_empty());
}

#[test]
fn sections_are_independent() {
    let mut c = empty();
    save_theme(&mut c, &Theme::Light);
    save_ai_config(&mut c, &AiConfig { api_key: "k".to_string(), model: "m".to_string() });
    save_playlist(&mut c, &[track("/p")]);
    save_speech_config(&mut c, &SpeechConfig::default());
    assert_eq!(load_theme(&c), Theme::Light);
    assert_eq!(load_ai_config(&c).api_key, "k");
    assert_eq!(load_playlist_paths(&c), vec!["/p".to_string()]);
    assert_eq!(load_speech_config(&c).voice, "zhixiaoxia");
}
