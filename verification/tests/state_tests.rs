use claudio::state::{extract_track_info, track_info_from_stem, AiConfig, SpeechConfig, Theme};

#[test]
fn track_info_from_artist_and_title() {
    let t = extract_track_info("/music/Queen - Bohemian Rhapsody.mp3", 7);
    assert_eq!(t.id, 7);
    assert_eq!(t.artist, "Queen");
    assert_eq!(t.name, "Bohemian Rhapsody");
    assert_eq!(t.path, "/music/Queen - Bohemian Rhapsody.mp3");
}

#[test]
fn track_info_without_separator() {
    let t = extract_track_info("/music/song.flac", 0);
    assert_eq!(t.artist, "Unknown Artist");
    assert_eq!(t.name, "song");
}

#[test]
fn track_info_trims_both_sides_and_splits_at_first_separator() {
    let t = extract_track_info("/m/  A  -  B - C  .mp3", 1);
    assert_eq!(t.artist, "A");
    assert_eq!(t.name, "B - C");
}

#[test]
fn track_info_without_stem() {
    let t = extract_track_info("", 3);
    assert_eq!(t.name, "Unknown");
    assert_eq!(t.artist, "Unknown Artist");
    assert_eq!(t.path, "");
}

#[test]
fn track_info_from_given_stem() {
    let t = track_info_from_stem(Some("周杰伦 - 晴天"), "/x/周杰伦 - 晴天.mp3", 2);
    assert_eq!(t.artist, "周杰伦");
    assert_eq!(t.name, "晴天");
    let t = track_info_from_stem(None, "/", 2);
    assert_eq!(t.name, "Unknown");
}

#[test]
fn theme_names() {
    assert_eq!(Theme::Dark.as_str(), "dark");
    assert_eq!(Theme::Light.as_str(), "light");
    assert_eq!(Theme::from_str("light"), Theme::Light);
    assert_eq!(Theme::from_str("dark"), Theme::Dark);
    assert_eq!(Theme::from_str("purple"), Theme::Dark);
    assert_eq!(Theme::from_str(Theme::Light.as_str()), Theme::Light);
}

#[test]
fn config_defaults() {
    let a = AiConfig::default();
    assert_eq!(a.api_key, "");
    assert_eq!(a.model, "deepseek-chat");
    let s = SpeechConfig::default();
    assert_eq!(s.voice, "zhixiaoxia");
    assert!(!s.enabled);
    assert_eq!(s.access_key_id, "");
}

#[test]
fn track_info_stem_stops_at_the_final_dot() {
    let t = extract_track_info("/music/Band - Live.2019.mp3", 4);
    assert_eq!(t.artist, "Band");
    assert_eq!(t.name, "Live.2019");
    let t = extract_track_info("/music/.hidden", 5);
    assert_eq!(t.name, ".hidden");
    let t = extract_track_info("relative/dir.d/Tune", 6);
    assert_eq!(t.name, "Tune");
    assert_eq!(t.artist, "Unknown Artist");
}
