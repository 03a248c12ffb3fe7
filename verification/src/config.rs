//! The settings file: which member of the JSON document holds which setting, how each
//! setting is read back with its default, and how it is written.
//!
//! Reading and writing the file itself is the application shell's business; these
//! functions work on the parsed document. Every `save_*` function requires the document
//! to be an object or null, since serde_json panics on `value[key] = ..` otherwise.
use vstd::prelude::*;

use crate::json::{
    elems_view, law_set_then_get, model_as_array, model_as_bool, model_as_str, JsonModel,
    JsonValue,
};
use crate::state::{
    default_model, default_voice, spec_theme_from_name, spec_theme_name, AiConfig, SpeechConfig,
    Theme, TrackInfo,
};
use crate::text::to_owned_string;

verus! {

/// The member `key` of an optional value.
pub open spec fn sub_get(v: Option<JsonModel>, key: Seq<char>) -> Option<JsonModel> {
    match v {
        Some(x) => x.get(key),
        None => None,
    }
}

/// The text of a string value, or `default`.
pub open spec fn str_or(v: Option<JsonModel>, default: Seq<char>) -> Seq<char> {
    match model_as_str(v) {
        Some(s) => s,
        None => default,
    }
}

/// The theme that the document records (dark unless it says "light").
pub open spec fn spec_load_theme(c: JsonModel) -> Theme {
    match model_as_str(c.get("theme"@)) {
        Some(t) => spec_theme_from_name(t),
        None => Theme::Dark,
    }
}

/// The document with the theme recorded.
pub open spec fn spec_save_theme(c: JsonModel, t: Theme) -> JsonModel {
    c.set("theme"@, JsonModel::Str(spec_theme_name(t)))
}

/// The assistant's settings that the document records: API key and model.
pub open spec fn spec_load_ai_config(c: JsonModel) -> (Seq<char>, Seq<char>) {
    let ai = c.get("ai"@);
    (str_or(sub_get(ai, "api_key"@), Seq::empty()), str_or(sub_get(ai, "model"@), default_model()))
}

/// The object that records the assistant's settings.
pub open spec fn ai_section(api_key: Seq<char>, model: Seq<char>) -> JsonModel {
    JsonModel::Object(seq![("api_key"@, JsonModel::Str(api_key)), ("model"@, JsonModel::Str(model))])
}

/// The document with the assistant's settings recorded.
pub open spec fn spec_save_ai_config(c: JsonModel, api_key: Seq<char>, model: Seq<char>) -> JsonModel {
    c.set("ai"@, ai_section(api_key, model))
}

/// The speech settings that the document records:
/// access key id, access key secret, app key, voice, enabled.
pub open spec fn spec_load_speech_config(c: JsonModel) -> (
    Seq<char>,
    Seq<char>,
    Seq<char>,
    Seq<char>,
    bool,
) {
    let s = c.get("speech"@);
    (
        str_or(sub_get(s, "access_key_id"@), Seq::empty()),
        str_or(sub_get(s, "access_key_secret"@), Seq::empty()),
        str_or(sub_get(s, "app_key"@), Seq::empty()),
        str_or(sub_get(s, "voice"@), default_voice()),
        match model_as_bool(sub_get(s, "enabled"@)) {
            Some(b) => b,
            None => false,
        },
    )
}

/// The view of a speech configuration, in the order of `spec_load_speech_config`.
pub open spec fn speech_view(s: SpeechConfig) -> (Seq<char>, Seq<char>, Seq<char>, Seq<char>, bool) {
    (s.access_key_id@, s.access_key_secret@, s.app_key@, s.voice@, s.enabled)
}

/// The object that records the speech settings.
pub open spec fn speech_section(s: (Seq<char>, Seq<char>, Seq<char>, Seq<char>, bool)) -> JsonModel {
    JsonModel::Object(
        seq![
            ("access_key_id"@, JsonModel::Str(s.0)),
            ("access_key_secret"@, JsonModel::Str(s.1)),
            ("app_key"@, JsonModel::Str(s.2)),
            ("voice"@, JsonModel::Str(s.3)),
            ("enabled"@, JsonModel::Bool(s.4)),
        ],
    )
}

/// The document with the speech settings recorded.
pub open spec fn spec_save_speech_config(
    c: JsonModel,
    s: (Seq<char>, Seq<char>, Seq<char>, Seq<char>, bool),
) -> JsonModel {
    c.set("speech"@, speech_section(s))
}

/// The strings among the elements, in order (others are skipped).
pub open spec fn strings_of(a: Seq<JsonModel>) -> Seq<Seq<char>>
    decreases a.len(),
{
    if a.len() == 0 {
        Seq::empty()
    } else {
        let rest = strings_of(a.drop_last());
        match a.last() {
            JsonModel::Str(s) => rest.push(s),
            _ => rest,
        }
    }
}

/// The playlist's file paths that the document records.
pub open spec fn spec_load_playlist_paths(c: JsonModel) -> Seq<Seq<char>> {
    match model_as_array(c.get("playlist"@)) {
        Some(a) => strings_of(a),
        None => Seq::empty(),
    }
}

/// The paths as an array of strings.
pub open spec fn paths_array(paths: Seq<Seq<char>>) -> Seq<JsonModel> {
    Seq::new(paths.len(), |i: int| JsonModel::Str(paths[i]))
}

/// The document with the playlist's paths recorded.
pub open spec fn spec_save_playlist(c: JsonModel, paths: Seq<Seq<char>>) -> JsonModel {
    c.set("playlist"@, JsonModel::Array(paths_array(paths)))
}

/// The file paths of the tracks.
pub open spec fn track_paths(tracks: Seq<TrackInfo>) -> Seq<Seq<char>> {
    Seq::new(tracks.len(), |i: int| tracks[i].path@)
}

/// The views of a list of strings.
pub open spec fn strings_view(v: Seq<String>) -> Seq<Seq<char>> {
    Seq::new(v.len(), |i: int| v[i]@)
}

/// The text of a string value, or `default`.
fn str_member_or(v: Option<&JsonValue>, default: &str) -> (r: String)
    ensures
        r@ == str_or(
            match v {
                Some(x) => Some(x@),
                None => None,
            },
            default@,
        ),
{
    match v {
        Some(x) => match x.as_str() {
            Some(s) => s.clone(),
            None => to_owned_string(default),
        },
        None => to_owned_string(default),
    }
}

/// The member `key` of an optional value.
fn member_of<'a>(v: Option<&'a JsonValue>, key: &str) -> (r: Option<&'a JsonValue>)
    ensures
        match r {
            Some(x) => sub_get(
                match v {
                    Some(y) => Some(y@),
                    None => None,
                },
                key@,
            ) == Some(x@),
            None => sub_get(
                match v {
                    Some(y) => Some(y@),
                    None => None,
                },
                key@,
            ) is None,
        },
{
    match v {
        Some(x) => x.get(key),
        None => None,
    }
}

/// Records the theme in the document (`config["theme"] = "dark" | "light"`).
pub fn save_theme(config: &mut JsonValue, theme: &Theme)
    requires
        old(config)@.is_object_or_null(),
    ensures
        final(config)@ == spec_save_theme(old(config)@, *theme),
{
    config.set_field("theme", JsonValue::string(theme.as_str()));
}

/// The theme that the document records: dark unless it holds "light".
pub fn load_theme(config: &JsonValue) -> (r: Theme)
    ensures
        r == spec_load_theme(config@),
{
    match config.get("theme") {
        Some(v) => match v.as_str() {
            Some(t) => Theme::from_str(t.as_str()),
            None => Theme::Dark,
        },
        None => Theme::Dark,
    }
}

/// Records the assistant's settings in the document
/// (`config["ai"] = {"api_key": .., "model": ..}`).
pub fn save_ai_config(config: &mut JsonValue, ai_config: &AiConfig)
    requires
        old(config)@.is_object_or_null(),
    ensures
        final(config)@ == spec_save_ai_config(old(config)@, ai_config.api_key@, ai_config.model@),
{
    let mut m: Vec<(String, JsonValue)> = Vec::new();
    m.push((to_owned_string("api_key"), JsonValue::string(ai_config.api_key.as_str())));
    m.push((to_owned_string("model"), JsonValue::string(ai_config.model.as_str())));
    let section = JsonValue::Object(m);
    assert(section@ == ai_section(ai_config.api_key@, ai_config.model@)) by {
        assert(crate::json::members_view(m@) =~= seq![
            ("api_key"@, JsonModel::Str(ai_config.api_key@)),
            ("model"@, JsonModel::Str(ai_config.model@)),
        ]);
    }
    config.set_field("ai", section);
}

/// The assistant's settings that the document records; a missing key reads as empty and a
/// missing model as "deepseek-chat".
pub fn load_ai_config(config: &JsonValue) -> (r: AiConfig)
    ensures
        (r.api_key@, r.model@) == spec_load_ai_config(config@),
{
    proof {
        reveal_strlit("");
    }
    let ai = config.get("ai");
    AiConfig {
        api_key: str_member_or(member_of(ai, "api_key"), ""),
        model: str_member_or(member_of(ai, "model"), "deepseek-chat"),
    }
}

/// Records the speech settings in the document (`config["speech"] = {..}`).
pub fn save_speech_config(config: &mut JsonValue, speech: &SpeechConfig)
    requires
        old(config)@.is_object_or_null(),
    ensures
        final(config)@ == spec_save_speech_config(old(config)@, speech_view(*speech)),
{
    let mut m: Vec<(String, JsonValue)> = Vec::new();
    m.push((to_owned_string("access_key_id"), JsonValue::string(speech.access_key_id.as_str())));
    m.push(
        (to_owned_string("access_key_secret"), JsonValue::string(speech.access_key_secret.as_str())),
    );
    m.push((to_owned_string("app_key"), JsonValue::string(speech.app_key.as_str())));
    m.push((to_owned_string("voice"), JsonValue::string(speech.voice.as_str())));
    m.push((to_owned_string("enabled"), JsonValue::Bool(speech.enabled)));
    let section = JsonValue::Object(m);
    assert(section@ == speech_section(speech_view(*speech))) by {
        assert(crate::json::members_view(m@) =~= seq![
            ("access_key_id"@, JsonModel::Str(speech.access_key_id@)),
            ("access_key_secret"@, JsonModel::Str(speech.access_key_secret@)),
            ("app_key"@, JsonModel::Str(speech.app_key@)),
            ("voice"@, JsonModel::Str(speech.voice@)),
            ("enabled"@, JsonModel::Bool(speech.enabled)),
        ]);
    }
    config.set_field("speech", section);
}

/// The speech settings that the document records; missing keys read as empty, a missing
/// voice as "zhixiaoxia" and a missing switch as off.
pub fn load_speech_config(config: &JsonValue) -> (r: SpeechConfig)
    ensures
        speech_view(r) == spec_load_speech_config(config@),
{
    proof {
        reveal_strlit("");
    }
    let s = config.get("speech");
    let enabled = match member_of(s, "enabled") {
        Some(v) => match v.as_bool() {
            Some(b) => b,
            None => false,
        },
        None => false,
    };
    SpeechConfig {
        access_key_id: str_member_or(member_of(s, "access_key_id"), ""),
        access_key_secret: str_member_or(member_of(s, "access_key_secret"), ""),
        app_key: str_member_or(member_of(s, "app_key"), ""),
        voice: str_member_or(member_of(s, "voice"), "zhixiaoxia"),
        enabled,
    }
}

/// Records the tracks' file paths in the document (`config["playlist"] = [paths..]`).
pub fn save_playlist(config: &mut JsonValue, tracks: &[TrackInfo])
    requires
        old(config)@.is_object_or_null(),
    ensures
        final(config)@ == spec_save_playlist(old(config)@, track_paths(tracks@)),
{
    let mut a: Vec<JsonValue> = Vec::new();
    let mut i: usize = 0;
    while i < tracks.len()
        invariant
            i <= tracks.len(),
            a@.len() == i,
            forall|j: int| 0 <= j < i ==> (#[trigger] a@[j])@ == JsonModel::Str(tracks@[j].path@),
        decreases tracks.len() - i,
    {
        a.push(JsonValue::string(tracks[i].path.as_str()));
        i += 1;
    }
    assert(elems_view(a@) =~= paths_array(track_paths(tracks@)));
    config.set_field("playlist", JsonValue::Array(a));
}

/// The playlist's file paths that the document records: the strings of its "playlist"
/// array, in order; empty when there is none.
pub fn load_playlist_paths(config: &JsonValue) -> (r: Vec<String>)
    ensures
        strings_view(r@) == spec_load_playlist_paths(config@),
{
    let mut r: Vec<String> = Vec::new();
    match config.get("playlist") {
        Some(v) => match v.as_array() {
            Some(a) => {
                let ghost am = elems_view(a@);
                let mut i: usize = 0;
                while i < a.len()
                    invariant
                        i <= a.len(),
                        am == elems_view(a@),
                        strings_view(r@) =~= strings_of(am.take(i as int)),
                    decreases a.len() - i,
                {
                    assert(am.take(i + 1).drop_last() =~= am.take(i as int));
                    assert(am[i as int] == a@[i as int]@);
                    match a[i].as_str() {
                        Some(s) => {
                            r.push(s.clone());
                        },
                        None => {},
                    }
                    i += 1;
                }
                assert(am.take(a.len() as int) =~= am);
            },
            None => {},
        },
        None => {},
    }
    r
}

// ---------------------------------------------------------------------------
// Laws
// ---------------------------------------------------------------------------

proof fn lemma_keys_distinct()
    ensures
        "theme"@ != "ai"@,
        "theme"@ != "speech"@,
        "theme"@ != "playlist"@,
        "ai"@ != "speech"@,
        "ai"@ != "playlist"@,
        "speech"@ != "playlist"@,
{
    reveal_strlit("theme");
    reveal_strlit("ai");
    reveal_strlit("speech");
    reveal_strlit("playlist");
    assert("theme"@.len() != "ai"@.len());
    assert("theme"@[0] != "speech"@[0]);
    assert("theme"@[0] != "playlist"@[0]);
    assert("ai"@.len() != "speech"@.len());
    assert("ai"@.len() != "playlist"@.len());
    assert("speech"@.len() != "playlist"@.len());
}

/// Law: the theme read back from a document is the theme last saved to it.
pub proof fn law_theme_roundtrip(c: JsonModel, t: Theme)
    requires
        c.is_object_or_null(),
    ensures
        spec_load_theme(spec_save_theme(c, t)) == t,
{
    law_set_then_get(c, "theme"@, JsonModel::Str(spec_theme_name(t)), "theme"@);
    reveal_strlit("light");
    reveal_strlit("dark");
    assert("dark"@ != "light"@) by {
        assert("dark"@.len() != "light"@.len());
    }
}

/// Law: the assistant's settings read back from a document are those last saved to it.
pub proof fn law_ai_config_roundtrip(c: JsonModel, api_key: Seq<char>, model: Seq<char>)
    requires
        c.is_object_or_null(),
    ensures
        spec_load_ai_config(spec_save_ai_config(c, api_key, model)) == (api_key, model),
{
    law_set_then_get(c, "ai"@, ai_section(api_key, model), "ai"@);
    reveal_strlit("api_key");
    reveal_strlit("model");
    assert("api_key"@ != "model"@) by {
        assert("api_key"@.len() != "model"@.len());
    }
    let fs = seq![("api_key"@, JsonModel::Str(api_key)), ("model"@, JsonModel::Str(model))];
    assert(fs[0] == ("api_key"@, JsonModel::Str(api_key)));
    assert(fs.drop_first()[0] == ("model"@, JsonModel::Str(model)));
    assert(crate::json::member_value(fs, "api_key"@) == Some(JsonModel::Str(api_key)));
    assert(crate::json::member_value(fs.drop_first(), "model"@) == Some(JsonModel::Str(model)));
    assert(crate::json::member_value(fs, "model"@) == Some(JsonModel::Str(model)));
}

/// Law: the speech settings read back from a document are those last saved to it.
pub proof fn law_speech_config_roundtrip(
    c: JsonModel,
    s: (Seq<char>, Seq<char>, Seq<char>, Seq<char>, bool),
)
    requires
        c.is_object_or_null(),
    ensures
        spec_load_speech_config(spec_save_speech_config(c, s)) == s,
{
    law_set_then_get(c, "speech"@, speech_section(s), "speech"@);
    reveal_strlit("access_key_id");
    reveal_strlit("access_key_secret");
    reveal_strlit("app_key");
    reveal_strlit("voice");
    reveal_strlit("enabled");
    let fs = seq![
        ("access_key_id"@, JsonModel::Str(s.0)),
        ("access_key_secret"@, JsonModel::Str(s.1)),
        ("app_key"@, JsonModel::Str(s.2)),
        ("voice"@, JsonModel::Str(s.3)),
        ("enabled"@, JsonModel::Bool(s.4)),
    ];
    assert("access_key_id"@.len() != "access_key_secret"@.len());
    assert("access_key_id"@[1] != "app_key"@[1]);
    assert("access_key_id"@[0] != "voice"@[0]);
    assert("access_key_id"@[0] != "enabled"@[0]);
    assert("access_key_secret"@[1] != "app_key"@[1]);
    assert("access_key_secret"@[0] != "voice"@[0]);
    assert("access_key_secret"@[0] != "enabled"@[0]);
    assert("app_key"@[0] != "voice"@[0]);
    assert("app_key"@[0] != "enabled"@[0]);
    assert("voice"@[0] != "enabled"@[0]);
    assert(fs.drop_first() =~= seq![
        ("access_key_secret"@, JsonModel::Str(s.1)),
        ("app_key"@, JsonModel::Str(s.2)),
        ("voice"@, JsonModel::Str(s.3)),
        ("enabled"@, JsonModel::Bool(s.4)),
    ]);
    assert(fs.drop_first().drop_first() =~= seq![
        ("app_key"@, JsonModel::Str(s.2)),
        ("voice"@, JsonModel::Str(s.3)),
        ("enabled"@, JsonModel::Bool(s.4)),
    ]);
    assert(fs.drop_first().drop_first().drop_first() =~= seq![
        ("voice"@, JsonModel::Str(s.3)),
        ("enabled"@, JsonModel::Bool(s.4)),
    ]);
    assert(fs.drop_first().drop_first().drop_first().drop_first() =~= seq![
        ("enabled"@, JsonModel::Bool(s.4)),
    ]);
    let f1 = fs.drop_first();
    let f2 = f1.drop_first();
    let f3 = f2.drop_first();
    let f4 = f3.drop_first();
    assert(crate::json::member_value(f4, "enabled"@) == Some(JsonModel::Bool(s.4)));
    assert(crate::json::member_value(f3, "voice"@) == Some(JsonModel::Str(s.3)));
    assert(crate::json::member_value(f3, "enabled"@) == Some(JsonModel::Bool(s.4)));
    assert(crate::json::member_value(f2, "app_key"@) == Some(JsonModel::Str(s.2)));
    assert(crate::json::member_value(f2, "voice"@) == Some(JsonModel::Str(s.3)));
    assert(crate::json::member_value(f2, "enabled"@) == Some(JsonModel::Bool(s.4)));
    assert(crate::json::member_value(f1, "access_key_secret"@) == Some(JsonModel::Str(s.1)));
    assert(crate::json::member_value(f1, "app_key"@) == Some(JsonModel::Str(s.2)));
    assert(crate::json::member_value(f1, "voice"@) == Some(JsonModel::Str(s.3)));
    assert(crate::json::member_value(f1, "enabled"@) == Some(JsonModel::Bool(s.4)));
    assert(crate::json::member_value(fs, "access_key_id"@) == Some(JsonModel::Str(s.0)));
    assert(crate::json::member_value(fs, "access_key_secret"@) == Some(JsonModel::Str(s.1)));
    assert(crate::json::member_value(fs, "app_key"@) == Some(JsonModel::Str(s.2)));
    assert(crate::json::member_value(fs, "voice"@) == Some(JsonModel::Str(s.3)));
    assert(crate::json::member_value(fs, "enabled"@) == Some(JsonModel::Bool(s.4)));
}

proof fn lemma_strings_of_all_strings(paths: Seq<Seq<char>>)
    ensures
        strings_of(paths_array(paths)) == paths,
    decreases paths.len(),
{
    if paths.len() > 0 {
        lemma_strings_of_all_strings(paths.drop_last());
        assert(paths_array(paths).drop_last() =~= paths_array(paths.drop_last()));
        assert(paths.drop_last().push(paths.last()) =~= paths);
    } else {
        assert(paths_array(paths) =~= Seq::<JsonModel>::empty());
    }
}

/// Law: the paths read back from a document are those of the playlist last saved to it.
pub proof fn law_playlist_roundtrip(c: JsonModel, paths: Seq<Seq<char>>)
    requires
        c.is_object_or_null(),
    ensures
        spec_load_playlist_paths(spec_save_playlist(c, paths)) == paths,
{
    law_set_then_get(c, "playlist"@, JsonModel::Array(paths_array(paths)), "playlist"@);
    lemma_strings_of_all_strings(paths);
}

/// Law: saving one section of the settings leaves every other section as it reads before.
pub proof fn law_sections_independent(
    c: JsonModel,
    t: Theme,
    api_key: Seq<char>,
    model: Seq<char>,
    s: (Seq<char>, Seq<char>, Seq<char>, Seq<char>, bool),
    paths: Seq<Seq<char>>,
)
    requires
        c.is_object_or_null(),
    ensures
        spec_load_ai_config(spec_save_theme(c, t)) == spec_load_ai_config(c),
        spec_load_speech_config(spec_save_theme(c, t)) == spec_load_speech_config(c),
        spec_load_playlist_paths(spec_save_theme(c, t)) == spec_load_playlist_paths(c),
        spec_load_theme(spec_save_ai_config(c, api_key, model)) == spec_load_theme(c),
        spec_load_speech_config(spec_save_ai_config(c, api_key, model)) == spec_load_speech_config(c),
        spec_load_playlist_paths(spec_save_ai_config(c, api_key, model)) == spec_load_playlist_paths(c),
        spec_load_theme(spec_save_speech_config(c, s)) == spec_load_theme(c),
        spec_load_ai_config(spec_save_speech_config(c, s)) == spec_load_ai_config(c),
        spec_load_playlist_paths(spec_save_speech_config(c, s)) == spec_load_playlist_paths(c),
        spec_load_theme(spec_save_playlist(c, paths)) == spec_load_theme(c),
        spec_load_ai_config(spec_save_playlist(c, paths)) == spec_load_ai_config(c),
        spec_load_speech_config(spec_save_playlist(c, paths)) == spec_load_speech_config(c),
{
    lemma_keys_distinct();
    let tv = JsonModel::Str(spec_theme_name(t));
    let av = ai_section(api_key, model);
    let sv = speech_section(s);
    let pv = JsonModel::Array(paths_array(paths));
    law_set_then_get(c, "theme"@, tv, "ai"@);
    law_set_then_get(c, "theme"@, tv, "speech"@);
    law_set_then_get(c, "theme"@, tv, "playlist"@);
    law_set_then_get(c, "ai"@, av, "theme"@);
    law_set_then_get(c, "ai"@, av, "speech"@);
    law_set_then_get(c, "ai"@, av, "playlist"@);
    law_set_then_get(c, "speech"@, sv, "theme"@);
    law_set_then_get(c, "speech"@, sv, "ai"@);
    law_set_then_get(c, "speech"@, sv, "playlist"@);
    law_set_then_get(c, "playlist"@, pv, "theme"@);
    law_set_then_get(c, "playlist"@, pv, "ai"@);
    law_set_then_get(c, "playlist"@, pv, "speech"@);
}

} // verus!
