# claudio

The core of the Claudio desktop music player, verified with Verus.

- `src/` — the library, verified by Verus. A few small `external_body` wrappers call std
  and outside crates (string push and lower-casing, `Path::file_stem`, Base64, HMAC-SHA1,
  the clock); their contracts are trusted, not proved, and their doc comments say what
  each claims. Everything else has its contract checked:
  - `state.rs` — tracks, themes, playback state, the settings records; reading
    "Artist - Title" from a file name.
  - `commands.rs` — the player's commands (play, play/pause, stop, next, previous,
    add and remove tracks, settings) as state transitions that return what the audio
    player is asked to do.
  - `ai.rs` — the assistant's tools and their replies, the music card, and the
    conversation loop with the chat model (at most five requests per chat).
  - `config.rs` — where each setting lives in the JSON settings document, with
    round-trip laws for reading back what was saved.
  - `json.rs` — the JSON document model used by the settings and the web services.
  - `speech.rs` — signing the speech-service token request (percent-encoding,
    HMAC-SHA1, Base64), the synthesis and recognition requests and their replies.
  - `text.rs` — character-level helpers (search, trim, decimal text).
- `app/` — the Tauri shell: audio output, files, HTTP, events and the volume.
- `tests/` — tests on concrete values.
