# VoiceForge

Universal voice typing: hold a hotkey, speak, release, and the words are typed where the
cursor is. VoiceForge lives in the system tray; the microphone is used only while the
hotkey is held.

## Layout

- `src/` — the library, verified with Verus: configuration and its defaults, the
  dictation controller (a state machine from events to actions), the hotkey mapping and
  the keyboard-hook decisions, down-mixing of audio samples, WAV and PCM encoding, the
  speech providers' request details and message handling, the Whisper model catalog and
  download progress, the text-injection steps with the clipboard fallback, the tray and
  settings-window decisions, the tray badge, and the API-key vault outcomes.
- `tests/` — tests of the library on concrete values.
- `app/` — the program around the library: the settings window (eframe), the tray
  (tray-icon), microphone capture (cpal), keystrokes and clipboard (enigo, arboard),
  the speech providers' network and inference calls (reqwest, tokio-tungstenite,
  whisper-rs), the configuration file (TOML), logging and launch at sign-in.

Calls into outside crates that the library makes (keyring, image, global-hotkey) sit
behind small trusted wrappers whose contracts are stated next to them.
