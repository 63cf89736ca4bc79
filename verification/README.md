# typr

The verified core of Typr, a push-to-talk dictation tool for the desktop.

- `src/mouse_listener.rs`: side mouse buttons as push-to-talk and hands-free
  triggers; the event state machine (capture, debounce of phantom releases,
  suppression of bound buttons) with its laws.
- `src/recorder.rs`: the recorder's phases (ready, recording, transcribing) and
  the steps of a stop-and-transcribe run (every run ends ready again), the
  tray icon and tooltip per phase, and decoding the embedded tray icons.
- `src/transcribe_local.rs`: model file names and download addresses, the
  whisper.cpp binary name and command line, and what its output means.
- `src/control.rs`: how the hotkey, the tray and the mouse buttons become
  recorder commands.
- `src/text.rs`: trimming, first lines, decimal numbers.
- `app/`: the Tauri program around the library (windows, tray, global hotkey,
  mouse hook, processes, keychain).
