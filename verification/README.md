# tafd

The verified core of a typewriter acoustic feedback daemon: a background
process that plays a mechanical click for every key press.

Layout:

- `src/` — the library, verified with Verus.
  - `config.rs`: the configuration model, its defaults, the merge of a
    configuration overlay (file or command line) onto a base, the layering
    used at startup, and the keycode-to-sample lookup table.
  - `mixer.rs`: the fixed pool of voices with round-robin voice stealing; a
    render step says, per voice, which frames of which sample it adds.
  - `engine.rs`: the keycode-to-sample lookup, draining the key queue into
    the mixer, output stream negotiation and output device choice.
  - `input.rs`: the platform backends' key-event filters (with the held-key
    state of the Windows hook), evdev keyboard detection and device scan
    bookkeeping.
  - `queue.rs`: the bounded key queue between the input thread and the audio
    callback.
  - `sample_loader.rs`: which files make up a sound pack, or which built-in
    clicks are used when no pack directory is set.
  - `error.rs`: the error type.
- `app/` — the daemon around the library: command line, TOML files, audio
  output, reading WAV files, the built-in click sounds, the floating-point
  mixing, platform input hooks, threads and signals.
- `tests/` — tests of the library.
