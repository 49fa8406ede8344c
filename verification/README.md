# audio-switcher

The logic of a Windows tray tool that switches the default audio device,
toggles mute and caps the master volume, written in Verus and proved against
its contracts.

## Layout

- `src/` — the verified library. Configuration (migration, clamping, the
  comment-stripping JSONC reader, the saved file's header), hotkey parsing and
  printing, menu ids, tray menu plans, autostart plans and command lines, the
  overlay geometry, theme selection, the wheel/click hand-off of the mouse
  hook, and the decisions of the main loop (timers, retries, the volume
  mirror). Laws that relate several functions are public `lemma_*` proof
  functions next to the code they speak of.
- `tests/` — executable tests of the library on concrete values.
- `app/` — the Windows program around the library: COM, the registry, the
  task scheduler, `ShellExecuteW`, the tray icon and its menu, file I/O and
  logging. It hands the library plain values and acts on what comes back.

Verify with Verus on `src/lib.rs`; the tests run with `cargo test`.
