# fluent_flyout

The verified core of a Windows media-flyout companion: the settings file and its
legacy mirror, monitor ordering and window placement, the taskbar widget's layout
and visualizer drawing, media-session state, keyboard-driven flyout decisions and
the tray and host-process commands.

- `src/` is the library, written in Verus. Every function there carries a contract
  that Verus proves; the public proof functions state the properties that span
  several functions (for example `saved_settings::lemma_save_reads_back`,
  `saved_settings::lemma_save_keeps_other_settings` and
  `legacy_roundtrip::lemma_legacy_roundtrip`).
- `tests/` exercises the library on concrete values.
- `app/` is the unverified shell around it: the Windows, Slint and Tauri plumbing,
  file and database I/O, and the floating-point audio and scaling code.
