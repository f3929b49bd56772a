# Baseus Desktop — verified core

The logic of an unofficial desktop client for Baseus earbuds, written in
Verus: every function in `src/` carries a contract that Verus proves.

- `src/protocol/` — BA/AA framing, the BP1 packet table (command encoding,
  notification decoding), the 789C+CRC wrapping, advertisements, the model
  catalog, profiles and command routing.
- `src/device/` — the first-connect handshake, startup queries and device
  resolution.
- `src/ble/` — scan results, the live link state (battery merging, noise
  mode), GATT characteristic choice and raw hex writes.
- `src/capture/` — Capture Studio: the frame journal, guided steps, hints and
  the markdown export.
- `src/ui.rs` — UI mode names, version comparison and update results.
- `src/laws.rs` — properties of the library as a whole.
- `app/` — the Tauri shell and btleplug I/O around the library.
