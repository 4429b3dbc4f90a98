# hmi

A verified library for a small pair of ESP32-S3 human-machine interfaces: a
300x400 reflective panel driven by an ST7305 controller with two buttons,
and a 172x640 touch panel. The state, the navigation and media decisions,
the file formats, the display lists, the panel's bus plans with their
stop-at-first-failure rule, the boot and power-off sequences and the loop
schedules are written in Verus under `src/` and proved against their
contracts. The hardware, files, radio, the pixel painting and the loops
that sleep and call the hardware stay in `app/`, following those plans.

## Library (`src/`)

- `dashboard`: the shared state, the button and tap navigation tables, the
  bounded event history, and the laws of navigation.
- `input`, `runloop`: button debouncing, long presses, display pacing, tap
  release, power-key hold and the other per-loop decisions.
- `device`, `telemetry`: sensor, clock, battery, storage and microphone
  readings folded into the state; level history ring.
- `media`, `touch_runtime`: what each user action does to the recorder,
  player, viewer and settings, as plans the firmware carries out.
- `wav`, `files`, `library`, `preview`, `eventlog`, `console`, `text`:
  WAV headers and PCM, SD paths and names, file lists, text and hex pages,
  the NDJSON event log, the serial console and number formatting.
- `draw`, `rlcd`, `touch_ui`: both dashboards as display lists, each with an
  exact description of what it shows; `st7305`, `touch349`, `graphics`:
  frame buffers, panel command sequences (with the boot order and the
  failure rule of a bus plan) and touch packets.
- `calendar`: the Gregorian calendar behind the touch clock's dates.

## Around it (`app/`)

The simulator (`main.rs`, which renders a fixture to PNG), the painter from
display lists to `embedded-graphics`, the panel bus executor, and the two
firmware loops over board traits that perform the library's plans.
