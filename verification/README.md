# hardware_alarm

A desktop watcher that raises an alarm sound and a desktop notice when CPU
load, memory use or CPU temperature crosses a limit set by the user.

- `src/` is the verified library (Verus): the settings (`config`), the
  shaping of the alarm sound (`effects`), the notices (`notice`), the choice
  of sound files (`sounds`), the run state and its commands (`state`) and the
  decisions of the watchers (`watch`).
- `app/` is the Tauri shell around it: commands, sensor readings, task
  spawning, audio playback and `notify-send`.
- `tests/` runs the library on concrete values.
