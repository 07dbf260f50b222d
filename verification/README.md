# r2_core

Control core of a differential-drive robot, verified with Verus.

`src/` is the verified library:

- `control/safety.rs` — the fail-safe state machine (`Run`, `EmergencyBrake`,
  `SafeStop`) driven by classified distance readings, with its laws.
- `config/` — controller, runtime and driver configuration and the override
  merge, with the laws of layering (empty layers, composition, idempotence).
- `settings.rs` — simulator settings merged from a file layer and a
  command-line layer, and the splitting of `x,y` obstacle text.
- `paths.rs` — a path written in a configuration file, resolved against the
  file's directory.
- `profile.rs`, `text.rs` — velocity-profile names and the text helpers they
  need (Unicode white space, trimming, ASCII case folding).
- `drivers.rs`, `replay.rs` — the desktop drivers and stdout telemetry.

The library is generic over the runner's number type: everything that
computes with floating point (PID, adaptive gain, kinematics, profiles,
distance classification) and everything that does I/O (command line, files,
GPIO, the Bevy simulator) is in `app/`, which calls the library for the
decisions it verifies.
