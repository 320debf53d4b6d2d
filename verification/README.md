# laser_dac

Verified core of a laser DAC streaming library, written in Rust and proved with Verus.

- `src/backend.rs` — device traits and `BackendKind`, which keeps the runtime kind of a
  device in agreement with the output model that it advertises.
- `src/session.rs` — desired arm state, rate, stop request, and the shared control handle.
- `src/presentation/` — the scheduler loop. `transition` and `driver` decide step by step,
  `perform` and `handler` act on backends, sources and adapters, and the `*_laws` modules
  prove what holds of every run: nothing opens the shutter without the whole preparation,
  a stop that the loop sees is answered by a close command, and a device that takes the
  place of a lost one starts over disarmed.
- `src/protocols/audio_sink.rs` — bounded sample queue of the audio-clocked backends.
- `src/protocols/idn/` — ILDA Digital Network: chunk building, buffer pool, connecting, and
  the worker that sends chunks and watches that the device is alive.

`app/` holds what touches the machine: threads, channels, clocks and audio streams. Loops
that never end by themselves live there; they perform the action that a machine of the
library names and hand back the reply.

`crossbeam_queue::ArrayQueue` and `std::sync::mpsc::Sender` are used through the trusted
declarations in `src/protocols/queue.rs` and `src/session.rs`.
