//! Protocol-side pieces: the audio sample queue and the IDN sender.
pub mod audio_sink;
pub mod audio_sink_laws;
pub mod idn;
pub mod queue;
