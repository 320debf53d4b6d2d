//! Verified core of a laser DAC streaming library.
//!
//! - [`backend`] wraps a FIFO or frame-swap device behind one type and keeps its
//!   runtime kind in agreement with the capabilities it advertises.
//! - [`session`] holds the arm/disarm/stop/rate state of a running session.
//! - [`presentation`] decides, step by step, what the scheduler loop does.
//! - [`protocols`] holds the audio sample queue and the IDN sender.
//!
//! Beside each of these, modules whose names end in `_laws` and `_order` state what holds over
//! all inputs and all runs, in terms of what goes in and what comes out.
pub mod abstract_state;
pub mod backend;
pub mod backend_laws;
pub mod device;
pub mod error;
pub mod point;
pub mod presentation;
pub mod protocols;
pub mod session;
pub mod session_laws;
pub mod text;
pub mod text_laws;
pub mod types;
