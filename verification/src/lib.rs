//! Host-side controller core for a two-channel (warm/cold) LED rig driven
//! over a serial link.
//!
//! The crate holds the verified update engine: the shared lighting state and
//! its invariants, the waveform evaluator, the schedule reconciliation state
//! machine, the binary protocol encoder, the transport retry policy, and the
//! debounced persistence decisions. Blocking work (serial and file I/O,
//! sleeping, thread parking) stays with the caller, which hands plain values
//! in and takes plain values back.

pub mod state;
pub mod wave;
pub mod codec;
pub mod duration;
pub mod schedule;
pub mod tick;
pub mod retry;
pub mod debounce;
