//! A polyphonic, envelope-driven synthesis core.
//!
//! A bank of independently triggerable amplitude envelopes is advanced once
//! per audio sample by a render thread while a control thread triggers notes
//! and swaps the active waveform. All sharing goes through atomic cells.
//!
//! Amplitudes are fixed-point integers: the caller picks the scale and keeps
//! every coefficient of a voice in it.

pub mod atomic_float;
pub mod bank;
pub mod control;
pub mod envelope;
pub mod keyboard;
pub mod mixer;
pub mod text;
pub mod trajectory;
pub mod voice;
pub mod waveform;
