//! A monophonic synthesizer voice.
//!
//! The library turns MIDI-style note events and five control parameters
//! (volume, attack, decay, sustain, release) into a stream of audio samples:
//! a sine oscillator shaped by a stateless ADSR envelope.
//!
//! Audio samples, times and parameters are IEEE 754 single-precision values.
//! The verifier does not reason about such values directly, so the library
//! carries each one as its raw 32-bit pattern in a `u32`, and performs the
//! arithmetic through the trusted operations of [`fbits`], which defer to a
//! software IEEE 754 implementation. Every contract is stated over those bit
//! patterns and the uninterpreted functions that name the arithmetic results.

pub mod fbits;
pub mod params;
pub mod voice;
