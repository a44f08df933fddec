//! A keyboard-driven tone generator: exact PCM waveform synthesis, the sink
//! protocol that keeps one looping buffer alive, and the decisions of the
//! control loop that maps keys to tones.

pub mod rational;
pub mod waveform;
pub mod generator;
pub mod keys;
pub mod sink;
pub mod tone;
pub mod control;
pub mod failure;
pub mod report;
