//! Core of a live additive synthesizer: the closed set of waveforms, the
//! oscillator bank with its replace-or-append update protocol, the rules that
//! turn an operator's command into an update, and the render loop that drains
//! pending updates from the control channel.
pub mod waveform;
pub mod bank;
pub mod render;
pub mod control;
