//! Drives haptic controllers in step with a tracker timeline: pitch and timbre
//! become waveform timings, per-channel routines decide what plays on each tick,
//! and each decision is encoded as a control packet for the device that owns
//! the channel.
pub mod music;
pub mod routines;
pub mod device_io;
pub mod playback_timer;
pub mod module_parser;
