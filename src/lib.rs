//! Volume control for a status-bar element, backed either by a command-line
//! mixer or by an event-driven sound-server client.
//!
//! The library holds the decisions and the state; the program around it runs
//! the mixer, the sound-server connections and the threads, and hands the
//! results over as plain values.
pub mod client;
pub mod config;
pub mod connection;
pub mod device;
mod error;
pub mod mixer_command;
pub mod mixer_output;
pub mod sound;
pub mod volume;

pub use client::{Facility, PulseAudioClient, Request, SinkListItem};
pub use config::{SoundConfig, SoundDriver};
pub use connection::{ContextState, IterateResult, PulseAudioConnection};
pub use device::{AlsaSoundDevice, PulseAudioSoundDevice, SoundDevice};
pub use error::SoundError;
pub use sound::Sound;
pub use volume::ChannelVolumes;
