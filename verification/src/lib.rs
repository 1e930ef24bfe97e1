//! Typewriter acoustic feedback: the verified core of the daemon.
//!
//! The library holds the configuration model and its merge rules, the
//! round-robin voice-stealing mixer state machine, the key-event filters of
//! the platform input backends, the bounded input queue glue and the audio
//! stream negotiation. Everything that touches the operating system, the
//! audio device or floating-point sample data lives in the binary around it.

pub mod config;
pub mod error;
pub mod mixer;
pub mod queue;
pub mod engine;
pub mod input;
pub mod sample_loader;

pub use config::{build_key_lut, merge_config, AudioConfig, Config, InputConfig, SoundPackConfig, MAX_VOICES};
pub use error::TafdError;
pub use input::{create, LinuxInput, MacosInput, Win32Input};
pub use mixer::{Mixer, Voice};
