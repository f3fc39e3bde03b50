//! Kokoro text-to-speech around a verified core: the WAV encoding of the
//! generated speech, the engine configuration, the tokenizer vocabulary, and
//! the decisions of the interactive and demo sessions.

pub mod config;
pub mod demo;
pub mod session;
pub mod text;
pub mod vocab;
pub mod wav;

pub use config::{GraphOptimizationLevel, TTSConfig};
pub use demo::{run_kokoro, run_kokoro_with_text, KokoroRun};
pub use session::InteractiveTTS;
