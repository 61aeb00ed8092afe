//! Verified core of a desktop text-to-speech reader: the playback queue,
//! the player and transcriber decisions, shortcut parsing, the voice catalog,
//! the model cache and the phoneme tokenizers.
pub mod text;
pub mod queue;
pub mod player;
pub mod playback;
pub mod hotkey;
pub mod shortcut_keys;
pub mod errors;
pub mod language;
pub mod phonemes;
pub mod catalog;
pub mod pool;
pub mod transcriber;
pub mod commands;
pub mod overlay;
pub mod clipboard;
