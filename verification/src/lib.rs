//! Push-to-talk dictation pipeline.
//!
//! Audio that was captured while a hotkey was held is brought to a
//! canonical form, sent to a speech-recognition backend, and comes back as
//! text. This library holds the rules of that pipeline and proves them;
//! devices, connections and clocks belong to the program around it, which
//! performs what the library decides and reports what happened.
//!
//! - [`sample`], [`audio`], [`pcm`], [`wav`]: samples, the geometry of
//!   their conversion, and the wire formats.
//! - [`recorder`], [`streaming`]: the capture engine's bookkeeping.
//! - [`session`], [`commands`], [`events`], [`transcript`], [`replay`]:
//!   the streaming transcription protocol.
//! - [`asr`], [`fallback`]: the batch backends and the race between them.
//! - [`coordinator`], [`config`]: the running state and the settings.
//! - [`text`], [`json`], [`encoding`], [`error`]: what the others share.

pub mod asr;
pub mod audio;
pub mod commands;
pub mod config;
pub mod coordinator;
pub mod encoding;
pub mod error;
pub mod events;
pub mod fallback;
pub mod json;
pub mod pcm;
pub mod recorder;
pub mod replay;
pub mod sample;
pub mod session;
pub mod streaming;
pub mod text;
pub mod transcript;
pub mod wav;
