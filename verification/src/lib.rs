//! The logic of a voice chat application: record a question, transcribe
//! it, ask a chat provider, show the streamed answer and read it aloud.
//!
//! Nothing here performs input or output. Each component is a state
//! machine over plain values: it is told what happened and answers with
//! the next thing to do, which the application around it carries out.
//!
//! - [`coordinator`] holds the state of the application and decides what
//!   every user action and every event leads to.
//! - [`recorder`], [`chat`] and [`voice`] are the three sessions that run
//!   beside it: audio capture, the streaming conversation, and speech.
//! - [`transcribe`] frames a run of the speech-to-text engine.
//! - [`meter`] holds the integer side of the level meter.
//! - [`config`], [`language`] and [`text`] hold the settings, the
//!   transcription languages and the text helpers that the others share.
//!
//! Every type that holds text has a model over `Seq<char>`, reached with
//! `@` (with `model()` for the state of the application), and every
//! contract is stated over these models.

pub mod chat;
pub mod config;
pub mod coordinator;
pub mod language;
pub mod meter;
pub mod recorder;
pub mod text;
pub mod transcribe;
pub mod voice;
