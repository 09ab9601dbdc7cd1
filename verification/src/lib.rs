//! Control core for a single media-playback engine session.
//!
//! A [`session::Session`] owns at most one instance of a playback engine
//! and offers five operations on it: initialize, toggle play and pause,
//! load a file, seek, and query the playback state. The engine itself is
//! out of reach of this crate. An operation is a short exchange: the
//! session names a call, the embedding program carries it out and hands
//! back the reply, and the session decides what comes next.
//!
//! - [`engine`] names the calls and the replies.
//! - [`session`] holds the session and the step-by-step decisions.
//! - [`trace`] describes whole exchanges as sequences of replies.
//! - [`operations`] plays whole operations against an engine given as a
//!   function, under one exclusive borrow of the session.
//! - [`laws`] states what holds of the operations taken together.
//! - [`state`] and [`error`] hold what operations return.
//! - [`info`] holds two small facts for the host.
//!
//! Callers that share a session put it behind a lock. As every operation
//! borrows the session exclusively for its whole exchange, the engine then
//! never sees the calls of two operations interleaved.

pub mod engine;
pub mod error;
pub mod info;
pub mod laws;
pub mod operations;
pub mod session;
pub mod state;
pub mod trace;

pub use crate::info::{get_system_info, hello_from_rust};
pub use crate::operations::{
    media_get_state, media_init, media_load_video, media_play_pause, media_seek,
};
pub use crate::state::PlaybackState;
