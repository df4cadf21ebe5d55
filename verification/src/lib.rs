//! Core of a pi-digit memorization trainer.
//!
//! The library is the training session engine: it judges typed digits
//! against a fixed reference sequence of decimal digits, maintains the
//! window of cells currently shown to the trainee, enforces the rules of
//! three training modes, drives a countdown that can end a session, and
//! persists user preferences in a compact fixed-width binary record.
//!
//! Rendering, scheduling and file I/O stay outside: a shell feeds key
//! events, preference changes and timer ticks into [`session::AppModel`]
//! and reads back a snapshot after each step.

pub mod cell;
pub mod codec;
pub mod config;
pub mod mode;
pub mod prefs;
pub mod session;
pub mod stream;
pub mod ticker;
pub mod window;

pub use cell::{PiDigitModel, PiDigitState};
pub use codec::{PrefsDecodeError, PrefsRecord};
pub use mode::AppMode;
pub use prefs::AppPreferences;
pub use stream::DigitStream;
pub use window::WindowBuffer;
