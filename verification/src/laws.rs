//! What the operations of the library promise, stated of their calls.
//!
//! A law takes the inputs and the result of one or more calls, requires that the calls have
//! been made, and says what then holds of them.

pub mod adding;
pub mod commanding;
pub mod listing;
pub mod playing;
pub mod requesting;
pub mod saving;
pub mod searching;
pub mod telling;
