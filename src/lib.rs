//! The decision core of a terminal application's run loop: reserved key
//! chords, self-terminating action chains, and the draw / poll / dispatch
//! cycle, each stated and proved over plain values.

pub mod action;
pub mod event;
pub mod guard;
pub mod run_loop;
