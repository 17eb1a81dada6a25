//! The decisions of an e-reader for an online archive: what the reader does
//! when a button is pressed, the cover closes, the battery runs low or a page
//! answers, and what its desktop emulator does in its place.
//!
//! The library holds the state that the decisions read and turns each event
//! into a list of actions. The program around it performs the actions.

pub mod action;
pub mod answer;
pub mod canvas;
pub mod dispatch;
pub mod emulator;
pub mod keys;
pub mod laws;
pub mod lifecycle;
pub mod navigation;
pub mod pages;
pub mod power;
pub mod session;
pub mod tasks;
pub mod text;
pub mod timers;
pub mod vocabulary;
