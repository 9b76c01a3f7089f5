//! The decisions behind a bridge from Chaplin, which reads lips, to screen-click, which clicks
//! on what it is told.
//!
//! Chaplin types what it has read on a virtual keyboard. The bridge captures that keyboard,
//! gathers the characters into sentences, and sends each sentence to screen-click as a line.
//! This library holds what the bridge decides; reading devices, running processes and writing
//! lines is left to the program that runs it.

pub mod children;
pub mod course;
pub mod devices;
pub mod dictation;
pub mod errors;
pub mod input;
pub mod keys;
pub mod launch;
pub mod manual;
pub mod sentences;
pub mod session;
pub mod status;
pub mod text;
pub mod watch;
