//! A small login screen: credentials and image paths come from a JSON
//! configuration, a two-screen state machine decides when the user is let in.

pub mod config;
pub mod image;
pub mod screen;
