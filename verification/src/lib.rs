//! Core of a scrolling tiling window manager: geometry, configuration rules,
//! border rendering, animation scheduling and command handling.
//!
//! Everything here computes on plain values. Window handles, files, sockets and
//! clocks belong to the program around this library, which hands values in and
//! acts on the values that come back.
pub mod animation;
pub mod autostart;
pub mod borders;
pub mod cli;
pub mod common;
pub mod config;
pub mod paths;
pub mod text;
