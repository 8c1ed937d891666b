//! Host logic for a native window that embeds a browser rendering engine.
//!
//! The crate holds the decisions of such a host as verified functions on plain
//! values: how large the window is made and where it is put, which style bits
//! it carries, how a platform message is routed, how work from other threads
//! reaches the owning thread, and how maximize, minimize and fullscreen are
//! entered and left again. The platform calls themselves are made by the
//! embedding program, which feeds what it reads into these functions and
//! carries out the commands they return.

pub mod chrome;
pub mod controller;
pub mod creation;
pub mod dispatch;
pub mod engine;
pub mod geometry;
pub mod host;
pub mod messages;
pub mod registry;
pub mod style;
pub mod text;
pub mod window;
