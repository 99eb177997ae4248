//! The core of an RDP client: servers and credentials, desktop sizes, keyboard and mouse input,
//! the clipboard, the session worker and the state behind the window.
//!
//! Everything here works on plain values. The program around it owns the window, the sockets,
//! the threads and the files.

pub mod clipboard;
pub mod config;
pub mod connection;
pub mod desktop;
pub mod input;
pub mod input_events;
pub mod input_mirror;
pub mod input_state;
pub mod picture;
pub mod session;
pub mod text;
pub mod window;
pub mod worker;
pub mod worker_runs;
pub mod worker_steps;
