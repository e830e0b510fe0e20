//! Core of a camera control application: a device worker that owns the
//! exclusive camera handle, the message protocol between the frontend and the
//! worker, the camera settings tree with its partial-update semantics, and the
//! adaptive preview-polling loop, all with verified contracts.
//!
//! The unverifiable edges (threads, channels, the native camera library, file
//! I/O and rendering) live in the accompanying application; this crate holds
//! every decision those edges act on.

pub mod camera_loop;
pub mod config_file;
pub mod error;
pub mod messages;
pub mod preview;
pub mod settings;
pub mod state;
