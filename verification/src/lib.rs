//! Locating known reference tracks inside the audio of a video.
//!
//! The audio is scanned in sliding windows. Each window is classified
//! against a library of fingerprints, and the classifications are stitched
//! into continuous segments. Long-running tasks carry a cancellation flag,
//! register the external processes they start, and wait their turn at the
//! gate of the resource they need.
//!
//! The work on files, processes and threads is the caller's: it reads and
//! runs, and hands in what it found. Times are whole milliseconds, and
//! fractions are fixed-point numbers.

pub mod config;
pub mod cut;
pub mod detection;
pub mod error;
pub mod export;
pub mod fingerprint;
pub mod gate;
pub mod library;
pub mod matcher;
pub mod models;
pub mod order;
pub mod preview;
pub mod progress;
pub mod registry;
pub mod scan;
pub mod separation;
pub mod stitch;
pub mod supervise;
pub mod system;
pub mod task;
pub mod table;
pub mod text;
pub mod tools;
pub mod utils;
pub mod window;
