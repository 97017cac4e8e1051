//! Core of a live network diagnostic tool that watches one UDP-carried
//! application protocol: it classifies captured Ethernet frames, keeps only
//! IPv4/UDP traffic touching a target port, assigns each traffic source a
//! stable display color drawn round-robin from a fixed palette, and formats
//! one report line per frame of interest.
//!
//! Everything that decides or computes lives here and is verified; the capture
//! device, the protocol codec and the log sink are collaborators that the
//! surrounding binary drives, handing plain values in and out.

pub mod color;
pub mod config;
pub mod device;
pub mod filter;
pub mod frame;
pub mod pipeline;
pub mod report;
pub mod text;
