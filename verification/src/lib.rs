//! Core of a single-window video-player front end: the widget program that
//! turns play/pause/seek interactions into playback instructions, the runtime
//! bridge that translates raw window events and drives update/redraw cycles,
//! and the shared viewport cell that tells the external renderer where the
//! video surface sits on screen.
//!
//! Everything here works on plain values; window creation, GPU drawing and
//! media decoding are external collaborators driven from outside this crate.

pub mod gui;
pub mod playback;
pub mod runtime;
pub mod viewport;
