//! Verified core of the UNI-T UT61E+ multimeter tools: remote command
//! encoding, status flag and mode decoding, frame extraction for the
//! `AB CD` framed protocols, and the logic behind the desktop display
//! (graph history, status badges, specification text, version label and
//! command-line option).

pub mod command;
pub mod error;
pub mod flags;
pub mod graph;
pub mod gui;
pub mod measurement;
pub mod mode;
pub mod protocol;
pub mod specs;
pub mod text;
pub mod transport;
