//! Cue-trigger ingestion for a "next cue" stage monitor: OSC datagrams are
//! decoded, their address is matched against a configured pattern, and the
//! captured cue identifier travels through an ordered channel to the display.

pub mod channel;
pub mod display;
pub mod listener;
pub mod matcher;
pub mod packet;

pub use channel::{CueChannel, CueEvent};
pub use display::Display;
pub use listener::{Listener, Outcome};
pub use matcher::{Matcher, PatternError};
pub use packet::{decode, DecodeError, Packet, MAX_DATAGRAM};
