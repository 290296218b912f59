//! An operator console for a publish/subscribe broker, as a verified core.
//!
//! The crate holds the decisions of the console and none of its I/O: the
//! broker session with its lifecycle and validation rules, the queue that
//! merges keyboard, timer and broker events into one stream, and the
//! interaction state machine over the editable fields. A caller performs the
//! transport and terminal work that these functions ask for and hands the
//! outcome back as plain values.

pub mod application;
pub mod clock;
pub mod events;
pub mod keys;
pub mod log;
pub mod nats;
pub mod text;
