//! A fixed-rate data-acquisition recorder library.
//!
//! A sampler reads a hardware register image at a strict cadence and packages
//! each sample into a record; a recorder persists the stream of records into
//! rotating, day-bounded archive sessions and drains every pending record on
//! shutdown.  This crate holds the verified core: register decoding, tick
//! scheduling, session lifecycle and rotation, the shutdown drain protocol,
//! and the archive entry layout.

pub mod clock;
pub mod decode;
pub mod entry;
pub mod errors;
pub mod layout;
pub mod pipeline;
pub mod record;
pub mod recorder;
pub mod scheduler;
pub mod timefmt;
