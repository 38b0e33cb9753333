//! Verified core of a serial diagnostic scan tool for one ECU family.
//!
//! The crate covers the wire-protocol message codec, the raw-byte to
//! engineering-value decoders, the time-integrated fuel/trip accumulator,
//! the toggle-debounce state machine that gates trip resets, and the
//! text format of the persisted trip counters. Transport, clock and file
//! store are collaborators: callers hand in bytes and timestamps and
//! carry the results out.

pub mod context;
pub mod sdl;
pub mod toggle_detector;
pub mod trip_record;
