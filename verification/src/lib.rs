//! Capture-and-forward core of a key remapper.
//!
//! The crate decides; the program around it performs. Every blocking or
//! privileged operation (probing the output sink, reading a device, writing a
//! raw event, handing an event downstream, sleeping, releasing and re-seizing
//! devices) is described by a [`event_loop::Request`]; the caller carries it out
//! and reports what happened as a [`event_loop::Outcome`]. Between the two the
//! crate holds the whole protocol: key-state deduplication, the routing of each
//! captured event, and the release / wait / regrab cycle that keeps the
//! keyboard usable while the output sink is away.

pub mod event;
pub mod key_set;
pub mod tracker;
pub mod error;
pub mod capture;
pub mod event_loop;
pub mod runs;
pub mod kanata;
