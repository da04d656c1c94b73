//! Secure erasure of storage targets.
//!
//! The crate holds the decision logic of a wipe engine: which targets exist,
//! which passes a policy asks for, which chunk is written next and what happens
//! when a write fails, how a read-back is judged, and which facility erases
//! vendor-hidden regions. Everything that touches a device is left to the
//! caller, who performs the [`job::Action`] a job hands out and reports back
//! with a [`job::Event`].

pub mod error;
pub mod hidden_area;
pub mod job;
pub mod locks;
pub mod memory;
pub mod orchestrator;
pub mod platform;
pub mod policy;
mod random;
pub mod target;
pub mod readback;
