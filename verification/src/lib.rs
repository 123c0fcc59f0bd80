//! Persistent state of a fleet agent: the failure record that outlives a
//! crash and the reboot context that carries work across an intended reboot.
//!
//! The crate performs no input or output itself. Every operation is a small
//! state machine that names the next thing its host has to do and decides
//! what follows from the host's reply.

pub mod context;
pub mod error;
pub mod failure;
pub mod failure_laws;
pub mod machine_id;
pub mod model;
pub mod paths;
pub mod protocol;
pub mod reboot;
pub mod reboot_laws;
pub mod text;
