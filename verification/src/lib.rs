//! Supervision of a single local backend process: how it is launched, who owns
//! its handle, and how it is shut down exactly once.

pub mod launcher;
pub mod lifecycle;
pub mod shared;
pub mod supervisor;
pub mod teardown;
