//! An in-process job dispatcher: a closeable first-in-first-out store of
//! pending jobs, producer handles that append to it, and a dispatch loop
//! that drains it one cycle at a time.

pub mod job;
pub mod state_machine;
pub mod event_sourcing;
pub mod job_handler;
