//! A single-session focus timer: the state machine that runs one interval at a
//! time, the decisions of its background tick loop, and the small rules around
//! where its database lives.
pub mod clock;
pub mod timer;
pub mod laws;
pub mod location;
pub mod reports;
pub mod tasks;
