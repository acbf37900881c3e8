//! Verified core of a small interrupt-driven radio node: a priority
//! dispatcher for run-to-completion tasks, a priority-ceiling lock for state
//! shared between tasks, and the protocol state of a packet-radio driver.

pub mod clock;
pub mod task;
pub mod model;
pub mod lemmas;
pub mod scheduler;
pub mod laws;
pub mod lock;
pub mod radio;
pub mod node;
