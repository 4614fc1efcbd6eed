//! Supervision core of a desktop launcher: it starts a local server process
//! with bounded retries, waits for its port to accept connections, and stops
//! it exactly once when the application shuts down.
//!
//! Every decision is made here, on plain values; the host program performs
//! the spawning, the connecting, the sleeping and the killing, and reports
//! back what happened.
pub mod launcher;
pub mod prober;
pub mod supervisor;
pub mod terminator;
