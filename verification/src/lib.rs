//! Bridges position telemetry into Cursor-on-Target events.
//!
//! The crate holds the rules of the bridge: the validity window of an
//! event and its timestamps, the cyclic waypoint counter of the synthetic
//! orbit, the handling of positioning-daemon records, the three event
//! documents, and the scheduler that paces delivery. Sockets, clocks and
//! trigonometry stay with the caller.

pub mod timestamp;
pub mod sample;
pub mod cot;
pub mod orbit;
pub mod feed;
pub mod dispatch;
