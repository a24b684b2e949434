//! Capture pipeline of a display mirror.
//!
//! A frame is one sample of a display's pixels together with, where it could be
//! had, one snapshot of the system cursor. The crate holds the rules by which
//! samples become frames and by which frames reach a consumer. Reading the
//! display, querying the cursor, reading the clock and running threads are the
//! caller's part: every function here takes what was read as plain values.

pub mod assembler;
pub mod cursor;
pub mod frame;
pub mod sequential;
pub mod sink;
pub mod strategy;
pub mod threaded;
pub mod verbosity;
