//! Bounded-time TCP reachability checks for MySQL endpoints, and the text and
//! JSON helpers that go with simple row reads and inserts.
//!
//! Everything here is pure: the functions decide, parse and format, and leave
//! sockets and database sessions to their callers.

pub mod jsondoc;
pub mod pool;
pub mod read;
pub mod text;
pub mod write;
