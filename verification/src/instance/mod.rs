//! Debug instances and their on-disk session records: identifiers, the
//! metadata an instance is registered with, and the records of running
//! sessions.
pub mod spec;
pub mod record;
