//! A minimal greeter library.
//!
//! The observable behaviour of the greeter program is decided here and
//! proved: the message it prints, the byte-for-byte content of its
//! standard-output line, that nothing is written to standard error, and
//! that the exit status is zero whatever arguments the process was
//! given. A thin binary around this crate performs the actual writing.

pub mod entry;
pub mod message;

pub use entry::run;
pub use entry::Effect;
pub use message::Message;
