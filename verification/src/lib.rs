//! A safe access layer over a kernel filesystem-event and access-control
//! facility: groups subscribe to notifications about file activity on a
//! directory tree or mount, and permission-class groups gate operations
//! (such as open) until a decision is written back.
//!
//! The verified core covers the binary wire formats (decoding kernel event
//! records, encoding responses) and the validation policy for group
//! initialization, mark requests and responses. The kernel itself, and the
//! raw descriptor I/O against it, are external collaborators.

pub mod decode;
pub mod errors;
pub mod event;
pub mod flags;
pub mod group;
pub mod response;
