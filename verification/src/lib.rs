//! Verified core of a session-based sign-in, sign-up and sign-out flow.
//!
//! The crate decides; it performs no I/O. A caller hands it the submitted
//! form and the replies of the credential store, and is told what to do next.

pub mod flash;
pub mod flow;
pub mod session;
pub mod validation;
