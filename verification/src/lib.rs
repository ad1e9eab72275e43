//! A command bridge between a dynamically typed caller and a typed client of a
//! virtual-server provisioning service.
//!
//! Every operation of the closed catalog runs the same steps: the credential is
//! resolved, the positional arguments are marshalled against the operation's
//! signature, a typed request is built, one remote call is made through an
//! invoker that the caller supplies, and the outcome is translated.

pub mod text;
pub mod value;
pub mod catalog;
pub mod error;
pub mod marshal;
pub mod request;
pub mod bridge;
pub mod laws;
pub mod ops;
