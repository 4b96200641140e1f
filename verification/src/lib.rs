//! Provisioning of age identities on a PIV hardware token.
//!
//! The crate holds the rules of the provisioning tool: which slot a new
//! identity occupies, how the PIN and touch policies of a key are written into
//! and read back from the certificate of its slot, how the descriptive metadata
//! of an identity is recovered from a certificate, and in which order the token
//! is driven while an identity is built. Talking to the token and to the user
//! is left to the caller, which performs the actions that the builder asks for
//! and reports their results.
use vstd::prelude::*;

pub mod builder;
pub mod certificate;
pub mod error;
pub mod host;
pub mod key;
pub mod metadata;
pub mod modhex;
pub mod policy;
pub mod slot;
pub mod text;

verus! {

/// The identifier that this tool writes into the Organization attribute of the
/// certificates it issues, and by which it recognises them later.
pub const BINARY_NAME: &'static str = "age-plugin-yubikey";

} // verus!
