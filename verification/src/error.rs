//! The ways in which provisioning an identity can fail.
use vstd::prelude::*;

use crate::slot::RetiredSlotId;

verus! {

/// An exchange with the token or with the user that the builder asks for.
#[derive(Clone, Copy, Debug, PartialEq, Eq, Structural)]
pub enum Operation {
    /// Listing the keys that the token holds.
    ListKeys,
    /// Unlocking the management operations of the token.
    Unlock,
    /// Generating a key pair in a slot.
    GenerateKey,
    /// Asking for the PIN and verifying it.
    VerifyPin,
    /// Issuing the self-signed certificate of the new key.
    IssueCertificate,
}

/// Why a request was refused or a build was given up.
#[derive(Debug, PartialEq, Eq)]
pub enum Error {
    /// The number does not name a usable slot.
    InvalidSlot(u8),
    /// The text does not name a PIN policy.
    InvalidPinPolicy(String),
    /// The text does not name a touch policy.
    InvalidTouchPolicy(String),
    /// The requested slot already holds a key.
    SlotOccupied(RetiredSlotId),
    /// Every usable slot of the token with this serial number holds a key.
    NoEmptySlots(u32),
    /// The PIN or the management credential was not accepted.
    Authentication(Operation),
    /// The token did not carry out a command.
    Token(Operation),
    /// The operating system gave no random bytes for the certificate serial.
    NoRandomness,
    /// The certificate that was just issued does not read back as one of ours.
    InconsistentCertificate,
    /// A result was reported that the build was not waiting for.
    OutOfOrder,
}

} // verus!
