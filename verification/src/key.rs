//! The lasting parts of an identity: the recipient that others encrypt to, and
//! the stub by which the caller finds the key on a token again.
use vstd::prelude::*;

use crate::slot::RetiredSlotId;

verus! {

/// The number of bytes of a recipient's tag.
pub const TAG_BYTES: usize = 4;

/// The public half of an identity: the public key of the key pair that the
/// token generated, in the encoding in which recipients are published, and the
/// short tag by which the recipient is recognised.
#[derive(Debug, PartialEq, Eq)]
pub struct Recipient {
    /// The encoded public key.
    pub encoded: Vec<u8>,
    /// The tag.
    pub tag: [u8; 4],
}

impl Recipient {
    /// The recipient with this encoded public key and this tag.
    pub fn new(encoded: Vec<u8>, tag: [u8; 4]) -> (recipient: Self)
        ensures
            recipient == (Recipient { encoded, tag }),
    {
        Recipient { encoded, tag }
    }
}

/// A lasting reference to an identity, for the caller to keep: the token, the
/// slot, and the tag of the recipient.
#[derive(Clone, Copy, Debug, PartialEq, Eq)]
pub struct Stub {
    /// The serial number of the token.
    pub serial: u32,
    /// The slot that holds the key.
    pub slot: RetiredSlotId,
    /// The tag of the recipient.
    pub tag: [u8; 4],
}

impl Stub {
    /// The stub of the identity whose key lies in the given slot of the token
    /// with the given serial number.
    pub fn new(serial: u32, slot: RetiredSlotId, recipient: &Recipient) -> (stub: Self)
        ensures
            stub == (Stub { serial, slot, tag: recipient.tag }),
    {
        Stub { serial, slot, tag: recipient.tag }
    }
}

} // verus!
