//! The PIN and touch policies of a key, their two-byte form inside a
//! certificate extension, and their names on the command line and in messages.
use vstd::prelude::*;
use vstd::std_specs::convert::FromSpecImpl;

use crate::certificate::{ExtensionLookup, ExtensionLookupView};
use crate::error::Error;
use crate::text::same_text;

verus! {

/// How often the token asks for the PIN before it uses a key.
#[derive(Clone, Copy, Debug, PartialEq, Eq, Structural, Hash)]
pub enum PinPolicy {
    /// The PIN is never asked for.
    Never,
    /// The PIN is asked for once per session.
    Once,
    /// The PIN is asked for before every use.
    Always,
}

/// Whether the token asks for a physical touch before it uses a key.
#[derive(Clone, Copy, Debug, PartialEq, Eq, Structural, Hash)]
pub enum TouchPolicy {
    /// No touch is asked for.
    Never,
    /// A touch is asked for before every use.
    Always,
    /// A touch is asked for, and remembered for a short while.
    Cached,
}

/// The PIN policy of a new key when the caller names none.
pub const DEFAULT_PIN_POLICY: PinPolicy = PinPolicy::Once;

/// The touch policy of a new key when the caller names none.
pub const DEFAULT_TOUCH_POLICY: TouchPolicy = TouchPolicy::Always;

/// The object identifier of the certificate extension that carries the two
/// policy bytes, the same one that PIV attestation certificates use.
pub const POLICY_EXTENSION_OID: [u64; 9] = [1, 3, 6, 1, 4, 1, 41482, 3, 8];

/// The byte that stands for a PIN policy.
pub open spec fn pin_policy_code(policy: PinPolicy) -> u8 {
    match policy {
        PinPolicy::Never => 0x01,
        PinPolicy::Once => 0x02,
        PinPolicy::Always => 0x03,
    }
}

/// The byte that stands for a touch policy. The order differs from that of
/// the PIN policies: `Always` comes before `Cached`.
pub open spec fn touch_policy_code(policy: TouchPolicy) -> u8 {
    match policy {
        TouchPolicy::Never => 0x01,
        TouchPolicy::Always => 0x02,
        TouchPolicy::Cached => 0x03,
    }
}

/// The PIN policy that a byte stands for, if any.
pub open spec fn pin_policy_of_code(code: u8) -> Option<PinPolicy> {
    if code == 0x01 {
        Some(PinPolicy::Never)
    } else if code == 0x02 {
        Some(PinPolicy::Once)
    } else if code == 0x03 {
        Some(PinPolicy::Always)
    } else {
        None
    }
}

/// The touch policy that a byte stands for, if any.
pub open spec fn touch_policy_of_code(code: u8) -> Option<TouchPolicy> {
    if code == 0x01 {
        Some(TouchPolicy::Never)
    } else if code == 0x02 {
        Some(TouchPolicy::Always)
    } else if code == 0x03 {
        Some(TouchPolicy::Cached)
    } else {
        None
    }
}

impl From<PinPolicy> for u8 {
    fn from(policy: PinPolicy) -> (code: u8) {
        match policy {
            PinPolicy::Never => 0x01,
            PinPolicy::Once => 0x02,
            PinPolicy::Always => 0x03,
        }
    }
}

impl FromSpecImpl<PinPolicy> for u8 {
    open spec fn obeys_from_spec() -> bool {
        true
    }

    open spec fn from_spec(policy: PinPolicy) -> u8 {
        pin_policy_code(policy)
    }
}

impl From<TouchPolicy> for u8 {
    fn from(policy: TouchPolicy) -> (code: u8) {
        match policy {
            TouchPolicy::Never => 0x01,
            TouchPolicy::Always => 0x02,
            TouchPolicy::Cached => 0x03,
        }
    }
}

impl FromSpecImpl<TouchPolicy> for u8 {
    open spec fn obeys_from_spec() -> bool {
        true
    }

    open spec fn from_spec(policy: TouchPolicy) -> u8 {
        touch_policy_code(policy)
    }
}

/// The value of the policy extension for a pair of policies.
pub open spec fn spec_encode_policies(pin_policy: PinPolicy, touch_policy: TouchPolicy) -> Seq<u8> {
    seq![pin_policy_code(pin_policy), touch_policy_code(touch_policy)]
}

/// The policies that the value of a policy extension stands for. A value of
/// fewer than two bytes stands for none; a byte that is no policy code leaves
/// its policy unknown.
pub open spec fn spec_decode_policies(value: Seq<u8>) -> (Option<PinPolicy>, Option<TouchPolicy>) {
    if value.len() < 2 {
        (None, None)
    } else {
        (pin_policy_of_code(value[0]), touch_policy_of_code(value[1]))
    }
}

/// Writes a pair of policies as the two bytes of the policy extension.
pub fn encode_policies(pin_policy: PinPolicy, touch_policy: TouchPolicy) -> (value: [u8; 2])
    ensures
        value@ == spec_encode_policies(pin_policy, touch_policy),
        spec_decode_policies(value@) == (Some(pin_policy), Some(touch_policy)),
{
    let value = [u8::from(pin_policy), u8::from(touch_policy)];
    assert(value@ =~= spec_encode_policies(pin_policy, touch_policy));
    value
}

/// Reads the policies back from the value of a policy extension.
pub fn decode_policies(value: &[u8]) -> (policies: (Option<PinPolicy>, Option<TouchPolicy>))
    ensures
        policies == spec_decode_policies(value@),
        value@.len() < 2 ==> policies == (None::<PinPolicy>, None::<TouchPolicy>),
{
    if value.len() < 2 {
        return (None, None);
    }
    let pin_policy = match value[0] {
        0x01 => Some(PinPolicy::Never),
        0x02 => Some(PinPolicy::Once),
        0x03 => Some(PinPolicy::Always),
        _ => None,
    };
    let touch_policy = match value[1] {
        0x01 => Some(TouchPolicy::Never),
        0x02 => Some(TouchPolicy::Always),
        0x03 => Some(TouchPolicy::Cached),
        _ => None,
    };
    (pin_policy, touch_policy)
}

/// The policies that the outcome of looking for the policy extension stands
/// for: those of its value where the extension occurs once, and none where it
/// is missing, occurs several times, or the certificate cannot be read.
pub open spec fn spec_decode_extension(extension: ExtensionLookupView) -> (
    Option<PinPolicy>,
    Option<TouchPolicy>,
) {
    match extension {
        ExtensionLookupView::Unique(value) => spec_decode_policies(value),
        _ => (None, None),
    }
}

/// Reads the policies from the outcome of looking for the policy extension.
pub fn decode_extension(extension: &ExtensionLookup) -> (policies: (
    Option<PinPolicy>,
    Option<TouchPolicy>,
))
    ensures
        policies == spec_decode_extension(extension@),
        extension is Duplicated ==> policies == (None::<PinPolicy>, None::<TouchPolicy>),
{
    match extension {
        ExtensionLookup::Unique(value) => decode_policies(value.as_slice()),
        _ => (None, None),
    }
}

/// Every pair of policies is read back from its two bytes unchanged.
pub proof fn lemma_policy_round_trip(pin_policy: PinPolicy, touch_policy: TouchPolicy)
    ensures
        spec_decode_policies(spec_encode_policies(pin_policy, touch_policy)) == (
            Some(pin_policy),
            Some(touch_policy),
        ),
{
}

/// A value of fewer than two bytes stands for no policy at all.
pub proof fn lemma_short_value_is_unknown(value: Seq<u8>)
    requires
        value.len() < 2,
    ensures
        spec_decode_policies(value) == (None::<PinPolicy>, None::<TouchPolicy>),
{
}

/// An extension that occurs more than once stands for no policy at all.
pub proof fn lemma_duplicated_extension_is_unknown()
    ensures
        spec_decode_extension(ExtensionLookupView::Duplicated) == (
            None::<PinPolicy>,
            None::<TouchPolicy>,
        ),
{
}

/// The PIN policy that a word of the command line names, if any.
pub open spec fn spec_pin_policy_from_str(s: Seq<char>) -> Option<PinPolicy> {
    if s == "always"@ {
        Some(PinPolicy::Always)
    } else if s == "once"@ {
        Some(PinPolicy::Once)
    } else if s == "never"@ {
        Some(PinPolicy::Never)
    } else {
        None
    }
}

/// The touch policy that a word of the command line names, if any.
pub open spec fn spec_touch_policy_from_str(s: Seq<char>) -> Option<TouchPolicy> {
    if s == "always"@ {
        Some(TouchPolicy::Always)
    } else if s == "cached"@ {
        Some(TouchPolicy::Cached)
    } else if s == "never"@ {
        Some(TouchPolicy::Never)
    } else {
        None
    }
}

/// Reads a PIN policy from its name on the command line: `always`, `once` or
/// `never`. Any other text is handed back in the error.
pub fn pin_policy_from_string(s: String) -> (r: Result<PinPolicy, Error>)
    ensures
        r == match spec_pin_policy_from_str(s@) {
            Some(policy) => Ok::<PinPolicy, Error>(policy),
            None => Err::<PinPolicy, Error>(Error::InvalidPinPolicy(s)),
        },
{
    if same_text(s.as_str(), "always") {
        Ok(PinPolicy::Always)
    } else if same_text(s.as_str(), "once") {
        Ok(PinPolicy::Once)
    } else if same_text(s.as_str(), "never") {
        Ok(PinPolicy::Never)
    } else {
        Err(Error::InvalidPinPolicy(s))
    }
}

/// Reads a touch policy from its name on the command line: `always`, `cached`
/// or `never`. Any other text is handed back in the error.
pub fn touch_policy_from_string(s: String) -> (r: Result<TouchPolicy, Error>)
    ensures
        r == match spec_touch_policy_from_str(s@) {
            Some(policy) => Ok::<TouchPolicy, Error>(policy),
            None => Err::<TouchPolicy, Error>(Error::InvalidTouchPolicy(s)),
        },
{
    if same_text(s.as_str(), "always") {
        Ok(TouchPolicy::Always)
    } else if same_text(s.as_str(), "cached") {
        Ok(TouchPolicy::Cached)
    } else if same_text(s.as_str(), "never") {
        Ok(TouchPolicy::Never)
    } else {
        Err(Error::InvalidTouchPolicy(s))
    }
}

/// The identifier of the message that describes a PIN policy to the user.
pub open spec fn spec_pin_policy_to_str(policy: Option<PinPolicy>) -> Seq<char> {
    match policy {
        Some(PinPolicy::Always) => "pin-policy-always"@,
        Some(PinPolicy::Once) => "pin-policy-once"@,
        Some(PinPolicy::Never) => "pin-policy-never"@,
        None => "unknown-policy"@,
    }
}

/// The identifier of the message that describes a touch policy to the user.
pub open spec fn spec_touch_policy_to_str(policy: Option<TouchPolicy>) -> Seq<char> {
    match policy {
        Some(TouchPolicy::Always) => "touch-policy-always"@,
        Some(TouchPolicy::Cached) => "touch-policy-cached"@,
        Some(TouchPolicy::Never) => "touch-policy-never"@,
        None => "unknown-policy"@,
    }
}

/// The identifier of the message that describes a PIN policy to the user; an
/// unknown policy has a message of its own.
pub fn pin_policy_to_str(policy: Option<PinPolicy>) -> (id: &'static str)
    ensures
        id@ == spec_pin_policy_to_str(policy),
{
    match policy {
        Some(PinPolicy::Always) => "pin-policy-always",
        Some(PinPolicy::Once) => "pin-policy-once",
        Some(PinPolicy::Never) => "pin-policy-never",
        None => "unknown-policy",
    }
}

/// The identifier of the message that describes a touch policy to the user; an
/// unknown policy has a message of its own.
pub fn touch_policy_to_str(policy: Option<TouchPolicy>) -> (id: &'static str)
    ensures
        id@ == spec_touch_policy_to_str(policy),
{
    match policy {
        Some(TouchPolicy::Always) => "touch-policy-always",
        Some(TouchPolicy::Cached) => "touch-policy-cached",
        Some(TouchPolicy::Never) => "touch-policy-never",
        None => "unknown-policy",
    }
}

} // verus!
