//! The descriptive metadata of an identity, recovered from the certificate of
//! its slot.
//!
//! A certificate that this tool issued names the tool as its Organization; it
//! carries the name of the identity as its Common Name and the policies of the
//! key in an extension. Any other certificate is foreign: it is reported only
//! on request, under its whole subject, and the policies of its key can only
//! be learnt from an attestation of the slot.
use vstd::prelude::*;
use vstd::string::StringExecFns;

use crate::certificate::{
    find_unique_extension,
    read_certificate,
    x509_certificate_info,
    x509_unique_extension,
    CertificateInfo,
    CertificateInfoView,
    ExtensionLookup,
    ExtensionLookupView,
};
use crate::policy::{
    decode_extension,
    pin_policy_to_str,
    spec_decode_extension,
    spec_pin_policy_to_str,
    spec_touch_policy_to_str,
    touch_policy_to_str,
    PinPolicy,
    TouchPolicy,
    POLICY_EXTENSION_OID,
};
use crate::slot::{slot_to_ui, spec_slot_to_ui, RetiredSlotId};
use crate::text::same_text;
use crate::BINARY_NAME;

verus! {

/// The name under which the identity of a certificate is shown, and whether
/// this tool issued the certificate. A certificate of this tool is shown
/// under its Common Name, or under the empty name where it has none. A
/// foreign certificate is shown only where all identities are asked for, under
/// its whole subject.
pub open spec fn spec_extract_name(cert: CertificateInfoView, all: bool) -> Option<
    (Seq<char>, bool),
> {
    if cert.organization == Some(BINARY_NAME@) {
        Some(
            (
                match cert.common_name {
                    Some(name) => name,
                    None => Seq::empty(),
                },
                true,
            ),
        )
    } else if all {
        Some((cert.subject, false))
    } else {
        None
    }
}

/// Finds the name under which the identity of a certificate is shown, and
/// whether this tool issued the certificate.
pub fn extract_name(cert: &CertificateInfo, all: bool) -> (r: Option<(String, bool)>)
    ensures
        match r {
            Some((name, ours)) => spec_extract_name(cert@, all) == Some((name@, ours)),
            None => spec_extract_name(cert@, all) is None,
        },
{
    let ours = match &cert.organization {
        Some(organization) => same_text(organization.as_str(), BINARY_NAME),
        None => false,
    };
    if ours {
        let name = match &cert.common_name {
            Some(name) => name.clone(),
            None => String::new(),
        };
        Some((name, true))
    } else if all {
        Some((cert.subject.clone(), false))
    } else {
        None
    }
}

/// The text that tells when an identity was created: the date from which its
/// certificate is valid, or a note that the date is invalid, with the reason.
pub open spec fn spec_created(not_before: Result<Seq<char>, Seq<char>>) -> Seq<char> {
    match not_before {
        Ok(date) => date,
        Err(reason) => "Invalid date: "@ + reason,
    }
}

/// Writes the text that tells when an identity was created.
pub fn created_text(not_before: &Result<String, String>) -> (created: String)
    ensures
        created@ == spec_created(
            match *not_before {
                Ok(date) => Ok(date@),
                Err(reason) => Err(reason@),
            },
        ),
{
    match not_before {
        Ok(date) => date.clone(),
        Err(reason) => String::from_str("Invalid date: ").concat(reason.as_str()),
    }
}

/// What is known of an identity from the certificate of its slot.
#[derive(Debug, PartialEq, Eq)]
pub struct Metadata {
    serial: u32,
    slot: RetiredSlotId,
    name: String,
    created: String,
    pin_policy: Option<PinPolicy>,
    touch_policy: Option<TouchPolicy>,
}

/// A `Metadata` with its texts as sequences of characters.
pub struct MetadataView {
    pub serial: u32,
    pub slot: RetiredSlotId,
    pub name: Seq<char>,
    pub created: Seq<char>,
    pub pin_policy: Option<PinPolicy>,
    pub touch_policy: Option<TouchPolicy>,
}

impl View for Metadata {
    type V = MetadataView;

    closed spec fn view(&self) -> MetadataView {
        MetadataView {
            serial: self.serial,
            slot: self.slot,
            name: self.name@,
            created: self.created@,
            pin_policy: self.pin_policy,
            touch_policy: self.touch_policy,
        }
    }
}

/// What the certificate of a slot yields.
#[derive(Debug, PartialEq, Eq)]
pub enum Extraction {
    /// Nothing is reported: the bytes are no certificate, or the certificate
    /// is foreign and only the identities of this tool were asked for.
    Skipped,
    /// The metadata of an identity of this tool.
    Complete(Metadata),
    /// The metadata of a foreign identity, without policies: they are to be
    /// recovered from an attestation of the slot.
    Foreign(Metadata),
}

/// An `Extraction` with the metadata by its view.
pub enum ExtractionView {
    Skipped,
    Complete(MetadataView),
    Foreign(MetadataView),
}

impl View for Extraction {
    type V = ExtractionView;

    open spec fn view(&self) -> ExtractionView {
        match self {
            Extraction::Skipped => ExtractionView::Skipped,
            Extraction::Complete(metadata) => ExtractionView::Complete(metadata@),
            Extraction::Foreign(metadata) => ExtractionView::Foreign(metadata@),
        }
    }
}

/// What a certificate yields, from what was read of it and what the search for
/// its policy extension gave. The policies of an identity of this tool are
/// those of the extension; those of a foreign identity are left unknown.
pub open spec fn spec_extract(
    serial: u32,
    slot: RetiredSlotId,
    info: Option<CertificateInfoView>,
    extension: ExtensionLookupView,
    all: bool,
) -> ExtractionView {
    match info {
        None => ExtractionView::Skipped,
        Some(info) => match spec_extract_name(info, all) {
            None => ExtractionView::Skipped,
            Some((name, ours)) => if ours {
                ExtractionView::Complete(
                    MetadataView {
                        serial,
                        slot,
                        name,
                        created: spec_created(info.not_before),
                        pin_policy: spec_decode_extension(extension).0,
                        touch_policy: spec_decode_extension(extension).1,
                    },
                )
            } else {
                ExtractionView::Foreign(
                    MetadataView {
                        serial,
                        slot,
                        name,
                        created: spec_created(info.not_before),
                        pin_policy: None,
                        touch_policy: None,
                    },
                )
            },
        },
    }
}

/// The metadata with the policies that an attestation of the slot shows:
/// those of the policy extension of the attestation certificate, and none
/// where the token gave no attestation.
pub open spec fn spec_attested(
    metadata: MetadataView,
    attestation: Option<ExtensionLookupView>,
) -> MetadataView {
    let policies = match attestation {
        Some(extension) => spec_decode_extension(extension),
        None => (None, None),
    };
    MetadataView {
        serial: metadata.serial,
        slot: metadata.slot,
        name: metadata.name,
        created: metadata.created,
        pin_policy: policies.0,
        touch_policy: policies.1,
    }
}

/// A certificate of this tool is always reported, under its Common Name; a
/// foreign certificate is reported only where all identities are asked for,
/// and then under its whole subject.
pub proof fn lemma_name_by_issuer(cert: CertificateInfoView, all: bool)
    ensures
        cert.organization == Some(BINARY_NAME@) ==> spec_extract_name(cert, all) == Some(
            (
                match cert.common_name {
                    Some(name) => name,
                    None => Seq::empty(),
                },
                true,
            ),
        ),
        cert.organization != Some(BINARY_NAME@) && all ==> spec_extract_name(cert, all) == Some(
            (cert.subject, false),
        ),
        cert.organization != Some(BINARY_NAME@) && !all ==> spec_extract_name(cert, all) is None,
{
}

/// The two policies of an identity always come from one source: both from the
/// policy extension of its own certificate, both from an attestation, or both
/// unknown.
pub proof fn lemma_policies_share_source(
    serial: u32,
    slot: RetiredSlotId,
    info: Option<CertificateInfoView>,
    extension: ExtensionLookupView,
    all: bool,
    attestation: Option<ExtensionLookupView>,
)
    ensures
        match spec_extract(serial, slot, info, extension, all) {
            ExtractionView::Skipped => true,
            ExtractionView::Complete(metadata) => (metadata.pin_policy, metadata.touch_policy)
                == spec_decode_extension(extension),
            ExtractionView::Foreign(metadata) => {
                &&& metadata.pin_policy is None
                &&& metadata.touch_policy is None
                &&& match attestation {
                    Some(attested) => (
                        spec_attested(metadata, attestation).pin_policy,
                        spec_attested(metadata, attestation).touch_policy,
                    ) == spec_decode_extension(attested),
                    None => spec_attested(metadata, attestation) == metadata,
                }
            },
        },
{
}

/// What the summary of an identity is filled with.
#[derive(Debug, PartialEq, Eq)]
pub struct MetadataFields {
    /// The serial number of the token.
    pub serial: u32,
    /// The number of the slot in the user interface.
    pub slot: u8,
    /// The name of the identity.
    pub name: String,
    /// When the identity was created.
    pub created: String,
    /// The identifier of the message that describes the PIN policy.
    pub pin_policy: &'static str,
    /// The identifier of the message that describes the touch policy.
    pub touch_policy: &'static str,
}

impl Metadata {
    /// Assembles what a certificate yields from what was read of it and what
    /// the search for its policy extension gave.
    pub fn assemble(
        serial: u32,
        slot: RetiredSlotId,
        info: Option<CertificateInfo>,
        extension: &ExtensionLookup,
        all: bool,
    ) -> (r: Extraction)
        ensures
            r@ == spec_extract(
                serial,
                slot,
                match info {
                    Some(info) => Some(info@),
                    None => None,
                },
                extension@,
                all,
            ),
    {
        let info = match info {
            Some(info) => info,
            None => { return Extraction::Skipped; },
        };
        match extract_name(&info, all) {
            None => Extraction::Skipped,
            Some((name, ours)) => {
                let created = created_text(&info.not_before);
                if ours {
                    let (pin_policy, touch_policy) = decode_extension(extension);
                    Extraction::Complete(
                        Metadata { serial, slot, name, created, pin_policy, touch_policy },
                    )
                } else {
                    Extraction::Foreign(
                        Metadata {
                            serial,
                            slot,
                            name,
                            created,
                            pin_policy: None,
                            touch_policy: None,
                        },
                    )
                }
            },
        }
    }

    /// Recovers the metadata of the identity in a slot from the DER encoding
    /// of the certificate of the slot.
    ///
    /// For a certificate of this tool the metadata is complete. For a foreign
    /// certificate it is given only if `all` is set, and then without
    /// policies: the caller asks the token for an attestation of the slot and
    /// hands it to `attested`.
    pub fn extract(serial: u32, slot: RetiredSlotId, cert: &[u8], all: bool) -> (r: Extraction)
        ensures
            r@ == spec_extract(
                serial,
                slot,
                x509_certificate_info(cert@),
                x509_unique_extension(cert@, POLICY_EXTENSION_OID@),
                all,
            ),
    {
        let info = read_certificate(cert);
        let extension = find_unique_extension(cert, POLICY_EXTENSION_OID.as_slice());
        Metadata::assemble(serial, slot, info, &extension, all)
    }

    /// Sets the policies to those that the search for the policy extension of
    /// an attestation certificate gave, and to unknown where there is no
    /// attestation.
    pub fn with_attestation(self, attestation: Option<ExtensionLookup>) -> (r: Metadata)
        ensures
            r@ == spec_attested(
                self@,
                match attestation {
                    Some(extension) => Some(extension@),
                    None => None,
                },
            ),
    {
        let (pin_policy, touch_policy) = match &attestation {
            Some(extension) => decode_extension(extension),
            None => (None, None),
        };
        Metadata {
            serial: self.serial,
            slot: self.slot,
            name: self.name,
            created: self.created,
            pin_policy,
            touch_policy,
        }
    }

    /// Sets the policies to those that an attestation of the slot shows. The
    /// attestation is the DER encoding of the attestation certificate, or
    /// `None` where the token gave none; the policies are then unknown, as
    /// they are where the attestation cannot be read.
    pub fn attested(self, attestation: Option<&[u8]>) -> (r: Metadata)
        ensures
            r@ == spec_attested(
                self@,
                match attestation {
                    Some(der) => Some(x509_unique_extension(der@, POLICY_EXTENSION_OID@)),
                    None => None,
                },
            ),
    {
        let extension = match attestation {
            Some(der) => Some(find_unique_extension(der, POLICY_EXTENSION_OID.as_slice())),
            None => None,
        };
        self.with_attestation(extension)
    }

    /// The serial number of the token.
    pub fn serial(&self) -> (serial: u32)
        ensures
            serial == self@.serial,
    {
        self.serial
    }

    /// The slot that holds the key.
    pub fn slot(&self) -> (slot: RetiredSlotId)
        ensures
            slot == self@.slot,
    {
        self.slot
    }

    /// The name of the identity.
    pub fn name(&self) -> (name: &str)
        ensures
            name@ == self@.name,
    {
        self.name.as_str()
    }

    /// When the identity was created.
    pub fn created(&self) -> (created: &str)
        ensures
            created@ == self@.created,
    {
        self.created.as_str()
    }

    /// The PIN policy of the key, where it could be recovered.
    pub fn pin_policy(&self) -> (policy: Option<PinPolicy>)
        ensures
            policy == self@.pin_policy,
    {
        self.pin_policy
    }

    /// The touch policy of the key, where it could be recovered.
    pub fn touch_policy(&self) -> (policy: Option<TouchPolicy>)
        ensures
            policy == self@.touch_policy,
    {
        self.touch_policy
    }

    /// What the summary of the identity is filled with: the serial number of
    /// the token, the number of the slot in the user interface, the name, the
    /// date of creation, and the messages that describe the two policies.
    pub fn fields(&self) -> (fields: MetadataFields)
        ensures
            fields.serial == self@.serial,
            fields.slot == spec_slot_to_ui(self@.slot),
            fields.name@ == self@.name,
            fields.created@ == self@.created,
            fields.pin_policy@ == spec_pin_policy_to_str(self@.pin_policy),
            fields.touch_policy@ == spec_touch_policy_to_str(self@.touch_policy),
    {
        MetadataFields {
            serial: self.serial,
            slot: slot_to_ui(&self.slot),
            name: self.name.clone(),
            created: self.created.clone(),
            pin_policy: pin_policy_to_str(self.pin_policy),
            touch_policy: touch_policy_to_str(self.touch_policy),
        }
    }
}

} // verus!
