//! Building an identity on a token.
//!
//! The builder settles the slot and the policies of the new key, and then
//! leads the caller through the exchanges with the token and the user, one at
//! a time: it names the next action, the caller performs it and reports what
//! came of it. The order is fixed. The management operations are unlocked
//! before the key is generated, the key is generated before its certificate is
//! issued, and where the key asks for the PIN at every use, the PIN is
//! verified directly before the certificate is signed.
use vstd::prelude::*;
use vstd::string::StringExecFns;

use crate::certificate::{x509_certificate_info, x509_unique_extension};
use crate::error::{Error, Operation};
use crate::key::{Recipient, Stub};
use crate::metadata::{spec_extract, Extraction, ExtractionView, Metadata, MetadataView};
use crate::policy::{
    encode_policies,
    spec_encode_policies,
    PinPolicy,
    TouchPolicy,
    DEFAULT_PIN_POLICY,
    DEFAULT_TOUCH_POLICY,
    POLICY_EXTENSION_OID,
};
use crate::slot::{allocate, spec_allocate, RetiredSlotId};
use crate::text::{hex_encode, spec_hex};
use crate::BINARY_NAME;
use rand::rngs::OsRng;
use rand::RngCore;

verus! {

/// What the caller asks of a new identity.
#[derive(Debug, PartialEq, Eq)]
pub struct IdentityBuilder {
    /// The slot to use; without one the first free slot is taken.
    pub slot: Option<RetiredSlotId>,
    /// Whether a key that the requested slot holds may be overwritten.
    pub force: bool,
    /// The name of the identity; without one a name is made from the tag of
    /// the recipient.
    pub name: Option<String>,
    /// The PIN policy of the key; without one the default applies.
    pub pin_policy: Option<PinPolicy>,
    /// The touch policy of the key; without one the default applies.
    pub touch_policy: Option<TouchPolicy>,
}

/// What is settled once the slot is chosen.
#[derive(Debug, PartialEq, Eq)]
pub struct Plan {
    /// The serial number of the token.
    pub serial: u32,
    /// The version of the tool, for the certificate.
    pub version: String,
    /// The slot of the new key.
    pub slot: RetiredSlotId,
    /// The name that the caller gave, if any.
    pub name: Option<String>,
    /// The PIN policy of the new key.
    pub pin_policy: PinPolicy,
    /// The touch policy of the new key.
    pub touch_policy: TouchPolicy,
}

/// What the self-signed certificate of a new key is to hold.
#[derive(Debug, PartialEq, Eq)]
pub struct CertificateRequest {
    /// The slot of the key.
    pub slot: RetiredSlotId,
    /// The serial number of the certificate.
    pub serial: [u8; 20],
    /// The name that the caller gave, if any.
    pub name: Option<String>,
    /// The tag of the recipient.
    pub tag: [u8; 4],
    /// The version of the tool.
    pub version: String,
    /// The PIN policy of the key.
    pub pin_policy: PinPolicy,
    /// The touch policy of the key.
    pub touch_policy: TouchPolicy,
}

/// What the caller is to do next.
#[derive(Debug, PartialEq, Eq)]
pub enum Action {
    /// List the slots of the token that hold a key, and report `Keys`.
    ListKeys,
    /// Unlock the management operations of the token, and report `Unlocked`.
    Unlock,
    /// Generate a P-256 key pair in the slot with these policies, and report
    /// `Generated` with the recipient of its public key.
    GenerateKey { slot: RetiredSlotId, pin_policy: PinPolicy, touch_policy: TouchPolicy },
    /// Ask the user for the PIN and have the token verify it, and report
    /// `PinVerified`.
    VerifyPin,
    /// Have the token issue and store this certificate, and report `Issued`
    /// with its DER encoding.
    IssueCertificate(CertificateRequest),
    /// The identity is built.
    Done(Stub, Recipient, Metadata),
    /// The build is given up.
    Abort(Error),
}

/// What came of the action that the caller was asked for.
#[derive(Debug, PartialEq, Eq)]
pub enum Event {
    /// The slots of the token that hold a key.
    Keys(Vec<RetiredSlotId>),
    /// The management operations are unlocked.
    Unlocked,
    /// The key pair is generated; this is the recipient of its public key.
    Generated(Recipient),
    /// The token accepted the PIN.
    PinVerified,
    /// The certificate is issued and stored; this is its DER encoding.
    Issued(Vec<u8>),
    /// The action failed.
    Failed,
}

/// Where a build stands: what it is waiting for, and what it has settled so
/// far.
#[derive(Debug, PartialEq, Eq)]
pub enum Build {
    /// Waiting for the slots that hold a key.
    Listing { request: IdentityBuilder, serial: u32, version: String },
    /// Waiting for the management operations to be unlocked.
    Unlocking(Plan),
    /// Waiting for the key pair.
    Generating(Plan),
    /// Waiting for the PIN to be verified, with the certificate that is
    /// issued after that.
    Verifying { serial: u32, recipient: Recipient, certificate: CertificateRequest },
    /// Waiting for the certificate.
    Issuing { serial: u32, slot: RetiredSlotId, recipient: Recipient },
    /// The build has ended.
    Finished,
}

/// The plan for a request once its slot is chosen: the policies that the
/// caller named, and the defaults for those that it did not.
pub open spec fn spec_plan(
    request: IdentityBuilder,
    serial: u32,
    version: String,
    slot: RetiredSlotId,
) -> Plan {
    Plan {
        serial,
        version,
        slot,
        name: request.name,
        pin_policy: match request.pin_policy {
            Some(policy) => policy,
            None => DEFAULT_PIN_POLICY,
        },
        touch_policy: match request.touch_policy {
            Some(policy) => policy,
            None => DEFAULT_TOUCH_POLICY,
        },
    }
}

/// The certificate for the key of a plan, with the given serial number.
pub open spec fn spec_request(plan: Plan, recipient: Recipient, serial: [u8; 20]) -> CertificateRequest {
    CertificateRequest {
        slot: plan.slot,
        serial,
        name: plan.name,
        tag: recipient.tag,
        version: plan.version,
        pin_policy: plan.pin_policy,
        touch_policy: plan.touch_policy,
    }
}

/// How a build starts. A requested slot that may be overwritten is taken
/// without a look at the token; otherwise the build first asks which slots
/// hold a key.
pub open spec fn spec_build(request: IdentityBuilder, serial: u32, version: String) -> (
    Build,
    Action,
) {
    match request.slot {
        Some(slot) if request.force => (
            Build::Unlocking(spec_plan(request, serial, version, slot)),
            Action::Unlock,
        ),
        _ => (Build::Listing { request, serial, version }, Action::ListKeys),
    }
}

/// The error with which a build ends when the action that it waits for
/// fails. A refused unlock or PIN is an authentication error; any other
/// action that fails is an error of the token.
pub open spec fn spec_failure(build: Build) -> Error {
    match build {
        Build::Listing { .. } => Error::Token(Operation::ListKeys),
        Build::Unlocking(_) => Error::Authentication(Operation::Unlock),
        Build::Generating(_) => Error::Token(Operation::GenerateKey),
        Build::Verifying { .. } => Error::Authentication(Operation::VerifyPin),
        Build::Issuing { .. } => Error::Token(Operation::IssueCertificate),
        Build::Finished => Error::OutOfOrder,
    }
}

/// The build goes on to `next` and asks for `asked`.
pub open spec fn goes_on(post: Build, action: Action, next: Build, asked: Action) -> bool {
    post == next && action == asked
}

/// The build ends with an error.
pub open spec fn gives_up(post: Build, action: Action, error: Error) -> bool {
    post == Build::Finished && action == Action::Abort(error)
}

/// The build ends with the identity: the stub, the recipient, and metadata
/// with the given view.
pub open spec fn completes(
    post: Build,
    action: Action,
    stub: Stub,
    recipient: Recipient,
    expected: MetadataView,
) -> bool {
    &&& post == Build::Finished
    &&& action matches Action::Done(made, reported, metadata)
    &&& made == stub
    &&& reported == recipient
    &&& metadata@ == expected
}

/// Whether a build that stands at `pre` and learns of `event` goes on to
/// `post` and asks for `action`. `entropy` holds the random bytes for the
/// serial number of the certificate, which are drawn when the key pair is
/// reported, or `None` where none could be had.
///
/// Every event but the one that the build waits for ends it: a failure with
/// the error of the failed action, any other with `OutOfOrder`.
pub open spec fn transition(
    pre: Build,
    event: Event,
    entropy: Option<[u8; 20]>,
    post: Build,
    action: Action,
) -> bool {
    match (pre, event) {
        (Build::Finished, _) => gives_up(post, action, Error::OutOfOrder),
        (_, Event::Failed) => gives_up(post, action, spec_failure(pre)),
        (Build::Listing { request, serial, version }, Event::Keys(occupied)) => {
            match spec_allocate(request.slot, request.force, occupied@.to_set(), serial) {
                Ok(slot) => goes_on(
                    post,
                    action,
                    Build::Unlocking(spec_plan(request, serial, version, slot)),
                    Action::Unlock,
                ),
                Err(error) => gives_up(post, action, error),
            }
        },
        (Build::Unlocking(plan), Event::Unlocked) => goes_on(
            post,
            action,
            Build::Generating(plan),
            Action::GenerateKey {
                slot: plan.slot,
                pin_policy: plan.pin_policy,
                touch_policy: plan.touch_policy,
            },
        ),
        (Build::Generating(plan), Event::Generated(recipient)) => match entropy {
            None => gives_up(post, action, Error::NoRandomness),
            Some(serial) => if plan.pin_policy == PinPolicy::Always {
                goes_on(
                    post,
                    action,
                    Build::Verifying {
                        serial: plan.serial,
                        recipient,
                        certificate: spec_request(plan, recipient, serial),
                    },
                    Action::VerifyPin,
                )
            } else {
                goes_on(
                    post,
                    action,
                    Build::Issuing { serial: plan.serial, slot: plan.slot, recipient },
                    Action::IssueCertificate(spec_request(plan, recipient, serial)),
                )
            },
        },
        (Build::Verifying { serial, recipient, certificate }, Event::PinVerified) => goes_on(
            post,
            action,
            Build::Issuing { serial, slot: certificate.slot, recipient },
            Action::IssueCertificate(certificate),
        ),
        (Build::Issuing { serial, slot, recipient }, Event::Issued(der)) => {
            match spec_extract(
                serial,
                slot,
                x509_certificate_info(der@),
                x509_unique_extension(der@, POLICY_EXTENSION_OID@),
                false,
            ) {
                ExtractionView::Complete(expected) => completes(
                    post,
                    action,
                    Stub { serial, slot, tag: recipient.tag },
                    recipient,
                    expected,
                ),
                _ => gives_up(post, action, Error::InconsistentCertificate),
            }
        },
        _ => gives_up(post, action, Error::OutOfOrder),
    }
}

/// The Common Name of the certificate of an identity: the name that the
/// caller gave, or else `age identity` and the tag of the recipient in
/// hexadecimal digits.
pub open spec fn spec_common_name(name: Option<String>, tag: [u8; 4]) -> Seq<char> {
    match name {
        Some(name) => name@,
        None => "age identity "@ + spec_hex(tag@),
    }
}

/// `OsRng::try_fill_bytes` of `rand` fills the twenty bytes from the random
/// number generator of the operating system, or reports that it cannot.
/// Nothing is stated of the bytes.
#[verifier::external_body]
fn random_serial() -> Option<[u8; 20]> {
    let mut serial = [0u8; 20];
    match OsRng.try_fill_bytes(&mut serial) {
        Ok(()) => Some(serial),
        Err(_) => None,
    }
}

impl IdentityBuilder {
    /// A request for an identity in the given slot, or in the first free one,
    /// with the default policies and a generated name.
    pub fn new(slot: Option<RetiredSlotId>) -> (builder: Self)
        ensures
            builder == (IdentityBuilder {
                slot,
                force: false,
                name: None,
                pin_policy: None,
                touch_policy: None,
            }),
    {
        IdentityBuilder { slot, name: None, pin_policy: None, touch_policy: None, force: false }
    }

    /// Names the identity, or asks for a generated name.
    pub fn with_name(self, name: Option<String>) -> (builder: Self)
        ensures
            builder == (IdentityBuilder { name, ..self }),
    {
        let mut builder = self;
        builder.name = name;
        builder
    }

    /// Sets the PIN policy of the key, or asks for the default.
    pub fn with_pin_policy(self, pin_policy: Option<PinPolicy>) -> (builder: Self)
        ensures
            builder == (IdentityBuilder { pin_policy, ..self }),
    {
        let mut builder = self;
        builder.pin_policy = pin_policy;
        builder
    }

    /// Sets the touch policy of the key, or asks for the default.
    pub fn with_touch_policy(self, touch_policy: Option<TouchPolicy>) -> (builder: Self)
        ensures
            builder == (IdentityBuilder { touch_policy, ..self }),
    {
        let mut builder = self;
        builder.touch_policy = touch_policy;
        builder
    }

    /// Says whether a key that the requested slot holds may be overwritten.
    pub fn force(self, force: bool) -> (builder: Self)
        ensures
            builder == (IdentityBuilder { force, ..self }),
    {
        let mut builder = self;
        builder.force = force;
        builder
    }

    /// Starts to build the identity on the token with the given serial
    /// number; `version` is the version of the tool, which the certificate
    /// records. Returns where the build stands and the first action.
    pub fn build(self, serial: u32, version: String) -> (r: (Build, Action))
        ensures
            r == spec_build(self, serial, version),
    {
        match self.slot {
            Some(slot) if self.force => (
                Build::Unlocking(make_plan(self, serial, version, slot)),
                Action::Unlock,
            ),
            _ => (Build::Listing { request: self, serial, version }, Action::ListKeys),
        }
    }
}

/// The plan for a request once its slot is chosen.
fn make_plan(request: IdentityBuilder, serial: u32, version: String, slot: RetiredSlotId) -> (plan:
    Plan)
    ensures
        plan == spec_plan(request, serial, version, slot),
{
    Plan {
        serial,
        version,
        slot,
        name: request.name,
        pin_policy: match request.pin_policy {
            Some(policy) => policy,
            None => DEFAULT_PIN_POLICY,
        },
        touch_policy: match request.touch_policy {
            Some(policy) => policy,
            None => DEFAULT_TOUCH_POLICY,
        },
    }
}

impl CertificateRequest {
    /// The Organization of the subject: the identifier of this tool.
    pub fn organization(&self) -> (organization: &'static str)
        ensures
            organization@ == BINARY_NAME@,
    {
        BINARY_NAME
    }

    /// The Organizational Unit of the subject: the version of the tool.
    pub fn organizational_unit(&self) -> (unit: &str)
        ensures
            unit@ == self.version@,
    {
        self.version.as_str()
    }

    /// The Common Name of the subject: the name of the identity.
    pub fn common_name(&self) -> (name: String)
        ensures
            name@ == spec_common_name(self.name, self.tag),
    {
        match &self.name {
            Some(name) => name.clone(),
            None => String::from_str("age identity ").concat(
                hex_encode(self.tag.as_slice()).as_str(),
            ),
        }
    }

    /// The object identifier of the extension that carries the policies.
    pub fn extension_oid(&self) -> (oid: [u64; 9])
        ensures
            oid == POLICY_EXTENSION_OID,
    {
        POLICY_EXTENSION_OID
    }

    /// The value of the extension that carries the policies.
    pub fn extension_value(&self) -> (value: [u8; 2])
        ensures
            value@ == spec_encode_policies(self.pin_policy, self.touch_policy),
    {
        encode_policies(self.pin_policy, self.touch_policy)
    }

    /// Whether the token waits for a touch before it signs the certificate,
    /// so that the user is to be told.
    pub fn needs_touch(&self) -> (needed: bool)
        ensures
            needed == (self.touch_policy != TouchPolicy::Never),
    {
        match self.touch_policy {
            TouchPolicy::Never => false,
            _ => true,
        }
    }
}

/// A failure ends the build, whatever it was waiting for, with the error of
/// the action that failed.
pub proof fn lemma_failure_ends_build(
    pre: Build,
    entropy: Option<[u8; 20]>,
    post: Build,
    action: Action,
)
    requires
        transition(pre, Event::Failed, entropy, post, action),
    ensures
        post is Finished,
        action == Action::Abort(spec_failure(pre)),
{
}

/// A certificate is asked for only when the key pair is reported or the PIN
/// is verified; for a key that asks for the PIN at every use, only when the
/// PIN is verified.
pub proof fn lemma_certificate_follows_pin(
    pre: Build,
    event: Event,
    entropy: Option<[u8; 20]>,
    post: Build,
    action: Action,
)
    requires
        transition(pre, event, entropy, post, action),
        action is IssueCertificate,
    ensures
        (pre is Generating && event is Generated) || (pre is Verifying && event is PinVerified),
        post is Issuing,
        action->IssueCertificate_0.pin_policy == PinPolicy::Always ==> pre is Verifying,
{
}

/// The PIN is asked for only when the key pair of a key that asks for the
/// PIN at every use is reported, and the build then waits with the
/// certificate until the PIN is verified.
pub proof fn lemma_pin_precedes_certificate(
    pre: Build,
    event: Event,
    entropy: Option<[u8; 20]>,
    post: Build,
    action: Action,
)
    requires
        transition(pre, event, entropy, post, action),
    ensures
        action is VerifyPin <==> pre is Generating && event is Generated && entropy is Some
            && pre->Generating_0.pin_policy == PinPolicy::Always,
        action is VerifyPin ==> post is Verifying,
{
}

/// The identity is reported only when the certificate was issued, and the
/// build has then ended.
pub proof fn lemma_done_follows_certificate(
    pre: Build,
    event: Event,
    entropy: Option<[u8; 20]>,
    post: Build,
    action: Action,
)
    requires
        transition(pre, event, entropy, post, action),
        action is Done,
    ensures
        pre is Issuing,
        event is Issued,
        post is Finished,
{
}

impl Build {
    /// Whether the build has ended.
    pub fn is_finished(&self) -> (finished: bool)
        ensures
            finished == (*self is Finished),
    {
        match self {
            Build::Finished => true,
            _ => false,
        }
    }

    /// The error with which the build ends if the action that it waits for
    /// fails.
    pub fn failure(&self) -> (error: Error)
        ensures
            error == spec_failure(*self),
    {
        match self {
            Build::Listing { .. } => Error::Token(Operation::ListKeys),
            Build::Unlocking(_) => Error::Authentication(Operation::Unlock),
            Build::Generating(_) => Error::Token(Operation::GenerateKey),
            Build::Verifying { .. } => Error::Authentication(Operation::VerifyPin),
            Build::Issuing { .. } => Error::Token(Operation::IssueCertificate),
            Build::Finished => Error::OutOfOrder,
        }
    }

    /// Takes the build one step on, with the random bytes for the serial
    /// number of the certificate given by the caller.
    pub fn advance(self, event: Event, entropy: Option<[u8; 20]>) -> (r: (Build, Action))
        ensures
            transition(self, event, entropy, r.0, r.1),
    {
        if let Event::Failed = event {
            let error = self.failure();
            return (Build::Finished, Action::Abort(error));
        }
        match self {
            Build::Listing { request, serial, version } => match event {
                Event::Keys(occupied) => match allocate(
                    request.slot,
                    request.force,
                    occupied.as_slice(),
                    serial,
                ) {
                    Ok(slot) => (
                        Build::Unlocking(make_plan(request, serial, version, slot)),
                        Action::Unlock,
                    ),
                    Err(error) => (Build::Finished, Action::Abort(error)),
                },
                _ => (Build::Finished, Action::Abort(Error::OutOfOrder)),
            },
            Build::Unlocking(plan) => match event {
                Event::Unlocked => {
                    let action = Action::GenerateKey {
                        slot: plan.slot,
                        pin_policy: plan.pin_policy,
                        touch_policy: plan.touch_policy,
                    };
                    (Build::Generating(plan), action)
                },
                _ => (Build::Finished, Action::Abort(Error::OutOfOrder)),
            },
            Build::Generating(plan) => match event {
                Event::Generated(recipient) => match entropy {
                    None => (Build::Finished, Action::Abort(Error::NoRandomness)),
                    Some(serial) => {
                        let token = plan.serial;
                        let slot = plan.slot;
                        let verify = match plan.pin_policy {
                            PinPolicy::Always => true,
                            _ => false,
                        };
                        let request = CertificateRequest {
                            slot: plan.slot,
                            serial,
                            name: plan.name,
                            tag: recipient.tag,
                            version: plan.version,
                            pin_policy: plan.pin_policy,
                            touch_policy: plan.touch_policy,
                        };
                        if verify {
                            (
                                Build::Verifying { serial: token, recipient, certificate: request },
                                Action::VerifyPin,
                            )
                        } else {
                            (
                                Build::Issuing { serial: token, slot, recipient },
                                Action::IssueCertificate(request),
                            )
                        }
                    },
                },
                _ => (Build::Finished, Action::Abort(Error::OutOfOrder)),
            },
            Build::Verifying { serial, recipient, certificate } => match event {
                Event::PinVerified => (
                    Build::Issuing { serial, slot: certificate.slot, recipient },
                    Action::IssueCertificate(certificate),
                ),
                _ => (Build::Finished, Action::Abort(Error::OutOfOrder)),
            },
            Build::Issuing { serial, slot, recipient } => match event {
                Event::Issued(der) => match Metadata::extract(serial, slot, der.as_slice(), false) {
                    Extraction::Complete(metadata) => {
                        let stub = Stub::new(serial, slot, &recipient);
                        (Build::Finished, Action::Done(stub, recipient, metadata))
                    },
                    _ => (Build::Finished, Action::Abort(Error::InconsistentCertificate)),
                },
                _ => (Build::Finished, Action::Abort(Error::OutOfOrder)),
            },
            Build::Finished => (Build::Finished, Action::Abort(Error::OutOfOrder)),
        }
    }

    /// Takes the build one step on: from where it stands and what came of
    /// the last action to where it stands then and the next action. When the
    /// key pair is reported, the serial number of the certificate is drawn at
    /// random.
    pub fn step(self, event: Event) -> (r: (Build, Action))
        ensures
            exists|entropy: Option<[u8; 20]>| transition(self, event, entropy, r.0, r.1),
            !(self is Generating && event is Generated) ==> transition(
                self,
                event,
                None,
                r.0,
                r.1,
            ),
    {
        let draw = match (&self, &event) {
            (Build::Generating(_), Event::Generated(_)) => true,
            _ => false,
        };
        let entropy = if draw {
            random_serial()
        } else {
            None
        };
        self.advance(event, entropy)
    }
}

} // verus!
