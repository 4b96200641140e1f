//! What this crate reads from an X.509 certificate. The certificate itself is
//! decoded by the `x509-parser` crate; the functions here hand its findings on
//! as plain values.
use vstd::prelude::*;
use x509_parser::der_parser::oid::Oid;

verus! {

/// What the subject and the validity of a certificate say of the identity that
/// the certificate belongs to.
#[derive(Debug, PartialEq, Eq)]
pub struct CertificateInfo {
    /// The first Organization attribute of the subject, where it is text.
    pub organization: Option<String>,
    /// The first Common Name attribute of the subject, where it is text.
    pub common_name: Option<String>,
    /// The whole subject, written out.
    pub subject: String,
    /// The time from which the certificate is valid, as an RFC 2822 date, or
    /// the reason why it cannot be written as one.
    pub not_before: Result<String, String>,
}

/// A `CertificateInfo` with its texts as sequences of characters.
pub struct CertificateInfoView {
    pub organization: Option<Seq<char>>,
    pub common_name: Option<Seq<char>>,
    pub subject: Seq<char>,
    pub not_before: Result<Seq<char>, Seq<char>>,
}

impl View for CertificateInfo {
    type V = CertificateInfoView;

    open spec fn view(&self) -> CertificateInfoView {
        CertificateInfoView {
            organization: match self.organization {
                Some(text) => Some(text@),
                None => None,
            },
            common_name: match self.common_name {
                Some(text) => Some(text@),
                None => None,
            },
            subject: self.subject@,
            not_before: match self.not_before {
                Ok(text) => Ok(text@),
                Err(reason) => Err(reason@),
            },
        }
    }
}

/// The outcome of looking for the one extension with a given object
/// identifier in a certificate.
#[derive(Debug, PartialEq, Eq)]
pub enum ExtensionLookup {
    /// The bytes are not a certificate.
    Unreadable,
    /// The certificate has no such extension.
    Absent,
    /// The certificate has the extension once, with this value.
    Unique(Vec<u8>),
    /// The certificate has the extension more than once.
    Duplicated,
}

/// An `ExtensionLookup` with the value as a sequence of bytes.
pub enum ExtensionLookupView {
    Unreadable,
    Absent,
    Unique(Seq<u8>),
    Duplicated,
}

impl View for ExtensionLookup {
    type V = ExtensionLookupView;

    open spec fn view(&self) -> ExtensionLookupView {
        match self {
            ExtensionLookup::Unreadable => ExtensionLookupView::Unreadable,
            ExtensionLookup::Absent => ExtensionLookupView::Absent,
            ExtensionLookup::Unique(value) => ExtensionLookupView::Unique(value@),
            ExtensionLookup::Duplicated => ExtensionLookupView::Duplicated,
        }
    }
}

/// What `x509-parser` reads from the subject and the validity of the
/// certificate with this DER encoding; `None` where the bytes are not a
/// certificate.
pub uninterp spec fn x509_certificate_info(der: Seq<u8>) -> Option<CertificateInfoView>;

/// What `x509-parser` finds when it looks for the one extension with the
/// given object identifier in the certificate with this DER encoding.
pub uninterp spec fn x509_unique_extension(der: Seq<u8>, oid: Seq<u64>) -> ExtensionLookupView;

/// Whether the numbers can be the arcs of an object identifier: there are at
/// least two of them, the first is below 7 and the second below 40.
pub open spec fn is_oid(arcs: Seq<u64>) -> bool {
    arcs.len() >= 2 && arcs[0] < 7 && arcs[1] < 40
}

/// Decodes a certificate with `x509_parser::parse_x509_certificate` and reads
/// from it what describes an identity: of the subject the first Organization
/// and the first Common Name (`X509Name::iter_organization`,
/// `X509Name::iter_common_name`, each taken with
/// `AttributeTypeAndValue::as_str`, so an attribute that is no text counts as
/// missing) and its written form (`X509Name`'s `Display`); of the validity the
/// start as an RFC 2822 date (`ASN1Time::to_rfc2822`). Nothing is stated of
/// these values but that they depend on the bytes alone.
#[verifier::external_body]
pub(crate) fn read_certificate(der: &[u8]) -> (info: Option<CertificateInfo>)
    ensures
        match info {
            Some(info) => x509_certificate_info(der@) == Some(info@),
            None => x509_certificate_info(der@) is None,
        },
{
    let (_, cert) = x509_parser::parse_x509_certificate(der).ok()?;
    let subject = cert.subject();
    let organization = subject.iter_organization().next().and_then(|o| o.as_str().ok());
    let common_name = subject.iter_common_name().next().and_then(|cn| cn.as_str().ok());
    let info = CertificateInfo {
        organization: organization.map(String::from),
        common_name: common_name.map(String::from),
        subject: subject.to_string(),
        not_before: cert.validity().not_before.to_rfc2822(),
    };
    Some(info)
}

/// Decodes a certificate with `x509_parser::parse_x509_certificate` and looks
/// for the extension with the given object identifier by
/// `TbsCertificate::get_extension_unique`, which tells apart a certificate
/// without the extension, one with a single occurrence, whose value is
/// returned, and one with several. The object identifier is built by
/// `Oid::from`, which accepts the arcs that `is_oid` describes. Nothing is
/// stated of the outcome but that it depends on the bytes and the arcs alone.
#[verifier::external_body]
pub(crate) fn find_unique_extension(der: &[u8], oid: &[u64]) -> (found: ExtensionLookup)
    requires
        is_oid(oid@),
    ensures
        found@ == x509_unique_extension(der@, oid@),
{
    let Ok((_, cert)) = x509_parser::parse_x509_certificate(der) else {
        return ExtensionLookup::Unreadable;
    };
    let Ok(oid) = Oid::from(oid) else {
        return ExtensionLookup::Unreadable;
    };
    match cert.tbs_certificate.get_extension_unique(&oid) {
        Ok(Some(extension)) => ExtensionLookup::Unique(extension.value.to_vec()),
        Ok(None) => ExtensionLookup::Absent,
        Err(_) => ExtensionLookup::Duplicated,
    }
}

} // verus!
