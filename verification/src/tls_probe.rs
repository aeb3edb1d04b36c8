//! Certificate extraction for the TLS probe of a designated port.
//!
//! The TLS handshake (SNI-aware, chain validation disabled by design) runs
//! outside the library and hands over the leaf certificate's DER bytes; this
//! module parses them and applies the documented fallbacks: subject common
//! name defaults to "Unknown CN", issuer common name to "Unknown Issuer".
//! A parse failure yields no information rather than an error.

use vstd::prelude::*;
use vstd::string::*;

verus! {

/// What the TLS probe reports of a leaf certificate.
pub struct CertificateInfo {
    pub common_name: String,
    pub issuer: String,
    pub not_after: String,
}

/// What parsing `der` as an X.509 certificate yields: `None` when the bytes
/// do not parse, otherwise the subject common name (if one is present and
/// readable), the issuer common name (likewise), and the textual not-after
/// timestamp of the validity period.
pub uninterp spec fn cert_fields(der: Seq<u8>) -> Option<
    (Option<Seq<char>>, Option<Seq<char>>, Seq<char>),
>;

/// Relies on `x509_parser::parse_x509_certificate` and its accessors
/// (`subject`, `issuer`, `iter_common_name`, `validity`): parsing DER bytes
/// and rendering the validity timestamp are functions of the bytes alone.
#[verifier::external_body]
fn parse_der_fields(der: &[u8]) -> (r: Option<(Option<String>, Option<String>, String)>)
    ensures
        r.deep_view() == cert_fields(der@),
{
    let cert = match x509_parser::parse_x509_certificate(der) {
        Ok((_, c)) => c,
        Err(_) => return None,
    };
    let cn = cert.subject().iter_common_name().next().and_then(|a| a.as_str().ok()).map(|s|
        s.to_string());
    let issuer = cert.issuer().iter_common_name().next().and_then(|a| a.as_str().ok()).map(|s|
        s.to_string());
    Some((cn, issuer, cert.validity().not_after.to_string()))
}

/// A name with its documented fallback: the name itself when the parse
/// delivered one, the fallback text otherwise.
pub open spec fn spec_name_or(name: Option<Seq<char>>, fallback: Seq<char>) -> Seq<char> {
    match name {
        Some(n) => n,
        None => fallback,
    }
}

/// Builds the certificate information out of the parsed fields, applying
/// the fallbacks for an absent or unreadable common name on either side.
pub fn certificate_info_from_fields(
    subject_cn: Option<String>,
    issuer_cn: Option<String>,
    not_after: String,
) -> (r: CertificateInfo)
    ensures
        r.common_name@ == spec_name_or(subject_cn.deep_view(), "Unknown CN"@),
        r.issuer@ == spec_name_or(issuer_cn.deep_view(), "Unknown Issuer"@),
        r.not_after == not_after,
{
    let common_name = match subject_cn {
        Some(s) => s,
        None => String::from_str("Unknown CN"),
    };
    let issuer = match issuer_cn {
        Some(s) => s,
        None => String::from_str("Unknown Issuer"),
    };
    CertificateInfo { common_name, issuer, not_after }
}

/// Extracts the reportable certificate information from the leaf
/// certificate's DER bytes: exactly the parsed fields, with the documented
/// fallbacks applied; nothing when the bytes do not parse.
pub fn certificate_info_from_der(der: &[u8]) -> (r: Option<CertificateInfo>)
    ensures
        match (r, cert_fields(der@)) {
            (Some(info), Some(fields)) => {
                &&& info.common_name@ == spec_name_or(fields.0, "Unknown CN"@)
                &&& info.issuer@ == spec_name_or(fields.1, "Unknown Issuer"@)
                &&& info.not_after@ == fields.2
            },
            (None, None) => true,
            _ => false,
        },
{
    match parse_der_fields(der) {
        Some((cn, issuer, not_after)) => Some(certificate_info_from_fields(cn, issuer, not_after)),
        None => None,
    }
}

} // verus!
