//! Outcome of one bounded TCP connect-and-banner probe of a single port.
//!
//! The connect and the read are done outside the library; this module turns
//! what they delivered into a `ScanResult`. A `ScanResult` exists only for a
//! port whose connect succeeded; its banner is the permissive decoding of
//! whatever bytes the service sent unprompted, or absent when nothing came.

use vstd::prelude::*;
use vstd::string::*;
use crate::text::spec_digits;
use crate::text::u16_to_string;

verus! {

/// An open port, together with any banner the service volunteered.
pub struct ScanResult {
    pub port: u16,
    pub banner: Option<String>,
}

/// Builds the `<ip>:<port>` endpoint string the connect attempt dials.
pub fn format_endpoint(ip: &str, port: u16) -> (r: String)
    ensures
        r@ == ip@ + ":"@ + spec_digits(port as nat),
{
    let mut s = String::from_str(ip);
    s.append(":");
    let digits = u16_to_string(port);
    s.append(digits.as_str());
    proof {
        assert(s@ =~= ip@ + ":"@ + spec_digits(port as nat));
    }
    s
}

/// The characters that permissive UTF-8 decoding yields for `bytes`
/// (invalid sequences replaced, never failing).
pub uninterp spec fn lossy_utf8(bytes: Seq<u8>) -> Seq<char>;

/// Relies on `String::from_utf8_lossy`: the result is a function of the
/// bytes alone; valid UTF-8 input is passed through unchanged, and empty
/// input yields an empty string.
#[verifier::external_body]
fn lossy_decode(bytes: &[u8]) -> (r: String)
    ensures
        r@ == lossy_utf8(bytes@),
        bytes@.len() == 0 ==> r@.len() == 0,
        vstd::utf8::valid_utf8(bytes@) ==> vstd::utf8::encode_utf8(r@) == bytes@,
{
    String::from_utf8_lossy(bytes).to_string()
}

/// The banner a scan reports for what a bounded read delivered: the lossy
/// decoding of the bytes when at least one arrived, absent otherwise.
pub open spec fn spec_banner(data: Option<Seq<u8>>) -> Option<Seq<char>> {
    match data {
        Some(bytes) => if bytes.len() > 0 {
            Some(lossy_utf8(bytes))
        } else {
            None
        },
        None => None,
    }
}

/// Builds the result for a port whose TCP connect succeeded.
/// `data` is what the bounded banner read delivered: `None` when the read
/// failed or timed out, `Some` with the bytes that arrived otherwise.
pub fn scan_result_from_read(port: u16, data: Option<Vec<u8>>) -> (r: ScanResult)
    ensures
        r.port == port,
        r.banner.deep_view() == spec_banner(data.deep_view()),
{
    match data {
        Some(bytes) => {
            proof {
                assert(bytes.deep_view() =~= bytes@);
            }
            if bytes.len() > 0 {
                let banner = lossy_decode(bytes.as_slice());
                let r = ScanResult { port, banner: Some(banner) };
                proof {
                    assert(r.banner.deep_view() == Some(banner@));
                }
                r
            } else {
                ScanResult { port, banner: None }
            }
        },
        None => ScanResult { port, banner: None },
    }
}

} // verus!
