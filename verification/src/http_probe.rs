//! Plaintext HTTP probe of an already-open port.
//!
//! The single GET request is issued outside the library; this module builds
//! the URL for it and turns the transport outcome into a `ServiceInfo`. The
//! probe exists purely to capture a Server response header: any transport or
//! protocol error degrades to "no information" and never to an error.

use vstd::prelude::*;
use vstd::string::*;
use crate::text::spec_digits;
use crate::text::u16_to_string;

verus! {

/// What a plaintext HTTP probe learned about a service.
pub struct ServiceInfo {
    pub server: Option<String>,
}

/// Builds the root-path URL `http://<ip>:<port>/` that the probe requests.
pub fn format_http_url(ip: &str, port: u16) -> (r: String)
    ensures
        r@ == "http://"@ + ip@ + ":"@ + spec_digits(port as nat) + "/"@,
{
    let mut s = String::from_str("http://");
    s.append(ip);
    s.append(":");
    let digits = u16_to_string(port);
    s.append(digits.as_str());
    s.append("/");
    proof {
        assert(s@ =~= "http://"@ + ip@ + ":"@ + spec_digits(port as nat) + "/"@);
    }
    s
}

/// Turns the outcome of the GET request into service information.
/// `reachable` says whether an HTTP response came back at all;
/// `server_header` is the Server header it carried, if any. A transport or
/// protocol failure yields no information rather than an error.
pub fn http_probe_outcome(reachable: bool, server_header: Option<String>) -> (r: Option<
    ServiceInfo,
>)
    ensures
        match r {
            Some(info) => reachable && info.server == server_header,
            None => !reachable,
        },
{
    if reachable {
        Some(ServiceInfo { server: server_header })
    } else {
        None
    }
}

} // verus!
