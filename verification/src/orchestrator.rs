//! Orchestration of the scan: target classification, the fixed port range,
//! the TLS-eligible port set, the per-port pipeline decision, and the merge
//! of independent probe outcomes into report entries.
//!
//! Every (host, port) pair is probed as an independent unit outside the
//! library; this module decides what each unit does and what its outcomes
//! mean. A report entry exists exactly for a port whose TCP connect
//! succeeded, and each optional field is populated independently: failure of
//! one probe never blocks another.

use vstd::prelude::*;
use vstd::string::*;
use crate::text::dot_count;
use crate::text::spec_has_prefix;
use crate::text::has_prefix;
use crate::scanner::ScanResult;
use crate::http_probe::ServiceInfo;
use crate::tls_probe::CertificateInfo;

verus! {

/// First port of the fixed scan range (inclusive).
pub const FIRST_PORT: u16 = 1;

/// Last port of the fixed scan range (inclusive).
pub const LAST_PORT: u16 = 1024;

/// One line of the final report: an open port and everything the probes
/// learned about it. TLS fields are present exactly when a TLS-designated
/// port's handshake yielded a certificate.
pub struct ReportEntry {
    pub ip: String,
    pub port: u16,
    pub banner: Option<String>,
    pub server: Option<String>,
    pub tls_cn: Option<String>,
    pub tls_issuer: Option<String>,
    pub tls_expiry: Option<String>,
}

/// The ports on which an open service gets a TLS probe.
pub open spec fn spec_is_tls_port(port: u16) -> bool {
    port == 443 || port == 8443 || port == 9443
}

/// Decides whether the pipeline chains a TLS probe after an open port.
pub fn is_tls_port(port: u16) -> (r: bool)
    ensures
        r == spec_is_tls_port(port),
{
    port == 443 || port == 8443 || port == 9443
}

/// A target that looks like a private-range address, which triggers the
/// auxiliary subnet sweep.
pub open spec fn spec_is_private_target(s: Seq<char>) -> bool {
    spec_has_prefix(s, "192."@) || spec_has_prefix(s, "10."@) || spec_has_prefix(s, "172."@)
}

/// Decides whether the target string triggers a subnet sweep.
pub fn is_private_target(target: &str) -> (r: bool)
    ensures
        r == spec_is_private_target(target@),
{
    has_prefix(target, "192.") || has_prefix(target, "10.") || has_prefix(target, "172.")
}

/// The subnet prefix swept for live hosts: the target's first three
/// dot-separated parts, defined only when the target has exactly four.
pub fn subnet_base(target: &str) -> (r: Option<String>)
    ensures
        match r {
            Some(base) => {
                &&& dot_count(target@) == 3
                &&& base@.len() < target@.len()
                &&& base@ == target@.subrange(0, base@.len() as int)
                &&& target@[base@.len() as int] == '.'
                &&& dot_count(base@) == 2
            },
            None => dot_count(target@) != 3,
        },
{
    let n = target.unicode_len();
    let mut i: usize = 0;
    let mut count: usize = 0;
    let mut third: usize = 0;
    while i < n
        invariant
            i <= n,
            n == target@.len(),
            count <= i,
            count == dot_count(target@.subrange(0, i as int)),
            count >= 3 ==> third < i && target@[third as int] == '.' && dot_count(
                target@.subrange(0, third as int),
            ) == 2,
        decreases n - i,
    {
        let c = target.get_char(i);
        proof {
            assert(target@.subrange(0, i as int + 1).drop_last() =~= target@.subrange(0, i as int));
            assert(target@.subrange(0, i as int + 1).last() == target@[i as int]);
        }
        if c == '.' {
            if count == 2 {
                third = i;
            }
            count += 1;
        }
        i += 1;
    }
    proof {
        assert(target@.subrange(0, n as int) =~= target@);
    }
    if count == 3 {
        let base = target.substring_char(0, third).to_owned();
        Some(base)
    } else {
        None
    }
}

/// Merges the outcomes of one port's pipeline into its report line.
/// `scan` is the connect-and-banner result, `http` what the HTTP probe
/// learned, `tls` what the TLS probe learned. No entry exists without a
/// successful connect; each field is populated from its own probe alone.
pub fn port_report(
    ip: String,
    scan: Option<ScanResult>,
    http: Option<ServiceInfo>,
    tls: Option<CertificateInfo>,
) -> (r: Option<ReportEntry>)
    requires
        match (&scan, &tls) {
            (Some(s), Some(_)) => spec_is_tls_port(s.port),
            (None, Some(_)) => false,
            _ => true,
        },
    ensures
        match (r, scan) {
            (Some(entry), Some(s)) => {
                &&& entry.ip == ip
                &&& entry.port == s.port
                &&& entry.banner == s.banner
                &&& entry.server == match http {
                    Some(info) => info.server,
                    None => None::<String>,
                }
                &&& match tls {
                    Some(cert) => entry.tls_cn == Some(cert.common_name) && entry.tls_issuer
                        == Some(cert.issuer) && entry.tls_expiry == Some(cert.not_after),
                    None => entry.tls_cn is None && entry.tls_issuer is None && entry.tls_expiry
                        is None,
                }
            },
            (None, None) => true,
            _ => false,
        },
{
    let s = match scan {
        Some(s) => s,
        None => {
            return None;
        },
    };
    let server = match http {
        Some(info) => info.server,
        None => None,
    };
    let (tls_cn, tls_issuer, tls_expiry) = match tls {
        Some(cert) => (Some(cert.common_name), Some(cert.issuer), Some(cert.not_after)),
        None => (None, None, None),
    };
    Some(
        ReportEntry {
            ip,
            port: s.port,
            banner: s.banner,
            server,
            tls_cn,
            tls_issuer,
            tls_expiry,
        },
    )
}

/// The report lines among a sequence of per-port outcomes, in outcome
/// order: exactly the entries of the ports whose connect succeeded.
pub open spec fn completed_entries(outcomes: Seq<Option<ReportEntry>>) -> Seq<ReportEntry>
    decreases outcomes.len(),
{
    if outcomes.len() == 0 {
        Seq::empty()
    } else {
        let rest = completed_entries(outcomes.drop_last());
        match outcomes.last() {
            Some(entry) => rest.push(entry),
            None => rest,
        }
    }
}

fn clone_option_string(s: &Option<String>) -> (r: Option<String>)
    ensures
        r == *s,
{
    match s {
        Some(v) => Some(v.clone()),
        None => None,
    }
}

fn clone_entry(entry: &ReportEntry) -> (r: ReportEntry)
    ensures
        r == *entry,
{
    ReportEntry {
        ip: entry.ip.clone(),
        port: entry.port,
        banner: clone_option_string(&entry.banner),
        server: clone_option_string(&entry.server),
        tls_cn: clone_option_string(&entry.tls_cn),
        tls_issuer: clone_option_string(&entry.tls_issuer),
        tls_expiry: clone_option_string(&entry.tls_expiry),
    }
}

/// Folds the awaited per-port outcomes into the report: the surviving
/// entries, in completion order, with every absent outcome dropped.
pub fn merge_outcomes(outcomes: &Vec<Option<ReportEntry>>) -> (r: Vec<ReportEntry>)
    ensures
        r@ == completed_entries(outcomes@),
{
    let mut r: Vec<ReportEntry> = Vec::new();
    let mut i: usize = 0;
    proof {
        assert(r@ =~= completed_entries(outcomes@.subrange(0, 0)));
    }
    while i < outcomes.len()
        invariant
            i <= outcomes.len(),
            r@ == completed_entries(outcomes@.subrange(0, i as int)),
        decreases outcomes.len() - i,
    {
        proof {
            assert(outcomes@.subrange(0, i as int + 1).drop_last() =~= outcomes@.subrange(
                0,
                i as int,
            ));
            assert(outcomes@.subrange(0, i as int + 1).last() == outcomes@[i as int]);
        }
        match &outcomes[i] {
            Some(entry) => {
                r.push(clone_entry(entry));
            },
            None => {},
        }
        i += 1;
    }
    proof {
        assert(outcomes@.subrange(0, outcomes@.len() as int) =~= outcomes@);
    }
    r
}

/// Data-model invariant of the report: a merged entry carries TLS fields
/// only together — common name, issuer and expiry are present or absent as
/// one, exactly as the pipeline populated them.
pub proof fn lemma_tls_fields_together(entries: Seq<ReportEntry>, outcomes: Seq<Option<ReportEntry>>)
    requires
        entries == completed_entries(outcomes),
        forall|j: int| 0 <= j < outcomes.len() ==> (match #[trigger] outcomes[j] {
            Some(entry) => entry.tls_cn is Some <==> entry.tls_expiry is Some,
            None => true,
        }),
    ensures
        forall|k: int| 0 <= k < entries.len() ==> (#[trigger] entries[k].tls_cn is Some
            <==> entries[k].tls_expiry is Some),
    decreases outcomes.len(),
{
    if outcomes.len() > 0 {
        lemma_tls_fields_together(completed_entries(outcomes.drop_last()), outcomes.drop_last());
    }
}

} // verus!
