//! Liveness sweep of a subnet: which candidate hosts answered a probe.
//!
//! The reachability probes themselves (an OS ping utility, one short-deadline
//! invocation per host) run outside the library; this module builds each
//! candidate address and folds the probe outcomes into the set of live hosts.
//! Any probe error is indistinguishable from "not alive" by design.

use vstd::prelude::*;
use vstd::string::*;
use crate::text::spec_digits;
use crate::text::u16_to_string;

verus! {

/// Builds the address `<base>.<host>` of one candidate host on the subnet.
pub fn subnet_host_address(base: &str, host: u8) -> (r: String)
    ensures
        r@ == base@ + "."@ + spec_digits(host as nat),
{
    let mut s = String::from_str(base);
    s.append(".");
    let digits = u16_to_string(host as u16);
    s.append(digits.as_str());
    proof {
        assert(s@ =~= base@ + "."@ + spec_digits(host as nat));
    }
    s
}

/// Whether a host counts as alive. `outcome` is what the probe invocation
/// delivered: `None` when it could not run at all, `Some` with its success
/// status otherwise. Every failure folds into "not alive".
pub fn liveness_of(outcome: Option<bool>) -> (alive: bool)
    ensures
        alive == (outcome == Some(true)),
{
    match outcome {
        Some(true) => true,
        _ => false,
    }
}

/// The addresses of the probes that reported alive, in probe order.
pub open spec fn alive_addresses(probes: Seq<(String, bool)>) -> Seq<Seq<char>>
    decreases probes.len(),
{
    if probes.len() == 0 {
        Seq::empty()
    } else {
        let rest = alive_addresses(probes.drop_last());
        if probes.last().1 {
            rest.push(probes.last().0@)
        } else {
            rest
        }
    }
}

/// Collects the live hosts out of the per-host probe outcomes, keeping
/// probe order and dropping every host that did not answer.
pub fn collect_alive(probes: Vec<(String, bool)>) -> (r: Vec<String>)
    ensures
        r.deep_view() == alive_addresses(probes@),
{
    let mut r: Vec<String> = Vec::new();
    let mut i: usize = 0;
    proof {
        assert(r.deep_view() =~~= alive_addresses(probes@.subrange(0, 0)));
    }
    while i < probes.len()
        invariant
            i <= probes.len(),
            r.deep_view() == alive_addresses(probes@.subrange(0, i as int)),
        decreases probes.len() - i,
    {
        let entry = &probes[i];
        proof {
            assert(probes@.subrange(0, i as int + 1).drop_last() =~= probes@.subrange(0, i as int));
            assert(probes@.subrange(0, i as int + 1).last() == probes@[i as int]);
        }
        if entry.1 {
            let address = entry.0.clone();
            r.push(address);
            proof {
                assert(r.deep_view() =~~= alive_addresses(probes@.subrange(0, i as int + 1)));
            }
        } else {
            proof {
                assert(r.deep_view() =~~= alive_addresses(probes@.subrange(0, i as int + 1)));
            }
        }
        i += 1;
    }
    proof {
        assert(probes@.subrange(0, probes@.len() as int) =~= probes@);
    }
    r
}

} // verus!
