//! The override table of a running gateway: filled from the configuration
//! when the gateway starts, and asked for every backend that is dialled.

use crate::config::Config;
use crate::resolve::{spec_resolve, ResolveConfig};
use crate::text::ascii_lower;
use vstd::prelude::*;

verus! {

/// The table that the first `n` entries of a list of overrides make: each
/// binds its lower-cased host, a later entry in place of an earlier one.
pub open spec fn spec_overrides(hosts: Seq<Seq<char>>, targets: Seq<String>, n: nat) -> Map<
    Seq<char>,
    Seq<char>,
>
    decreases n,
{
    if n == 0 {
        Map::empty()
    } else {
        spec_overrides(hosts, targets, (n - 1) as nat).insert(
            ascii_lower(hosts[n - 1]),
            targets[n - 1]@,
        )
    }
}

/// Puts the overrides of a configuration in place of those in the table.
pub fn init(table: &mut ResolveConfig, config: &Config)
    ensures
        final(table)@ == spec_overrides(
            config.dns.keys(),
            config.dns.values(),
            config.dns.keys().len(),
        ),
{
    table.clear();
    let n = config.dns.len();
    let mut i: usize = 0;
    while i < n
        invariant
            i <= n,
            n == config.dns.keys().len(),
            config.dns.wf(),
            table@ == spec_overrides(config.dns.keys(), config.dns.values(), i as nat),
        decreases n - i,
    {
        let host = config.dns.key_at(i);
        let target = config.dns.value_at(i);
        table.insert(host.as_str(), target.clone());
        i += 1;
    }
}

/// The text that stands in for `host` under the table.
pub fn resolve(table: &ResolveConfig, host: &str) -> (resolved: String)
    ensures
        resolved@ == spec_resolve(table@, host@),
{
    table.resolve(host)
}

} // verus!
