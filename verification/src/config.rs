//! The configuration snapshot that the gateway runs on, and the rules that a
//! listener applies to a server name.

use crate::strmap::StringMap;
use crate::text::{ascii_lower, eq_ignore_ascii_case};
use vstd::prelude::*;

verus! {

/// What a match of the rules means for a server name.
#[allow(non_camel_case_types)]
#[derive(Debug, Clone, Copy, PartialEq, Eq, Structural)]
pub enum Policy {
    /// Only names that match are admitted.
    ALLOW,
    /// Only names that do not match are admitted.
    DENY,
}

/// The names that a listener's policy speaks of: host names, compared
/// without regard to ASCII case, and regular expressions in source form.
#[derive(Debug, Clone)]
pub struct Rules {
    pub static_hosts: Vec<String>,
    pub patterns: Vec<String>,
}

/// How a listener finds the backend of a connection.
#[derive(Debug, Clone)]
pub enum Forwarding {
    /// The backend is the server name of the ClientHello, on `target_port`,
    /// where the policy admits the name.
    Sni { target_port: u16, policy: Policy, rules: Rules, max_idle_time_ms: Option<u64> },
    /// The backend is one of `targets`, each a `host:port`.
    Plain { targets: Vec<String> },
}

/// One accept point: the address it binds and how it forwards.
#[derive(Debug, Clone)]
pub struct Listener {
    pub bind: String,
    pub forwarding: Forwarding,
}

/// Settings that hold for every listener.
#[derive(Debug, Clone)]
pub struct Options {
    pub log_config_file: String,
    pub health_check_timeout_ms: u64,
    pub max_idle_time_ms: u64,
    pub self_ips: Vec<String>,
}

/// Settings of the administrative HTTP server.
#[derive(Debug, Clone)]
pub struct AdminServerConfig {
    pub bind_address: Option<String>,
    pub bind_port: Option<u16>,
    pub username: Option<String>,
    pub password: Option<String>,
    pub tls_cert: Option<String>,
    pub tls_key: Option<String>,
    pub tls_ca_cert: Option<String>,
    pub mutual_tls: Option<bool>,
    pub tls: Option<bool>,
    pub rocket_log_level: Option<String>,
}

/// The whole configuration: listeners by name, options, host name overrides,
/// and the administrative server's settings where there are any.
#[derive(Debug)]
pub struct Config {
    pub listeners: StringMap<Listener>,
    pub options: Options,
    pub dns: StringMap<String>,
    pub admin_server: Option<AdminServerConfig>,
}

/// Whether a pattern is a regular expression that compiles.
pub uninterp spec fn regex_compiles(pattern: Seq<char>) -> bool;

/// Whether the regular expression compiled from a pattern finds a match
/// anywhere in a text.
pub uninterp spec fn regex_matches(pattern: Seq<char>, text: Seq<char>) -> bool;

/// The idle limit in milliseconds that a listener's own setting stands for:
/// one hour where there is none, no limit where it is zero.
pub open spec fn spec_idle_limit(setting: Option<u64>) -> u64 {
    match setting {
        Some(ms) => if ms == 0 {
            u64::MAX
        } else {
            ms
        },
        None => 3600000,
    }
}

/// Whether a text is the text of an optional string.
pub open spec fn is_text(o: Option<String>, text: Seq<char>) -> bool {
    o matches Some(s) && s@ == text
}

impl Rules {
    /// A host name matches the rules where it equals one of the static hosts
    /// but for ASCII case, or where one of the patterns compiles and matches
    /// it.
    pub open spec fn spec_match_host(&self, host: Seq<char>) -> bool {
        ||| exists|i: int|
            0 <= i < self.static_hosts@.len() && ascii_lower(#[trigger] self.static_hosts@[i]@)
                == ascii_lower(host)
        ||| exists|j: int|
            0 <= j < self.patterns@.len() && regex_compiles(#[trigger] self.patterns@[j]@)
                && regex_matches(self.patterns@[j]@, host)
    }

    /// Tells whether a host name matches the rules.
    pub fn match_host(&self, host: &str) -> (matched: bool)
        ensures
            matched == self.spec_match_host(host@),
    {
        let mut i: usize = 0;
        while i < self.static_hosts.len()
            invariant
                i <= self.static_hosts@.len(),
                forall|k: int|
                    0 <= k < i ==> ascii_lower(#[trigger] self.static_hosts@[k]@) != ascii_lower(
                        host@,
                    ),
            decreases self.static_hosts@.len() - i,
        {
            if eq_ignore_ascii_case(host, self.static_hosts[i].as_str()) {
                return true;
            }
            i += 1;
        }
        let mut j: usize = 0;
        while j < self.patterns.len()
            invariant
                j <= self.patterns@.len(),
                forall|k: int|
                    0 <= k < self.static_hosts@.len() ==> ascii_lower(
                        #[trigger] self.static_hosts@[k]@,
                    ) != ascii_lower(host@),
                forall|k: int|
                    0 <= k < j ==> !(regex_compiles(#[trigger] self.patterns@[k]@)
                        && regex_matches(self.patterns@[k]@, host@)),
            decreases self.patterns@.len() - j,
        {
            match pattern_matches(self.patterns[j].as_str(), host) {
                Some(true) => {
                    return true;
                },
                _ => {},
            }
            j += 1;
        }
        false
    }
}

/// `Regex::new` on the pattern and, where that gives a regular expression,
/// `Regex::is_match` of it on the text.
///
/// The result is `None` exactly where the pattern does not compile; else it
/// tells whether the expression matches somewhere in the text. Both depend on
/// the two texts alone, and are named, not spelled out.
#[verifier::external_body]
fn pattern_matches(pattern: &str, text: &str) -> (r: Option<bool>)
    ensures
        r == if regex_compiles(pattern@) {
            Some(regex_matches(pattern@, text@))
        } else {
            None
        },
{
    match regex::Regex::new(pattern) {
        Ok(re) => Some(re.is_match(text)),
        Err(_) => None,
    }
}

impl Listener {
    /// The idle limit of the listener in milliseconds. A plain listener has no
    /// setting of its own.
    pub open spec fn spec_max_idle_time_ms(&self) -> u64 {
        match self.forwarding {
            Forwarding::Sni { max_idle_time_ms, .. } => spec_idle_limit(max_idle_time_ms),
            Forwarding::Plain { .. } => spec_idle_limit(None),
        }
    }

    /// Whether the rules of the listener match a host name. A plain listener
    /// has no rules, and nothing matches.
    pub open spec fn spec_match_host(&self, host: Seq<char>) -> bool {
        match self.forwarding {
            Forwarding::Sni { rules, .. } => rules.spec_match_host(host),
            Forwarding::Plain { .. } => false,
        }
    }

    /// Whether the listener admits a host name: under `ALLOW` the names that
    /// match, under `DENY` those that do not. A plain listener has no policy
    /// and turns no name away.
    pub open spec fn spec_is_allowed(&self, host: Seq<char>) -> bool {
        match self.forwarding {
            Forwarding::Sni { policy, rules, .. } => match policy {
                Policy::ALLOW => rules.spec_match_host(host),
                Policy::DENY => !rules.spec_match_host(host),
            },
            Forwarding::Plain { .. } => true,
        }
    }

    /// The idle limit of the listener in milliseconds.
    pub fn max_idle_time_ms(&self) -> (ms: u64)
        ensures
            ms == self.spec_max_idle_time_ms(),
    {
        match &self.forwarding {
            Forwarding::Sni { max_idle_time_ms, .. } => match max_idle_time_ms {
                Some(inner) => {
                    if *inner == 0 {
                        u64::MAX
                    } else {
                        *inner
                    }
                },
                None => 3600000,
            },
            Forwarding::Plain { .. } => 3600000,
        }
    }

    /// Tells whether the rules of the listener match a host name.
    pub fn match_host(&self, host: &str) -> (matched: bool)
        ensures
            matched == self.spec_match_host(host@),
    {
        match &self.forwarding {
            Forwarding::Sni { rules, .. } => rules.match_host(host),
            Forwarding::Plain { .. } => false,
        }
    }

    /// Tells whether the listener admits a host name.
    pub fn is_allowed(&self, host: &str) -> (allowed: bool)
        ensures
            allowed == self.spec_is_allowed(host@),
    {
        match &self.forwarding {
            Forwarding::Sni { policy, rules, .. } => {
                let matched = rules.match_host(host);
                match policy {
                    Policy::ALLOW => matched,
                    Policy::DENY => !matched,
                }
            },
            Forwarding::Plain { .. } => true,
        }
    }
}

impl Default for Options {
    fn default() -> (r: Self)
        ensures
            r.log_config_file@ == Seq::<char>::empty(),
            r.health_check_timeout_ms == 0,
            r.max_idle_time_ms == 0,
            r.self_ips@ == Seq::<String>::empty(),
    {
        Options {
            log_config_file: String::new(),
            health_check_timeout_ms: 0,
            max_idle_time_ms: 0,
            self_ips: Vec::new(),
        }
    }
}

impl Default for AdminServerConfig {
    fn default() -> (r: Self)
        ensures
            is_text(r.bind_address, "0.0.0.0"@),
            r.bind_port == Some(48888u16),
            is_text(r.username, "admin"@),
            is_text(r.password, "admin"@),
            r.tls == Some(false),
            is_text(r.tls_cert, ""@),
            is_text(r.tls_key, ""@),
            is_text(r.tls_ca_cert, ""@),
            r.mutual_tls == Some(false),
            is_text(r.rocket_log_level, "normal"@),
    {
        AdminServerConfig {
            bind_address: Some("0.0.0.0".to_string()),
            bind_port: Some(48888),
            username: Some("admin".to_string()),
            password: Some("admin".to_string()),
            tls: Some(false),
            tls_cert: Some("".to_string()),
            tls_key: Some("".to_string()),
            tls_ca_cert: Some("".to_string()),
            mutual_tls: Some(false),
            rocket_log_level: Some("normal".to_string()),
        }
    }
}

impl Default for Config {
    fn default() -> (r: Self)
        ensures
            r.listeners@ == Map::<Seq<char>, Listener>::empty(),
            r.dns@ == Map::<Seq<char>, String>::empty(),
            r.admin_server is None,
            r.options.log_config_file@ == Seq::<char>::empty(),
            r.options.health_check_timeout_ms == 0,
            r.options.max_idle_time_ms == 0,
            r.options.self_ips@ == Seq::<String>::empty(),
    {
        Config {
            listeners: StringMap::new(),
            options: Options::default(),
            dns: StringMap::new(),
            admin_server: None,
        }
    }
}

} // verus!
