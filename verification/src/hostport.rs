//! Resolving a URL string to the host and port a measurement should target.
//!
//! Parsing is done by the `url` crate (re-exported by `reqwest`); what it
//! yields for a given string is named by the uninterpreted functions below.
//! The port choice on top of it — an explicit port wins, then the scheme's
//! conventional default, then 443 — is verified code, as is the demand that
//! a returned pair is usable: a non-empty host and a non-zero port.

use vstd::prelude::*;

verus! {

/// The host component that the string parses to as a URL: a value exactly
/// when the string is a well-formed URL with a host.
pub uninterp spec fn url_host(s: Seq<char>) -> Option<Seq<char>>;

/// The scheme that the string parses to as a URL.
pub uninterp spec fn url_scheme(s: Seq<char>) -> Seq<char>;

/// The port as `Url::port` reports it: absent where none is written out in
/// the URL, and also where the written port equals the scheme's known
/// default, which parsing normalizes away.
pub uninterp spec fn url_explicit_port(s: Seq<char>) -> Option<u16>;

/// The explicit port if one is written, otherwise the scheme's conventional
/// default (443 for https, 80 for http), otherwise nothing.
pub uninterp spec fn url_known_port(s: Seq<char>) -> Option<u16>;

/// Relies on `url::Url::parse` and the accessors `host_str`, `scheme`,
/// `port` and `port_or_known_default`: what a URL string parses to depends
/// on the string alone. `port_or_known_default` is the explicit port when
/// one is present; otherwise the scheme's conventional default, which the
/// crate defines as 443 for `https` and `wss`, 80 for `http` and `ws` (and
/// nothing for a scheme it does not know).
#[verifier::external_body]
fn url_parts(s: &str) -> (r: Option<(String, String, Option<u16>, Option<u16>)>)
    ensures
        r is Some <==> url_host(s@) is Some,
        (r matches Some(t) ==> {
            &&& url_host(s@) matches Some(h) && t.0@ == h
            &&& t.1@ == url_scheme(s@)
            &&& t.2 == url_explicit_port(s@)
            &&& t.3 == url_known_port(s@)
        }),
        (r matches Some(t) ==> (t.2 is Some ==> t.3 == t.2)),
        (r matches Some(t) ==> (t.2 is None && (t.1@ == "https"@ || t.1@ == "wss"@) ==> t.3
            == Some(443u16))),
        (r matches Some(t) ==> (t.2 is None && (t.1@ == "http"@ || t.1@ == "ws"@) ==> t.3
            == Some(80u16))),
{
    match reqwest::Url::parse(s) {
        Ok(u) => match u.host_str() {
            Some(h) => Some(
                (h.to_string(), u.scheme().to_string(), u.port(), u.port_or_known_default()),
            ),
            None => None,
        },
        Err(_) => None,
    }
}

/// The port a URL resolves to: the known port where there is one, else 443.
pub open spec fn resolved_port(s: Seq<char>) -> u16 {
    match url_known_port(s) {
        Some(p) => p,
        None => 443,
    }
}

/// Whether a URL names a usable target: it parses with a host, the host is
/// non-empty, and the port it resolves to is non-zero — what a host/port
/// pair must satisfy to be connected to.
pub open spec fn usable_host_port(s: Seq<char>) -> bool {
    match url_host(s) {
        Some(h) => h.len() > 0 && resolved_port(s) > 0,
        None => false,
    }
}

/// The host and port named by `url`, or nothing for a string that is not a
/// well-formed URL, has no host, or does not name a usable target (an empty
/// host, or a written zero port). An explicit port is taken as written;
/// without one the scheme's conventional default applies (443 for secure
/// schemes, 80 for plain ones), and an unrecognized scheme falls back to
/// 443.
pub fn extract_host_port(url: &str) -> (r: Option<(String, u16)>)
    ensures
        r is Some <==> usable_host_port(url@),
        (r matches Some(hp) ==> {
            &&& url_host(url@) matches Some(h) && hp.0@ == h
            &&& hp.1 == resolved_port(url@)
            &&& hp.0@.len() > 0
            &&& hp.1 > 0
        }),
        (r matches Some(hp) ==> (url_explicit_port(url@) matches Some(p) ==> hp.1 == p)),
        (r matches Some(hp) ==> (url_explicit_port(url@) is None && (url_scheme(url@) == "https"@
            || url_scheme(url@) == "wss"@) ==> hp.1 == 443)),
        (r matches Some(hp) ==> (url_explicit_port(url@) is None && (url_scheme(url@) == "http"@
            || url_scheme(url@) == "ws"@) ==> hp.1 == 80)),
{
    match url_parts(url) {
        Some(parts) => {
            let (host, _scheme, _explicit, known) = parts;
            let port: u16 = match known {
                Some(p) => p,
                None => 443,
            };
            if port == 0 || host.as_str().is_empty() {
                None
            } else {
                Some((host, port))
            }
        },
        None => None,
    }
}

} // verus!
