//! Routing policy: which browser opens the URL.
//!
//! Who opened the URL outranks what is being opened, which outranks the
//! fallback: a section matching the detected client wins over a section
//! matching the URL host, and the configured default is used only when
//! neither matches.

use vstd::prelude::*;

use crate::config::Config;
use crate::detection::view_opt;
use crate::matcher::find_client_section;
use crate::matcher::find_host_section;
use crate::matcher::match_client;
use crate::matcher::match_host;

verus! {

/// The host-or-default part of the policy: the browser of the first section
/// matching the host, or the configured default.
pub open spec fn routed_by_host(host: Seq<char>, config: Config) -> Seq<char> {
    match find_host_section(host, config.sections@) {
        Some(sec) => sec.browser@,
        None => config.default.browser@,
    }
}

/// The browser the policy selects: the browser of the first section
/// matching the detected client, when a client was detected and a section
/// matches it; otherwise the browser of the first section matching the URL
/// host; otherwise the configured default.
pub open spec fn routed_browser(
    client: Option<Seq<char>>,
    host: Seq<char>,
    config: Config,
) -> Seq<char> {
    match client {
        Some(c) => match find_client_section(c, config.sections@) {
            Some(sec) => sec.browser@,
            None => routed_by_host(host, config),
        },
        None => routed_by_host(host, config),
    }
}

/// Selects the browser command for one invocation: client rules first, then
/// host rules, then the configured default.
pub fn select_browser(client: &Option<String>, host: &str, config: &Config) -> (r: String)
    ensures
        r@ == routed_browser(view_opt(*client), host@, *config),
{
    match client {
        Some(c) => {
            match match_client(c.as_str(), &config.sections) {
                Some(sec) => {
                    return sec.browser.clone();
                },
                None => {},
            }
        },
        None => {},
    }
    match match_host(host, &config.sections) {
        Some(sec) => sec.browser.clone(),
        None => config.default.browser.clone(),
    }
}

} // verus!

