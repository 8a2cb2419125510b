//! Rule matching: which configured section a client name or a URL host
//! falls under.
//!
//! Client matching is loose: the lowercased detected name need only contain
//! a configured substring, since window and process names carry arbitrary
//! decoration. Host matching is strict: the lowercased host must equal the
//! pattern or end with a dot followed by it, so unrelated domains sharing a
//! substring never match.

use vstd::prelude::*;

use crate::config::RuleSection;
use crate::text::contains_sub;
use crate::text::ends_with_sub;
use crate::text::lower_of;
use crate::text::lowercase;
use crate::text::seq_contains;
use crate::text::seq_ends_with;
use crate::text::str_eq;

verus! {

/// The error surfaced when an input cannot be parsed as a URL.
#[derive(Debug, Clone, Copy, PartialEq, Eq, Structural)]
pub enum UrlError {
    Invalid,
}

/// What `url::Url::parse` followed by `url::Url::host_str` yields for a given
/// input string: nothing when the input does not parse as an absolute URL,
/// otherwise the host component, empty when the parsed URL has none.
pub uninterp spec fn url_host_of(s: Seq<char>) -> Option<Seq<char>>;

/// Relies on `url::Url::parse` and `url::Url::host_str`: both depend on the
/// input string alone; `parse` rejects exactly the strings that are not
/// absolute URLs, and `host_str` hands back the host component when the
/// parsed URL has one.
#[verifier::external_body]
fn parse_host(s: &str) -> (r: Option<String>)
    ensures
        r is Some <==> url_host_of(s@) is Some,
        r matches Some(h) ==> url_host_of(s@) == Some(h@),
{
    match url::Url::parse(s) {
        Ok(u) => match u.host_str() {
            Some(h) => Some(h.to_string()),
            None => Some(String::new()),
        },
        Err(_) => None,
    }
}

/// The string actually parsed: schemeless inputs are read as `http://` URLs.
pub open spec fn effective_url(u: Seq<char>) -> Seq<char> {
    if seq_contains(u, "://"@) {
        u
    } else {
        "http://"@ + u
    }
}

/// The lowercased host of `u`, or an error when `u` is not a valid URL;
/// inputs without a scheme are parsed as `http://` URLs, and a URL without
/// a host yields the empty string.
pub fn parse_url_host(u: &str) -> (r: Result<String, UrlError>)
    ensures
        r is Ok <==> url_host_of(effective_url(u@)) is Some,
        r matches Ok(h) ==> (url_host_of(effective_url(u@)) matches Some(hs) && h@ == lower_of(
            hs,
        )),
{
    let eff: String = if contains_sub(u, "://") {
        String::from_str(u)
    } else {
        String::from_str("http://").concat(u)
    };
    match parse_host(eff.as_str()) {
        Some(h) => Ok(lowercase(h.as_str())),
        None => Err(UrlError::Invalid),
    }
}

/// A client name matches a section when the lowercased name contains one of
/// the section's client substrings, lowercased.
pub open spec fn client_matches(c: Seq<char>, sec: RuleSection) -> bool {
    exists|j: int|
        0 <= j < sec.clients@.len() && seq_contains(
            lower_of(c),
            lower_of((#[trigger] sec.clients@[j])@),
        )
}

/// A host matches a pattern when, after lowercasing both, they are equal or
/// the host ends with a dot followed by the pattern.
pub open spec fn host_pattern_matches(h: Seq<char>, p: Seq<char>) -> bool {
    lower_of(h) == lower_of(p) || seq_ends_with(lower_of(h), "."@ + lower_of(p))
}

/// A host matches a section when one of its patterns matches.
pub open spec fn host_matches(h: Seq<char>, sec: RuleSection) -> bool {
    exists|j: int|
        0 <= j < sec.url@.len() && host_pattern_matches(h, (#[trigger] sec.url@[j])@)
}

/// The first section whose client substrings match `c`, in section order.
pub open spec fn find_client_section(
    c: Seq<char>,
    secs: Seq<(String, RuleSection)>,
) -> Option<RuleSection>
    decreases secs.len(),
{
    if secs.len() == 0 {
        None
    } else if client_matches(c, secs[0].1) {
        Some(secs[0].1)
    } else {
        find_client_section(c, secs.drop_first())
    }
}

/// The first section one of whose host patterns matches `h`, in section order.
pub open spec fn find_host_section(
    h: Seq<char>,
    secs: Seq<(String, RuleSection)>,
) -> Option<RuleSection>
    decreases secs.len(),
{
    if secs.len() == 0 {
        None
    } else if host_matches(h, secs[0].1) {
        Some(secs[0].1)
    } else {
        find_host_section(h, secs.drop_first())
    }
}

/// The lowercased host of `u`, exactly as `parse_url_host` produces it.
pub fn url_host(u: &str) -> (r: Result<String, UrlError>)
    ensures
        r is Ok <==> url_host_of(effective_url(u@)) is Some,
        r matches Ok(h) ==> (url_host_of(effective_url(u@)) matches Some(hs) && h@ == lower_of(
            hs,
        )),
{
    parse_url_host(u)
}

/// The search succeeds exactly when some section matches the client name:
/// a section holding a lowercased substring of the lowercased name is
/// found, and nothing is found without one.
pub proof fn lemma_client_match_iff(c: Seq<char>, secs: Seq<(String, RuleSection)>)
    ensures
        find_client_section(c, secs) is Some <==> exists|i: int|
            0 <= i < secs.len() && client_matches(c, (#[trigger] secs[i]).1),
    decreases secs.len(),
{
    if secs.len() > 0 && !client_matches(c, secs[0].1) {
        let tail = secs.drop_first();
        lemma_client_match_iff(c, tail);
        assert(forall|k: int| 0 <= k < tail.len() ==> #[trigger] tail[k] == secs[k + 1]);
        if find_client_section(c, secs) is Some {
            let i = choose|i: int| 0 <= i < tail.len() && client_matches(c, (#[trigger] tail[i]).1);
            assert(client_matches(c, secs[i + 1].1));
        }
        if exists|i: int| 0 <= i < secs.len() && client_matches(c, (#[trigger] secs[i]).1) {
            let i = choose|i: int| 0 <= i < secs.len() && client_matches(c, (#[trigger] secs[i]).1);
            assert(client_matches(c, tail[i - 1].1));
        }
    }
}

/// The search succeeds exactly when some section matches the host: a
/// section holding a pattern the lowercased host equals, or ends with after
/// a dot, is found, and nothing is found without one.
pub proof fn lemma_host_match_iff(h: Seq<char>, secs: Seq<(String, RuleSection)>)
    ensures
        find_host_section(h, secs) is Some <==> exists|i: int|
            0 <= i < secs.len() && host_matches(h, (#[trigger] secs[i]).1),
    decreases secs.len(),
{
    if secs.len() > 0 && !host_matches(h, secs[0].1) {
        let tail = secs.drop_first();
        lemma_host_match_iff(h, tail);
        assert(forall|k: int| 0 <= k < tail.len() ==> #[trigger] tail[k] == secs[k + 1]);
        if find_host_section(h, secs) is Some {
            let i = choose|i: int| 0 <= i < tail.len() && host_matches(h, (#[trigger] tail[i]).1);
            assert(host_matches(h, secs[i + 1].1));
        }
        if exists|i: int| 0 <= i < secs.len() && host_matches(h, (#[trigger] secs[i]).1) {
            let i = choose|i: int| 0 <= i < secs.len() && host_matches(h, (#[trigger] secs[i]).1);
            assert(host_matches(h, tail[i - 1].1));
        }
    }
}

/// A configured substring contained in the lowercased client name selects
/// its section: when no earlier section matches, the search returns exactly
/// the section holding the substring.
pub proof fn lemma_client_substring_selects(
    c: Seq<char>,
    secs: Seq<(String, RuleSection)>,
    i: int,
    j: int,
)
    requires
        0 <= i < secs.len(),
        0 <= j < secs[i].1.clients@.len(),
        seq_contains(lower_of(c), lower_of((secs[i].1.clients@[j])@)),
        forall|k: int| 0 <= k < i ==> !client_matches(c, (#[trigger] secs[k]).1),
    ensures
        find_client_section(c, secs) == Some(secs[i].1),
    decreases i,
{
    if i == 0 {
        assert(client_matches(c, secs[0].1));
    } else {
        let tail = secs.drop_first();
        assert(forall|k: int| 0 <= k < tail.len() ==> #[trigger] tail[k] == secs[k + 1]);
        assert(!client_matches(c, secs[0].1));
        lemma_client_substring_selects(c, tail, i - 1, j);
    }
}

/// The first section whose client substrings match the detected client
/// name, or nothing when no section matches.
pub fn match_client<'a>(
    client: &str,
    sections: &'a Vec<(String, RuleSection)>,
) -> (r: Option<&'a RuleSection>)
    ensures
        match r {
            Some(sec) => find_client_section(client@, sections@) == Some(*sec),
            None => find_client_section(client@, sections@) is None,
        },
{
    let c = lowercase(client);
    let n = sections.len();
    proof {
        assert(sections@.skip(0) =~= sections@);
    }
    let mut i: usize = 0;
    while i < n
        invariant
            n == sections@.len(),
            0 <= i <= n,
            c@ == lower_of(client@),
            find_client_section(client@, sections@) == find_client_section(
                client@,
                sections@.skip(i as int),
            ),
        decreases n - i,
    {
        proof {
            assert(sections@.skip(i as int)[0] == sections@[i as int]);
        }
        let sec = &sections[i].1;
        let m = sec.clients.len();
        let mut j: usize = 0;
        while j < m
            invariant
                n == sections@.len(),
                0 <= i < n,
                m == sec.clients@.len(),
                0 <= j <= m,
                sec == &sections@[i as int].1,
                c@ == lower_of(client@),
                find_client_section(client@, sections@) == find_client_section(
                    client@,
                    sections@.skip(i as int),
                ),
                forall|k: int|
                    0 <= k < j ==> !seq_contains(
                        lower_of(client@),
                        lower_of((#[trigger] sec.clients@[k])@),
                    ),
            decreases m - j,
        {
            let needle = lowercase(sec.clients[j].as_str());
            if contains_sub(c.as_str(), needle.as_str()) {
                proof {
                    assert(client_matches(client@, sections@[i as int].1));
                    assert(sections@.skip(i as int)[0] == sections@[i as int]);
                    assert(find_client_section(client@, sections@.skip(i as int)) == Some(
                        sections@[i as int].1,
                    ));
                }
                return Some(sec);
            }
            j += 1;
        }
        proof {
            assert(!client_matches(client@, sections@[i as int].1));
            assert(sections@.skip(i as int).drop_first() =~= sections@.skip(i + 1));
        }
        i += 1;
    }
    proof {
        assert(sections@.skip(n as int).len() == 0);
    }
    None
}

/// The first section one of whose host patterns matches the URL host, or
/// nothing when no section matches.
pub fn match_host<'a>(
    host: &str,
    sections: &'a Vec<(String, RuleSection)>,
) -> (r: Option<&'a RuleSection>)
    ensures
        match r {
            Some(sec) => find_host_section(host@, sections@) == Some(*sec),
            None => find_host_section(host@, sections@) is None,
        },
{
    let h = lowercase(host);
    let n = sections.len();
    proof {
        assert(sections@.skip(0) =~= sections@);
    }
    let mut i: usize = 0;
    while i < n
        invariant
            n == sections@.len(),
            0 <= i <= n,
            h@ == lower_of(host@),
            find_host_section(host@, sections@) == find_host_section(
                host@,
                sections@.skip(i as int),
            ),
        decreases n - i,
    {
        proof {
            assert(sections@.skip(i as int)[0] == sections@[i as int]);
        }
        let sec = &sections[i].1;
        let m = sec.url.len();
        let mut j: usize = 0;
        while j < m
            invariant
                n == sections@.len(),
                0 <= i < n,
                m == sec.url@.len(),
                0 <= j <= m,
                sec == &sections@[i as int].1,
                h@ == lower_of(host@),
                find_host_section(host@, sections@) == find_host_section(
                    host@,
                    sections@.skip(i as int),
                ),
                forall|k: int|
                    0 <= k < j ==> !host_pattern_matches(host@, (#[trigger] sec.url@[k])@),
            decreases m - j,
        {
            let p = lowercase(sec.url[j].as_str());
            let dot_p = String::from_str(".").concat(p.as_str());
            let hit = str_eq(h.as_str(), p.as_str()) || ends_with_sub(h.as_str(), dot_p.as_str());
            if hit {
                proof {
                    assert(host_pattern_matches(host@, (sec.url@[j as int])@));
                    assert(host_matches(host@, sections@[i as int].1));
                    assert(sections@.skip(i as int)[0] == sections@[i as int]);
                    assert(find_host_section(host@, sections@.skip(i as int)) == Some(
                        sections@[i as int].1,
                    ));
                }
                return Some(sec);
            }
            j += 1;
        }
        proof {
            assert(!host_matches(host@, sections@[i as int].1));
            assert(sections@.skip(i as int).drop_first() =~= sections@.skip(i + 1));
        }
        i += 1;
    }
    proof {
        assert(sections@.skip(n as int).len() == 0);
    }
    None
}

} // verus!
