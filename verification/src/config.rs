//! Where the program API lives: the configured host and the base URL that
//! every request is built on.
use vstd::prelude::*;

use crate::text::{
    chars_of, ends_with, ends_with_chars, lemma_ends_with_concat, lemma_strip_trailing_fixed,
    lemma_trim_fixed, push_str, starts_with, starts_with_chars, string_of, strip_trailing,
    strip_trailing_chars, trim, trim_chars,
};

verus! {

/// The host used when none is configured.
pub const DEFAULT_HOST: &'static str = "http://localhost:3000/";

/// The environment variable that names the host.
pub const HOST_ENV_VAR: &'static str = "PROGRAM_API_HOST";

/// The path of the program API below the host.
pub const PROGRAM_API_PATH: &'static str = "api/programs";

pub const HTTP_PREFIX: &'static str = "http://";

pub const HTTPS_PREFIX: &'static str = "https://";

/// Where the program API is reached.
#[derive(Debug, Clone)]
pub struct AppConfig {
    pub host: String,
}

/// `value` begins with an HTTP or HTTPS scheme.
pub open spec fn has_scheme_spec(value: Seq<char>) -> bool {
    starts_with(value, HTTP_PREFIX@) || starts_with(value, HTTPS_PREFIX@)
}

/// The trimmed host, with `http://` put in front when it names no scheme.
pub open spec fn with_scheme(trimmed: Seq<char>) -> Seq<char> {
    if has_scheme_spec(trimmed) {
        trimmed
    } else {
        HTTP_PREFIX@ + trimmed
    }
}

/// The host trimmed, given a scheme, and stripped of trailing slashes.
pub open spec fn normalized_host(host: Seq<char>) -> Seq<char> {
    strip_trailing(with_scheme(trim(host)), '/')
}

/// The program API base URL for `host`: the normalized host, followed by
/// `/api/programs` unless it already ends with `api/programs`.
pub open spec fn api_base_url_for(host: Seq<char>) -> Seq<char> {
    let n = normalized_host(host);
    if ends_with(n, PROGRAM_API_PATH@) {
        n
    } else {
        n + seq!['/'] + PROGRAM_API_PATH@
    }
}

/// The configured host: the environment's value when it has one, else
/// [`DEFAULT_HOST`].
pub open spec fn configured_host_for(env_value: Option<Seq<char>>) -> Seq<char> {
    match env_value {
        Some(v) => v,
        None => DEFAULT_HOST@,
    }
}

impl AppConfig {
    /// The base URL of the program API for this configuration.
    pub fn api_base_url(&self) -> (r: String)
        ensures
            r@ == api_base_url_for(self.host@),
    {
        program_api_base_url(self.host.as_str())
    }
}

/// The host to use, given the value of [`HOST_ENV_VAR`] when it is set (and
/// is valid Unicode).
pub fn configured_host(env_value: Option<String>) -> (r: String)
    ensures
        r@ == configured_host_for(
            match env_value {
                Some(v) => Some(v@),
                None => None,
            },
        ),
{
    match env_value {
        Some(v) => v,
        None => DEFAULT_HOST.to_owned(),
    }
}

/// Whether `value` begins with `http://` or `https://`.
fn has_scheme(value: &[char]) -> (r: bool)
    ensures
        r == has_scheme_spec(value@),
{
    let http = chars_of(HTTP_PREFIX);
    let https = chars_of(HTTPS_PREFIX);
    starts_with_chars(value, &http) || starts_with_chars(value, &https)
}

/// The host trimmed, prefixed with `http://` when it names no scheme, and
/// without trailing slashes.
pub fn normalize_host(host: &str) -> (r: String)
    ensures
        r@ == normalized_host(host@),
{
    let v = chars_of(host);
    let trimmed = trim_chars(&v);
    let with = if has_scheme(&trimmed) {
        trimmed
    } else {
        let mut w = chars_of(HTTP_PREFIX);
        let mut i: usize = 0;
        while i < trimmed.len()
            invariant
                0 <= i <= trimmed.len(),
                w@ == HTTP_PREFIX@ + trimmed@.take(i as int),
            decreases trimmed.len() - i,
        {
            w.push(trimmed[i]);
            i += 1;
            assert(trimmed@.take(i as int) =~= trimmed@.take(i - 1).push(trimmed@[i - 1]));
        }
        assert(trimmed@.take(trimmed.len() as int) =~= trimmed@);
        w
    };
    let stripped = strip_trailing_chars(&with, '/');
    string_of(&stripped)
}

/// The program API base URL for `host`.
pub fn program_api_base_url(host: &str) -> (r: String)
    ensures
        r@ == api_base_url_for(host@),
{
    let normalized = normalize_host(host);
    let n = chars_of(normalized.as_str());
    let path = chars_of(PROGRAM_API_PATH);
    if ends_with_chars(&n, &path) {
        normalized
    } else {
        let mut r = normalized;
        r.push('/');
        push_str(&mut r, PROGRAM_API_PATH);
        r
    }
}

// ---------------------------------------------------------------------------
// Laws
// ---------------------------------------------------------------------------

/// The base URL always ends with the program API path.
pub proof fn law_api_base_url_ends_with_api_path(host: Seq<char>)
    ensures
        ends_with(api_base_url_for(host), PROGRAM_API_PATH@),
{
    let n = normalized_host(host);
    if !ends_with(n, PROGRAM_API_PATH@) {
        lemma_ends_with_concat(n + seq!['/'], PROGRAM_API_PATH@);
    }
}

/// Building the base URL from a base URL gives it back unchanged, for every
/// host whose normalized form still names a scheme (the host is not empty
/// and is not a bare scheme followed by slashes).
pub proof fn law_api_base_url_idempotent(host: Seq<char>)
    requires
        has_scheme_spec(normalized_host(host)),
    ensures
        api_base_url_for(api_base_url_for(host)) == api_base_url_for(host),
{
    let n = normalized_host(host);
    let r = api_base_url_for(host);
    reveal_strlit("http://");
    reveal_strlit("https://");
    reveal_strlit("api/programs");
    law_api_base_url_ends_with_api_path(host);
    // `r` begins with the scheme of `n`, so neither end of `r` is white space
    // and `r` names a scheme.
    assert(starts_with(r, HTTP_PREFIX@) || starts_with(r, HTTPS_PREFIX@)) by {
        if !ends_with(n, PROGRAM_API_PATH@) {
            if starts_with(n, HTTP_PREFIX@) {
                assert(r.subrange(0, 7) =~= n.subrange(0, 7));
            } else {
                assert(r.subrange(0, 8) =~= n.subrange(0, 8));
            }
        }
    }
    assert(r[0] == 'h') by {
        if starts_with(r, HTTP_PREFIX@) {
            assert(r.subrange(0, 7)[0] == r[0]);
        } else {
            assert(r.subrange(0, 8)[0] == r[0]);
        }
    }
    assert(r.last() == 's') by {
        assert(r.subrange(r.len() - 12, r.len() as int)[11] == r.last());
    }
    lemma_trim_fixed(r);
    assert(with_scheme(trim(r)) == r);
    lemma_strip_trailing_fixed(r, '/');
}

} // verus!
