//! The stable hardware identifier: a machine identifier read from the
//! system, trimmed, hashed with SHA-256 and written as lower-case hex.
//!
//! Reading the system (files, commands, environment) is left to the caller;
//! this module reads what those sources returned and computes the identifier.
use vstd::prelude::*;

use sha2::Digest;

use crate::text::{
    lemma_trim_idempotent,
    chars_of, eq_ignore_ascii_case, eq_ignore_ascii_case_chars, find_chars, first_occurrence,
    push_str, slice_chars, string_of, trim, trim_chars, trim_str,
};

verus! {

// ---------------------------------------------------------------------------
// Hashing
// ---------------------------------------------------------------------------

/// The SHA-256 digest of `bytes`.
pub uninterp spec fn sha256(bytes: Seq<u8>) -> Seq<u8>;

/// `sha2::Sha256::digest` on `bytes`, copied into a vector. The contract
/// claims that the result is the named `sha256` of the bytes and holds 32
/// bytes (the digest type of `Sha256` is a 32-byte array); SHA-256 itself
/// is not restated.
#[verifier::external_body]
fn sha256_digest(bytes: &[u8]) -> (r: Vec<u8>)
    ensures
        r@ == sha256(bytes@),
        r@.len() == 32,
{
    sha2::Sha256::digest(bytes).to_vec()
}

/// The lower-case hex digit for `d < 16`.
pub open spec fn hex_digit(d: nat) -> char {
    if d < 10 {
        ('0' as u32 + d) as char
    } else {
        ('a' as u32 + d - 10) as char
    }
}

/// Each byte of `bytes` as two lower-case hex digits, in order.
pub open spec fn hex_lower(bytes: Seq<u8>) -> Seq<char>
    decreases bytes.len(),
{
    if bytes.len() == 0 {
        Seq::empty()
    } else {
        hex_lower(bytes.drop_last()) + seq![
            hex_digit((bytes.last() / 16) as nat),
            hex_digit((bytes.last() % 16) as nat),
        ]
    }
}

/// The identifier for the raw machine identifier `raw_id`.
pub open spec fn hwid_for(raw_id: Seq<char>) -> Seq<char> {
    hex_lower(sha256(vstd::utf8::encode_utf8(trim(raw_id))))
}

fn hex_digit_char(d: u8) -> (c: char)
    requires
        d < 16,
    ensures
        c == hex_digit(d as nat),
{
    if d < 10 {
        ((48 + d) as u8) as char
    } else {
        ((87 + d) as u8) as char
    }
}

/// `bytes` as lower-case hex, two digits per byte.
pub fn hex_string(bytes: &[u8]) -> (r: String)
    ensures
        r@ == hex_lower(bytes@),
{
    let mut r = String::new();
    let mut i: usize = 0;
    while i < bytes.len()
        invariant
            0 <= i <= bytes.len(),
            r@ == hex_lower(bytes@.take(i as int)),
        decreases bytes.len() - i,
    {
        let b = bytes[i];
        r.push(hex_digit_char(b / 16));
        r.push(hex_digit_char(b % 16));
        i += 1;
        assert(bytes@.take(i as int).drop_last() =~= bytes@.take(i - 1));
        assert(hex_lower(bytes@.take(i - 1)).push(hex_digit((b / 16) as nat)).push(
            hex_digit((b % 16) as nat),
        ) =~= hex_lower(bytes@.take(i - 1)) + seq![
            hex_digit((b / 16) as nat),
            hex_digit((b % 16) as nat),
        ]);
    }
    assert(bytes@.take(bytes.len() as int) =~= bytes@);
    r
}

/// The SHA-256 digest of `bytes` as lower-case hex.
pub fn sha256_hex(bytes: &[u8]) -> (r: String)
    ensures
        r@ == hex_lower(sha256(bytes@)),
        r@.len() == 64,
{
    let digest = sha256_digest(bytes);
    proof {
        lemma_hex_lower_len(digest@);
    }
    hex_string(digest.as_slice())
}

/// Hex doubles the length.
pub proof fn lemma_hex_lower_len(bytes: Seq<u8>)
    ensures
        hex_lower(bytes).len() == 2 * bytes.len(),
    decreases bytes.len(),
{
    if bytes.len() > 0 {
        lemma_hex_lower_len(bytes.drop_last());
    }
}

/// The stable hardware identifier for the raw machine identifier `raw_id`:
/// the SHA-256 digest of its trimmed UTF-8 bytes, in lower-case hex.
pub fn stable_hwid(raw_id: &str) -> (r: String)
    ensures
        r@ == hwid_for(raw_id@),
        r@.len() == 64,
{
    let trimmed = trim_str(raw_id);
    sha256_hex(trimmed.as_str().as_bytes())
}

// ---------------------------------------------------------------------------
// Machine identifiers
// ---------------------------------------------------------------------------

pub const UNKNOWN_HOST: &'static str = "unknown-host";

pub const UNKNOWN_USER: &'static str = "unknown-user";

pub const IOREG_KEY: &'static str = "IOPlatformUUID";

pub const WMIC_HEADER: &'static str = "uuid";

/// The identifier used when the system offers no machine identifier: the
/// host name and the user name, trimmed and joined by a colon.
pub open spec fn fallback_id_for(hostname: Option<Seq<char>>, user: Option<Seq<char>>) -> Seq<
    char,
> {
    let h = match hostname {
        Some(h) => h,
        None => UNKNOWN_HOST@,
    };
    let u = match user {
        Some(u) => u,
        None => UNKNOWN_USER@,
    };
    trim(h) + seq![':'] + trim(u)
}

/// The view of an optional string.
pub open spec fn opt_view(o: Option<String>) -> Option<Seq<char>> {
    match o {
        Some(s) => Some(s@),
        None => None,
    }
}

/// The identifier used when the system offers no machine identifier, given
/// the output of the `hostname` command (when it ran and was UTF-8) and the
/// user name from the environment (when set).
pub fn fallback_machine_id(hostname: Option<String>, user: Option<String>) -> (r: String)
    ensures
        r@ == fallback_id_for(opt_view(hostname), opt_view(user)),
{
    let h = match hostname {
        Some(h) => h,
        None => UNKNOWN_HOST.to_owned(),
    };
    let u = match user {
        Some(u) => u,
        None => UNKNOWN_USER.to_owned(),
    };
    let mut r = trim_str(h.as_str());
    r.push(':');
    let tu = trim_str(u.as_str());
    push_str(&mut r, tu.as_str());
    r
}

/// A trimmed identifier, when it is not empty.
pub open spec fn nonblank(s: Seq<char>) -> Option<Seq<char>> {
    if trim(s).len() > 0 {
        Some(trim(s))
    } else {
        None
    }
}

/// The machine identifier in the contents of a machine-id file (when it
/// could be read): the trimmed contents, unless empty.
pub fn machine_id_from_file(contents: Option<String>) -> (r: Option<String>)
    ensures
        opt_view(r) == match opt_view(contents) {
            Some(c) => nonblank(c),
            None => None,
        },
{
    match contents {
        None => None,
        Some(c) => {
            let t = trim_str(c.as_str());
            if t.as_str().is_empty() {
                None
            } else {
                Some(t)
            }
        },
    }
}

// --- lines -----------------------------------------------------------------

/// The lines ended by a newline so far (with any carriage return still on
/// them), and the unfinished line after them.
pub open spec fn line_split(s: Seq<char>) -> (Seq<Seq<char>>, Seq<char>)
    decreases s.len(),
{
    if s.len() == 0 {
        (Seq::empty(), Seq::empty())
    } else {
        let (done, cur) = line_split(s.drop_last());
        if s.last() == '\n' {
            (done.push(cur), Seq::empty())
        } else {
            (done, cur.push(s.last()))
        }
    }
}

/// A line without the carriage return before its newline.
pub open spec fn strip_cr(line: Seq<char>) -> Seq<char> {
    if line.len() > 0 && line.last() == '\r' {
        line.drop_last()
    } else {
        line
    }
}

/// The lines of `s` as `str::lines` yields them: split at each newline, a
/// carriage return just before a newline dropped, and no empty line after a
/// final newline.
pub open spec fn lines(s: Seq<char>) -> Seq<Seq<char>> {
    let (done, cur) = line_split(s);
    let ended = done.map_values(|l: Seq<char>| strip_cr(l));
    if cur.len() > 0 {
        ended.push(cur)
    } else {
        ended
    }
}

/// The lines of `v`, as `str::lines` yields them.
pub fn split_lines(v: &[char]) -> (r: Vec<Vec<char>>)
    ensures
        r@.len() == lines(v@).len(),
        forall|k: int| 0 <= k < r@.len() ==> #[trigger] r@[k]@ == lines(v@)[k],
{
    let mut done: Vec<Vec<char>> = Vec::new();
    let mut cur: Vec<char> = Vec::new();
    let mut i: usize = 0;
    while i < v.len()
        invariant
            0 <= i <= v.len(),
            line_split(v@.take(i as int)).1 == cur@,
            done@.len() == line_split(v@.take(i as int)).0.len(),
            forall|k: int|
                0 <= k < done@.len() ==> #[trigger] done@[k]@ == strip_cr(
                    line_split(v@.take(i as int)).0[k],
                ),
        decreases v.len() - i,
    {
        assert(v@.take(i + 1).drop_last() =~= v@.take(i as int));
        let c = v[i];
        if c == '\n' {
            let ended = strip_cr_chars(&cur);
            done.push(ended);
            cur = Vec::new();
        } else {
            cur.push(c);
        }
        i += 1;
    }
    assert(v@.take(v.len() as int) =~= v@);
    if cur.len() > 0 {
        done.push(cur);
    }
    done
}

fn strip_cr_chars(line: &[char]) -> (r: Vec<char>)
    ensures
        r@ == strip_cr(line@),
{
    if line.len() > 0 && line[line.len() - 1] == '\r' {
        slice_chars(line, 0, line.len() - 1)
    } else {
        slice_chars(line, 0, line.len())
    }
}

// --- ioreg (macOS) ---------------------------------------------------------

/// The trimmed text between the first two double quotes of `value`,
/// unless empty.
pub open spec fn quoted_uuid(value: Seq<char>) -> Option<Seq<char>> {
    match first_occurrence(value, seq!['"']) {
        None => None,
        Some(q) => {
            let rest = value.subrange(q + 1, value.len() as int);
            match first_occurrence(rest, seq!['"']) {
                None => None,
                Some(e) => nonblank(rest.subrange(0, e)),
            }
        },
    }
}

/// The identifier that one line of `ioreg` output names: after the first
/// `IOPlatformUUID`, the text between the next two double quotes, trimmed,
/// unless empty.
pub open spec fn ioreg_line_uuid(line: Seq<char>) -> Option<Seq<char>> {
    match first_occurrence(line, IOREG_KEY@) {
        None => None,
        Some(p) => quoted_uuid(line.subrange(p + IOREG_KEY@.len(), line.len() as int)),
    }
}

/// The first line of `ls` for which `ioreg_line_uuid` gives an identifier.
pub open spec fn first_ioreg_uuid(ls: Seq<Seq<char>>) -> Option<Seq<char>>
    decreases ls.len(),
{
    if ls.len() == 0 {
        None
    } else {
        match ioreg_line_uuid(ls[0]) {
            Some(u) => Some(u),
            None => first_ioreg_uuid(ls.drop_first()),
        }
    }
}

/// The platform UUID in the output of `ioreg -rd1 -c IOPlatformExpertDevice`.
pub open spec fn ioreg_uuid(stdout: Seq<char>) -> Option<Seq<char>> {
    first_ioreg_uuid(lines(stdout))
}

fn quoted_uuid_exec(value: &[char]) -> (r: Option<String>)
    ensures
        opt_view(r) == quoted_uuid(value@),
{
    let mut quote: Vec<char> = Vec::new();
    quote.push('"');
    assert(quote@ =~= seq!['"']);
    match find_chars(value, &quote) {
        None => None,
        Some(q) => {
            let n = value.len();
            let rest = slice_chars(value, q + 1, n);
            match find_chars(&rest, &quote) {
                None => None,
                Some(e) => {
                    let inner = slice_chars(&rest, 0, e);
                    let t = trim_chars(&inner);
                    if t.len() > 0 {
                        Some(string_of(&t))
                    } else {
                        None
                    }
                },
            }
        },
    }
}

fn ioreg_line_uuid_exec(line: &[char]) -> (r: Option<String>)
    ensures
        opt_view(r) == ioreg_line_uuid(line@),
{
    let key = chars_of(IOREG_KEY);
    match find_chars(line, &key) {
        None => None,
        Some(p) => {
            let n = line.len();
            let value = slice_chars(line, p + key.len(), n);
            quoted_uuid_exec(&value)
        },
    }
}

/// The platform UUID in the output of `ioreg -rd1 -c IOPlatformExpertDevice`
/// (read as text), if a line names a non-empty one.
pub fn parse_ioreg_uuid(stdout: &str) -> (r: Option<String>)
    ensures
        opt_view(r) == ioreg_uuid(stdout@),
{
    let v = chars_of(stdout);
    let ls = split_lines(&v);
    let ghost all = lines(stdout@);
    let mut i: usize = 0;
    assert(all.subrange(0, all.len() as int) =~= all);
    while i < ls.len()
        invariant
            0 <= i <= ls.len() == all.len(),
            all == lines(stdout@),
            forall|k: int| 0 <= k < ls@.len() ==> #[trigger] ls@[k]@ == all[k],
            first_ioreg_uuid(all) == first_ioreg_uuid(all.subrange(i as int, all.len() as int)),
        decreases ls.len() - i,
    {
        let ghost rest = all.subrange(i as int, all.len() as int);
        assert(rest[0] == ls@[i as int]@);
        let found = ioreg_line_uuid_exec(&ls[i]);
        if found.is_some() {
            return found;
        }
        assert(rest.drop_first() =~= all.subrange(i + 1, all.len() as int));
        i += 1;
    }
    None
}

// --- wmic (Windows) --------------------------------------------------------

/// The first line of `ls` that, trimmed, is neither empty nor the `uuid`
/// header (in any ASCII case), trimmed.
pub open spec fn first_wmic_uuid(ls: Seq<Seq<char>>) -> Option<Seq<char>>
    decreases ls.len(),
{
    if ls.len() == 0 {
        None
    } else if trim(ls[0]).len() > 0 && !eq_ignore_ascii_case(trim(ls[0]), WMIC_HEADER@) {
        Some(trim(ls[0]))
    } else {
        first_wmic_uuid(ls.drop_first())
    }
}

/// The UUID in the output of `wmic csproduct get uuid`.
pub open spec fn wmic_uuid(stdout: Seq<char>) -> Option<Seq<char>> {
    first_wmic_uuid(lines(stdout))
}

/// The UUID in the output of `wmic csproduct get uuid` (read as text): the
/// first line that is neither blank nor the `uuid` header, trimmed.
pub fn parse_wmic_uuid(stdout: &str) -> (r: Option<String>)
    ensures
        opt_view(r) == wmic_uuid(stdout@),
{
    let v = chars_of(stdout);
    let ls = split_lines(&v);
    let header = chars_of(WMIC_HEADER);
    let ghost all = lines(stdout@);
    let mut i: usize = 0;
    assert(all.subrange(0, all.len() as int) =~= all);
    while i < ls.len()
        invariant
            0 <= i <= ls.len() == all.len(),
            all == lines(stdout@),
            header@ == WMIC_HEADER@,
            forall|k: int| 0 <= k < ls@.len() ==> #[trigger] ls@[k]@ == all[k],
            first_wmic_uuid(all) == first_wmic_uuid(all.subrange(i as int, all.len() as int)),
        decreases ls.len() - i,
    {
        let ghost rest = all.subrange(i as int, all.len() as int);
        assert(rest[0] == ls@[i as int]@);
        let t = trim_chars(&ls[i]);
        if t.len() > 0 && !eq_ignore_ascii_case_chars(&t, &header) {
            return Some(string_of(&t));
        }
        assert(rest.drop_first() =~= all.subrange(i + 1, all.len() as int));
        i += 1;
    }
    None
}

// ---------------------------------------------------------------------------
// Laws
// ---------------------------------------------------------------------------

/// White space around the machine identifier does not change the hardware
/// identifier.
pub proof fn law_hwid_ignores_surrounding_space(raw_id: Seq<char>)
    ensures
        hwid_for(trim(raw_id)) == hwid_for(raw_id),
{
    lemma_trim_idempotent(raw_id);
}

/// The hardware identifier is lower-case hex, two digits for each byte of
/// the digest.
pub proof fn law_hwid_is_hex(raw_id: Seq<char>)
    ensures
        hwid_for(raw_id).len() == 2 * sha256(vstd::utf8::encode_utf8(trim(raw_id))).len(),
        forall|i: int|
            0 <= i < hwid_for(raw_id).len() ==> ('0' <= #[trigger] hwid_for(raw_id)[i] <= '9'
                || 'a' <= hwid_for(raw_id)[i] <= 'f'),
{
    lemma_hex_lower_len(sha256(vstd::utf8::encode_utf8(trim(raw_id))));
    lemma_hex_lower_digits(sha256(vstd::utf8::encode_utf8(trim(raw_id))));
}

/// Hex digits only.
pub proof fn lemma_hex_lower_digits(bytes: Seq<u8>)
    ensures
        forall|i: int|
            0 <= i < hex_lower(bytes).len() ==> ('0' <= #[trigger] hex_lower(bytes)[i] <= '9'
                || 'a' <= hex_lower(bytes)[i] <= 'f'),
    decreases bytes.len(),
{
    if bytes.len() > 0 {
        lemma_hex_lower_digits(bytes.drop_last());
        let prefix = hex_lower(bytes.drop_last());
        let hi = hex_digit((bytes.last() / 16) as nat);
        let lo = hex_digit((bytes.last() % 16) as nat);
        assert forall|i: int| 0 <= i < hex_lower(bytes).len() implies ('0' <= #[trigger] hex_lower(
            bytes,
        )[i] <= '9' || 'a' <= hex_lower(bytes)[i] <= 'f') by {
            if i < prefix.len() {
                assert(hex_lower(bytes)[i] == prefix[i]);
            } else if i == prefix.len() {
                assert(hex_lower(bytes)[i] == hi);
            } else {
                assert(hex_lower(bytes)[i] == lo);
            }
        }
    }
}

} // verus!
