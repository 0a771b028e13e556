//! Security utilities: masking of secret values in log text, and file
//! permission checks.
//!
//! Masking applies a fixed list of secret-shaped patterns, in order, to the
//! input; every match is replaced by its key name followed by a redaction
//! marker. The pattern matching itself is regular-expression work done by an
//! outside crate; what each match is replaced with is computed here and
//! verified.

use crate::strutil::push_char;
use vstd::prelude::*;
use vstd::string::StringExecFns;

verus! {

/// The position of the first '=' or ':' in a sequence, or -1 when there is
/// none.
pub open spec fn find_separator(s: Seq<char>) -> int
    decreases s.len(),
{
    if s.len() == 0 {
        -1
    } else if s[0] == '=' || s[0] == ':' {
        0
    } else {
        let r = find_separator(s.skip(1));
        if r < 0 {
            -1
        } else {
            r + 1
        }
    }
}

/// What a matched secret is replaced with: everything before the first '='
/// or ':' (the key name; the whole match when there is neither), followed by
/// an `=` and the redaction marker.
pub open spec fn redaction_spec(m: Seq<char>) -> Seq<char> {
    let i = find_separator(m);
    (if i < 0 {
        m
    } else {
        m.take(i)
    }) + "=***REDACTED***"@
}

proof fn lemma_find_separator_at(s: Seq<char>, m: int)
    requires
        0 <= m <= s.len(),
        forall|k: int| 0 <= k < m ==> s[k] != '=' && s[k] != ':',
        m < s.len() ==> s[m] == '=' || s[m] == ':',
    ensures
        m == s.len() ==> find_separator(s) == -1,
        m < s.len() ==> find_separator(s) == m,
    decreases m,
{
    if m > 0 {
        lemma_find_separator_at(s.skip(1), m - 1);
    }
}

/// The replacement for one matched secret: its key name (the part before the
/// first '=' or ':') and the redaction marker.
pub fn redaction_for(m: &str) -> (r: String)
    ensures
        r@ == redaction_spec(m@),
{
    let n = m.unicode_len();
    let mut i: usize = 0;
    while i < n && m.get_char(i) != '=' && m.get_char(i) != ':'
        invariant
            0 <= i <= n,
            n == m@.len(),
            forall|k: int| 0 <= k < i ==> m@[k] != '=' && m@[k] != ':',
        decreases n - i,
    {
        i = i + 1;
    }
    proof {
        lemma_find_separator_at(m@, i as int);
        if i < n {
        } else {
            assert(m@.take(n as int) =~= m@);
        }
    }
    let mut out = m.substring_char(0, i).to_owned();
    out.append("=***REDACTED***");
    proof {
        assert(m@.subrange(0, i as int) =~= m@.take(i as int));
    }
    out
}

/// What `regex::Regex::replace_all` leaves of `hay` when every
/// non-overlapping match of `pattern` is replaced by `redaction_for` of the
/// matched text; a function of the pattern and the text alone.
pub uninterp spec fn masked_once(pattern: Seq<char>, hay: Seq<char>) -> Seq<char>;

/// Relies on `regex::Regex::new` and `regex::Regex::replace_all`: every
/// non-overlapping match of `pattern` in `hay` is replaced by what
/// `redaction_for` returns for the matched text, left to right; a pattern
/// that does not compile leaves the text unchanged.
#[verifier::external_body]
fn mask_pattern(hay: &str, pattern: &str) -> (r: String)
    ensures
        r@ == masked_once(pattern@, hay@),
{
    match regex::Regex::new(pattern) {
        Ok(re) => re.replace_all(hay, |caps: &regex::Captures| {
            redaction_for(caps.get(0).unwrap().as_str())
        }).into_owned(),
        Err(_) => hay.to_owned(),
    }
}

/// The masking of a text: the four secret-shaped patterns applied in order,
/// each replacing its matches with the key name and the redaction marker.
pub open spec fn mask_all(s: Seq<char>) -> Seq<char> {
    masked_once(
        "password[=:]\\s*['\"]?([^\\s'\"]{8,})['\"]?"@,
        masked_once(
            "secret[=:]\\s*['\"]?([a-zA-Z0-9_-]{8,})['\"]?"@,
            masked_once(
                "token[=:]\\s*['\"]?([a-zA-Z0-9_-]{8,})['\"]?"@,
                masked_once("api[_-]?key[=:]\\s*['\"]?([a-zA-Z0-9_-]{8,})['\"]?"@, s),
            ),
        ),
    )
}

/// Masks sensitive values in a string so that secrets are not logged in
/// clear text: API keys, tokens, secrets and passwords, matched in that
/// order.
pub fn mask_sensitive(input: &str) -> (r: String)
    ensures
        r@ == mask_all(input@),
{
    let masked = mask_pattern(input, "api[_-]?key[=:]\\s*['\"]?([a-zA-Z0-9_-]{8,})['\"]?");
    let masked = mask_pattern(masked.as_str(), "token[=:]\\s*['\"]?([a-zA-Z0-9_-]{8,})['\"]?");
    let masked = mask_pattern(masked.as_str(), "secret[=:]\\s*['\"]?([a-zA-Z0-9_-]{8,})['\"]?");
    let masked = mask_pattern(masked.as_str(), "password[=:]\\s*['\"]?([^\\s'\"]{8,})['\"]?");
    masked
}

/// Owner-only read and write, the mode a file holding secrets should have.
pub open spec fn secure_mode(mode: u32) -> bool {
    mode & 0o777 == 0o600
}

/// Decides whether a file's permissions are secure, given its permission
/// bits as read from the file system, or nothing when they could not be
/// read: secure means readable and writable by the owner alone.
pub fn check_file_permissions(mode: Option<u32>) -> (r: bool)
    ensures
        r == (mode matches Some(m) && secure_mode(m)),
{
    match mode {
        Some(m) => m & 0o777 == 0o600,
        None => false,
    }
}

/// Decides whether a configuration file's permissions pass the security
/// check; a caller warns when this returns false.
pub fn validate_config_file_security(mode: Option<u32>) -> (r: bool)
    ensures
        r == (mode matches Some(m) && secure_mode(m)),
{
    check_file_permissions(mode)
}

} // verus!
