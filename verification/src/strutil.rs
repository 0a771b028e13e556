//! Small string helpers shared by the configuration, scanner and renderer
//! modules: equality, character appending, decimal rendering, trimming and
//! comma splitting, each with an exact specification.

use vstd::prelude::*;

verus! {

/// Relies on `<str as PartialEq>::eq`: two string slices compare equal
/// exactly when they hold the same sequence of characters.
#[verifier::external_body]
pub fn str_equal(a: &str, b: &str) -> (r: bool)
    ensures
        r == (a@ == b@),
{
    a == b
}

/// Relies on `String::push`: appends the given character at the end of the
/// string.
#[verifier::external_body]
pub fn push_char(out: &mut String, c: char)
    ensures
        final(out)@ == old(out)@.push(c),
{
    out.push(c);
}

/// The decimal digit character for a value below ten.
pub open spec fn dec_digit(d: nat) -> char {
    if d == 0 {
        '0'
    } else if d == 1 {
        '1'
    } else if d == 2 {
        '2'
    } else if d == 3 {
        '3'
    } else if d == 4 {
        '4'
    } else if d == 5 {
        '5'
    } else if d == 6 {
        '6'
    } else if d == 7 {
        '7'
    } else if d == 8 {
        '8'
    } else {
        '9'
    }
}

/// The usual decimal rendering of a natural number, most significant digit
/// first, without leading zeroes (except for zero itself).
pub open spec fn dec_str(n: nat) -> Seq<char>
    decreases n,
{
    if n < 10 {
        seq![dec_digit(n)]
    } else {
        dec_str(n / 10).push(dec_digit(n % 10))
    }
}

fn digit_char(d: usize) -> (c: char)
    requires
        d < 10,
    ensures
        c == dec_digit(d as nat),
{
    if d == 0 {
        '0'
    } else if d == 1 {
        '1'
    } else if d == 2 {
        '2'
    } else if d == 3 {
        '3'
    } else if d == 4 {
        '4'
    } else if d == 5 {
        '5'
    } else if d == 6 {
        '6'
    } else if d == 7 {
        '7'
    } else if d == 8 {
        '8'
    } else {
        '9'
    }
}

/// Renders a number in decimal.
pub fn usize_to_string(n: usize) -> (r: String)
    ensures
        r@ == dec_str(n as nat),
    decreases n,
{
    if n < 10 {
        let mut s = String::new();
        push_char(&mut s, digit_char(n));
        proof {
            assert(s@ =~= seq![dec_digit(n as nat)]);
        }
        s
    } else {
        let mut s = usize_to_string(n / 10);
        push_char(&mut s, digit_char(n % 10));
        s
    }
}

/// The characters the configuration splitter treats as blank space around a
/// scan-type name.
pub open spec fn is_space(c: char) -> bool {
    c == ' ' || c == '\t' || c == '\n' || c == '\r' || c == '\u{b}' || c == '\u{c}'
}

/// The sequence with leading space characters removed.
pub open spec fn trim_start_spec(s: Seq<char>) -> Seq<char>
    decreases s.len(),
{
    if s.len() > 0 && is_space(s[0]) {
        trim_start_spec(s.skip(1))
    } else {
        s
    }
}

/// The sequence with trailing space characters removed.
pub open spec fn trim_end_spec(s: Seq<char>) -> Seq<char>
    decreases s.len(),
{
    if s.len() > 0 && is_space(s[s.len() - 1]) {
        trim_end_spec(s.drop_last())
    } else {
        s
    }
}

/// The sequence with space characters removed at both ends.
pub open spec fn trim_spec(s: Seq<char>) -> Seq<char> {
    trim_end_spec(trim_start_spec(s))
}

proof fn lemma_trim_start_is_skip(s: Seq<char>, lo: int)
    requires
        0 <= lo <= s.len(),
        forall|k: int| 0 <= k < lo ==> is_space(s[k]),
        lo == s.len() || !is_space(s[lo]),
    ensures
        trim_start_spec(s) == s.skip(lo),
    decreases lo,
{
    if lo == 0 {
        assert(s.skip(0) =~= s);
    } else {
        assert(is_space(s[0]));
        lemma_trim_start_is_skip(s.skip(1), lo - 1);
        assert(s.skip(1).skip(lo - 1) =~= s.skip(lo));
    }
}

proof fn lemma_trim_end_is_take(s: Seq<char>, hi: int)
    requires
        0 <= hi <= s.len(),
        forall|k: int| hi <= k < s.len() ==> is_space(s[k]),
        hi == 0 || !is_space(s[hi - 1]),
    ensures
        trim_end_spec(s) == s.take(hi),
    decreases s.len() - hi,
{
    if hi == s.len() {
        if s.len() > 0 && is_space(s[s.len() - 1]) {
            assert(!is_space(s[hi - 1]));
            assert(false);
        }
        assert(s.take(hi) =~= s);
    } else {
        assert(is_space(s[s.len() - 1]));
        lemma_trim_end_is_take(s.drop_last(), hi);
        assert(s.drop_last().take(hi) =~= s.take(hi));
    }
}

fn char_is_space(c: char) -> (r: bool)
    ensures
        r == is_space(c),
{
    c == ' ' || c == '\t' || c == '\n' || c == '\r' || c == '\u{b}' || c == '\u{c}'
}

/// Returns the slice with space characters removed at both ends.
pub fn trim(s: &str) -> (r: &str)
    ensures
        r@ == trim_spec(s@),
{
    let n = s.unicode_len();
    let mut lo: usize = 0;
    while lo < n && char_is_space(s.get_char(lo))
        invariant
            0 <= lo <= n,
            n == s@.len(),
            forall|k: int| 0 <= k < lo ==> is_space(s@[k]),
        decreases n - lo,
    {
        lo = lo + 1;
    }
    let mut hi: usize = n;
    while hi > lo && char_is_space(s.get_char(hi - 1))
        invariant
            lo <= hi <= n,
            n == s@.len(),
            forall|k: int| hi <= k < n ==> is_space(s@[k]),
        decreases hi,
    {
        hi = hi - 1;
    }
    let r = s.substring_char(lo, hi);
    proof {
        lemma_trim_start_is_skip(s@, lo as int);
        if hi == lo {
            // everything from lo on is blank, so the trimmed tail is empty
            lemma_trim_end_is_take(s@.skip(lo as int), 0);
        } else {
            lemma_trim_end_is_take(s@.skip(lo as int), hi - lo);
        }
        assert(s@.skip(lo as int).take(hi - lo) =~= s@.subrange(lo as int, hi as int));
    }
    r
}

/// The position of the first comma, or -1 when there is none.
pub open spec fn find_comma(s: Seq<char>) -> int
    decreases s.len(),
{
    if s.len() == 0 {
        -1
    } else if s[0] == ',' {
        0
    } else {
        let r = find_comma(s.skip(1));
        if r < 0 {
            -1
        } else {
            r + 1
        }
    }
}

/// The comma-separated fields of a sequence; a sequence without a comma is a
/// single field, and every comma ends one field and starts the next.
pub open spec fn split_commas(s: Seq<char>) -> Seq<Seq<char>>
    decreases s.len(),
{
    let i = find_comma(s);
    if 0 <= i && i < s.len() {
        seq![s.take(i)] + split_commas(s.skip(i + 1))
    } else {
        seq![s]
    }
}

proof fn lemma_find_comma_at(s: Seq<char>, m: int)
    requires
        0 <= m <= s.len(),
        forall|k: int| 0 <= k < m ==> s[k] != ',',
        m < s.len() ==> s[m] == ',',
    ensures
        m == s.len() ==> find_comma(s) == -1,
        m < s.len() ==> find_comma(s) == m,
    decreases m,
{
    if m > 0 {
        assert(s[0] != ',');
        lemma_find_comma_at(s.skip(1), m - 1);
        assert(forall|k: int| 0 <= k < m - 1 ==> s.skip(1)[k] == s[k + 1]);
    }
}

/// Every field trimmed.
pub open spec fn trim_all(ts: Seq<Seq<char>>) -> Seq<Seq<char>> {
    ts.map_values(|t: Seq<char>| trim_spec(t))
}

proof fn lemma_trim_all_concat(a: Seq<Seq<char>>, b: Seq<Seq<char>>)
    ensures
        trim_all(a + b) =~= trim_all(a) + trim_all(b),
{
}

proof fn lemma_trim_all_singleton(t: Seq<char>)
    ensures
        trim_all(seq![t]) =~= seq![trim_spec(t)],
{
}

/// Splits on commas and trims each field.
pub fn split_trim(s: &str) -> (r: Vec<String>)
    ensures
        r.deep_view() == trim_all(split_commas(s@)),
{
    let n = s.unicode_len();
    let mut out: Vec<String> = Vec::new();
    let mut start: usize = 0;
    let mut i: usize = 0;
    proof {
        assert(s@.skip(0) =~= s@);
        assert(out.deep_view() =~= Seq::<Seq<char>>::empty());
        assert(trim_all(split_commas(s@)) =~= out.deep_view() + trim_all(
            split_commas(s@.skip(0)),
        ));
    }
    while i < n
        invariant
            0 <= start <= i <= n,
            n == s@.len(),
            forall|k: int| start <= k < i ==> s@[k] != ',',
            trim_all(split_commas(s@)) =~= out.deep_view() + trim_all(
                split_commas(s@.skip(start as int)),
            ),
        decreases n - i,
    {
        if s.get_char(i) == ',' {
            let tok = trim(s.substring_char(start, i)).to_owned();
            let ghost tok_view = tok@;
            let ghost old_out = out;
            out.push(tok);
            proof {
                let tail = s@.skip(start as int);
                lemma_find_comma_at(tail, i - start);
                assert(tail[i - start] == s@[i as int]);
                assert(split_commas(tail) == seq![tail.take(i - start)] + split_commas(
                    tail.skip(i - start + 1),
                ));
                assert(tail.take(i - start) =~= s@.subrange(start as int, i as int));
                assert(tail.skip(i - start + 1) =~= s@.skip(i + 1));
                lemma_trim_all_concat(seq![tail.take(i - start)], split_commas(s@.skip(i + 1)));
                lemma_trim_all_singleton(tail.take(i - start));
                assert(trim_all(split_commas(tail)) =~= seq![tok_view] + trim_all(
                    split_commas(s@.skip(i + 1)),
                ));
                assert(out.deep_view() =~= old_out.deep_view().push(tok_view));
                assert(trim_all(split_commas(s@)) =~= out.deep_view() + trim_all(
                    split_commas(s@.skip(i + 1)),
                ));
            }
            start = i + 1;
        }
        i = i + 1;
    }
    let tok = trim(s.substring_char(start, n)).to_owned();
    let ghost tok_view = tok@;
    let ghost old_out = out;
    out.push(tok);
    proof {
        let tail = s@.skip(start as int);
        lemma_find_comma_at(tail, n - start);
        assert(split_commas(tail) =~= seq![tail]);
        assert(tail =~= s@.subrange(start as int, n as int));
        lemma_trim_all_singleton(tail);
        assert(out.deep_view() =~= old_out.deep_view().push(tok_view));
        assert(trim_all(split_commas(s@)) =~= out.deep_view());
    }
    out
}

/// A sequence of freshly cloned strings holds the same values as its source.
pub proof fn lemma_cloned_string_seq(a: Seq<String>, b: Seq<String>)
    requires
        a.len() == b.len(),
        forall|i: int| #![all_triggers] 0 <= i < a.len() ==> cloned::<String>(a[i], b[i]),
    ensures
        a =~= b,
{
    assert forall|i: int| 0 <= i < a.len() implies a[i] == b[i] by {
        assert(cloned::<String>(a[i], b[i]));
    }
}

} // verus!
