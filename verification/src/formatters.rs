//! Output renderers for scan results.
//!
//! Each renderer is a pure function from a record collection to text:
//! a plain-text renderer with optional colouring, a structured (JSON)
//! renderer with pretty and compact modes, and a tabular (CSV) renderer with
//! a deliberately simple escaping scheme. A renderer never looks at how the
//! records were produced.

use crate::plugins::ScanResult;
use crate::strutil::{dec_str, push_char, str_equal, usize_to_string};
use vstd::prelude::*;
use vstd::string::StringExecFns;

verus! {

/// A rendering error, carrying a human-readable message.
#[derive(Debug)]
pub struct RenderError {
    /// The error message.
    pub message: String,
}

/// The contract of an output renderer: turn a record collection into one
/// finished textual artifact.
pub trait OutputFormatter {
    /// Formats scan results as a string.
    fn format(&self, results: &Vec<ScanResult>) -> Result<String, RenderError>;
}

/// The tabular escaping rule: a comma in a detail value becomes a semicolon
/// and a newline becomes a single space; nothing else is escaped.
pub open spec fn csv_escape_char(c: char) -> char {
    if c == ',' {
        ';'
    } else if c == '\n' {
        ' '
    } else {
        c
    }
}

/// A detail value with the tabular escaping rule applied to every character.
pub open spec fn csv_escape(s: Seq<char>) -> Seq<char>
    decreases s.len(),
{
    if s.len() == 0 {
        Seq::empty()
    } else {
        csv_escape(s.drop_last()).push(csv_escape_char(s.last()))
    }
}

/// One tabular row: the four fields comma-separated, the details escaped,
/// absent details rendered empty.
pub open spec fn csv_row(r: ScanResult) -> Seq<char> {
    r.target@ + ","@ + r.scan_type@ + ","@ + r.status@ + ","@ + (match r.details {
        Some(d) => csv_escape(d@),
        None => Seq::empty(),
    }) + "\n"@
}

/// The rows for a record collection, in input order.
pub open spec fn csv_rows(rs: Seq<ScanResult>) -> Seq<char>
    decreases rs.len(),
{
    if rs.len() == 0 {
        Seq::empty()
    } else {
        csv_rows(rs.drop_last()) + csv_row(rs.last())
    }
}

/// The whole tabular rendering: the fixed header row, then one row per
/// record in input order.
pub open spec fn csv_render(rs: Seq<ScanResult>) -> Seq<char> {
    "target,scan_type,status,details\n"@ + csv_rows(rs)
}

fn push_csv_escaped(out: &mut String, s: &str)
    ensures
        final(out)@ == old(out)@ + csv_escape(s@),
{
    let n = s.unicode_len();
    let mut k: usize = 0;
    proof {
        assert(s@.take(0) =~= Seq::<char>::empty());
        assert(out@ + csv_escape(s@.take(0)) =~= out@);
    }
    while k < n
        invariant
            0 <= k <= n,
            n == s@.len(),
            out@ == old(out)@ + csv_escape(s@.take(k as int)),
        decreases n - k,
    {
        let c = s.get_char(k);
        let e = if c == ',' {
            ';'
        } else if c == '\n' {
            ' '
        } else {
            c
        };
        push_char(out, e);
        proof {
            assert(s@.take(k + 1).drop_last() =~= s@.take(k as int));
            assert(s@.take(k + 1).last() == s@[k as int]);
            assert(csv_escape(s@.take(k + 1)) == csv_escape(s@.take(k as int)).push(
                csv_escape_char(s@[k as int]),
            ));
        }
        k = k + 1;
    }
    proof {
        assert(s@.take(n as int) =~= s@);
    }
}

/// CSV renderer for spreadsheet-compatible output.
pub struct CsvFormatter;

impl CsvFormatter {
    /// Creates a CSV renderer.
    pub fn new() -> (r: CsvFormatter) {
        CsvFormatter
    }
}

impl Default for CsvFormatter {
    fn default() -> (r: CsvFormatter) {
        CsvFormatter::new()
    }
}

impl OutputFormatter for CsvFormatter {
    /// Renders the fixed `target,scan_type,status,details` header, then one
    /// row per record in input order, with the tabular escaping rule applied
    /// to the details.
    #[verifier::rlimit(60)]
    fn format(&self, results: &Vec<ScanResult>) -> (r: Result<String, RenderError>)
        ensures
            r matches Ok(s) && s@ == csv_render(results@),
    {
        let mut out = "target,scan_type,status,details\n".to_owned();
        let n = results.len();
        let mut i: usize = 0;
        proof {
            assert(results@.take(0) =~= Seq::<ScanResult>::empty());
            assert(out@ + csv_rows(results@.take(0)) =~= out@);
        }
        while i < n
            invariant
                0 <= i <= n,
                n == results@.len(),
                out@ == csv_render(results@.take(i as int)),
                out@ == "target,scan_type,status,details\n"@ + csv_rows(results@.take(i as int)),
            decreases n - i,
        {
            let rec = &results[i];
            out.append(rec.target.as_str());
            out.append(",");
            out.append(rec.scan_type.as_str());
            out.append(",");
            out.append(rec.status.as_str());
            out.append(",");
            match &rec.details {
                Some(d) => push_csv_escaped(&mut out, d.as_str()),
                None => {},
            }
            out.append("\n");
            proof {
                assert(results@.take(i + 1).drop_last() =~= results@.take(i as int));
                assert(results@.take(i + 1).last() == results@[i as int]);
                assert(csv_rows(results@.take(i + 1)) == csv_rows(results@.take(i as int))
                    + csv_row(results@[i as int]));
                assert(out@ =~= "target,scan_type,status,details\n"@ + csv_rows(
                    results@.take(i + 1),
                ));
            }
            i = i + 1;
        }
        proof {
            assert(results@.take(n as int) =~= results@);
        }
        Ok(out)
    }
}


/// The six-character escape for a control character the structured renderer
/// has no short escape for.
pub open spec fn json_control_escape(c: char) -> Seq<char> {
    if c == '\u{0}' {
        "\\u0000"@
    } else if c == '\u{1}' {
        "\\u0001"@
    } else if c == '\u{2}' {
        "\\u0002"@
    } else if c == '\u{3}' {
        "\\u0003"@
    } else if c == '\u{4}' {
        "\\u0004"@
    } else if c == '\u{5}' {
        "\\u0005"@
    } else if c == '\u{6}' {
        "\\u0006"@
    } else if c == '\u{7}' {
        "\\u0007"@
    } else if c == '\u{b}' {
        "\\u000b"@
    } else if c == '\u{e}' {
        "\\u000e"@
    } else if c == '\u{f}' {
        "\\u000f"@
    } else if c == '\u{10}' {
        "\\u0010"@
    } else if c == '\u{11}' {
        "\\u0011"@
    } else if c == '\u{12}' {
        "\\u0012"@
    } else if c == '\u{13}' {
        "\\u0013"@
    } else if c == '\u{14}' {
        "\\u0014"@
    } else if c == '\u{15}' {
        "\\u0015"@
    } else if c == '\u{16}' {
        "\\u0016"@
    } else if c == '\u{17}' {
        "\\u0017"@
    } else if c == '\u{18}' {
        "\\u0018"@
    } else if c == '\u{19}' {
        "\\u0019"@
    } else if c == '\u{1a}' {
        "\\u001a"@
    } else if c == '\u{1b}' {
        "\\u001b"@
    } else if c == '\u{1c}' {
        "\\u001c"@
    } else if c == '\u{1d}' {
        "\\u001d"@
    } else if c == '\u{1e}' {
        "\\u001e"@
    } else {
        "\\u001f"@
    }
}

fn json_control_str(c: char) -> (r: &'static str)
    ensures
        r@ == json_control_escape(c),
{
    if c == '\u{0}' {
        "\\u0000"
    } else if c == '\u{1}' {
        "\\u0001"
    } else if c == '\u{2}' {
        "\\u0002"
    } else if c == '\u{3}' {
        "\\u0003"
    } else if c == '\u{4}' {
        "\\u0004"
    } else if c == '\u{5}' {
        "\\u0005"
    } else if c == '\u{6}' {
        "\\u0006"
    } else if c == '\u{7}' {
        "\\u0007"
    } else if c == '\u{b}' {
        "\\u000b"
    } else if c == '\u{e}' {
        "\\u000e"
    } else if c == '\u{f}' {
        "\\u000f"
    } else if c == '\u{10}' {
        "\\u0010"
    } else if c == '\u{11}' {
        "\\u0011"
    } else if c == '\u{12}' {
        "\\u0012"
    } else if c == '\u{13}' {
        "\\u0013"
    } else if c == '\u{14}' {
        "\\u0014"
    } else if c == '\u{15}' {
        "\\u0015"
    } else if c == '\u{16}' {
        "\\u0016"
    } else if c == '\u{17}' {
        "\\u0017"
    } else if c == '\u{18}' {
        "\\u0018"
    } else if c == '\u{19}' {
        "\\u0019"
    } else if c == '\u{1a}' {
        "\\u001a"
    } else if c == '\u{1b}' {
        "\\u001b"
    } else if c == '\u{1c}' {
        "\\u001c"
    } else if c == '\u{1d}' {
        "\\u001d"
    } else if c == '\u{1e}' {
        "\\u001e"
    } else {
        "\\u001f"
    }
}

/// The structured renderer's escape for one character: the usual short
/// escapes, a six-character escape for other control characters, and every
/// other character unchanged.
pub open spec fn json_escape_char(c: char) -> Seq<char> {
    if c == '"' {
        "\\\""@
    } else if c == '\\' {
        "\\\\"@
    } else if c == '\n' {
        "\\n"@
    } else if c == '\r' {
        "\\r"@
    } else if c == '\t' {
        "\\t"@
    } else if c == '\u{8}' {
        "\\b"@
    } else if c == '\u{c}' {
        "\\f"@
    } else if (c as u32) < 0x20 {
        json_control_escape(c)
    } else {
        seq![c]
    }
}

/// A string with the structured renderer's escaping applied.
pub open spec fn json_escape(s: Seq<char>) -> Seq<char>
    decreases s.len(),
{
    if s.len() == 0 {
        Seq::empty()
    } else {
        json_escape(s.drop_last()) + json_escape_char(s.last())
    }
}

/// A quoted, escaped string value.
pub open spec fn json_string(s: Seq<char>) -> Seq<char> {
    "\""@ + json_escape(s) + "\""@
}

fn push_json_escaped(out: &mut String, s: &str)
    ensures
        final(out)@ == old(out)@ + json_escape(s@),
{
    let n = s.unicode_len();
    let mut k: usize = 0;
    proof {
        assert(s@.take(0) =~= Seq::<char>::empty());
        assert(out@ + json_escape(s@.take(0)) =~= out@);
    }
    while k < n
        invariant
            0 <= k <= n,
            n == s@.len(),
            out@ == old(out)@ + json_escape(s@.take(k as int)),
        decreases n - k,
    {
        let c = s.get_char(k);
        if c == '"' {
            out.append("\\\"");
        } else if c == '\\' {
            out.append("\\\\");
        } else if c == '\n' {
            out.append("\\n");
        } else if c == '\r' {
            out.append("\\r");
        } else if c == '\t' {
            out.append("\\t");
        } else if c == '\u{8}' {
            out.append("\\b");
        } else if c == '\u{c}' {
            out.append("\\f");
        } else if (c as u32) < 0x20 {
            out.append(json_control_str(c));
        } else {
            push_char(out, c);
            proof {
                assert(old(out)@ + json_escape(s@.take(k as int)) + seq![c] =~= old(out)@ + (
                json_escape(s@.take(k as int)) + seq![c]));
            }
        }
        proof {
            assert(s@.take(k + 1).drop_last() =~= s@.take(k as int));
            assert(s@.take(k + 1).last() == s@[k as int]);
            assert(json_escape(s@.take(k + 1)) == json_escape(s@.take(k as int))
                + json_escape_char(s@[k as int]));
        }
        k = k + 1;
    }
    proof {
        assert(s@.take(n as int) =~= s@);
    }
}

fn push_json_string(out: &mut String, s: &str)
    ensures
        final(out)@ == old(out)@ + json_string(s@),
{
    out.append("\"");
    push_json_escaped(out, s);
    out.append("\"");
}


/// One structured record with all four fields, details rendered as null when
/// absent; pretty mode indents as the array element of a two-level object.
pub open spec fn json_record(r: ScanResult, pretty: bool) -> Seq<char> {
    if pretty {
        "{\n      \"target\": "@ + json_string(r.target@) + ",\n      \"scan_type\": "@
            + json_string(r.scan_type@) + ",\n      \"status\": "@ + json_string(r.status@)
            + ",\n      \"details\": "@ + (match r.details {
            Some(d) => json_string(d@),
            None => "null"@,
        }) + "\n    }"@
    } else {
        "{\"target\":"@ + json_string(r.target@) + ",\"scan_type\":"@ + json_string(r.scan_type@)
            + ",\"status\":"@ + json_string(r.status@) + ",\"details\":"@ + (match r.details {
            Some(d) => json_string(d@),
            None => "null"@,
        }) + "}"@
    }
}

/// The record collection as array elements, separated by commas (and, in
/// pretty mode, element indentation), in input order.
pub open spec fn json_records(rs: Seq<ScanResult>, pretty: bool) -> Seq<char>
    decreases rs.len(),
{
    if rs.len() == 0 {
        Seq::empty()
    } else if rs.len() == 1 {
        json_record(rs[0], pretty)
    } else {
        json_records(rs.drop_last(), pretty) + (if pretty {
            ",\n    "@
        } else {
            ","@
        }) + json_record(rs.last(), pretty)
    }
}

/// The whole structured rendering: an object holding `total_results` and the
/// ordered `results` array, in pretty or compact mode.
pub open spec fn json_render(rs: Seq<ScanResult>, pretty: bool) -> Seq<char> {
    if pretty {
        "{\n  \"total_results\": "@ + dec_str(rs.len()) + ",\n  \"results\": "@ + (if rs.len()
            == 0 {
            "[]"@
        } else {
            "[\n    "@ + json_records(rs, true) + "\n  ]"@
        }) + "\n}"@
    } else {
        "{\"total_results\":"@ + dec_str(rs.len()) + ",\"results\":["@ + json_records(rs, false)
            + "]}"@
    }
}

fn push_json_record(out: &mut String, r: &ScanResult, pretty: bool)
    ensures
        final(out)@ == old(out)@ + json_record(*r, pretty),
{
    if pretty {
        out.append("{\n      \"target\": ");
        push_json_string(out, r.target.as_str());
        out.append(",\n      \"scan_type\": ");
        push_json_string(out, r.scan_type.as_str());
        out.append(",\n      \"status\": ");
        push_json_string(out, r.status.as_str());
        out.append(",\n      \"details\": ");
        match &r.details {
            Some(d) => push_json_string(out, d.as_str()),
            None => out.append("null"),
        }
        out.append("\n    }");
    } else {
        out.append("{\"target\":");
        push_json_string(out, r.target.as_str());
        out.append(",\"scan_type\":");
        push_json_string(out, r.scan_type.as_str());
        out.append(",\"status\":");
        push_json_string(out, r.status.as_str());
        out.append(",\"details\":");
        match &r.details {
            Some(d) => push_json_string(out, d.as_str()),
            None => out.append("null"),
        }
        out.append("}");
    }
}

/// JSON renderer for machine-readable output.
pub struct JsonFormatter {
    pretty: bool,
}

impl JsonFormatter {
    /// Whether this renderer pretty-prints.
    pub closed spec fn spec_pretty(&self) -> bool {
        self.pretty
    }

    /// Creates a JSON renderer in pretty (indented) or compact mode.
    pub fn new(pretty: bool) -> (r: JsonFormatter)
        ensures
            r.spec_pretty() == pretty,
    {
        JsonFormatter { pretty }
    }
}

impl OutputFormatter for JsonFormatter {
    /// Renders an object holding `total_results` (the record count) and
    /// `results` (all records in input order, each with its four fields,
    /// absent details rendered as null).
    fn format(&self, results: &Vec<ScanResult>) -> (r: Result<String, RenderError>)
        ensures
            r matches Ok(s) && s@ == json_render(results@, self.spec_pretty()),
    {
        let n = results.len();
        let count = usize_to_string(n);
        let mut out: String;
        if self.pretty {
            out = "{\n  \"total_results\": ".to_owned();
            out.append(count.as_str());
            out.append(",\n  \"results\": ");
            if n == 0 {
                out.append("[]");
            } else {
                out.append("[\n    ");
                let ghost prefix = out@;
                let mut i: usize = 0;
                proof {
                    assert(results@.take(0) =~= Seq::<ScanResult>::empty());
                    assert(out@ + json_records(results@.take(0), true) =~= out@);
                }
                while i < n
                    invariant
                        0 <= i <= n,
                        n == results@.len(),
                        self.pretty,
                        out@ == prefix + json_records(results@.take(i as int), true),
                    decreases n - i,
                {
                    if i > 0 {
                        out.append(",\n    ");
                    }
                    push_json_record(&mut out, &results[i], true);
                    proof {
                        assert(results@.take(i + 1).drop_last() =~= results@.take(i as int));
                        assert(results@.take(i + 1).last() == results@[i as int]);
                        if i == 0 {
                            assert(results@.take(1).len() == 1);
                            assert(results@.take(1)[0] == results@[0]);
                            assert(out@ =~= prefix + json_records(results@.take(1), true));
                        } else {
                            assert(out@ =~= prefix + json_records(results@.take(i + 1), true));
                        }
                    }
                    i = i + 1;
                }
                proof {
                    assert(results@.take(n as int) =~= results@);
                }
                out.append("\n  ]");
            }
            out.append("\n}");
        } else {
            out = "{\"total_results\":".to_owned();
            out.append(count.as_str());
            out.append(",\"results\":[");
            let ghost prefix = out@;
            let mut i: usize = 0;
            proof {
                assert(results@.take(0) =~= Seq::<ScanResult>::empty());
                assert(out@ + json_records(results@.take(0), false) =~= out@);
            }
            while i < n
                invariant
                    0 <= i <= n,
                    n == results@.len(),
                    !self.pretty,
                    out@ == prefix + json_records(results@.take(i as int), false),
                decreases n - i,
            {
                if i > 0 {
                    out.append(",");
                }
                push_json_record(&mut out, &results[i], false);
                proof {
                    assert(results@.take(i + 1).drop_last() =~= results@.take(i as int));
                    assert(results@.take(i + 1).last() == results@[i as int]);
                    if i == 0 {
                        assert(results@.take(1).len() == 1);
                        assert(results@.take(1)[0] == results@[0]);
                        assert(out@ =~= prefix + json_records(results@.take(1), false));
                    } else {
                        assert(out@ =~= prefix + json_records(results@.take(i + 1), false));
                    }
                }
                i = i + 1;
            }
            proof {
                assert(results@.take(n as int) =~= results@);
            }
            out.append("]}");
        }
        Ok(out)
    }
}


/// A needle occurs contiguously inside a haystack.
pub open spec fn contains_sub(hay: Seq<char>, needle: Seq<char>) -> bool {
    exists|i: int|
        0 <= i && i + needle.len() <= hay.len() && #[trigger] hay.subrange(i, i + needle.len())
            == needle
}

/// Relies on `colored::Colorize::bold`, `Colorize::underline` and the
/// `Display` of `ColoredString`: the result either is the input unchanged or
/// wraps it in terminal styling sequences, depending on the environment.
#[verifier::external_body]
fn paint_bold_underline(s: &str) -> (r: String)
    ensures
        r@.len() >= s@.len(),
        !s@.contains('\u{1b}') ==> contains_sub(r@, s@),
{
    colored::Colorize::underline(colored::Colorize::bold(s)).to_string()
}

/// Relies on `colored::Colorize::bold` and the `Display` of `ColoredString`:
/// the result either is the input unchanged or wraps it in terminal styling
/// sequences, depending on the environment.
#[verifier::external_body]
fn paint_bold(s: &str) -> (r: String)
    ensures
        r@.len() >= s@.len(),
        !s@.contains('\u{1b}') ==> contains_sub(r@, s@),
{
    colored::Colorize::bold(s).to_string()
}

/// Relies on `colored::Colorize::green` and the `Display` of `ColoredString`:
/// the result either is the input unchanged or wraps it in terminal styling
/// sequences, depending on the environment.
#[verifier::external_body]
fn paint_green(s: &str) -> (r: String)
    ensures
        r@.len() >= s@.len(),
        !s@.contains('\u{1b}') ==> contains_sub(r@, s@),
{
    colored::Colorize::green(s).to_string()
}

/// Relies on `colored::Colorize::red` and the `Display` of `ColoredString`:
/// the result either is the input unchanged or wraps it in terminal styling
/// sequences, depending on the environment.
#[verifier::external_body]
fn paint_red(s: &str) -> (r: String)
    ensures
        r@.len() >= s@.len(),
        !s@.contains('\u{1b}') ==> contains_sub(r@, s@),
{
    colored::Colorize::red(s).to_string()
}

/// Relies on `colored::Colorize::yellow` and the `Display` of
/// `ColoredString`: the result either is the input unchanged or wraps it in
/// terminal styling sequences, depending on the environment.
#[verifier::external_body]
fn paint_yellow(s: &str) -> (r: String)
    ensures
        r@.len() >= s@.len(),
        !s@.contains('\u{1b}') ==> contains_sub(r@, s@),
{
    colored::Colorize::yellow(s).to_string()
}

/// The colouring class of a status value, used for presentation only: 1 for
/// reachable/open, 2 for unreachable/closed, 3 for filtered, 0 for anything
/// else.
pub open spec fn status_class(s: Seq<char>) -> int {
    if s == "open"@ || s == "up"@ || s == "alive"@ {
        1
    } else if s == "closed"@ || s == "down"@ || s == "dead"@ {
        2
    } else if s == "filtered"@ {
        3
    } else {
        0
    }
}

fn classify_status(s: &str) -> (r: u8)
    ensures
        r as int == status_class(s@),
{
    if str_equal(s, "open") || str_equal(s, "up") || str_equal(s, "alive") {
        1
    } else if str_equal(s, "closed") || str_equal(s, "down") || str_equal(s, "dead") {
        2
    } else if str_equal(s, "filtered") {
        3
    } else {
        0
    }
}

/// One plain-text block for the record at position `i`: a target sub-header
/// at the start of each contiguous run of equal targets (always for the
/// first record), the bracketed tag and status line, and an indented detail
/// line when details are present.
pub open spec fn text_row(
    rs: Seq<ScanResult>,
    statuses: Seq<Seq<char>>,
    target_label: Seq<char>,
    i: int,
) -> Seq<char> {
    (if i == 0 || rs[i].target@ != rs[i - 1].target@ {
        "\n"@ + target_label + " "@ + rs[i].target@ + "\n"@
    } else {
        Seq::empty()
    }) + "  ["@ + rs[i].scan_type@ + "] "@ + statuses[i] + "\n"@ + (match rs[i].details {
        Some(d) => "    "@ + d@ + "\n"@,
        None => Seq::empty(),
    })
}

/// The blocks for the first `k` records, in input order; grouping is by
/// contiguous runs of equal targets.
pub open spec fn text_rows(
    rs: Seq<ScanResult>,
    statuses: Seq<Seq<char>>,
    target_label: Seq<char>,
    k: int,
) -> Seq<char>
    decreases k,
{
    if k <= 0 {
        Seq::empty()
    } else {
        text_rows(rs, statuses, target_label, k - 1) + text_row(rs, statuses, target_label, k - 1)
    }
}

/// The whole plain-text rendering, parameterised over the painted header
/// pieces and the painted status of each record: a fixed line for an empty
/// collection, else a title, a total count, and the grouped record blocks.
pub open spec fn text_render_with(
    rs: Seq<ScanResult>,
    title: Seq<char>,
    total_label: Seq<char>,
    target_label: Seq<char>,
    statuses: Seq<Seq<char>>,
) -> Seq<char> {
    if rs.len() == 0 {
        "No scan results\n"@
    } else {
        title + "\n"@ + total_label + " "@ + dec_str(rs.len()) + "\n\n"@ + text_rows(
            rs,
            statuses,
            target_label,
            rs.len() as int,
        )
    }
}

/// The statuses as stored, unpainted.
pub open spec fn plain_statuses(rs: Seq<ScanResult>) -> Seq<Seq<char>> {
    Seq::new(rs.len(), |i: int| rs[i].status@)
}

/// The plain-text rendering without colouring.
pub open spec fn text_render(rs: Seq<ScanResult>) -> Seq<char> {
    text_render_with(rs, "Scan Results"@, "Total results:"@, "Target:"@, plain_statuses(rs))
}

/// Renders the plain-text format from the records and the already-painted
/// header pieces and statuses; exact for every choice of painted pieces.
#[verifier::rlimit(100)]
pub fn render_text_with(
    results: &Vec<ScanResult>,
    title: &str,
    total_label: &str,
    target_label: &str,
    statuses: &Vec<String>,
) -> (out: String)
    requires
        statuses@.len() == results@.len(),
    ensures
        out@ == text_render_with(
            results@,
            title@,
            total_label@,
            target_label@,
            statuses.deep_view(),
        ),
{
    let mut out = String::new();
    if results.len() == 0 {
        out.append("No scan results\n");
        proof {
            assert(out@ =~= "No scan results\n"@);
        }
        return out;
    }
    out.append(title);
    out.append("\n");
    out.append(total_label);
    out.append(" ");
    let count = usize_to_string(results.len());
    out.append(count.as_str());
    out.append("\n\n");
    let ghost prefix = out@;
    let n = results.len();
    let mut i: usize = 0;
    proof {
        assert(out@ + text_rows(results@, statuses.deep_view(), target_label@, 0) =~= out@);
    }
    while i < n
        invariant
            0 <= i <= n,
            n == results@.len(),
            statuses@.len() == results@.len(),
            out@ == prefix + text_rows(results@, statuses.deep_view(), target_label@, i as int),
        decreases n - i,
    {
        let rec = &results[i];
        let starts_run: bool = if i == 0 {
            true
        } else {
            !str_equal(rec.target.as_str(), results[i - 1].target.as_str())
        };
        if starts_run {
            out.append("\n");
            out.append(target_label);
            out.append(" ");
            out.append(rec.target.as_str());
            out.append("\n");
        }
        out.append("  [");
        out.append(rec.scan_type.as_str());
        out.append("] ");
        out.append(statuses[i].as_str());
        out.append("\n");
        match &rec.details {
            Some(d) => {
                out.append("    ");
                out.append(d.as_str());
                out.append("\n");
            },
            None => {},
        }
        proof {
            assert(statuses.deep_view()[i as int] == statuses@[i as int]@);
            assert(out@ =~= prefix + text_rows(
                results@,
                statuses.deep_view(),
                target_label@,
                i + 1,
            ));
        }
        i = i + 1;
    }
    out
}

/// Plain-text renderer with human-readable output and optional colouring.
pub struct TextFormatter {
    colored: bool,
}

impl TextFormatter {
    /// Whether this renderer colours its output.
    pub closed spec fn spec_colored(&self) -> bool {
        self.colored
    }

    /// Creates a text renderer, coloured or plain.
    pub fn new(colored: bool) -> (r: TextFormatter)
        ensures
            r.spec_colored() == colored,
    {
        TextFormatter { colored }
    }
}

impl OutputFormatter for TextFormatter {
    /// Renders the plain-text format: the fixed "no results" line for an
    /// empty collection; otherwise a title, a total count, and the records
    /// grouped under target sub-headers by contiguous runs. Colouring, when
    /// on, affects presentation only: the output has exactly the same shape
    /// with some painted header pieces and statuses, an unrecognised status
    /// is never painted, and painting only ever wraps the stored value.
    fn format(&self, results: &Vec<ScanResult>) -> (r: Result<String, RenderError>)
        ensures
            results@.len() == 0 ==> (r matches Ok(s) && s@ == "No scan results\n"@),
            !self.spec_colored() ==> (r matches Ok(s) && s@ == text_render(results@)),
            self.spec_colored() ==> r is Ok,
            self.spec_colored() && results@.len() > 0 ==> (r matches Ok(s) && exists|
                title: Seq<char>,
                total_label: Seq<char>,
                target_label: Seq<char>,
                statuses: Seq<Seq<char>>,
            |
                {
                    &&& contains_sub(title, "Scan Results"@)
                    &&& contains_sub(total_label, "Total results:"@)
                    &&& contains_sub(target_label, "Target:"@)
                    &&& statuses.len() == results@.len()
                    &&& forall|k: int|
                        0 <= k < results@.len() && status_class(
                            (#[trigger] results@[k]).status@,
                        ) == 0 ==> statuses[k] == results@[k].status@
                    &&& forall|k: int|
                        0 <= k < results@.len() && !(#[trigger] results@[k]).status@.contains(
                            '\u{1b}',
                        ) ==> contains_sub(statuses[k], results@[k].status@)
                    &&& s@ == text_render_with(
                        results@,
                        title,
                        total_label,
                        target_label,
                        statuses,
                    )
                }),
    {
        if !self.colored {
            let mut statuses: Vec<String> = Vec::new();
            let n = results.len();
            let mut i: usize = 0;
            while i < n
                invariant
                    0 <= i <= n,
                    n == results@.len(),
                    statuses@.len() == i,
                    forall|k: int|
                        0 <= k < i ==> statuses.deep_view()[k] == (
                        #[trigger] results@[k]).status@,
                decreases n - i,
            {
                statuses.push(results[i].status.clone());
                i = i + 1;
            }
            let out = render_text_with(
                results,
                "Scan Results",
                "Total results:",
                "Target:",
                &statuses,
            );
            proof {
                assert(statuses.deep_view() =~= plain_statuses(results@));
            }
            Ok(out)
        } else {
            if results.len() == 0 {
                let mut out = String::new();
                out.append("No scan results\n");
                proof {
                    assert(out@ =~= "No scan results\n"@);
                }
                return Ok(out);
            }
            proof {
                reveal_strlit("Scan Results");
                reveal_strlit("Total results:");
                reveal_strlit("Target:");
                assert(!"Scan Results"@.contains('\u{1b}'));
                assert(!"Total results:"@.contains('\u{1b}'));
                assert(!"Target:"@.contains('\u{1b}'));
            }
            let title = paint_bold_underline("Scan Results");
            let total_label = paint_bold("Total results:");
            let target_label = paint_bold("Target:");
            let mut statuses: Vec<String> = Vec::new();
            let n = results.len();
            let mut i: usize = 0;
            while i < n
                invariant
                    0 <= i <= n,
                    n == results@.len(),
                    statuses@.len() == i,
                    forall|k: int|
                        0 <= k < i && status_class((#[trigger] results@[k]).status@) == 0
                            ==> statuses.deep_view()[k] == results@[k].status@,
                    forall|k: int|
                        0 <= k < i && !(#[trigger] results@[k]).status@.contains('\u{1b}')
                            ==> contains_sub(statuses.deep_view()[k], results@[k].status@),
                decreases n - i,
            {
                let status = &results[i].status;
                let class = classify_status(status.as_str());
                let painted: String = if class == 1 {
                    paint_green(status.as_str())
                } else if class == 2 {
                    paint_red(status.as_str())
                } else if class == 3 {
                    paint_yellow(status.as_str())
                } else {
                    status.clone()
                };
                proof {
                    if status_class(results@[i as int].status@) == 0 {
                        assert(painted@ == results@[i as int].status@);
                    }
                    if !results@[i as int].status@.contains('\u{1b}') {
                        if status_class(results@[i as int].status@) == 0 {
                            let s = results@[i as int].status@;
                            assert(painted@.subrange(0int, 0int + s.len() as int) =~= s);
                            assert(contains_sub(painted@, s));
                        }
                    }
                }
                statuses.push(painted);
                i = i + 1;
            }
            let out = render_text_with(
                results,
                title.as_str(),
                total_label.as_str(),
                target_label.as_str(),
                &statuses,
            );
            Ok(out)
        }
    }
}


/// A selected renderer: one of the three variants, with its options.
pub enum Formatter {
    /// Plain text, optionally coloured.
    Text(TextFormatter),
    /// Structured JSON, pretty or compact.
    Json(JsonFormatter),
    /// Tabular CSV.
    Csv(CsvFormatter),
}

/// What a renderer produces, when the rendering is a pure function of the
/// records and options; colouring consults the terminal environment, so the
/// coloured text renderer has no such function.
pub open spec fn render_spec(f: Formatter, rs: Seq<ScanResult>) -> Option<Seq<char>> {
    match f {
        Formatter::Text(t) => if t.spec_colored() {
            None
        } else {
            Some(text_render(rs))
        },
        Formatter::Json(j) => Some(json_render(rs, j.spec_pretty())),
        Formatter::Csv(_) => Some(csv_render(rs)),
    }
}

impl Formatter {
    /// Renders with the selected variant; where the rendering is a pure
    /// function of records and options, the output is exactly that function.
    pub fn format(&self, results: &Vec<ScanResult>) -> (r: Result<String, RenderError>)
        ensures
            r is Ok,
            render_spec(*self, results@) matches Some(expected) ==> (r matches Ok(s) && s@
                == expected),
    {
        match self {
            Formatter::Text(t) => t.format(results),
            Formatter::Json(j) => j.format(results),
            Formatter::Csv(c) => c.format(results),
        }
    }
}

/// Selects a renderer by format name: "json" is pretty JSON, "csv" is CSV,
/// and any other name falls back to plain text with the given colour flag.
pub fn get_formatter(format: &str, colored: bool) -> (r: Formatter)
    ensures
        format@ == "json"@ ==> (r matches Formatter::Json(j) && j.spec_pretty()),
        format@ == "csv"@ ==> r is Csv,
        format@ != "json"@ && format@ != "csv"@ ==> (r matches Formatter::Text(t)
            && t.spec_colored() == colored),
{
    proof {
        reveal_strlit("json");
        reveal_strlit("csv");
        assert("json"@.len() == 4);
        assert("csv"@.len() == 3);
        assert("json"@ != "csv"@);
    }
    if str_equal(format, "json") {
        Formatter::Json(JsonFormatter::new(true))
    } else if str_equal(format, "csv") {
        Formatter::Csv(CsvFormatter::new())
    } else {
        Formatter::Text(TextFormatter::new(colored))
    }
}

/// Rendering the same record collection twice with the same renderer and
/// options yields byte-identical output: for every renderer whose rendering
/// is a pure function of records and options, any two outputs permitted by
/// that renderer's contract on the same input are equal.
pub proof fn lemma_render_idempotent(
    f: Formatter,
    rs: Seq<ScanResult>,
    out1: Seq<char>,
    out2: Seq<char>,
)
    requires
        render_spec(f, rs) == Some(out1),
        render_spec(f, rs) == Some(out2),
    ensures
        out1 == out2,
{
}

/// Rendering an empty collection with the plain-text renderer yields exactly
/// the fixed "no results" line, whatever the options.
pub proof fn lemma_text_render_empty(rs: Seq<ScanResult>)
    requires
        rs.len() == 0,
    ensures
        text_render(rs) == "No scan results\n"@,
{
}

} // verus!
