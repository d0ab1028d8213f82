//! Report generators: text, CSV and JSON renderings of an ordered finding
//! sequence.  All three are pure functions of the findings (the JSON
//! report additionally embeds a generation timestamp), and all three agree
//! on the per-severity counts they summarise.

use vstd::prelude::*;

use crate::models::FindingModel;
use crate::models::Severity;
use crate::models::VulnerabilityFinding;
use crate::models::category_name;
use crate::models::category_name_text;
use crate::models::severity_name;
use crate::models::severity_name_text;
use crate::models::severity_tag;
use crate::models::severity_tag_text;
use crate::models::views_of;
use crate::text::contains_char;
use crate::text::contains_sub;
use crate::text::dec_rep;
use crate::text::dec_string;
use crate::text::lemma_contains_concat_left;
use crate::text::lemma_contains_concat_right;
use crate::text::lemma_contains_self;
use crate::text::push_char;
use crate::text::str_contains_char;

verus! {

// ---------------------------------------------------------------------------
// Severity counts
// ---------------------------------------------------------------------------

/// How many findings have severity `s`.
pub open spec fn count_sev(fs: Seq<FindingModel>, s: Severity) -> nat
    decreases fs.len(),
{
    if fs.len() == 0 {
        0
    } else {
        count_sev(fs.drop_last(), s) + (if fs.last().severity == s {
            1nat
        } else {
            0nat
        })
    }
}

/// Counts the findings of severity `s`.
pub fn count_severity(findings: &[VulnerabilityFinding], s: Severity) -> (n: usize)
    ensures
        n as nat == count_sev(views_of(findings@), s),
{
    let ghost v = views_of(findings@);
    let mut n: usize = 0;
    let len = findings.len();
    proof {
        assert(v.take(0) =~= Seq::<FindingModel>::empty());
    }
    let mut i: usize = 0;
    while i < len
        invariant
            len == findings@.len(),
            v == views_of(findings@),
            v.len() == len,
            0 <= i <= len,
            n <= i,
            n as nat == count_sev(v.take(i as int), s),
        decreases len - i,
    {
        proof {
            assert(v.take(i + 1).drop_last() =~= v.take(i as int));
            assert(v.take(i + 1).last() == v[i as int]);
        }
        if findings[i].severity == s {
            n = n + 1;
        }
        i = i + 1;
    }
    proof {
        assert(v.take(len as int) =~= v);
    }
    n
}

// ---------------------------------------------------------------------------
// Text report
// ---------------------------------------------------------------------------

/// The block the text report prints for one finding.
pub open spec fn finding_block(f: FindingModel) -> Seq<char> {
    "["@ + severity_tag(f.severity) + "] Line "@ + dec_rep(f.line as nat) + ": "@ + f.warning
        + "\n"@ + "Code: "@ + f.snippet + "\n"@ + "Explanation: "@ + f.explanation + "\n"@
        + "Fix: "@ + f.fix_suggestion + "\n"@ + (match f.real_world_example {
        Some(e) => "Real-world example: "@ + e + "\n"@,
        None => Seq::<char>::empty(),
    }) + "\n"@
}

/// The banner and severity summary the text report starts with.
pub open spec fn report_header(fs: Seq<FindingModel>) -> Seq<char> {
    "\u{1F512} Solidity Security Scanner Report\n"@ + "================================\n\n"@
        + "Total Findings: "@ + dec_rep(fs.len()) + "\n"@ + "Critical Severity: "@ + dec_rep(
        count_sev(fs, Severity::Critical),
    ) + "\n"@ + "High Severity: "@ + dec_rep(count_sev(fs, Severity::High)) + "\n"@
        + "Medium Severity: "@ + dec_rep(count_sev(fs, Severity::Medium)) + "\n"@
        + "Low Severity: "@ + dec_rep(count_sev(fs, Severity::Low)) + "\n\n"@
}

/// The blocks of all findings, in order.
pub open spec fn finding_blocks(fs: Seq<FindingModel>) -> Seq<char>
    decreases fs.len(),
{
    if fs.len() == 0 {
        Seq::<char>::empty()
    } else {
        finding_blocks(fs.drop_last()) + finding_block(fs.last())
    }
}

/// The whole text report.
pub open spec fn spec_report(fs: Seq<FindingModel>) -> Seq<char> {
    report_header(fs) + finding_blocks(fs)
}

/// Appends the text-report block of one finding.
#[verifier::rlimit(50)]
fn append_finding_block(r: &mut String, f: &VulnerabilityFinding)
    ensures
        final(r)@ == old(r)@ + finding_block(f@),
{
    r.append("[");
    let tag = severity_tag_text(f.severity);
    r.append(tag.as_str());
    r.append("] Line ");
    let line = dec_string(f.line as u64);
    r.append(line.as_str());
    r.append(": ");
    r.append(f.warning.as_str());
    r.append("\n");
    r.append("Code: ");
    r.append(f.snippet.as_str());
    r.append("\n");
    r.append("Explanation: ");
    r.append(f.explanation.as_str());
    r.append("\n");
    r.append("Fix: ");
    r.append(f.fix_suggestion.as_str());
    r.append("\n");
    match &f.real_world_example {
        Some(e) => {
            r.append("Real-world example: ");
            r.append(e.as_str());
            r.append("\n");
        },
        None => {},
    }
    r.append("\n");
    proof {
        assert(r@ =~= old(r)@ + finding_block(f@));
    }
}

/// Renders the text report: banner, totals and per-severity counts, then
/// one block per finding, in finding order.
#[verifier::rlimit(50)]
pub fn generate_report(findings: &[VulnerabilityFinding]) -> (r: String)
    ensures
        r@ == spec_report(views_of(findings@)),
{
    let ghost v = views_of(findings@);
    let critical_count = count_severity(findings, Severity::Critical);
    let high_count = count_severity(findings, Severity::High);
    let medium_count = count_severity(findings, Severity::Medium);
    let low_count = count_severity(findings, Severity::Low);

    let mut r = String::from_str("\u{1F512} Solidity Security Scanner Report\n");
    r.append("================================\n\n");
    r.append("Total Findings: ");
    let total = dec_string(findings.len() as u64);
    r.append(total.as_str());
    r.append("\n");
    r.append("Critical Severity: ");
    let cc = dec_string(critical_count as u64);
    r.append(cc.as_str());
    r.append("\n");
    r.append("High Severity: ");
    let hc = dec_string(high_count as u64);
    r.append(hc.as_str());
    r.append("\n");
    r.append("Medium Severity: ");
    let mc = dec_string(medium_count as u64);
    r.append(mc.as_str());
    r.append("\n");
    r.append("Low Severity: ");
    let lc = dec_string(low_count as u64);
    r.append(lc.as_str());
    r.append("\n\n");
    proof {
        assert(r@ =~= report_header(v));
        assert(finding_blocks(v.take(0)) =~= Seq::<char>::empty());
        assert(r@ =~= report_header(v) + finding_blocks(v.take(0)));
    }
    let len = findings.len();
    let mut i: usize = 0;
    while i < len
        invariant
            len == findings@.len(),
            v == views_of(findings@),
            v.len() == len,
            0 <= i <= len,
            r@ == report_header(v) + finding_blocks(v.take(i as int)),
        decreases len - i,
    {
        append_finding_block(&mut r, &findings[i]);
        proof {
            assert(v.take(i + 1).drop_last() =~= v.take(i as int));
            assert(v.take(i + 1).last() == v[i as int]);
            assert((report_header(v) + finding_blocks(v.take(i as int))) + finding_block(
                v[i as int],
            ) =~= report_header(v) + finding_blocks(v.take(i + 1)));
        }
        i = i + 1;
    }
    proof {
        assert(v.take(len as int) =~= v);
    }
    r
}

// ---------------------------------------------------------------------------
// CSV report
// ---------------------------------------------------------------------------

/// The field text with every double quote doubled.
pub open spec fn double_quotes(s: Seq<char>) -> Seq<char>
    decreases s.len(),
{
    if s.len() == 0 {
        Seq::<char>::empty()
    } else {
        double_quotes(s.drop_last()) + (if s.last() == '"' {
            seq!['"', '"']
        } else {
            seq![s.last()]
        })
    }
}

/// Whether a CSV field must be quoted.
pub open spec fn csv_needs_quoting(s: Seq<char>) -> bool {
    contains_char(s, ',') || contains_char(s, '"') || contains_char(s, '\n')
}

/// Standard CSV escaping: a field holding a comma, quote or newline is
/// wrapped in quotes with its quotes doubled; any other field is left as
/// it is.
pub open spec fn csv_escape(s: Seq<char>) -> Seq<char> {
    if csv_needs_quoting(s) {
        seq!['"'] + double_quotes(s) + seq!['"']
    } else {
        s
    }
}

/// Escapes one CSV field, verified against `csv_escape`.
pub fn csv_escape_field(s: &str) -> (r: String)
    ensures
        r@ == csv_escape(s@),
{
    let needs = str_contains_char(s, ',') || str_contains_char(s, '"') || str_contains_char(
        s,
        '\n',
    );
    if !needs {
        return s.to_owned();
    }
    let mut r = String::new();
    push_char(&mut r, '"');
    proof {
        assert(r@ =~= seq!['"'] + double_quotes(s@.take(0)));
    }
    let n = s.unicode_len();
    let mut i: usize = 0;
    while i < n
        invariant
            n == s@.len(),
            0 <= i <= n,
            r@ == seq!['"'] + double_quotes(s@.take(i as int)),
        decreases n - i,
    {
        let c = s.get_char(i);
        proof {
            assert(s@.take(i + 1).drop_last() =~= s@.take(i as int));
            assert(s@.take(i + 1).last() == s@[i as int]);
        }
        if c == '"' {
            push_char(&mut r, '"');
            push_char(&mut r, '"');
        } else {
            push_char(&mut r, c);
        }
        proof {
            assert(r@ =~= seq!['"'] + double_quotes(s@.take(i + 1)));
        }
        i = i + 1;
    }
    push_char(&mut r, '"');
    proof {
        assert(s@.take(n as int) =~= s@);
        assert(r@ =~= seq!['"'] + double_quotes(s@) + seq!['"']);
    }
    r
}

/// The optional example as CSV prints it: its text, or nothing.
pub open spec fn example_or_empty(f: FindingModel) -> Seq<char> {
    match f.real_world_example {
        Some(e) => e,
        None => Seq::<char>::empty(),
    }
}

/// The CSV data row for one finding.
pub open spec fn csv_row(f: FindingModel) -> Seq<char> {
    severity_name(f.severity) + ","@ + category_name(f.category) + ","@ + dec_rep(f.line as nat)
        + ","@ + csv_escape(f.warning) + ","@ + csv_escape(f.snippet) + ","@ + csv_escape(
        f.explanation,
    ) + ","@ + csv_escape(f.fix_suggestion) + ","@ + csv_escape(example_or_empty(f)) + "\n"@
}

/// The data rows of all findings, in order.
pub open spec fn csv_rows(fs: Seq<FindingModel>) -> Seq<char>
    decreases fs.len(),
{
    if fs.len() == 0 {
        Seq::<char>::empty()
    } else {
        csv_rows(fs.drop_last()) + csv_row(fs.last())
    }
}

/// The whole CSV report: the fixed header row, then one row per finding.
pub open spec fn spec_csv_report(fs: Seq<FindingModel>) -> Seq<char> {
    "Severity,Category,Line,Warning,Code,Explanation,Fix Suggestion,Real World Example\n"@
        + csv_rows(fs)
}

/// Appends the CSV row of one finding.
#[verifier::rlimit(50)]
fn append_csv_row(r: &mut String, f: &VulnerabilityFinding)
    ensures
        final(r)@ == old(r)@ + csv_row(f@),
{
    let sev = severity_name_text(f.severity);
    r.append(sev.as_str());
    r.append(",");
    let cat = category_name_text(f.category);
    r.append(cat.as_str());
    r.append(",");
    let line = dec_string(f.line as u64);
    r.append(line.as_str());
    r.append(",");
    let warning = csv_escape_field(f.warning.as_str());
    r.append(warning.as_str());
    r.append(",");
    let snippet = csv_escape_field(f.snippet.as_str());
    r.append(snippet.as_str());
    r.append(",");
    let explanation = csv_escape_field(f.explanation.as_str());
    r.append(explanation.as_str());
    r.append(",");
    let fix = csv_escape_field(f.fix_suggestion.as_str());
    r.append(fix.as_str());
    r.append(",");
    let example = match &f.real_world_example {
        Some(e) => {
            let x = csv_escape_field(e.as_str());
            proof {
                assert(x@ == csv_escape(example_or_empty(f@)));
            }
            x
        },
        None => {
            let x = csv_escape_field("");
            proof {
                reveal_strlit("");
                assert(""@ =~= Seq::<char>::empty());
                assert(x@ == csv_escape(example_or_empty(f@)));
            }
            x
        },
    };
    r.append(example.as_str());
    r.append("\n");
    proof {
        assert(r@ =~= old(r)@ + csv_row(f@));
    }
}

/// Renders the CSV report, verified against `spec_csv_report`.
pub fn generate_csv_report(findings: &[VulnerabilityFinding]) -> (r: String)
    ensures
        r@ == spec_csv_report(views_of(findings@)),
{
    let ghost v = views_of(findings@);
    let mut r = String::from_str(
        "Severity,Category,Line,Warning,Code,Explanation,Fix Suggestion,Real World Example\n",
    );
    proof {
        assert(csv_rows(v.take(0)) =~= Seq::<char>::empty());
        assert(r@ =~= r@ + csv_rows(v.take(0)));
    }
    let len = findings.len();
    let mut i: usize = 0;
    while i < len
        invariant
            len == findings@.len(),
            v == views_of(findings@),
            v.len() == len,
            0 <= i <= len,
            r@ == "Severity,Category,Line,Warning,Code,Explanation,Fix Suggestion,Real World Example\n"@
                + csv_rows(v.take(i as int)),
        decreases len - i,
    {
        append_csv_row(&mut r, &findings[i]);
        proof {
            assert(v.take(i + 1).drop_last() =~= v.take(i as int));
            assert(v.take(i + 1).last() == v[i as int]);
            assert(r@ =~= "Severity,Category,Line,Warning,Code,Explanation,Fix Suggestion,Real World Example\n"@
                + csv_rows(v.take(i + 1)));
        }
        i = i + 1;
    }
    proof {
        assert(v.take(len as int) =~= v);
    }
    r
}

// ---------------------------------------------------------------------------
// JSON report
// ---------------------------------------------------------------------------

/// The lower-case hexadecimal digit for `n` in 0..16.
pub open spec fn hex_digit(n: int) -> char {
    if n == 0 {
        '0'
    } else if n == 1 {
        '1'
    } else if n == 2 {
        '2'
    } else if n == 3 {
        '3'
    } else if n == 4 {
        '4'
    } else if n == 5 {
        '5'
    } else if n == 6 {
        '6'
    } else if n == 7 {
        '7'
    } else if n == 8 {
        '8'
    } else if n == 9 {
        '9'
    } else if n == 10 {
        'a'
    } else if n == 11 {
        'b'
    } else if n == 12 {
        'c'
    } else if n == 13 {
        'd'
    } else if n == 14 {
        'e'
    } else {
        'f'
    }
}

/// How one character appears inside a JSON string literal: quotes and
/// backslashes escaped, the named control characters by letter, all other
/// control characters as `\u00xx`.
pub open spec fn json_escaped_char(c: char) -> Seq<char> {
    if c == '"' {
        seq!['\\', '"']
    } else if c == '\\' {
        seq!['\\', '\\']
    } else if c == '\u{0008}' {
        seq!['\\', 'b']
    } else if c == '\u{000C}' {
        seq!['\\', 'f']
    } else if c == '\n' {
        seq!['\\', 'n']
    } else if c == '\r' {
        seq!['\\', 'r']
    } else if c == '\t' {
        seq!['\\', 't']
    } else if (c as u32) < 0x20 {
        seq!['\\', 'u', '0', '0', hex_digit((c as u32) as int / 16), hex_digit((c as u32) as int % 16)]
    } else {
        seq![c]
    }
}

/// The body of a JSON string literal for `s`.
pub open spec fn json_escape(s: Seq<char>) -> Seq<char>
    decreases s.len(),
{
    if s.len() == 0 {
        Seq::<char>::empty()
    } else {
        json_escape(s.drop_last()) + json_escaped_char(s.last())
    }
}

/// A JSON string literal for `s`, quotes included.
pub open spec fn json_string(s: Seq<char>) -> Seq<char> {
    seq!['"'] + json_escape(s) + seq!['"']
}

fn hex_digit_exec(n: u32) -> (r: char)
    requires
        n < 16,
    ensures
        r == hex_digit(n as int),
{
    if n == 0 {
        '0'
    } else if n == 1 {
        '1'
    } else if n == 2 {
        '2'
    } else if n == 3 {
        '3'
    } else if n == 4 {
        '4'
    } else if n == 5 {
        '5'
    } else if n == 6 {
        '6'
    } else if n == 7 {
        '7'
    } else if n == 8 {
        '8'
    } else if n == 9 {
        '9'
    } else if n == 10 {
        'a'
    } else if n == 11 {
        'b'
    } else if n == 12 {
        'c'
    } else if n == 13 {
        'd'
    } else if n == 14 {
        'e'
    } else {
        'f'
    }
}

/// Appends the escaped body of a JSON string literal.
#[verifier::rlimit(50)]
fn append_json_escaped(r: &mut String, s: &str)
    ensures
        final(r)@ == old(r)@ + json_escape(s@),
{
    let n = s.unicode_len();
    proof {
        assert(json_escape(s@.take(0)) =~= Seq::<char>::empty());
        assert(r@ =~= old(r)@ + json_escape(s@.take(0)));
    }
    let mut i: usize = 0;
    while i < n
        invariant
            n == s@.len(),
            0 <= i <= n,
            r@ == old(r)@ + json_escape(s@.take(i as int)),
        decreases n - i,
    {
        let c = s.get_char(i);
        proof {
            assert(s@.take(i + 1).drop_last() =~= s@.take(i as int));
            assert(s@.take(i + 1).last() == s@[i as int]);
        }
        if c == '"' {
            push_char(r, '\\');
            push_char(r, '"');
        } else if c == '\\' {
            push_char(r, '\\');
            push_char(r, '\\');
        } else if c == '\u{0008}' {
            push_char(r, '\\');
            push_char(r, 'b');
        } else if c == '\u{000C}' {
            push_char(r, '\\');
            push_char(r, 'f');
        } else if c == '\n' {
            push_char(r, '\\');
            push_char(r, 'n');
        } else if c == '\r' {
            push_char(r, '\\');
            push_char(r, 'r');
        } else if c == '\t' {
            push_char(r, '\\');
            push_char(r, 't');
        } else {
            let code = c as u32;
            if code < 0x20 {
                push_char(r, '\\');
                push_char(r, 'u');
                push_char(r, '0');
                push_char(r, '0');
                push_char(r, hex_digit_exec(code / 16));
                push_char(r, hex_digit_exec(code % 16));
            } else {
                push_char(r, c);
            }
        }
        proof {
            assert(r@ =~= old(r)@ + json_escape(s@.take(i + 1)));
        }
        i = i + 1;
    }
    proof {
        assert(s@.take(n as int) =~= s@);
    }
}

/// Appends a JSON string literal, quotes included.
fn append_json_string(r: &mut String, s: &str)
    ensures
        final(r)@ == old(r)@ + json_string(s@),
{
    push_char(r, '"');
    append_json_escaped(r, s);
    push_char(r, '"');
    proof {
        assert(r@ =~= old(r)@ + json_string(s@));
    }
}

/// The object the JSON report's `findings` array holds for one finding.
pub open spec fn json_finding(f: FindingModel) -> Seq<char> {
    "    {\n      \"severity\": "@ + json_string(severity_name(f.severity))
        + ",\n      \"category\": "@ + json_string(category_name(f.category))
        + ",\n      \"line\": "@ + dec_rep(f.line as nat) + ",\n      \"warning\": "@
        + json_string(f.warning) + ",\n      \"snippet\": "@ + json_string(f.snippet)
        + ",\n      \"explanation\": "@ + json_string(f.explanation)
        + ",\n      \"fix_suggestion\": "@ + json_string(f.fix_suggestion)
        + ",\n      \"real_world_example\": "@ + (match f.real_world_example {
        Some(e) => json_string(e),
        None => "null"@,
    }) + "\n    }"@
}

/// The findings objects joined with commas, in finding order.
pub open spec fn json_items(fs: Seq<FindingModel>) -> Seq<char>
    decreases fs.len(),
{
    if fs.len() == 0 {
        Seq::<char>::empty()
    } else if fs.len() == 1 {
        json_finding(fs[0])
    } else {
        json_items(fs.drop_last()) + ",\n"@ + json_finding(fs.last())
    }
}

/// The `findings` array of the JSON report.
pub open spec fn json_findings_array(fs: Seq<FindingModel>) -> Seq<char> {
    if fs.len() == 0 {
        "[]"@
    } else {
        "[\n"@ + json_items(fs) + "\n  ]"@
    }
}

/// The whole JSON report for the given findings and generation timestamp:
/// fixed field order, two-space indentation.
pub open spec fn spec_json_report(fs: Seq<FindingModel>, timestamp: Seq<char>) -> Seq<char> {
    "{\n  \"timestamp\": "@ + json_string(timestamp) + ",\n  \"total_findings\": "@ + dec_rep(
        fs.len(),
    ) + ",\n  \"findings\": "@ + json_findings_array(fs) + ",\n  \"summary\": {\n    \"critical\": "@
        + dec_rep(count_sev(fs, Severity::Critical)) + ",\n    \"high\": "@ + dec_rep(
        count_sev(fs, Severity::High),
    ) + ",\n    \"medium\": "@ + dec_rep(count_sev(fs, Severity::Medium)) + ",\n    \"low\": "@
        + dec_rep(count_sev(fs, Severity::Low)) + "\n  }\n}"@
}

#[verifier::rlimit(50)]
proof fn lemma_concat_fields<A>(
    p: Seq<A>,
    s1: Seq<A>,
    s2: Seq<A>,
    s3: Seq<A>,
    s4: Seq<A>,
    s5: Seq<A>,
    s6: Seq<A>,
    s7: Seq<A>,
    s8: Seq<A>,
    s9: Seq<A>,
    s10: Seq<A>,
    s11: Seq<A>,
    s12: Seq<A>,
    s13: Seq<A>,
    s14: Seq<A>,
    s15: Seq<A>,
    s16: Seq<A>,
    s17: Seq<A>,
)
    ensures
        p + s1 + s2 + s3 + s4 + s5 + s6 + s7 + s8 + s9 + s10 + s11 + s12 + s13 + s14 + s15 + s16
            + s17 == p + (s1 + s2 + s3 + s4 + s5 + s6 + s7 + s8 + s9 + s10 + s11 + s12 + s13 + s14
            + s15 + s16 + s17),
{
    assert(p + s1 + s2 + s3 + s4 + s5 + s6 + s7 + s8 + s9 + s10 + s11 + s12 + s13 + s14 + s15
        + s16 + s17 =~= p + (s1 + s2 + s3 + s4 + s5 + s6 + s7 + s8 + s9 + s10 + s11 + s12 + s13
        + s14 + s15 + s16 + s17));
}

/// Appends the JSON object of one finding.
#[verifier::rlimit(50)]
fn append_json_finding(r: &mut String, f: &VulnerabilityFinding)
    ensures
        final(r)@ == old(r)@ + json_finding(f@),
{
    r.append("    {\n      \"severity\": ");
    let sev = severity_name_text(f.severity);
    append_json_string(r, sev.as_str());
    r.append(",\n      \"category\": ");
    let cat = category_name_text(f.category);
    append_json_string(r, cat.as_str());
    r.append(",\n      \"line\": ");
    let line = dec_string(f.line as u64);
    r.append(line.as_str());
    r.append(",\n      \"warning\": ");
    append_json_string(r, f.warning.as_str());
    r.append(",\n      \"snippet\": ");
    append_json_string(r, f.snippet.as_str());
    r.append(",\n      \"explanation\": ");
    append_json_string(r, f.explanation.as_str());
    r.append(",\n      \"fix_suggestion\": ");
    append_json_string(r, f.fix_suggestion.as_str());
    r.append(",\n      \"real_world_example\": ");
    match &f.real_world_example {
        Some(e) => {
            append_json_string(r, e.as_str());
        },
        None => {
            r.append("null");
        },
    }
    r.append("\n    }");
    proof {
        lemma_concat_fields(
            old(r)@,
            "    {\n      \"severity\": "@,
            json_string(severity_name(f@.severity)),
            ",\n      \"category\": "@,
            json_string(category_name(f@.category)),
            ",\n      \"line\": "@,
            dec_rep(f@.line as nat),
            ",\n      \"warning\": "@,
            json_string(f@.warning),
            ",\n      \"snippet\": "@,
            json_string(f@.snippet),
            ",\n      \"explanation\": "@,
            json_string(f@.explanation),
            ",\n      \"fix_suggestion\": "@,
            json_string(f@.fix_suggestion),
            ",\n      \"real_world_example\": "@,
            (match f@.real_world_example {
                Some(e) => json_string(e),
                None => "null"@,
            }),
            "\n    }"@,
        );
        assert(r@ == old(r)@ + json_finding(f@));
    }
}

/// Renders the JSON report for the given findings and generation
/// timestamp, verified against `spec_json_report`.
#[verifier::rlimit(50)]
pub fn generate_json_report_at(findings: &[VulnerabilityFinding], timestamp: &str) -> (r: String)
    ensures
        r@ == spec_json_report(views_of(findings@), timestamp@),
{
    let ghost v = views_of(findings@);
    let mut r = String::from_str("{\n  \"timestamp\": ");
    append_json_string(&mut r, timestamp);
    r.append(",\n  \"total_findings\": ");
    let total = dec_string(findings.len() as u64);
    r.append(total.as_str());
    r.append(",\n  \"findings\": ");
    let len = findings.len();
    if len == 0 {
        r.append("[]");
    } else {
        r.append("[\n");
        let ghost base = r@;
        append_json_finding(&mut r, &findings[0]);
        proof {
            assert(v.take(1).len() == 1);
            assert(v.take(1)[0] == v[0]);
            assert(r@ == base + json_items(v.take(1)));
        }
        let mut i: usize = 1;
        while i < len
            invariant
                len == findings@.len(),
                v == views_of(findings@),
                v.len() == len,
                1 <= i <= len,
                r@ == base + json_items(v.take(i as int)),
            decreases len - i,
        {
            r.append(",\n");
            append_json_finding(&mut r, &findings[i]);
            proof {
                assert(v.take(i + 1).drop_last() =~= v.take(i as int));
                assert(v.take(i + 1).last() == v[i as int]);
                assert(v.take(i + 1).len() >= 2);
                assert(r@ =~= base + json_items(v.take(i + 1)));
            }
            i = i + 1;
        }
        proof {
            assert(v.take(len as int) =~= v);
        }
        r.append("\n  ]");
    }
    r.append(",\n  \"summary\": {\n    \"critical\": ");
    let cc = dec_string(count_severity(findings, Severity::Critical) as u64);
    r.append(cc.as_str());
    r.append(",\n    \"high\": ");
    let hc = dec_string(count_severity(findings, Severity::High) as u64);
    r.append(hc.as_str());
    r.append(",\n    \"medium\": ");
    let mc = dec_string(count_severity(findings, Severity::Medium) as u64);
    r.append(mc.as_str());
    r.append(",\n    \"low\": ");
    let lc = dec_string(count_severity(findings, Severity::Low) as u64);
    r.append(lc.as_str());
    r.append("\n  }\n}");
    proof {
        assert(r@ =~= spec_json_report(v, timestamp@));
    }
    r
}

// ---------------------------------------------------------------------------
// Laws: every finding appears verbatim in every report, and the text and
// JSON summaries print the same per-severity counts
// ---------------------------------------------------------------------------

proof fn lemma_blocks_contain(fs: Seq<FindingModel>, i: int)
    requires
        0 <= i < fs.len(),
    ensures
        contains_sub(finding_blocks(fs), finding_block(fs[i])),
    decreases fs.len(),
{
    if i == fs.len() - 1 {
        lemma_contains_self(finding_block(fs.last()));
        lemma_contains_concat_right(
            finding_blocks(fs.drop_last()),
            finding_block(fs.last()),
            finding_block(fs[i]),
        );
    } else {
        lemma_blocks_contain(fs.drop_last(), i);
        assert(fs.drop_last()[i] == fs[i]);
        lemma_contains_concat_left(
            finding_blocks(fs.drop_last()),
            finding_block(fs.last()),
            finding_block(fs[i]),
        );
    }
}

/// Every finding's rendered block — its severity tag, line number,
/// warning, code and remediation text — appears verbatim in the text
/// report, and the block itself spells out that severity tag, line
/// number and warning.
#[verifier::rlimit(100)]
pub proof fn lemma_text_report_contains_finding(fs: Seq<FindingModel>, i: int)
    requires
        0 <= i < fs.len(),
    ensures
        contains_sub(spec_report(fs), finding_block(fs[i])),
        contains_sub(finding_block(fs[i]), severity_tag(fs[i].severity)),
        contains_sub(finding_block(fs[i]), dec_rep(fs[i].line as nat)),
        contains_sub(finding_block(fs[i]), fs[i].warning),
{
    lemma_blocks_contain(fs, i);
    lemma_contains_concat_right(report_header(fs), finding_blocks(fs), finding_block(fs[i]));
    let f = fs[i];
    let tag = severity_tag(f.severity);
    let dec = dec_rep(f.line as nat);
    let w = f.warning;
    lemma_contains_self(tag);
    lemma_contains_self(dec);
    lemma_contains_self(w);
    let c2 = "["@ + tag;
    lemma_contains_concat_right("["@, tag, tag);
    let c3 = c2 + "] Line "@;
    lemma_contains_concat_left(c2, "] Line "@, tag);
    let c4 = c3 + dec;
    lemma_contains_concat_right(c3, dec, dec);
    lemma_contains_concat_left(c3, dec, tag);
    let c5 = c4 + ": "@;
    lemma_contains_concat_left(c4, ": "@, tag);
    lemma_contains_concat_left(c4, ": "@, dec);
    let c6 = c5 + w;
    lemma_contains_concat_right(c5, w, w);
    lemma_contains_concat_left(c5, w, tag);
    lemma_contains_concat_left(c5, w, dec);
    let c7 = c6 + "\n"@;
    lemma_contains_concat_left(c6, "\n"@, tag);
    lemma_contains_concat_left(c6, "\n"@, dec);
    lemma_contains_concat_left(c6, "\n"@, w);
    let c8 = c7 + "Code: "@;
    lemma_contains_concat_left(c7, "Code: "@, tag);
    lemma_contains_concat_left(c7, "Code: "@, dec);
    lemma_contains_concat_left(c7, "Code: "@, w);
    let c9 = c8 + f.snippet;
    lemma_contains_concat_left(c8, f.snippet, tag);
    lemma_contains_concat_left(c8, f.snippet, dec);
    lemma_contains_concat_left(c8, f.snippet, w);
    let c10 = c9 + "\n"@;
    lemma_contains_concat_left(c9, "\n"@, tag);
    lemma_contains_concat_left(c9, "\n"@, dec);
    lemma_contains_concat_left(c9, "\n"@, w);
    let c11 = c10 + "Explanation: "@;
    lemma_contains_concat_left(c10, "Explanation: "@, tag);
    lemma_contains_concat_left(c10, "Explanation: "@, dec);
    lemma_contains_concat_left(c10, "Explanation: "@, w);
    let c12 = c11 + f.explanation;
    lemma_contains_concat_left(c11, f.explanation, tag);
    lemma_contains_concat_left(c11, f.explanation, dec);
    lemma_contains_concat_left(c11, f.explanation, w);
    let c13 = c12 + "\n"@;
    lemma_contains_concat_left(c12, "\n"@, tag);
    lemma_contains_concat_left(c12, "\n"@, dec);
    lemma_contains_concat_left(c12, "\n"@, w);
    let c14 = c13 + "Fix: "@;
    lemma_contains_concat_left(c13, "Fix: "@, tag);
    lemma_contains_concat_left(c13, "Fix: "@, dec);
    lemma_contains_concat_left(c13, "Fix: "@, w);
    let c15 = c14 + f.fix_suggestion;
    lemma_contains_concat_left(c14, f.fix_suggestion, tag);
    lemma_contains_concat_left(c14, f.fix_suggestion, dec);
    lemma_contains_concat_left(c14, f.fix_suggestion, w);
    let c16 = c15 + "\n"@;
    lemma_contains_concat_left(c15, "\n"@, tag);
    lemma_contains_concat_left(c15, "\n"@, dec);
    lemma_contains_concat_left(c15, "\n"@, w);
    let ex = match f.real_world_example {
        Some(e) => "Real-world example: "@ + e + "\n"@,
        None => Seq::<char>::empty(),
    };
    let c17 = c16 + ex;
    lemma_contains_concat_left(c16, ex, tag);
    lemma_contains_concat_left(c16, ex, dec);
    lemma_contains_concat_left(c16, ex, w);
    lemma_contains_concat_left(c17, "\n"@, tag);
    lemma_contains_concat_left(c17, "\n"@, dec);
    lemma_contains_concat_left(c17, "\n"@, w);
    assert(finding_block(f) == c17 + "\n"@);
}

proof fn lemma_csv_rows_contain(fs: Seq<FindingModel>, i: int)
    requires
        0 <= i < fs.len(),
    ensures
        contains_sub(csv_rows(fs), csv_row(fs[i])),
    decreases fs.len(),
{
    if i == fs.len() - 1 {
        lemma_contains_self(csv_row(fs.last()));
        lemma_contains_concat_right(csv_rows(fs.drop_last()), csv_row(fs.last()), csv_row(fs[i]));
    } else {
        lemma_csv_rows_contain(fs.drop_last(), i);
        assert(fs.drop_last()[i] == fs[i]);
        lemma_contains_concat_left(csv_rows(fs.drop_last()), csv_row(fs.last()), csv_row(fs[i]));
    }
}

/// Every finding's data row — severity, category, line and its escaped
/// text fields — appears verbatim in the CSV report.
pub proof fn lemma_csv_report_contains_finding(fs: Seq<FindingModel>, i: int)
    requires
        0 <= i < fs.len(),
    ensures
        contains_sub(spec_csv_report(fs), csv_row(fs[i])),
{
    lemma_csv_rows_contain(fs, i);
    lemma_contains_concat_right(
        "Severity,Category,Line,Warning,Code,Explanation,Fix Suggestion,Real World Example\n"@,
        csv_rows(fs),
        csv_row(fs[i]),
    );
}

proof fn lemma_json_items_contain(fs: Seq<FindingModel>, i: int)
    requires
        0 <= i < fs.len(),
    ensures
        contains_sub(json_items(fs), json_finding(fs[i])),
    decreases fs.len(),
{
    if fs.len() == 1 {
        lemma_contains_self(json_finding(fs[0]));
    } else if i == fs.len() - 1 {
        lemma_contains_self(json_finding(fs.last()));
        lemma_contains_concat_right(
            json_items(fs.drop_last()) + ",\n"@,
            json_finding(fs.last()),
            json_finding(fs[i]),
        );
    } else {
        lemma_json_items_contain(fs.drop_last(), i);
        assert(fs.drop_last()[i] == fs[i]);
        lemma_contains_concat_left(json_items(fs.drop_last()), ",\n"@, json_finding(fs[i]));
        lemma_contains_concat_left(
            json_items(fs.drop_last()) + ",\n"@,
            json_finding(fs.last()),
            json_finding(fs[i]),
        );
    }
}

/// Every finding's JSON object — its severity, category, line and text
/// fields — appears verbatim in the JSON report's `findings` array,
/// whatever the generation timestamp.
pub proof fn lemma_json_report_contains_finding(
    fs: Seq<FindingModel>,
    ts: Seq<char>,
    i: int,
)
    requires
        0 <= i < fs.len(),
    ensures
        contains_sub(spec_json_report(fs, ts), json_finding(fs[i])),
{
    let item = json_finding(fs[i]);
    lemma_json_items_contain(fs, i);
    let arr = json_findings_array(fs);
    lemma_contains_concat_right("[\n"@, json_items(fs), item);
    lemma_contains_concat_left("[\n"@ + json_items(fs), "\n  ]"@, item);
    assert(contains_sub(arr, item));
    let p5 = "{\n  \"timestamp\": "@ + json_string(ts) + ",\n  \"total_findings\": "@ + dec_rep(
        fs.len(),
    ) + ",\n  \"findings\": "@;
    lemma_contains_concat_right(p5, arr, item);
    lemma_contains_concat_left(p5 + arr, ",\n  \"summary\": {\n    \"critical\": "@, item);
    lemma_contains_concat_left(
        p5 + arr + ",\n  \"summary\": {\n    \"critical\": "@,
        dec_rep(count_sev(fs, Severity::Critical)),
        item,
    );
    lemma_contains_concat_left(
        p5 + arr + ",\n  \"summary\": {\n    \"critical\": "@ + dec_rep(
            count_sev(fs, Severity::Critical),
        ),
        ",\n    \"high\": "@,
        item,
    );
    lemma_contains_concat_left(
        p5 + arr + ",\n  \"summary\": {\n    \"critical\": "@ + dec_rep(
            count_sev(fs, Severity::Critical),
        ) + ",\n    \"high\": "@,
        dec_rep(count_sev(fs, Severity::High)),
        item,
    );
    lemma_contains_concat_left(
        p5 + arr + ",\n  \"summary\": {\n    \"critical\": "@ + dec_rep(
            count_sev(fs, Severity::Critical),
        ) + ",\n    \"high\": "@ + dec_rep(count_sev(fs, Severity::High)),
        ",\n    \"medium\": "@,
        item,
    );
    lemma_contains_concat_left(
        p5 + arr + ",\n  \"summary\": {\n    \"critical\": "@ + dec_rep(
            count_sev(fs, Severity::Critical),
        ) + ",\n    \"high\": "@ + dec_rep(count_sev(fs, Severity::High)) + ",\n    \"medium\": "@,
        dec_rep(count_sev(fs, Severity::Medium)),
        item,
    );
    lemma_contains_concat_left(
        p5 + arr + ",\n  \"summary\": {\n    \"critical\": "@ + dec_rep(
            count_sev(fs, Severity::Critical),
        ) + ",\n    \"high\": "@ + dec_rep(count_sev(fs, Severity::High)) + ",\n    \"medium\": "@
            + dec_rep(count_sev(fs, Severity::Medium)),
        ",\n    \"low\": "@,
        item,
    );
    lemma_contains_concat_left(
        p5 + arr + ",\n  \"summary\": {\n    \"critical\": "@ + dec_rep(
            count_sev(fs, Severity::Critical),
        ) + ",\n    \"high\": "@ + dec_rep(count_sev(fs, Severity::High)) + ",\n    \"medium\": "@
            + dec_rep(count_sev(fs, Severity::Medium)) + ",\n    \"low\": "@,
        dec_rep(count_sev(fs, Severity::Low)),
        item,
    );
    lemma_contains_concat_left(
        p5 + arr + ",\n  \"summary\": {\n    \"critical\": "@ + dec_rep(
            count_sev(fs, Severity::Critical),
        ) + ",\n    \"high\": "@ + dec_rep(count_sev(fs, Severity::High)) + ",\n    \"medium\": "@
            + dec_rep(count_sev(fs, Severity::Medium)) + ",\n    \"low\": "@ + dec_rep(
            count_sev(fs, Severity::Low),
        ),
        "\n  }\n}"@,
        item,
    );
}

/// The severity summaries of the text report and of the JSON report both
/// print exactly `count_sev` of the same findings, severity by severity:
/// each report contains its summary rendered from those shared counts.
#[verifier::rlimit(100)]
pub proof fn lemma_summaries_agree(fs: Seq<FindingModel>, ts: Seq<char>)
    ensures
        contains_sub(
            spec_report(fs),
            "Critical Severity: "@ + dec_rep(count_sev(fs, Severity::Critical)) + "\n"@
                + "High Severity: "@ + dec_rep(count_sev(fs, Severity::High)) + "\n"@
                + "Medium Severity: "@ + dec_rep(count_sev(fs, Severity::Medium)) + "\n"@
                + "Low Severity: "@ + dec_rep(count_sev(fs, Severity::Low)) + "\n\n"@,
        ),
        contains_sub(
            spec_json_report(fs, ts),
            ",\n  \"summary\": {\n    \"critical\": "@ + dec_rep(count_sev(fs, Severity::Critical))
                + ",\n    \"high\": "@ + dec_rep(count_sev(fs, Severity::High))
                + ",\n    \"medium\": "@ + dec_rep(count_sev(fs, Severity::Medium))
                + ",\n    \"low\": "@ + dec_rep(count_sev(fs, Severity::Low)) + "\n  }\n}"@,
        ),
{
    let text_tail = "Critical Severity: "@ + dec_rep(count_sev(fs, Severity::Critical)) + "\n"@
        + "High Severity: "@ + dec_rep(count_sev(fs, Severity::High)) + "\n"@
        + "Medium Severity: "@ + dec_rep(count_sev(fs, Severity::Medium)) + "\n"@
        + "Low Severity: "@ + dec_rep(count_sev(fs, Severity::Low)) + "\n\n"@;
    let text_prefix = "\u{1F512} Solidity Security Scanner Report\n"@
        + "================================\n\n"@ + "Total Findings: "@ + dec_rep(fs.len())
        + "\n"@;
    assert(report_header(fs) =~= text_prefix + text_tail);
    lemma_contains_self(text_tail);
    lemma_contains_concat_right(text_prefix, text_tail, text_tail);
    assert(contains_sub(report_header(fs), text_tail));
    lemma_contains_concat_left(report_header(fs), finding_blocks(fs), text_tail);

    let json_tail = ",\n  \"summary\": {\n    \"critical\": "@ + dec_rep(
        count_sev(fs, Severity::Critical),
    ) + ",\n    \"high\": "@ + dec_rep(count_sev(fs, Severity::High)) + ",\n    \"medium\": "@
        + dec_rep(count_sev(fs, Severity::Medium)) + ",\n    \"low\": "@ + dec_rep(
        count_sev(fs, Severity::Low),
    ) + "\n  }\n}"@;
    let json_prefix = "{\n  \"timestamp\": "@ + json_string(ts) + ",\n  \"total_findings\": "@
        + dec_rep(fs.len()) + ",\n  \"findings\": "@ + json_findings_array(fs);
    assert(spec_json_report(fs, ts) =~= json_prefix + json_tail);
    lemma_contains_self(json_tail);
    lemma_contains_concat_right(json_prefix, json_tail, json_tail);
}

// ---------------------------------------------------------------------------
// Laws of CSV escaping
// ---------------------------------------------------------------------------

proof fn lemma_double_quotes_append(a: Seq<char>, b: Seq<char>)
    ensures
        double_quotes(a + b) == double_quotes(a) + double_quotes(b),
    decreases b.len(),
{
    if b.len() == 0 {
        assert(a + b =~= a);
        assert(double_quotes(b) =~= Seq::<char>::empty());
        assert(double_quotes(a) + double_quotes(b) =~= double_quotes(a));
    } else {
        assert((a + b).drop_last() =~= a + b.drop_last());
        assert((a + b).last() == b.last());
        lemma_double_quotes_append(a, b.drop_last());
        assert(double_quotes(a + b) =~= double_quotes(a) + double_quotes(b));
    }
}

/// A field that holds a comma, a quote or a newline is rendered as a
/// quoted field: opening quote, the doubled body, closing quote.
pub proof fn lemma_csv_escape_quoted(s: Seq<char>)
    requires
        csv_needs_quoting(s),
    ensures
        csv_escape(s).len() == double_quotes(s).len() + 2,
        csv_escape(s)[0] == '"',
        csv_escape(s).last() == '"',
        csv_escape(s).subrange(1, csv_escape(s).len() - 1) == double_quotes(s),
{
    assert(csv_escape(s).subrange(1, csv_escape(s).len() - 1) =~= double_quotes(s));
}

/// Inside the doubled body, every quote of the field appears twice: the
/// body splits around position `i` of the field into the doubled text
/// before it, two quotes, and the doubled text after it.
pub proof fn lemma_csv_quote_doubled(s: Seq<char>, i: int)
    requires
        0 <= i < s.len(),
        s[i] == '"',
    ensures
        double_quotes(s) == double_quotes(s.take(i)) + seq!['"', '"'] + double_quotes(
            s.skip(i + 1),
        ),
{
    assert(s =~= s.take(i) + (seq!['"'] + s.skip(i + 1)));
    lemma_double_quotes_append(s.take(i), seq!['"'] + s.skip(i + 1));
    lemma_double_quotes_append(seq!['"'], s.skip(i + 1));
    assert(double_quotes(seq!['"']) =~= seq!['"', '"']) by {
        assert(seq!['"'].drop_last() =~= Seq::<char>::empty());
        assert(double_quotes(seq!['"'].drop_last()) =~= Seq::<char>::empty());
    }
    assert(double_quotes(s) =~= double_quotes(s.take(i)) + seq!['"', '"'] + double_quotes(
        s.skip(i + 1),
    ));
}

/// Renders the JSON report with the current wall-clock time as its
/// generation timestamp; everything but the timestamp is a function of
/// the findings.
pub fn generate_json_report(findings: &[VulnerabilityFinding]) -> (r: String)
    ensures
        exists|ts: Seq<char>| r@ == #[trigger] spec_json_report(views_of(findings@), ts),
{
    let ts = crate::time::now_rfc3339();
    let r = generate_json_report_at(findings, ts.as_str());
    proof {
        assert(r@ == spec_json_report(views_of(findings@), ts@));
    }
    r
}

} // verus!
