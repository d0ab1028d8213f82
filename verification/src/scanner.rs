//! The line classifier and the detector battery.
//!
//! A scan is a single forward pass over the lines of the source text.  The
//! classifier trims each line, collapses block comments and line comments
//! into a skip state, tracks `unchecked` arithmetic blocks, and strips
//! trailing `//` comments; the battery then runs ten independent
//! substring-based detectors over every line that is not skipped.  The
//! whole pass is specified by `spec_scan`, a function of the source text
//! alone, so two scans of identical text yield identical finding
//! sequences.

use vstd::prelude::*;

use crate::models::FindingModel;
use crate::models::VulnerabilityFinding;
use crate::models::VulnerabilityType;
use crate::models::finding_for;
use crate::models::make_finding;
use crate::models::views_of;
use crate::text::contains_sub;
use crate::text::match_at;
use crate::text::spec_lines;
use crate::text::spec_strip_comment;
use crate::text::spec_trim;
use crate::text::split_lines;
use crate::text::str_contains;
use crate::text::str_starts_with;
use crate::text::strip_line_comment;
use crate::text::trim_slice;

verus! {

// ---------------------------------------------------------------------------
// Detector battery: one spec and one executable function per category
// ---------------------------------------------------------------------------

pub open spec fn spec_check_overflow(line: int, l: Seq<char>, in_unchecked: bool) -> Seq<
    FindingModel,
> {
    if !in_unchecked && (contains_sub(l, "+"@) || contains_sub(l, "-"@) || contains_sub(l, "*"@))
        && !contains_sub(l, "SafeMath"@) && !contains_sub(l, "checked"@) {
        seq![finding_for(VulnerabilityType::Overflow, line, l)]
    } else {
        seq![]
    }
}

pub open spec fn spec_check_reentrancy(line: int, l: Seq<char>) -> Seq<FindingModel> {
    if (contains_sub(l, "call"@) || contains_sub(l, "send"@) || contains_sub(l, "transfer"@))
        && !contains_sub(l, "reentrancy"@) && !contains_sub(l, "nonReentrant"@) {
        seq![finding_for(VulnerabilityType::Reentrancy, line, l)]
    } else {
        seq![]
    }
}

pub open spec fn spec_check_access_control(line: int, l: Seq<char>) -> Seq<FindingModel> {
    if contains_sub(l, "function"@) && !contains_sub(l, "public"@) && !contains_sub(l, "external"@)
        && !contains_sub(l, "private"@) && !contains_sub(l, "internal"@) {
        seq![finding_for(VulnerabilityType::AccessControl, line, l)]
    } else {
        seq![]
    }
}

pub open spec fn spec_check_unchecked_calls(line: int, l: Seq<char>) -> Seq<FindingModel> {
    if (contains_sub(l, "call("@) || contains_sub(l, "delegatecall("@) || contains_sub(
        l,
        "staticcall("@,
    )) && !contains_sub(l, "require"@) && !contains_sub(l, "assert"@) {
        seq![finding_for(VulnerabilityType::UncheckedExternalCall, line, l)]
    } else {
        seq![]
    }
}

pub open spec fn spec_check_timestamp(line: int, l: Seq<char>) -> Seq<FindingModel> {
    if contains_sub(l, "block.timestamp"@) {
        seq![finding_for(VulnerabilityType::TimestampDependence, line, l)]
    } else {
        seq![]
    }
}

pub open spec fn spec_check_gas_limit(line: int, l: Seq<char>) -> Seq<FindingModel> {
    if (contains_sub(l, "for"@) || contains_sub(l, "while"@)) && (contains_sub(l, "call"@)
        || contains_sub(l, "transfer"@)) {
        seq![finding_for(VulnerabilityType::GasLimit, line, l)]
    } else {
        seq![]
    }
}

pub open spec fn spec_check_unchecked_return(line: int, l: Seq<char>) -> Seq<FindingModel> {
    if (contains_sub(l, "transfer("@) || contains_sub(l, "send("@)) && !contains_sub(l, "require"@)
        && !contains_sub(l, "assert"@) {
        seq![finding_for(VulnerabilityType::UncheckedReturn, line, l)]
    } else {
        seq![]
    }
}

pub open spec fn spec_check_front_running(line: int, l: Seq<char>) -> Seq<FindingModel> {
    if (contains_sub(l, "swap"@) || contains_sub(l, "trade"@) || contains_sub(l, "order"@))
        && contains_sub(l, "public"@) && !contains_sub(l, "private"@) {
        seq![finding_for(VulnerabilityType::FrontRunning, line, l)]
    } else {
        seq![]
    }
}

pub open spec fn spec_check_flash_loan(line: int, l: Seq<char>) -> Seq<FindingModel> {
    if (contains_sub(l, "flash"@) || contains_sub(l, "borrow"@)) && !contains_sub(l, "require"@)
        && !contains_sub(l, "check"@) {
        seq![finding_for(VulnerabilityType::FlashLoan, line, l)]
    } else {
        seq![]
    }
}

pub open spec fn spec_check_oracle(line: int, l: Seq<char>) -> Seq<FindingModel> {
    if (contains_sub(l, "price"@) || contains_sub(l, "oracle"@) || contains_sub(l, "feed"@)) && (
    contains_sub(l, "single"@) || !contains_sub(l, "multiple"@)) {
        seq![finding_for(VulnerabilityType::OracleManipulation, line, l)]
    } else {
        seq![]
    }
}

/// Everything the battery reports for one scanned line: the ten detectors
/// in their fixed order.
pub open spec fn detector_findings(line: int, l: Seq<char>, in_unchecked: bool) -> Seq<
    FindingModel,
> {
    spec_check_overflow(line, l, in_unchecked) + spec_check_reentrancy(line, l)
        + spec_check_access_control(line, l) + spec_check_unchecked_calls(line, l)
        + spec_check_timestamp(line, l) + spec_check_gas_limit(line, l)
        + spec_check_unchecked_return(line, l) + spec_check_front_running(line, l)
        + spec_check_flash_loan(line, l) + spec_check_oracle(line, l)
}

proof fn lemma_views_push(s: Seq<VulnerabilityFinding>, f: VulnerabilityFinding)
    ensures
        views_of(s.push(f)) == views_of(s).push(f@),
{
    assert(views_of(s.push(f)) =~= views_of(s).push(f@));
}

pub fn check_overflow_underflow(
    findings: &mut Vec<VulnerabilityFinding>,
    line_num: usize,
    line: &str,
    in_unchecked_block: bool,
)
    requires
        line_num < usize::MAX,
    ensures
        views_of(final(findings)@) == views_of(old(findings)@) + spec_check_overflow(
            line_num + 1,
            line@,
            in_unchecked_block,
        ),
{
    let hit = !in_unchecked_block && (str_contains(line, "+") || str_contains(line, "-")
        || str_contains(line, "*")) && !str_contains(line, "SafeMath") && !str_contains(
        line,
        "checked",
    );
    if hit {
        let f = make_finding(VulnerabilityType::Overflow, line_num + 1, line);
        proof {
            lemma_views_push(findings@, f);
        }
        findings.push(f);
        assert(views_of(findings@) =~= views_of(old(findings)@) + spec_check_overflow(
            line_num + 1,
            line@,
            in_unchecked_block,
        ));
    } else {
        assert(views_of(findings@) =~= views_of(old(findings)@) + spec_check_overflow(
            line_num + 1,
            line@,
            in_unchecked_block,
        ));
    }
}

pub fn check_reentrancy(findings: &mut Vec<VulnerabilityFinding>, line_num: usize, line: &str)
    requires
        line_num < usize::MAX,
    ensures
        views_of(final(findings)@) == views_of(old(findings)@) + spec_check_reentrancy(
            line_num + 1,
            line@,
        ),
{
    let hit = (str_contains(line, "call") || str_contains(line, "send") || str_contains(
        line,
        "transfer",
    )) && !str_contains(line, "reentrancy") && !str_contains(line, "nonReentrant");
    if hit {
        let f = make_finding(VulnerabilityType::Reentrancy, line_num + 1, line);
        proof {
            lemma_views_push(findings@, f);
        }
        findings.push(f);
        assert(views_of(findings@) =~= views_of(old(findings)@) + spec_check_reentrancy(
            line_num + 1,
            line@,
        ));
    } else {
        assert(views_of(findings@) =~= views_of(old(findings)@) + spec_check_reentrancy(
            line_num + 1,
            line@,
        ));
    }
}

pub fn check_access_control(findings: &mut Vec<VulnerabilityFinding>, line_num: usize, line: &str)
    requires
        line_num < usize::MAX,
    ensures
        views_of(final(findings)@) == views_of(old(findings)@) + spec_check_access_control(
            line_num + 1,
            line@,
        ),
{
    let hit = str_contains(line, "function") && !str_contains(line, "public") && !str_contains(
        line,
        "external",
    ) && !str_contains(line, "private") && !str_contains(line, "internal");
    if hit {
        let f = make_finding(VulnerabilityType::AccessControl, line_num + 1, line);
        proof {
            lemma_views_push(findings@, f);
        }
        findings.push(f);
        assert(views_of(findings@) =~= views_of(old(findings)@) + spec_check_access_control(
            line_num + 1,
            line@,
        ));
    } else {
        assert(views_of(findings@) =~= views_of(old(findings)@) + spec_check_access_control(
            line_num + 1,
            line@,
        ));
    }
}

pub fn check_unchecked_external_calls(
    findings: &mut Vec<VulnerabilityFinding>,
    line_num: usize,
    line: &str,
)
    requires
        line_num < usize::MAX,
    ensures
        views_of(final(findings)@) == views_of(old(findings)@) + spec_check_unchecked_calls(
            line_num + 1,
            line@,
        ),
{
    let hit = (str_contains(line, "call(") || str_contains(line, "delegatecall(") || str_contains(
        line,
        "staticcall(",
    )) && !str_contains(line, "require") && !str_contains(line, "assert");
    if hit {
        let f = make_finding(VulnerabilityType::UncheckedExternalCall, line_num + 1, line);
        proof {
            lemma_views_push(findings@, f);
        }
        findings.push(f);
        assert(views_of(findings@) =~= views_of(old(findings)@) + spec_check_unchecked_calls(
            line_num + 1,
            line@,
        ));
    } else {
        assert(views_of(findings@) =~= views_of(old(findings)@) + spec_check_unchecked_calls(
            line_num + 1,
            line@,
        ));
    }
}

pub fn check_timestamp_dependence(
    findings: &mut Vec<VulnerabilityFinding>,
    line_num: usize,
    line: &str,
)
    requires
        line_num < usize::MAX,
    ensures
        views_of(final(findings)@) == views_of(old(findings)@) + spec_check_timestamp(
            line_num + 1,
            line@,
        ),
{
    let hit = str_contains(line, "block.timestamp");
    if hit {
        let f = make_finding(VulnerabilityType::TimestampDependence, line_num + 1, line);
        proof {
            lemma_views_push(findings@, f);
        }
        findings.push(f);
        assert(views_of(findings@) =~= views_of(old(findings)@) + spec_check_timestamp(
            line_num + 1,
            line@,
        ));
    } else {
        assert(views_of(findings@) =~= views_of(old(findings)@) + spec_check_timestamp(
            line_num + 1,
            line@,
        ));
    }
}

pub fn check_gas_limit_issues(
    findings: &mut Vec<VulnerabilityFinding>,
    line_num: usize,
    line: &str,
)
    requires
        line_num < usize::MAX,
    ensures
        views_of(final(findings)@) == views_of(old(findings)@) + spec_check_gas_limit(
            line_num + 1,
            line@,
        ),
{
    let hit = (str_contains(line, "for") || str_contains(line, "while")) && (str_contains(
        line,
        "call",
    ) || str_contains(line, "transfer"));
    if hit {
        let f = make_finding(VulnerabilityType::GasLimit, line_num + 1, line);
        proof {
            lemma_views_push(findings@, f);
        }
        findings.push(f);
        assert(views_of(findings@) =~= views_of(old(findings)@) + spec_check_gas_limit(
            line_num + 1,
            line@,
        ));
    } else {
        assert(views_of(findings@) =~= views_of(old(findings)@) + spec_check_gas_limit(
            line_num + 1,
            line@,
        ));
    }
}

pub fn check_unchecked_return_values(
    findings: &mut Vec<VulnerabilityFinding>,
    line_num: usize,
    line: &str,
)
    requires
        line_num < usize::MAX,
    ensures
        views_of(final(findings)@) == views_of(old(findings)@) + spec_check_unchecked_return(
            line_num + 1,
            line@,
        ),
{
    let hit = (str_contains(line, "transfer(") || str_contains(line, "send(")) && !str_contains(
        line,
        "require",
    ) && !str_contains(line, "assert");
    if hit {
        let f = make_finding(VulnerabilityType::UncheckedReturn, line_num + 1, line);
        proof {
            lemma_views_push(findings@, f);
        }
        findings.push(f);
        assert(views_of(findings@) =~= views_of(old(findings)@) + spec_check_unchecked_return(
            line_num + 1,
            line@,
        ));
    } else {
        assert(views_of(findings@) =~= views_of(old(findings)@) + spec_check_unchecked_return(
            line_num + 1,
            line@,
        ));
    }
}

pub fn check_front_running(findings: &mut Vec<VulnerabilityFinding>, line_num: usize, line: &str)
    requires
        line_num < usize::MAX,
    ensures
        views_of(final(findings)@) == views_of(old(findings)@) + spec_check_front_running(
            line_num + 1,
            line@,
        ),
{
    let hit = (str_contains(line, "swap") || str_contains(line, "trade") || str_contains(
        line,
        "order",
    )) && str_contains(line, "public") && !str_contains(line, "private");
    if hit {
        let f = make_finding(VulnerabilityType::FrontRunning, line_num + 1, line);
        proof {
            lemma_views_push(findings@, f);
        }
        findings.push(f);
        assert(views_of(findings@) =~= views_of(old(findings)@) + spec_check_front_running(
            line_num + 1,
            line@,
        ));
    } else {
        assert(views_of(findings@) =~= views_of(old(findings)@) + spec_check_front_running(
            line_num + 1,
            line@,
        ));
    }
}

pub fn check_flash_loan_attacks(
    findings: &mut Vec<VulnerabilityFinding>,
    line_num: usize,
    line: &str,
)
    requires
        line_num < usize::MAX,
    ensures
        views_of(final(findings)@) == views_of(old(findings)@) + spec_check_flash_loan(
            line_num + 1,
            line@,
        ),
{
    let hit = (str_contains(line, "flash") || str_contains(line, "borrow")) && !str_contains(
        line,
        "require",
    ) && !str_contains(line, "check");
    if hit {
        let f = make_finding(VulnerabilityType::FlashLoan, line_num + 1, line);
        proof {
            lemma_views_push(findings@, f);
        }
        findings.push(f);
        assert(views_of(findings@) =~= views_of(old(findings)@) + spec_check_flash_loan(
            line_num + 1,
            line@,
        ));
    } else {
        assert(views_of(findings@) =~= views_of(old(findings)@) + spec_check_flash_loan(
            line_num + 1,
            line@,
        ));
    }
}

pub fn check_oracle_manipulation(
    findings: &mut Vec<VulnerabilityFinding>,
    line_num: usize,
    line: &str,
)
    requires
        line_num < usize::MAX,
    ensures
        views_of(final(findings)@) == views_of(old(findings)@) + spec_check_oracle(
            line_num + 1,
            line@,
        ),
{
    let hit = (str_contains(line, "price") || str_contains(line, "oracle") || str_contains(
        line,
        "feed",
    )) && (str_contains(line, "single") || !str_contains(line, "multiple"));
    if hit {
        let f = make_finding(VulnerabilityType::OracleManipulation, line_num + 1, line);
        proof {
            lemma_views_push(findings@, f);
        }
        findings.push(f);
        assert(views_of(findings@) =~= views_of(old(findings)@) + spec_check_oracle(
            line_num + 1,
            line@,
        ));
    } else {
        assert(views_of(findings@) =~= views_of(old(findings)@) + spec_check_oracle(
            line_num + 1,
            line@,
        ));
    }
}

// ---------------------------------------------------------------------------
// Line classifier
// ---------------------------------------------------------------------------

/// The lexical state the classifier carries from line to line.
pub ghost struct LexState {
    pub in_block_comment: bool,
    pub in_unchecked: bool,
}

pub open spec fn initial_state() -> LexState {
    LexState { in_block_comment: false, in_unchecked: false }
}

/// What the classifier decides for one raw line.
pub ghost struct ClassifiedLine {
    /// Whether the detector battery sees this line at all.
    pub scanned: bool,
    /// The trimmed, comment-stripped text handed to the detectors.
    pub text: Seq<char>,
    /// The unchecked-block flag handed to the overflow detector.
    pub in_unchecked: bool,
}

/// One step of the classifier: trims the raw line, applies the
/// block-comment, line-comment and unchecked-block rules in order, and
/// strips any trailing `//` comment from a scanned line.
pub open spec fn classify_line(raw: Seq<char>, st: LexState) -> (ClassifiedLine, LexState) {
    let l = spec_trim(raw);
    if st.in_block_comment || contains_sub(l, "/*"@) {
        (
            ClassifiedLine { scanned: false, text: l, in_unchecked: st.in_unchecked },
            LexState { in_block_comment: !contains_sub(l, "*/"@), in_unchecked: st.in_unchecked },
        )
    } else if match_at(l, "//"@, 0) || l.len() == 0 {
        (ClassifiedLine { scanned: false, text: l, in_unchecked: st.in_unchecked }, st)
    } else {
        let entered = st.in_unchecked || contains_sub(l, "unchecked"@);
        let ub = entered && !contains_sub(l, "}"@);
        (
            ClassifiedLine { scanned: true, text: spec_strip_comment(l), in_unchecked: ub },
            LexState { in_block_comment: false, in_unchecked: ub },
        )
    }
}

/// The findings of the battery over `lines[i..]`, starting in state `st`.
pub open spec fn scan_lines_from(lines: Seq<Seq<char>>, i: int, st: LexState) -> Seq<FindingModel>
    decreases lines.len() - i,
{
    if i < 0 || i >= lines.len() {
        seq![]
    } else {
        let step = classify_line(lines[i], st);
        (if step.0.scanned {
            detector_findings(i + 1, step.0.text, step.0.in_unchecked)
        } else {
            seq![]
        }) + scan_lines_from(lines, i + 1, step.1)
    }
}

/// Everything a scan of `text` reports, in order.  This is a function of
/// the text alone, so scanning is deterministic and idempotent.
pub open spec fn spec_scan(text: Seq<char>) -> Seq<FindingModel> {
    scan_lines_from(spec_lines(text), 0, initial_state())
}

proof fn lemma_add_assoc<A>(a: Seq<A>, b: Seq<A>, c: Seq<A>)
    ensures
        (a + b) + c == a + (b + c),
{
    assert((a + b) + c =~= a + (b + c));
}

proof fn lemma_concat_battery<A>(
    p: Seq<A>,
    s1: Seq<A>,
    s2: Seq<A>,
    s3: Seq<A>,
    s4: Seq<A>,
    s5: Seq<A>,
    s6: Seq<A>,
    s7: Seq<A>,
    s8: Seq<A>,
    s9: Seq<A>,
    s10: Seq<A>,
)
    ensures
        p + s1 + s2 + s3 + s4 + s5 + s6 + s7 + s8 + s9 + s10 == p + (s1 + s2 + s3 + s4 + s5 + s6
            + s7 + s8 + s9 + s10),
{
    assert(p + s1 + s2 + s3 + s4 + s5 + s6 + s7 + s8 + s9 + s10 =~= p + (s1 + s2 + s3 + s4 + s5
        + s6 + s7 + s8 + s9 + s10));
}

/// Scans a full source text and returns the ordered findings of the
/// detector battery.
#[verifier::rlimit(50)]
pub fn scan_for_vulnerabilities(source: &str) -> (findings: Vec<VulnerabilityFinding>)
    ensures
        views_of(findings@) == spec_scan(source@),
{
    let mut findings: Vec<VulnerabilityFinding> = Vec::new();
    let lines = split_lines(source);
    let ghost lv = lines.deep_view();
    let n = lines.len();
    let mut in_block_comment = false;
    let mut in_unchecked_block = false;
    proof {
        assert(views_of(findings@) =~= Seq::<FindingModel>::empty());
        assert(views_of(findings@) + scan_lines_from(lv, 0, initial_state()) =~= spec_scan(
            source@,
        ));
    }
    let mut i: usize = 0;
    while i < n
        invariant
            n == lines.len(),
            lv == lines.deep_view(),
            lv.len() == n,
            0 <= i <= n,
            views_of(findings@) + scan_lines_from(
                lv,
                i as int,
                LexState { in_block_comment, in_unchecked: in_unchecked_block },
            ) == spec_scan(source@),
        decreases n - i,
    {
        let ghost st = LexState { in_block_comment, in_unchecked: in_unchecked_block };
        let ghost pre = views_of(findings@);
        let raw = &lines[i];
        let l = trim_slice(raw.as_str());
        proof {
            assert(lv[i as int] == raw@);
            assert(l@ == spec_trim(lv[i as int]));
        }
        if in_block_comment || str_contains(l, "/*") {
            in_block_comment = !str_contains(l, "*/");
            proof {
                let step = classify_line(lv[i as int], st);
                assert(step.1 == LexState {
                    in_block_comment,
                    in_unchecked: in_unchecked_block,
                });
                assert(pre + scan_lines_from(lv, i + 1, step.1) =~= spec_scan(source@));
            }
        } else if str_starts_with(l, "//") || l.unicode_len() == 0 {
            proof {
                let step = classify_line(lv[i as int], st);
                assert(step.1 == st);
                assert(pre + scan_lines_from(lv, i + 1, step.1) =~= spec_scan(source@));
            }
        } else {
            if str_contains(l, "unchecked") {
                in_unchecked_block = true;
            }
            if in_unchecked_block && str_contains(l, "}") {
                in_unchecked_block = false;
            }
            let content = strip_line_comment(l);
            let ghost step = classify_line(lv[i as int], st);
            proof {
                assert(step.0.scanned);
                assert(step.0.text == content@);
                assert(step.0.in_unchecked == in_unchecked_block);
                assert(step.1 == LexState {
                    in_block_comment: false,
                    in_unchecked: in_unchecked_block,
                });
            }
            check_overflow_underflow(&mut findings, i, content, in_unchecked_block);
            check_reentrancy(&mut findings, i, content);
            check_access_control(&mut findings, i, content);
            check_unchecked_external_calls(&mut findings, i, content);
            check_timestamp_dependence(&mut findings, i, content);
            check_gas_limit_issues(&mut findings, i, content);
            check_unchecked_return_values(&mut findings, i, content);
            check_front_running(&mut findings, i, content);
            check_flash_loan_attacks(&mut findings, i, content);
            check_oracle_manipulation(&mut findings, i, content);
            proof {
                lemma_concat_battery(
                    pre,
                    spec_check_overflow(i + 1, content@, in_unchecked_block),
                    spec_check_reentrancy(i + 1, content@),
                    spec_check_access_control(i + 1, content@),
                    spec_check_unchecked_calls(i + 1, content@),
                    spec_check_timestamp(i + 1, content@),
                    spec_check_gas_limit(i + 1, content@),
                    spec_check_unchecked_return(i + 1, content@),
                    spec_check_front_running(i + 1, content@),
                    spec_check_flash_loan(i + 1, content@),
                    spec_check_oracle(i + 1, content@),
                );
                let d = detector_findings(i + 1, content@, in_unchecked_block);
                assert(views_of(findings@) == pre + d);
                let rest = scan_lines_from(lv, i + 1, step.1);
                assert(scan_lines_from(lv, i as int, st) == d + rest);
                lemma_add_assoc(pre, d, rest);
                assert(views_of(findings@) + rest == spec_scan(source@));
            }
        }
        i = i + 1;
    }
    findings
}

// ---------------------------------------------------------------------------
// Laws of the classifier and the battery
// ---------------------------------------------------------------------------

/// The classifier state in force when line `i` is reached.
pub open spec fn state_at(lines: Seq<Seq<char>>, i: int) -> LexState
    decreases i,
{
    if i <= 0 {
        initial_state()
    } else {
        classify_line(lines[i - 1], state_at(lines, i - 1)).1
    }
}

/// What the classifier decides for line `i` of the given lines.
pub open spec fn classified_at(lines: Seq<Seq<char>>, i: int) -> ClassifiedLine {
    classify_line(lines[i], state_at(lines, i)).0
}

proof fn lemma_filter_singleton<A>(x: A, p: spec_fn(A) -> bool)
    ensures
        seq![x].filter(p) == if p(x) {
            seq![x]
        } else {
            Seq::<A>::empty()
        },
{
    reveal_with_fuel(Seq::filter, 2);
    assert(seq![x].drop_last() =~= Seq::<A>::empty());
    assert(seq![x].drop_last().filter(p) =~= Seq::<A>::empty());
    if p(x) {
        assert(seq![x].filter(p) =~= seq![x]);
    } else {
        assert(seq![x].filter(p) =~= Seq::<A>::empty());
    }
}

/// Splits the filter of one line's battery output into the filters of the
/// ten detectors.
proof fn lemma_detector_filter_parts(n: int, l: Seq<char>, ub: bool, p: spec_fn(FindingModel) -> bool)
    ensures
        detector_findings(n, l, ub).filter(p) == spec_check_overflow(n, l, ub).filter(p)
            + spec_check_reentrancy(n, l).filter(p) + spec_check_access_control(n, l).filter(p)
            + spec_check_unchecked_calls(n, l).filter(p) + spec_check_timestamp(n, l).filter(p)
            + spec_check_gas_limit(n, l).filter(p) + spec_check_unchecked_return(n, l).filter(p)
            + spec_check_front_running(n, l).filter(p) + spec_check_flash_loan(n, l).filter(p)
            + spec_check_oracle(n, l).filter(p),
{
    let s1 = spec_check_overflow(n, l, ub);
    let s2 = spec_check_reentrancy(n, l);
    let s3 = spec_check_access_control(n, l);
    let s4 = spec_check_unchecked_calls(n, l);
    let s5 = spec_check_timestamp(n, l);
    let s6 = spec_check_gas_limit(n, l);
    let s7 = spec_check_unchecked_return(n, l);
    let s8 = spec_check_front_running(n, l);
    let s9 = spec_check_flash_loan(n, l);
    let s10 = spec_check_oracle(n, l);
    Seq::filter_distributes_over_add(s1, s2, p);
    Seq::filter_distributes_over_add(s1 + s2, s3, p);
    Seq::filter_distributes_over_add(s1 + s2 + s3, s4, p);
    Seq::filter_distributes_over_add(s1 + s2 + s3 + s4, s5, p);
    Seq::filter_distributes_over_add(s1 + s2 + s3 + s4 + s5, s6, p);
    Seq::filter_distributes_over_add(s1 + s2 + s3 + s4 + s5 + s6, s7, p);
    Seq::filter_distributes_over_add(s1 + s2 + s3 + s4 + s5 + s6 + s7, s8, p);
    Seq::filter_distributes_over_add(s1 + s2 + s3 + s4 + s5 + s6 + s7 + s8, s9, p);
    Seq::filter_distributes_over_add(s1 + s2 + s3 + s4 + s5 + s6 + s7 + s8 + s9, s10, p);
}

/// A predicate that matches only findings of line `target` matches
/// nothing in the battery output of another line.
proof fn lemma_detector_filter_none(
    n: int,
    l: Seq<char>,
    ub: bool,
    p: spec_fn(FindingModel) -> bool,
    target: int,
)
    requires
        forall|f: FindingModel| #[trigger] p(f) ==> f.line == target,
        n != target,
    ensures
        detector_findings(n, l, ub).filter(p).len() == 0,
{
    reveal(Seq::filter);
    lemma_detector_filter_parts(n, l, ub, p);
    assert(Seq::<FindingModel>::empty().filter(p) =~= Seq::<FindingModel>::empty());
    assert(spec_check_overflow(n, l, ub).filter(p).len() == 0) by {
        lemma_filter_singleton(finding_for(VulnerabilityType::Overflow, n, l), p);
        assert(!p(finding_for(VulnerabilityType::Overflow, n, l)));
        assert(Seq::<FindingModel>::empty().filter(p) =~= Seq::<FindingModel>::empty());
    }
    assert(spec_check_reentrancy(n, l).filter(p).len() == 0) by {
        lemma_filter_singleton(finding_for(VulnerabilityType::Reentrancy, n, l), p);
        assert(!p(finding_for(VulnerabilityType::Reentrancy, n, l)));
        assert(Seq::<FindingModel>::empty().filter(p) =~= Seq::<FindingModel>::empty());
    }
    assert(spec_check_access_control(n, l).filter(p).len() == 0) by {
        lemma_filter_singleton(finding_for(VulnerabilityType::AccessControl, n, l), p);
        assert(!p(finding_for(VulnerabilityType::AccessControl, n, l)));
        assert(Seq::<FindingModel>::empty().filter(p) =~= Seq::<FindingModel>::empty());
    }
    assert(spec_check_unchecked_calls(n, l).filter(p).len() == 0) by {
        lemma_filter_singleton(finding_for(VulnerabilityType::UncheckedExternalCall, n, l), p);
        assert(!p(finding_for(VulnerabilityType::UncheckedExternalCall, n, l)));
        assert(Seq::<FindingModel>::empty().filter(p) =~= Seq::<FindingModel>::empty());
    }
    assert(spec_check_timestamp(n, l).filter(p).len() == 0) by {
        lemma_filter_singleton(finding_for(VulnerabilityType::TimestampDependence, n, l), p);
        assert(!p(finding_for(VulnerabilityType::TimestampDependence, n, l)));
        assert(Seq::<FindingModel>::empty().filter(p) =~= Seq::<FindingModel>::empty());
    }
    assert(spec_check_gas_limit(n, l).filter(p).len() == 0) by {
        lemma_filter_singleton(finding_for(VulnerabilityType::GasLimit, n, l), p);
        assert(!p(finding_for(VulnerabilityType::GasLimit, n, l)));
        assert(Seq::<FindingModel>::empty().filter(p) =~= Seq::<FindingModel>::empty());
    }
    assert(spec_check_unchecked_return(n, l).filter(p).len() == 0) by {
        lemma_filter_singleton(finding_for(VulnerabilityType::UncheckedReturn, n, l), p);
        assert(!p(finding_for(VulnerabilityType::UncheckedReturn, n, l)));
        assert(Seq::<FindingModel>::empty().filter(p) =~= Seq::<FindingModel>::empty());
    }
    assert(spec_check_front_running(n, l).filter(p).len() == 0) by {
        lemma_filter_singleton(finding_for(VulnerabilityType::FrontRunning, n, l), p);
        assert(!p(finding_for(VulnerabilityType::FrontRunning, n, l)));
        assert(Seq::<FindingModel>::empty().filter(p) =~= Seq::<FindingModel>::empty());
    }
    assert(spec_check_flash_loan(n, l).filter(p).len() == 0) by {
        lemma_filter_singleton(finding_for(VulnerabilityType::FlashLoan, n, l), p);
        assert(!p(finding_for(VulnerabilityType::FlashLoan, n, l)));
        assert(Seq::<FindingModel>::empty().filter(p) =~= Seq::<FindingModel>::empty());
    }
    assert(spec_check_oracle(n, l).filter(p).len() == 0) by {
        lemma_filter_singleton(finding_for(VulnerabilityType::OracleManipulation, n, l), p);
        assert(!p(finding_for(VulnerabilityType::OracleManipulation, n, l)));
        assert(Seq::<FindingModel>::empty().filter(p) =~= Seq::<FindingModel>::empty());
    }
    assert(detector_findings(n, l, ub).filter(p).len() == 0);
}

/// Lines at or beyond `k` carry line numbers beyond `target`, so a
/// predicate that matches only line `target` matches nothing from them.
proof fn lemma_scan_filter_none_beyond(
    lines: Seq<Seq<char>>,
    k: int,
    st: LexState,
    p: spec_fn(FindingModel) -> bool,
    target: int,
)
    requires
        0 <= k,
        target < k + 1,
        forall|f: FindingModel| #[trigger] p(f) ==> f.line == target,
    ensures
        scan_lines_from(lines, k, st).filter(p).len() == 0,
    decreases lines.len() - k,
{
    reveal(Seq::filter);
    if k >= lines.len() {
        assert(Seq::<FindingModel>::empty().filter(p) =~= Seq::<FindingModel>::empty());
    } else {
        let step = classify_line(lines[k], st);
        let head = if step.0.scanned {
            detector_findings(k + 1, step.0.text, step.0.in_unchecked)
        } else {
            seq![]
        };
        let rest = scan_lines_from(lines, k + 1, step.1);
        Seq::filter_distributes_over_add(head, rest, p);
        if step.0.scanned {
            lemma_detector_filter_none(k + 1, step.0.text, step.0.in_unchecked, p, target);
        } else {
            assert(Seq::<FindingModel>::empty().filter(p) =~= Seq::<FindingModel>::empty());
        }
        lemma_scan_filter_none_beyond(lines, k + 1, step.1, p, target);
    }
}

/// Lines before `i` carry line numbers below `i + 1`, so filtering for
/// line `i + 1` skips them.
proof fn lemma_scan_filter_to_line(
    lines: Seq<Seq<char>>,
    k: int,
    i: int,
    p: spec_fn(FindingModel) -> bool,
)
    requires
        0 <= k <= i < lines.len(),
        forall|f: FindingModel| #[trigger] p(f) ==> f.line == i + 1,
    ensures
        scan_lines_from(lines, k, state_at(lines, k)).filter(p) == scan_lines_from(
            lines,
            i,
            state_at(lines, i),
        ).filter(p),
    decreases i - k,
{
    reveal(Seq::filter);
    if k < i {
        let st = state_at(lines, k);
        let step = classify_line(lines[k], st);
        let head = if step.0.scanned {
            detector_findings(k + 1, step.0.text, step.0.in_unchecked)
        } else {
            seq![]
        };
        let rest = scan_lines_from(lines, k + 1, step.1);
        Seq::filter_distributes_over_add(head, rest, p);
        if step.0.scanned {
            lemma_detector_filter_none(k + 1, step.0.text, step.0.in_unchecked, p, i + 1);
        } else {
            assert(Seq::<FindingModel>::empty().filter(p) =~= Seq::<FindingModel>::empty());
        }
        assert(step.1 == state_at(lines, k + 1));
        lemma_scan_filter_to_line(lines, k + 1, i, p);
        assert(scan_lines_from(lines, k, st).filter(p) =~= rest.filter(p));
    }
}

/// Outside block comments and for a scanned line, a line whose
/// (comment-stripped) text mentions `block.timestamp` yields exactly one
/// timestamp-dependence finding for that line, however many times the
/// text mentions it.
pub proof fn lemma_timestamp_once(text: Seq<char>, i: int)
    requires
        0 <= i < spec_lines(text).len(),
        classified_at(spec_lines(text), i).scanned,
        contains_sub(classified_at(spec_lines(text), i).text, "block.timestamp"@),
    ensures
        spec_scan(text).filter(
            |f: FindingModel|
                f.category == VulnerabilityType::TimestampDependence && f.line == i + 1,
        ).len() == 1,
{
    reveal(Seq::filter);
    let lines = spec_lines(text);
    let p = |f: FindingModel|
        f.category == VulnerabilityType::TimestampDependence && f.line == i + 1;
    assert(state_at(lines, 0) == initial_state());
    lemma_scan_filter_to_line(lines, 0, i, p);
    let st = state_at(lines, i);
    let step = classify_line(lines[i], st);
    let l = step.0.text;
    let ub = step.0.in_unchecked;
    let head = detector_findings(i + 1, l, ub);
    let rest = scan_lines_from(lines, i + 1, step.1);
    Seq::filter_distributes_over_add(head, rest, p);
    lemma_detector_filter_parts(i + 1, l, ub, p);
    lemma_filter_singleton(finding_for(VulnerabilityType::Overflow, i + 1, l), p);
    lemma_filter_singleton(finding_for(VulnerabilityType::Reentrancy, i + 1, l), p);
    lemma_filter_singleton(finding_for(VulnerabilityType::AccessControl, i + 1, l), p);
    lemma_filter_singleton(finding_for(VulnerabilityType::UncheckedExternalCall, i + 1, l), p);
    lemma_filter_singleton(finding_for(VulnerabilityType::TimestampDependence, i + 1, l), p);
    lemma_filter_singleton(finding_for(VulnerabilityType::GasLimit, i + 1, l), p);
    lemma_filter_singleton(finding_for(VulnerabilityType::UncheckedReturn, i + 1, l), p);
    lemma_filter_singleton(finding_for(VulnerabilityType::FrontRunning, i + 1, l), p);
    lemma_filter_singleton(finding_for(VulnerabilityType::FlashLoan, i + 1, l), p);
    lemma_filter_singleton(finding_for(VulnerabilityType::OracleManipulation, i + 1, l), p);
    assert(Seq::<FindingModel>::empty().filter(p) =~= Seq::<FindingModel>::empty());
    assert(spec_check_timestamp(i + 1, l).filter(p) =~= seq![
        finding_for(VulnerabilityType::TimestampDependence, i + 1, l),
    ]);
    lemma_scan_filter_none_beyond(lines, i + 1, step.1, p, i + 1);
    assert(head.filter(p).len() == 1);
    assert(spec_scan(text).filter(p).len() == 1);
}

/// Inside an unchecked block no overflow finding is produced for the
/// line, whatever arithmetic it contains.
pub proof fn lemma_unchecked_suppresses_overflow(text: Seq<char>, i: int)
    requires
        0 <= i < spec_lines(text).len(),
        classified_at(spec_lines(text), i).in_unchecked,
    ensures
        spec_scan(text).filter(
            |f: FindingModel| f.category == VulnerabilityType::Overflow && f.line == i + 1,
        ).len() == 0,
{
    reveal(Seq::filter);
    let lines = spec_lines(text);
    let p = |f: FindingModel| f.category == VulnerabilityType::Overflow && f.line == i + 1;
    assert(state_at(lines, 0) == initial_state());
    lemma_scan_filter_to_line(lines, 0, i, p);
    let st = state_at(lines, i);
    let step = classify_line(lines[i], st);
    lemma_scan_filter_none_beyond(lines, i + 1, step.1, p, i + 1);
    if step.0.scanned {
        let l = step.0.text;
        let ub = step.0.in_unchecked;
        let head = detector_findings(i + 1, l, ub);
        let rest = scan_lines_from(lines, i + 1, step.1);
        Seq::filter_distributes_over_add(head, rest, p);
        lemma_detector_filter_parts(i + 1, l, ub, p);
        lemma_filter_singleton(finding_for(VulnerabilityType::Reentrancy, i + 1, l), p);
        lemma_filter_singleton(finding_for(VulnerabilityType::AccessControl, i + 1, l), p);
        lemma_filter_singleton(finding_for(VulnerabilityType::UncheckedExternalCall, i + 1, l), p);
        lemma_filter_singleton(finding_for(VulnerabilityType::TimestampDependence, i + 1, l), p);
        lemma_filter_singleton(finding_for(VulnerabilityType::GasLimit, i + 1, l), p);
        lemma_filter_singleton(finding_for(VulnerabilityType::UncheckedReturn, i + 1, l), p);
        lemma_filter_singleton(finding_for(VulnerabilityType::FrontRunning, i + 1, l), p);
        lemma_filter_singleton(finding_for(VulnerabilityType::FlashLoan, i + 1, l), p);
        lemma_filter_singleton(finding_for(VulnerabilityType::OracleManipulation, i + 1, l), p);
        assert(Seq::<FindingModel>::empty().filter(p) =~= Seq::<FindingModel>::empty());
        assert(spec_check_overflow(i + 1, l, ub) =~= Seq::<FindingModel>::empty());
        assert(head.filter(p).len() == 0);
    } else {
        let rest = scan_lines_from(lines, i + 1, step.1);
        Seq::filter_distributes_over_add(seq![], rest, p);
        assert(Seq::<FindingModel>::empty().filter(p) =~= Seq::<FindingModel>::empty());
    }
    assert(spec_scan(text).filter(p).len() == 0);
}

} // verus!
