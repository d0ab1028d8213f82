//! A standalone scanner for overflow-prone arithmetic.
//!
//! Unlike the full detector battery, this pass skips `unchecked { ... }`
//! blocks entirely (opening and closing lines included) and reports a
//! bare finding for every remaining line that performs arithmetic without
//! `SafeMath`.  A placeholder for bytecode execution reports only the
//! length of the bytecode it was handed.

use vstd::prelude::*;

use vstd::string::StringSliceAdditionalSpecFns;

use crate::text::contains_sub;
use crate::text::dec_rep;
use crate::text::dec_string;
use crate::text::match_at;
use crate::text::spec_lines;
use crate::text::spec_strip_comment;
use crate::text::spec_trim;
use crate::text::split_lines;
use crate::text::str_contains;
use crate::text::str_starts_with;
use crate::text::strip_line_comment;
use crate::text::trim_slice;

verus! {

/// One line flagged as overflow-prone arithmetic.
pub struct OverflowFinding {
    pub line: usize,
    pub snippet: String,
    pub warning: String,
}

/// The mathematical value of an overflow finding.
pub ghost struct OverflowFindingModel {
    pub line: int,
    pub snippet: Seq<char>,
    pub warning: Seq<char>,
}

impl vstd::view::View for OverflowFinding {
    type V = OverflowFindingModel;

    open spec fn view(&self) -> OverflowFindingModel {
        OverflowFindingModel { line: self.line as int, snippet: self.snippet@, warning: self.warning@ }
    }
}

/// The views of a sequence of overflow findings.
pub open spec fn overflow_views_of(s: Seq<OverflowFinding>) -> Seq<OverflowFindingModel> {
    s.map_values(|f: OverflowFinding| f@)
}

/// The lexical state of this pass: block comments and whole `unchecked`
/// blocks are skipped.
pub ghost struct OverflowLexState {
    pub in_block_comment: bool,
    pub in_unchecked: bool,
}

pub open spec fn overflow_initial_state() -> OverflowLexState {
    OverflowLexState { in_block_comment: false, in_unchecked: false }
}

/// The finding this pass reports for line number `line` with text `l`.
pub open spec fn overflow_line_finding(line: int, l: Seq<char>) -> Seq<OverflowFindingModel> {
    if (contains_sub(l, "+"@) || contains_sub(l, "-"@) || contains_sub(l, "*"@)) && !contains_sub(
        l,
        "SafeMath"@,
    ) {
        seq![
            OverflowFindingModel {
                line: line,
                snippet: l,
                warning: "Potential overflow-prone arithmetic operation"@,
            },
        ]
    } else {
        seq![]
    }
}

/// One classifier step of this pass: what the raw line contributes, and
/// the state for the next line.
pub open spec fn overflow_classify(raw: Seq<char>, st: OverflowLexState) -> (
    (bool, Seq<char>),
    OverflowLexState,
) {
    let l = spec_trim(raw);
    if st.in_block_comment || contains_sub(l, "/*"@) {
        (
            (false, l),
            OverflowLexState {
                in_block_comment: !contains_sub(l, "*/"@),
                in_unchecked: st.in_unchecked,
            },
        )
    } else if match_at(l, "//"@, 0) || l.len() == 0 {
        ((false, l), st)
    } else if st.in_unchecked || contains_sub(l, "unchecked {"@) {
        (
            (false, l),
            OverflowLexState { in_block_comment: false, in_unchecked: !contains_sub(l, "}"@) },
        )
    } else {
        (
            (true, spec_strip_comment(l)),
            OverflowLexState { in_block_comment: false, in_unchecked: false },
        )
    }
}

/// The findings of this pass over `lines[i..]`, starting in state `st`.
pub open spec fn overflow_scan_from(lines: Seq<Seq<char>>, i: int, st: OverflowLexState) -> Seq<
    OverflowFindingModel,
>
    decreases lines.len() - i,
{
    if i < 0 || i >= lines.len() {
        seq![]
    } else {
        let step = overflow_classify(lines[i], st);
        (if step.0.0 {
            overflow_line_finding(i + 1, step.0.1)
        } else {
            seq![]
        }) + overflow_scan_from(lines, i + 1, step.1)
    }
}

/// Everything this pass reports for `text`, in order.
pub open spec fn spec_overflow_scan(text: Seq<char>) -> Seq<OverflowFindingModel> {
    overflow_scan_from(spec_lines(text), 0, overflow_initial_state())
}

/// Scans a source text for overflow-prone arithmetic outside comments and
/// outside `unchecked` blocks.
#[verifier::rlimit(50)]
pub fn scan_for_overflow_patterns(source: &str) -> (findings: Vec<OverflowFinding>)
    ensures
        overflow_views_of(findings@) == spec_overflow_scan(source@),
{
    let mut findings: Vec<OverflowFinding> = Vec::new();
    let lines = split_lines(source);
    let ghost lv = lines.deep_view();
    let n = lines.len();
    let mut in_block_comment = false;
    let mut in_unchecked_block = false;
    proof {
        assert(overflow_views_of(findings@) =~= Seq::<OverflowFindingModel>::empty());
        assert(overflow_views_of(findings@) + overflow_scan_from(lv, 0, overflow_initial_state())
            =~= spec_overflow_scan(source@));
    }
    let mut i: usize = 0;
    while i < n
        invariant
            n == lines.len(),
            lv == lines.deep_view(),
            lv.len() == n,
            0 <= i <= n,
            overflow_views_of(findings@) + overflow_scan_from(
                lv,
                i as int,
                OverflowLexState { in_block_comment, in_unchecked: in_unchecked_block },
            ) == spec_overflow_scan(source@),
        decreases n - i,
    {
        let ghost st = OverflowLexState { in_block_comment, in_unchecked: in_unchecked_block };
        let ghost pre = overflow_views_of(findings@);
        let raw = &lines[i];
        let l = trim_slice(raw.as_str());
        proof {
            assert(lv[i as int] == raw@);
            assert(l@ == spec_trim(lv[i as int]));
        }
        if in_block_comment || str_contains(l, "/*") {
            in_block_comment = !str_contains(l, "*/");
            proof {
                let step = overflow_classify(lv[i as int], st);
                assert(step.1 == OverflowLexState {
                    in_block_comment,
                    in_unchecked: in_unchecked_block,
                });
                assert(pre + overflow_scan_from(lv, i + 1, step.1) =~= spec_overflow_scan(
                    source@,
                ));
            }
        } else if str_starts_with(l, "//") || l.unicode_len() == 0 {
            proof {
                let step = overflow_classify(lv[i as int], st);
                assert(step.1 == st);
                assert(pre + overflow_scan_from(lv, i + 1, step.1) =~= spec_overflow_scan(
                    source@,
                ));
            }
        } else if in_unchecked_block || str_contains(l, "unchecked {") {
            in_unchecked_block = !str_contains(l, "}");
            proof {
                let step = overflow_classify(lv[i as int], st);
                assert(step.1 == OverflowLexState {
                    in_block_comment: false,
                    in_unchecked: in_unchecked_block,
                });
                assert(pre + overflow_scan_from(lv, i + 1, step.1) =~= spec_overflow_scan(
                    source@,
                ));
            }
        } else {
            let content = strip_line_comment(l);
            let ghost step = overflow_classify(lv[i as int], st);
            proof {
                assert(step.0.0);
                assert(step.0.1 == content@);
            }
            let hit = (str_contains(content, "+") || str_contains(content, "-") || str_contains(
                content,
                "*",
            )) && !str_contains(content, "SafeMath");
            if hit {
                let f = OverflowFinding {
                    line: i + 1,
                    snippet: content.to_owned(),
                    warning: String::from_str("Potential overflow-prone arithmetic operation"),
                };
                proof {
                    assert(overflow_views_of(findings@.push(f)) =~= pre.push(f@));
                }
                findings.push(f);
            }
            proof {
                assert(overflow_views_of(findings@) =~= pre + overflow_line_finding(
                    i + 1,
                    content@,
                ));
                assert(overflow_views_of(findings@) + overflow_scan_from(lv, i + 1, step.1)
                    =~= spec_overflow_scan(source@));
            }
        }
        i = i + 1;
    }
    findings
}

/// The placeholder for bytecode execution: reports the byte length of the
/// bytecode (half the length of its hex encoding) and nothing else.
pub fn simulate_overflow_execution(bytecode_hex: &str) -> (r: String)
    ensures
        r@ == "EVM simulation not available in this build. Bytecode length: "@ + dec_rep(
            ((bytecode_hex.spec_bytes().len() as usize) / 2) as nat,
        ) + " bytes"@,
{
    let half = bytecode_hex.len() / 2;
    let digits = dec_string(half as u64);
    let mut r = String::from_str("EVM simulation not available in this build. Bytecode length: ");
    r.append(digits.as_str());
    r.append(" bytes");
    r
}

} // verus!
