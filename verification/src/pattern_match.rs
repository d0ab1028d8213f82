//! The result model for staged pattern detectors: one `Match` per place a
//! pattern fired, grouped by pattern, with a fixed name and severity per
//! pattern index and a plain-text summary over the groups.  Running the
//! patterns themselves is the surrounding application's job; everything
//! that decides or renders is here, verified.

use vstd::prelude::*;

use crate::text::dec_rep;
use crate::text::dec_string;

verus! {

/// How strongly a pattern match suggests a problem.
#[derive(Debug, Clone, Copy, PartialEq, Eq, Structural)]
pub enum Severity {
    High,
    Medium,
    Low,
}

/// One place a pattern fired.
#[derive(Debug, Clone)]
pub struct Match {
    pub line_number: usize,
    pub matched_text: String,
    pub pattern_name: String,
    pub severity: Severity,
}

/// The mathematical value of a match.
pub ghost struct MatchModel {
    pub line_number: int,
    pub matched_text: Seq<char>,
    pub pattern_name: Seq<char>,
    pub severity: Severity,
}

impl vstd::view::View for Match {
    type V = MatchModel;

    open spec fn view(&self) -> MatchModel {
        MatchModel {
            line_number: self.line_number as int,
            matched_text: self.matched_text@,
            pattern_name: self.pattern_name@,
            severity: self.severity,
        }
    }
}

/// The matches of one pattern, under that pattern's name.
pub struct MatchGroup {
    pub pattern_name: String,
    pub matches: Vec<Match>,
}

/// The mathematical value of a match group.
pub ghost struct MatchGroupModel {
    pub pattern_name: Seq<char>,
    pub matches: Seq<MatchModel>,
}

impl vstd::view::View for MatchGroup {
    type V = MatchGroupModel;

    open spec fn view(&self) -> MatchGroupModel {
        MatchGroupModel {
            pattern_name: self.pattern_name@,
            matches: self.matches@.map_values(|m: Match| m@),
        }
    }
}

/// The fixed name of the pattern at `idx` in the overflow pattern set.
pub open spec fn pattern_label_of(idx: int) -> Seq<char> {
    if idx == 0 {
        "addition_operation"@
    } else if idx == 1 {
        "subtraction_operation"@
    } else if idx == 2 {
        "multiplication_operation"@
    } else if idx == 3 {
        "uint_addition"@
    } else if idx == 4 {
        "uint_subtraction"@
    } else if idx == 5 {
        "for_loop_increment"@
    } else if idx == 6 {
        "while_loop_increment"@
    } else {
        "unknown_pattern"@
    }
}

/// The fixed severity of the pattern at `idx`: the three plain arithmetic
/// patterns are medium, the two typed ones high, the loop increments low.
pub open spec fn pattern_severity_of(idx: int) -> Severity {
    if 0 <= idx <= 2 {
        Severity::Medium
    } else if 3 <= idx <= 4 {
        Severity::High
    } else {
        Severity::Low
    }
}

pub fn pattern_label(idx: usize) -> (r: String)
    ensures
        r@ == pattern_label_of(idx as int),
{
    if idx == 0 {
        String::from_str("addition_operation")
    } else if idx == 1 {
        String::from_str("subtraction_operation")
    } else if idx == 2 {
        String::from_str("multiplication_operation")
    } else if idx == 3 {
        String::from_str("uint_addition")
    } else if idx == 4 {
        String::from_str("uint_subtraction")
    } else if idx == 5 {
        String::from_str("for_loop_increment")
    } else if idx == 6 {
        String::from_str("while_loop_increment")
    } else {
        String::from_str("unknown_pattern")
    }
}

pub fn pattern_severity(idx: usize) -> (s: Severity)
    ensures
        s == pattern_severity_of(idx as int),
{
    if idx <= 2 {
        Severity::Medium
    } else if idx <= 4 {
        Severity::High
    } else {
        Severity::Low
    }
}

// ---------------------------------------------------------------------------
// Summary rendering
// ---------------------------------------------------------------------------

/// The summary line printed for one match.
pub open spec fn match_line(m: MatchModel) -> Seq<char> {
    "  Line "@ + dec_rep(m.line_number as nat) + ": "@ + m.matched_text + "\n"@
}

/// The summary lines of a group's matches, in order.
pub open spec fn match_lines(ms: Seq<MatchModel>) -> Seq<char>
    decreases ms.len(),
{
    if ms.len() == 0 {
        Seq::<char>::empty()
    } else {
        match_lines(ms.drop_last()) + match_line(ms.last())
    }
}

/// The summary block of one group: its name and match count, then one
/// line per match.
pub open spec fn group_block(g: MatchGroupModel) -> Seq<char> {
    g.pattern_name + ": "@ + dec_rep(g.matches.len()) + " matches\n"@ + match_lines(g.matches)
        + "\n"@
}

/// The summary blocks of all groups, in order.
pub open spec fn group_blocks(gs: Seq<MatchGroupModel>) -> Seq<char>
    decreases gs.len(),
{
    if gs.len() == 0 {
        Seq::<char>::empty()
    } else {
        group_blocks(gs.drop_last()) + group_block(gs.last())
    }
}

/// The whole summary.
pub open spec fn spec_summary(gs: Seq<MatchGroupModel>) -> Seq<char> {
    "Overflow Detection Summary:\n"@ + "==========================\n\n"@ + group_blocks(gs)
}

/// Appends the summary line of one match.
fn append_match_line(r: &mut String, m: &Match)
    ensures
        final(r)@ == old(r)@ + match_line(m@),
{
    r.append("  Line ");
    let line = dec_string(m.line_number as u64);
    r.append(line.as_str());
    r.append(": ");
    r.append(m.matched_text.as_str());
    r.append("\n");
    proof {
        assert(r@ =~= old(r)@ + match_line(m@));
    }
}

/// Appends the summary block of one group.
#[verifier::rlimit(50)]
fn append_group_block(r: &mut String, g: &MatchGroup)
    ensures
        final(r)@ == old(r)@ + group_block(g@),
{
    r.append(g.pattern_name.as_str());
    r.append(": ");
    let count = dec_string(g.matches.len() as u64);
    r.append(count.as_str());
    r.append(" matches\n");
    let ghost base = r@;
    let ghost ms = g@.matches;
    proof {
        assert(match_lines(ms.take(0)) =~= Seq::<char>::empty());
        assert(r@ =~= base + match_lines(ms.take(0)));
    }
    let len = g.matches.len();
    let mut i: usize = 0;
    while i < len
        invariant
            len == g.matches@.len(),
            ms == g@.matches,
            ms.len() == len,
            0 <= i <= len,
            r@ == base + match_lines(ms.take(i as int)),
        decreases len - i,
    {
        append_match_line(r, &g.matches[i]);
        proof {
            assert(ms.take(i + 1).drop_last() =~= ms.take(i as int));
            assert(ms.take(i + 1).last() == ms[i as int]);
            assert(r@ =~= base + match_lines(ms.take(i + 1)));
        }
        i = i + 1;
    }
    r.append("\n");
    proof {
        assert(ms.take(len as int) =~= ms);
        assert(r@ =~= old(r)@ + group_block(g@));
    }
}

/// Renders the summary of grouped pattern matches, verified against
/// `spec_summary`.
pub fn summarize_matches(groups: &Vec<MatchGroup>) -> (r: String)
    ensures
        r@ == spec_summary(groups@.map_values(|g: MatchGroup| g@)),
{
    let ghost gv = groups@.map_values(|g: MatchGroup| g@);
    let mut r = String::from_str("Overflow Detection Summary:\n");
    r.append("==========================\n\n");
    proof {
        assert(group_blocks(gv.take(0)) =~= Seq::<char>::empty());
        assert(r@ =~= "Overflow Detection Summary:\n"@ + "==========================\n\n"@
            + group_blocks(gv.take(0)));
    }
    let len = groups.len();
    let mut i: usize = 0;
    while i < len
        invariant
            len == groups@.len(),
            gv == groups@.map_values(|g: MatchGroup| g@),
            gv.len() == len,
            0 <= i <= len,
            r@ == "Overflow Detection Summary:\n"@ + "==========================\n\n"@
                + group_blocks(gv.take(i as int)),
        decreases len - i,
    {
        append_group_block(&mut r, &groups[i]);
        proof {
            assert(gv.take(i + 1).drop_last() =~= gv.take(i as int));
            assert(gv.take(i + 1).last() == gv[i as int]);
            assert(r@ =~= "Overflow Detection Summary:\n"@ + "==========================\n\n"@
                + group_blocks(gv.take(i + 1)));
        }
        i = i + 1;
    }
    proof {
        assert(gv.take(len as int) =~= gv);
    }
    r
}

} // verus!
