use solscan::models::Severity;
use solscan::models::VulnerabilityFinding;
use solscan::models::VulnerabilityType;
use solscan::scanner::scan_for_vulnerabilities;

fn same_findings(a: &[VulnerabilityFinding], b: &[VulnerabilityFinding]) -> bool {
    a.len() == b.len()
        && a.iter().zip(b.iter()).all(|(x, y)| {
            x.line == y.line
                && x.snippet == y.snippet
                && x.warning == y.warning
                && x.severity == y.severity
                && x.category == y.category
                && x.explanation == y.explanation
                && x.fix_suggestion == y.fix_suggestion
                && x.real_world_example == y.real_world_example
        })
}

#[test]
fn scanning_is_idempotent() {
    let source = "contract C {\n  function f() {\n    balance = balance + 1;\n    msg.sender.call.value(x)();\n  }\n}\n";
    let first = scan_for_vulnerabilities(source);
    let second = scan_for_vulnerabilities(source);
    assert!(same_findings(&first, &second));
    assert!(!first.is_empty());
}

#[test]
fn overflow_on_line_five() {
    let source = "\n\n\n\nbalances[msg.sender] -= amount;\n";
    let findings = scan_for_vulnerabilities(source);
    let overflow: Vec<_> = findings
        .iter()
        .filter(|f| f.category == VulnerabilityType::Overflow)
        .collect();
    assert_eq!(overflow.len(), 1);
    assert_eq!(overflow[0].line, 5);
    assert!(overflow[0].severity == Severity::Critical);
    assert_eq!(overflow[0].snippet, "balances[msg.sender] -= amount;");
}

#[test]
fn external_call_value_pattern() {
    // `call` alone marks reentrancy; without the exact `call(` substring
    // the unchecked-external-call detector stays quiet.
    let source = "msg.sender.call.value(amount)();\n";
    let findings = scan_for_vulnerabilities(source);
    let reentrancy: Vec<_> = findings
        .iter()
        .filter(|f| f.category == VulnerabilityType::Reentrancy)
        .collect();
    let unchecked: Vec<_> = findings
        .iter()
        .filter(|f| f.category == VulnerabilityType::UncheckedExternalCall)
        .collect();
    assert_eq!(reentrancy.len(), 1);
    assert_eq!(reentrancy[0].line, 1);
    assert!(reentrancy[0].severity == Severity::Critical);
    assert_eq!(unchecked.len(), 0);

    let source2 = "msg.sender.call(amount);\n";
    let findings2 = scan_for_vulnerabilities(source2);
    assert_eq!(
        findings2
            .iter()
            .filter(|f| f.category == VulnerabilityType::UncheckedExternalCall)
            .count(),
        1
    );
    assert_eq!(
        findings2
            .iter()
            .filter(|f| f.category == VulnerabilityType::Reentrancy)
            .count(),
        1
    );
}

#[test]
fn empty_source_has_no_findings() {
    assert!(scan_for_vulnerabilities("").is_empty());
    assert!(scan_for_vulnerabilities("\n\n\n").is_empty());
}

#[test]
fn pure_line_comment_is_ignored() {
    let findings = scan_for_vulnerabilities("// balance = balance + 1;\n");
    assert!(findings.is_empty());
}

#[test]
fn block_comments_are_skipped() {
    let source = "/*\nbalance = balance + 1;\nmsg.sender.call(x);\n*/\nbalance = balance + 1;\n";
    let findings = scan_for_vulnerabilities(source);
    assert_eq!(findings.len(), 1);
    assert_eq!(findings[0].line, 5);
    assert!(findings[0].category == VulnerabilityType::Overflow);
}

#[test]
fn unterminated_block_comment_skips_to_end() {
    let source = "/*\nbalance = balance + 1;\nbalance = balance + 2;\n";
    let findings = scan_for_vulnerabilities(source);
    assert!(findings.is_empty());
}

#[test]
fn one_line_block_comment_exits() {
    let source = "/* note */\nbalance = balance + 1;\n";
    let findings = scan_for_vulnerabilities(source);
    assert_eq!(findings.len(), 1);
    assert_eq!(findings[0].line, 2);
}

#[test]
fn unchecked_block_suppresses_overflow_only() {
    // inside the unchecked block the overflow detector is quiet, but the
    // other detectors still see the lines
    let source = "unchecked {\n    total = total + fee;\n    msg.sender.call(x);\n}\nresult = a * b;\n";
    let findings = scan_for_vulnerabilities(source);
    assert_eq!(
        findings
            .iter()
            .filter(|f| f.category == VulnerabilityType::Overflow && f.line == 2)
            .count(),
        0
    );
    assert_eq!(
        findings
            .iter()
            .filter(|f| f.category == VulnerabilityType::Reentrancy && f.line == 3)
            .count(),
        1
    );
    // the closing brace ends the block: later arithmetic is flagged again
    assert_eq!(
        findings
            .iter()
            .filter(|f| f.category == VulnerabilityType::Overflow && f.line == 5)
            .count(),
        1
    );
}

#[test]
fn inline_comment_is_stripped_from_snippet() {
    let source = "balance = balance + 1; // adds one\n";
    let findings = scan_for_vulnerabilities(source);
    assert_eq!(findings.len(), 1);
    assert_eq!(findings[0].snippet, "balance = balance + 1; ");
}

#[test]
fn timestamp_found_once_per_line() {
    let source = "uint a = block.timestamp + block.timestamp;\n";
    let findings = scan_for_vulnerabilities(source);
    assert_eq!(
        findings
            .iter()
            .filter(|f| f.category == VulnerabilityType::TimestampDependence)
            .count(),
        1
    );
}

#[test]
fn safemath_suppresses_overflow() {
    let findings = scan_for_vulnerabilities("total = SafeMath.add(a, b) + c;\n");
    assert_eq!(
        findings
            .iter()
            .filter(|f| f.category == VulnerabilityType::Overflow)
            .count(),
        0
    );
}

#[test]
fn detector_battery_order_on_one_line() {
    // one line that trips several detectors reports them in battery order
    let source = "function trade() { for (i = 0; i < n; i++) transfer(price + fee); }\n";
    let findings = scan_for_vulnerabilities(source);
    let cats: Vec<VulnerabilityType> = findings.iter().map(|f| f.category).collect();
    let mut sorted = cats.clone();
    sorted.sort_by_key(|c| match c {
        VulnerabilityType::Overflow => 0,
        VulnerabilityType::Reentrancy => 1,
        VulnerabilityType::AccessControl => 2,
        VulnerabilityType::UncheckedExternalCall => 3,
        VulnerabilityType::TimestampDependence => 4,
        VulnerabilityType::GasLimit => 5,
        VulnerabilityType::UncheckedReturn => 6,
        VulnerabilityType::FrontRunning => 7,
        VulnerabilityType::FlashLoan => 8,
        VulnerabilityType::OracleManipulation => 9,
    });
    assert_eq!(cats, sorted);
    assert!(cats.contains(&VulnerabilityType::Overflow));
    assert!(cats.contains(&VulnerabilityType::GasLimit));
    assert!(cats.contains(&VulnerabilityType::UncheckedReturn));
}

#[test]
fn access_control_and_front_running() {
    let findings = scan_for_vulnerabilities("function setOwner(address o) {\n");
    assert_eq!(
        findings
            .iter()
            .filter(|f| f.category == VulnerabilityType::AccessControl)
            .count(),
        1
    );
    let none = scan_for_vulnerabilities("function setOwner(address o) internal {\n");
    assert_eq!(
        none.iter()
            .filter(|f| f.category == VulnerabilityType::AccessControl)
            .count(),
        0
    );
    let fr = scan_for_vulnerabilities("function swap() public {\n");
    assert_eq!(
        fr.iter()
            .filter(|f| f.category == VulnerabilityType::FrontRunning)
            .count(),
        1
    );
}

#[test]
fn flash_loan_and_oracle() {
    let findings = scan_for_vulnerabilities("uint fee = flashLoanFee;\nuint p = getPrice();\n");
    assert_eq!(
        findings
            .iter()
            .filter(|f| f.category == VulnerabilityType::FlashLoan && f.line == 1)
            .count(),
        1
    );
    // `price` only matches case-sensitively: `getPrice` does not contain it
    assert_eq!(
        findings
            .iter()
            .filter(|f| f.category == VulnerabilityType::OracleManipulation)
            .count(),
        0
    );
    let oracle = scan_for_vulnerabilities("uint p = price;\nuint q = multiple_price_sources;\n");
    assert_eq!(
        oracle
            .iter()
            .filter(|f| f.category == VulnerabilityType::OracleManipulation && f.line == 1)
            .count(),
        1
    );
    assert_eq!(
        oracle
            .iter()
            .filter(|f| f.category == VulnerabilityType::OracleManipulation && f.line == 2)
            .count(),
        0
    );
}

#[test]
fn crlf_lines_are_trimmed() {
    let source = "balance = balance + 1;\r\nmsg.sender.call(x);\r\n";
    let findings = scan_for_vulnerabilities(source);
    assert_eq!(findings[0].snippet, "balance = balance + 1;");
    assert!(findings.iter().any(|f| f.line == 2));
}

#[test]
fn finding_carries_fixed_taxonomy_texts() {
    let findings = scan_for_vulnerabilities("a = b + c;\n");
    assert_eq!(findings.len(), 1);
    let f = &findings[0];
    assert_eq!(f.warning, "Potential arithmetic overflow/underflow");
    assert_eq!(
        f.explanation,
        "Arithmetic operations without overflow checks can lead to unexpected behavior and potential exploits."
    );
    assert_eq!(
        f.fix_suggestion,
        "Use SafeMath library or Solidity 0.8+ built-in overflow protection."
    );
    assert_eq!(
        f.real_world_example.as_deref(),
        Some("The DAO hack (2016) - $60M lost due to integer overflow")
    );
}
