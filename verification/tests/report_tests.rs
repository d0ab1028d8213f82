use solscan::report::generate_csv_report;
use solscan::report::generate_json_report;
use solscan::report::generate_json_report_at;
use solscan::report::generate_report;
use solscan::scanner::scan_for_vulnerabilities;

#[test]
fn text_report_of_no_findings() {
    let report = generate_report(&[]);
    let expected = "\u{1F512} Solidity Security Scanner Report\n\
                    ================================\n\n\
                    Total Findings: 0\n\
                    Critical Severity: 0\n\
                    High Severity: 0\n\
                    Medium Severity: 0\n\
                    Low Severity: 0\n\n";
    assert_eq!(report, expected);
}

#[test]
fn text_report_of_one_finding() {
    let findings = scan_for_vulnerabilities("a = b + c;\n");
    let report = generate_report(&findings);
    let expected = "\u{1F512} Solidity Security Scanner Report\n\
                    ================================\n\n\
                    Total Findings: 1\n\
                    Critical Severity: 1\n\
                    High Severity: 0\n\
                    Medium Severity: 0\n\
                    Low Severity: 0\n\n\
                    [CRITICAL] Line 1: Potential arithmetic overflow/underflow\n\
                    Code: a = b + c;\n\
                    Explanation: Arithmetic operations without overflow checks can lead to unexpected behavior and potential exploits.\n\
                    Fix: Use SafeMath library or Solidity 0.8+ built-in overflow protection.\n\
                    Real-world example: The DAO hack (2016) - $60M lost due to integer overflow\n\n";
    assert_eq!(report, expected);
}

#[test]
fn every_finding_appears_in_every_report() {
    let source = "function f() {\n  balance = balance + 1;\n  msg.sender.call(x);\n}\n";
    let findings = scan_for_vulnerabilities(source);
    assert!(findings.len() >= 3);
    let text = generate_report(&findings);
    let json = generate_json_report_at(&findings, "2024-01-02T03:04:05Z");
    let csv = generate_csv_report(&findings);
    for f in &findings {
        assert!(text.contains(&f.warning));
        assert!(text.contains(&format!("Line {}", f.line)));
        assert!(json.contains(&f.warning));
        assert!(json.contains(&format!("\"line\": {}", f.line)));
        assert!(csv.contains(&f.warning));
    }
}

#[test]
fn severity_counts_agree_between_text_and_json() {
    let source = "function f() {\n  balance = balance + 1;\n  uint t = block.timestamp;\n}\n";
    let findings = scan_for_vulnerabilities(source);
    let text = generate_report(&findings);
    let json = generate_json_report_at(&findings, "ts");
    for (label, key) in [
        ("Critical Severity: ", "\"critical\": "),
        ("High Severity: ", "\"high\": "),
        ("Medium Severity: ", "\"medium\": "),
        ("Low Severity: ", "\"low\": "),
    ] {
        let from_text: usize = text
            .lines()
            .find(|l| l.starts_with(label))
            .unwrap()
            .trim_start_matches(label)
            .trim()
            .parse()
            .unwrap();
        let from_json: usize = json
            .lines()
            .find(|l| l.trim_start().starts_with(key))
            .unwrap()
            .trim_start()
            .trim_start_matches(key)
            .trim_end_matches(',')
            .parse()
            .unwrap();
        assert_eq!(from_text, from_json);
    }
}

#[test]
fn json_report_of_one_finding() {
    let findings = scan_for_vulnerabilities("a = b + c;\n");
    let json = generate_json_report_at(&findings, "2024-01-01T00:00:00+00:00");
    let expected = "{\n  \"timestamp\": \"2024-01-01T00:00:00+00:00\",\n  \"total_findings\": 1,\n  \"findings\": [\n    {\n      \"severity\": \"Critical\",\n      \"category\": \"Overflow\",\n      \"line\": 1,\n      \"warning\": \"Potential arithmetic overflow/underflow\",\n      \"snippet\": \"a = b + c;\",\n      \"explanation\": \"Arithmetic operations without overflow checks can lead to unexpected behavior and potential exploits.\",\n      \"fix_suggestion\": \"Use SafeMath library or Solidity 0.8+ built-in overflow protection.\",\n      \"real_world_example\": \"The DAO hack (2016) - $60M lost due to integer overflow\"\n    }\n  ],\n  \"summary\": {\n    \"critical\": 1,\n    \"high\": 0,\n    \"medium\": 0,\n    \"low\": 0\n  }\n}";
    assert_eq!(json, expected);
}

#[test]
fn json_report_of_no_findings() {
    let json = generate_json_report_at(&[], "t");
    let expected = "{\n  \"timestamp\": \"t\",\n  \"total_findings\": 0,\n  \"findings\": [],\n  \"summary\": {\n    \"critical\": 0,\n    \"high\": 0,\n    \"medium\": 0,\n    \"low\": 0\n  }\n}";
    assert_eq!(json, expected);
}

#[test]
fn json_escapes_quotes_and_controls() {
    let findings = scan_for_vulnerabilities("emit Log(\"a + b\");\tx = y + 1;\n");
    let json = generate_json_report_at(&findings, "t");
    assert!(json.contains("\\\"a + b\\\""));
    assert!(json.contains("\\t"));
}

#[test]
fn json_report_with_clock_timestamp_keeps_findings() {
    let findings = scan_for_vulnerabilities("a = b + c;\n");
    let json = generate_json_report(&findings);
    assert!(json.contains("\"total_findings\": 1"));
    assert!(json.contains("\"snippet\": \"a = b + c;\""));
}

#[test]
fn csv_report_of_one_finding() {
    let findings = scan_for_vulnerabilities("a = b + c;\n");
    let csv = generate_csv_report(&findings);
    let expected = "Severity,Category,Line,Warning,Code,Explanation,Fix Suggestion,Real World Example\n\
        Critical,Overflow,1,Potential arithmetic overflow/underflow,a = b + c;,Arithmetic operations without overflow checks can lead to unexpected behavior and potential exploits.,Use SafeMath library or Solidity 0.8+ built-in overflow protection.,The DAO hack (2016) - $60M lost due to integer overflow\n";
    assert_eq!(csv, expected);
}

#[test]
fn csv_quotes_fields_with_commas() {
    // the reentrancy fix suggestion holds commas, so its field is quoted
    let findings = scan_for_vulnerabilities("msg.sender.call(x);\n");
    let csv = generate_csv_report(&findings);
    assert!(csv.contains(
        "\"Use reentrancy guards, follow checks-effects-interactions pattern, or use pull payment pattern.\""
    ));
}

#[test]
fn csv_doubles_quotes_in_quoted_fields() {
    let findings = scan_for_vulnerabilities("emit Log(\"sum\") + 1;\n");
    let csv = generate_csv_report(&findings);
    assert!(csv.contains("\"emit Log(\"\"sum\"\") + 1;\""));
}
