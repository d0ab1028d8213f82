use solscan::examples::get_real_world_examples;
use solscan::models::get_vulnerability_name;
use solscan::models::VulnerabilityType;
use solscan::overflow::scan_for_overflow_patterns;
use solscan::overflow::simulate_overflow_execution;
use solscan::paths::get_app_data_dir;
use solscan::paths::get_contracts_dir;
use solscan::paths::get_patterns_dir;
use solscan::paths::get_regex_patterns_dir;
use solscan::paths::get_rust_patterns_dir;
use solscan::pattern_match::Match;
use solscan::pattern_match::MatchGroup;
use solscan::pattern_match::Severity as PatternSeverity;
use solscan::pattern_match::pattern_label;
use solscan::pattern_match::pattern_severity;
use solscan::pattern_match::summarize_matches;
use solscan::sizes::format_file_size;
use solscan::time::format_timestamp;
use solscan::time::format_unix_minute;

#[test]
fn file_sizes_below_one_kilobyte() {
    assert_eq!(format_file_size(0), "0 B");
    assert_eq!(format_file_size(1), "1 B");
    assert_eq!(format_file_size(1023), "1023 B");
}

#[test]
fn file_sizes_scale_with_one_decimal() {
    assert_eq!(format_file_size(1024), "1.0 KB");
    assert_eq!(format_file_size(1536), "1.5 KB");
    assert_eq!(format_file_size(2047), "2.0 KB");
    assert_eq!(format_file_size(10240), "10.0 KB");
    assert_eq!(format_file_size(1048575), "1024.0 KB");
    assert_eq!(format_file_size(1048576), "1.0 MB");
    assert_eq!(format_file_size(5767168), "5.5 MB");
    assert_eq!(format_file_size(1073741823), "1024.0 MB");
    assert_eq!(format_file_size(1073741824), "1.0 GB");
    assert_eq!(format_file_size(5905580032), "5.5 GB");
}

#[test]
fn file_sizes_round_ties_to_even_like_float_formatting() {
    // 1280 B is exactly 1.25 KB; one decimal rounds to even
    assert_eq!(format_file_size(1280), "1.2 KB");
    assert_eq!(format_file_size(3840), "3.8 KB");
    for bytes in [1024u64, 1280, 1536, 2047, 9999, 123456] {
        let float_rendering = format!("{:.1} KB", bytes as f64 / 1024.0);
        assert_eq!(format_file_size(bytes), float_rendering);
    }
}

#[test]
fn largest_file_size_still_renders() {
    assert_eq!(format_file_size(u64::MAX), "17179869184.0 GB");
}

#[test]
fn unix_minute_formatting() {
    assert_eq!(format_unix_minute(0), "1970-01-01 00:00");
    assert_eq!(format_unix_minute(1700000000), "2023-11-14 22:13");
    assert_eq!(format_unix_minute(i64::MAX), "Unknown");
}

#[test]
fn timestamp_of_epoch_and_now() {
    assert_eq!(
        format_timestamp(std::time::UNIX_EPOCH),
        "1970-01-01 00:00"
    );
    let now = format_timestamp(std::time::SystemTime::now());
    assert_eq!(now.len(), "1970-01-01 00:00".len());
}

#[test]
fn data_directories_nest_under_the_app_dir() {
    let app = get_app_data_dir();
    assert_eq!(get_contracts_dir(), app.join("contracts"));
    assert_eq!(get_patterns_dir(), app.join("patterns"));
    assert_eq!(get_rust_patterns_dir(), app.join("patterns").join("rust"));
    assert_eq!(get_regex_patterns_dir(), app.join("patterns").join("regex"));
    assert!(app.ends_with("Olympix Pattern Tool"));
}

#[test]
fn real_world_examples_catalog() {
    let examples = get_real_world_examples();
    assert_eq!(examples.len(), 3);
    assert_eq!(examples[0].name, "The DAO Hack (2016)");
    assert!(examples[0].vulnerability_type == VulnerabilityType::Reentrancy);
    assert_eq!(examples[0].loss_amount, "$60 Million");
    assert_eq!(examples[1].name, "Parity Wallet Hack (2017)");
    assert!(examples[1].vulnerability_type == VulnerabilityType::AccessControl);
    assert_eq!(examples[2].name, "Harvest Finance Flash Loan (2020)");
    assert!(examples[2].vulnerability_type == VulnerabilityType::FlashLoan);
    assert!(examples[2].vulnerable_code.contains("balanceOf(address(this))"));
}

#[test]
fn overflow_pattern_scan_skips_unchecked_blocks() {
    let source = "a = a + 1;\nunchecked {\n    b = b + 1;\n}\nc = c * 2; // scaled\n/* d = d + 1; */\n";
    let findings = scan_for_overflow_patterns(source);
    assert_eq!(findings.len(), 2);
    assert_eq!(findings[0].line, 1);
    assert_eq!(findings[0].snippet, "a = a + 1;");
    assert_eq!(findings[0].warning, "Potential overflow-prone arithmetic operation");
    assert_eq!(findings[1].line, 5);
    assert_eq!(findings[1].snippet, "c = c * 2; ");
}

#[test]
fn overflow_pattern_scan_honours_safemath() {
    let findings = scan_for_overflow_patterns("total = SafeMath.add(a, b) + c;\n");
    assert!(findings.is_empty());
}

#[test]
fn simulate_reports_bytecode_length() {
    assert_eq!(
        simulate_overflow_execution("6080"),
        "EVM simulation not available in this build. Bytecode length: 2 bytes"
    );
    assert_eq!(
        simulate_overflow_execution(""),
        "EVM simulation not available in this build. Bytecode length: 0 bytes"
    );
}

#[test]
fn vulnerability_display_names() {
    assert_eq!(get_vulnerability_name(&VulnerabilityType::Overflow), "Overflow/Underflow");
    assert_eq!(get_vulnerability_name(&VulnerabilityType::Reentrancy), "Reentrancy Attack");
    assert_eq!(get_vulnerability_name(&VulnerabilityType::GasLimit), "Gas Limit Issue");
    assert_eq!(
        get_vulnerability_name(&VulnerabilityType::OracleManipulation),
        "Oracle Manipulation"
    );
}

#[test]
fn pattern_labels_and_severities() {
    assert_eq!(pattern_label(0), "addition_operation");
    assert_eq!(pattern_label(1), "subtraction_operation");
    assert_eq!(pattern_label(2), "multiplication_operation");
    assert_eq!(pattern_label(3), "uint_addition");
    assert_eq!(pattern_label(4), "uint_subtraction");
    assert_eq!(pattern_label(5), "for_loop_increment");
    assert_eq!(pattern_label(6), "while_loop_increment");
    assert_eq!(pattern_label(7), "unknown_pattern");
    assert!(pattern_severity(0) == PatternSeverity::Medium);
    assert!(pattern_severity(3) == PatternSeverity::High);
    assert!(pattern_severity(5) == PatternSeverity::Low);
}

#[test]
fn match_summary_rendering() {
    let groups = vec![MatchGroup {
        pattern_name: pattern_label(0),
        matches: vec![
            Match {
                line_number: 3,
                matched_text: "balance + a".to_string(),
                pattern_name: pattern_label(0),
                severity: pattern_severity(0),
            },
            Match {
                line_number: 7,
                matched_text: "a + b".to_string(),
                pattern_name: pattern_label(0),
                severity: pattern_severity(0),
            },
        ],
    }];
    let summary = summarize_matches(&groups);
    let expected = "Overflow Detection Summary:\n\
                    ==========================\n\n\
                    addition_operation: 2 matches\n  Line 3: balance + a\n  Line 7: a + b\n\n";
    assert_eq!(summary, expected);
}
