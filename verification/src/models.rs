//! The data model: findings, their severity and category taxonomy, and the
//! record types the surrounding application keeps for contracts, patterns
//! and navigation state.
//!
//! Each vulnerability category carries one fixed tuple of warning,
//! explanation, fix suggestion, severity and optional historical example;
//! the spec functions here are that lookup table, and the executable
//! functions are verified to return exactly it.

use vstd::prelude::*;

use std::path::PathBuf;
use std::time::SystemTime;

verus! {

// ---------------------------------------------------------------------------
// Navigation and catalog types kept for the surrounding application
// ---------------------------------------------------------------------------

#[derive(Clone, PartialEq, Eq, Structural)]
pub enum Tab {
    Contracts,
    Patterns,
    Scan,
    Examples,
}

#[derive(Clone, PartialEq, Eq, Structural)]
pub enum AppView {
    Home,
    ContractDetail,
    AnalysisResult,
    Educational,
}

#[derive(Clone, PartialEq, Eq, Structural)]
pub enum FileType {
    Contract,
    RustPattern,
    RegexPattern,
}

#[derive(Clone)]
pub enum Action {
    SelectContract(usize, PathBuf),
    ScanContract(usize),
    ImportFile(PathBuf, FileType),
    ImportFolder(PathBuf, FileType),
}

#[derive(Clone)]
pub struct ContractInfo {
    pub name: String,
    pub path: PathBuf,
    pub size: u64,
    pub last_modified: SystemTime,
}

#[derive(Clone)]
pub struct PatternInfo {
    pub name: String,
    pub path: PathBuf,
    pub pattern_type: FileType,
    pub description: String,
    pub size: u64,
    pub last_modified: SystemTime,
}

// ---------------------------------------------------------------------------
// Findings and the taxonomy
// ---------------------------------------------------------------------------

#[derive(Clone, Copy, PartialEq, Eq, Structural, Debug)]
pub enum Severity {
    Critical,
    High,
    Medium,
    Low,
    Info,
}

#[derive(Clone, Copy, PartialEq, Eq, Structural, Debug)]
pub enum VulnerabilityType {
    Overflow,
    Reentrancy,
    AccessControl,
    UncheckedExternalCall,
    TimestampDependence,
    GasLimit,
    UncheckedReturn,
    FrontRunning,
    FlashLoan,
    OracleManipulation,
}

/// One flagged source line.
#[derive(Clone)]
pub struct VulnerabilityFinding {
    pub line: usize,
    pub snippet: String,
    pub warning: String,
    pub severity: Severity,
    pub category: VulnerabilityType,
    pub explanation: String,
    pub fix_suggestion: String,
    pub real_world_example: Option<String>,
}

/// The mathematical value of a finding: every text field as a character
/// sequence.
pub ghost struct FindingModel {
    pub line: int,
    pub snippet: Seq<char>,
    pub warning: Seq<char>,
    pub severity: Severity,
    pub category: VulnerabilityType,
    pub explanation: Seq<char>,
    pub fix_suggestion: Seq<char>,
    pub real_world_example: Option<Seq<char>>,
}

impl vstd::view::View for VulnerabilityFinding {
    type V = FindingModel;

    open spec fn view(&self) -> FindingModel {
        FindingModel {
            line: self.line as int,
            snippet: self.snippet@,
            warning: self.warning@,
            severity: self.severity,
            category: self.category,
            explanation: self.explanation@,
            fix_suggestion: self.fix_suggestion@,
            real_world_example: match self.real_world_example {
                Some(s) => Some(s@),
                None => None,
            },
        }
    }
}

/// The views of a sequence of findings.
pub open spec fn views_of(s: Seq<VulnerabilityFinding>) -> Seq<FindingModel> {
    s.map_values(|f: VulnerabilityFinding| f@)
}

// ---------------------------------------------------------------------------
// Historical exploit examples
// ---------------------------------------------------------------------------

/// One documented real-world exploit, with its vulnerable and fixed code.
#[derive(Clone)]
pub struct ExploitExample {
    pub name: String,
    pub description: String,
    pub date: String,
    pub loss_amount: String,
    pub vulnerability_type: VulnerabilityType,
    pub vulnerable_code: String,
    pub fixed_code: String,
    pub how_our_tool_detects: String,
    pub prevention_tip: String,
}

/// The mathematical value of an exploit example.
pub ghost struct ExploitExampleModel {
    pub name: Seq<char>,
    pub description: Seq<char>,
    pub date: Seq<char>,
    pub loss_amount: Seq<char>,
    pub vulnerability_type: VulnerabilityType,
    pub vulnerable_code: Seq<char>,
    pub fixed_code: Seq<char>,
    pub how_our_tool_detects: Seq<char>,
    pub prevention_tip: Seq<char>,
}

impl vstd::view::View for ExploitExample {
    type V = ExploitExampleModel;

    open spec fn view(&self) -> ExploitExampleModel {
        ExploitExampleModel {
            name: self.name@,
            description: self.description@,
            date: self.date@,
            loss_amount: self.loss_amount@,
            vulnerability_type: self.vulnerability_type,
            vulnerable_code: self.vulnerable_code@,
            fixed_code: self.fixed_code@,
            how_our_tool_detects: self.how_our_tool_detects@,
            prevention_tip: self.prevention_tip@,
        }
    }
}

// ---------------------------------------------------------------------------
// The fixed per-category lookup table
// ---------------------------------------------------------------------------

pub open spec fn severity_of(c: VulnerabilityType) -> Severity {
    match c {
        VulnerabilityType::Overflow => Severity::Critical,
        VulnerabilityType::Reentrancy => Severity::Critical,
        VulnerabilityType::AccessControl => Severity::High,
        VulnerabilityType::UncheckedExternalCall => Severity::High,
        VulnerabilityType::TimestampDependence => Severity::Medium,
        VulnerabilityType::GasLimit => Severity::Medium,
        VulnerabilityType::UncheckedReturn => Severity::Medium,
        VulnerabilityType::FrontRunning => Severity::High,
        VulnerabilityType::FlashLoan => Severity::Critical,
        VulnerabilityType::OracleManipulation => Severity::High,
    }
}

pub open spec fn warning_of(c: VulnerabilityType) -> Seq<char> {
    match c {
        VulnerabilityType::Overflow => "Potential arithmetic overflow/underflow"@,
        VulnerabilityType::Reentrancy => "Potential reentrancy vulnerability"@,
        VulnerabilityType::AccessControl => "Missing access control modifier"@,
        VulnerabilityType::UncheckedExternalCall => "Unchecked external call"@,
        VulnerabilityType::TimestampDependence => "Timestamp dependence detected"@,
        VulnerabilityType::GasLimit => "Loop with external calls may hit gas limit"@,
        VulnerabilityType::UncheckedReturn => "Unchecked return value from transfer/send"@,
        VulnerabilityType::FrontRunning => "Potential front-running vulnerability"@,
        VulnerabilityType::FlashLoan => "Potential flash loan attack vulnerability"@,
        VulnerabilityType::OracleManipulation => "Single oracle dependency detected"@,
    }
}

pub open spec fn explanation_of(c: VulnerabilityType) -> Seq<char> {
    match c {
        VulnerabilityType::Overflow => "Arithmetic operations without overflow checks can lead to unexpected behavior and potential exploits."@,
        VulnerabilityType::Reentrancy => "External calls can allow attackers to re-enter the contract before state changes are applied."@,
        VulnerabilityType::AccessControl => "Functions without proper access control can be called by unauthorized users."@,
        VulnerabilityType::UncheckedExternalCall => "Low-level calls can fail silently, leading to unexpected behavior."@,
        VulnerabilityType::TimestampDependence => "Block timestamps can be manipulated by miners within a small range."@,
        VulnerabilityType::GasLimit => "Loops with external calls can consume unpredictable amounts of gas."@,
        VulnerabilityType::UncheckedReturn => "transfer() and send() can fail, but the return value is not being checked."@,
        VulnerabilityType::FrontRunning => "Public trading functions can be front-run by MEV bots."@,
        VulnerabilityType::FlashLoan => "Flash loans can be used to manipulate prices and drain funds."@,
        VulnerabilityType::OracleManipulation => "Single oracle sources can be manipulated or become stale."@,
    }
}

pub open spec fn fix_of(c: VulnerabilityType) -> Seq<char> {
    match c {
        VulnerabilityType::Overflow => "Use SafeMath library or Solidity 0.8+ built-in overflow protection."@,
        VulnerabilityType::Reentrancy => "Use reentrancy guards, follow checks-effects-interactions pattern, or use pull payment pattern."@,
        VulnerabilityType::AccessControl => "Add appropriate modifiers like onlyOwner, onlyRole, or custom access control."@,
        VulnerabilityType::UncheckedExternalCall => "Always check the return value of external calls and handle failures appropriately."@,
        VulnerabilityType::TimestampDependence => "Use block numbers or implement time-based logic with appropriate tolerances."@,
        VulnerabilityType::GasLimit => "Use pull payment pattern or limit loop iterations to prevent gas limit issues."@,
        VulnerabilityType::UncheckedReturn => "Use call() with proper return value checking, or use require() to check transfer success."@,
        VulnerabilityType::FrontRunning => "Use commit-reveal schemes, private mempools, or time-delayed execution."@,
        VulnerabilityType::FlashLoan => "Implement proper checks and use oracle price feeds with manipulation protection."@,
        VulnerabilityType::OracleManipulation => "Use multiple oracle sources, implement circuit breakers, and add manipulation detection."@,
    }
}

pub open spec fn example_of(c: VulnerabilityType) -> Option<Seq<char>> {
    match c {
        VulnerabilityType::Overflow => Some("The DAO hack (2016) - $60M lost due to integer overflow"@),
        VulnerabilityType::Reentrancy => Some("The DAO hack (2016) - $60M stolen through reentrancy attack"@),
        VulnerabilityType::AccessControl => Some("Parity Wallet hack (2017) - $30M lost due to missing access control"@),
        VulnerabilityType::UncheckedExternalCall => Some("King of the Ether (2016) - Unchecked external calls led to contract failures"@),
        VulnerabilityType::TimestampDependence => Some("Various DEX exploits - Timestamp manipulation for MEV attacks"@),
        VulnerabilityType::GasLimit => Some("Governor Bravo (2020) - Gas limit issues in governance proposals"@),
        VulnerabilityType::UncheckedReturn => Some("Various DeFi protocols - Failed transfers not properly handled"@),
        VulnerabilityType::FrontRunning => Some("Uniswap V2 (2020) - MEV bots front-running trades for profit"@),
        VulnerabilityType::FlashLoan => Some("Harvest Finance (2020) - $24M stolen through flash loan attack"@),
        VulnerabilityType::OracleManipulation => Some("Synthetix (2019) - Oracle manipulation led to incorrect price feeds"@),
    }
}

/// The finding a detector of category `c` produces for line number `line`
/// whose (trimmed, comment-stripped) text is `snippet`.
pub open spec fn finding_for(c: VulnerabilityType, line: int, snippet: Seq<char>) -> FindingModel {
    FindingModel {
        line: line,
        snippet: snippet,
        warning: warning_of(c),
        severity: severity_of(c),
        category: c,
        explanation: explanation_of(c),
        fix_suggestion: fix_of(c),
        real_world_example: example_of(c),
    }
}

// ---------------------------------------------------------------------------
// Executable lookup, verified against the table above
// ---------------------------------------------------------------------------

pub fn severity_for(c: VulnerabilityType) -> (s: Severity)
    ensures
        s == severity_of(c),
{
    match c {
        VulnerabilityType::Overflow => Severity::Critical,
        VulnerabilityType::Reentrancy => Severity::Critical,
        VulnerabilityType::AccessControl => Severity::High,
        VulnerabilityType::UncheckedExternalCall => Severity::High,
        VulnerabilityType::TimestampDependence => Severity::Medium,
        VulnerabilityType::GasLimit => Severity::Medium,
        VulnerabilityType::UncheckedReturn => Severity::Medium,
        VulnerabilityType::FrontRunning => Severity::High,
        VulnerabilityType::FlashLoan => Severity::Critical,
        VulnerabilityType::OracleManipulation => Severity::High,
    }
}

pub fn warning_text(c: VulnerabilityType) -> (r: String)
    ensures
        r@ == warning_of(c),
{
    match c {
        VulnerabilityType::Overflow => String::from_str("Potential arithmetic overflow/underflow"),
        VulnerabilityType::Reentrancy => String::from_str("Potential reentrancy vulnerability"),
        VulnerabilityType::AccessControl => String::from_str("Missing access control modifier"),
        VulnerabilityType::UncheckedExternalCall => String::from_str("Unchecked external call"),
        VulnerabilityType::TimestampDependence => String::from_str("Timestamp dependence detected"),
        VulnerabilityType::GasLimit => String::from_str("Loop with external calls may hit gas limit"),
        VulnerabilityType::UncheckedReturn => String::from_str("Unchecked return value from transfer/send"),
        VulnerabilityType::FrontRunning => String::from_str("Potential front-running vulnerability"),
        VulnerabilityType::FlashLoan => String::from_str("Potential flash loan attack vulnerability"),
        VulnerabilityType::OracleManipulation => String::from_str("Single oracle dependency detected"),
    }
}

pub fn explanation_text(c: VulnerabilityType) -> (r: String)
    ensures
        r@ == explanation_of(c),
{
    match c {
        VulnerabilityType::Overflow => String::from_str("Arithmetic operations without overflow checks can lead to unexpected behavior and potential exploits."),
        VulnerabilityType::Reentrancy => String::from_str("External calls can allow attackers to re-enter the contract before state changes are applied."),
        VulnerabilityType::AccessControl => String::from_str("Functions without proper access control can be called by unauthorized users."),
        VulnerabilityType::UncheckedExternalCall => String::from_str("Low-level calls can fail silently, leading to unexpected behavior."),
        VulnerabilityType::TimestampDependence => String::from_str("Block timestamps can be manipulated by miners within a small range."),
        VulnerabilityType::GasLimit => String::from_str("Loops with external calls can consume unpredictable amounts of gas."),
        VulnerabilityType::UncheckedReturn => String::from_str("transfer() and send() can fail, but the return value is not being checked."),
        VulnerabilityType::FrontRunning => String::from_str("Public trading functions can be front-run by MEV bots."),
        VulnerabilityType::FlashLoan => String::from_str("Flash loans can be used to manipulate prices and drain funds."),
        VulnerabilityType::OracleManipulation => String::from_str("Single oracle sources can be manipulated or become stale."),
    }
}

pub fn fix_text(c: VulnerabilityType) -> (r: String)
    ensures
        r@ == fix_of(c),
{
    match c {
        VulnerabilityType::Overflow => String::from_str("Use SafeMath library or Solidity 0.8+ built-in overflow protection."),
        VulnerabilityType::Reentrancy => String::from_str("Use reentrancy guards, follow checks-effects-interactions pattern, or use pull payment pattern."),
        VulnerabilityType::AccessControl => String::from_str("Add appropriate modifiers like onlyOwner, onlyRole, or custom access control."),
        VulnerabilityType::UncheckedExternalCall => String::from_str("Always check the return value of external calls and handle failures appropriately."),
        VulnerabilityType::TimestampDependence => String::from_str("Use block numbers or implement time-based logic with appropriate tolerances."),
        VulnerabilityType::GasLimit => String::from_str("Use pull payment pattern or limit loop iterations to prevent gas limit issues."),
        VulnerabilityType::UncheckedReturn => String::from_str("Use call() with proper return value checking, or use require() to check transfer success."),
        VulnerabilityType::FrontRunning => String::from_str("Use commit-reveal schemes, private mempools, or time-delayed execution."),
        VulnerabilityType::FlashLoan => String::from_str("Implement proper checks and use oracle price feeds with manipulation protection."),
        VulnerabilityType::OracleManipulation => String::from_str("Use multiple oracle sources, implement circuit breakers, and add manipulation detection."),
    }
}

pub fn example_text(c: VulnerabilityType) -> (r: Option<String>)
    ensures
        match r {
            Some(s) => example_of(c) == Some(s@),
            None => example_of(c) is None,
        },
{
    match c {
        VulnerabilityType::Overflow => Some(String::from_str("The DAO hack (2016) - $60M lost due to integer overflow")),
        VulnerabilityType::Reentrancy => Some(String::from_str("The DAO hack (2016) - $60M stolen through reentrancy attack")),
        VulnerabilityType::AccessControl => Some(String::from_str("Parity Wallet hack (2017) - $30M lost due to missing access control")),
        VulnerabilityType::UncheckedExternalCall => Some(String::from_str("King of the Ether (2016) - Unchecked external calls led to contract failures")),
        VulnerabilityType::TimestampDependence => Some(String::from_str("Various DEX exploits - Timestamp manipulation for MEV attacks")),
        VulnerabilityType::GasLimit => Some(String::from_str("Governor Bravo (2020) - Gas limit issues in governance proposals")),
        VulnerabilityType::UncheckedReturn => Some(String::from_str("Various DeFi protocols - Failed transfers not properly handled")),
        VulnerabilityType::FrontRunning => Some(String::from_str("Uniswap V2 (2020) - MEV bots front-running trades for profit")),
        VulnerabilityType::FlashLoan => Some(String::from_str("Harvest Finance (2020) - $24M stolen through flash loan attack")),
        VulnerabilityType::OracleManipulation => Some(String::from_str("Synthetix (2019) - Oracle manipulation led to incorrect price feeds")),
    }
}

/// Builds the finding a detector of category `c` reports for line number
/// `line_number` with text `snippet`.
pub fn make_finding(c: VulnerabilityType, line_number: usize, snippet: &str) -> (f:
    VulnerabilityFinding)
    ensures
        f@ == finding_for(c, line_number as int, snippet@),
{
    VulnerabilityFinding {
        line: line_number,
        snippet: snippet.to_owned(),
        warning: warning_text(c),
        severity: severity_for(c),
        category: c,
        explanation: explanation_text(c),
        fix_suggestion: fix_text(c),
        real_world_example: example_text(c),
    }
}

// ---------------------------------------------------------------------------
// Names used by the report generators
// ---------------------------------------------------------------------------

/// The severity as report generators print it.
pub open spec fn severity_name(s: Severity) -> Seq<char> {
    match s {
        Severity::Critical => "Critical"@,
        Severity::High => "High"@,
        Severity::Medium => "Medium"@,
        Severity::Low => "Low"@,
        Severity::Info => "Info"@,
    }
}

/// The upper-case severity tag used in the text report.
pub open spec fn severity_tag(s: Severity) -> Seq<char> {
    match s {
        Severity::Critical => "CRITICAL"@,
        Severity::High => "HIGH"@,
        Severity::Medium => "MEDIUM"@,
        Severity::Low => "LOW"@,
        Severity::Info => "INFO"@,
    }
}

/// The category as report generators print it.
pub open spec fn category_name(c: VulnerabilityType) -> Seq<char> {
    match c {
        VulnerabilityType::Overflow => "Overflow"@,
        VulnerabilityType::Reentrancy => "Reentrancy"@,
        VulnerabilityType::AccessControl => "AccessControl"@,
        VulnerabilityType::UncheckedExternalCall => "UncheckedExternalCall"@,
        VulnerabilityType::TimestampDependence => "TimestampDependence"@,
        VulnerabilityType::GasLimit => "GasLimit"@,
        VulnerabilityType::UncheckedReturn => "UncheckedReturn"@,
        VulnerabilityType::FrontRunning => "FrontRunning"@,
        VulnerabilityType::FlashLoan => "FlashLoan"@,
        VulnerabilityType::OracleManipulation => "OracleManipulation"@,
    }
}

/// The display name of a vulnerability category.
pub open spec fn vulnerability_display_name(c: VulnerabilityType) -> Seq<char> {
    match c {
        VulnerabilityType::Overflow => "Overflow/Underflow"@,
        VulnerabilityType::Reentrancy => "Reentrancy Attack"@,
        VulnerabilityType::AccessControl => "Access Control"@,
        VulnerabilityType::UncheckedExternalCall => "Unchecked External Call"@,
        VulnerabilityType::TimestampDependence => "Timestamp Dependence"@,
        VulnerabilityType::GasLimit => "Gas Limit Issue"@,
        VulnerabilityType::UncheckedReturn => "Unchecked Return Value"@,
        VulnerabilityType::FrontRunning => "Front Running"@,
        VulnerabilityType::FlashLoan => "Flash Loan Attack"@,
        VulnerabilityType::OracleManipulation => "Oracle Manipulation"@,
    }
}

/// The display name a category is presented under.
pub fn get_vulnerability_name(vuln_type: &VulnerabilityType) -> (r: &'static str)
    ensures
        r@ == vulnerability_display_name(*vuln_type),
{
    match vuln_type {
        VulnerabilityType::Reentrancy => "Reentrancy Attack",
        VulnerabilityType::AccessControl => "Access Control",
        VulnerabilityType::FlashLoan => "Flash Loan Attack",
        VulnerabilityType::Overflow => "Overflow/Underflow",
        VulnerabilityType::UncheckedExternalCall => "Unchecked External Call",
        VulnerabilityType::TimestampDependence => "Timestamp Dependence",
        VulnerabilityType::GasLimit => "Gas Limit Issue",
        VulnerabilityType::UncheckedReturn => "Unchecked Return Value",
        VulnerabilityType::FrontRunning => "Front Running",
        VulnerabilityType::OracleManipulation => "Oracle Manipulation",
    }
}

pub fn severity_name_text(s: Severity) -> (r: String)
    ensures
        r@ == severity_name(s),
{
    match s {
        Severity::Critical => String::from_str("Critical"),
        Severity::High => String::from_str("High"),
        Severity::Medium => String::from_str("Medium"),
        Severity::Low => String::from_str("Low"),
        Severity::Info => String::from_str("Info"),
    }
}

pub fn severity_tag_text(s: Severity) -> (r: String)
    ensures
        r@ == severity_tag(s),
{
    match s {
        Severity::Critical => String::from_str("CRITICAL"),
        Severity::High => String::from_str("HIGH"),
        Severity::Medium => String::from_str("MEDIUM"),
        Severity::Low => String::from_str("LOW"),
        Severity::Info => String::from_str("INFO"),
    }
}

pub fn category_name_text(c: VulnerabilityType) -> (r: String)
    ensures
        r@ == category_name(c),
{
    match c {
        VulnerabilityType::Overflow => String::from_str("Overflow"),
        VulnerabilityType::Reentrancy => String::from_str("Reentrancy"),
        VulnerabilityType::AccessControl => String::from_str("AccessControl"),
        VulnerabilityType::UncheckedExternalCall => String::from_str("UncheckedExternalCall"),
        VulnerabilityType::TimestampDependence => String::from_str("TimestampDependence"),
        VulnerabilityType::GasLimit => String::from_str("GasLimit"),
        VulnerabilityType::UncheckedReturn => String::from_str("UncheckedReturn"),
        VulnerabilityType::FrontRunning => String::from_str("FrontRunning"),
        VulnerabilityType::FlashLoan => String::from_str("FlashLoan"),
        VulnerabilityType::OracleManipulation => String::from_str("OracleManipulation"),
    }
}

} // verus!
