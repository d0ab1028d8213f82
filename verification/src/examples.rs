//! The fixed catalog of documented real-world exploits that the
//! educational material presents.

use vstd::prelude::*;

use crate::models::ExploitExample;
use crate::models::ExploitExampleModel;
use crate::models::VulnerabilityType;

verus! {

/// The DAO reentrancy exploit.
pub open spec fn dao_example() -> ExploitExampleModel {
    ExploitExampleModel {
        name: "The DAO Hack (2016)"@,
        description: "The most famous smart contract exploit in history"@,
        date: "June 2016"@,
        loss_amount: "$60 Million"@,
        vulnerability_type: VulnerabilityType::Reentrancy,
        vulnerable_code: "function withdraw(uint amount) {\n    if (balances[msg.sender] >= amount) {\n        msg.sender.call.value(amount)();\n        balances[msg.sender] -= amount;\n    }\n}"@,
        fixed_code: "function withdraw(uint amount) {\n    require(balances[msg.sender] >= amount);\n    balances[msg.sender] -= amount;\n    msg.sender.call.value(amount)();\n}"@,
        how_our_tool_detects: "Detects external calls before state changes and suggests reentrancy guards"@,
        prevention_tip: "Always follow the checks-effects-interactions pattern"@,
    }
}

/// The Parity multi-signature wallet exploit.
pub open spec fn parity_example() -> ExploitExampleModel {
    ExploitExampleModel {
        name: "Parity Wallet Hack (2017)"@,
        description: "Multi-signature wallet vulnerability"@,
        date: "July 2017"@,
        loss_amount: "$30 Million"@,
        vulnerability_type: VulnerabilityType::AccessControl,
        vulnerable_code: "function initWallet(address[] _owners, uint _required) {\n    // No access control\n    owners = _owners;\n    required = _required;\n}"@,
        fixed_code: "function initWallet(address[] _owners, uint _required) {\n    require(msg.sender == owner);\n    require(!initialized);\n    owners = _owners;\n    required = _required;\n    initialized = true;\n}"@,
        how_our_tool_detects: "Identifies functions without proper access control modifiers"@,
        prevention_tip: "Always add access control to critical functions"@,
    }
}

/// The Harvest Finance flash-loan exploit.
pub open spec fn harvest_example() -> ExploitExampleModel {
    ExploitExampleModel {
        name: "Harvest Finance Flash Loan (2020)"@,
        description: "Flash loan attack on DeFi protocol"@,
        date: "October 2020"@,
        loss_amount: "$24 Million"@,
        vulnerability_type: VulnerabilityType::FlashLoan,
        vulnerable_code: "function deposit() external {\n    uint256 amount = IERC20(token).balanceOf(address(this));\n    // No flash loan protection\n    _mint(msg.sender, amount);\n}"@,
        fixed_code: "function deposit() external {\n    uint256 amount = IERC20(token).balanceOf(address(this));\n    require(amount > 0, 'No tokens received');\n    require(!_isFlashLoan(), 'Flash loans not allowed');\n    _mint(msg.sender, amount);\n}"@,
        how_our_tool_detects: "Detects flash loan patterns and suggests protection mechanisms"@,
        prevention_tip: "Implement flash loan detection and use oracle price feeds"@,
    }
}

/// The catalog shown by the educational material: the DAO, Parity and
/// Harvest Finance exploits, in that order.
pub fn get_real_world_examples() -> (r: Vec<ExploitExample>)
    ensures
        r@.len() == 3,
        r@[0]@ == dao_example(),
        r@[1]@ == parity_example(),
        r@[2]@ == harvest_example(),
{
    let mut r: Vec<ExploitExample> = Vec::new();
    r.push(
        ExploitExample {
            name: String::from_str("The DAO Hack (2016)"),
            description: String::from_str("The most famous smart contract exploit in history"),
            date: String::from_str("June 2016"),
            loss_amount: String::from_str("$60 Million"),
            vulnerability_type: VulnerabilityType::Reentrancy,
            vulnerable_code: String::from_str(
                "function withdraw(uint amount) {\n    if (balances[msg.sender] >= amount) {\n        msg.sender.call.value(amount)();\n        balances[msg.sender] -= amount;\n    }\n}",
            ),
            fixed_code: String::from_str(
                "function withdraw(uint amount) {\n    require(balances[msg.sender] >= amount);\n    balances[msg.sender] -= amount;\n    msg.sender.call.value(amount)();\n}",
            ),
            how_our_tool_detects: String::from_str(
                "Detects external calls before state changes and suggests reentrancy guards",
            ),
            prevention_tip: String::from_str(
                "Always follow the checks-effects-interactions pattern",
            ),
        },
    );
    r.push(
        ExploitExample {
            name: String::from_str("Parity Wallet Hack (2017)"),
            description: String::from_str("Multi-signature wallet vulnerability"),
            date: String::from_str("July 2017"),
            loss_amount: String::from_str("$30 Million"),
            vulnerability_type: VulnerabilityType::AccessControl,
            vulnerable_code: String::from_str(
                "function initWallet(address[] _owners, uint _required) {\n    // No access control\n    owners = _owners;\n    required = _required;\n}",
            ),
            fixed_code: String::from_str(
                "function initWallet(address[] _owners, uint _required) {\n    require(msg.sender == owner);\n    require(!initialized);\n    owners = _owners;\n    required = _required;\n    initialized = true;\n}",
            ),
            how_our_tool_detects: String::from_str(
                "Identifies functions without proper access control modifiers",
            ),
            prevention_tip: String::from_str("Always add access control to critical functions"),
        },
    );
    r.push(
        ExploitExample {
            name: String::from_str("Harvest Finance Flash Loan (2020)"),
            description: String::from_str("Flash loan attack on DeFi protocol"),
            date: String::from_str("October 2020"),
            loss_amount: String::from_str("$24 Million"),
            vulnerability_type: VulnerabilityType::FlashLoan,
            vulnerable_code: String::from_str(
                "function deposit() external {\n    uint256 amount = IERC20(token).balanceOf(address(this));\n    // No flash loan protection\n    _mint(msg.sender, amount);\n}",
            ),
            fixed_code: String::from_str(
                "function deposit() external {\n    uint256 amount = IERC20(token).balanceOf(address(this));\n    require(amount > 0, 'No tokens received');\n    require(!_isFlashLoan(), 'Flash loans not allowed');\n    _mint(msg.sender, amount);\n}",
            ),
            how_our_tool_detects: String::from_str(
                "Detects flash loan patterns and suggests protection mechanisms",
            ),
            prevention_tip: String::from_str(
                "Implement flash loan detection and use oracle price feeds",
            ),
        },
    );
    r
}

} // verus!
