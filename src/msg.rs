use vstd::prelude::*;
use vstd::string::*;

verus! {

/// An account funded when the ledger is created.
#[derive(Clone, PartialEq, Debug)]
pub struct InitialBalance {
    pub address: String,
    pub amount: u128,
}

/// What creates a ledger: its metadata and the balances it starts with.
#[derive(Clone, Debug)]
pub struct InstantiateMsg {
    pub name: String,
    pub symbol: String,
    pub decimals: u8,
    pub initial_balances: Vec<InitialBalance>,
}

/// The operations that the ledger executes for the sender of a message.
#[derive(Clone, Debug)]
pub enum ExecuteMsg {
    Approve { spender: String, amount: u128 },
    Transfer { recipient: String, amount: u128 },
    TransferFrom { owner: String, recipient: String, amount: u128 },
    Burn { amount: u128 },
    MintCW20 { recipient: String, amount: u128 },
    SendToEvm { evm_contract: String, recipient: String, amount: u128 },
    CallToEvm { evm_contract: String, calldata: String, value: u128 },
}

/// An outbound message that moves `amount` to `recipient` on the EVM side,
/// through the EVM contract `contract`.
#[derive(Clone, PartialEq, Debug)]
pub struct SendToEvmMsg {
    pub sender: String,
    pub contract: String,
    pub recipient: String,
    pub amount: u128,
}

/// An outbound message that calls the EVM contract `evmaddr` with
/// `calldata`, carrying `value`.
#[derive(Clone, PartialEq, Debug)]
pub struct CallToEvmMsg {
    pub sender: String,
    pub evmaddr: String,
    pub calldata: String,
    pub value: u128,
}

/// The read-only questions that the ledger answers.
#[derive(Clone, PartialEq, Debug)]
pub enum QueryMsg {
    Balance { address: String },
    Allowance { owner: String, spender: String },
}

#[derive(Clone, PartialEq, Debug)]
pub struct BalanceResponse {
    pub balance: u128,
}

#[derive(Clone, PartialEq, Debug)]
pub struct AllowanceResponse {
    pub allowance: u128,
}

/// The answer to a `QueryMsg`.
#[derive(Clone, PartialEq, Debug)]
pub enum QueryResponse {
    Balance(BalanceResponse),
    Allowance(AllowanceResponse),
}

/// A message that an operation hands to the host's outbound channel.
#[derive(Clone, PartialEq, Debug)]
pub enum OutgoingMsg {
    SendToEvm(SendToEvmMsg),
    CallToEvm(CallToEvmMsg),
}

/// What an executed operation hands back to the host: outbound messages,
/// key/value attributes and an optional binary payload.
#[derive(Clone, PartialEq, Debug)]
pub struct Response {
    pub messages: Vec<OutgoingMsg>,
    pub attributes: Vec<(String, String)>,
    pub data: Option<Vec<u8>>,
}

impl Response {
    pub open spec fn is_empty(&self) -> bool {
        self.messages@.len() == 0 && self.attributes@.len() == 0 && self.data.is_none()
    }

    /// A response with no message, attribute or data.
    pub fn new() -> (r: Response)
        ensures
            r.is_empty(),
    {
        Response { messages: Vec::new(), attributes: Vec::new(), data: None }
    }
}

/// The failures that an operation reports to the host.
#[derive(Clone, Copy, PartialEq, Eq, Debug)]
pub enum ContractError {
    Unauthorized,
    InsufficientFunds,
    InsufficientAllowance,
    Overflow,
    Underflow,
    NotFound,
    InvalidAddress,
    CallDepthExceeded,
    ExecutionFailed,
}

pub open spec fn error_name(e: ContractError) -> Seq<char> {
    match e {
        ContractError::Unauthorized => "Unauthorized"@,
        ContractError::InsufficientFunds => "InsufficientFunds"@,
        ContractError::InsufficientAllowance => "InsufficientAllowance"@,
        ContractError::Overflow => "Overflow"@,
        ContractError::Underflow => "Underflow"@,
        ContractError::NotFound => "NotFound"@,
        ContractError::InvalidAddress => "InvalidAddress"@,
        ContractError::CallDepthExceeded => "CallDepthExceeded"@,
        ContractError::ExecutionFailed => "ExecutionFailed"@,
    }
}

impl ContractError {
    /// The name of the error kind.
    pub fn name(&self) -> (r: String)
        ensures
            r@ == error_name(*self),
    {
        match self {
            ContractError::Unauthorized => String::from_str("Unauthorized"),
            ContractError::InsufficientFunds => String::from_str("InsufficientFunds"),
            ContractError::InsufficientAllowance => String::from_str("InsufficientAllowance"),
            ContractError::Overflow => String::from_str("Overflow"),
            ContractError::Underflow => String::from_str("Underflow"),
            ContractError::NotFound => String::from_str("NotFound"),
            ContractError::InvalidAddress => String::from_str("InvalidAddress"),
            ContractError::CallDepthExceeded => String::from_str("CallDepthExceeded"),
            ContractError::ExecutionFailed => String::from_str("ExecutionFailed"),
        }
    }
}

} // verus!
