//! A token ledger with balances and allowances, bridge-out messages, and a
//! counter contract that shows the difference between an isolated call and a
//! delegated call into another contract.
pub mod uint256;
pub mod cross_call;
pub mod msg;
pub mod table;
pub mod ledger;
