use erc20_bridge::ledger::Ledger;
use erc20_bridge::msg::{
    AllowanceResponse, BalanceResponse, CallToEvmMsg, ContractError, ExecuteMsg, InitialBalance,
    InstantiateMsg, OutgoingMsg, QueryMsg, QueryResponse, SendToEvmMsg,
};

fn s(x: &str) -> String {
    x.to_string()
}

fn ledger_with(balances: &[(&str, u128)]) -> Ledger {
    let msg = InstantiateMsg {
        name: s("Token"),
        symbol: s("TKN"),
        decimals: 6,
        initial_balances: balances
            .iter()
            .map(|(a, v)| InitialBalance { address: s(a), amount: *v })
            .collect(),
    };
    Ledger::instantiate(msg, s("minter")).unwrap()
}

#[test]
fn approve_then_transfer_from_spends_allowance() {
    let mut l = ledger_with(&[("alice", 1000)]);
    l.approve(&s("alice"), &s("bob"), 300).unwrap();
    l.transfer_from(&s("bob"), &s("alice"), &s("carol"), 300).unwrap();
    assert_eq!(l.balance_of(&s("alice")), 700);
    assert_eq!(l.balance_of(&s("carol")), 300);
    assert_eq!(l.allowance_of(&s("alice"), &s("bob")), 0);
    let r = l.transfer_from(&s("bob"), &s("alice"), &s("carol"), 1);
    assert_eq!(r.unwrap_err(), ContractError::InsufficientAllowance);
    assert_eq!(l.balance_of(&s("alice")), 700);
    assert_eq!(l.balance_of(&s("carol")), 300);
    assert_eq!(l.total_supply(), 1000);
}

#[test]
fn burn_beyond_balance_fails_and_keeps_state() {
    let mut l = ledger_with(&[("alice", 700)]);
    let r = l.burn(&s("alice"), 1_000_000);
    assert_eq!(r.unwrap_err(), ContractError::InsufficientFunds);
    assert_eq!(l.balance_of(&s("alice")), 700);
    assert_eq!(l.total_supply(), 700);
}

#[test]
fn burn_lowers_balance_and_supply() {
    let mut l = ledger_with(&[("alice", 700), ("bob", 5)]);
    l.burn(&s("alice"), 200).unwrap();
    assert_eq!(l.balance_of(&s("alice")), 500);
    assert_eq!(l.balance_of(&s("bob")), 5);
    assert_eq!(l.total_supply(), 505);
}

#[test]
fn transfer_moves_and_conserves() {
    let mut l = ledger_with(&[("alice", 100), ("bob", 50)]);
    l.transfer(&s("alice"), &s("bob"), 30).unwrap();
    l.transfer(&s("bob"), &s("dave"), 80).unwrap();
    assert_eq!(l.balance_of(&s("alice")), 70);
    assert_eq!(l.balance_of(&s("bob")), 0);
    assert_eq!(l.balance_of(&s("dave")), 80);
    assert_eq!(l.total_supply(), 150);
}

#[test]
fn transfer_without_funds_fails() {
    let mut l = ledger_with(&[("alice", 10)]);
    let r = l.transfer(&s("alice"), &s("bob"), 11);
    assert_eq!(r.unwrap_err(), ContractError::InsufficientFunds);
    assert_eq!(l.balance_of(&s("alice")), 10);
    assert_eq!(l.balance_of(&s("bob")), 0);
}

#[test]
fn self_transfer_is_a_successful_no_op() {
    let mut l = ledger_with(&[("alice", 10)]);
    let r = l.transfer(&s("alice"), &s("alice"), 10).unwrap();
    assert!(r.messages.is_empty());
    assert_eq!(l.balance_of(&s("alice")), 10);
    assert_eq!(l.total_supply(), 10);
}

#[test]
fn transfer_from_with_allowance_but_no_funds() {
    let mut l = ledger_with(&[("alice", 5)]);
    l.approve(&s("alice"), &s("bob"), 50).unwrap();
    let r = l.transfer_from(&s("bob"), &s("alice"), &s("carol"), 6);
    assert_eq!(r.unwrap_err(), ContractError::InsufficientFunds);
    assert_eq!(l.allowance_of(&s("alice"), &s("bob")), 50);
    assert_eq!(l.balance_of(&s("alice")), 5);
}

#[test]
fn transfer_from_without_allowance_changes_nothing() {
    let mut l = ledger_with(&[("alice", 500)]);
    l.approve(&s("alice"), &s("bob"), 20).unwrap();
    let r = l.transfer_from(&s("bob"), &s("alice"), &s("carol"), 21);
    assert_eq!(r.unwrap_err(), ContractError::InsufficientAllowance);
    assert_eq!(l.allowance_of(&s("alice"), &s("bob")), 20);
    assert_eq!(l.balance_of(&s("alice")), 500);
    assert_eq!(l.balance_of(&s("carol")), 0);
}

#[test]
fn partial_transfer_from_leaves_the_rest_of_the_allowance() {
    let mut l = ledger_with(&[("alice", 500)]);
    l.approve(&s("alice"), &s("bob"), 120).unwrap();
    l.transfer_from(&s("bob"), &s("alice"), &s("bob"), 45).unwrap();
    assert_eq!(l.allowance_of(&s("alice"), &s("bob")), 75);
    assert_eq!(l.balance_of(&s("bob")), 45);
    assert_eq!(l.balance_of(&s("alice")), 455);
}

#[test]
fn approve_overwrites() {
    let mut l = ledger_with(&[("alice", 1)]);
    l.approve(&s("alice"), &s("bob"), 300).unwrap();
    l.approve(&s("alice"), &s("bob"), 40).unwrap();
    assert_eq!(l.allowance_of(&s("alice"), &s("bob")), 40);
    assert_eq!(l.allowance_of(&s("bob"), &s("alice")), 0);
}

#[test]
fn mint_by_minter_only() {
    let mut l = ledger_with(&[("alice", 1)]);
    let r = l.mint(&s("alice"), &s("alice"), 5);
    assert_eq!(r.unwrap_err(), ContractError::Unauthorized);
    l.mint(&s("minter"), &s("erin"), 5).unwrap();
    assert_eq!(l.balance_of(&s("erin")), 5);
    assert_eq!(l.total_supply(), 6);
}

#[test]
fn mint_past_the_largest_supply_overflows() {
    let mut l = ledger_with(&[("alice", u128::MAX - 1)]);
    let r = l.mint(&s("minter"), &s("bob"), 2);
    assert_eq!(r.unwrap_err(), ContractError::Overflow);
    assert_eq!(l.total_supply(), u128::MAX - 1);
    l.mint(&s("minter"), &s("bob"), 1).unwrap();
    assert_eq!(l.total_supply(), u128::MAX);
}

#[test]
fn instantiate_adds_repeated_addresses() {
    let l = ledger_with(&[("alice", 3), ("bob", 4), ("alice", 5)]);
    assert_eq!(l.balance_of(&s("alice")), 8);
    assert_eq!(l.balance_of(&s("bob")), 4);
    assert_eq!(l.total_supply(), 12);
    assert_eq!(l.name(), "Token");
    assert_eq!(l.symbol(), "TKN");
    assert_eq!(l.decimals(), 6);
}

#[test]
fn instantiate_with_too_large_total_overflows() {
    let msg = InstantiateMsg {
        name: s("Token"),
        symbol: s("TKN"),
        decimals: 6,
        initial_balances: vec![
            InitialBalance { address: s("a"), amount: u128::MAX },
            InitialBalance { address: s("b"), amount: 1 },
        ],
    };
    assert_eq!(Ledger::instantiate(msg, s("m")).unwrap_err(), ContractError::Overflow);
}

#[test]
fn empty_ledger_has_nothing() {
    let l = ledger_with(&[]);
    assert_eq!(l.total_supply(), 0);
    assert_eq!(l.balance_of(&s("anyone")), 0);
}

#[test]
fn send_to_evm_debits_and_emits() {
    let mut l = ledger_with(&[("alice", 100)]);
    let r = l.send_to_evm(s("alice"), s("0xabc"), s("0xdef"), 60).unwrap();
    assert_eq!(
        r.messages,
        vec![OutgoingMsg::SendToEvm(SendToEvmMsg {
            sender: s("alice"),
            contract: s("0xabc"),
            recipient: s("0xdef"),
            amount: 60,
        })]
    );
    assert_eq!(l.balance_of(&s("alice")), 40);
    assert_eq!(l.total_supply(), 40);
    let r = l.send_to_evm(s("alice"), s("0xabc"), s("0xdef"), 41);
    assert_eq!(r.unwrap_err(), ContractError::InsufficientFunds);
}

#[test]
fn call_to_evm_through_execute() {
    let mut l = ledger_with(&[("alice", 100)]);
    let msg = ExecuteMsg::CallToEvm { evm_contract: s("0xabc"), calldata: s("0x01"), value: 7 };
    let r = l.execute(s("alice"), msg).unwrap();
    assert_eq!(
        r.messages,
        vec![OutgoingMsg::CallToEvm(CallToEvmMsg {
            sender: s("alice"),
            evmaddr: s("0xabc"),
            calldata: s("0x01"),
            value: 7,
        })]
    );
    assert_eq!(l.balance_of(&s("alice")), 93);
}

#[test]
fn execute_routes_each_operation() {
    let mut l = ledger_with(&[("alice", 100)]);
    l.execute(s("alice"), ExecuteMsg::Transfer { recipient: s("bob"), amount: 10 }).unwrap();
    l.execute(s("alice"), ExecuteMsg::Approve { spender: s("bob"), amount: 20 }).unwrap();
    l.execute(
        s("bob"),
        ExecuteMsg::TransferFrom { owner: s("alice"), recipient: s("carol"), amount: 15 },
    )
    .unwrap();
    l.execute(s("carol"), ExecuteMsg::Burn { amount: 5 }).unwrap();
    l.execute(s("minter"), ExecuteMsg::MintCW20 { recipient: s("dave"), amount: 9 }).unwrap();
    assert_eq!(l.balance_of(&s("alice")), 75);
    assert_eq!(l.balance_of(&s("bob")), 10);
    assert_eq!(l.balance_of(&s("carol")), 10);
    assert_eq!(l.balance_of(&s("dave")), 9);
    assert_eq!(l.total_supply(), 104);
    assert_eq!(
        l.query(&QueryMsg::Balance { address: s("carol") }),
        QueryResponse::Balance(BalanceResponse { balance: 10 })
    );
    assert_eq!(
        l.query(&QueryMsg::Allowance { owner: s("alice"), spender: s("bob") }),
        QueryResponse::Allowance(AllowanceResponse { allowance: 5 })
    );
}
