use erc20_bridge::cross_call::{
    add_invocation, call, counter_execute, del_call, describe_outcome, execute, instantiate,
    invoke, migrate, query, query_counter, CallMode, ContractDeps, ContractStorage, CounterMsg,
    ExecuteMsg, FailurePolicy, QueryMsg,
};
use erc20_bridge::msg::{ContractError, Response};
use erc20_bridge::uint256::U256;

fn fresh() -> ContractDeps {
    let mut d = ContractDeps { storage: ContractStorage { counter: None }, debug_log: vec![] };
    instantiate(&mut d).unwrap();
    d
}

fn n(v: u128) -> U256 {
    U256::from_u128(v)
}

fn max256() -> U256 {
    U256 { be_bytes: [0xff; 32] }
}

#[test]
fn instantiate_starts_at_zero() {
    let d = fresh();
    assert_eq!(query_counter(&d.storage).unwrap(), n(0));
    assert_eq!(query(&d.storage, QueryMsg::GetCounter).unwrap(), "\"0\"");
}

#[test]
fn query_before_instantiate_is_not_found() {
    let s = ContractStorage { counter: None };
    assert_eq!(query_counter(&s).unwrap_err(), ContractError::NotFound);
    assert_eq!(query(&s, QueryMsg::GetCounter).unwrap_err(), ContractError::NotFound);
}

#[test]
fn delegated_call_lands_in_caller_storage() {
    let mut a = fresh();
    let mut b = fresh().storage;
    counter_execute(&mut b, &CounterMsg::Add { delta: n(4) }).unwrap();
    let r = del_call(&mut a, n(7), "contract_b".to_string()).unwrap();
    assert_eq!(r, Response::new());
    assert_eq!(query_counter(&a.storage).unwrap(), n(7));
    assert_eq!(query_counter(&b).unwrap(), n(4));
    assert_eq!(a.debug_log, vec!["ok".to_string()]);
}

#[test]
fn isolated_call_lands_in_callee_storage() {
    let mut a = fresh();
    let mut b = fresh().storage;
    call(&mut a, &mut b, n(7), "contract_b".to_string()).unwrap();
    assert_eq!(query_counter(&a.storage).unwrap(), n(0));
    assert_eq!(query_counter(&b).unwrap(), n(7));
    assert_eq!(query(&b, QueryMsg::GetCounter).unwrap(), "\"7\"");
}

#[test]
fn execute_routes_both_modes() {
    let mut a = fresh();
    let mut b = fresh().storage;
    execute(&mut a, &mut b, ExecuteMsg::Call { delta: n(2), addr: "b".to_string() }).unwrap();
    execute(&mut a, &mut b, ExecuteMsg::DelegateCall { delta: n(5), addr: "b".to_string() })
        .unwrap();
    assert_eq!(query_counter(&a.storage).unwrap(), n(5));
    assert_eq!(query_counter(&b).unwrap(), n(2));
    assert_eq!(a.debug_log.len(), 2);
}

#[test]
fn failed_sub_call_is_logged_not_raised() {
    let mut a = fresh();
    let mut b = ContractStorage { counter: None };
    let r = call(&mut a, &mut b, n(1), "b".to_string());
    assert!(r.is_ok());
    assert!(b.counter.is_none());
    assert_eq!(a.debug_log, vec!["this is contract err NotFound".to_string()]);
}

#[test]
fn add_past_256_bits_overflows() {
    let mut s = ContractStorage { counter: Some(max256()) };
    let r = counter_execute(&mut s, &CounterMsg::Add { delta: n(1) });
    assert_eq!(r.unwrap_err(), ContractError::Overflow);
    assert_eq!(s.counter, Some(max256()));
    let mut a = ContractDeps { storage: ContractStorage { counter: Some(max256()) }, debug_log: vec![] };
    del_call(&mut a, n(1), "b".to_string()).unwrap();
    assert_eq!(a.storage.counter, Some(max256()));
    assert_eq!(a.debug_log, vec!["this is contract err Overflow".to_string()]);
}

#[test]
fn invocation_payload_is_the_add_instruction() {
    let inv = add_invocation(n(1234), "contract_b".to_string());
    assert_eq!(inv.contract_addr, "contract_b");
    assert!(inv.funds.is_empty());
    assert_eq!(inv.msg.encode(), "{\"add\":{\"delta\":\"1234\"}}");
}

#[test]
fn outcome_lines() {
    assert_eq!(describe_outcome(&Ok(Response::new())), "ok");
    assert_eq!(
        describe_outcome(&Err(ContractError::ExecutionFailed)),
        "this is contract err ExecutionFailed"
    );
}

#[test]
fn migrate_keeps_storage() {
    let mut a = fresh();
    del_call(&mut a, n(3), "b".to_string()).unwrap();
    migrate(&mut a).unwrap();
    assert_eq!(query_counter(&a.storage).unwrap(), n(3));
}

#[test]
fn wide_values_add_and_print() {
    let a = n(u128::MAX);
    let b = a.checked_add(&a).unwrap();
    assert_eq!(b.to_decimal(), "680564733841876926926749214863536422910");
    assert!(max256().checked_add(&n(1)).is_none());
    assert_eq!(n(0).to_decimal(), "0");
    assert_eq!(U256::zero(), n(0));
    assert_eq!(
        max256().to_decimal(),
        "115792089237316195423570985008687907853269984665640564039457584007913129639935"
    );
}

#[test]
fn propagate_policy_fails_the_caller() {
    let mut a = fresh();
    let mut b = ContractStorage { counter: None };
    let r = invoke(&mut a, &mut b, n(1), "b".to_string(), CallMode::Isolated, FailurePolicy::Propagate);
    assert_eq!(r.unwrap_err(), ContractError::ExecutionFailed);
    assert_eq!(a.debug_log, vec!["this is contract err NotFound".to_string()]);
    let r = invoke(&mut a, &mut b, n(1), "b".to_string(), CallMode::Delegated, FailurePolicy::Propagate);
    assert_eq!(r.unwrap(), Response::new());
    assert_eq!(query_counter(&a.storage).unwrap(), n(1));
    assert!(b.counter.is_none());
    assert_eq!(a.debug_log.len(), 2);
}
