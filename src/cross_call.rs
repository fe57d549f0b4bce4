use vstd::prelude::*;
use vstd::string::*;

use crate::msg::{ContractError, Response, error_name};
use crate::uint256::{U256, decimal, u256_bound};

verus! {

/// What a counter contract keeps in its storage: the counter, or `None`
/// while the contract has not been instantiated.
#[derive(Clone, Copy, Debug)]
pub struct ContractStorage {
    pub counter: Option<U256>,
}

/// A contract's own storage together with its debug log.
#[derive(Clone, Debug)]
pub struct ContractDeps {
    pub storage: ContractStorage,
    pub debug_log: Vec<String>,
}

/// Funds attached to an invocation.
#[derive(Clone, PartialEq, Debug)]
pub struct Coin {
    pub denom: String,
    pub amount: u128,
}

/// The instruction that a counter contract executes.
#[derive(Clone, Copy, Debug)]
pub enum CounterMsg {
    Add { delta: U256 },
}

/// A request to run a contract's code on a message, with attached funds.
#[derive(Clone, Debug)]
pub struct Invocation {
    pub contract_addr: String,
    pub msg: CounterMsg,
    pub funds: Vec<Coin>,
}

/// The operations of the calling contract.
#[derive(Clone, Debug)]
pub enum ExecuteMsg {
    Call { delta: U256, addr: String },
    DelegateCall { delta: U256, addr: String },
}

/// The read-only questions of a counter contract.
#[derive(Clone, Copy, Debug)]
pub enum QueryMsg {
    GetCounter,
}

/// The counter after adding `delta` to it; `None` where the counter is
/// absent or the sum does not fit in 256 bits.
pub open spec fn added(s: ContractStorage, delta: nat) -> Option<nat> {
    match s.counter {
        Some(c) => if c.value() + delta < u256_bound() {
            Some(c.value() + delta)
        } else {
            None
        },
        None => None,
    }
}

/// `result` is the storage that results from running the add instruction
/// on `s`: `s` itself where the add fails.
pub open spec fn after_add(s: ContractStorage, result: ContractStorage, delta: nat) -> bool {
    match added(s, delta) {
        Some(v) => result.counter.is_some() && result.counter.unwrap().value() == v,
        None => result == s,
    }
}

/// The wire form of the add instruction: `{"add":{"delta":"<decimal>"}}`.
pub open spec fn add_payload(delta: nat) -> Seq<char> {
    "{\"add\":{\"delta\":\""@ + decimal(delta) + "\"}}"@
}

/// The line logged for what a dispatched invocation returned.
pub open spec fn outcome_log(r: Result<Response, ContractError>) -> Seq<char> {
    match r {
        Ok(_) => "ok"@,
        Err(e) => "this is contract err "@ + error_name(e),
    }
}

impl CounterMsg {
    /// The message as the text that travels to the target contract.
    pub fn encode(&self) -> (r: String)
        ensures
            match *self {
                CounterMsg::Add { delta } => r@ == add_payload(delta.value()),
            },
    {
        match self {
            CounterMsg::Add { delta } => {
                let mut s = String::from_str("{\"add\":{\"delta\":\"");
                let digits = delta.to_decimal();
                s.append(digits.as_str());
                s.append("\"}}");
                s
            },
        }
    }
}

/// Sets up a counter contract: its counter starts at zero.
pub fn instantiate(deps: &mut ContractDeps) -> (r: Result<Response, ContractError>)
    ensures
        final(deps).storage.counter.is_some(),
        final(deps).storage.counter.unwrap().value() == 0,
        final(deps).debug_log == old(deps).debug_log,
        r.is_ok() && r.unwrap().is_empty(),
{
    deps.storage.counter = Some(U256::zero());
    Ok(Response::new())
}

/// The code of a counter contract, run against the storage `ctx` that the
/// host binds: its own storage for an isolated call, the caller's for a
/// delegated one.
pub fn counter_execute(ctx: &mut ContractStorage, msg: &CounterMsg) -> (r: Result<
    Response,
    ContractError,
>)
    ensures
        match *msg {
            CounterMsg::Add { delta } => {
                &&& after_add(*old(ctx), *final(ctx), delta.value())
                &&& old(ctx).counter.is_none() ==> r == Err::<Response, ContractError>(
                    ContractError::NotFound,
                )
                &&& old(ctx).counter.is_some() && added(*old(ctx), delta.value()).is_none() ==> r
                    == Err::<Response, ContractError>(ContractError::Overflow)
                &&& added(*old(ctx), delta.value()).is_some() ==> r.is_ok() && r.unwrap().is_empty()
            },
        },
{
    match msg {
        CounterMsg::Add { delta } => {
            match ctx.counter {
                None => Err(ContractError::NotFound),
                Some(c) => match c.checked_add(delta) {
                    Some(n) => {
                        ctx.counter = Some(n);
                        Ok(Response::new())
                    },
                    None => Err(ContractError::Overflow),
                },
            }
        },
    }
}

/// The request to add `delta` to the counter of `callee_addr`, with no funds.
pub fn add_invocation(delta: U256, callee_addr: String) -> (r: Invocation)
    ensures
        r.contract_addr == callee_addr,
        r.msg == (CounterMsg::Add { delta }),
        r.funds@.len() == 0,
{
    Invocation { contract_addr: callee_addr, msg: CounterMsg::Add { delta }, funds: Vec::new() }
}

/// The line to log for a dispatched invocation's result.
pub fn describe_outcome(r: &Result<Response, ContractError>) -> (s: String)
    ensures
        s@ == outcome_log(*r),
{
    match r {
        Ok(_) => String::from_str("ok"),
        Err(e) => {
            let mut s = String::from_str("this is contract err ");
            let n = e.name();
            s.append(n.as_str());
            s
        },
    }
}

/// Runs `inv` against the storage `ctx`.
fn dispatch(ctx: &mut ContractStorage, inv: &Invocation) -> (r: Result<Response, ContractError>)
    ensures
        match inv.msg {
            CounterMsg::Add { delta } => {
                &&& after_add(*old(ctx), *final(ctx), delta.value())
                &&& old(ctx).counter.is_none() ==> r == Err::<Response, ContractError>(
                    ContractError::NotFound,
                )
                &&& old(ctx).counter.is_some() && added(*old(ctx), delta.value()).is_none() ==> r
                    == Err::<Response, ContractError>(ContractError::Overflow)
                &&& added(*old(ctx), delta.value()).is_some() ==> r.is_ok() && r.unwrap().is_empty()
            },
        },
{
    counter_execute(ctx, &inv.msg)
}

/// Where the callee's code runs: against its own storage, or against the
/// caller's.
#[derive(Clone, Copy, PartialEq, Eq, Debug)]
pub enum CallMode {
    Isolated,
    Delegated,
}

/// What a failure of the callee does to the caller's operation: it is only
/// logged, or it fails the operation with `ExecutionFailed`.
#[derive(Clone, Copy, PartialEq, Eq, Debug)]
pub enum FailurePolicy {
    LogAndContinue,
    Propagate,
}

/// The line logged after adding `delta` to the counter in `s`.
pub open spec fn add_log(s: ContractStorage, delta: nat) -> Seq<char> {
    if s.counter.is_none() {
        outcome_log(Err(ContractError::NotFound))
    } else if added(s, delta).is_none() {
        outcome_log(Err(ContractError::Overflow))
    } else {
        "ok"@
    }
}

/// The log after one more line.
pub open spec fn logged(pre: ContractDeps, post: ContractDeps, line: Seq<char>) -> bool {
    &&& post.debug_log@.len() == pre.debug_log@.len() + 1
    &&& forall|i: int| 0 <= i < pre.debug_log@.len() ==> #[trigger] post.debug_log@[i] == pre.debug_log@[i]
    &&& post.debug_log@.last()@ == line
}

/// Sends the add instruction to `callee_addr` in the given mode and logs the
/// callee's result. An isolated call runs the callee's code against
/// `callee`, its own storage, and leaves the caller's storage as it is. A
/// delegated call runs it against the caller's storage, so what it writes
/// lands in the caller's state, and leaves `callee` as it is: the caller
/// grants the callee's code full access to its storage.
pub fn invoke(
    deps: &mut ContractDeps,
    callee: &mut ContractStorage,
    delta: U256,
    callee_addr: String,
    mode: CallMode,
    policy: FailurePolicy,
) -> (r: Result<Response, ContractError>)
    ensures
        mode == CallMode::Isolated ==> final(deps).storage == old(deps).storage && after_add(
            *old(callee),
            *final(callee),
            delta.value(),
        ) && logged(*old(deps), *final(deps), add_log(*old(callee), delta.value())),
        mode == CallMode::Delegated ==> *final(callee) == *old(callee) && after_add(
            old(deps).storage,
            final(deps).storage,
            delta.value(),
        ) && logged(*old(deps), *final(deps), add_log(old(deps).storage, delta.value())),
        ({
            let target = if mode == CallMode::Isolated {
                *old(callee)
            } else {
                old(deps).storage
            };
            if policy == FailurePolicy::Propagate && added(target, delta.value()).is_none() {
                r == Err::<Response, ContractError>(ContractError::ExecutionFailed)
            } else {
                r.is_ok() && r.unwrap().is_empty()
            }
        }),
{
    let inv = add_invocation(delta, callee_addr);
    let result = match mode {
        CallMode::Isolated => dispatch(callee, &inv),
        CallMode::Delegated => dispatch(&mut deps.storage, &inv),
    };
    let line = describe_outcome(&result);
    deps.debug_log.push(line);
    match policy {
        FailurePolicy::Propagate => match result {
            Ok(_) => Ok(Response::new()),
            Err(_) => Err(ContractError::ExecutionFailed),
        },
        FailurePolicy::LogAndContinue => Ok(Response::new()),
    }
}

/// Isolated call: the callee's code runs against the callee's own storage.
/// The caller's storage is untouched; the callee's result is logged, not
/// passed on.
pub fn call(deps: &mut ContractDeps, callee: &mut ContractStorage, delta: U256, callee_addr: String) -> (r: Result<
    Response,
    ContractError,
>)
    ensures
        final(deps).storage == old(deps).storage,
        after_add(*old(callee), *final(callee), delta.value()),
        logged(*old(deps), *final(deps), add_log(*old(callee), delta.value())),
        r.is_ok() && r.unwrap().is_empty(),
{
    invoke(deps, callee, delta, callee_addr, CallMode::Isolated, FailurePolicy::LogAndContinue)
}

/// Delegated call: the callee's code runs against the caller's storage, so
/// what it writes lands in the caller's state; the callee's own storage is
/// not passed and cannot change. The callee's result is logged, not passed on.
pub fn del_call(deps: &mut ContractDeps, delta: U256, callee_addr: String) -> (r: Result<
    Response,
    ContractError,
>)
    ensures
        after_add(old(deps).storage, final(deps).storage, delta.value()),
        logged(*old(deps), *final(deps), add_log(old(deps).storage, delta.value())),
        r.is_ok() && r.unwrap().is_empty(),
{
    let mut own = ContractStorage { counter: None };
    invoke(deps, &mut own, delta, callee_addr, CallMode::Delegated, FailurePolicy::LogAndContinue)
}

/// Routes a caller operation: `Call` to `call` against `callee`,
/// `DelegateCall` to `del_call` (which leaves `callee` as it is).
pub fn execute(deps: &mut ContractDeps, callee: &mut ContractStorage, msg: ExecuteMsg) -> (r: Result<
    Response,
    ContractError,
>)
    ensures
        r.is_ok() && r.unwrap().is_empty(),
        match msg {
            ExecuteMsg::Call { delta, addr } => final(deps).storage == old(deps).storage
                && after_add(*old(callee), *final(callee), delta.value()) && logged(
                *old(deps),
                *final(deps),
                add_log(*old(callee), delta.value()),
            ),
            ExecuteMsg::DelegateCall { delta, addr } => *final(callee) == *old(callee)
                && after_add(old(deps).storage, final(deps).storage, delta.value()) && logged(
                *old(deps),
                *final(deps),
                add_log(old(deps).storage, delta.value()),
            ),
        },
{
    match msg {
        ExecuteMsg::Call { delta, addr } => call(deps, callee, delta, addr),
        ExecuteMsg::DelegateCall { delta, addr } => del_call(deps, delta, addr),
    }
}

/// The counter, or `NotFound` where the contract was never instantiated.
pub fn query_counter(storage: &ContractStorage) -> (r: Result<U256, ContractError>)
    ensures
        storage.counter.is_some() ==> r == Ok::<U256, ContractError>(storage.counter.unwrap()),
        storage.counter.is_none() ==> r == Err::<U256, ContractError>(ContractError::NotFound),
{
    match storage.counter {
        Some(c) => Ok(c),
        None => Err(ContractError::NotFound),
    }
}

/// Answers a query with the counter as JSON text: its decimal notation in
/// quotes.
pub fn query(storage: &ContractStorage, msg: QueryMsg) -> (r: Result<String, ContractError>)
    ensures
        storage.counter.is_some() ==> r.is_ok() && r.unwrap()@ == "\""@ + decimal(
            storage.counter.unwrap().value(),
        ) + "\""@,
        storage.counter.is_none() ==> r == Err::<String, ContractError>(ContractError::NotFound),
{
    match msg {
        QueryMsg::GetCounter => {
            let c = query_counter(storage)?;
            let mut s = String::from_str("\"");
            let digits = c.to_decimal();
            s.append(digits.as_str());
            s.append("\"");
            Ok(s)
        },
    }
}

/// An upgrade leaves the storage as it is.
pub fn migrate(deps: &mut ContractDeps) -> (r: Result<Response, ContractError>)
    ensures
        final(deps).storage == old(deps).storage,
        final(deps).debug_log == old(deps).debug_log,
        r.is_ok() && r.unwrap().is_empty(),
{
    Ok(Response::new())
}

/// A delegated add and an isolated add with the same delta land in different
/// storages: the delegated one raises the caller's counter by `delta` and
/// leaves the target's as it was; the isolated one leaves the caller's as it
/// was and raises the target's by `delta`.
pub proof fn lemma_call_attribution(
    caller: ContractStorage,
    target: ContractStorage,
    caller_after_delegated: ContractStorage,
    target_after_isolated: ContractStorage,
    delta: nat,
)
    requires
        caller.counter.is_some(),
        target.counter.is_some(),
        caller.counter.unwrap().value() + delta < u256_bound(),
        target.counter.unwrap().value() + delta < u256_bound(),
        after_add(caller, caller_after_delegated, delta),
        after_add(target, target_after_isolated, delta),
    ensures
        caller_after_delegated.counter.unwrap().value() == caller.counter.unwrap().value() + delta,
        target_after_isolated.counter.unwrap().value() == target.counter.unwrap().value() + delta,
{
}

} // verus!
