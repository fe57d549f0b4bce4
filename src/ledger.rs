use vstd::prelude::*;

use crate::msg::{
    AllowanceResponse, BalanceResponse, CallToEvmMsg, ContractError, ExecuteMsg, InitialBalance,
    InstantiateMsg, OutgoingMsg, QueryMsg, QueryResponse, Response, SendToEvmMsg,
};
use crate::table::{
    amount_of, keys_unique, lemma_amount_absent, lemma_amount_at, lemma_amount_le_sum,
    lemma_amount_push, lemma_amount_update, lemma_sum_push, lemma_sum_update,
    lemma_two_amounts_le_sum, sum_amounts,
};

verus! {

/// The state of a token ledger: metadata, the account allowed to mint,
/// per-account balances and per-(owner, spender) allowances.
#[derive(Clone, Debug)]
pub struct Ledger {
    name: String,
    symbol: String,
    decimals: u8,
    minter: String,
    total_supply: u128,
    balances: Vec<(String, u128)>,
    allowances: Vec<((String, String), u128)>,
}

/// Every balance of `post` is that of `pre` after `amount` moved from `from`
/// to `to` (nothing moves where the two are the same account).
pub open spec fn moved(pre: Ledger, post: Ledger, from: Seq<char>, to: Seq<char>, amount: nat) -> bool {
    forall|a: Seq<char>|
        #[trigger] post.balance(a) == if from == to {
            pre.balance(a)
        } else if a == from {
            (pre.balance(a) - amount) as nat
        } else if a == to {
            pre.balance(a) + amount
        } else {
            pre.balance(a)
        }
}

/// Every balance of `post` is that of `pre`, but `holder`'s, which is `v`.
pub open spec fn one_balance_set(pre: Ledger, post: Ledger, holder: Seq<char>, v: nat) -> bool {
    forall|a: Seq<char>|
        #[trigger] post.balance(a) == if a == holder {
            v
        } else {
            pre.balance(a)
        }
}

/// What `transfer(sender, recipient, amount)` does: it fails with
/// `InsufficientFunds`, changing nothing, where the sender holds less than
/// `amount`; otherwise it moves `amount` and keeps the supply.
pub open spec fn transfer_outcome(
    pre: Ledger,
    post: Ledger,
    r: Result<Response, ContractError>,
    sender: Seq<char>,
    recipient: Seq<char>,
    amount: nat,
) -> bool {
    if pre.balance(sender) < amount {
        r == Err::<Response, ContractError>(ContractError::InsufficientFunds) && post == pre
    } else {
        &&& r.is_ok() && r.unwrap().is_empty()
        &&& moved(pre, post, sender, recipient, amount)
        &&& post.same_allowances(&pre)
        &&& post.same_metadata(&pre)
        &&& post.supply() == pre.supply()
    }
}

/// What `transfer_from(caller, owner, recipient, amount)` does: it fails with
/// `InsufficientAllowance` where the caller may move less than `amount` out of
/// the owner's balance, else with `InsufficientFunds` where the owner holds
/// less, changing nothing either way; otherwise it lowers that allowance by
/// `amount`, moves `amount` from the owner to the recipient and keeps the
/// supply.
pub open spec fn transfer_from_outcome(
    pre: Ledger,
    post: Ledger,
    r: Result<Response, ContractError>,
    caller: Seq<char>,
    owner: Seq<char>,
    recipient: Seq<char>,
    amount: nat,
) -> bool {
    if pre.allowance(owner, caller) < amount {
        r == Err::<Response, ContractError>(ContractError::InsufficientAllowance) && post == pre
    } else if pre.balance(owner) < amount {
        r == Err::<Response, ContractError>(ContractError::InsufficientFunds) && post == pre
    } else {
        &&& r.is_ok() && r.unwrap().is_empty()
        &&& moved(pre, post, owner, recipient, amount)
        &&& forall|o: Seq<char>, s: Seq<char>|
            #[trigger] post.allowance(o, s) == if o == owner && s == caller {
                (pre.allowance(o, s) - amount) as nat
            } else {
                pre.allowance(o, s)
            }
        &&& post.same_metadata(&pre)
        &&& post.supply() == pre.supply()
    }
}

/// What `approve(owner, spender, amount)` does: the allowance becomes
/// `amount`, whatever it was; nothing else changes.
pub open spec fn approve_outcome(
    pre: Ledger,
    post: Ledger,
    r: Result<Response, ContractError>,
    owner: Seq<char>,
    spender: Seq<char>,
    amount: nat,
) -> bool {
    &&& r.is_ok() && r.unwrap().is_empty()
    &&& forall|o: Seq<char>, s: Seq<char>|
        #[trigger] post.allowance(o, s) == if o == owner && s == spender {
            amount
        } else {
            pre.allowance(o, s)
        }
    &&& post.same_balances(&pre)
    &&& post.same_metadata(&pre)
    &&& post.supply() == pre.supply()
}

/// What `mint(caller, recipient, amount)` does: `Unauthorized` where the
/// caller is not the minter, else `Overflow` where the supply would pass
/// `u128::MAX`, changing nothing either way; otherwise the recipient's balance
/// and the supply grow by `amount`.
pub open spec fn mint_outcome(
    pre: Ledger,
    post: Ledger,
    r: Result<Response, ContractError>,
    caller: Seq<char>,
    recipient: Seq<char>,
    amount: nat,
) -> bool {
    if caller != pre.spec_minter() {
        r == Err::<Response, ContractError>(ContractError::Unauthorized) && post == pre
    } else if pre.supply() + amount > u128::MAX {
        r == Err::<Response, ContractError>(ContractError::Overflow) && post == pre
    } else {
        &&& r.is_ok() && r.unwrap().is_empty()
        &&& one_balance_set(pre, post, recipient, pre.balance(recipient) + amount)
        &&& post.same_allowances(&pre)
        &&& post.same_metadata(&pre)
        &&& post.supply() == pre.supply() + amount
    }
}

/// Where `holder` holds at least `amount`: the holder's balance and the
/// supply shrink by `amount`, and nothing else changes.
pub open spec fn debited(pre: Ledger, post: Ledger, holder: Seq<char>, amount: nat) -> bool {
    &&& one_balance_set(pre, post, holder, (pre.balance(holder) - amount) as nat)
    &&& post.same_allowances(&pre)
    &&& post.same_metadata(&pre)
    &&& post.supply() + amount == pre.supply()
}

/// What `burn(holder, amount)` does: `InsufficientFunds`, changing nothing,
/// where the holder holds less than `amount`; otherwise it debits `amount`.
pub open spec fn burn_outcome(
    pre: Ledger,
    post: Ledger,
    r: Result<Response, ContractError>,
    holder: Seq<char>,
    amount: nat,
) -> bool {
    if pre.balance(holder) < amount {
        r == Err::<Response, ContractError>(ContractError::InsufficientFunds) && post == pre
    } else {
        r.is_ok() && r.unwrap().is_empty() && debited(pre, post, holder, amount)
    }
}

/// What a bridge-out does: it fails as `burn` does; otherwise it debits
/// `amount` and hands out exactly the one message `m`.
pub open spec fn bridge_outcome(
    pre: Ledger,
    post: Ledger,
    r: Result<Response, ContractError>,
    holder: Seq<char>,
    amount: nat,
    m: OutgoingMsg,
) -> bool {
    if pre.balance(holder) < amount {
        r == Err::<Response, ContractError>(ContractError::InsufficientFunds) && post == pre
    } else {
        &&& r.is_ok()
        &&& r.unwrap().messages@ == seq![m]
        &&& r.unwrap().attributes@.len() == 0
        &&& r.unwrap().data.is_none()
        &&& debited(pre, post, holder, amount)
    }
}

/// The sum of the amounts in a list of initial balances.
pub open spec fn initial_total(s: Seq<InitialBalance>) -> nat
    decreases s.len(),
{
    if s.len() == 0 {
        0
    } else {
        initial_total(s.drop_last()) + s.last().amount as nat
    }
}

/// The sum of the amounts listed for `a`.
pub open spec fn initial_amount(s: Seq<InitialBalance>, a: Seq<char>) -> nat
    decreases s.len(),
{
    if s.len() == 0 {
        0
    } else {
        initial_amount(s.drop_last(), a) + if s.last().address@ == a {
            s.last().amount as nat
        } else {
            0
        }
    }
}

proof fn lemma_prefix_total_le(s: Seq<InitialBalance>, i: int)
    requires
        0 <= i <= s.len(),
    ensures
        initial_total(s.take(i)) <= initial_total(s),
    decreases s.len() - i,
{
    if i < s.len() {
        lemma_prefix_total_le(s, i + 1);
        assert(s.take(i + 1).drop_last() =~= s.take(i));
    } else {
        assert(s.take(i) =~= s);
    }
}

impl Ledger {
    /// Balances and allowances have one entry per key at most, and the total
    /// supply is the sum of all balances.
    pub closed spec fn wf(&self) -> bool {
        &&& keys_unique(self.balances@)
        &&& keys_unique(self.allowances@)
        &&& sum_amounts(self.balances@) == self.total_supply as nat
    }

    /// The balance of account `a`; zero for an account never written.
    pub closed spec fn balance(&self, a: Seq<char>) -> nat {
        amount_of(self.balances@, a)
    }

    /// What `spender` may still move out of `owner`'s balance.
    pub closed spec fn allowance(&self, owner: Seq<char>, spender: Seq<char>) -> nat {
        amount_of(self.allowances@, (owner, spender))
    }

    /// The sum of all balances.
    pub closed spec fn supply(&self) -> nat {
        sum_amounts(self.balances@)
    }

    pub closed spec fn spec_name(&self) -> Seq<char> {
        self.name@
    }

    pub closed spec fn spec_symbol(&self) -> Seq<char> {
        self.symbol@
    }

    pub closed spec fn spec_decimals(&self) -> u8 {
        self.decimals
    }

    pub closed spec fn spec_minter(&self) -> Seq<char> {
        self.minter@
    }

    /// Metadata and minter agree.
    pub open spec fn same_metadata(&self, other: &Ledger) -> bool {
        &&& self.spec_name() == other.spec_name()
        &&& self.spec_symbol() == other.spec_symbol()
        &&& self.spec_decimals() == other.spec_decimals()
        &&& self.spec_minter() == other.spec_minter()
    }

    /// Every allowance agrees.
    pub open spec fn same_allowances(&self, other: &Ledger) -> bool {
        forall|o: Seq<char>, s: Seq<char>| #[trigger] self.allowance(o, s) == other.allowance(o, s)
    }

    /// Every balance agrees.
    pub open spec fn same_balances(&self, other: &Ledger) -> bool {
        forall|a: Seq<char>| #[trigger] self.balance(a) == other.balance(a)
    }

    /// The balance of `a`.
    pub fn balance_of(&self, a: &String) -> (r: u128)
        requires
            self.wf(),
        ensures
            r as nat == self.balance(a@),
    {
        match self.find_balance(a) {
            Some(i) => {
                proof {
                    lemma_amount_at(self.balances@, i as int);
                }
                self.balances[i].1
            },
            None => {
                proof {
                    lemma_amount_absent(self.balances@, a@);
                }
                0
            },
        }
    }

    /// What `spender` may still move out of `owner`'s balance.
    pub fn allowance_of(&self, owner: &String, spender: &String) -> (r: u128)
        requires
            self.wf(),
        ensures
            r as nat == self.allowance(owner@, spender@),
    {
        match self.find_allowance(owner, spender) {
            Some(i) => {
                proof {
                    lemma_amount_at(self.allowances@, i as int);
                }
                self.allowances[i].1
            },
            None => {
                proof {
                    lemma_amount_absent(self.allowances@, (owner@, spender@));
                }
                0
            },
        }
    }

    /// The sum of all balances.
    pub fn total_supply(&self) -> (r: u128)
        requires
            self.wf(),
        ensures
            r as nat == self.supply(),
    {
        self.total_supply
    }

    pub fn name(&self) -> (r: &String)
        ensures
            r@ == self.spec_name(),
    {
        &self.name
    }

    pub fn symbol(&self) -> (r: &String)
        ensures
            r@ == self.spec_symbol(),
    {
        &self.symbol
    }

    pub fn decimals(&self) -> (r: u8)
        ensures
            r == self.spec_decimals(),
    {
        self.decimals
    }

    fn find_balance(&self, a: &String) -> (r: Option<usize>)
        ensures
            match r {
                Some(i) => i < self.balances@.len() && self.balances@[i as int].0@ == a@,
                None => forall|j: int|
                    0 <= j < self.balances@.len() ==> self.balances@[j].0@ != a@,
            },
    {
        let mut i: usize = 0;
        while i < self.balances.len()
            invariant
                i <= self.balances@.len(),
                forall|j: int| 0 <= j < i ==> self.balances@[j].0@ != a@,
            decreases self.balances@.len() - i,
        {
            if self.balances[i].0 == *a {
                return Some(i);
            }
            i = i + 1;
        }
        None
    }

    fn find_allowance(&self, owner: &String, spender: &String) -> (r: Option<usize>)
        ensures
            match r {
                Some(i) => i < self.allowances@.len() && self.allowances@[i as int].0@ == (
                owner@,
                spender@,
                ),
                None => forall|j: int|
                    0 <= j < self.allowances@.len() ==> self.allowances@[j].0@ != (
                    owner@,
                    spender@,
                    ),
            },
    {
        let mut i: usize = 0;
        while i < self.allowances.len()
            invariant
                i <= self.allowances@.len(),
                forall|j: int|
                    0 <= j < i ==> self.allowances@[j].0@ != (owner@, spender@),
            decreases self.allowances@.len() - i,
        {
            if self.allowances[i].0.0 == *owner && self.allowances[i].0.1 == *spender {
                return Some(i);
            }
            i = i + 1;
        }
        None
    }

    /// Writes the balance of `a`; the total supply field is left to the caller.
    fn set_balance(&mut self, a: &String, v: u128)
        requires
            keys_unique(old(self).balances@),
        ensures
            keys_unique(final(self).balances@),
            forall|b: Seq<char>|
                #[trigger] final(self).balance(b) == if b == a@ {
                    v as nat
                } else {
                    old(self).balance(b)
                },
            sum_amounts(final(self).balances@) + old(self).balance(a@) == sum_amounts(
                old(self).balances@,
            ) + v,
            final(self).allowances == old(self).allowances,
            final(self).total_supply == old(self).total_supply,
            final(self).name == old(self).name,
            final(self).symbol == old(self).symbol,
            final(self).decimals == old(self).decimals,
            final(self).minter == old(self).minter,
    {
        let e = (a.clone(), v);
        match self.find_balance(a) {
            Some(i) => {
                proof {
                    lemma_amount_at(self.balances@, i as int);
                    lemma_sum_update(self.balances@, i as int, e);
                    assert forall|b: Seq<char>|
                        #[trigger] amount_of(self.balances@.update(i as int, e), b) == if b
                            == a@ {
                            v as nat
                        } else {
                            amount_of(self.balances@, b)
                        } by {
                        lemma_amount_update(self.balances@, i as int, e, b);
                    }
                    lemma_amount_update(self.balances@, i as int, e, a@);
                }
                self.balances.set(i, e);
            },
            None => {
                proof {
                    lemma_amount_absent(self.balances@, a@);
                    lemma_sum_push(self.balances@, e);
                    assert forall|b: Seq<char>|
                        #[trigger] amount_of(self.balances@.push(e), b) == if b == a@ {
                            v as nat
                        } else {
                            amount_of(self.balances@, b)
                        } by {
                        lemma_amount_push(self.balances@, e, b);
                    }
                    lemma_amount_push(self.balances@, e, a@);
                }
                self.balances.push(e);
            },
        }
    }

    /// Writes the allowance of `spender` over `owner`'s balance.
    fn set_allowance(&mut self, owner: &String, spender: &String, v: u128)
        requires
            keys_unique(old(self).allowances@),
        ensures
            keys_unique(final(self).allowances@),
            forall|o: Seq<char>, s: Seq<char>|
                #[trigger] final(self).allowance(o, s) == if o == owner@ && s == spender@ {
                    v as nat
                } else {
                    old(self).allowance(o, s)
                },
            final(self).balances == old(self).balances,
            final(self).total_supply == old(self).total_supply,
            final(self).name == old(self).name,
            final(self).symbol == old(self).symbol,
            final(self).decimals == old(self).decimals,
            final(self).minter == old(self).minter,
    {
        let e = ((owner.clone(), spender.clone()), v);
        match self.find_allowance(owner, spender) {
            Some(i) => {
                proof {
                    assert forall|o: Seq<char>, s: Seq<char>|
                        #[trigger] amount_of(self.allowances@.update(i as int, e), (o, s)) == if o
                            == owner@ && s == spender@ {
                            v as nat
                        } else {
                            amount_of(self.allowances@, (o, s))
                        } by {
                        lemma_amount_update(self.allowances@, i as int, e, (o, s));
                    }
                    lemma_amount_update(self.allowances@, i as int, e, (owner@, spender@));
                }
                self.allowances.set(i, e);
            },
            None => {
                proof {
                    assert forall|o: Seq<char>, s: Seq<char>|
                        #[trigger] amount_of(self.allowances@.push(e), (o, s)) == if o == owner@
                            && s == spender@ {
                            v as nat
                        } else {
                            amount_of(self.allowances@, (o, s))
                        } by {
                        lemma_amount_push(self.allowances@, e, (o, s));
                    }
                    lemma_amount_push(self.allowances@, e, (owner@, spender@));
                }
                self.allowances.push(e);
            },
        }
    }

    /// Moves `amount` from `from` to `to`; the caller has checked the funds.
    fn move_funds(&mut self, from: &String, to: &String, amount: u128)
        requires
            old(self).wf(),
            old(self).balance(from@) >= amount,
        ensures
            final(self).wf(),
            moved(*old(self), *final(self), from@, to@, amount as nat),
            final(self).allowances == old(self).allowances,
            final(self).same_metadata(&*old(self)),
            final(self).supply() == old(self).supply(),
    {
        if *from == *to {
            return;
        }
        let from_bal = self.balance_of(from);
        let to_bal = self.balance_of(to);
        proof {
            lemma_two_amounts_le_sum(self.balances@, from@, to@);
        }
        self.set_balance(from, from_bal - amount);
        self.set_balance(to, to_bal + amount);
    }

    /// Takes `amount` out of `holder`'s balance and out of the supply; the
    /// caller has checked the funds.
    fn debit(&mut self, holder: &String, amount: u128)
        requires
            old(self).wf(),
            old(self).balance(holder@) >= amount,
        ensures
            final(self).wf(),
            debited(*old(self), *final(self), holder@, amount as nat),
    {
        let bal = self.balance_of(holder);
        proof {
            lemma_amount_le_sum(self.balances@, holder@);
        }
        self.total_supply = self.total_supply - amount;
        self.set_balance(holder, bal - amount);
    }

    /// Moves `amount` from `sender` to `recipient`.
    pub fn transfer(&mut self, sender: &String, recipient: &String, amount: u128) -> (r: Result<
        Response,
        ContractError,
    >)
        requires
            old(self).wf(),
        ensures
            final(self).wf(),
            transfer_outcome(*old(self), *final(self), r, sender@, recipient@, amount as nat),
    {
        let bal = self.balance_of(sender);
        if bal < amount {
            return Err(ContractError::InsufficientFunds);
        }
        self.move_funds(sender, recipient, amount);
        Ok(Response::new())
    }

    /// Moves `amount` from `owner` to `recipient` on behalf of `caller`,
    /// spending the caller's allowance.
    pub fn transfer_from(
        &mut self,
        caller: &String,
        owner: &String,
        recipient: &String,
        amount: u128,
    ) -> (r: Result<Response, ContractError>)
        requires
            old(self).wf(),
        ensures
            final(self).wf(),
            transfer_from_outcome(
                *old(self),
                *final(self),
                r,
                caller@,
                owner@,
                recipient@,
                amount as nat,
            ),
    {
        let allowed = self.allowance_of(owner, caller);
        if allowed < amount {
            return Err(ContractError::InsufficientAllowance);
        }
        let bal = self.balance_of(owner);
        if bal < amount {
            return Err(ContractError::InsufficientFunds);
        }
        self.set_allowance(owner, caller, allowed - amount);
        let ghost mid = *self;
        assert forall|a: Seq<char>| #[trigger] mid.balance(a) == old(self).balance(a) by {}
        self.move_funds(owner, recipient, amount);
        assert forall|o: Seq<char>, s: Seq<char>| #[trigger] self.allowance(o, s) == mid.allowance(o, s) by {}
        Ok(Response::new())
    }

    /// Sets what `spender` may move out of `owner`'s balance; the owner is
    /// the sender of the message, so only owners set their own allowances.
    pub fn approve(&mut self, owner: &String, spender: &String, amount: u128) -> (r: Result<
        Response,
        ContractError,
    >)
        requires
            old(self).wf(),
        ensures
            final(self).wf(),
            approve_outcome(*old(self), *final(self), r, owner@, spender@, amount as nat),
    {
        self.set_allowance(owner, spender, amount);
        Ok(Response::new())
    }

    /// Creates `amount` new tokens for `recipient`; only the minter may.
    pub fn mint(&mut self, caller: &String, recipient: &String, amount: u128) -> (r: Result<
        Response,
        ContractError,
    >)
        requires
            old(self).wf(),
        ensures
            final(self).wf(),
            mint_outcome(*old(self), *final(self), r, caller@, recipient@, amount as nat),
    {
        if !(*caller == self.minter) {
            return Err(ContractError::Unauthorized);
        }
        let total = match self.total_supply.checked_add(amount) {
            Some(t) => t,
            None => {
                return Err(ContractError::Overflow);
            },
        };
        let bal = self.balance_of(recipient);
        proof {
            lemma_amount_le_sum(self.balances@, recipient@);
        }
        self.total_supply = total;
        self.set_balance(recipient, bal + amount);
        Ok(Response::new())
    }

    /// Destroys `amount` of `holder`'s tokens.
    pub fn burn(&mut self, holder: &String, amount: u128) -> (r: Result<Response, ContractError>)
        requires
            old(self).wf(),
        ensures
            final(self).wf(),
            burn_outcome(*old(self), *final(self), r, holder@, amount as nat),
    {
        let bal = self.balance_of(holder);
        if bal < amount {
            return Err(ContractError::InsufficientFunds);
        }
        self.debit(holder, amount);
        Ok(Response::new())
    }

    /// Debits `amount` from `sender` and hands out a message that moves it to
    /// `recipient` through the EVM contract `evm_contract`.
    pub fn send_to_evm(
        &mut self,
        sender: String,
        evm_contract: String,
        recipient: String,
        amount: u128,
    ) -> (r: Result<Response, ContractError>)
        requires
            old(self).wf(),
        ensures
            final(self).wf(),
            bridge_outcome(
                *old(self),
                *final(self),
                r,
                sender@,
                amount as nat,
                OutgoingMsg::SendToEvm(
                    SendToEvmMsg { sender, contract: evm_contract, recipient, amount },
                ),
            ),
    {
        let bal = self.balance_of(&sender);
        if bal < amount {
            return Err(ContractError::InsufficientFunds);
        }
        self.debit(&sender, amount);
        let m = OutgoingMsg::SendToEvm(
            SendToEvmMsg { sender, contract: evm_contract, recipient, amount },
        );
        let mut resp = Response::new();
        resp.messages.push(m);
        proof {
            assert(resp.messages@ =~= seq![m]);
        }
        Ok(resp)
    }

    /// Debits `value` from `sender` and hands out a message that calls the
    /// EVM contract `evm_contract` with `calldata`, carrying `value`.
    pub fn call_to_evm(
        &mut self,
        sender: String,
        evm_contract: String,
        calldata: String,
        value: u128,
    ) -> (r: Result<Response, ContractError>)
        requires
            old(self).wf(),
        ensures
            final(self).wf(),
            bridge_outcome(
                *old(self),
                *final(self),
                r,
                sender@,
                value as nat,
                OutgoingMsg::CallToEvm(
                    CallToEvmMsg { sender, evmaddr: evm_contract, calldata, value },
                ),
            ),
    {
        let bal = self.balance_of(&sender);
        if bal < value {
            return Err(ContractError::InsufficientFunds);
        }
        self.debit(&sender, value);
        let m = OutgoingMsg::CallToEvm(
            CallToEvmMsg { sender, evmaddr: evm_contract, calldata, value },
        );
        let mut resp = Response::new();
        resp.messages.push(m);
        proof {
            assert(resp.messages@ =~= seq![m]);
        }
        Ok(resp)
    }

    /// Creates a ledger with the given metadata and minter, crediting each
    /// listed balance (an address listed twice gets both amounts). Fails with
    /// `Overflow` where the amounts sum past `u128::MAX`.
    pub fn instantiate(msg: InstantiateMsg, minter: String) -> (r: Result<Ledger, ContractError>)
        ensures
            initial_total(msg.initial_balances@) > u128::MAX ==> r == Err::<Ledger, ContractError>(
                ContractError::Overflow,
            ),
            initial_total(msg.initial_balances@) <= u128::MAX ==> r.is_ok(),
            r.is_ok() ==> {
                let l = r.unwrap();
                &&& l.wf()
                &&& l.spec_name() == msg.name@
                &&& l.spec_symbol() == msg.symbol@
                &&& l.spec_decimals() == msg.decimals
                &&& l.spec_minter() == minter@
                &&& l.supply() == initial_total(msg.initial_balances@)
                &&& forall|a: Seq<char>|
                    #[trigger] l.balance(a) == initial_amount(msg.initial_balances@, a)
                &&& forall|o: Seq<char>, s: Seq<char>| #[trigger] l.allowance(o, s) == 0
            },
    {
        let ghost listed = msg.initial_balances@;
        let InstantiateMsg { name, symbol, decimals, initial_balances: list } = msg;
        assert(list@ == listed);
        let mut ledger = Ledger {
            name,
            symbol,
            decimals,
            minter,
            total_supply: 0,
            balances: Vec::new(),
            allowances: Vec::new(),
        };
        let mut i: usize = 0;
        while i < list.len()
            invariant
                i <= list@.len(),
                list@ == listed,
                listed == msg.initial_balances@,
                ledger.wf(),
                ledger.name@ == msg.name@,
                ledger.symbol@ == msg.symbol@,
                ledger.decimals == msg.decimals,
                ledger.minter@ == minter@,
                ledger.allowances@.len() == 0,
                ledger.supply() == initial_total(list@.take(i as int)),
                forall|a: Seq<char>|
                    #[trigger] ledger.balance(a) == initial_amount(list@.take(i as int), a),
            decreases list@.len() - i,
        {
            let entry = &list[i];
            let ghost top = ledger;
            proof {
                assert(list@.take(i + 1).drop_last() =~= list@.take(i as int));
                assert(list@.take(i + 1).last() == list@[i as int]);
                assert(initial_total(list@.take(i + 1)) == initial_total(list@.take(i as int))
                    + entry.amount);
            }
            let total = match ledger.total_supply.checked_add(entry.amount) {
                Some(t) => t,
                None => {
                    proof {
                        lemma_prefix_total_le(list@, i + 1);
                    }
                    return Err(ContractError::Overflow);
                },
            };
            let bal = ledger.balance_of(&entry.address);
            proof {
                lemma_amount_le_sum(ledger.balances@, entry.address@);
            }
            ledger.total_supply = total;
            assert forall|a: Seq<char>| #[trigger] ledger.balance(a) == top.balance(a) by {}
            ledger.set_balance(&entry.address, bal + entry.amount);
            proof {
                assert forall|a: Seq<char>|
                    #[trigger] ledger.balance(a) == initial_amount(list@.take(i + 1), a) by {
                    assert(initial_amount(list@.take(i + 1), a) == initial_amount(
                        list@.take(i as int),
                        a,
                    ) + if entry.address@ == a {
                        entry.amount as nat
                    } else {
                        0
                    });
                }
            }
            i = i + 1;
        }
        proof {
            assert(list@.take(list@.len() as int) =~= list@);
            assert forall|o: Seq<char>, s: Seq<char>| #[trigger] ledger.allowance(o, s) == 0 by {}
        }
        Ok(ledger)
    }

    /// Runs the operation `msg` for its sender `sender`.
    pub fn execute(&mut self, sender: String, msg: ExecuteMsg) -> (r: Result<Response, ContractError>)
        requires
            old(self).wf(),
        ensures
            final(self).wf(),
            match msg {
                ExecuteMsg::Approve { spender, amount } => approve_outcome(
                    *old(self),
                    *final(self),
                    r,
                    sender@,
                    spender@,
                    amount as nat,
                ),
                ExecuteMsg::Transfer { recipient, amount } => transfer_outcome(
                    *old(self),
                    *final(self),
                    r,
                    sender@,
                    recipient@,
                    amount as nat,
                ),
                ExecuteMsg::TransferFrom { owner, recipient, amount } => transfer_from_outcome(
                    *old(self),
                    *final(self),
                    r,
                    sender@,
                    owner@,
                    recipient@,
                    amount as nat,
                ),
                ExecuteMsg::Burn { amount } => burn_outcome(
                    *old(self),
                    *final(self),
                    r,
                    sender@,
                    amount as nat,
                ),
                ExecuteMsg::MintCW20 { recipient, amount } => mint_outcome(
                    *old(self),
                    *final(self),
                    r,
                    sender@,
                    recipient@,
                    amount as nat,
                ),
                ExecuteMsg::SendToEvm { evm_contract, recipient, amount } => bridge_outcome(
                    *old(self),
                    *final(self),
                    r,
                    sender@,
                    amount as nat,
                    OutgoingMsg::SendToEvm(
                        SendToEvmMsg { sender, contract: evm_contract, recipient, amount },
                    ),
                ),
                ExecuteMsg::CallToEvm { evm_contract, calldata, value } => bridge_outcome(
                    *old(self),
                    *final(self),
                    r,
                    sender@,
                    value as nat,
                    OutgoingMsg::CallToEvm(
                        CallToEvmMsg { sender, evmaddr: evm_contract, calldata, value },
                    ),
                ),
            },
    {
        match msg {
            ExecuteMsg::Approve { spender, amount } => self.approve(&sender, &spender, amount),
            ExecuteMsg::Transfer { recipient, amount } => self.transfer(&sender, &recipient, amount),
            ExecuteMsg::TransferFrom { owner, recipient, amount } => self.transfer_from(
                &sender,
                &owner,
                &recipient,
                amount,
            ),
            ExecuteMsg::Burn { amount } => self.burn(&sender, amount),
            ExecuteMsg::MintCW20 { recipient, amount } => self.mint(&sender, &recipient, amount),
            ExecuteMsg::SendToEvm { evm_contract, recipient, amount } => self.send_to_evm(
                sender,
                evm_contract,
                recipient,
                amount,
            ),
            ExecuteMsg::CallToEvm { evm_contract, calldata, value } => self.call_to_evm(
                sender,
                evm_contract,
                calldata,
                value,
            ),
        }
    }

    /// Answers a balance or allowance query; nothing changes.
    pub fn query(&self, msg: &QueryMsg) -> (r: QueryResponse)
        requires
            self.wf(),
        ensures
            match *msg {
                QueryMsg::Balance { address } => r == QueryResponse::Balance(
                    BalanceResponse { balance: r->Balance_0.balance },
                ) && r->Balance_0.balance as nat == self.balance(address@),
                QueryMsg::Allowance { owner, spender } => r == QueryResponse::Allowance(
                    AllowanceResponse { allowance: r->Allowance_0.allowance },
                ) && r->Allowance_0.allowance as nat == self.allowance(owner@, spender@),
            },
    {
        match msg {
            QueryMsg::Balance { address } => QueryResponse::Balance(
                BalanceResponse { balance: self.balance_of(address) },
            ),
            QueryMsg::Allowance { owner, spender } => QueryResponse::Allowance(
                AllowanceResponse { allowance: self.allowance_of(owner, spender) },
            ),
        }
    }
}

/// One value-moving step on a ledger, as its arguments.
pub ghost enum TransferStep {
    Transfer { sender: Seq<char>, recipient: Seq<char>, amount: nat },
    TransferFrom { caller: Seq<char>, owner: Seq<char>, recipient: Seq<char>, amount: nat },
}

/// `post` and `r` are what the step does to `pre`.
pub open spec fn step_outcome(
    pre: Ledger,
    post: Ledger,
    r: Result<Response, ContractError>,
    step: TransferStep,
) -> bool {
    match step {
        TransferStep::Transfer { sender, recipient, amount } => transfer_outcome(
            pre,
            post,
            r,
            sender,
            recipient,
            amount,
        ),
        TransferStep::TransferFrom { caller, owner, recipient, amount } => transfer_from_outcome(
            pre,
            post,
            r,
            caller,
            owner,
            recipient,
            amount,
        ),
    }
}

/// Along any run of transfers and delegated transfers, each of which may
/// succeed or fail, the sum of all balances stays what it was.
pub proof fn lemma_transfers_conserve_supply(
    states: Seq<Ledger>,
    results: Seq<Result<Response, ContractError>>,
    steps: Seq<TransferStep>,
)
    requires
        states.len() == steps.len() + 1,
        results.len() == steps.len(),
        forall|i: int|
            0 <= i < steps.len() ==> #[trigger] step_outcome(
                states[i],
                states[i + 1],
                results[i],
                steps[i],
            ),
    ensures
        states.last().supply() == states[0].supply(),
    decreases steps.len(),
{
    if steps.len() > 0 {
        let n = steps.len() - 1;
        lemma_transfers_conserve_supply(states.drop_last(), results.drop_last(), steps.drop_last());
        assert(step_outcome(states[n], states[n + 1], results[n], steps[n]));
    }
}

} // verus!
