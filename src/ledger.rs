//! The ledger state and its five operations. Each operation either succeeds
//! with exactly the stated effect or fails and leaves the state untouched.
use vstd::prelude::*;
use crate::arith::{safe_add, safe_sub, MAX_AMOUNT};
use crate::store::{AllowanceTable, BalanceTable, MinterSet};

verus! {

/// An already resolved and authenticated account identifier.
pub type AccountId = u64;

/// Why an operation was refused.
#[derive(Clone, Copy, Debug, PartialEq, Eq, Structural)]
pub enum Error {
    /// An addition on the receiving side would exceed the largest amount.
    StorageOverflow,
    /// The caller is not a minter.
    AccessControl,
    /// The paying account holds less than the amount.
    ERC20InsufficientBalance,
    /// The spender's allowance over the owner's balance is less than the amount.
    ERC20InsufficientAllowance,
}

/// A record of a completed change, for consumers of the event stream.
#[derive(Clone, Copy, Debug, PartialEq, Eq, Structural)]
pub enum Event {
    /// `value` moved from `from` to `to`.
    Transfer { from: AccountId, to: AccountId, value: u64 },
    /// `spender` may now move `value` out of `owner`'s balance.
    Approval { owner: AccountId, spender: AccountId, value: u64 },
}

/// A request to the ledger, made by an already authenticated caller.
#[derive(Clone, Copy, Debug, PartialEq, Eq, Structural)]
pub enum Call {
    /// Send `value` of the caller's balance to `to`.
    Transfer { to: AccountId, value: u64 },
    /// Move `value` from `from` to `to` under the caller's allowance over `from`.
    TransferFrom { from: AccountId, to: AccountId, value: u64 },
    /// Let `spender` move up to `value` out of the caller's balance.
    Approve { spender: AccountId, value: u64 },
    /// Create `value` new units in the caller's balance.
    Mint { value: u64 },
    /// Destroy `value` units of the caller's balance.
    Burn { value: u64 },
}

/// The ledger: balances, allowances, total supply, minters and the events emitted so far.
pub struct Pallet {
    minters: MinterSet,
    total_supply: u64,
    balances: BalanceTable,
    allowances: AllowanceTable,
    events: Vec<Event>,
}

/// The initial state of a ledger: who may mint.
pub struct GenesisConfig {
    pub minters: Vec<AccountId>,
}

impl GenesisConfig {
    /// An empty ledger whose minters are exactly `self.minters`.
    pub fn build(&self) -> (r: Pallet)
        ensures
            r.wf(),
            forall|a: AccountId| r.minter(a) <==> self.minters@.contains(a),
            forall|a: AccountId| r.balance(a) == 0,
            forall|o: AccountId, s: AccountId| r.allowance(o, s) == 0,
            r.supply() == 0,
            r.log() == Seq::<Event>::empty(),
    {
        Pallet {
            minters: MinterSet::from_accounts(&self.minters),
            total_supply: 0,
            balances: BalanceTable::new(),
            allowances: AllowanceTable::new(),
            events: Vec::new(),
        }
    }
}

/// What `a` holds after `value` moves from `from` to `to`; a move to oneself changes nothing.
pub open spec fn moved_balance(pre: Pallet, from: AccountId, to: AccountId, value: u64, a: AccountId) -> int {
    if from == to {
        pre.balance(a) as int
    } else if a == from {
        pre.balance(a) - value
    } else if a == to {
        pre.balance(a) + value
    } else {
        pre.balance(a) as int
    }
}

/// What an allowance becomes once `value` is spent from it: the unlimited one stays as it is.
pub open spec fn spent_allowance(current: u64, value: u64) -> int {
    if current == MAX_AMOUNT {
        current as int
    } else {
        current - value
    }
}

/// The outcome of moving `value` from `from` to `to`.
pub open spec fn transfer_result(pre: Pallet, from: AccountId, to: AccountId, value: u64) -> Result<(), Error> {
    if pre.balance(from) < value {
        Err(Error::ERC20InsufficientBalance)
    } else if from != to && pre.balance(to) + value > MAX_AMOUNT {
        Err(Error::StorageOverflow)
    } else {
        Ok(())
    }
}

/// The outcome of `spender` spending `value` of its allowance over `owner`'s balance.
pub open spec fn spend_result(pre: Pallet, owner: AccountId, spender: AccountId, value: u64) -> Result<(), Error> {
    if pre.allowance(owner, spender) != MAX_AMOUNT && pre.allowance(owner, spender) < value {
        Err(Error::ERC20InsufficientAllowance)
    } else {
        Ok(())
    }
}

/// The outcome of `spender` moving `value` from `from` to `to`: the allowance is checked first.
pub open spec fn transfer_from_result(pre: Pallet, spender: AccountId, from: AccountId, to: AccountId, value: u64) -> Result<(), Error> {
    if spend_result(pre, from, spender, value) is Err {
        spend_result(pre, from, spender, value)
    } else {
        transfer_result(pre, from, to, value)
    }
}

/// The outcome of creating `value` new units.
pub open spec fn mint_result(pre: Pallet, value: u64) -> Result<(), Error> {
    if pre.supply() + value > MAX_AMOUNT {
        Err(Error::StorageOverflow)
    } else {
        Ok(())
    }
}

/// The outcome of destroying `value` units of `from`'s balance.
pub open spec fn burn_result(pre: Pallet, from: AccountId, value: u64) -> Result<(), Error> {
    if pre.balance(from) < value {
        Err(Error::ERC20InsufficientBalance)
    } else {
        Ok(())
    }
}

/// Allowances, supply and minters are the same in both states.
pub open spec fn same_allowances_supply_minters(pre: Pallet, post: Pallet) -> bool {
    &&& forall|o: AccountId, s: AccountId| #[trigger] post.allowance(o, s) == pre.allowance(o, s)
    &&& post.supply() == pre.supply()
    &&& forall|a: AccountId| #[trigger] post.minter(a) == pre.minter(a)
}

/// Balances, supply and minters are the same in both states.
pub open spec fn same_balances_supply_minters(pre: Pallet, post: Pallet) -> bool {
    &&& forall|a: AccountId| #[trigger] post.balance(a) == pre.balance(a)
    &&& post.supply() == pre.supply()
    &&& forall|a: AccountId| #[trigger] post.minter(a) == pre.minter(a)
}

/// `post` is `pre` after `value` moved from `from` to `to`.
pub open spec fn transferred(pre: Pallet, post: Pallet, from: AccountId, to: AccountId, value: u64) -> bool {
    &&& forall|a: AccountId| #[trigger] post.balance(a) == moved_balance(pre, from, to, value, a)
    &&& same_allowances_supply_minters(pre, post)
    &&& post.log() == pre.log().push((Event::Transfer { from, to, value }))
}

/// `post` is `pre` after `owner` set `spender`'s allowance over its balance to `value`.
pub open spec fn approved(pre: Pallet, post: Pallet, owner: AccountId, spender: AccountId, value: u64) -> bool {
    &&& post.allowance(owner, spender) == value
    &&& forall|o: AccountId, s: AccountId|
        (o != owner || s != spender) ==> #[trigger] post.allowance(o, s) == pre.allowance(o, s)
    &&& same_balances_supply_minters(pre, post)
    &&& post.log() == pre.log().push((Event::Approval { owner, spender, value }))
}

/// The outcome of `caller` asking to create `value` new units: only minters may.
pub open spec fn mint_call_result(pre: Pallet, caller: AccountId, value: u64) -> Result<(), Error> {
    if !pre.minter(caller) {
        Err(Error::AccessControl)
    } else {
        mint_result(pre, value)
    }
}

/// `post` is `pre` after `spender` spent `value` of its allowance over `owner`'s balance.
pub open spec fn spent(pre: Pallet, post: Pallet, owner: AccountId, spender: AccountId, value: u64) -> bool {
    let current = pre.allowance(owner, spender);
    &&& post.allowance(owner, spender) == spent_allowance(current, value)
    &&& forall|o: AccountId, s: AccountId|
        (o != owner || s != spender) ==> #[trigger] post.allowance(o, s) == pre.allowance(o, s)
    &&& same_balances_supply_minters(pre, post)
    &&& post.log() == if current == MAX_AMOUNT {
        pre.log()
    } else {
        pre.log().push((Event::Approval { owner, spender, value: (current - value) as u64 }))
    }
}

/// `post` is `pre` after `spender` moved `value` from `from` to `to` under its allowance.
pub open spec fn transferred_from(pre: Pallet, post: Pallet, spender: AccountId, from: AccountId, to: AccountId, value: u64) -> bool {
    let current = pre.allowance(from, spender);
    &&& forall|a: AccountId| #[trigger] post.balance(a) == moved_balance(pre, from, to, value, a)
    &&& post.allowance(from, spender) == spent_allowance(current, value)
    &&& forall|o: AccountId, s: AccountId|
        (o != from || s != spender) ==> #[trigger] post.allowance(o, s) == pre.allowance(o, s)
    &&& post.supply() == pre.supply()
    &&& forall|a: AccountId| #[trigger] post.minter(a) == pre.minter(a)
    &&& post.log() == if current == MAX_AMOUNT {
        pre.log().push((Event::Transfer { from, to, value }))
    } else {
        pre.log().push((Event::Approval { owner: from, spender, value: (current - value) as u64 })).push(
            (Event::Transfer { from, to, value }),
        )
    }
}

/// `post` is `pre` after `a`'s balance and the supply changed by `delta`.
pub open spec fn supply_changed(pre: Pallet, post: Pallet, a: AccountId, delta: int) -> bool {
    &&& post.balance(a) == pre.balance(a) + delta
    &&& forall|b: AccountId| b != a ==> #[trigger] post.balance(b) == pre.balance(b)
    &&& post.supply() == pre.supply() + delta
    &&& forall|o: AccountId, s: AccountId| #[trigger] post.allowance(o, s) == pre.allowance(o, s)
    &&& forall|b: AccountId| #[trigger] post.minter(b) == pre.minter(b)
    &&& post.log() == pre.log()
}

impl Pallet {
    /// The tables are well formed and the supply is the sum of all balances.
    pub closed spec fn wf(&self) -> bool {
        &&& self.balances.wf()
        &&& self.allowances.wf()
        &&& self.total_supply as int == self.balances.total()
    }

    /// The balance of `a`; zero for an account never credited.
    pub closed spec fn balance(&self, a: AccountId) -> u64 {
        self.balances.amount(a)
    }

    /// How much `spender` may move out of `owner`'s balance; zero where never approved.
    pub closed spec fn allowance(&self, owner: AccountId, spender: AccountId) -> u64 {
        self.allowances.amount(owner, spender)
    }

    /// Whether `a` may mint.
    pub closed spec fn minter(&self, a: AccountId) -> bool {
        self.minters.has(a)
    }

    /// The running total of all units minted and not burned.
    pub closed spec fn supply(&self) -> u64 {
        self.total_supply
    }

    /// The sum of every account's balance.
    pub closed spec fn total_balance(&self) -> int {
        self.balances.total()
    }

    /// The events emitted so far, oldest first.
    pub closed spec fn log(&self) -> Seq<Event> {
        self.events@
    }

    /// In a well-formed ledger the supply is the sum of all balances.
    pub proof fn lemma_supply_is_total(&self)
        requires
            self.wf(),
        ensures
            self.supply() == self.total_balance(),
    {
    }

    /// The balance of `a`; zero for an account never credited.
    pub fn balance_of(&self, a: AccountId) -> (r: u64)
        requires
            self.wf(),
        ensures
            r == self.balance(a),
    {
        self.balances.get(a)
    }

    /// How much `spender` may move out of `owner`'s balance.
    pub fn allowances(&self, owner: AccountId, spender: AccountId) -> (r: u64)
        requires
            self.wf(),
        ensures
            r == self.allowance(owner, spender),
    {
        self.allowances.get(owner, spender)
    }

    /// The running total of all units minted and not burned.
    pub fn total_supply(&self) -> (r: u64)
        ensures
            r == self.supply(),
    {
        self.total_supply
    }

    /// Whether `a` may mint.
    pub fn is_minter(&self, a: AccountId) -> (r: bool)
        ensures
            r == self.minter(a),
    {
        self.minters.contains(a)
    }

    /// The events emitted so far, oldest first.
    pub fn events(&self) -> (r: &Vec<Event>)
        ensures
            r@ == self.log(),
    {
        &self.events
    }

    /// Moves `value` from `from` to `to` and records a Transfer event. A move to
    /// oneself succeeds whenever the balance covers it and changes no balance.
    pub fn _transfer(&mut self, from: AccountId, to: AccountId, value: u64) -> (r: Result<(), Error>)
        requires
            old(self).wf(),
        ensures
            final(self).wf(),
            r == transfer_result(*old(self), from, to, value),
            r is Ok ==> transferred(*old(self), *final(self), from, to, value),
            r is Ok ==> final(self).total_balance() == old(self).total_balance(),
            r is Ok && from == to ==> final(self).balance(from) == old(self).balance(from),
            r is Err ==> *final(self) == *old(self),
    {
        let from_balance = self.balances.get(from);
        let new_from = match safe_sub(from_balance, value) {
            Some(b) => b,
            None => return Err(Error::ERC20InsufficientBalance),
        };
        if from != to {
            let new_to = match safe_add(self.balances.get(to), value) {
                Some(b) => b,
                None => return Err(Error::StorageOverflow),
            };
            self.balances.set(from, new_from);
            self.balances.set(to, new_to);
        }
        self.events.push(Event::Transfer { from, to, value });
        Ok(())
    }

    /// Spends `value` of `spender`'s allowance over `owner`'s balance, recording
    /// the new allowance in an Approval event; the unlimited allowance is left as it is.
    pub fn _spend_allowance(&mut self, owner: AccountId, spender: AccountId, value: u64) -> (r: Result<(), Error>)
        requires
            old(self).wf(),
        ensures
            final(self).wf(),
            r == spend_result(*old(self), owner, spender, value),
            r is Ok ==> spent(*old(self), *final(self), owner, spender, value),
            r is Err ==> *final(self) == *old(self),
    {
        let current = self.allowances.get(owner, spender);
        if current != MAX_AMOUNT {
            let rest = match safe_sub(current, value) {
                Some(a) => a,
                None => return Err(Error::ERC20InsufficientAllowance),
            };
            self._approve(owner, spender, rest);
        }
        Ok(())
    }

    /// Sets `spender`'s allowance over `owner`'s balance to `value` and records an Approval event.
    pub fn _approve(&mut self, owner: AccountId, spender: AccountId, value: u64)
        requires
            old(self).wf(),
        ensures
            final(self).wf(),
            approved(*old(self), *final(self), owner, spender, value),
    {
        self.allowances.set(owner, spender, value);
        self.events.push(Event::Approval { owner, spender, value });
    }

    /// Credits `value` new units to `to` and raises the supply by as much.
    pub fn _mint(&mut self, to: AccountId, value: u64) -> (r: Result<(), Error>)
        requires
            old(self).wf(),
        ensures
            final(self).wf(),
            r == mint_result(*old(self), value),
            r is Ok ==> supply_changed(*old(self), *final(self), to, value as int),
            r is Err ==> *final(self) == *old(self),
    {
        let new_supply = match safe_add(self.total_supply, value) {
            Some(t) => t,
            None => return Err(Error::StorageOverflow),
        };
        proof {
            self.balances.lemma_amount_le_total(to);
        }
        let new_balance = match safe_add(self.balances.get(to), value) {
            Some(b) => b,
            None => return Err(Error::StorageOverflow),
        };
        self.balances.set(to, new_balance);
        self.total_supply = new_supply;
        Ok(())
    }

    /// Destroys `value` units of `from`'s balance and lowers the supply by as much.
    pub fn _burn(&mut self, from: AccountId, value: u64) -> (r: Result<(), Error>)
        requires
            old(self).wf(),
        ensures
            final(self).wf(),
            r == burn_result(*old(self), from, value),
            r is Ok ==> supply_changed(*old(self), *final(self), from, -(value as int)),
            r is Err ==> *final(self) == *old(self),
    {
        let new_balance = match safe_sub(self.balances.get(from), value) {
            Some(b) => b,
            None => return Err(Error::ERC20InsufficientBalance),
        };
        proof {
            self.balances.lemma_amount_le_total(from);
        }
        let new_supply = match safe_sub(self.total_supply, value) {
            Some(t) => t,
            None => return Err(Error::ERC20InsufficientBalance),
        };
        self.balances.set(from, new_balance);
        self.total_supply = new_supply;
        Ok(())
    }

    /// Whether moving `value` from `from` to `to` would succeed, without moving it.
    fn transfer_check(&self, from: AccountId, to: AccountId, value: u64) -> (r: Result<(), Error>)
        requires
            self.wf(),
        ensures
            r == transfer_result(*self, from, to, value),
    {
        if safe_sub(self.balances.get(from), value).is_none() {
            Err(Error::ERC20InsufficientBalance)
        } else if from != to && safe_add(self.balances.get(to), value).is_none() {
            Err(Error::StorageOverflow)
        } else {
            Ok(())
        }
    }

    /// Whether spending `value` of `spender`'s allowance over `owner`'s balance would succeed.
    fn spend_check(&self, owner: AccountId, spender: AccountId, value: u64) -> (r: Result<(), Error>)
        requires
            self.wf(),
        ensures
            r == spend_result(*self, owner, spender, value),
    {
        let current = self.allowances.get(owner, spender);
        if current != MAX_AMOUNT && safe_sub(current, value).is_none() {
            Err(Error::ERC20InsufficientAllowance)
        } else {
            Ok(())
        }
    }

    /// `caller` sends `value` of its own balance to `to`.
    pub fn transfer(&mut self, caller: AccountId, to: AccountId, value: u64) -> (r: Result<(), Error>)
        requires
            old(self).wf(),
        ensures
            final(self).wf(),
            r == transfer_result(*old(self), caller, to, value),
            r is Ok ==> transferred(*old(self), *final(self), caller, to, value),
            r is Ok ==> final(self).total_balance() == old(self).total_balance(),
            r is Ok && caller == to ==> final(self).balance(caller) == old(self).balance(caller),
            r is Err ==> *final(self) == *old(self),
    {
        self._transfer(caller, to, value)
    }

    /// `caller` moves `value` from `from` to `to`, spending its allowance over
    /// `from`'s balance. The allowance is checked before the balances; on any
    /// failure nothing changes.
    pub fn transfer_from(&mut self, caller: AccountId, from: AccountId, to: AccountId, value: u64) -> (r: Result<(), Error>)
        requires
            old(self).wf(),
        ensures
            final(self).wf(),
            r == transfer_from_result(*old(self), caller, from, to, value),
            r is Ok ==> transferred_from(*old(self), *final(self), caller, from, to, value),
            r is Ok ==> final(self).total_balance() == old(self).total_balance(),
            r is Err ==> *final(self) == *old(self),
    {
        let spend = self.spend_check(from, caller, value);
        if spend.is_err() {
            return spend;
        }
        let moved = self.transfer_check(from, to, value);
        if moved.is_err() {
            return moved;
        }
        let ghost pre = *self;
        let _ = self._spend_allowance(from, caller, value);
        let ghost mid = *self;
        assert(transfer_result(mid, from, to, value) == transfer_result(pre, from, to, value)) by {
            assert(mid.balance(from) == pre.balance(from));
            assert(mid.balance(to) == pre.balance(to));
        }
        let _ = self._transfer(from, to, value);
        proof {
            assert forall|a: AccountId| #[trigger] self.balance(a) == moved_balance(pre, from, to, value, a) by {
                assert(self.balance(a) == moved_balance(mid, from, to, value, a));
                assert(mid.balance(a) == pre.balance(a));
                assert(mid.balance(from) == pre.balance(from));
                assert(mid.balance(to) == pre.balance(to));
            }
            assert(self.allowance(from, caller) == mid.allowance(from, caller));
            assert forall|o: AccountId, s: AccountId|
                (o != from || s != caller) implies #[trigger] self.allowance(o, s) == pre.allowance(o, s) by {
                assert(self.allowance(o, s) == mid.allowance(o, s));
            }
            assert forall|a: AccountId| #[trigger] self.minter(a) == pre.minter(a) by {
                assert(self.minter(a) == mid.minter(a));
            }
        }
        Ok(())
    }

    /// `caller` lets `spender` move up to `value` out of its balance; always succeeds.
    pub fn approve(&mut self, caller: AccountId, spender: AccountId, value: u64) -> (r: Result<(), Error>)
        requires
            old(self).wf(),
        ensures
            final(self).wf(),
            r is Ok,
            approved(*old(self), *final(self), caller, spender, value),
    {
        self._approve(caller, spender, value);
        Ok(())
    }

    /// A minter `caller` creates `value` new units in its own balance. Anyone
    /// else is refused, whatever the amount, and nothing changes.
    pub fn mint(&mut self, caller: AccountId, value: u64) -> (r: Result<(), Error>)
        requires
            old(self).wf(),
        ensures
            final(self).wf(),
            r == mint_call_result(*old(self), caller, value),
            r is Ok ==> supply_changed(*old(self), *final(self), caller, value as int),
            r is Err ==> *final(self) == *old(self),
    {
        if !self.minters.contains(caller) {
            return Err(Error::AccessControl);
        }
        self._mint(caller, value)
    }

    /// `caller` destroys `value` units of its own balance.
    pub fn burn(&mut self, caller: AccountId, value: u64) -> (r: Result<(), Error>)
        requires
            old(self).wf(),
        ensures
            final(self).wf(),
            r == burn_result(*old(self), caller, value),
            r is Ok ==> supply_changed(*old(self), *final(self), caller, -(value as int)),
            r is Err ==> *final(self) == *old(self),
    {
        self._burn(caller, value)
    }

    /// Runs `call` on behalf of `caller`: the same outcome and effect as the operation it names.
    pub fn dispatch(&mut self, caller: AccountId, call: Call) -> (r: Result<(), Error>)
        requires
            old(self).wf(),
        ensures
            final(self).wf(),
            r is Err ==> *final(self) == *old(self),
            match call {
                Call::Transfer { to, value } => {
                    &&& r == transfer_result(*old(self), caller, to, value)
                    &&& r is Ok ==> transferred(*old(self), *final(self), caller, to, value)
                },
                Call::TransferFrom { from, to, value } => {
                    &&& r == transfer_from_result(*old(self), caller, from, to, value)
                    &&& r is Ok ==> transferred_from(*old(self), *final(self), caller, from, to, value)
                },
                Call::Approve { spender, value } => {
                    &&& r is Ok
                    &&& approved(*old(self), *final(self), caller, spender, value)
                },
                Call::Mint { value } => {
                    &&& r == mint_call_result(*old(self), caller, value)
                    &&& r is Ok ==> supply_changed(*old(self), *final(self), caller, value as int)
                },
                Call::Burn { value } => {
                    &&& r == burn_result(*old(self), caller, value)
                    &&& r is Ok ==> supply_changed(*old(self), *final(self), caller, -(value as int))
                },
            },
    {
        match call {
            Call::Transfer { to, value } => self.transfer(caller, to, value),
            Call::TransferFrom { from, to, value } => self.transfer_from(caller, from, to, value),
            Call::Approve { spender, value } => self.approve(caller, spender, value),
            Call::Mint { value } => self.mint(caller, value),
            Call::Burn { value } => self.burn(caller, value),
        }
    }
}

} // verus!
