//! Properties that relate several states or several operations of the ledger.
use vstd::prelude::*;
use crate::arith::MAX_AMOUNT;
use crate::ledger::{transferred, transferred_from, AccountId, Pallet};

verus! {

/// `post` follows `pre` by one successful transfer or delegated transfer.
pub open spec fn is_transfer_step(pre: Pallet, post: Pallet) -> bool {
    ||| exists|from: AccountId, to: AccountId, value: u64| transferred(pre, post, from, to, value)
    ||| exists|spender: AccountId, from: AccountId, to: AccountId, value: u64|
        transferred_from(pre, post, spender, from, to, value)
}

/// Conservation: along any run of well-formed states in which each follows the
/// one before by a successful transfer or delegated transfer, the sum of all
/// balances stays what it was at the start.
pub proof fn law_conservation(states: Seq<Pallet>)
    requires
        states.len() > 0,
        forall|i: int| 0 <= i < states.len() ==> (#[trigger] states[i]).wf(),
        forall|i: int| 0 <= i < states.len() - 1 ==> is_transfer_step(#[trigger] states[i], states[i + 1]),
    ensures
        forall|i: int| 0 <= i < states.len() ==> (#[trigger] states[i]).total_balance() == states[0].total_balance(),
    decreases states.len(),
{
    if states.len() > 1 {
        let prefix = states.drop_last();
        assert forall|i: int| 0 <= i < prefix.len() - 1 implies is_transfer_step(#[trigger] prefix[i], prefix[i + 1]) by {
            assert(prefix[i] == states[i] && prefix[i + 1] == states[i + 1]);
        }
        law_conservation(prefix);
        let n = states.len() - 1;
        let pre = states[n - 1];
        let post = states[n];
        assert(is_transfer_step(pre, post));
        assert(post.supply() == pre.supply());
        pre.lemma_supply_is_total();
        post.lemma_supply_is_total();
        assert forall|i: int| 0 <= i < states.len() implies (#[trigger] states[i]).total_balance()
            == states[0].total_balance() by {
            assert(prefix[0] == states[0]);
            if i < n {
                assert(prefix[i] == states[i]);
            } else {
                assert(prefix[n - 1] == pre);
            }
        }
    }
}

/// A successful delegated transfer lowers the spender's allowance by the amount
/// moved, strictly where that amount is positive; an unlimited allowance stays unlimited.
pub proof fn law_allowance_spent(
    pre: Pallet,
    post: Pallet,
    spender: AccountId,
    from: AccountId,
    to: AccountId,
    value: u64,
)
    requires
        transferred_from(pre, post, spender, from, to, value),
    ensures
        pre.allowance(from, spender) == MAX_AMOUNT ==> post.allowance(from, spender) == MAX_AMOUNT,
        pre.allowance(from, spender) != MAX_AMOUNT ==> post.allowance(from, spender) == pre.allowance(from, spender) - value,
        pre.allowance(from, spender) != MAX_AMOUNT && value > 0 ==> post.allowance(from, spender) < pre.allowance(from, spender),
{
}

} // verus!
