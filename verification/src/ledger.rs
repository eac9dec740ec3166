//! What the host ledger does to the controller's balance when it carries out
//! an instruction. The controller never does this itself; the model is here
//! to say what its instructions amount to.

use vstd::prelude::*;
use crate::coin::{CoinView, balance_of, total_of};
use crate::response::BankMsgView;

verus! {

/// The coins that leave the controller when the ledger carries out
/// `message`.
pub open spec fn outflow(message: BankMsgView) -> Seq<CoinView> {
    match message {
        BankMsgView::Send { to_address, amount } => amount,
        BankMsgView::Burn { amount } => amount,
    }
}

/// How much of `denom` the controller holds once the ledger has carried out
/// `message`, where it held `held` before.
pub open spec fn held_after(held: Seq<CoinView>, message: BankMsgView, denom: Seq<char>) -> int {
    total_of(held, denom) - total_of(outflow(message), denom)
}

/// A list of one coin holds that coin's amount of its denomination, and
/// nothing of any other.
pub proof fn lemma_total_of_one(coin: CoinView, denom: Seq<char>)
    ensures
        total_of(seq![coin], denom) == if coin.denom == denom {
            coin.amount as nat
        } else {
            0
        },
{
    let list = seq![coin];
    assert(list.first() == coin);
    assert(list.drop_first() =~= Seq::<CoinView>::empty());
    assert(total_of(list.drop_first(), denom) == 0);
}

/// What a list holds of a denomination covers the amount of its first coin
/// of that denomination.
pub proof fn lemma_total_covers_balance(held: Seq<CoinView>, denom: Seq<char>)
    ensures
        balance_of(held, denom) matches Some(amount) ==> total_of(held, denom) >= amount,
    decreases held.len(),
{
    if held.len() > 0 && held.first().denom != denom {
        lemma_total_covers_balance(held.drop_first(), denom);
    }
}

} // verus!
