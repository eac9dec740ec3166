//! Amounts of value, each in one denomination.

use vstd::prelude::*;

verus! {

/// An amount of one denomination.
#[derive(Debug, PartialEq, Eq)]
pub struct Coin {
    pub denom: String,
    pub amount: u128,
}

/// What a [`Coin`] stands for.
pub struct CoinView {
    pub denom: Seq<char>,
    pub amount: u128,
}

impl View for Coin {
    type V = CoinView;

    open spec fn view(&self) -> CoinView {
        CoinView { denom: self.denom@, amount: self.amount }
    }
}

impl Clone for Coin {
    fn clone(&self) -> (coin: Coin)
        ensures
            coin == *self,
    {
        Coin { denom: self.denom.clone(), amount: self.amount }
    }
}

/// What a list of coins stands for, coin by coin.
pub open spec fn coins_view(coins: Seq<Coin>) -> Seq<CoinView> {
    coins.map_values(|coin: Coin| coin@)
}

/// The amount of the first coin of `denom` in `coins`, if there is one.
pub open spec fn balance_of(coins: Seq<CoinView>, denom: Seq<char>) -> Option<u128>
    decreases coins.len(),
{
    if coins.len() == 0 {
        None
    } else if coins.first().denom == denom {
        Some(coins.first().amount)
    } else {
        balance_of(coins.drop_first(), denom)
    }
}

/// The sum of the amounts of all coins of `denom` in `coins`.
pub open spec fn total_of(coins: Seq<CoinView>, denom: Seq<char>) -> nat
    decreases coins.len(),
{
    if coins.len() == 0 {
        0
    } else if coins.first().denom == denom {
        coins.first().amount as nat + total_of(coins.drop_first(), denom)
    } else {
        total_of(coins.drop_first(), denom)
    }
}

/// A list that holds `amount` of `denom` and nothing else.
pub fn coins(amount: u128, denom: &str) -> (list: Vec<Coin>)
    ensures
        coins_view(list@) == seq![CoinView { denom: denom@, amount }],
{
    let mut list: Vec<Coin> = Vec::new();
    list.push(Coin { denom: denom.to_owned(), amount });
    assert(coins_view(list@) =~= seq![CoinView { denom: denom@, amount }]);
    list
}

/// Looks up the amount of the first coin of `denom` in `coins`.
pub fn find_balance(coins: &Vec<Coin>, denom: &String) -> (found: Option<u128>)
    ensures
        found == balance_of(coins_view(coins@), denom@),
{
    let ghost all = coins_view(coins@);
    let mut i: usize = 0;
    assert(all.subrange(0, all.len() as int) =~= all);
    while i < coins.len()
        invariant
            i <= coins.len(),
            all == coins_view(coins@),
            balance_of(all, denom@) == balance_of(all.subrange(i as int, all.len() as int), denom@),
        decreases coins.len() - i,
    {
        let ghost rest = all.subrange(i as int, all.len() as int);
        assert(rest.first() == coins@[i as int]@);
        assert(rest.drop_first() =~= all.subrange(i + 1, all.len() as int));
        if coins[i].denom == *denom {
            return Some(coins[i].amount);
        }
        i += 1;
    }
    assert(all.subrange(i as int, all.len() as int).len() == 0);
    None
}

} // verus!
