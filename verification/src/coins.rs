//! Coins, the balances that seed a simulator, and the supplies they add up to.
//!
//! A simulator keeps one list of coins for each address: where `balances`
//! names an address more than once, the last entry is the one that is kept.
//! The supply of a denomination is the sum of its amounts over the kept
//! entries. A simulator can be built only from balances whose supplies each
//! fit into 128 bits.

use vstd::prelude::*;

verus! {

/// An amount of one denomination.
#[derive(Clone, Debug, PartialEq, Eq)]
pub struct Coin {
    pub denom: String,
    pub amount: u128,
}

/// What a [`Coin`] holds, as mathematical values.
pub struct CoinView {
    pub denom: Seq<char>,
    pub amount: u128,
}

impl View for Coin {
    type V = CoinView;

    open spec fn view(&self) -> CoinView {
        CoinView { denom: self.denom@, amount: self.amount }
    }
}

/// The balances that a simulator starts with: a list of addresses, each with
/// the coins that the account at that address owns.
pub type Balances = Seq<(Seq<char>, Seq<CoinView>)>;

/// The mathematical value of a list of coins.
pub open spec fn coins_of(coins: Seq<Coin>) -> Seq<CoinView> {
    Seq::new(coins.len(), |k: int| coins[k]@)
}

/// The mathematical value of a list of `(address, coins)` pairs.
pub open spec fn balances_of(balances: Seq<(&str, &[Coin])>) -> Balances {
    Seq::new(balances.len(), |i: int| (balances[i].0@, coins_of(balances[i].1@)))
}

/// The amount of `denom` among the first `count` of `coins`.
pub open spec fn amount_among(coins: Seq<CoinView>, denom: Seq<char>, count: nat) -> nat
    decreases count,
{
    if count == 0 {
        0
    } else {
        amount_among(coins, denom, (count - 1) as nat) + if coins[count - 1].denom == denom {
            coins[count - 1].amount as nat
        } else {
            0
        }
    }
}

/// The amount of `denom` among `coins`: the sum over the coins of that
/// denomination.
pub open spec fn amount_of(coins: Seq<CoinView>, denom: Seq<char>) -> nat {
    amount_among(coins, denom, coins.len())
}

/// Whether the entry at `index` is the one kept for its address: no later
/// entry names the same address.
pub open spec fn is_kept(balances: Balances, index: int) -> bool {
    forall|later: int|
        index < later < balances.len() ==> (#[trigger] balances[later]).0 != balances[index].0
}

/// The supply of `denom` over the kept entries among the first `count` of
/// `balances`.
pub open spec fn supply_among(balances: Balances, denom: Seq<char>, count: nat) -> nat
    decreases count,
{
    if count == 0 {
        0
    } else {
        supply_among(balances, denom, (count - 1) as nat) + if is_kept(balances, count - 1) {
            amount_of(balances[count - 1].1, denom)
        } else {
            0
        }
    }
}

/// The supply of `denom`: the sum of its amounts over the kept entries.
pub open spec fn supply(balances: Balances, denom: Seq<char>) -> nat {
    supply_among(balances, denom, balances.len())
}

/// Whether the supply of every denomination fits into 128 bits.
pub open spec fn supplies_fit(balances: Balances) -> bool {
    forall|denom: Seq<char>| supply(balances, denom) <= u128::MAX
}

/// Whether `denom` is the denomination of some coin in `balances`.
pub open spec fn occurs(balances: Balances, denom: Seq<char>) -> bool {
    exists|i: int, k: int|
        0 <= i < balances.len() && 0 <= k < balances[i].1.len()
            && (#[trigger] balances[i].1[k]).denom == denom
}

/// Amounts only grow along a list of coins.
pub proof fn amount_grows(coins: Seq<CoinView>, denom: Seq<char>, fewer: nat, more: nat)
    requires
        fewer <= more,
    ensures
        amount_among(coins, denom, fewer) <= amount_among(coins, denom, more),
    decreases more,
{
    if fewer < more {
        amount_grows(coins, denom, fewer, (more - 1) as nat);
    }
}

/// Supplies only grow along a list of balances.
pub proof fn supply_grows(balances: Balances, denom: Seq<char>, fewer: nat, more: nat)
    requires
        fewer <= more,
    ensures
        supply_among(balances, denom, fewer) <= supply_among(balances, denom, more),
    decreases more,
{
    if fewer < more {
        supply_grows(balances, denom, fewer, (more - 1) as nat);
    }
}

/// A list of coins holds nothing of a denomination that none of its coins has.
pub proof fn absent_denom_has_no_amount(coins: Seq<CoinView>, denom: Seq<char>, count: nat)
    requires
        count <= coins.len(),
        forall|k: int| 0 <= k < coins.len() ==> (#[trigger] coins[k]).denom != denom,
    ensures
        amount_among(coins, denom, count) == 0,
    decreases count,
{
    if count > 0 {
        absent_denom_has_no_amount(coins, denom, (count - 1) as nat);
    }
}

/// A denomination that does not occur has no supply.
pub proof fn absent_denom_has_no_supply(balances: Balances, denom: Seq<char>, count: nat)
    requires
        count <= balances.len(),
        !occurs(balances, denom),
    ensures
        supply_among(balances, denom, count) == 0,
    decreases count,
{
    if count > 0 {
        absent_denom_has_no_supply(balances, denom, (count - 1) as nat);
        let coins = balances[count - 1].1;
        assert forall|k: int| 0 <= k < coins.len() implies (#[trigger] coins[k]).denom != denom by {
            assert(balances[count - 1].1[k] == coins[k]);
        }
        absent_denom_has_no_amount(coins, denom, coins.len());
    }
}

/// The amount of `denom` among `coins`, or nothing where it does not fit
/// into 128 bits.
pub fn amount_in(coins: &[Coin], denom: &String) -> (amount: Option<u128>)
    ensures
        match amount {
            Some(sum) => sum == amount_of(coins_of(coins@), denom@),
            None => amount_of(coins_of(coins@), denom@) > u128::MAX,
        },
{
    let ghost all = coins_of(coins@);
    let mut sum: u128 = 0;
    let mut k: usize = 0;
    while k < coins.len()
        invariant
            k <= coins.len(),
            all == coins_of(coins@),
            sum == amount_among(all, denom@, k as nat),
        decreases coins.len() - k,
    {
        if coins[k].denom == *denom {
            if coins[k].amount > u128::MAX - sum {
                proof {
                    amount_grows(all, denom@, (k + 1) as nat, all.len());
                }
                return None;
            }
            sum = sum + coins[k].amount;
        }
        k = k + 1;
    }
    Some(sum)
}

/// Whether the entry at `index` is the one kept for its address.
pub fn is_kept_entry(balances: &[(&str, &[Coin])], index: usize) -> (kept: bool)
    requires
        index < balances.len(),
    ensures
        kept == is_kept(balances_of(balances@), index as int),
{
    let ghost all = balances_of(balances@);
    let address = balances[index].0.to_owned();
    let mut later: usize = index + 1;
    while later < balances.len()
        invariant
            index < later <= balances.len(),
            all == balances_of(balances@),
            address@ == all[index as int].0,
            forall|seen: int| index < seen < later ==> (#[trigger] all[seen]).0 != all[index as int].0,
        decreases balances.len() - later,
    {
        if balances[later].0.to_owned() == address {
            assert(all[later as int].0 == all[index as int].0);
            return false;
        }
        later = later + 1;
    }
    true
}

/// The supply of `denom` in `balances`, or nothing where it does not fit
/// into 128 bits.
pub fn supply_of(balances: &[(&str, &[Coin])], denom: &String) -> (total: Option<u128>)
    ensures
        match total {
            Some(sum) => sum == supply(balances_of(balances@), denom@),
            None => supply(balances_of(balances@), denom@) > u128::MAX,
        },
{
    let ghost all = balances_of(balances@);
    let mut sum: u128 = 0;
    let mut i: usize = 0;
    while i < balances.len()
        invariant
            i <= balances.len(),
            all == balances_of(balances@),
            sum == supply_among(all, denom@, i as nat),
        decreases balances.len() - i,
    {
        if is_kept_entry(balances, i) {
            proof {
                supply_grows(all, denom@, (i + 1) as nat, all.len());
            }
            match amount_in(balances[i].1, denom) {
                None => {
                    return None;
                },
                Some(amount) => {
                    if amount > u128::MAX - sum {
                        return None;
                    }
                    sum = sum + amount;
                },
            }
        }
        i = i + 1;
    }
    Some(sum)
}

/// Whether the supply of every denomination in `balances` fits into 128
/// bits, which is what building a simulator from them asks for.
pub fn supplies_fit_in(balances: &[(&str, &[Coin])]) -> (fit: bool)
    ensures
        fit == supplies_fit(balances_of(balances@)),
{
    let ghost all = balances_of(balances@);
    let mut i: usize = 0;
    while i < balances.len()
        invariant
            i <= balances.len(),
            all == balances_of(balances@),
            forall|a: int, k: int|
                0 <= a < i && 0 <= k < all[a].1.len() ==> supply(
                    all,
                    (#[trigger] all[a].1[k]).denom,
                ) <= u128::MAX,
        decreases balances.len() - i,
    {
        let coins = balances[i].1;
        let mut k: usize = 0;
        while k < coins.len()
            invariant
                i < balances.len(),
                k <= coins.len(),
                coins == balances[i as int].1,
                all == balances_of(balances@),
                forall|a: int, b: int|
                    0 <= a < i && 0 <= b < all[a].1.len() ==> supply(
                        all,
                        (#[trigger] all[a].1[b]).denom,
                    ) <= u128::MAX,
                forall|b: int|
                    0 <= b < k ==> supply(all, (#[trigger] all[i as int].1[b]).denom) <= u128::MAX,
            decreases coins.len() - k,
        {
            if supply_of(balances, &coins[k].denom).is_none() {
                return false;
            }
            k = k + 1;
        }
        i = i + 1;
    }
    proof {
        assert forall|denom: Seq<char>| supply(all, denom) <= u128::MAX by {
            if occurs(all, denom) {
                let (a, k) = choose|a: int, k: int|
                    0 <= a < all.len() && 0 <= k < all[a].1.len()
                        && (#[trigger] all[a].1[k]).denom == denom;
                assert(supply(all, all[a].1[k].denom) <= u128::MAX);
            } else {
                absent_denom_has_no_supply(all, denom, all.len());
            }
        }
    }
    true
}

} // verus!
