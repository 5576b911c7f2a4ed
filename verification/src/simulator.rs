//! The local simulator: the in-memory stand-in for a ledger that answers
//! every query the bridge does not send to a node.
//!
//! The simulator is `cosmwasm_std::testing::MockQuerier`. It is modelled as
//! the table of its answers, one for each request in wire form.

use crate::coins::{balances_of, supplies_fit, Balances, Coin};
use crate::envelope::{answer_of, Answer, QuerierResult, SystemError};
use cosmwasm_std::testing::MockQuerier;
use cosmwasm_std::{ContractResult, Empty, Querier, SystemResult};
use vstd::prelude::*;

verus! {

/// A local simulator: a `cosmwasm_std::testing::MockQuerier` without custom
/// queries, opaque to the verifier.
#[verifier::external_body]
pub struct LocalSimulator {
    inner: MockQuerier<Empty>,
}

/// The answers that a simulator holds: for each request in wire form, the
/// outcome that the simulator gives it.
pub uninterp spec fn simulator_answers(simulator: LocalSimulator) -> Map<Seq<u8>, Answer>;

/// The answers of a fresh simulator that was seeded with `balances`.
pub uninterp spec fn seeded_answers(balances: Balances) -> Map<Seq<u8>, Answer>;

/// Calls `cosmwasm_std::testing::MockQuerier::new` with `balances`.
///
/// Believed, not proved: the simulator returned answers as
/// [`seeded_answers`] names it for these balances.
#[verifier::external_body]
fn seeded_simulator(balances: &[(&str, &[Coin])]) -> (simulator: LocalSimulator)
    requires
        supplies_fit(balances_of(balances@)),
    ensures
        simulator_answers(simulator) == seeded_answers(balances_of(balances@)),
{
    let owned: Vec<(&str, Vec<cosmwasm_std::Coin>)> = balances
        .iter()
        .map(|(address, coins)| (*address, coins.iter().map(|coin| cosmwasm_std::Coin::new(coin.amount, coin.denom.as_str())).collect()))
        .collect();
    let borrowed: Vec<(&str, &[cosmwasm_std::Coin])> =
        owned.iter().map(|(address, coins)| (*address, coins.as_slice())).collect();
    LocalSimulator { inner: MockQuerier::new(&borrowed) }
}

/// Calls `cosmwasm_std::testing::MockQuerier::raw_query` and turns the
/// outcome into the library's own type, variant by variant.
///
/// Believed, not proved: the simulator has an answer for every request, and
/// the outcome returned is that answer.
#[verifier::external_body]
fn ask(simulator: &LocalSimulator, wire: &[u8]) -> (result: QuerierResult)
    ensures
        simulator_answers(*simulator).contains_pair(wire@, answer_of(result)),
{
    match simulator.inner.raw_query(wire) {
        SystemResult::Ok(ContractResult::Ok(payload)) => Ok(Ok(payload.0)),
        SystemResult::Ok(ContractResult::Err(message)) => Ok(Err(message)),
        SystemResult::Err(failure) => Err(match failure {
            cosmwasm_std::SystemError::InvalidRequest { error, request } => SystemError::InvalidRequest { error, request: request.0 },
            cosmwasm_std::SystemError::InvalidResponse { error, response } => SystemError::InvalidResponse { error, response: response.0 },
            cosmwasm_std::SystemError::NoSuchContract { addr } => SystemError::NoSuchContract { addr },
            cosmwasm_std::SystemError::NoSuchCode { code_id } => SystemError::NoSuchCode { code_id },
            cosmwasm_std::SystemError::UnsupportedRequest { kind } => SystemError::UnsupportedRequest { kind },
            _ => SystemError::Unknown,
        }),
    }
}

impl LocalSimulator {
    /// The answers that this simulator holds, by request in wire form.
    pub open spec fn answers(&self) -> Map<Seq<u8>, Answer> {
        simulator_answers(*self)
    }

    /// A fresh simulator in which each account of `balances` owns the coins
    /// listed for it.
    pub fn new(balances: &[(&str, &[Coin])]) -> (simulator: Self)
        requires
            supplies_fit(balances_of(balances@)),
        ensures
            simulator.answers() == seeded_answers(balances_of(balances@)),
    {
        seeded_simulator(balances)
    }

    /// Answers the request that `wire` encodes.
    pub fn raw_query(&self, wire: &[u8]) -> (result: QuerierResult)
        ensures
            self.answers().contains_pair(wire@, answer_of(result)),
    {
        ask(self, wire)
    }
}

} // verus!
