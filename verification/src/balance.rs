//! Asking a CW20 token contract for an account's balance.
//!
//! The question and the answer are JSON documents whose shapes the `cw20`
//! crate defines. Writing the one and reading the other is that crate's
//! work, together with `cosmwasm_std`; both results are named here by
//! uninterpreted functions.

use crate::envelope::{QuerierResult, SystemError, SystemErrorView};
use crate::mock::{HttpMockDeps, Step};
use crate::query::{Query, QueryView};
use vstd::prelude::*;

verus! {

/// The call that asks a CW20 contract for the balance of `address`, or the
/// serializer's complaint.
pub uninterp spec fn cw20_balance_call(address: Seq<char>) -> Result<Seq<u8>, Seq<char>>;

/// The balance that the answer `payload` of a CW20 contract states, or the
/// decoder's complaint where `payload` states none.
pub uninterp spec fn cw20_balance_stated(payload: Seq<u8>) -> Result<u128, Seq<char>>;

/// Calls `cosmwasm_std::to_json_binary` on `cw20::Cw20QueryMsg::Balance`
/// with `address`.
///
/// Believed, not proved: the outcome is what [`cw20_balance_call`] names for
/// `address`.
#[verifier::external_body]
fn write_balance_call(address: &str) -> (call: Result<Vec<u8>, String>)
    ensures
        match call {
            Ok(msg) => cw20_balance_call(address@) == Ok::<Seq<u8>, Seq<char>>(msg@),
            Err(complaint) => cw20_balance_call(address@) == Err::<Seq<u8>, Seq<char>>(complaint@),
        },
{
    cosmwasm_std::to_json_binary(&cw20::Cw20QueryMsg::Balance { address: address.to_string() })
        .map(|binary| binary.0)
        .map_err(|complaint| complaint.to_string())
}

/// Calls `cosmwasm_std::from_json` to read `payload` as a
/// `cw20::BalanceResponse`, and takes the balance.
///
/// Believed, not proved: the outcome is what [`cw20_balance_stated`] names
/// for `payload`.
#[verifier::external_body]
fn read_balance(payload: &[u8]) -> (balance: Result<u128, String>)
    ensures
        match balance {
            Ok(amount) => cw20_balance_stated(payload@) == Ok::<u128, Seq<char>>(amount),
            Err(complaint) => cw20_balance_stated(payload@) == Err::<u128, Seq<char>>(complaint@),
        },
{
    cosmwasm_std::from_json::<cw20::BalanceResponse>(payload)
        .map(|response| response.balance.u128())
        .map_err(|complaint| complaint.to_string())
}

/// Why a query brought no balance.
#[derive(Clone, Debug, PartialEq, Eq)]
pub enum BalanceError {
    /// The environment failed to run the query.
    System { error: SystemError },
    /// The contract refused the query; `message` is what it said.
    Contract { message: String },
    /// The contract's answer states no balance; `complaint` is the decoder's.
    Malformed { complaint: String },
}

/// What a [`BalanceError`] holds, as mathematical values.
pub enum BalanceErrorView {
    System { error: SystemErrorView },
    Contract { message: Seq<char> },
    Malformed { complaint: Seq<char> },
}

impl View for BalanceError {
    type V = BalanceErrorView;

    open spec fn view(&self) -> BalanceErrorView {
        match *self {
            BalanceError::System { error } => BalanceErrorView::System { error: error@ },
            BalanceError::Contract { message } => BalanceErrorView::Contract { message: message@ },
            BalanceError::Malformed { complaint } => BalanceErrorView::Malformed {
                complaint: complaint@,
            },
        }
    }
}

/// The mathematical value of what [`cw20_balance`] returns.
pub open spec fn balance_of(outcome: Result<u128, BalanceError>) -> Result<u128, BalanceErrorView> {
    match outcome {
        Ok(amount) => Ok(amount),
        Err(error) => Err(error@),
    }
}

/// The balance that the result of a CW20 balance query states. A failure on
/// either level of the result is passed on; a payload is read as the
/// contract's answer.
pub open spec fn balance_in(answer: crate::envelope::Answer) -> Result<u128, BalanceErrorView> {
    match answer {
        Err(error) => Err(BalanceErrorView::System { error }),
        Ok(Err(message)) => Err(BalanceErrorView::Contract { message }),
        Ok(Ok(payload)) => match cw20_balance_stated(payload) {
            Ok(amount) => Ok(amount),
            Err(complaint) => Err(BalanceErrorView::Malformed { complaint }),
        },
    }
}

/// Starts the query for the balance of `account_address` at the CW20
/// contract `cw20_address`: writes the call and handles it as a smart query
/// to that contract. Fails with the serializer's complaint where the call
/// cannot be written.
pub fn query_balance_cw20(
    deps: &HttpMockDeps,
    cw20_address: String,
    account_address: String,
) -> (outcome: Result<Step, String>)
    ensures
        match cw20_balance_call(account_address@) {
            Ok(msg) => outcome matches Ok(step) && deps.querier.handles(
                QueryView::Smart { contract_addr: cw20_address@, msg },
                step@,
            ),
            Err(complaint) => outcome matches Err(error) && error@ == complaint,
        },
{
    match write_balance_call(account_address.as_str()) {
        Ok(msg) => {
            let request = Query::Smart { contract_addr: cw20_address, msg };
            Ok(deps.querier.handle_query(&request))
        },
        Err(complaint) => Err(complaint),
    }
}

/// Reads the balance from the result of a CW20 balance query; see
/// [`balance_in`].
pub fn cw20_balance(result: QuerierResult) -> (outcome: Result<u128, BalanceError>)
    ensures
        balance_of(outcome) == balance_in(crate::envelope::answer_of(result)),
{
    match result {
        Err(error) => Err(BalanceError::System { error }),
        Ok(Err(message)) => Err(BalanceError::Contract { message }),
        Ok(Ok(payload)) => match read_balance(payload.as_slice()) {
            Ok(amount) => Ok(amount),
            Err(complaint) => Err(BalanceError::Malformed { complaint }),
        },
    }
}

} // verus!
