//! The result of a query: a system-level outcome around a contract-level one.

use vstd::prelude::*;

verus! {

/// A failure of the environment that ran the query, as opposed to a failure
/// that the queried contract reported itself.
#[derive(Clone, Debug, PartialEq, Eq)]
pub enum SystemError {
    /// The request could not be understood; `request` holds its bytes.
    InvalidRequest { error: String, request: Vec<u8> },
    /// The response could not be understood; `response` holds its bytes.
    InvalidResponse { error: String, response: Vec<u8> },
    /// No contract lives at the address that was asked.
    NoSuchContract { addr: String },
    /// No code is stored under the identifier that was asked.
    NoSuchCode { code_id: u64 },
    /// A failure without further detail.
    Unknown,
    /// The environment does not answer queries of this kind.
    UnsupportedRequest { kind: String },
}

/// What a [`SystemError`] holds, as mathematical values.
pub enum SystemErrorView {
    InvalidRequest { error: Seq<char>, request: Seq<u8> },
    InvalidResponse { error: Seq<char>, response: Seq<u8> },
    NoSuchContract { addr: Seq<char> },
    NoSuchCode { code_id: u64 },
    Unknown,
    UnsupportedRequest { kind: Seq<char> },
}

impl View for SystemError {
    type V = SystemErrorView;

    open spec fn view(&self) -> SystemErrorView {
        match *self {
            SystemError::InvalidRequest { error, request } => SystemErrorView::InvalidRequest {
                error: error@,
                request: request@,
            },
            SystemError::InvalidResponse { error, response } => SystemErrorView::InvalidResponse {
                error: error@,
                response: response@,
            },
            SystemError::NoSuchContract { addr } => SystemErrorView::NoSuchContract { addr: addr@ },
            SystemError::NoSuchCode { code_id } => SystemErrorView::NoSuchCode { code_id },
            SystemError::Unknown => SystemErrorView::Unknown,
            SystemError::UnsupportedRequest { kind } => SystemErrorView::UnsupportedRequest {
                kind: kind@,
            },
        }
    }
}

/// The contract-level outcome: the answer's bytes, or the contract's message.
pub type ContractResult = Result<Vec<u8>, String>;

/// The two-level outcome of a query.
pub type QuerierResult = Result<ContractResult, SystemError>;

/// What a [`QuerierResult`] holds, as mathematical values.
pub type Answer = Result<Result<Seq<u8>, Seq<char>>, SystemErrorView>;

/// The mathematical value of a query's outcome.
pub open spec fn answer_of(result: QuerierResult) -> Answer {
    match result {
        Ok(Ok(payload)) => Ok(Ok(payload@)),
        Ok(Err(message)) => Ok(Err(message@)),
        Err(error) => Err(error@),
    }
}

/// The outcome of a query that both levels accepted, with `payload` as its answer.
pub open spec fn success(payload: Seq<u8>) -> Answer {
    Ok(Ok(payload))
}

/// The outcome of a request that could not be read: a system-level failure
/// that carries the reason and the request's bytes.
pub open spec fn invalid_request(error: Seq<char>, request: Seq<u8>) -> Answer {
    Err(SystemErrorView::InvalidRequest { error, request })
}

} // verus!
