//! Structured queries, and their decoding from wire form.

use cosmwasm_std::{Empty, QueryRequest, WasmQuery};
use vstd::prelude::*;
use vstd::slice::slice_to_vec;

verus! {

/// A query, as far as the bridge tells queries apart.
#[derive(Clone, Debug, PartialEq, Eq)]
pub enum Query {
    /// A call into the query interface of the contract at `contract_addr`;
    /// `msg` is the call, as the contract expects it.
    Smart { contract_addr: String, msg: Vec<u8> },
    /// A query of any other kind, in the wire form that the local simulator reads.
    Other { wire: Vec<u8> },
}

/// What a [`Query`] holds, as mathematical values.
pub enum QueryView {
    Smart { contract_addr: Seq<char>, msg: Seq<u8> },
    Other { wire: Seq<u8> },
}

impl View for Query {
    type V = QueryView;

    open spec fn view(&self) -> QueryView {
        match *self {
            Query::Smart { contract_addr, msg } => QueryView::Smart {
                contract_addr: contract_addr@,
                msg: msg@,
            },
            Query::Other { wire } => QueryView::Other { wire: wire@ },
        }
    }
}

/// What the wire form `wire` decodes to: the contract address and the call of
/// a smart query, nothing for a query of another kind, or the decoder's
/// complaint where `wire` encodes no query.
pub uninterp spec fn wire_request(wire: Seq<u8>) -> Result<Option<(Seq<char>, Seq<u8>)>, Seq<char>>;

/// The mathematical value of what reading a wire form returns.
pub open spec fn parts_of(parts: Result<Option<(String, Vec<u8>)>, String>) -> Result<
    Option<(Seq<char>, Seq<u8>)>,
    Seq<char>,
> {
    match parts {
        Ok(Some((contract_addr, msg))) => Ok(Some((contract_addr@, msg@))),
        Ok(None) => Ok(None),
        Err(complaint) => Err(complaint@),
    }
}

/// Calls `cosmwasm_std::from_json` to read `wire` as a query request without
/// custom queries, and picks out what a smart query holds.
///
/// Believed, not proved: the outcome is what [`wire_request`] names for `wire`.
#[verifier::external_body]
fn read_wire(wire: &[u8]) -> (parts: Result<Option<(String, Vec<u8>)>, String>)
    ensures
        parts_of(parts) == wire_request(wire@),
{
    match cosmwasm_std::from_json::<QueryRequest<Empty>>(wire) {
        Ok(QueryRequest::Wasm(WasmQuery::Smart { contract_addr, msg })) => Ok(Some((contract_addr, msg.0))),
        Ok(_) => Ok(None),
        Err(complaint) => Err(complaint.to_string()),
    }
}

/// The query that `wire` encodes, or the decoder's complaint. A query of
/// another kind than a smart query keeps `wire` itself.
pub open spec fn decoded(wire: Seq<u8>) -> Result<QueryView, Seq<char>> {
    match wire_request(wire) {
        Ok(Some((contract_addr, msg))) => Ok(QueryView::Smart { contract_addr, msg }),
        Ok(None) => Ok(QueryView::Other { wire }),
        Err(complaint) => Err(complaint),
    }
}

/// The mathematical value of what [`decode`] returns.
pub open spec fn decoding_of(outcome: Result<Query, String>) -> Result<QueryView, Seq<char>> {
    match outcome {
        Ok(query) => Ok(query@),
        Err(complaint) => Err(complaint@),
    }
}

/// Decodes a query from its wire form.
pub fn decode(wire: &[u8]) -> (outcome: Result<Query, String>)
    ensures
        decoding_of(outcome) == decoded(wire@),
{
    match read_wire(wire) {
        Ok(Some((contract_addr, msg))) => Ok(Query::Smart { contract_addr, msg }),
        Ok(None) => Ok(Query::Other { wire: slice_to_vec(wire) }),
        Err(complaint) => Err(complaint),
    }
}

} // verus!
