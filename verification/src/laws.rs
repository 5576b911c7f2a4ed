//! What holds of the bridge as a whole, proved from the contracts of its parts.

use crate::envelope::{invalid_request, Answer, SystemErrorView};
use crate::mock::{parsing_complaint, HttpWasmMockQuerier, StepView};
use crate::query::{decoded, QueryView};
use vstd::prelude::*;

verus! {

/// Delegation is transparent: for a query that is no smart query, what the
/// bridge comes to is exactly the answer that its local simulator holds for
/// the same request.
pub proof fn delegation_is_transparent(
    bridge: HttpWasmMockQuerier,
    wire: Seq<u8>,
    step: StepView,
    local: Answer,
)
    requires
        bridge.handles(QueryView::Other { wire }, step),
        bridge.local_answers().contains_pair(wire, local),
    ensures
        step == (StepView::Done { answer: local }),
{
}

/// A smart query never reaches the local simulator: it comes to a fetch,
/// whatever the simulator holds.
pub proof fn smart_queries_go_remote(
    bridge: HttpWasmMockQuerier,
    contract_addr: Seq<char>,
    msg: Seq<u8>,
    step: StepView,
)
    requires
        bridge.handles(QueryView::Smart { contract_addr, msg }, step),
    ensures
        step is Fetch,
{
}

/// Handling is a function of the bridge and the query: one query comes to
/// one step.
pub proof fn handling_is_determined(
    bridge: HttpWasmMockQuerier,
    request: QueryView,
    first: StepView,
    second: StepView,
)
    requires
        bridge.handles(request, first),
        bridge.handles(request, second),
    ensures
        first == second,
{
}

/// Bytes that encode no query come to a system-level failure that carries
/// those bytes, and to nothing else.
pub proof fn undecodable_bytes_are_reported(
    bridge: HttpWasmMockQuerier,
    bin_request: Seq<u8>,
    step: StepView,
)
    requires
        decoded(bin_request) is Err,
        bridge.handles_raw(bin_request, step),
    ensures
        step == (StepView::Done {
            answer: invalid_request(parsing_complaint(decoded(bin_request)->Err_0), bin_request),
        }),
        step matches StepView::Done { answer: Err(SystemErrorView::InvalidRequest { request, .. }) }
            && request == bin_request,
{
}

/// Handling the wire form of a query comes to the same step as handling the
/// query that the wire form decodes to.
pub proof fn raw_handling_agrees(
    bridge: HttpWasmMockQuerier,
    bin_request: Seq<u8>,
    request: QueryView,
    raw_step: StepView,
    step: StepView,
)
    requires
        decoded(bin_request) == Ok::<QueryView, Seq<char>>(request),
        bridge.handles_raw(bin_request, raw_step),
        bridge.handles(request, step),
    ensures
        raw_step == step,
{
}

} // verus!
