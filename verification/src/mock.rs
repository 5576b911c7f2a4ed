//! The bridge: smart queries go to a node's REST interface, every other
//! query to the local simulator.

use crate::base64_text::{base64_padded, encode_padded, round_trip};
use crate::envelope::{answer_of, invalid_request, success, Answer, QuerierResult, SystemError};
use crate::query::{decode, decoded, Query, QueryView};
use crate::coins::{balances_of, supplies_fit, Balances, Coin};
use crate::simulator::{seeded_answers, LocalSimulator};
use cosmwasm_std::testing::{MockApi, MockStorage};
use cosmwasm_std::MemoryStorage;
use vstd::prelude::*;
use vstd::slice::slice_to_vec;
use vstd::string::StringExecFns;
use vstd::utf8::encode_utf8;

verus! {

/// The custom query type of an environment that defines no custom queries.
#[derive(Clone, Debug, PartialEq, Eq)]
pub struct DefaultWasmMockQuerier {}

/// What a node replies to a smart query: `data` is the answer, as JSON text.
#[derive(Clone, Debug, PartialEq, Eq)]
pub struct LcdSmartQueryHttpResponse {
    pub data: String,
}

/// What handling a query comes to.
#[derive(Debug, PartialEq, Eq)]
pub enum Step {
    /// The answer lies with the node: fetch `url` with a GET request and hand
    /// the reply to [`smart_query_result`].
    Fetch { url: String },
    /// The query is answered with `result`.
    Done { result: QuerierResult },
}

/// What a [`Step`] holds, as mathematical values.
pub enum StepView {
    Fetch { url: Seq<char> },
    Done { answer: Answer },
}

impl View for Step {
    type V = StepView;

    open spec fn view(&self) -> StepView {
        match *self {
            Step::Fetch { url } => StepView::Fetch { url: url@ },
            Step::Done { result } => StepView::Done { answer: answer_of(result) },
        }
    }
}

/// The address at which the node behind `endpoint` answers a smart query to
/// the contract at `contract_addr`: the four parts and the query's text,
/// joined as they are, with nothing escaped.
pub open spec fn smart_query_url(
    endpoint: Seq<char>,
    contract_addr: Seq<char>,
    payload_text: Seq<char>,
) -> Seq<char> {
    endpoint + "/cosmwasm/wasm/v1/contract/"@ + contract_addr + "/smart/"@ + payload_text
}

/// The message for a request that could not be decoded: the decoder's
/// complaint behind a fixed opening.
pub open spec fn parsing_complaint(complaint: Seq<char>) -> Seq<char> {
    "Parsing query request: "@ + complaint
}

/// Builds the address of a smart query; see [`smart_query_url`].
pub fn request_url(endpoint: &str, contract_addr: &str, payload_text: &str) -> (url: String)
    ensures
        url@ == smart_query_url(endpoint@, contract_addr@, payload_text@),
{
    let mut url = endpoint.to_owned();
    url.append("/cosmwasm/wasm/v1/contract/");
    url.append(contract_addr);
    url.append("/smart/");
    url.append(payload_text);
    url
}

/// Turns the node's reply to a smart query into the query's result: a
/// success on both levels whose payload is the bytes of the reply's JSON
/// text. The bytes pass through base64 text on the way, which leaves them as
/// they are.
pub fn smart_query_result(response: &LcdSmartQueryHttpResponse) -> (result: QuerierResult)
    ensures
        answer_of(result) == success(encode_utf8(response.data@)),
{
    let payload = round_trip(response.data.as_str().as_bytes());
    Ok(Ok(payload))
}

/// The result for a request whose wire form `request` could not be decoded,
/// given the decoder's complaint.
pub fn invalid_request_result(complaint: &str, request: &[u8]) -> (result: QuerierResult)
    ensures
        answer_of(result) == invalid_request(parsing_complaint(complaint@), request@),
{
    let mut error = "Parsing query request: ".to_owned();
    error.append(complaint);
    Err(SystemError::InvalidRequest { error, request: slice_to_vec(request) })
}

/// The balances that a bridge starts from where it is given no simulator:
/// those of `balances`, or none.
pub open spec fn seed_of(balances: Option<&[(&str, &[Coin])]>) -> Balances {
    match balances {
        Some(seed) => balances_of(seed@),
        None => Seq::empty(),
    }
}

/// A bridge between a test environment and a node.
pub struct HttpWasmMockQuerier {
    base: LocalSimulator,
    url_lcd: String,
}

impl HttpWasmMockQuerier {
    /// The base address of the node, as it was given.
    pub closed spec fn endpoint(&self) -> Seq<char> {
        self.url_lcd@
    }

    /// The answers of the local simulator, by request in wire form.
    pub closed spec fn local_answers(&self) -> Map<Seq<u8>, Answer> {
        self.base.answers()
    }

    /// Whether `step` is what handling `request` comes to: for a smart query
    /// the address to fetch, for any other query the local simulator's own
    /// answer.
    pub open spec fn handles(&self, request: QueryView, step: StepView) -> bool {
        match request {
            QueryView::Smart { contract_addr, msg } => step == StepView::Fetch {
                url: smart_query_url(self.endpoint(), contract_addr, base64_padded(msg)),
            },
            QueryView::Other { wire } => step matches StepView::Done { answer }
                && self.local_answers().contains_pair(wire, answer),
        }
    }

    /// Whether `step` is what handling the wire form `bin_request` comes to.
    pub open spec fn handles_raw(&self, bin_request: Seq<u8>, step: StepView) -> bool {
        match decoded(bin_request) {
            Ok(request) => self.handles(request, step),
            Err(complaint) => step == StepView::Done {
                answer: invalid_request(parsing_complaint(complaint), bin_request),
            },
        }
    }

    /// A bridge to the node at `url_lcd`, which is kept as it is. Without a
    /// `base`, the local simulator is a fresh one, seeded with `balances` if
    /// there are any.
    pub fn new(
        base: Option<LocalSimulator>,
        url_lcd: String,
        balances: Option<&[(&str, &[Coin])]>,
    ) -> (bridge: Self)
        requires
            base is None ==> supplies_fit(seed_of(balances)),
        ensures
            bridge.endpoint() == url_lcd@,
            bridge.local_answers() == match base {
                Some(simulator) => simulator.answers(),
                None => seeded_answers(seed_of(balances)),
            },
    {
        let base = match base {
            Some(simulator) => simulator,
            None => match balances {
                Some(seed) => LocalSimulator::new(seed),
                None => {
                    let seed: [(&str, &[Coin]); 0] = [];
                    assert(balances_of(seed@) =~= Seq::empty());
                    LocalSimulator::new(&seed)
                },
            },
        };
        HttpWasmMockQuerier { base, url_lcd }
    }

    /// Handles a query: a smart query comes to the address to fetch, any
    /// other query to the local simulator's answer.
    pub fn handle_query(&self, request: &Query) -> (step: Step)
        ensures
            self.handles(request@, step@),
    {
        match request {
            Query::Smart { contract_addr, msg } => {
                let payload_text = encode_padded(msg.as_slice());
                Step::Fetch {
                    url: request_url(
                        self.url_lcd.as_str(),
                        contract_addr.as_str(),
                        payload_text.as_str(),
                    ),
                }
            },
            Query::Other { wire } => Step::Done { result: self.base.raw_query(wire.as_slice()) },
        }
    }

    /// Handles a query in wire form: decodes it and handles the query. Bytes
    /// that encode no query come to a system-level failure that carries them.
    pub fn raw_query(&self, bin_request: &[u8]) -> (step: Step)
        ensures
            self.handles_raw(bin_request@, step@),
    {
        match decode(bin_request) {
            Ok(request) => self.handle_query(&request),
            Err(complaint) => Step::Done {
                result: invalid_request_result(complaint.as_str(), bin_request),
            },
        }
    }
}

/// `cosmwasm_std::MemoryStorage`, opaque to the verifier.
#[verifier::external_type_specification]
#[verifier::external_body]
pub struct ExMemoryStorage(MemoryStorage);

/// `cosmwasm_std::testing::MockApi`, opaque to the verifier.
#[verifier::external_type_specification]
#[verifier::external_body]
pub struct ExMockApi(MockApi);

/// What a store holds: the value kept under each key.
pub uninterp spec fn stored(storage: MemoryStorage) -> Map<Seq<u8>, Seq<u8>>;

/// Calls `cosmwasm_std::testing::MockStorage::default`.
///
/// Believed, not proved: the store returned holds nothing.
#[verifier::external_body]
fn empty_storage() -> (storage: MemoryStorage)
    ensures
        stored(storage) =~= Map::empty(),
{
    MockStorage::default()
}

/// Calls `cosmwasm_std::testing::MockApi::default`.
#[verifier::external_body]
fn default_api() -> MockApi {
    MockApi::default()
}

/// The dependencies of a contract under test: storage, API and querier.
pub struct HttpMockDeps {
    pub storage: MemoryStorage,
    pub api: MockApi,
    pub querier: HttpWasmMockQuerier,
}

/// The dependencies of a contract under test: an empty store, the default
/// API, and a bridge to the node at `url_lcd` as the querier; see
/// [`HttpWasmMockQuerier::new`].
pub fn create_http_mock(
    custom_mock: Option<LocalSimulator>,
    url_lcd: &str,
    balances: Option<&[(&str, &[Coin])]>,
) -> (deps: HttpMockDeps)
    requires
        custom_mock is None ==> supplies_fit(seed_of(balances)),
    ensures
        stored(deps.storage) =~= Map::empty(),
        deps.querier.endpoint() == url_lcd@,
        deps.querier.local_answers() == match custom_mock {
            Some(simulator) => simulator.answers(),
            None => seeded_answers(seed_of(balances)),
        },
{
    let querier = HttpWasmMockQuerier::new(custom_mock, url_lcd.to_owned(), balances);
    HttpMockDeps { storage: empty_storage(), api: default_api(), querier }
}

} // verus!
