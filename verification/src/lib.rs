//! A query bridge for testing smart-contract code against a live ledger node.
//!
//! A test environment answers every query from an in-memory simulator. This
//! library intercepts the smart-contract queries among them. It turns each
//! into a request to a node's REST interface, and the node's reply into the
//! binary result that the caller expects. Every other query goes to the local
//! simulator unchanged.
//!
//! The library performs no network access itself. Handling a query yields a
//! [`mock::Step`]: either the final result, or the address to fetch, after
//! which the reply is handed to [`mock::smart_query_result`].
//!
//! - [`mock`]: the bridge, its construction and the two ways to hand it a query.
//! - [`query`]: structured queries and their decoding from wire form.
//! - [`envelope`]: the two-level result of a query.
//! - [`simulator`]: the local simulator, as the table of its answers.
//! - [`coins`]: the balances that seed a simulator, and when they can.
//! - [`base64_text`]: binary payloads as base64 text.
//! - [`balance`]: the balance query of a CW20 token contract.
//! - [`laws`]: what holds of the bridge as a whole.

pub mod balance;
pub mod base64_text;
pub mod coins;
pub mod envelope;
pub mod laws;
pub mod mock;
pub mod query;
pub mod simulator;
