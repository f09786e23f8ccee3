//! Transaction history of a Solana address, fetched page by page from an
//! indexing provider, with lookup of single transactions and a search for
//! the transactions that touch a second address.
//!
//! The library holds the rules and leaves the window, the network and the
//! threads to its user:
//!
//! - [`endpoint`] builds the addresses of the provider's two endpoints;
//! - [`decode`] turns a response body into transactions, with [`json`]
//!   standing between it and `serde_json`;
//! - [`fetch`] decides, page by page, what a fetch asks for next and what
//!   it publishes into the [`store`]; [`pagination`] proves what such a
//!   fetch collects from a provider that pages correctly;
//! - [`connections`] finds the transactions that touch an address;
//! - [`app`] keeps the state of the user interface.

pub mod app;
pub mod connections;
pub mod decode;
pub mod endpoint;
pub mod error;
pub mod fetch;
pub mod json;
pub mod pagination;
pub mod store;
pub mod transaction;

pub use crate::app::{App, Tab};
pub use crate::error::ApiError;
pub use crate::fetch::{FetchWorker, PageRequest};
pub use crate::store::TransactionStore;
pub use crate::transaction::{AccountEntry, Transaction};
