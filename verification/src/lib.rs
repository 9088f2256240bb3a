//! Construction of safely parameterized SQL queries over a ledger of
//! on-chain token transfers.
//!
//! The crate turns a structured, partially populated filter request into a
//! single SQL query text together with an ordered sequence of typed bind
//! values, handling optional predicates, direction-dependent branching,
//! positional parameter binding, and pagination arithmetic. Executing the
//! query and serializing the results are left to the surrounding
//! application.

pub mod bind;
pub mod compose;
pub mod filter;
pub mod laws;
pub mod num;
pub mod params;
pub mod predicate;
pub mod records;
