//! Printer supply polling: the data model of a polled device, the level
//! calculator, the drivers that turn management-protocol replies into a
//! device snapshot, and the decisions of session setup and value retrieval.
//! Network I/O is done by the caller; every function here is pure.

pub mod brother;
pub mod cli;
pub mod config;
pub mod discovery;
pub mod error;
pub mod fetch;
pub mod generic;
pub mod mapping;
pub mod oid;
pub mod printer;
pub mod registry;
pub mod retrieval;
pub mod session;
pub mod supply;
pub mod text;
pub mod value;
