//! Asynchronous signature verification: accounts register a public key,
//! submissions are queued with the account's key and a pending status, and a
//! worker stages each entry, commits the verdict and only then acknowledges
//! it. The store's behaviour is modelled in `store`; `memory` is an
//! in-process store proved to follow that model.

pub mod records;
pub mod crypto;
pub mod store;
pub mod admission;
pub mod worker;
pub mod laws;
pub mod memory;
pub mod pipeline;
