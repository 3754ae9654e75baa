//! The entry-authoring core of an agent-centric ledger node.
//!
//! Every agent owns a private, append-only hash chain of entries. An entry is
//! authored in four stages: the validation context is gathered, the entry is
//! validated, it is committed to the local chain, and its address is published
//! so that peers hold a copy. No entry reaches the chain, or the shared store,
//! unless it passed validation first.
//!
//! Work that only the embedding process can do (evaluating the application's
//! validation rules, talking to the network) is not done here: the authoring
//! task in [`workflows::author_entry`] says what has to happen next and takes
//! the outcome as an event, and so does the task in
//! [`workflows::hold_entry`], by which a peer takes an announced entry into
//! its share of the distributed store.

pub mod address;
pub mod bytes;
pub mod chain;
pub mod commit;
pub mod context;
pub mod entry;
pub mod error;
pub mod hash;
pub mod json;
pub mod package;
pub mod publish;
pub mod storage;
pub mod validate;
pub mod validation;
pub mod workflows;
