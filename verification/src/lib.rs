//! Message intake for a chat service: validation, mention resolution, reply
//! linking, attachment binding, reactions and bulk deletion, with every
//! decision stated as a contract.

pub mod binder;
pub mod bulk;
pub mod error;
pub mod fanout;
pub mod flags;
pub mod idempotency;
pub mod ident;
pub mod idlist;
pub mod indexed;
pub mod interactions;
pub mod laws;
pub mod mentions;
pub mod model;
pub mod pipeline;
pub mod reactions;
pub mod request;
pub mod system;
