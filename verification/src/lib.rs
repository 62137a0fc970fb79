//! Verified core of a multi-session terminal backend: a session registry
//! keyed by caller-chosen string identifiers, the decision logic of the
//! connect / write / resize / disconnect operations and of the per-session
//! output pump, and an encrypted credential vault (master-password key
//! derivation, authenticated encryption, credential records).

pub mod connect;
pub mod conpty;
pub mod crypto;
pub mod pump;
pub mod secure_storage;
pub mod session;
pub mod str_map;
