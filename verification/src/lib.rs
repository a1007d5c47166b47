//! A deterministic registry for scheduling sortition events ("jury calls").
//!
//! An authenticated caller proposes a set of named candidate pools
//! ("tribes"), a number of members to later select from them, and a future
//! activation time. The registry validates the request (duplicate-name
//! detection, positive selection count, future start time), allocates a
//! monotonically increasing identifier with overflow protection, and
//! persists the new record together with the updated counter as one atomic
//! step: a rejected request changes nothing.

pub mod errors;
pub mod registry;
pub mod types;
pub mod validate;
