//! State-transition rules for mention records kept in a content-addressed
//! store: decoding a proposal, locating the prior record, deciding who may
//! overwrite it, and assembling the facts to persist.

pub mod types;
pub mod json;
pub mod clock;
pub mod text;
pub mod decode;
pub mod host;
pub mod store;
pub mod authority;
pub mod encode;
pub mod merge;
pub mod transition;
pub mod laws;
