//! Guest-side marshaling for sandboxed business modules: the arena that backs every buffer
//! crossing the host boundary, the interchange codec, the host capability call contract, the
//! entry-point protocol that wraps a business function, and the business functions
//! themselves, written as steps that hand their capability calls to the caller.

pub mod arena;
pub mod bidding;
pub mod codec;
pub mod error;
pub mod export;
pub mod generic;
pub mod host;
pub mod json;
pub mod network_coin;
pub mod onboarding;
pub mod text;
pub mod tokens;
