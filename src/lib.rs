//! A minting proxy: it charges a fixed price, asks an issuing contract to
//! mint, attaches one pseudo-randomly chosen asset to the new token and hands
//! the token to the caller.
//!
//! The remote calls are made by the host around this crate. The crate holds
//! the configuration, the access guard, the selector and the decisions of the
//! mint protocol, as a state machine from remote replies to next calls.

pub mod types;
pub mod random;
pub mod proxy;

pub use types::{AccountId, Balance, Data, OwnableError, ProxyError, ReentrancyGuardError};
pub use proxy::{MintAction, MintPhase, MintSession, RemoteEvent, RmrkProxy};
