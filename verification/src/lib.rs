//! The decisions of a lightning payment facade, stated and proved.
//!
//! A node reports what became of a payment on a stream of events, long
//! after the call that started it. This library holds what a synchronous
//! `send` and `receive` on top of such a node have to decide:
//!
//! - [`registry`]: which payment is awaited through which one-shot endpoint;
//! - [`dispatch`]: what one event of the node does to that registry, and
//!   whom it resolves;
//! - [`send`]: the steps of a send, from invoice text to the caller's result;
//! - [`liquidity`]: whether a receive asks for a plain invoice or for one
//!   over a just-in-time channel;
//! - [`token`], [`services`]: the network and the services an API token
//!   stands for;
//! - [`balance`], [`status`], [`onchain`], [`ids`], [`hex`], [`error`]: the
//!   snapshots, checks, identifiers and errors around them.
//!
//! Running the node, waiting, locking and sending over channels are the
//! caller's part; every function here works on plain values.

pub mod balance;
pub mod dispatch;
pub mod error;
pub mod hex;
pub mod ids;
pub mod liquidity;
pub mod onchain;
pub mod registry;
pub mod send;
pub mod services;
pub mod status;
pub mod token;

pub use balance::Balances;
pub use error::Error;
pub use error::Error as RomerError;
pub use services::ServiceConfig;
pub use status::Status;
