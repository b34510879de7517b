//! Coordination core of a multi-account terminal chat client.
//!
//! The crate models the client's state as plain data and drives it with
//! verified transition functions: room-list ordering, per-room message
//! reconciliation (local echo, replies, reactions), pagination bookkeeping,
//! the device-verification state machine, and the overlay/focus navigation
//! machine.  Network, rendering and persistence live outside the library and
//! communicate with it through plain values and effect requests.

pub mod config;
pub mod dispatch;
pub mod nav;
pub mod reconcile;
pub mod rooms;
pub mod session;
pub mod state;
pub mod store;
pub mod text;
pub mod types;
pub mod verify_sm;
