//! A pay-to-post, pay-to-like message board.
//!
//! All persistent state lives in a [`state::Store`] value that the caller
//! passes into every operation; the transition functions validate attached
//! funds against the stipend fixed at initialization, allocate monotonically
//! increasing message ids, persist messages and like counters, and request
//! the fund relay that rewards a liked message's owner.

pub mod contract;
pub mod error;
pub mod msg;
pub mod state;

pub use error::ContractError;
