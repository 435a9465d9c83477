//! State-transition core of a staking and claim program: account checks,
//! the participant record codec, the derived-account lifecycle and the
//! Participate / Claim state machines, over a plain-value model of accounts.
pub mod account;
pub mod error;
pub mod state;
pub mod helper;
pub mod participate;
pub mod claim;
pub mod instructions;

pub use account::{AccountState, Pubkey};
pub use error::{ProgramFault, TetherError};
pub use state::{Admin, Participant};
