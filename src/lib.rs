//! A group-payment escrow: contributors pay into a shared pool until the
//! expected number of contributions has been made, after which the organizer
//! can withdraw the target amount exactly once.
//!
//! `state` holds the records and the spec functions that describe each
//! transition, `instructions` the three operations with contracts over those
//! spec functions, and `lemmas` the properties of the lifecycle as a whole.

pub mod error;
pub mod instructions;
pub mod lemmas;
pub mod state;

pub use error::GroupError;
pub use instructions::{
    contribute, create_group, settle_payment, Contribute, CreateGroup, SettlePayment,
};
pub use state::{Group, GroupStatus, Participant, Pubkey};
