//! Verified core of the subscriptions token-delegation program.
//!
//! The program lets users grant scoped spending authority over SPL Token and
//! Token-2022 accounts: fixed delegations, recurring delegations and
//! merchant-defined subscription plans. This crate holds the program's own
//! logic in verified form: the instruction wire format, the rent-exemption
//! rule read from the Rent sysvar, and the decisions taken when a
//! program-owned account is checked, created or closed.

pub mod bytes;
pub mod error;
pub mod instruction;
pub mod payload;
pub mod program_account;
pub mod rent;


pub use error::{ProgramError, SubscriptionsError};
pub use instruction::SubscriptionsInstruction;
pub use program_account::{AccountState, ProgramAccount, SystemAction, ID};
pub use rent::{rent_requirement, RentRequirement};
