//! Errors that the program reports.

use vstd::prelude::*;

verus! {

/// Errors that belong to the subscriptions program itself; the runtime sees
/// them as custom program errors.
#[derive(Debug, Clone, Copy, PartialEq, Eq, Structural)]
pub enum SubscriptionsError {
    /// The instruction data is empty or starts with an unknown discriminator.
    InvalidInstruction,
    /// A lamport or token amount does not fit in 64 bits.
    ArithmeticOverflow,
}

/// The errors with which the program fails an instruction.
#[derive(Debug, Clone, Copy, PartialEq, Eq, Structural)]
pub enum ProgramError {
    /// An argument is out of the range that the runtime accepts.
    InvalidArgument,
    /// An instruction's payload does not have the layout it must have.
    InvalidInstructionData,
    /// An account is not owned by the program that must own it.
    InvalidAccountOwner,
    /// An error of the program itself.
    Custom(SubscriptionsError),
}

} // verus!
