//! Instruction definitions and the instruction-data wire format.
//!
//! The first byte of instruction data is the discriminator, the enum's
//! `repr(u8)` value; the instruction-specific payload, where there is one,
//! follows it and fills the rest of the data exactly. Instructions without a
//! payload ignore whatever follows the discriminator.

use vstd::prelude::*;

use crate::error::{ProgramError, SubscriptionsError};
use crate::payload::{
    CancelSubscriptionNowData, CreateFixedDelegationData, CreateRecurringDelegationData, PlanData,
    ResumeData, SubscribeData, TransferData, UpdatePlanData,
};

verus! {

/// Discriminator of `InitSubscriptionAuthority`.
pub const INIT_SUBSCRIPTION_AUTHORITY: u8 = 0;

/// Discriminator of `CreateFixedDelegation`.
pub const CREATE_FIXED_DELEGATION: u8 = 1;

/// Discriminator of `CreateRecurringDelegation`.
pub const CREATE_RECURRING_DELEGATION: u8 = 2;

/// Discriminator of `RevokeDelegation`.
pub const REVOKE_DELEGATION: u8 = 3;

/// Discriminator of `TransferFixed`.
pub const TRANSFER_FIXED_DELEGATION: u8 = 4;

/// Discriminator of `TransferRecurring`.
pub const TRANSFER_RECURRING_DELEGATION: u8 = 5;

/// Discriminator of `CloseSubscriptionAuthority`.
pub const CLOSE_SUBSCRIPTION_AUTHORITY: u8 = 6;

/// Discriminator of `CreatePlan`.
pub const CREATE_PLAN: u8 = 7;

/// Discriminator of `UpdatePlan`.
pub const UPDATE_PLAN: u8 = 8;

/// Discriminator of `DeletePlan`.
pub const DELETE_PLAN: u8 = 9;

/// Discriminator of `TransferSubscription`.
pub const TRANSFER_SUBSCRIPTION: u8 = 10;

/// Discriminator of `Subscribe`.
pub const SUBSCRIBE: u8 = 11;

/// Discriminator of `CancelSubscription`.
pub const CANCEL_SUBSCRIPTION: u8 = 12;

/// Discriminator of `ResumeSubscription`.
pub const RESUME_SUBSCRIPTION: u8 = 13;

/// Discriminator of `RevokeSubscriptionAuthority`.
pub const REVOKE_SUBSCRIPTION_AUTHORITY: u8 = 14;

/// Discriminator of `RevokeAbandonedDelegation`.
pub const REVOKE_ABANDONED_DELEGATION: u8 = 15;

/// Discriminator of `RevokeAbandonedSubscription`.
pub const REVOKE_ABANDONED_SUBSCRIPTION: u8 = 16;

/// Discriminator of `CancelSubscriptionNow`.
pub const CANCEL_SUBSCRIPTION_NOW: u8 = 17;

/// Discriminator of `EmitEvent`.
pub const EMIT_EVENT_IX_DISC: u8 = 228;

/// All instructions supported by the subscriptions program.
#[derive(Debug, Clone, Copy, PartialEq, Eq, Structural)]
pub enum SubscriptionsInstruction {
    /// Creates the subscription-authority PDA that becomes the delegate of the owner's token account.
    InitSubscriptionAuthority,
    /// Creates a fixed delegation: a one-time allowance with an optional expiry.
    CreateFixedDelegation(CreateFixedDelegationData),
    /// Creates a recurring delegation: an allowance that resets each period.
    CreateRecurringDelegation(CreateRecurringDelegationData),
    /// Closes a delegation; the delegator receives the rent.
    RevokeDelegation,
    /// Transfers tokens under a fixed delegation.
    TransferFixed(TransferData),
    /// Transfers tokens under a recurring delegation.
    TransferRecurring(TransferData),
    /// Closes the subscription-authority PDA.
    CloseSubscriptionAuthority,
    /// Creates a merchant's subscription plan.
    CreatePlan(PlanData),
    /// Updates a plan.
    UpdatePlan(UpdatePlanData),
    /// Deletes a plan; the owner receives the rent.
    DeletePlan,
    /// Pulls a subscription's payment for the current period.
    TransferSubscription(TransferData),
    /// Subscribes to a plan.
    Subscribe(SubscribeData),
    /// Cancels a subscription at the end of its period.
    CancelSubscription,
    /// Resumes a cancelled subscription.
    ResumeSubscription(ResumeData),
    /// Revokes the program's delegate on the token account and closes the subscription-authority PDA.
    RevokeSubscriptionAuthority,
    /// Lets the recorded payer reclaim the rent of an abandoned delegation.
    RevokeAbandonedDelegation,
    /// Lets the recorded payer reclaim the rent of an abandoned subscription.
    RevokeAbandonedSubscription,
    /// Cancels a subscription at once, with the merchant's approval.
    CancelSubscriptionNow(CancelSubscriptionNowData),
    /// Self-invocation through which the program emits events.
    EmitEvent,
}

impl SubscriptionsInstruction {
    /// The discriminator byte that opens the instruction's data.
    pub open spec fn discriminator(self) -> u8 {
        match self {
            SubscriptionsInstruction::InitSubscriptionAuthority => INIT_SUBSCRIPTION_AUTHORITY,
            SubscriptionsInstruction::CreateFixedDelegation(_) => CREATE_FIXED_DELEGATION,
            SubscriptionsInstruction::CreateRecurringDelegation(_) => CREATE_RECURRING_DELEGATION,
            SubscriptionsInstruction::RevokeDelegation => REVOKE_DELEGATION,
            SubscriptionsInstruction::TransferFixed(_) => TRANSFER_FIXED_DELEGATION,
            SubscriptionsInstruction::TransferRecurring(_) => TRANSFER_RECURRING_DELEGATION,
            SubscriptionsInstruction::CloseSubscriptionAuthority => CLOSE_SUBSCRIPTION_AUTHORITY,
            SubscriptionsInstruction::CreatePlan(_) => CREATE_PLAN,
            SubscriptionsInstruction::UpdatePlan(_) => UPDATE_PLAN,
            SubscriptionsInstruction::DeletePlan => DELETE_PLAN,
            SubscriptionsInstruction::TransferSubscription(_) => TRANSFER_SUBSCRIPTION,
            SubscriptionsInstruction::Subscribe(_) => SUBSCRIBE,
            SubscriptionsInstruction::CancelSubscription => CANCEL_SUBSCRIPTION,
            SubscriptionsInstruction::ResumeSubscription(_) => RESUME_SUBSCRIPTION,
            SubscriptionsInstruction::RevokeSubscriptionAuthority => REVOKE_SUBSCRIPTION_AUTHORITY,
            SubscriptionsInstruction::RevokeAbandonedDelegation => REVOKE_ABANDONED_DELEGATION,
            SubscriptionsInstruction::RevokeAbandonedSubscription => REVOKE_ABANDONED_SUBSCRIPTION,
            SubscriptionsInstruction::CancelSubscriptionNow(_) => CANCEL_SUBSCRIPTION_NOW,
            SubscriptionsInstruction::EmitEvent => EMIT_EVENT_IX_DISC,
        }
    }

    /// The encoded payload that follows the discriminator; empty for the
    /// instructions that carry none.
    pub open spec fn payload_bytes(self) -> Seq<u8> {
        match self {
            SubscriptionsInstruction::CreateFixedDelegation(data) => data.encode(),
            SubscriptionsInstruction::CreateRecurringDelegation(data) => data.encode(),
            SubscriptionsInstruction::TransferFixed(data) => data.encode(),
            SubscriptionsInstruction::TransferRecurring(data) => data.encode(),
            SubscriptionsInstruction::CreatePlan(data) => data.encode(),
            SubscriptionsInstruction::UpdatePlan(data) => data.encode(),
            SubscriptionsInstruction::TransferSubscription(data) => data.encode(),
            SubscriptionsInstruction::Subscribe(data) => data.encode(),
            SubscriptionsInstruction::ResumeSubscription(data) => data.encode(),
            SubscriptionsInstruction::CancelSubscriptionNow(data) => data.encode(),
            _ => Seq::empty(),
        }
    }

    /// The instruction carries a payload.
    pub open spec fn has_payload(self) -> bool {
        match self {
            SubscriptionsInstruction::CreateFixedDelegation(_) => true,
            SubscriptionsInstruction::CreateRecurringDelegation(_) => true,
            SubscriptionsInstruction::TransferFixed(_) => true,
            SubscriptionsInstruction::TransferRecurring(_) => true,
            SubscriptionsInstruction::CreatePlan(_) => true,
            SubscriptionsInstruction::UpdatePlan(_) => true,
            SubscriptionsInstruction::TransferSubscription(_) => true,
            SubscriptionsInstruction::Subscribe(_) => true,
            SubscriptionsInstruction::ResumeSubscription(_) => true,
            SubscriptionsInstruction::CancelSubscriptionNow(_) => true,
            _ => false,
        }
    }

    /// The instruction data that encodes `self`: the discriminator, then
    /// the payload.
    pub open spec fn spec_to_bytes(self) -> Seq<u8> {
        seq![self.discriminator()] + self.payload_bytes()
    }

    /// The instruction that `data` holds, or the error with which it is
    /// refused: empty data and unknown discriminators are invalid
    /// instructions; a payload of the wrong length is invalid instruction data.
    pub open spec fn spec_from_bytes(data: Seq<u8>) -> Result<SubscriptionsInstruction, ProgramError> {
        if data.len() == 0 {
            Err(ProgramError::Custom(SubscriptionsError::InvalidInstruction))
        } else {
            let rest = data.drop_first();
            if data[0] == INIT_SUBSCRIPTION_AUTHORITY {
                Ok(SubscriptionsInstruction::InitSubscriptionAuthority)
            } else if data[0] == CREATE_FIXED_DELEGATION {
                if rest.len() == CreateFixedDelegationData::LEN {
                    Ok(SubscriptionsInstruction::CreateFixedDelegation(CreateFixedDelegationData::decode(rest)))
                } else {
                    Err(ProgramError::InvalidInstructionData)
                }
            } else if data[0] == CREATE_RECURRING_DELEGATION {
                if rest.len() == CreateRecurringDelegationData::LEN {
                    Ok(SubscriptionsInstruction::CreateRecurringDelegation(CreateRecurringDelegationData::decode(rest)))
                } else {
                    Err(ProgramError::InvalidInstructionData)
                }
            } else if data[0] == REVOKE_DELEGATION {
                Ok(SubscriptionsInstruction::RevokeDelegation)
            } else if data[0] == TRANSFER_FIXED_DELEGATION {
                if rest.len() == TransferData::LEN {
                    Ok(SubscriptionsInstruction::TransferFixed(TransferData::decode(rest)))
                } else {
                    Err(ProgramError::InvalidInstructionData)
                }
            } else if data[0] == TRANSFER_RECURRING_DELEGATION {
                if rest.len() == TransferData::LEN {
                    Ok(SubscriptionsInstruction::TransferRecurring(TransferData::decode(rest)))
                } else {
                    Err(ProgramError::InvalidInstructionData)
                }
            } else if data[0] == CLOSE_SUBSCRIPTION_AUTHORITY {
                Ok(SubscriptionsInstruction::CloseSubscriptionAuthority)
            } else if data[0] == CREATE_PLAN {
                if rest.len() == PlanData::LEN {
                    Ok(SubscriptionsInstruction::CreatePlan(PlanData::decode(rest)))
                } else {
                    Err(ProgramError::InvalidInstructionData)
                }
            } else if data[0] == UPDATE_PLAN {
                if rest.len() == UpdatePlanData::LEN {
                    Ok(SubscriptionsInstruction::UpdatePlan(UpdatePlanData::decode(rest)))
                } else {
                    Err(ProgramError::InvalidInstructionData)
                }
            } else if data[0] == DELETE_PLAN {
                Ok(SubscriptionsInstruction::DeletePlan)
            } else if data[0] == TRANSFER_SUBSCRIPTION {
                if rest.len() == TransferData::LEN {
                    Ok(SubscriptionsInstruction::TransferSubscription(TransferData::decode(rest)))
                } else {
                    Err(ProgramError::InvalidInstructionData)
                }
            } else if data[0] == SUBSCRIBE {
                if rest.len() == SubscribeData::LEN {
                    Ok(SubscriptionsInstruction::Subscribe(SubscribeData::decode(rest)))
                } else {
                    Err(ProgramError::InvalidInstructionData)
                }
            } else if data[0] == CANCEL_SUBSCRIPTION {
                Ok(SubscriptionsInstruction::CancelSubscription)
            } else if data[0] == RESUME_SUBSCRIPTION {
                if rest.len() == ResumeData::LEN {
                    Ok(SubscriptionsInstruction::ResumeSubscription(ResumeData::decode(rest)))
                } else {
                    Err(ProgramError::InvalidInstructionData)
                }
            } else if data[0] == REVOKE_SUBSCRIPTION_AUTHORITY {
                Ok(SubscriptionsInstruction::RevokeSubscriptionAuthority)
            } else if data[0] == REVOKE_ABANDONED_DELEGATION {
                Ok(SubscriptionsInstruction::RevokeAbandonedDelegation)
            } else if data[0] == REVOKE_ABANDONED_SUBSCRIPTION {
                Ok(SubscriptionsInstruction::RevokeAbandonedSubscription)
            } else if data[0] == CANCEL_SUBSCRIPTION_NOW {
                if rest.len() == CancelSubscriptionNowData::LEN {
                    Ok(SubscriptionsInstruction::CancelSubscriptionNow(CancelSubscriptionNowData::decode(rest)))
                } else {
                    Err(ProgramError::InvalidInstructionData)
                }
            } else if data[0] == EMIT_EVENT_IX_DISC {
                Ok(SubscriptionsInstruction::EmitEvent)
            } else {
                Err(ProgramError::Custom(SubscriptionsError::InvalidInstruction))
            }
        }
    }

    /// Parses a `SubscriptionsInstruction` from raw instruction bytes.
    /// The first byte is the discriminator, followed by instruction-specific data.
    pub fn from_bytes(data: &[u8]) -> (res: Result<Self, ProgramError>)
        ensures
            res == Self::spec_from_bytes(data@),
    {
        if data.len() == 0 {
            return Err(ProgramError::Custom(SubscriptionsError::InvalidInstruction));
        }
        let discriminator = data[0];
        let rest = slice_tail(data);
        if discriminator == INIT_SUBSCRIPTION_AUTHORITY {
            Ok(Self::InitSubscriptionAuthority)
        } else if discriminator == CREATE_FIXED_DELEGATION {
            match CreateFixedDelegationData::load(rest) {
                Ok(loaded) => Ok(Self::CreateFixedDelegation(loaded)),
                Err(e) => Err(e),
            }
        } else if discriminator == CREATE_RECURRING_DELEGATION {
            match CreateRecurringDelegationData::load(rest) {
                Ok(loaded) => Ok(Self::CreateRecurringDelegation(loaded)),
                Err(e) => Err(e),
            }
        } else if discriminator == REVOKE_DELEGATION {
            Ok(Self::RevokeDelegation)
        } else if discriminator == TRANSFER_FIXED_DELEGATION {
            match TransferData::load(rest) {
                Ok(loaded) => Ok(Self::TransferFixed(loaded)),
                Err(e) => Err(e),
            }
        } else if discriminator == TRANSFER_RECURRING_DELEGATION {
            match TransferData::load(rest) {
                Ok(loaded) => Ok(Self::TransferRecurring(loaded)),
                Err(e) => Err(e),
            }
        } else if discriminator == CLOSE_SUBSCRIPTION_AUTHORITY {
            Ok(Self::CloseSubscriptionAuthority)
        } else if discriminator == CREATE_PLAN {
            match PlanData::load(rest) {
                Ok(loaded) => Ok(Self::CreatePlan(loaded)),
                Err(e) => Err(e),
            }
        } else if discriminator == UPDATE_PLAN {
            match UpdatePlanData::load(rest) {
                Ok(loaded) => Ok(Self::UpdatePlan(loaded)),
                Err(e) => Err(e),
            }
        } else if discriminator == DELETE_PLAN {
            Ok(Self::DeletePlan)
        } else if discriminator == TRANSFER_SUBSCRIPTION {
            match TransferData::load(rest) {
                Ok(loaded) => Ok(Self::TransferSubscription(loaded)),
                Err(e) => Err(e),
            }
        } else if discriminator == SUBSCRIBE {
            match SubscribeData::load(rest) {
                Ok(loaded) => Ok(Self::Subscribe(loaded)),
                Err(e) => Err(e),
            }
        } else if discriminator == CANCEL_SUBSCRIPTION {
            Ok(Self::CancelSubscription)
        } else if discriminator == RESUME_SUBSCRIPTION {
            match ResumeData::load(rest) {
                Ok(loaded) => Ok(Self::ResumeSubscription(loaded)),
                Err(e) => Err(e),
            }
        } else if discriminator == REVOKE_SUBSCRIPTION_AUTHORITY {
            Ok(Self::RevokeSubscriptionAuthority)
        } else if discriminator == REVOKE_ABANDONED_DELEGATION {
            Ok(Self::RevokeAbandonedDelegation)
        } else if discriminator == REVOKE_ABANDONED_SUBSCRIPTION {
            Ok(Self::RevokeAbandonedSubscription)
        } else if discriminator == CANCEL_SUBSCRIPTION_NOW {
            match CancelSubscriptionNowData::load(rest) {
                Ok(loaded) => Ok(Self::CancelSubscriptionNow(loaded)),
                Err(e) => Err(e),
            }
        } else if discriminator == EMIT_EVENT_IX_DISC {
            Ok(Self::EmitEvent)
        } else {
            Err(ProgramError::Custom(SubscriptionsError::InvalidInstruction))
        }
    }

    /// The instruction's name, as the program logs it.
    pub open spec fn spec_name(self) -> Seq<char> {
        match self {
            SubscriptionsInstruction::InitSubscriptionAuthority => "init_subscription_authority"@,
            SubscriptionsInstruction::CreateFixedDelegation(_) => "create_fixed_delegation"@,
            SubscriptionsInstruction::CreateRecurringDelegation(_) => "create_recurring_delegation"@,
            SubscriptionsInstruction::RevokeDelegation => "revoke_delegation"@,
            SubscriptionsInstruction::TransferFixed(_) => "transfer_fixed"@,
            SubscriptionsInstruction::TransferRecurring(_) => "transfer_recurring"@,
            SubscriptionsInstruction::CloseSubscriptionAuthority => "close_subscription_authority"@,
            SubscriptionsInstruction::CreatePlan(_) => "create_plan"@,
            SubscriptionsInstruction::UpdatePlan(_) => "update_plan"@,
            SubscriptionsInstruction::DeletePlan => "delete_plan"@,
            SubscriptionsInstruction::TransferSubscription(_) => "transfer_subscription"@,
            SubscriptionsInstruction::Subscribe(_) => "subscribe"@,
            SubscriptionsInstruction::CancelSubscription => "cancel_subscription"@,
            SubscriptionsInstruction::ResumeSubscription(_) => "resume_subscription"@,
            SubscriptionsInstruction::RevokeSubscriptionAuthority => "revoke_subscription_authority"@,
            SubscriptionsInstruction::RevokeAbandonedDelegation => "revoke_abandoned_delegation"@,
            SubscriptionsInstruction::RevokeAbandonedSubscription => "revoke_abandoned_subscription"@,
            SubscriptionsInstruction::CancelSubscriptionNow(_) => "cancel_subscription_now"@,
            SubscriptionsInstruction::EmitEvent => "emit_event"@,
        }
    }

    /// The instruction's name, as the program logs it.
    pub fn to_string(&self) -> (res: String)
        ensures
            res@ == self.spec_name(),
            *self is InitSubscriptionAuthority ==> res@ == "init_subscription_authority"@,
            *self is CreateFixedDelegation ==> res@ == "create_fixed_delegation"@,
            *self is CreateRecurringDelegation ==> res@ == "create_recurring_delegation"@,
            *self is RevokeDelegation ==> res@ == "revoke_delegation"@,
            *self is TransferFixed ==> res@ == "transfer_fixed"@,
            *self is TransferRecurring ==> res@ == "transfer_recurring"@,
            *self is CloseSubscriptionAuthority ==> res@ == "close_subscription_authority"@,
            *self is CreatePlan ==> res@ == "create_plan"@,
            *self is UpdatePlan ==> res@ == "update_plan"@,
            *self is DeletePlan ==> res@ == "delete_plan"@,
            *self is TransferSubscription ==> res@ == "transfer_subscription"@,
            *self is Subscribe ==> res@ == "subscribe"@,
            *self is CancelSubscription ==> res@ == "cancel_subscription"@,
            *self is ResumeSubscription ==> res@ == "resume_subscription"@,
            *self is RevokeSubscriptionAuthority ==> res@ == "revoke_subscription_authority"@,
            *self is RevokeAbandonedDelegation ==> res@ == "revoke_abandoned_delegation"@,
            *self is RevokeAbandonedSubscription ==> res@ == "revoke_abandoned_subscription"@,
            *self is CancelSubscriptionNow ==> res@ == "cancel_subscription_now"@,
            *self is EmitEvent ==> res@ == "emit_event"@,
    {
        match self {
            Self::InitSubscriptionAuthority => "init_subscription_authority".to_owned(),
            Self::CreateFixedDelegation(_) => "create_fixed_delegation".to_owned(),
            Self::CreateRecurringDelegation(_) => "create_recurring_delegation".to_owned(),
            Self::RevokeDelegation => "revoke_delegation".to_owned(),
            Self::TransferFixed(_) => "transfer_fixed".to_owned(),
            Self::TransferRecurring(_) => "transfer_recurring".to_owned(),
            Self::CloseSubscriptionAuthority => "close_subscription_authority".to_owned(),
            Self::CreatePlan(_) => "create_plan".to_owned(),
            Self::UpdatePlan(_) => "update_plan".to_owned(),
            Self::DeletePlan => "delete_plan".to_owned(),
            Self::TransferSubscription(_) => "transfer_subscription".to_owned(),
            Self::Subscribe(_) => "subscribe".to_owned(),
            Self::CancelSubscription => "cancel_subscription".to_owned(),
            Self::ResumeSubscription(_) => "resume_subscription".to_owned(),
            Self::RevokeSubscriptionAuthority => "revoke_subscription_authority".to_owned(),
            Self::RevokeAbandonedDelegation => "revoke_abandoned_delegation".to_owned(),
            Self::RevokeAbandonedSubscription => "revoke_abandoned_subscription".to_owned(),
            Self::CancelSubscriptionNow(_) => "cancel_subscription_now".to_owned(),
            Self::EmitEvent => "emit_event".to_owned(),
        }
    }
}

/// The bytes of `data` after the first.
fn slice_tail(data: &[u8]) -> (rest: &[u8])
    requires
        data@.len() > 0,
    ensures
        rest@ == data@.drop_first(),
{
    let (_, rest) = data.split_at(1);
    rest
}

/// Parsing the encoding of any instruction gives that instruction back.
pub proof fn lemma_from_bytes_roundtrip(ix: SubscriptionsInstruction)
    ensures
        SubscriptionsInstruction::spec_from_bytes(ix.spec_to_bytes()) == Ok::<SubscriptionsInstruction, ProgramError>(ix),
{
    let bytes = ix.spec_to_bytes();
    assert(bytes.drop_first() =~= ix.payload_bytes());
    match ix {
        SubscriptionsInstruction::CreateFixedDelegation(data) => data.lemma_roundtrip(),
        SubscriptionsInstruction::CreateRecurringDelegation(data) => data.lemma_roundtrip(),
        SubscriptionsInstruction::TransferFixed(data) => data.lemma_roundtrip(),
        SubscriptionsInstruction::TransferRecurring(data) => data.lemma_roundtrip(),
        SubscriptionsInstruction::CreatePlan(data) => data.lemma_roundtrip(),
        SubscriptionsInstruction::UpdatePlan(data) => data.lemma_roundtrip(),
        SubscriptionsInstruction::TransferSubscription(data) => data.lemma_roundtrip(),
        SubscriptionsInstruction::Subscribe(data) => data.lemma_roundtrip(),
        SubscriptionsInstruction::ResumeSubscription(data) => data.lemma_roundtrip(),
        SubscriptionsInstruction::CancelSubscriptionNow(data) => data.lemma_roundtrip(),
        _ => {},
    }
}

/// Parsing takes the discriminator from the first byte, and the data it
/// accepts opens with the encoding of the instruction it returns; an
/// instruction with a payload is accepted from nothing but its encoding.
pub proof fn lemma_from_bytes_reads_encoding(data: Seq<u8>)
    ensures
        SubscriptionsInstruction::spec_from_bytes(data) matches Ok(ix) ==> {
            &&& data.len() > 0
            &&& ix.discriminator() == data[0]
            &&& ix.spec_to_bytes() == data.subrange(0, ix.spec_to_bytes().len() as int)
            &&& ix.has_payload() ==> ix.spec_to_bytes() == data
        },
{
    if data.len() > 0 {
        let rest = data.drop_first();
        assert(data =~= seq![data[0]] + rest);
        assert(data.subrange(0, 1) =~= seq![data[0]]);
        assert(seq![data[0]] + Seq::<u8>::empty() =~= seq![data[0]]);
        if data[0] == CREATE_FIXED_DELEGATION && rest.len() == CreateFixedDelegationData::LEN {
            CreateFixedDelegationData::lemma_reencode(rest);
            assert(data.subrange(0, data.len() as int) =~= data);
        }
        if data[0] == CREATE_RECURRING_DELEGATION && rest.len() == CreateRecurringDelegationData::LEN {
            CreateRecurringDelegationData::lemma_reencode(rest);
            assert(data.subrange(0, data.len() as int) =~= data);
        }
        if data[0] == TRANSFER_FIXED_DELEGATION && rest.len() == TransferData::LEN {
            TransferData::lemma_reencode(rest);
            assert(data.subrange(0, data.len() as int) =~= data);
        }
        if data[0] == TRANSFER_RECURRING_DELEGATION && rest.len() == TransferData::LEN {
            TransferData::lemma_reencode(rest);
            assert(data.subrange(0, data.len() as int) =~= data);
        }
        if data[0] == CREATE_PLAN && rest.len() == PlanData::LEN {
            PlanData::lemma_reencode(rest);
            assert(data.subrange(0, data.len() as int) =~= data);
        }
        if data[0] == UPDATE_PLAN && rest.len() == UpdatePlanData::LEN {
            UpdatePlanData::lemma_reencode(rest);
            assert(data.subrange(0, data.len() as int) =~= data);
        }
        if data[0] == TRANSFER_SUBSCRIPTION && rest.len() == TransferData::LEN {
            TransferData::lemma_reencode(rest);
            assert(data.subrange(0, data.len() as int) =~= data);
        }
        if data[0] == SUBSCRIBE && rest.len() == SubscribeData::LEN {
            SubscribeData::lemma_reencode(rest);
            assert(data.subrange(0, data.len() as int) =~= data);
        }
        if data[0] == RESUME_SUBSCRIPTION && rest.len() == ResumeData::LEN {
            ResumeData::lemma_reencode(rest);
            assert(data.subrange(0, data.len() as int) =~= data);
        }
        if data[0] == CANCEL_SUBSCRIPTION_NOW && rest.len() == CancelSubscriptionNowData::LEN {
            CancelSubscriptionNowData::lemma_reencode(rest);
            assert(data.subrange(0, data.len() as int) =~= data);
        }
    }
}

/// Each instruction is named after its kind alone, whatever its payload.
pub proof fn lemma_instruction_names(ix: SubscriptionsInstruction)
    ensures
        ix is InitSubscriptionAuthority ==> ix.spec_name() == "init_subscription_authority"@,
        ix is CreateFixedDelegation ==> ix.spec_name() == "create_fixed_delegation"@,
        ix is CreateRecurringDelegation ==> ix.spec_name() == "create_recurring_delegation"@,
        ix is RevokeDelegation ==> ix.spec_name() == "revoke_delegation"@,
        ix is TransferFixed ==> ix.spec_name() == "transfer_fixed"@,
        ix is TransferRecurring ==> ix.spec_name() == "transfer_recurring"@,
        ix is CloseSubscriptionAuthority ==> ix.spec_name() == "close_subscription_authority"@,
        ix is CreatePlan ==> ix.spec_name() == "create_plan"@,
        ix is UpdatePlan ==> ix.spec_name() == "update_plan"@,
        ix is DeletePlan ==> ix.spec_name() == "delete_plan"@,
        ix is TransferSubscription ==> ix.spec_name() == "transfer_subscription"@,
        ix is Subscribe ==> ix.spec_name() == "subscribe"@,
        ix is CancelSubscription ==> ix.spec_name() == "cancel_subscription"@,
        ix is ResumeSubscription ==> ix.spec_name() == "resume_subscription"@,
        ix is RevokeSubscriptionAuthority ==> ix.spec_name() == "revoke_subscription_authority"@,
        ix is RevokeAbandonedDelegation ==> ix.spec_name() == "revoke_abandoned_delegation"@,
        ix is RevokeAbandonedSubscription ==> ix.spec_name() == "revoke_abandoned_subscription"@,
        ix is CancelSubscriptionNow ==> ix.spec_name() == "cancel_subscription_now"@,
        ix is EmitEvent ==> ix.spec_name() == "emit_event"@,
{
}

/// A short signature of a name: its length and its first, second and
/// eighth characters, which tell the instruction names apart.
pub open spec fn name_signature(name: Seq<char>) -> (nat, char, char, char) {
    (name.len(), name[0], name[1], name[7])
}

/// The discriminator of the instruction whose name has signature `sig`.
pub open spec fn discriminator_of_signature(sig: (nat, char, char, char)) -> u8 {
    if sig == (27nat, 'i', 'n', 'b') {
        INIT_SUBSCRIPTION_AUTHORITY
    } else if sig == (23nat, 'c', 'r', 'f') {
        CREATE_FIXED_DELEGATION
    } else if sig == (27nat, 'c', 'r', 'r') {
        CREATE_RECURRING_DELEGATION
    } else if sig == (17nat, 'r', 'e', 'd') {
        REVOKE_DELEGATION
    } else if sig == (14nat, 't', 'r', 'r') {
        TRANSFER_FIXED_DELEGATION
    } else if sig == (18nat, 't', 'r', 'r') {
        TRANSFER_RECURRING_DELEGATION
    } else if sig == (28nat, 'c', 'l', 'u') {
        CLOSE_SUBSCRIPTION_AUTHORITY
    } else if sig == (11nat, 'c', 'r', 'p') {
        CREATE_PLAN
    } else if sig == (11nat, 'u', 'p', 'p') {
        UPDATE_PLAN
    } else if sig == (11nat, 'd', 'e', 'p') {
        DELETE_PLAN
    } else if sig == (21nat, 't', 'r', 'r') {
        TRANSFER_SUBSCRIPTION
    } else if sig == (9nat, 's', 'u', 'b') {
        SUBSCRIBE
    } else if sig == (19nat, 'c', 'a', 's') {
        CANCEL_SUBSCRIPTION
    } else if sig == (19nat, 'r', 'e', 's') {
        RESUME_SUBSCRIPTION
    } else if sig == (29nat, 'r', 'e', 's') {
        REVOKE_SUBSCRIPTION_AUTHORITY
    } else if sig == (27nat, 'r', 'e', 'a') {
        REVOKE_ABANDONED_DELEGATION
    } else if sig == (29nat, 'r', 'e', 'a') {
        REVOKE_ABANDONED_SUBSCRIPTION
    } else if sig == (23nat, 'c', 'a', 's') {
        CANCEL_SUBSCRIPTION_NOW
    } else if sig == (10nat, 'e', 'm', 'e') {
        EMIT_EVENT_IX_DISC
    } else {
        0
    }
}

/// An instruction's name determines its discriminator.
pub proof fn lemma_name_determines_discriminator(ix: SubscriptionsInstruction)
    ensures
        discriminator_of_signature(name_signature(ix.spec_name())) == ix.discriminator(),
{
    match ix {
        SubscriptionsInstruction::InitSubscriptionAuthority => reveal_strlit("init_subscription_authority"),
        SubscriptionsInstruction::CreateFixedDelegation(_) => reveal_strlit("create_fixed_delegation"),
        SubscriptionsInstruction::CreateRecurringDelegation(_) => reveal_strlit("create_recurring_delegation"),
        SubscriptionsInstruction::RevokeDelegation => reveal_strlit("revoke_delegation"),
        SubscriptionsInstruction::TransferFixed(_) => reveal_strlit("transfer_fixed"),
        SubscriptionsInstruction::TransferRecurring(_) => reveal_strlit("transfer_recurring"),
        SubscriptionsInstruction::CloseSubscriptionAuthority => reveal_strlit("close_subscription_authority"),
        SubscriptionsInstruction::CreatePlan(_) => reveal_strlit("create_plan"),
        SubscriptionsInstruction::UpdatePlan(_) => reveal_strlit("update_plan"),
        SubscriptionsInstruction::DeletePlan => reveal_strlit("delete_plan"),
        SubscriptionsInstruction::TransferSubscription(_) => reveal_strlit("transfer_subscription"),
        SubscriptionsInstruction::Subscribe(_) => reveal_strlit("subscribe"),
        SubscriptionsInstruction::CancelSubscription => reveal_strlit("cancel_subscription"),
        SubscriptionsInstruction::ResumeSubscription(_) => reveal_strlit("resume_subscription"),
        SubscriptionsInstruction::RevokeSubscriptionAuthority => reveal_strlit("revoke_subscription_authority"),
        SubscriptionsInstruction::RevokeAbandonedDelegation => reveal_strlit("revoke_abandoned_delegation"),
        SubscriptionsInstruction::RevokeAbandonedSubscription => reveal_strlit("revoke_abandoned_subscription"),
        SubscriptionsInstruction::CancelSubscriptionNow(_) => reveal_strlit("cancel_subscription_now"),
        SubscriptionsInstruction::EmitEvent => reveal_strlit("emit_event"),
    }
}

/// Distinct kinds of instruction have distinct names: the name tells which
/// instruction, with which discriminator, was logged.
pub proof fn lemma_instruction_names_distinct(a: SubscriptionsInstruction, b: SubscriptionsInstruction)
    ensures
        a.spec_name() == b.spec_name() ==> a.discriminator() == b.discriminator(),
{
    lemma_name_determines_discriminator(a);
    lemma_name_determines_discriminator(b);
}

/// The encoding of `InitSubscriptionAuthority` parses to it.
proof fn lemma_wire_init_subscription_authority()
    ensures
        forall|rest: Seq<u8>| #[trigger] SubscriptionsInstruction::spec_from_bytes(seq![0u8] + rest)
            == Ok::<SubscriptionsInstruction, ProgramError>(SubscriptionsInstruction::InitSubscriptionAuthority),
{
    assert forall|rest: Seq<u8>| #[trigger] SubscriptionsInstruction::spec_from_bytes(seq![0u8] + rest)
        == Ok::<SubscriptionsInstruction, ProgramError>(SubscriptionsInstruction::InitSubscriptionAuthority) by {
        assert((seq![0u8] + rest)[0] == 0u8);
    }
}

/// The encoding of `CreateFixedDelegation` parses to it.
proof fn lemma_wire_create_fixed_delegation()
    ensures
        forall|x: CreateFixedDelegationData| #[trigger] SubscriptionsInstruction::spec_from_bytes(seq![1u8] + x.encode())
            == Ok::<SubscriptionsInstruction, ProgramError>(SubscriptionsInstruction::CreateFixedDelegation(x)),
        forall|data: Seq<u8>| data.len() > 0 && data[0] == 1u8 && data.len() != 25
            ==> #[trigger] SubscriptionsInstruction::spec_from_bytes(data) == Err::<SubscriptionsInstruction, ProgramError>(ProgramError::InvalidInstructionData),
{
    assert forall|x: CreateFixedDelegationData| #[trigger] SubscriptionsInstruction::spec_from_bytes(seq![1u8] + x.encode())
        == Ok::<SubscriptionsInstruction, ProgramError>(SubscriptionsInstruction::CreateFixedDelegation(x)) by {
        x.lemma_roundtrip();
        assert((seq![1u8] + x.encode()).drop_first() =~= x.encode());
    }
}

/// The encoding of `CreateRecurringDelegation` parses to it.
proof fn lemma_wire_create_recurring_delegation()
    ensures
        forall|x: CreateRecurringDelegationData| #[trigger] SubscriptionsInstruction::spec_from_bytes(seq![2u8] + x.encode())
            == Ok::<SubscriptionsInstruction, ProgramError>(SubscriptionsInstruction::CreateRecurringDelegation(x)),
        forall|data: Seq<u8>| data.len() > 0 && data[0] == 2u8 && data.len() != 41
            ==> #[trigger] SubscriptionsInstruction::spec_from_bytes(data) == Err::<SubscriptionsInstruction, ProgramError>(ProgramError::InvalidInstructionData),
{
    assert forall|x: CreateRecurringDelegationData| #[trigger] SubscriptionsInstruction::spec_from_bytes(seq![2u8] + x.encode())
        == Ok::<SubscriptionsInstruction, ProgramError>(SubscriptionsInstruction::CreateRecurringDelegation(x)) by {
        x.lemma_roundtrip();
        assert((seq![2u8] + x.encode()).drop_first() =~= x.encode());
    }
}

/// The encoding of `RevokeDelegation` parses to it.
proof fn lemma_wire_revoke_delegation()
    ensures
        forall|rest: Seq<u8>| #[trigger] SubscriptionsInstruction::spec_from_bytes(seq![3u8] + rest)
            == Ok::<SubscriptionsInstruction, ProgramError>(SubscriptionsInstruction::RevokeDelegation),
{
    assert forall|rest: Seq<u8>| #[trigger] SubscriptionsInstruction::spec_from_bytes(seq![3u8] + rest)
        == Ok::<SubscriptionsInstruction, ProgramError>(SubscriptionsInstruction::RevokeDelegation) by {
        assert((seq![3u8] + rest)[0] == 3u8);
    }
}

/// The encoding of `TransferFixed` parses to it.
proof fn lemma_wire_transfer_fixed()
    ensures
        forall|x: TransferData| #[trigger] SubscriptionsInstruction::spec_from_bytes(seq![4u8] + x.encode())
            == Ok::<SubscriptionsInstruction, ProgramError>(SubscriptionsInstruction::TransferFixed(x)),
        forall|data: Seq<u8>| data.len() > 0 && data[0] == 4u8 && data.len() != 9
            ==> #[trigger] SubscriptionsInstruction::spec_from_bytes(data) == Err::<SubscriptionsInstruction, ProgramError>(ProgramError::InvalidInstructionData),
{
    assert forall|x: TransferData| #[trigger] SubscriptionsInstruction::spec_from_bytes(seq![4u8] + x.encode())
        == Ok::<SubscriptionsInstruction, ProgramError>(SubscriptionsInstruction::TransferFixed(x)) by {
        x.lemma_roundtrip();
        assert((seq![4u8] + x.encode()).drop_first() =~= x.encode());
    }
}

/// The encoding of `TransferRecurring` parses to it.
proof fn lemma_wire_transfer_recurring()
    ensures
        forall|x: TransferData| #[trigger] SubscriptionsInstruction::spec_from_bytes(seq![5u8] + x.encode())
            == Ok::<SubscriptionsInstruction, ProgramError>(SubscriptionsInstruction::TransferRecurring(x)),
        forall|data: Seq<u8>| data.len() > 0 && data[0] == 5u8 && data.len() != 9
            ==> #[trigger] SubscriptionsInstruction::spec_from_bytes(data) == Err::<SubscriptionsInstruction, ProgramError>(ProgramError::InvalidInstructionData),
{
    assert forall|x: TransferData| #[trigger] SubscriptionsInstruction::spec_from_bytes(seq![5u8] + x.encode())
        == Ok::<SubscriptionsInstruction, ProgramError>(SubscriptionsInstruction::TransferRecurring(x)) by {
        x.lemma_roundtrip();
        assert((seq![5u8] + x.encode()).drop_first() =~= x.encode());
    }
}

/// The encoding of `CloseSubscriptionAuthority` parses to it.
proof fn lemma_wire_close_subscription_authority()
    ensures
        forall|rest: Seq<u8>| #[trigger] SubscriptionsInstruction::spec_from_bytes(seq![6u8] + rest)
            == Ok::<SubscriptionsInstruction, ProgramError>(SubscriptionsInstruction::CloseSubscriptionAuthority),
{
    assert forall|rest: Seq<u8>| #[trigger] SubscriptionsInstruction::spec_from_bytes(seq![6u8] + rest)
        == Ok::<SubscriptionsInstruction, ProgramError>(SubscriptionsInstruction::CloseSubscriptionAuthority) by {
        assert((seq![6u8] + rest)[0] == 6u8);
    }
}

/// The encoding of `CreatePlan` parses to it.
proof fn lemma_wire_create_plan()
    ensures
        forall|x: PlanData| #[trigger] SubscriptionsInstruction::spec_from_bytes(seq![7u8] + x.encode())
            == Ok::<SubscriptionsInstruction, ProgramError>(SubscriptionsInstruction::CreatePlan(x)),
        forall|data: Seq<u8>| data.len() > 0 && data[0] == 7u8 && data.len() != 33
            ==> #[trigger] SubscriptionsInstruction::spec_from_bytes(data) == Err::<SubscriptionsInstruction, ProgramError>(ProgramError::InvalidInstructionData),
{
    assert forall|x: PlanData| #[trigger] SubscriptionsInstruction::spec_from_bytes(seq![7u8] + x.encode())
        == Ok::<SubscriptionsInstruction, ProgramError>(SubscriptionsInstruction::CreatePlan(x)) by {
        x.lemma_roundtrip();
        assert((seq![7u8] + x.encode()).drop_first() =~= x.encode());
    }
}

/// The encoding of `UpdatePlan` parses to it.
proof fn lemma_wire_update_plan()
    ensures
        forall|x: UpdatePlanData| #[trigger] SubscriptionsInstruction::spec_from_bytes(seq![8u8] + x.encode())
            == Ok::<SubscriptionsInstruction, ProgramError>(SubscriptionsInstruction::UpdatePlan(x)),
        forall|data: Seq<u8>| data.len() > 0 && data[0] == 8u8 && data.len() != 10
            ==> #[trigger] SubscriptionsInstruction::spec_from_bytes(data) == Err::<SubscriptionsInstruction, ProgramError>(ProgramError::InvalidInstructionData),
{
    assert forall|x: UpdatePlanData| #[trigger] SubscriptionsInstruction::spec_from_bytes(seq![8u8] + x.encode())
        == Ok::<SubscriptionsInstruction, ProgramError>(SubscriptionsInstruction::UpdatePlan(x)) by {
        x.lemma_roundtrip();
        assert((seq![8u8] + x.encode()).drop_first() =~= x.encode());
    }
}

/// The encoding of `DeletePlan` parses to it.
proof fn lemma_wire_delete_plan()
    ensures
        forall|rest: Seq<u8>| #[trigger] SubscriptionsInstruction::spec_from_bytes(seq![9u8] + rest)
            == Ok::<SubscriptionsInstruction, ProgramError>(SubscriptionsInstruction::DeletePlan),
{
    assert forall|rest: Seq<u8>| #[trigger] SubscriptionsInstruction::spec_from_bytes(seq![9u8] + rest)
        == Ok::<SubscriptionsInstruction, ProgramError>(SubscriptionsInstruction::DeletePlan) by {
        assert((seq![9u8] + rest)[0] == 9u8);
    }
}

/// The encoding of `TransferSubscription` parses to it.
proof fn lemma_wire_transfer_subscription()
    ensures
        forall|x: TransferData| #[trigger] SubscriptionsInstruction::spec_from_bytes(seq![10u8] + x.encode())
            == Ok::<SubscriptionsInstruction, ProgramError>(SubscriptionsInstruction::TransferSubscription(x)),
        forall|data: Seq<u8>| data.len() > 0 && data[0] == 10u8 && data.len() != 9
            ==> #[trigger] SubscriptionsInstruction::spec_from_bytes(data) == Err::<SubscriptionsInstruction, ProgramError>(ProgramError::InvalidInstructionData),
{
    assert forall|x: TransferData| #[trigger] SubscriptionsInstruction::spec_from_bytes(seq![10u8] + x.encode())
        == Ok::<SubscriptionsInstruction, ProgramError>(SubscriptionsInstruction::TransferSubscription(x)) by {
        x.lemma_roundtrip();
        assert((seq![10u8] + x.encode()).drop_first() =~= x.encode());
    }
}

/// The encoding of `Subscribe` parses to it.
proof fn lemma_wire_subscribe()
    ensures
        forall|x: SubscribeData| #[trigger] SubscriptionsInstruction::spec_from_bytes(seq![11u8] + x.encode())
            == Ok::<SubscriptionsInstruction, ProgramError>(SubscriptionsInstruction::Subscribe(x)),
        forall|data: Seq<u8>| data.len() > 0 && data[0] == 11u8 && data.len() != 17
            ==> #[trigger] SubscriptionsInstruction::spec_from_bytes(data) == Err::<SubscriptionsInstruction, ProgramError>(ProgramError::InvalidInstructionData),
{
    assert forall|x: SubscribeData| #[trigger] SubscriptionsInstruction::spec_from_bytes(seq![11u8] + x.encode())
        == Ok::<SubscriptionsInstruction, ProgramError>(SubscriptionsInstruction::Subscribe(x)) by {
        x.lemma_roundtrip();
        assert((seq![11u8] + x.encode()).drop_first() =~= x.encode());
    }
}

/// The encoding of `CancelSubscription` parses to it.
proof fn lemma_wire_cancel_subscription()
    ensures
        forall|rest: Seq<u8>| #[trigger] SubscriptionsInstruction::spec_from_bytes(seq![12u8] + rest)
            == Ok::<SubscriptionsInstruction, ProgramError>(SubscriptionsInstruction::CancelSubscription),
{
    assert forall|rest: Seq<u8>| #[trigger] SubscriptionsInstruction::spec_from_bytes(seq![12u8] + rest)
        == Ok::<SubscriptionsInstruction, ProgramError>(SubscriptionsInstruction::CancelSubscription) by {
        assert((seq![12u8] + rest)[0] == 12u8);
    }
}

/// The encoding of `ResumeSubscription` parses to it.
proof fn lemma_wire_resume_subscription()
    ensures
        forall|x: ResumeData| #[trigger] SubscriptionsInstruction::spec_from_bytes(seq![13u8] + x.encode())
            == Ok::<SubscriptionsInstruction, ProgramError>(SubscriptionsInstruction::ResumeSubscription(x)),
        forall|data: Seq<u8>| data.len() > 0 && data[0] == 13u8 && data.len() != 17
            ==> #[trigger] SubscriptionsInstruction::spec_from_bytes(data) == Err::<SubscriptionsInstruction, ProgramError>(ProgramError::InvalidInstructionData),
{
    assert forall|x: ResumeData| #[trigger] SubscriptionsInstruction::spec_from_bytes(seq![13u8] + x.encode())
        == Ok::<SubscriptionsInstruction, ProgramError>(SubscriptionsInstruction::ResumeSubscription(x)) by {
        x.lemma_roundtrip();
        assert((seq![13u8] + x.encode()).drop_first() =~= x.encode());
    }
}

/// The encoding of `RevokeSubscriptionAuthority` parses to it.
proof fn lemma_wire_revoke_subscription_authority()
    ensures
        forall|rest: Seq<u8>| #[trigger] SubscriptionsInstruction::spec_from_bytes(seq![14u8] + rest)
            == Ok::<SubscriptionsInstruction, ProgramError>(SubscriptionsInstruction::RevokeSubscriptionAuthority),
{
    assert forall|rest: Seq<u8>| #[trigger] SubscriptionsInstruction::spec_from_bytes(seq![14u8] + rest)
        == Ok::<SubscriptionsInstruction, ProgramError>(SubscriptionsInstruction::RevokeSubscriptionAuthority) by {
        assert((seq![14u8] + rest)[0] == 14u8);
    }
}

/// The encoding of `RevokeAbandonedDelegation` parses to it.
proof fn lemma_wire_revoke_abandoned_delegation()
    ensures
        forall|rest: Seq<u8>| #[trigger] SubscriptionsInstruction::spec_from_bytes(seq![15u8] + rest)
            == Ok::<SubscriptionsInstruction, ProgramError>(SubscriptionsInstruction::RevokeAbandonedDelegation),
{
    assert forall|rest: Seq<u8>| #[trigger] SubscriptionsInstruction::spec_from_bytes(seq![15u8] + rest)
        == Ok::<SubscriptionsInstruction, ProgramError>(SubscriptionsInstruction::RevokeAbandonedDelegation) by {
        assert((seq![15u8] + rest)[0] == 15u8);
    }
}

/// The encoding of `RevokeAbandonedSubscription` parses to it.
proof fn lemma_wire_revoke_abandoned_subscription()
    ensures
        forall|rest: Seq<u8>| #[trigger] SubscriptionsInstruction::spec_from_bytes(seq![16u8] + rest)
            == Ok::<SubscriptionsInstruction, ProgramError>(SubscriptionsInstruction::RevokeAbandonedSubscription),
{
    assert forall|rest: Seq<u8>| #[trigger] SubscriptionsInstruction::spec_from_bytes(seq![16u8] + rest)
        == Ok::<SubscriptionsInstruction, ProgramError>(SubscriptionsInstruction::RevokeAbandonedSubscription) by {
        assert((seq![16u8] + rest)[0] == 16u8);
    }
}

/// The encoding of `CancelSubscriptionNow` parses to it.
proof fn lemma_wire_cancel_subscription_now()
    ensures
        forall|x: CancelSubscriptionNowData| #[trigger] SubscriptionsInstruction::spec_from_bytes(seq![17u8] + x.encode())
            == Ok::<SubscriptionsInstruction, ProgramError>(SubscriptionsInstruction::CancelSubscriptionNow(x)),
        forall|data: Seq<u8>| data.len() > 0 && data[0] == 17u8 && data.len() != 9
            ==> #[trigger] SubscriptionsInstruction::spec_from_bytes(data) == Err::<SubscriptionsInstruction, ProgramError>(ProgramError::InvalidInstructionData),
{
    assert forall|x: CancelSubscriptionNowData| #[trigger] SubscriptionsInstruction::spec_from_bytes(seq![17u8] + x.encode())
        == Ok::<SubscriptionsInstruction, ProgramError>(SubscriptionsInstruction::CancelSubscriptionNow(x)) by {
        x.lemma_roundtrip();
        assert((seq![17u8] + x.encode()).drop_first() =~= x.encode());
    }
}

/// The encoding of `EmitEvent` parses to it.
proof fn lemma_wire_emit_event()
    ensures
        forall|rest: Seq<u8>| #[trigger] SubscriptionsInstruction::spec_from_bytes(seq![228u8] + rest)
            == Ok::<SubscriptionsInstruction, ProgramError>(SubscriptionsInstruction::EmitEvent),
{
    assert forall|rest: Seq<u8>| #[trigger] SubscriptionsInstruction::spec_from_bytes(seq![228u8] + rest)
        == Ok::<SubscriptionsInstruction, ProgramError>(SubscriptionsInstruction::EmitEvent) by {
        assert((seq![228u8] + rest)[0] == 228u8);
    }
}

/// The wire format, written out: each instruction's discriminator byte,
/// followed by its payload's encoding, parses to that instruction; the
/// instructions without a payload parse from their byte whatever follows
/// it; a payload instruction whose data is not one byte longer than its
/// payload is invalid instruction data; empty data and every other first
/// byte are invalid instructions.
pub proof fn lemma_wire_format()
    ensures
        forall|rest: Seq<u8>| #[trigger] SubscriptionsInstruction::spec_from_bytes(seq![0u8] + rest)
            == Ok::<SubscriptionsInstruction, ProgramError>(SubscriptionsInstruction::InitSubscriptionAuthority),
        forall|x: CreateFixedDelegationData| #[trigger] SubscriptionsInstruction::spec_from_bytes(seq![1u8] + x.encode())
            == Ok::<SubscriptionsInstruction, ProgramError>(SubscriptionsInstruction::CreateFixedDelegation(x)),
        forall|data: Seq<u8>| data.len() > 0 && data[0] == 1u8 && data.len() != 25
            ==> #[trigger] SubscriptionsInstruction::spec_from_bytes(data) == Err::<SubscriptionsInstruction, ProgramError>(ProgramError::InvalidInstructionData),
        forall|x: CreateRecurringDelegationData| #[trigger] SubscriptionsInstruction::spec_from_bytes(seq![2u8] + x.encode())
            == Ok::<SubscriptionsInstruction, ProgramError>(SubscriptionsInstruction::CreateRecurringDelegation(x)),
        forall|data: Seq<u8>| data.len() > 0 && data[0] == 2u8 && data.len() != 41
            ==> #[trigger] SubscriptionsInstruction::spec_from_bytes(data) == Err::<SubscriptionsInstruction, ProgramError>(ProgramError::InvalidInstructionData),
        forall|rest: Seq<u8>| #[trigger] SubscriptionsInstruction::spec_from_bytes(seq![3u8] + rest)
            == Ok::<SubscriptionsInstruction, ProgramError>(SubscriptionsInstruction::RevokeDelegation),
        forall|x: TransferData| #[trigger] SubscriptionsInstruction::spec_from_bytes(seq![4u8] + x.encode())
            == Ok::<SubscriptionsInstruction, ProgramError>(SubscriptionsInstruction::TransferFixed(x)),
        forall|data: Seq<u8>| data.len() > 0 && data[0] == 4u8 && data.len() != 9
            ==> #[trigger] SubscriptionsInstruction::spec_from_bytes(data) == Err::<SubscriptionsInstruction, ProgramError>(ProgramError::InvalidInstructionData),
        forall|x: TransferData| #[trigger] SubscriptionsInstruction::spec_from_bytes(seq![5u8] + x.encode())
            == Ok::<SubscriptionsInstruction, ProgramError>(SubscriptionsInstruction::TransferRecurring(x)),
        forall|data: Seq<u8>| data.len() > 0 && data[0] == 5u8 && data.len() != 9
            ==> #[trigger] SubscriptionsInstruction::spec_from_bytes(data) == Err::<SubscriptionsInstruction, ProgramError>(ProgramError::InvalidInstructionData),
        forall|rest: Seq<u8>| #[trigger] SubscriptionsInstruction::spec_from_bytes(seq![6u8] + rest)
            == Ok::<SubscriptionsInstruction, ProgramError>(SubscriptionsInstruction::CloseSubscriptionAuthority),
        forall|x: PlanData| #[trigger] SubscriptionsInstruction::spec_from_bytes(seq![7u8] + x.encode())
            == Ok::<SubscriptionsInstruction, ProgramError>(SubscriptionsInstruction::CreatePlan(x)),
        forall|data: Seq<u8>| data.len() > 0 && data[0] == 7u8 && data.len() != 33
            ==> #[trigger] SubscriptionsInstruction::spec_from_bytes(data) == Err::<SubscriptionsInstruction, ProgramError>(ProgramError::InvalidInstructionData),
        forall|x: UpdatePlanData| #[trigger] SubscriptionsInstruction::spec_from_bytes(seq![8u8] + x.encode())
            == Ok::<SubscriptionsInstruction, ProgramError>(SubscriptionsInstruction::UpdatePlan(x)),
        forall|data: Seq<u8>| data.len() > 0 && data[0] == 8u8 && data.len() != 10
            ==> #[trigger] SubscriptionsInstruction::spec_from_bytes(data) == Err::<SubscriptionsInstruction, ProgramError>(ProgramError::InvalidInstructionData),
        forall|rest: Seq<u8>| #[trigger] SubscriptionsInstruction::spec_from_bytes(seq![9u8] + rest)
            == Ok::<SubscriptionsInstruction, ProgramError>(SubscriptionsInstruction::DeletePlan),
        forall|x: TransferData| #[trigger] SubscriptionsInstruction::spec_from_bytes(seq![10u8] + x.encode())
            == Ok::<SubscriptionsInstruction, ProgramError>(SubscriptionsInstruction::TransferSubscription(x)),
        forall|data: Seq<u8>| data.len() > 0 && data[0] == 10u8 && data.len() != 9
            ==> #[trigger] SubscriptionsInstruction::spec_from_bytes(data) == Err::<SubscriptionsInstruction, ProgramError>(ProgramError::InvalidInstructionData),
        forall|x: SubscribeData| #[trigger] SubscriptionsInstruction::spec_from_bytes(seq![11u8] + x.encode())
            == Ok::<SubscriptionsInstruction, ProgramError>(SubscriptionsInstruction::Subscribe(x)),
        forall|data: Seq<u8>| data.len() > 0 && data[0] == 11u8 && data.len() != 17
            ==> #[trigger] SubscriptionsInstruction::spec_from_bytes(data) == Err::<SubscriptionsInstruction, ProgramError>(ProgramError::InvalidInstructionData),
        forall|rest: Seq<u8>| #[trigger] SubscriptionsInstruction::spec_from_bytes(seq![12u8] + rest)
            == Ok::<SubscriptionsInstruction, ProgramError>(SubscriptionsInstruction::CancelSubscription),
        forall|x: ResumeData| #[trigger] SubscriptionsInstruction::spec_from_bytes(seq![13u8] + x.encode())
            == Ok::<SubscriptionsInstruction, ProgramError>(SubscriptionsInstruction::ResumeSubscription(x)),
        forall|data: Seq<u8>| data.len() > 0 && data[0] == 13u8 && data.len() != 17
            ==> #[trigger] SubscriptionsInstruction::spec_from_bytes(data) == Err::<SubscriptionsInstruction, ProgramError>(ProgramError::InvalidInstructionData),
        forall|rest: Seq<u8>| #[trigger] SubscriptionsInstruction::spec_from_bytes(seq![14u8] + rest)
            == Ok::<SubscriptionsInstruction, ProgramError>(SubscriptionsInstruction::RevokeSubscriptionAuthority),
        forall|rest: Seq<u8>| #[trigger] SubscriptionsInstruction::spec_from_bytes(seq![15u8] + rest)
            == Ok::<SubscriptionsInstruction, ProgramError>(SubscriptionsInstruction::RevokeAbandonedDelegation),
        forall|rest: Seq<u8>| #[trigger] SubscriptionsInstruction::spec_from_bytes(seq![16u8] + rest)
            == Ok::<SubscriptionsInstruction, ProgramError>(SubscriptionsInstruction::RevokeAbandonedSubscription),
        forall|x: CancelSubscriptionNowData| #[trigger] SubscriptionsInstruction::spec_from_bytes(seq![17u8] + x.encode())
            == Ok::<SubscriptionsInstruction, ProgramError>(SubscriptionsInstruction::CancelSubscriptionNow(x)),
        forall|data: Seq<u8>| data.len() > 0 && data[0] == 17u8 && data.len() != 9
            ==> #[trigger] SubscriptionsInstruction::spec_from_bytes(data) == Err::<SubscriptionsInstruction, ProgramError>(ProgramError::InvalidInstructionData),
        forall|rest: Seq<u8>| #[trigger] SubscriptionsInstruction::spec_from_bytes(seq![228u8] + rest)
            == Ok::<SubscriptionsInstruction, ProgramError>(SubscriptionsInstruction::EmitEvent),
        SubscriptionsInstruction::spec_from_bytes(Seq::empty())
            == Err::<SubscriptionsInstruction, ProgramError>(ProgramError::Custom(SubscriptionsError::InvalidInstruction)),
        forall|data: Seq<u8>| data.len() > 0 && 17 < data[0] && data[0] != 228
            ==> #[trigger] SubscriptionsInstruction::spec_from_bytes(data)
            == Err::<SubscriptionsInstruction, ProgramError>(ProgramError::Custom(SubscriptionsError::InvalidInstruction)),
{
    lemma_wire_init_subscription_authority();
    lemma_wire_create_fixed_delegation();
    lemma_wire_create_recurring_delegation();
    lemma_wire_revoke_delegation();
    lemma_wire_transfer_fixed();
    lemma_wire_transfer_recurring();
    lemma_wire_close_subscription_authority();
    lemma_wire_create_plan();
    lemma_wire_update_plan();
    lemma_wire_delete_plan();
    lemma_wire_transfer_subscription();
    lemma_wire_subscribe();
    lemma_wire_cancel_subscription();
    lemma_wire_resume_subscription();
    lemma_wire_revoke_subscription_authority();
    lemma_wire_revoke_abandoned_delegation();
    lemma_wire_revoke_abandoned_subscription();
    lemma_wire_cancel_subscription_now();
    lemma_wire_emit_event();
}

} // verus!
