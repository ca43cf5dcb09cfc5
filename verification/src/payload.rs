//! Payloads that follow the discriminator in instruction data.
//!
//! Each payload is a fixed-size record of little-endian fields, packed
//! without padding; its load accepts exactly that many bytes.

use vstd::prelude::*;

use crate::bytes::{
    i64_le_bytes, le_i64, le_u64, lemma_i64_le_roundtrip, lemma_le_i64_reencode, lemma_le_u64_concat,
    lemma_le_u64_reencode, lemma_u64_le_roundtrip,
    read_i64_le, read_u64_le, u64_le_bytes,
};
use crate::error::ProgramError;

verus! {

/// Payload of `CreateFixedDelegation`: a one-time allowance with an expiry.
#[derive(Debug, Clone, Copy, PartialEq, Eq, Structural)]
pub struct CreateFixedDelegationData {
    /// Distinguishes delegations between the same delegator and delegatee.
    pub nonce: u64,
    /// Largest total the delegatee may transfer.
    pub amount: u64,
    /// Unix time after which the delegation can no longer be used; 0 for none.
    pub expiry_ts: i64,
}

impl CreateFixedDelegationData {
    /// Length of the payload in bytes.
    pub const LEN: usize = 24;

    /// The payload that the `LEN` bytes `s` encode.
    pub open spec fn decode(s: Seq<u8>) -> Self {
        CreateFixedDelegationData {
            nonce: le_u64(s, 0) as u64,
            amount: le_u64(s, 8) as u64,
            expiry_ts: le_i64(s, 16),
        }
    }

    /// The bytes that encode `self`.
    pub open spec fn encode(self) -> Seq<u8> {
        u64_le_bytes(self.nonce) + u64_le_bytes(self.amount) + i64_le_bytes(self.expiry_ts)
    }

    /// Loads the payload from `data`, which must hold exactly `LEN` bytes.
    pub fn load(data: &[u8]) -> (res: Result<Self, ProgramError>)
        ensures
            data@.len() == Self::LEN ==> res == Ok::<Self, ProgramError>(Self::decode(data@)),
            data@.len() != Self::LEN ==> res == Err::<Self, ProgramError>(ProgramError::InvalidInstructionData),
    {
        if data.len() != Self::LEN {
            return Err(ProgramError::InvalidInstructionData);
        }
        Ok(CreateFixedDelegationData {
            nonce: read_u64_le(data, 0),
            amount: read_u64_le(data, 8),
            expiry_ts: read_i64_le(data, 16),
        })
    }

    /// Loading the encoding of a payload gives the payload back.
    pub proof fn lemma_roundtrip(self)
        ensures
            self.encode().len() == Self::LEN,
            Self::decode(self.encode()) == self,
    {
        let e0 = u64_le_bytes(self.nonce);
        lemma_u64_le_roundtrip(self.nonce);
        let e1 = u64_le_bytes(self.amount);
        lemma_u64_le_roundtrip(self.amount);
        let e2 = i64_le_bytes(self.expiry_ts);
        lemma_i64_le_roundtrip(self.expiry_ts);
        let p1 = e0;
        let p2 = p1 + e1;
        let p3 = p2 + e2;
        assert(self.encode() == p3);
        lemma_le_u64_concat(p2, e2, 0);
        lemma_le_u64_concat(p1, e1, 0);
        lemma_le_u64_concat(p2, e2, 8);
        lemma_le_u64_concat(p1, e1, 0);
        lemma_le_u64_concat(p2, e2, 0);
        assert(Self::decode(p3) == self);
    }

    /// Encoding the payload that `LEN` bytes decode to gives those bytes back:
    /// every accepted payload is the encoding of the payload loaded from it.
    pub proof fn lemma_reencode(s: Seq<u8>)
        requires
            s.len() == Self::LEN,
        ensures
            Self::decode(s).encode() == s,
    {
        lemma_le_u64_reencode(s, 0);
        lemma_le_u64_reencode(s, 8);
        lemma_le_i64_reencode(s, 16);
        assert(Self::decode(s).encode() =~= s.subrange(0, 8) + s.subrange(8, 16) + s.subrange(16, 24));
        assert(s.subrange(0, 8) + s.subrange(8, 16) + s.subrange(16, 24) =~= s);
    }
}

/// Payload of `CreateRecurringDelegation`: an allowance that resets each period.
#[derive(Debug, Clone, Copy, PartialEq, Eq, Structural)]
pub struct CreateRecurringDelegationData {
    /// Distinguishes delegations between the same delegator and delegatee.
    pub nonce: u64,
    /// Largest total the delegatee may transfer within one period.
    pub amount_per_period: u64,
    /// Length of a period in seconds.
    pub period_length_s: u64,
    /// Unix time at which the first period starts.
    pub start_ts: i64,
    /// Unix time after which the delegation can no longer be used; 0 for none.
    pub expiry_ts: i64,
}

impl CreateRecurringDelegationData {
    /// Length of the payload in bytes.
    pub const LEN: usize = 40;

    /// The payload that the `LEN` bytes `s` encode.
    pub open spec fn decode(s: Seq<u8>) -> Self {
        CreateRecurringDelegationData {
            nonce: le_u64(s, 0) as u64,
            amount_per_period: le_u64(s, 8) as u64,
            period_length_s: le_u64(s, 16) as u64,
            start_ts: le_i64(s, 24),
            expiry_ts: le_i64(s, 32),
        }
    }

    /// The bytes that encode `self`.
    pub open spec fn encode(self) -> Seq<u8> {
        u64_le_bytes(self.nonce) + u64_le_bytes(self.amount_per_period) + u64_le_bytes(self.period_length_s) + i64_le_bytes(self.start_ts) + i64_le_bytes(self.expiry_ts)
    }

    /// Loads the payload from `data`, which must hold exactly `LEN` bytes.
    pub fn load(data: &[u8]) -> (res: Result<Self, ProgramError>)
        ensures
            data@.len() == Self::LEN ==> res == Ok::<Self, ProgramError>(Self::decode(data@)),
            data@.len() != Self::LEN ==> res == Err::<Self, ProgramError>(ProgramError::InvalidInstructionData),
    {
        if data.len() != Self::LEN {
            return Err(ProgramError::InvalidInstructionData);
        }
        Ok(CreateRecurringDelegationData {
            nonce: read_u64_le(data, 0),
            amount_per_period: read_u64_le(data, 8),
            period_length_s: read_u64_le(data, 16),
            start_ts: read_i64_le(data, 24),
            expiry_ts: read_i64_le(data, 32),
        })
    }

    /// Loading the encoding of a payload gives the payload back.
    pub proof fn lemma_roundtrip(self)
        ensures
            self.encode().len() == Self::LEN,
            Self::decode(self.encode()) == self,
    {
        let e0 = u64_le_bytes(self.nonce);
        lemma_u64_le_roundtrip(self.nonce);
        let e1 = u64_le_bytes(self.amount_per_period);
        lemma_u64_le_roundtrip(self.amount_per_period);
        let e2 = u64_le_bytes(self.period_length_s);
        lemma_u64_le_roundtrip(self.period_length_s);
        let e3 = i64_le_bytes(self.start_ts);
        lemma_i64_le_roundtrip(self.start_ts);
        let e4 = i64_le_bytes(self.expiry_ts);
        lemma_i64_le_roundtrip(self.expiry_ts);
        let p1 = e0;
        let p2 = p1 + e1;
        let p3 = p2 + e2;
        let p4 = p3 + e3;
        let p5 = p4 + e4;
        assert(self.encode() == p5);
        lemma_le_u64_concat(p4, e4, 0);
        lemma_le_u64_concat(p3, e3, 0);
        lemma_le_u64_concat(p2, e2, 0);
        lemma_le_u64_concat(p1, e1, 0);
        lemma_le_u64_concat(p4, e4, 8);
        lemma_le_u64_concat(p3, e3, 8);
        lemma_le_u64_concat(p2, e2, 8);
        lemma_le_u64_concat(p1, e1, 0);
        lemma_le_u64_concat(p4, e4, 16);
        lemma_le_u64_concat(p3, e3, 16);
        lemma_le_u64_concat(p2, e2, 0);
        lemma_le_u64_concat(p4, e4, 24);
        lemma_le_u64_concat(p3, e3, 0);
        lemma_le_u64_concat(p4, e4, 0);
        assert(Self::decode(p5) == self);
    }

    /// Encoding the payload that `LEN` bytes decode to gives those bytes back:
    /// every accepted payload is the encoding of the payload loaded from it.
    pub proof fn lemma_reencode(s: Seq<u8>)
        requires
            s.len() == Self::LEN,
        ensures
            Self::decode(s).encode() == s,
    {
        lemma_le_u64_reencode(s, 0);
        lemma_le_u64_reencode(s, 8);
        lemma_le_u64_reencode(s, 16);
        lemma_le_i64_reencode(s, 24);
        lemma_le_i64_reencode(s, 32);
        assert(Self::decode(s).encode() =~= s.subrange(0, 8) + s.subrange(8, 16) + s.subrange(16, 24) + s.subrange(24, 32) + s.subrange(32, 40));
        assert(s.subrange(0, 8) + s.subrange(8, 16) + s.subrange(16, 24) + s.subrange(24, 32) + s.subrange(32, 40) =~= s);
    }
}

/// Payload of the three transfer instructions.
#[derive(Debug, Clone, Copy, PartialEq, Eq, Structural)]
pub struct TransferData {
    /// Token amount to move from the delegator's account.
    pub amount: u64,
}

impl TransferData {
    /// Length of the payload in bytes.
    pub const LEN: usize = 8;

    /// The payload that the `LEN` bytes `s` encode.
    pub open spec fn decode(s: Seq<u8>) -> Self {
        TransferData {
            amount: le_u64(s, 0) as u64,
        }
    }

    /// The bytes that encode `self`.
    pub open spec fn encode(self) -> Seq<u8> {
        u64_le_bytes(self.amount)
    }

    /// Loads the payload from `data`, which must hold exactly `LEN` bytes.
    pub fn load(data: &[u8]) -> (res: Result<Self, ProgramError>)
        ensures
            data@.len() == Self::LEN ==> res == Ok::<Self, ProgramError>(Self::decode(data@)),
            data@.len() != Self::LEN ==> res == Err::<Self, ProgramError>(ProgramError::InvalidInstructionData),
    {
        if data.len() != Self::LEN {
            return Err(ProgramError::InvalidInstructionData);
        }
        Ok(TransferData {
            amount: read_u64_le(data, 0),
        })
    }

    /// Loading the encoding of a payload gives the payload back.
    pub proof fn lemma_roundtrip(self)
        ensures
            self.encode().len() == Self::LEN,
            Self::decode(self.encode()) == self,
    {
        let e0 = u64_le_bytes(self.amount);
        lemma_u64_le_roundtrip(self.amount);
        let p1 = e0;
        assert(self.encode() == p1);
        assert(Self::decode(p1) == self);
    }

    /// Encoding the payload that `LEN` bytes decode to gives those bytes back:
    /// every accepted payload is the encoding of the payload loaded from it.
    pub proof fn lemma_reencode(s: Seq<u8>)
        requires
            s.len() == Self::LEN,
        ensures
            Self::decode(s).encode() == s,
    {
        lemma_le_u64_reencode(s, 0);
        assert(Self::decode(s).encode() =~= s.subrange(0, 8));
        assert(s.subrange(0, 8) =~= s);
    }
}

/// Payload of `CreatePlan`: a merchant's subscription plan.
#[derive(Debug, Clone, Copy, PartialEq, Eq, Structural)]
pub struct PlanData {
    /// Distinguishes the plans of one merchant.
    pub plan_id: u64,
    /// Token amount that may be pulled each period.
    pub amount: u64,
    /// Length of a billing period in seconds.
    pub period_length_s: u64,
    /// Unix time at which the plan ends; 0 for none.
    pub end_ts: i64,
}

impl PlanData {
    /// Length of the payload in bytes.
    pub const LEN: usize = 32;

    /// The payload that the `LEN` bytes `s` encode.
    pub open spec fn decode(s: Seq<u8>) -> Self {
        PlanData {
            plan_id: le_u64(s, 0) as u64,
            amount: le_u64(s, 8) as u64,
            period_length_s: le_u64(s, 16) as u64,
            end_ts: le_i64(s, 24),
        }
    }

    /// The bytes that encode `self`.
    pub open spec fn encode(self) -> Seq<u8> {
        u64_le_bytes(self.plan_id) + u64_le_bytes(self.amount) + u64_le_bytes(self.period_length_s) + i64_le_bytes(self.end_ts)
    }

    /// Loads the payload from `data`, which must hold exactly `LEN` bytes.
    pub fn load(data: &[u8]) -> (res: Result<Self, ProgramError>)
        ensures
            data@.len() == Self::LEN ==> res == Ok::<Self, ProgramError>(Self::decode(data@)),
            data@.len() != Self::LEN ==> res == Err::<Self, ProgramError>(ProgramError::InvalidInstructionData),
    {
        if data.len() != Self::LEN {
            return Err(ProgramError::InvalidInstructionData);
        }
        Ok(PlanData {
            plan_id: read_u64_le(data, 0),
            amount: read_u64_le(data, 8),
            period_length_s: read_u64_le(data, 16),
            end_ts: read_i64_le(data, 24),
        })
    }

    /// Loading the encoding of a payload gives the payload back.
    pub proof fn lemma_roundtrip(self)
        ensures
            self.encode().len() == Self::LEN,
            Self::decode(self.encode()) == self,
    {
        let e0 = u64_le_bytes(self.plan_id);
        lemma_u64_le_roundtrip(self.plan_id);
        let e1 = u64_le_bytes(self.amount);
        lemma_u64_le_roundtrip(self.amount);
        let e2 = u64_le_bytes(self.period_length_s);
        lemma_u64_le_roundtrip(self.period_length_s);
        let e3 = i64_le_bytes(self.end_ts);
        lemma_i64_le_roundtrip(self.end_ts);
        let p1 = e0;
        let p2 = p1 + e1;
        let p3 = p2 + e2;
        let p4 = p3 + e3;
        assert(self.encode() == p4);
        lemma_le_u64_concat(p3, e3, 0);
        lemma_le_u64_concat(p2, e2, 0);
        lemma_le_u64_concat(p1, e1, 0);
        lemma_le_u64_concat(p3, e3, 8);
        lemma_le_u64_concat(p2, e2, 8);
        lemma_le_u64_concat(p1, e1, 0);
        lemma_le_u64_concat(p3, e3, 16);
        lemma_le_u64_concat(p2, e2, 0);
        lemma_le_u64_concat(p3, e3, 0);
        assert(Self::decode(p4) == self);
    }

    /// Encoding the payload that `LEN` bytes decode to gives those bytes back:
    /// every accepted payload is the encoding of the payload loaded from it.
    pub proof fn lemma_reencode(s: Seq<u8>)
        requires
            s.len() == Self::LEN,
        ensures
            Self::decode(s).encode() == s,
    {
        lemma_le_u64_reencode(s, 0);
        lemma_le_u64_reencode(s, 8);
        lemma_le_u64_reencode(s, 16);
        lemma_le_i64_reencode(s, 24);
        assert(Self::decode(s).encode() =~= s.subrange(0, 8) + s.subrange(8, 16) + s.subrange(16, 24) + s.subrange(24, 32));
        assert(s.subrange(0, 8) + s.subrange(8, 16) + s.subrange(16, 24) + s.subrange(24, 32) =~= s);
    }
}

/// Payload of `UpdatePlan`.
#[derive(Debug, Clone, Copy, PartialEq, Eq, Structural)]
pub struct UpdatePlanData {
    /// The plan's new status.
    pub status: u8,
    /// Unix time at which the plan ends; 0 for none.
    pub end_ts: i64,
}

impl UpdatePlanData {
    /// Length of the payload in bytes.
    pub const LEN: usize = 9;

    /// The payload that the `LEN` bytes `s` encode.
    pub open spec fn decode(s: Seq<u8>) -> Self {
        UpdatePlanData {
            status: s[0],
            end_ts: le_i64(s, 1),
        }
    }

    /// The bytes that encode `self`.
    pub open spec fn encode(self) -> Seq<u8> {
        seq![self.status] + i64_le_bytes(self.end_ts)
    }

    /// Loads the payload from `data`, which must hold exactly `LEN` bytes.
    pub fn load(data: &[u8]) -> (res: Result<Self, ProgramError>)
        ensures
            data@.len() == Self::LEN ==> res == Ok::<Self, ProgramError>(Self::decode(data@)),
            data@.len() != Self::LEN ==> res == Err::<Self, ProgramError>(ProgramError::InvalidInstructionData),
    {
        if data.len() != Self::LEN {
            return Err(ProgramError::InvalidInstructionData);
        }
        Ok(UpdatePlanData {
            status: data[0],
            end_ts: read_i64_le(data, 1),
        })
    }

    /// Loading the encoding of a payload gives the payload back.
    pub proof fn lemma_roundtrip(self)
        ensures
            self.encode().len() == Self::LEN,
            Self::decode(self.encode()) == self,
    {
        let e0 = seq![self.status];
        let e1 = i64_le_bytes(self.end_ts);
        lemma_i64_le_roundtrip(self.end_ts);
        let p1 = e0;
        let p2 = p1 + e1;
        assert(self.encode() == p2);
        lemma_le_u64_concat(p1, e1, 0);
        assert(p2[0] == self.status);
        assert(Self::decode(p2) == self);
    }

    /// Encoding the payload that `LEN` bytes decode to gives those bytes back:
    /// every accepted payload is the encoding of the payload loaded from it.
    pub proof fn lemma_reencode(s: Seq<u8>)
        requires
            s.len() == Self::LEN,
        ensures
            Self::decode(s).encode() == s,
    {
        assert(seq![s[0]] =~= s.subrange(0, 1));
        lemma_le_i64_reencode(s, 1);
        assert(Self::decode(s).encode() =~= s.subrange(0, 1) + s.subrange(1, 9));
        assert(s.subrange(0, 1) + s.subrange(1, 9) =~= s);
    }
}

/// Payload of `Subscribe`: the terms the subscriber agrees to.
#[derive(Debug, Clone, Copy, PartialEq, Eq, Structural)]
pub struct SubscribeData {
    /// Amount per period the subscriber expects the plan to charge.
    pub expected_amount: u64,
    /// Period length the subscriber expects the plan to have.
    pub expected_period_length_s: u64,
}

impl SubscribeData {
    /// Length of the payload in bytes.
    pub const LEN: usize = 16;

    /// The payload that the `LEN` bytes `s` encode.
    pub open spec fn decode(s: Seq<u8>) -> Self {
        SubscribeData {
            expected_amount: le_u64(s, 0) as u64,
            expected_period_length_s: le_u64(s, 8) as u64,
        }
    }

    /// The bytes that encode `self`.
    pub open spec fn encode(self) -> Seq<u8> {
        u64_le_bytes(self.expected_amount) + u64_le_bytes(self.expected_period_length_s)
    }

    /// Loads the payload from `data`, which must hold exactly `LEN` bytes.
    pub fn load(data: &[u8]) -> (res: Result<Self, ProgramError>)
        ensures
            data@.len() == Self::LEN ==> res == Ok::<Self, ProgramError>(Self::decode(data@)),
            data@.len() != Self::LEN ==> res == Err::<Self, ProgramError>(ProgramError::InvalidInstructionData),
    {
        if data.len() != Self::LEN {
            return Err(ProgramError::InvalidInstructionData);
        }
        Ok(SubscribeData {
            expected_amount: read_u64_le(data, 0),
            expected_period_length_s: read_u64_le(data, 8),
        })
    }

    /// Loading the encoding of a payload gives the payload back.
    pub proof fn lemma_roundtrip(self)
        ensures
            self.encode().len() == Self::LEN,
            Self::decode(self.encode()) == self,
    {
        let e0 = u64_le_bytes(self.expected_amount);
        lemma_u64_le_roundtrip(self.expected_amount);
        let e1 = u64_le_bytes(self.expected_period_length_s);
        lemma_u64_le_roundtrip(self.expected_period_length_s);
        let p1 = e0;
        let p2 = p1 + e1;
        assert(self.encode() == p2);
        lemma_le_u64_concat(p1, e1, 0);
        lemma_le_u64_concat(p1, e1, 0);
        assert(Self::decode(p2) == self);
    }

    /// Encoding the payload that `LEN` bytes decode to gives those bytes back:
    /// every accepted payload is the encoding of the payload loaded from it.
    pub proof fn lemma_reencode(s: Seq<u8>)
        requires
            s.len() == Self::LEN,
        ensures
            Self::decode(s).encode() == s,
    {
        lemma_le_u64_reencode(s, 0);
        lemma_le_u64_reencode(s, 8);
        assert(Self::decode(s).encode() =~= s.subrange(0, 8) + s.subrange(8, 16));
        assert(s.subrange(0, 8) + s.subrange(8, 16) =~= s);
    }
}

/// Payload of `CancelSubscriptionNow`.
#[derive(Debug, Clone, Copy, PartialEq, Eq, Structural)]
pub struct CancelSubscriptionNowData {
    /// Plan of the subscription that both parties agree to end now.
    pub plan_id: u64,
}

impl CancelSubscriptionNowData {
    /// Length of the payload in bytes.
    pub const LEN: usize = 8;

    /// The payload that the `LEN` bytes `s` encode.
    pub open spec fn decode(s: Seq<u8>) -> Self {
        CancelSubscriptionNowData {
            plan_id: le_u64(s, 0) as u64,
        }
    }

    /// The bytes that encode `self`.
    pub open spec fn encode(self) -> Seq<u8> {
        u64_le_bytes(self.plan_id)
    }

    /// Loads the payload from `data`, which must hold exactly `LEN` bytes.
    pub fn load(data: &[u8]) -> (res: Result<Self, ProgramError>)
        ensures
            data@.len() == Self::LEN ==> res == Ok::<Self, ProgramError>(Self::decode(data@)),
            data@.len() != Self::LEN ==> res == Err::<Self, ProgramError>(ProgramError::InvalidInstructionData),
    {
        if data.len() != Self::LEN {
            return Err(ProgramError::InvalidInstructionData);
        }
        Ok(CancelSubscriptionNowData {
            plan_id: read_u64_le(data, 0),
        })
    }

    /// Loading the encoding of a payload gives the payload back.
    pub proof fn lemma_roundtrip(self)
        ensures
            self.encode().len() == Self::LEN,
            Self::decode(self.encode()) == self,
    {
        let e0 = u64_le_bytes(self.plan_id);
        lemma_u64_le_roundtrip(self.plan_id);
        let p1 = e0;
        assert(self.encode() == p1);
        assert(Self::decode(p1) == self);
    }

    /// Encoding the payload that `LEN` bytes decode to gives those bytes back:
    /// every accepted payload is the encoding of the payload loaded from it.
    pub proof fn lemma_reencode(s: Seq<u8>)
        requires
            s.len() == Self::LEN,
        ensures
            Self::decode(s).encode() == s,
    {
        lemma_le_u64_reencode(s, 0);
        assert(Self::decode(s).encode() =~= s.subrange(0, 8));
        assert(s.subrange(0, 8) =~= s);
    }
}

/// Payload of `ResumeSubscription`: the terms the subscriber agrees to.
#[derive(Debug, Clone, Copy, PartialEq, Eq, Structural)]
pub struct ResumeData {
    /// Amount per period the subscriber expects the plan to charge.
    pub expected_amount: u64,
    /// Period length the subscriber expects the plan to have.
    pub expected_period_length_s: u64,
}

impl ResumeData {
    /// Length of the payload in bytes.
    pub const LEN: usize = 16;

    /// The payload that the `LEN` bytes `s` encode.
    pub open spec fn decode(s: Seq<u8>) -> Self {
        ResumeData {
            expected_amount: le_u64(s, 0) as u64,
            expected_period_length_s: le_u64(s, 8) as u64,
        }
    }

    /// The bytes that encode `self`.
    pub open spec fn encode(self) -> Seq<u8> {
        u64_le_bytes(self.expected_amount) + u64_le_bytes(self.expected_period_length_s)
    }

    /// Loads the payload from `data`, which must hold exactly `LEN` bytes.
    pub fn load(data: &[u8]) -> (res: Result<Self, ProgramError>)
        ensures
            data@.len() == Self::LEN ==> res == Ok::<Self, ProgramError>(Self::decode(data@)),
            data@.len() != Self::LEN ==> res == Err::<Self, ProgramError>(ProgramError::InvalidInstructionData),
    {
        if data.len() != Self::LEN {
            return Err(ProgramError::InvalidInstructionData);
        }
        Ok(ResumeData {
            expected_amount: read_u64_le(data, 0),
            expected_period_length_s: read_u64_le(data, 8),
        })
    }

    /// Loading the encoding of a payload gives the payload back.
    pub proof fn lemma_roundtrip(self)
        ensures
            self.encode().len() == Self::LEN,
            Self::decode(self.encode()) == self,
    {
        let e0 = u64_le_bytes(self.expected_amount);
        lemma_u64_le_roundtrip(self.expected_amount);
        let e1 = u64_le_bytes(self.expected_period_length_s);
        lemma_u64_le_roundtrip(self.expected_period_length_s);
        let p1 = e0;
        let p2 = p1 + e1;
        assert(self.encode() == p2);
        lemma_le_u64_concat(p1, e1, 0);
        lemma_le_u64_concat(p1, e1, 0);
        assert(Self::decode(p2) == self);
    }

    /// Encoding the payload that `LEN` bytes decode to gives those bytes back:
    /// every accepted payload is the encoding of the payload loaded from it.
    pub proof fn lemma_reencode(s: Seq<u8>)
        requires
            s.len() == Self::LEN,
        ensures
            Self::decode(s).encode() == s,
    {
        lemma_le_u64_reencode(s, 0);
        lemma_le_u64_reencode(s, 8);
        assert(Self::decode(s).encode() =~= s.subrange(0, 8) + s.subrange(8, 16));
        assert(s.subrange(0, 8) + s.subrange(8, 16) =~= s);
    }
}

} // verus!
