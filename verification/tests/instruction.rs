use subscriptions::error::{ProgramError, SubscriptionsError};
use subscriptions::instruction::{SubscriptionsInstruction, EMIT_EVENT_IX_DISC};
use subscriptions::payload::{
    CancelSubscriptionNowData, CreateFixedDelegationData, CreateRecurringDelegationData, PlanData,
    ResumeData, SubscribeData, TransferData, UpdatePlanData,
};

fn with_disc(d: u8, payload: &[u8]) -> Vec<u8> {
    let mut v = vec![d];
    v.extend_from_slice(payload);
    v
}

fn le(vals: &[u64]) -> Vec<u8> {
    let mut v = Vec::new();
    for x in vals {
        v.extend_from_slice(&x.to_le_bytes());
    }
    v
}

const INVALID_IX: ProgramError = ProgramError::Custom(SubscriptionsError::InvalidInstruction);

#[test]
fn empty_data_is_invalid_instruction() {
    assert_eq!(SubscriptionsInstruction::from_bytes(&[]), Err(INVALID_IX));
}

#[test]
fn unknown_discriminators_are_invalid_instructions() {
    for d in 18u8..=255 {
        if d == EMIT_EVENT_IX_DISC {
            continue;
        }
        assert_eq!(SubscriptionsInstruction::from_bytes(&[d]), Err(INVALID_IX));
        assert_eq!(SubscriptionsInstruction::from_bytes(&[d, 1, 2, 3]), Err(INVALID_IX));
    }
}

#[test]
fn unit_instructions_ignore_trailing_bytes() {
    let cases = [
        (0u8, SubscriptionsInstruction::InitSubscriptionAuthority),
        (3, SubscriptionsInstruction::RevokeDelegation),
        (6, SubscriptionsInstruction::CloseSubscriptionAuthority),
        (9, SubscriptionsInstruction::DeletePlan),
        (12, SubscriptionsInstruction::CancelSubscription),
        (14, SubscriptionsInstruction::RevokeSubscriptionAuthority),
        (15, SubscriptionsInstruction::RevokeAbandonedDelegation),
        (16, SubscriptionsInstruction::RevokeAbandonedSubscription),
        (228, SubscriptionsInstruction::EmitEvent),
    ];
    for (d, ix) in cases {
        assert_eq!(SubscriptionsInstruction::from_bytes(&[d]), Ok(ix));
        assert_eq!(SubscriptionsInstruction::from_bytes(&[d, 0xff, 0x00]), Ok(ix));
    }
}

#[test]
fn create_fixed_delegation_payload() {
    let mut payload = le(&[7, 1_000_000]);
    payload.extend_from_slice(&(-1i64).to_le_bytes());
    let data = with_disc(1, &payload);
    assert_eq!(
        SubscriptionsInstruction::from_bytes(&data),
        Ok(SubscriptionsInstruction::CreateFixedDelegation(CreateFixedDelegationData {
            nonce: 7,
            amount: 1_000_000,
            expiry_ts: -1,
        }))
    );
}

#[test]
fn create_recurring_delegation_payload() {
    let mut payload = le(&[1, 500, 86_400]);
    payload.extend_from_slice(&1_700_000_000i64.to_le_bytes());
    payload.extend_from_slice(&0i64.to_le_bytes());
    let data = with_disc(2, &payload);
    assert_eq!(
        SubscriptionsInstruction::from_bytes(&data),
        Ok(SubscriptionsInstruction::CreateRecurringDelegation(CreateRecurringDelegationData {
            nonce: 1,
            amount_per_period: 500,
            period_length_s: 86_400,
            start_ts: 1_700_000_000,
            expiry_ts: 0,
        }))
    );
}

#[test]
fn transfer_payloads() {
    let payload = le(&[0x0102_0304_0506_0708]);
    let t = TransferData { amount: 0x0102_0304_0506_0708 };
    assert_eq!(SubscriptionsInstruction::from_bytes(&with_disc(4, &payload)), Ok(SubscriptionsInstruction::TransferFixed(t)));
    assert_eq!(SubscriptionsInstruction::from_bytes(&with_disc(5, &payload)), Ok(SubscriptionsInstruction::TransferRecurring(t)));
    assert_eq!(SubscriptionsInstruction::from_bytes(&with_disc(10, &payload)), Ok(SubscriptionsInstruction::TransferSubscription(t)));
}

#[test]
fn plan_payloads() {
    let mut payload = le(&[3, 25, 2_592_000]);
    payload.extend_from_slice(&i64::MAX.to_le_bytes());
    assert_eq!(
        SubscriptionsInstruction::from_bytes(&with_disc(7, &payload)),
        Ok(SubscriptionsInstruction::CreatePlan(PlanData { plan_id: 3, amount: 25, period_length_s: 2_592_000, end_ts: i64::MAX }))
    );
    let mut update = vec![2u8];
    update.extend_from_slice(&i64::MIN.to_le_bytes());
    assert_eq!(
        SubscriptionsInstruction::from_bytes(&with_disc(8, &update)),
        Ok(SubscriptionsInstruction::UpdatePlan(UpdatePlanData { status: 2, end_ts: i64::MIN }))
    );
}

#[test]
fn subscription_payloads() {
    let terms = le(&[25, 3600]);
    assert_eq!(
        SubscriptionsInstruction::from_bytes(&with_disc(11, &terms)),
        Ok(SubscriptionsInstruction::Subscribe(SubscribeData { expected_amount: 25, expected_period_length_s: 3600 }))
    );
    assert_eq!(
        SubscriptionsInstruction::from_bytes(&with_disc(13, &terms)),
        Ok(SubscriptionsInstruction::ResumeSubscription(ResumeData { expected_amount: 25, expected_period_length_s: 3600 }))
    );
    assert_eq!(
        SubscriptionsInstruction::from_bytes(&with_disc(17, &le(&[u64::MAX]))),
        Ok(SubscriptionsInstruction::CancelSubscriptionNow(CancelSubscriptionNowData { plan_id: u64::MAX }))
    );
}

#[test]
fn payload_of_wrong_length_is_invalid_instruction_data() {
    for (d, len) in [(1u8, 24usize), (2, 40), (4, 8), (5, 8), (7, 32), (8, 9), (10, 8), (11, 16), (13, 16), (17, 8)] {
        assert!(SubscriptionsInstruction::from_bytes(&with_disc(d, &vec![0u8; len])).is_ok());
        assert_eq!(
            SubscriptionsInstruction::from_bytes(&with_disc(d, &vec![0u8; len - 1])),
            Err(ProgramError::InvalidInstructionData)
        );
        assert_eq!(
            SubscriptionsInstruction::from_bytes(&with_disc(d, &vec![0u8; len + 1])),
            Err(ProgramError::InvalidInstructionData)
        );
        assert_eq!(SubscriptionsInstruction::from_bytes(&[d]), Err(ProgramError::InvalidInstructionData));
    }
}

#[test]
fn payload_loads_reject_other_lengths() {
    assert_eq!(TransferData::load(&[1, 0, 0, 0, 0, 0, 0, 0]), Ok(TransferData { amount: 1 }));
    assert_eq!(TransferData::load(&[1, 0, 0, 0, 0, 0, 0]), Err(ProgramError::InvalidInstructionData));
    assert_eq!(TransferData::LEN, 8);
    assert_eq!(CreateFixedDelegationData::LEN, 24);
    assert_eq!(CreateRecurringDelegationData::LEN, 40);
    assert_eq!(PlanData::LEN, 32);
    assert_eq!(UpdatePlanData::LEN, 9);
    assert_eq!(SubscribeData::LEN, 16);
    assert_eq!(ResumeData::LEN, 16);
    assert_eq!(CancelSubscriptionNowData::LEN, 8);
}

#[test]
fn instruction_names() {
    let zero8 = [0u8; 8];
    let cases: [(Vec<u8>, &str); 19] = [
        (vec![0], "init_subscription_authority"),
        (with_disc(1, &[0u8; 24]), "create_fixed_delegation"),
        (with_disc(2, &[0u8; 40]), "create_recurring_delegation"),
        (vec![3], "revoke_delegation"),
        (with_disc(4, &zero8), "transfer_fixed"),
        (with_disc(5, &zero8), "transfer_recurring"),
        (vec![6], "close_subscription_authority"),
        (with_disc(7, &[0u8; 32]), "create_plan"),
        (with_disc(8, &[0u8; 9]), "update_plan"),
        (vec![9], "delete_plan"),
        (with_disc(10, &zero8), "transfer_subscription"),
        (with_disc(11, &[0u8; 16]), "subscribe"),
        (vec![12], "cancel_subscription"),
        (with_disc(13, &[0u8; 16]), "resume_subscription"),
        (vec![14], "revoke_subscription_authority"),
        (vec![15], "revoke_abandoned_delegation"),
        (vec![16], "revoke_abandoned_subscription"),
        (with_disc(17, &zero8), "cancel_subscription_now"),
        (vec![228], "emit_event"),
    ];
    for (data, name) in cases {
        assert_eq!(SubscriptionsInstruction::from_bytes(&data).unwrap().to_string(), name);
    }
}
