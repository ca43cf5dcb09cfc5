use subscriptions::error::{ProgramError, SubscriptionsError};
use subscriptions::program_account::{AccountState, ProgramAccount, SystemAction, ID};

#[test]
fn program_id_matches_its_base58_form() {
    let id = pinocchio::Address::from_str_const("6DWb3h2mgsGXxJJWkfeK89T1shoJL65Rvu9EM5URfvfA");
    assert_eq!(id.to_bytes(), ID);
}

#[test]
fn check_accepts_only_program_owned_accounts() {
    assert_eq!(ProgramAccount::check(&AccountState { owner: ID, lamports: 0 }), Ok(()));
    let mut other = ID;
    other[31] ^= 1;
    assert_eq!(ProgramAccount::check(&AccountState { owner: other, lamports: 0 }), Err(ProgramError::InvalidAccountOwner));
    assert_eq!(ProgramAccount::check(&AccountState { owner: [0; 32], lamports: 9 }), Err(ProgramError::InvalidAccountOwner));
}

#[test]
fn init_creates_an_empty_address() {
    let empty = AccountState { owner: [0; 32], lamports: 0 };
    assert_eq!(ProgramAccount::init(&empty, 1_500_000, 165), vec![SystemAction::CreateAccount { lamports: 1_500_000, space: 165 }]);
}

#[test]
fn init_tops_up_a_prefunded_address() {
    let prefunded = AccountState { owner: [0; 32], lamports: 1 };
    assert_eq!(
        ProgramAccount::init(&prefunded, 1_500_000, 165),
        vec![SystemAction::Transfer { lamports: 1_499_999 }, SystemAction::Allocate { space: 165 }, SystemAction::Assign]
    );
}

#[test]
fn init_does_not_transfer_to_an_address_funded_enough() {
    for lamports in [1_500_000u64, 9_000_000] {
        let funded = AccountState { owner: [0; 32], lamports };
        assert_eq!(
            ProgramAccount::init(&funded, 1_500_000, 165),
            vec![SystemAction::Allocate { space: 165 }, SystemAction::Assign]
        );
    }
}

#[test]
fn close_moves_the_whole_balance() {
    let account = AccountState { owner: ID, lamports: 2_000_000 };
    let destination = AccountState { owner: [0; 32], lamports: 500 };
    assert_eq!(ProgramAccount::close(&account, &destination), Ok(2_000_500));
}

#[test]
fn close_reports_overflow() {
    let account = AccountState { owner: ID, lamports: 2 };
    let destination = AccountState { owner: [0; 32], lamports: u64::MAX - 1 };
    assert_eq!(
        ProgramAccount::close(&account, &destination),
        Err(ProgramError::Custom(SubscriptionsError::ArithmeticOverflow))
    );
    let exact = AccountState { owner: [0; 32], lamports: u64::MAX - 2 };
    assert_eq!(ProgramAccount::close(&account, &exact), Ok(u64::MAX));
}
