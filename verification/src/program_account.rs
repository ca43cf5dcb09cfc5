//! Check and lifecycle decisions for accounts owned by this program.
//!
//! The account reads and writes and the System Program invocations happen at
//! the runtime's edge; here stand the decisions that drive them: whether an
//! account is the program's, which System Program instructions create a PDA
//! (also when someone has pre-funded its address to block creation), and the
//! balance that a destination ends with when an account is closed into it.

use vstd::prelude::*;

use crate::error::{ProgramError, SubscriptionsError};

verus! {

/// Address of the subscriptions program
/// (`6DWb3h2mgsGXxJJWkfeK89T1shoJL65Rvu9EM5URfvfA`).
pub const ID: [u8; 32] = [
    77, 126, 219, 197, 15, 197, 112, 95, 170, 204, 73, 232, 20, 96, 120, 209, 175, 114, 194, 78,
    75, 113, 223, 208, 210, 128, 217, 184, 83, 71, 4, 105,
];

/// What the program reads of an account: its owner and its balance.
#[derive(Debug, Clone, Copy, PartialEq, Eq)]
pub struct AccountState {
    /// Address of the program that owns the account.
    pub owner: [u8; 32],
    /// Balance in lamports.
    pub lamports: u64,
}

/// A System Program instruction that the program invokes, signed with the
/// PDA's seeds, on the account being created; the owner it names is always
/// this program.
#[derive(Debug, Clone, Copy, PartialEq, Eq, Structural)]
pub enum SystemAction {
    /// Create the account, funded with `lamports`, with `space` bytes of data.
    CreateAccount { lamports: u64, space: u64 },
    /// Transfer `lamports` from the payer to the account.
    Transfer { lamports: u64 },
    /// Allocate `space` bytes of data to the account.
    Allocate { space: u64 },
    /// Assign the account to this program.
    Assign,
}

/// Account check and lifecycle operations for accounts owned by this program.
pub struct ProgramAccount;

/// The System Program instructions that create a program account of `space`
/// bytes, which must hold `rent` lamports, at an address that holds
/// `account_lamports` already. An empty address is created in one step;
/// a pre-funded one is topped up to the rent, if it falls short, then
/// allocated and assigned.
pub open spec fn spec_init_plan(rent: u64, account_lamports: u64, space: u64) -> Seq<SystemAction> {
    if account_lamports == 0 {
        seq![SystemAction::CreateAccount { lamports: rent, space }]
    } else if rent > account_lamports {
        seq![
            SystemAction::Transfer { lamports: (rent - account_lamports) as u64 },
            SystemAction::Allocate { space },
            SystemAction::Assign,
        ]
    } else {
        seq![SystemAction::Allocate { space }, SystemAction::Assign]
    }
}

/// Lamports that the actions `plan` move into the account.
pub open spec fn lamports_moved_in(plan: Seq<SystemAction>) -> int
    decreases plan.len(),
{
    if plan.len() == 0 {
        0
    } else {
        let rest = lamports_moved_in(plan.drop_first());
        match plan[0] {
            SystemAction::CreateAccount { lamports, .. } => lamports + rest,
            SystemAction::Transfer { lamports } => lamports + rest,
            _ => rest,
        }
    }
}

/// Data bytes that the actions `plan` give the account: the space of its
/// last `CreateAccount` or `Allocate`, or zero.
pub open spec fn space_given(plan: Seq<SystemAction>) -> int
    decreases plan.len(),
{
    if plan.len() == 0 {
        0
    } else {
        match plan.last() {
            SystemAction::CreateAccount { space, .. } => space as int,
            SystemAction::Allocate { space } => space as int,
            _ => space_given(plan.drop_last()),
        }
    }
}

/// The actions `plan` leave the account owned by this program: the last of
/// them creates or assigns it.
pub open spec fn ends_program_owned(plan: Seq<SystemAction>) -> bool {
    plan.len() > 0 && (plan.last() is CreateAccount || plan.last() is Assign)
}

impl ProgramAccount {
    /// Verifies that the account is owned by the subscriptions program.
    pub fn check(account: &AccountState) -> (res: Result<(), ProgramError>)
        ensures
            res == (if account.owner@ == ID@ {
                Ok::<(), ProgramError>(())
            } else {
                Err::<(), ProgramError>(ProgramError::InvalidAccountOwner)
            }),
    {
        let id = ID;
        let mut i: usize = 0;
        while i < 32
            invariant
                0 <= i <= 32,
                id@ == ID@,
                forall|j: int| 0 <= j < i ==> account.owner@[j] == ID@[j],
            decreases 32 - i,
        {
            if account.owner[i] != id[i] {
                return Err(ProgramError::InvalidAccountOwner);
            }
            i = i + 1;
        }
        assert(account.owner@ =~= ID@);
        Ok(())
    }

    /// The System Program instructions that create the PDA `account` with
    /// `space` bytes, given the rent-exempt minimum `rent` for that size. An
    /// address that an attacker has pre-funded to block creation is topped up,
    /// allocated and assigned instead of created.
    pub fn init(account: &AccountState, rent: u64, space: usize) -> (plan: Vec<SystemAction>)
        ensures
            plan@ == spec_init_plan(rent, account.lamports, space as u64),
            account.lamports == 0 ==> plan@ == seq![SystemAction::CreateAccount { lamports: rent, space: space as u64 }],
            account.lamports > 0 && rent > account.lamports ==> plan@ == seq![
                SystemAction::Transfer { lamports: (rent - account.lamports) as u64 },
                SystemAction::Allocate { space: space as u64 },
                SystemAction::Assign,
            ],
            account.lamports > 0 && rent <= account.lamports
                ==> plan@ == seq![SystemAction::Allocate { space: space as u64 }, SystemAction::Assign],
    {
        let space = space as u64;
        let mut plan: Vec<SystemAction> = Vec::new();
        if account.lamports == 0 {
            plan.push(SystemAction::CreateAccount { lamports: rent, space });
        } else {
            let required_lamports = rent.saturating_sub(account.lamports);
            if required_lamports > 0 {
                plan.push(SystemAction::Transfer { lamports: required_lamports });
            }
            plan.push(SystemAction::Allocate { space });
            plan.push(SystemAction::Assign);
        }
        assert(plan@ =~= spec_init_plan(rent, account.lamports, space));
        plan
    }

    /// The balance that `destination` ends with when `account` is closed into
    /// it: the sum of the two balances, or an overflow error where that sum
    /// does not fit in 64 bits. The account itself ends with none.
    pub fn close(account: &AccountState, destination: &AccountState) -> (res: Result<u64, ProgramError>)
        ensures
            account.lamports + destination.lamports <= u64::MAX
                ==> res == Ok::<u64, ProgramError>((account.lamports + destination.lamports) as u64),
            account.lamports + destination.lamports > u64::MAX
                ==> res == Err::<u64, ProgramError>(ProgramError::Custom(SubscriptionsError::ArithmeticOverflow)),
    {
        match destination.lamports.checked_add(account.lamports) {
            Some(new_balance) => Ok(new_balance),
            None => Err(ProgramError::Custom(SubscriptionsError::ArithmeticOverflow)),
        }
    }
}

/// Creating a program account leaves it holding the larger of the rent and
/// what it held before (the payer funds no more than the shortfall), with
/// `space` bytes of data, owned by this program.
pub proof fn lemma_init_funds_rent(rent: u64, account_lamports: u64, space: u64)
    ensures
        ({
            let plan = spec_init_plan(rent, account_lamports, space);
            &&& account_lamports + lamports_moved_in(plan) == if rent > account_lamports {
                rent as int
            } else {
                account_lamports as int
            }
            &&& space_given(plan) == space
            &&& ends_program_owned(plan)
        }),
{
    let plan = spec_init_plan(rent, account_lamports, space);
    reveal_with_fuel(lamports_moved_in, 4);
    reveal_with_fuel(space_given, 3);
    if account_lamports == 0 {
        assert(plan.drop_first() =~= Seq::<SystemAction>::empty());
    } else if rent > account_lamports {
        assert(plan.drop_first().drop_first().drop_first() =~= Seq::<SystemAction>::empty());
        assert(plan.drop_last() =~= seq![
            SystemAction::Transfer { lamports: (rent - account_lamports) as u64 },
            SystemAction::Allocate { space },
        ]);
    } else {
        assert(plan.drop_first().drop_first() =~= Seq::<SystemAction>::empty());
        assert(plan.drop_last() =~= seq![SystemAction::Allocate { space }]);
    }
}

/// An address that holds no lamports is created in one `CreateAccount` that
/// funds it with the whole rent. An address that already holds lamports is
/// never the target of a `CreateAccount` (the System Program would refuse it
/// as in use): it receives the shortfall `rent - lamports` by one `Transfer`
/// when it holds less than the rent and nothing otherwise, and is then
/// allocated `space` bytes and assigned to this program, in that order.
pub proof fn lemma_init_prefunded_never_created(rent: u64, account_lamports: u64, space: u64)
    ensures
        ({
            let plan = spec_init_plan(rent, account_lamports, space);
            &&& account_lamports == 0 ==> plan == seq![SystemAction::CreateAccount { lamports: rent, space }]
            &&& account_lamports > 0 ==> {
                &&& forall|i: int| 0 <= i < plan.len() ==> !(#[trigger] plan[i] is CreateAccount)
                &&& plan.len() >= 2
                &&& plan[plan.len() - 2] == SystemAction::Allocate { space }
                &&& plan[plan.len() - 1] == SystemAction::Assign
                &&& rent > account_lamports ==> plan.len() == 3 && plan[0] == SystemAction::Transfer {
                    lamports: (rent - account_lamports) as u64,
                }
                &&& rent <= account_lamports ==> plan.len() == 2
            }
        }),
{
}

} // verus!
