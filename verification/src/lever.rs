use vstd::prelude::*;

use crate::account::{and_then, AccountState};
use crate::error::ProgramError;
use crate::keys::{find_program_address, lemma_system_program_address, program_address, system_program_address, system_program_id, Key};

verus! {

/// The seed of the power account, `b"power"`.
pub open spec fn power_seed() -> Seq<u8> {
    seq![112u8, 111, 119, 101, 114]
}

/// The single seed `b"power"`.
pub open spec fn power_seeds() -> Seq<Seq<u8>> {
    seq![power_seed()]
}

fn make_power_seeds() -> (r: Vec<Vec<u8>>)
    ensures
        r.deep_view() == power_seeds(),
{
    let seed: Vec<u8> = vec![112u8, 111, 119, 101, 114];
    assert(seed@ =~= power_seed());
    let mut r: Vec<Vec<u8>> = Vec::new();
    r.push(seed);
    assert(r.deep_view()[0] == power_seed());
    assert(r.deep_view() =~= power_seeds());
    r
}

/// The power account to create: the seeds `[b"power"]` and the bump the
/// address search finds for them under the lever program.
pub struct PowerAccountPlan {
    pub seeds: Vec<Vec<u8>>,
    pub bump: u8,
}

/// The checks of the lever's initialize instruction, in order: the user
/// signed, and the system program is the system program.
pub open spec fn initialize_checks(user: AccountState, system_program: AccountState) -> Result<
    (),
    ProgramError,
> {
    and_then(user.signer_check(), system_program.program_check(system_program_address()))
}

/// First step of the lever's initialize instruction, with accounts `[power,
/// user, system_program]`: `NotEnoughAccountKeys` unless exactly three
/// accounts are given, then the errors of `initialize_checks`; otherwise the
/// power account to create at the program address of `b"power"` under
/// `program_id`, paid by the user.
///
/// What the program does with the created account (loading it as its
/// `PowerStatus` state and switching it off) depends on the layout of that
/// state, which is defined outside the sources of this library.
pub fn process_initialize(accounts: &[AccountState], data: &[u8], program_id: &Key) -> (r: Result<
    PowerAccountPlan,
    ProgramError,
>)
    ensures
        accounts@.len() != 3 ==> (r is Err && r->Err_0 == ProgramError::NotEnoughAccountKeys),
        accounts@.len() == 3 ==> match initialize_checks(accounts@[1], accounts@[2]) {
            Err(e) => r is Err && r->Err_0 == e,
            Ok(()) => r matches Ok(p) && p.seeds.deep_view() == power_seeds() && p.bump
                == program_address(power_seeds(), program_id@).1,
        },
{
    if accounts.len() != 3 {
        return Err(ProgramError::NotEnoughAccountKeys);
    }
    let user_info = &accounts[1];
    let system_program = &accounts[2];
    user_info.is_signer()?;
    system_program.is_program(&system_program_id())?;
    let seeds = make_power_seeds();
    let (_, bump) = find_program_address(&seeds, program_id);
    Ok(PowerAccountPlan { seeds, bump })
}

} // verus!

verus! {

/// Law: the lever's initialize checks pass exactly when the user signed and
/// the third account is the executable system program, whose address is 32
/// zero bytes. A user that did not sign fails with
/// `MissingRequiredSignature`; with a signing user, any other third account,
/// executable or not, fails with `InvalidAccountData`.
pub proof fn lemma_initialize_checks(user: AccountState, system_program: AccountState)
    ensures
        initialize_checks(user, system_program) is Ok <==> {
            &&& user.is_signer
            &&& forall|i: int| 0 <= i < 32 ==> system_program.key@[i] == 0u8
            &&& system_program.executable
        },
        !user.is_signer ==> initialize_checks(user, system_program) == Err::<(), ProgramError>(
            ProgramError::MissingRequiredSignature,
        ),
        user.is_signer && !((forall|i: int| 0 <= i < 32 ==> system_program.key@[i] == 0u8)
            && system_program.executable) ==> initialize_checks(user, system_program) == Err::<
            (),
            ProgramError,
        >(ProgramError::InvalidAccountData),
{
    lemma_system_program_address(system_program.key@);
}

} // verus!
