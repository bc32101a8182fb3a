use vstd::prelude::*;

use crate::account::{and_then, AccountState};
use crate::bytes::append_bytes;
use crate::error::ProgramError;
use crate::keys::{find_program_address, lemma_system_program_address, program_address, system_program_address, system_program_id, Key};

verus! {

/// The seed of the message account, `b"message"`.
pub open spec fn message_seed() -> Seq<u8> {
    seq![109u8, 101, 115, 115, 97, 103, 101]
}

/// The single seed `b"message"`.
pub open spec fn message_seeds() -> Seq<Seq<u8>> {
    seq![message_seed()]
}

fn make_message_seeds() -> (r: Vec<Vec<u8>>)
    ensures
        r.deep_view() == message_seeds(),
{
    let seed: Vec<u8> = vec![109u8, 101, 115, 115, 97, 103, 101];
    assert(seed@ =~= message_seed());
    let mut r: Vec<Vec<u8>> = Vec::new();
    r.push(seed);
    assert(r.deep_view()[0] == message_seed());
    assert(r.deep_view() =~= message_seeds());
    r
}

/// The message account's signer seeds: `b"message"` and the bump the address
/// search finds for it under the realloc program, with the instruction's
/// argument bytes.
pub struct MessageAccountPlan {
    pub seeds: Vec<Vec<u8>>,
    pub bump: u8,
    pub args: Vec<u8>,
}

/// The account checks of the realloc program's initialize instruction, in
/// order: the payer signed, and the system program is the system program.
pub open spec fn initialize_checks(payer: AccountState, system_program: AccountState) -> Result<
    (),
    ProgramError,
> {
    and_then(payer.signer_check(), system_program.program_check(system_program_address()))
}

/// The checks of the realloc program's initialize instruction, with accounts
/// `[payer, message, system_program]`, its data, and `args_len`, the size of
/// its `Initialize` arguments: `NotEnoughAccountKeys` unless exactly three
/// accounts are given, then the errors of `initialize_checks`, then
/// `InvalidInstructionData` unless the data is exactly `args_len` bytes;
/// otherwise the argument bytes and the seeds and bump that sign the creation
/// of the message account, the program address of `b"message"` under
/// `program_id`.
///
/// After the address search the program sizes the account with
/// `Message::required_space`, creates it, and copies the message into it.
/// Those steps depend on the layouts of `Initialize` and `Message`, which are
/// defined outside the sources of this library and are not covered here; for
/// the same reason their size is passed in.
pub fn process_initialize(
    accounts: &[AccountState],
    data: &[u8],
    program_id: &Key,
    args_len: usize,
) -> (r: Result<MessageAccountPlan, ProgramError>)
    ensures
        accounts@.len() != 3 ==> (r is Err && r->Err_0 == ProgramError::NotEnoughAccountKeys),
        accounts@.len() == 3 ==> match initialize_checks(accounts@[0], accounts@[2]) {
            Err(e) => r is Err && r->Err_0 == e,
            Ok(()) => if data@.len() != args_len {
                r is Err && r->Err_0 == ProgramError::InvalidInstructionData
            } else {
                r matches Ok(p) && p.args@ == data@ && p.seeds.deep_view() == message_seeds()
                    && p.bump == program_address(message_seeds(), program_id@).1
            },
        },
{
    if accounts.len() != 3 {
        return Err(ProgramError::NotEnoughAccountKeys);
    }
    let payer_info = &accounts[0];
    let system_program = &accounts[2];
    payer_info.is_signer()?;
    system_program.is_program(&system_program_id())?;
    if data.len() != args_len {
        return Err(ProgramError::InvalidInstructionData);
    }
    let mut args: Vec<u8> = Vec::new();
    append_bytes(&mut args, data);
    let seeds = make_message_seeds();
    let (_, bump) = find_program_address(&seeds, program_id);
    Ok(MessageAccountPlan { seeds, bump, args })
}

} // verus!

verus! {

/// Law: the realloc program's initialize checks pass exactly when the payer signed and
/// the third account is the executable system program, whose address is 32
/// zero bytes. A payer that did not sign fails with
/// `MissingRequiredSignature`; with a signing payer, any other third account,
/// executable or not, fails with `InvalidAccountData`.
pub proof fn lemma_initialize_checks(payer: AccountState, system_program: AccountState)
    ensures
        initialize_checks(payer, system_program) is Ok <==> {
            &&& payer.is_signer
            &&& forall|i: int| 0 <= i < 32 ==> system_program.key@[i] == 0u8
            &&& system_program.executable
        },
        !payer.is_signer ==> initialize_checks(payer, system_program) == Err::<(), ProgramError>(
            ProgramError::MissingRequiredSignature,
        ),
        payer.is_signer && !((forall|i: int| 0 <= i < 32 ==> system_program.key@[i] == 0u8)
            && system_program.executable) ==> initialize_checks(payer, system_program) == Err::<
            (),
            ProgramError,
        >(ProgramError::InvalidAccountData),
{
    lemma_system_program_address(system_program.key@);
}

} // verus!
