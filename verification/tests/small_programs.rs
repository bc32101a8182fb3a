use steel_examples::account::AccountState;
use steel_examples::counter::{CheckingAccountsAccount, Counter};
use steel_examples::error::ProgramError;
use steel_examples::lever;
use steel_examples::minter::{process_instruction, MinterError, MinterInstruction};
use steel_examples::realloc;

fn state(key: [u8; 32]) -> AccountState {
    AccountState {
        key,
        owner: [0u8; 32],
        lamports: 0,
        data: Vec::new(),
        is_signer: false,
        is_writable: false,
        executable: false,
    }
}

#[test]
fn counter_bytes() {
    assert_eq!(CheckingAccountsAccount::Counter.discriminator(), 0);
    let c = Counter { value: 0x0102_0304_0506_0708 };
    assert_eq!(c.to_bytes(), vec![8, 7, 6, 5, 4, 3, 2, 1]);
    let mut data = vec![0u8; 8];
    data.extend_from_slice(&c.to_bytes());
    assert_eq!(Counter::try_from_bytes(&data), Ok(c));
    data[0] = 2;
    assert_eq!(Counter::try_from_bytes(&data), Err(ProgramError::InvalidAccountData));
    assert_eq!(Counter::try_from_bytes(&[0u8; 15]), Err(ProgramError::InvalidAccountData));
}

#[test]
fn minter_error_is_custom_zero() {
    assert_eq!(ProgramError::from(MinterError::Dummy), ProgramError::Custom(0));
    assert_eq!(MinterError::Dummy.code(), 0);
    assert_eq!(MinterError::Dummy.message(), "This is a dummy error");
}

#[test]
fn minter_routes_instructions() {
    let api = [8u8; 32];
    assert_eq!(
        process_instruction(&[7u8; 32], &[0, 1], &api),
        Err(ProgramError::IncorrectProgramId)
    );
    assert_eq!(process_instruction(&api, &[], &api), Err(ProgramError::InvalidInstructionData));
    assert_eq!(process_instruction(&api, &[2, 1], &api), Err(ProgramError::InvalidInstructionData));
    assert_eq!(
        process_instruction(&api, &[0, 4, 5], &api),
        Ok((MinterInstruction::Initialize, vec![4, 5]))
    );
    assert_eq!(process_instruction(&api, &[1], &api), Ok((MinterInstruction::Add, vec![])));
}

fn three(first: AccountState, second: AccountState) -> Vec<AccountState> {
    let mut sys = state([0u8; 32]);
    sys.executable = true;
    vec![first, second, sys]
}

#[test]
fn lever_initialize_checks_and_plan() {
    let program = [11u8; 32];
    let mut user = state([1u8; 32]);
    assert_eq!(
        lever::process_initialize(&three(state([2u8; 32]), state([1u8; 32]))[..2], &[], &program).err(),
        Some(ProgramError::NotEnoughAccountKeys)
    );
    assert_eq!(
        lever::process_initialize(&three(state([2u8; 32]), state([1u8; 32])), &[], &program).err(),
        Some(ProgramError::MissingRequiredSignature)
    );
    user.is_signer = true;
    let mut accounts = three(state([2u8; 32]), user);
    accounts[2].executable = false;
    assert_eq!(
        lever::process_initialize(&accounts, &[], &program).err(),
        Some(ProgramError::InvalidAccountData)
    );
    accounts[2].executable = true;
    let plan = lever::process_initialize(&accounts, &[], &program).unwrap();
    let (_, bump) =
        steel::Pubkey::find_program_address(&[b"power"], &steel::Pubkey::new_from_array(program));
    assert_eq!(plan.seeds, vec![b"power".to_vec()]);
    assert_eq!(plan.bump, bump);
}

#[test]
fn realloc_initialize_checks_and_plan() {
    let program = [12u8; 32];
    let mut payer = state([1u8; 32]);
    assert_eq!(
        realloc::process_initialize(&three(state([1u8; 32]), state([2u8; 32])), &[], &program, 3).err(),
        Some(ProgramError::MissingRequiredSignature)
    );
    payer.is_signer = true;
    let mut accounts = three(payer, state([2u8; 32]));
    accounts[2].key = [3u8; 32];
    assert_eq!(
        realloc::process_initialize(&accounts, &[], &program, 3).err(),
        Some(ProgramError::InvalidAccountData)
    );
    accounts[2].key = [0u8; 32];
    assert_eq!(
        realloc::process_initialize(&accounts, &[], &program, 3).err(),
        Some(ProgramError::InvalidInstructionData)
    );
    let plan = realloc::process_initialize(&accounts, &[1, 2, 3], &program, 3).unwrap();
    assert_eq!(plan.args, vec![1, 2, 3]);
    let (_, bump) =
        steel::Pubkey::find_program_address(&[b"message"], &steel::Pubkey::new_from_array(program));
    assert_eq!(plan.seeds, vec![b"message".to_vec()]);
    assert_eq!(plan.bump, bump);
    assert_eq!(
        realloc::process_initialize(&accounts[..1], &[], &program, 3).err(),
        Some(ProgramError::NotEnoughAccountKeys)
    );
}
