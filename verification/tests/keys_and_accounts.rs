use steel_examples::account::AccountState;
use steel_examples::error::ProgramError;
use steel_examples::keys::keys_equal;
use steel_examples::mint_authority::mint_pda;

fn pda(seeds: &[&[u8]], program: [u8; 32]) -> ([u8; 32], u8) {
    let (k, b) = steel::Pubkey::find_program_address(seeds, &steel::Pubkey::new_from_array(program));
    (k.to_bytes(), b)
}

fn account(key: [u8; 32]) -> AccountState {
    AccountState {
        key,
        owner: [0u8; 32],
        lamports: 0,
        data: Vec::new(),
        is_signer: false,
        is_writable: false,
        executable: false,
    }
}

#[test]
fn derived_addresses_match_solana() {
    let program = [7u8; 32];
    let (address, bump) = mint_pda(&program);
    assert_eq!((address, bump), pda(&[b"mint"], program));
    assert_ne!(address, program);
    assert_eq!(mint_pda(&program), (address, bump));
    assert_ne!(mint_pda(&[8u8; 32]).0, address);
}

#[test]
fn keys_equal_compares_every_byte() {
    let a = [5u8; 32];
    let mut b = a;
    assert!(keys_equal(&a, &b));
    b[31] = 6;
    assert!(!keys_equal(&a, &b));
    b = a;
    b[0] = 0;
    assert!(!keys_equal(&a, &b));
}

#[test]
fn account_checks_report_their_errors() {
    let mut a = account([9u8; 32]);
    assert_eq!(a.is_signer(), Err(ProgramError::MissingRequiredSignature));
    assert_eq!(a.is_writable(), Err(ProgramError::MissingRequiredSignature));
    assert_eq!(a.is_executable(), Err(ProgramError::InvalidAccountData));
    assert_eq!(a.is_empty(), Ok(()));
    assert_eq!(a.has_owner(&[1u8; 32]), Err(ProgramError::InvalidAccountOwner));
    assert_eq!(a.has_owner(&[0u8; 32]), Ok(()));
    assert_eq!(a.has_address(&[8u8; 32]), Err(ProgramError::InvalidAccountData));
    assert_eq!(a.has_address(&[9u8; 32]), Ok(()));
    assert_eq!(a.is_program(&[9u8; 32]), Err(ProgramError::InvalidAccountData));
    a.is_signer = true;
    a.is_writable = true;
    a.executable = true;
    a.data = vec![1];
    assert_eq!(a.is_signer(), Ok(()));
    assert_eq!(a.is_writable(), Ok(()));
    assert_eq!(a.is_program(&[9u8; 32]), Ok(()));
    assert_eq!(a.is_program(&[8u8; 32]), Err(ProgramError::InvalidAccountData));
    assert_eq!(a.is_empty(), Err(ProgramError::AccountAlreadyInitialized));
}

#[test]
fn has_seeds_checks_address_and_bump() {
    let program = [4u8; 32];
    let seeds = vec![b"power".to_vec()];
    let (address, bump) = pda(&[b"power"], program);
    let a = account(address);
    assert_eq!(a.has_seeds(&seeds, bump, &program), Ok(()));
    assert_eq!(a.has_seeds(&seeds, bump.wrapping_add(1), &program), Err(ProgramError::InvalidSeeds));
    let b = account([0u8; 32]);
    assert_eq!(b.has_seeds(&seeds, bump, &program), Err(ProgramError::InvalidSeeds));
}
