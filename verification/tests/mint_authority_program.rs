use solana_program::program_option::COption;
use solana_program::program_pack::Pack;
use steel_examples::account::AccountState;
use steel_examples::create_token::{process_create_token, CreateTokenStep};
use steel_examples::error::ProgramError;
fn token_program_id() -> [u8; 32] {
    spl_token::ID.to_bytes()
}
fn token_metadata_program_id() -> [u8; 32] {
    mpl_token_metadata::ID.to_bytes()
}
fn system_program_id() -> [u8; 32] {
    [0u8; 32]
}
fn rent_sysvar_id() -> [u8; 32] {
    steel::sysvar::rent::ID.to_bytes()
}
fn associated_token_program_id() -> [u8; 32] {
    spl_associated_token_account::ID.to_bytes()
}
use steel_examples::mint_authority::{
    create_token, get_mint_authority_pda_size, mint_pda, mint_token, AccountType, CreateToken,
    MintAuthorityInstruction, MintAuthorityPda, MintToken,
};
use steel_examples::token::MintState;

const PROGRAM: [u8; 32] = [17u8; 32];

fn state(key: [u8; 32]) -> AccountState {
    AccountState {
        key,
        owner: [0u8; 32],
        lamports: 0,
        data: Vec::new(),
        is_signer: false,
        is_writable: false,
        executable: false,
    }
}

#[test]
fn mint_authority_sizes_and_seed() {
    assert_eq!(get_mint_authority_pda_size(), 16);
    assert_eq!(MintAuthorityPda::SIZE, 8);
    assert_eq!(MintAuthorityPda::SEED_PREFIX, "mint_authority");
    assert_eq!(AccountType::MintAuthorityPda.discriminator(), 0);
    assert_eq!(AccountType::from_discriminator(0), Some(AccountType::MintAuthorityPda));
    assert_eq!(AccountType::from_discriminator(2), None);
}

#[test]
fn mint_authority_state_bytes() {
    let s = MintAuthorityPda { bump: 254 };
    assert_eq!(s.to_bytes(), vec![254]);
    let mut data = vec![0u8; 8];
    data.push(254);
    assert_eq!(MintAuthorityPda::try_from_bytes(&data), Ok(s));
    data.push(0);
    assert_eq!(MintAuthorityPda::try_from_bytes(&data), Err(ProgramError::InvalidAccountData));
    assert_eq!(MintAuthorityPda::try_from_bytes(&[1u8]), Err(ProgramError::InvalidAccountData));
}

#[test]
fn mint_pda_is_the_mint_address() {
    let (address, bump) = mint_pda(&PROGRAM);
    let (expected, expected_bump) =
        steel::Pubkey::find_program_address(&[b"mint"], &steel::Pubkey::new_from_array(PROGRAM));
    assert_eq!(address, expected.to_bytes());
    assert_eq!(bump, expected_bump);
}

#[test]
fn create_token_arguments_roundtrip() {
    let args = CreateToken {
        token_name: [b'n'; 32],
        token_symbol: [b's'; 10],
        token_uri: [b'u'; 200],
        bump: 253,
    };
    let bytes = args.to_bytes();
    assert_eq!(bytes.len(), 244);
    assert_eq!(bytes[0], MintAuthorityInstruction::CreateToken.discriminator());
    assert_eq!(bytes[243], 253);
    assert_eq!(CreateToken::try_from_bytes(&bytes[1..]), Ok(args));
    assert_eq!(CreateToken::try_from_bytes(&bytes), Err(ProgramError::InvalidInstructionData));
}

#[test]
fn mint_token_arguments_roundtrip() {
    let args = MintToken { amount: 1_000_000_000 };
    let bytes = args.to_bytes();
    assert_eq!(bytes[0], MintAuthorityInstruction::MintToken.discriminator());
    assert_eq!(&bytes[1..], &1_000_000_000u64.to_le_bytes());
    assert_eq!(MintToken::try_from_bytes(&bytes[1..]), Ok(args));
    assert_eq!(MintToken::try_from_bytes(&bytes[..4]), Err(ProgramError::InvalidInstructionData));
    assert_eq!(
        MintAuthorityInstruction::from_discriminator(1),
        Some(MintAuthorityInstruction::MintToken)
    );
    assert_eq!(MintAuthorityInstruction::from_discriminator(2), None);
}

fn pda(seeds: &[&[u8]], program: [u8; 32]) -> ([u8; 32], u8) {
    let (k, b) =
        steel::Pubkey::find_program_address(seeds, &steel::Pubkey::new_from_array(program));
    (k.to_bytes(), b)
}

fn metadata_address(mint: [u8; 32]) -> [u8; 32] {
    let mpl = token_metadata_program_id();
    pda(&[b"metadata", &mpl, &mint], mpl).0
}

#[test]
fn create_token_instruction() {
    let payer = [9u8; 32];
    let ix = create_token(payer, "N".repeat(40), "SYMBOLSYMBOL".to_string(), "u".repeat(210), &PROGRAM);
    let (mint, bump) = mint_pda(&PROGRAM);
    let (authority, _) = pda(&[b"mint_authority"], PROGRAM);
    assert_eq!(ix.program_id, PROGRAM);
    let keys: Vec<([u8; 32], bool, bool)> =
        ix.accounts.iter().map(|m| (m.pubkey, m.is_signer, m.is_writable)).collect();
    assert_eq!(
        keys,
        vec![
            (payer, true, true),
            (mint, false, true),
            (authority, false, false),
            (metadata_address(mint), false, true),
            (token_program_id(), false, false),
            (token_metadata_program_id(), false, false),
            (system_program_id(), false, false),
            (rent_sysvar_id(), false, false),
        ]
    );
    assert_eq!(ix.data.len(), 244);
    assert_eq!(ix.data[0], 0);
    assert_eq!(&ix.data[1..33], &[b'N'; 32]);
    assert_eq!(&ix.data[33..43], b"SYMBOLSYMB");
    assert_eq!(&ix.data[43..243], &[b'u'; 200][..]);
    assert_eq!(ix.data[243], bump);
}

#[test]
fn create_token_pads_short_strings() {
    let payer = [0u8; 32];
    let ix = create_token(
        payer,
        "Test".to_string(),
        "TST".to_string(),
        "https://test.json".to_string(),
        &PROGRAM,
    );
    let (_, bump) = mint_pda(&PROGRAM);
    let a = CreateToken::try_from_bytes(&ix.data[1..]).unwrap();
    let mut name = [0u8; 32];
    name[..4].copy_from_slice(b"Test");
    let mut symbol = [0u8; 10];
    symbol[..3].copy_from_slice(b"TST");
    let mut uri = [0u8; 200];
    uri[..17].copy_from_slice(b"https://test.json");
    assert_eq!(a, CreateToken { token_name: name, token_symbol: symbol, token_uri: uri, bump });
    assert_eq!(ix.accounts.len(), 8);
}

#[test]
fn mint_token_instruction() {
    let payer = [9u8; 32];
    let ix = mint_token(payer, 5, &PROGRAM);
    let (mint, _) = mint_pda(&PROGRAM);
    let keys: Vec<([u8; 32], bool, bool)> =
        ix.accounts.iter().map(|m| (m.pubkey, m.is_signer, m.is_writable)).collect();
    assert_eq!(
        keys,
        vec![
            (payer, true, true),
            (mint, false, true),
            (
                spl_associated_token_account::get_associated_token_address(
                    &steel::Pubkey::new_from_array(payer),
                    &steel::Pubkey::new_from_array(mint),
                )
                .to_bytes(),
                false,
                true,
            ),
            (token_program_id(), false, false),
            (associated_token_program_id(), false, false),
            (system_program_id(), false, false),
        ]
    );
    assert_eq!(ix.data, vec![1, 5, 0, 0, 0, 0, 0, 0, 0]);
}

#[test]
fn to_mint_reads_the_packed_fields() {
    let authority = steel::Pubkey::new_from_array([3u8; 32]);
    let mint = spl_token::state::Mint {
        mint_authority: COption::Some(authority),
        supply: 77,
        decimals: 9,
        is_initialized: true,
        freeze_authority: COption::None,
    };
    let mut packed = vec![0u8; 82];
    spl_token::state::Mint::pack(mint, &mut packed).unwrap();
    let mut account = state([4u8; 32]);
    account.owner = token_program_id();
    account.data = packed.clone();
    assert_eq!(
        account.to_mint(),
        Ok(MintState {
            mint_authority: Some([3u8; 32]),
            supply: 77,
            decimals: 9,
            is_initialized: true,
            freeze_authority: None,
        })
    );
    account.data[45] = 0;
    assert_eq!(account.to_mint(), Err(ProgramError::UninitializedAccount));
    account.data = packed.clone();
    account.data[0] = 2;
    assert_eq!(account.to_mint(), Err(ProgramError::InvalidAccountData));
    account.data = packed.clone();
    account.data.push(0xAB);
    assert_eq!(account.to_mint().map(|m| m.supply), Ok(77));
    account.data = packed[..81].to_vec();
    assert_eq!(account.to_mint().map(|m| m.decimals), Ok(9));
    account.data = Vec::new();
    assert_eq!(account.to_mint(), Err(ProgramError::UninitializedAccount));
    account.data = packed;
    account.owner = [0u8; 32];
    assert_eq!(account.to_mint(), Err(ProgramError::InvalidAccountOwner));
}

fn create_token_accounts(mint_key: [u8; 32]) -> Vec<AccountState> {
    let mut payer = state([9u8; 32]);
    payer.is_signer = true;
    let mint = state(mint_key);
    let (authority, _) = pda(&[b"mint_authority"], PROGRAM);
    let mut accounts = vec![payer, mint, state(authority), state(metadata_address(mint_key))];
    for k in [token_program_id(), token_metadata_program_id(), system_program_id()] {
        let mut p = state(k);
        p.executable = true;
        accounts.push(p);
    }
    let mut rent = state(rent_sysvar_id());
    rent.owner = steel::sysvar::ID.to_bytes();
    accounts.push(rent);
    accounts
}

fn create_token_data(bump: u8) -> Vec<u8> {
    let mut name = [0u8; 32];
    name[..4].copy_from_slice(b"Test");
    let mut symbol = [0u8; 10];
    symbol[..3].copy_from_slice(b"TST");
    let mut uri = [0u8; 200];
    uri[..17].copy_from_slice(b"https://test.json");
    CreateToken { token_name: name, token_symbol: symbol, token_uri: uri, bump }.to_bytes()[1..]
        .to_vec()
}

#[test]
fn process_create_token_plans_the_token() {
    let (mint, bump) = mint_pda(&PROGRAM);
    let (_, authority_bump) = pda(&[b"mint_authority"], PROGRAM);
    let accounts = create_token_accounts(mint);
    let data = create_token_data(bump);
    match process_create_token(&accounts, &data, &PROGRAM, 9) {
        Ok(CreateTokenStep::Proceed(plan)) => {
            assert_eq!(plan.mint_owner, token_program_id());
            assert_eq!(plan.mint_signer_seeds, vec![b"mint".to_vec(), vec![bump]]);
            assert_eq!(plan.mint_space, 82);
            let authority = accounts[2].key;
            let expected = spl_token::instruction::initialize_mint(
                &spl_token::ID,
                &steel::Pubkey::new_from_array(mint),
                &steel::Pubkey::new_from_array(authority),
                None,
                9,
            )
            .unwrap();
            assert_eq!(plan.initialize_mint.program_id, token_program_id());
            assert_eq!(plan.initialize_mint.data, expected.data);
            let mut init_data = vec![0u8, 9];
            init_data.extend_from_slice(&authority);
            init_data.push(0);
            assert_eq!(plan.initialize_mint.data, init_data);
            assert_eq!(plan.initialize_mint.accounts.len(), 2);
            assert_eq!(plan.initialize_mint.accounts[0].pubkey, mint);
            assert!(plan.initialize_mint.accounts[0].is_writable);
            assert!(!plan.initialize_mint.accounts[0].is_signer);
            assert_eq!(plan.initialize_mint.accounts[1].pubkey, rent_sysvar_id());
            assert!(!plan.initialize_mint.accounts[1].is_writable);
            assert_eq!(
                plan.initialize_mint_signer_seeds,
                vec![b"mint_authority".to_vec(), vec![bump]]
            );
            assert_eq!(
                plan.metadata_signer_seeds,
                vec![b"mint_authority".to_vec(), vec![authority_bump]]
            );
            assert_eq!(plan.name, b"Test".to_vec());
            assert_eq!(plan.symbol, b"TST".to_vec());
            assert_eq!(plan.uri, b"https://test.json".to_vec());
            let metadata = plan.metadata.expect("metadata instruction");
            assert_eq!(metadata.program_id, token_metadata_program_id());
            let keys: Vec<([u8; 32], bool, bool)> =
                metadata.accounts.iter().map(|m| (m.pubkey, m.is_signer, m.is_writable)).collect();
            assert_eq!(
                keys,
                vec![
                    (accounts[3].key, false, true),
                    (mint, false, false),
                    (authority, true, false),
                    (accounts[0].key, true, true),
                    (authority, false, false),
                    (system_program_id(), false, false),
                    (rent_sysvar_id(), false, false),
                ]
            );
            let mut md_data = vec![33u8, 4, 0, 0, 0];
            md_data.extend_from_slice(b"Test");
            md_data.extend_from_slice(&[3, 0, 0, 0]);
            md_data.extend_from_slice(b"TST");
            md_data.extend_from_slice(&[17, 0, 0, 0]);
            md_data.extend_from_slice(b"https://test.json");
            md_data.extend_from_slice(&[0, 0, 0, 0, 0, 1, 0]);
            assert_eq!(metadata.data, md_data);
        }
        _ => panic!("expected a plan"),
    }
    let mut wrong_authority = create_token_accounts(mint);
    wrong_authority[2].key = [3u8; 32];
    assert!(matches!(
        process_create_token(&wrong_authority, &data, &PROGRAM, 9),
        Ok(CreateTokenStep::MintAuthorityMismatch)
    ));
}

#[test]
fn process_create_token_without_utf8_names_plans_no_metadata() {
    let (mint, bump) = mint_pda(&PROGRAM);
    let accounts = create_token_accounts(mint);
    let mut data = create_token_data(bump);
    data[1] = 0xff;
    match process_create_token(&accounts, &data, &PROGRAM, 9) {
        Ok(CreateTokenStep::Proceed(plan)) => {
            assert!(plan.metadata.is_none());
            assert_eq!(plan.initialize_mint.data[1], 9);
        }
        _ => panic!("expected a plan"),
    }
    let mut trailing = create_token_data(bump);
    trailing[40] = 0xc3;
    match process_create_token(&accounts, &trailing, &PROGRAM, 6) {
        Ok(CreateTokenStep::Proceed(plan)) => {
            assert!(plan.metadata.is_none());
            assert_eq!(plan.initialize_mint.data[1], 6);
        }
        _ => panic!("expected a plan"),
    }
}

fn error_of(r: Result<CreateTokenStep, ProgramError>) -> Option<ProgramError> {
    r.err()
}

#[test]
fn process_create_token_errors() {
    let (mint, bump) = mint_pda(&PROGRAM);
    let accounts = create_token_accounts(mint);
    let data = create_token_data(bump);
    assert_eq!(
        error_of(process_create_token(&accounts, &data[1..], &PROGRAM, 9)),
        Some(ProgramError::InvalidInstructionData)
    );
    assert_eq!(
        error_of(process_create_token(&accounts[..7], &data, &PROGRAM, 9)),
        Some(ProgramError::NotEnoughAccountKeys)
    );
    let mut unsigned = create_token_accounts(mint);
    unsigned[0].is_signer = false;
    assert_eq!(
        error_of(process_create_token(&unsigned, &data, &PROGRAM, 9)),
        Some(ProgramError::MissingRequiredSignature)
    );
    let mut filled = create_token_accounts(mint);
    filled[1].data = vec![0u8; 82];
    assert_eq!(
        error_of(process_create_token(&filled, &data, &PROGRAM, 9)),
        Some(ProgramError::AccountAlreadyInitialized)
    );
    let mut elsewhere = create_token_accounts(mint);
    elsewhere[1].key = [1u8; 32];
    assert_eq!(
        error_of(process_create_token(&elsewhere, &data, &PROGRAM, 9)),
        Some(ProgramError::InvalidSeeds)
    );
    assert_eq!(
        error_of(process_create_token(&accounts, &create_token_data(bump.wrapping_sub(1)), &PROGRAM, 9)),
        Some(ProgramError::InvalidSeeds)
    );
    let mut wrong_metadata = create_token_accounts(mint);
    wrong_metadata[3].key = [2u8; 32];
    assert_eq!(
        error_of(process_create_token(&wrong_metadata, &data, &PROGRAM, 9)),
        Some(ProgramError::InvalidSeeds)
    );
    let mut not_executable = create_token_accounts(mint);
    not_executable[4].executable = false;
    assert_eq!(
        error_of(process_create_token(&not_executable, &data, &PROGRAM, 9)),
        Some(ProgramError::InvalidAccountData)
    );
    let mut wrong_rent = create_token_accounts(mint);
    wrong_rent[7].key = [5u8; 32];
    assert_eq!(
        error_of(process_create_token(&wrong_rent, &data, &PROGRAM, 9)),
        Some(ProgramError::InvalidAccountData)
    );
}

#[test]
fn client_instruction_passes_the_program_checks() {
    let payer = [9u8; 32];
    let ix = create_token(payer, "Test".to_string(), "TST".to_string(), "https://test.json".to_string(), &PROGRAM);
    let mut accounts = create_token_accounts(ix.accounts[1].pubkey);
    for (account, meta) in accounts.iter_mut().zip(ix.accounts.iter()) {
        assert_eq!(account.key, meta.pubkey);
    }
    accounts[0].key = payer;
    match process_create_token(&accounts, &ix.data[1..], &PROGRAM, 9) {
        Ok(CreateTokenStep::Proceed(plan)) => {
            assert_eq!(plan.name, b"Test".to_vec());
            assert_eq!(plan.uri, b"https://test.json".to_vec());
            assert!(plan.metadata.is_some());
        }
        _ => panic!("expected a plan"),
    }
}
