use steel_examples::account::AccountState;
use steel_examples::error::ProgramError;
use steel_examples::favorites::{
    finish_set_favorites, process_set_favorites, Favorites, FavoritesAccount, FavoritesInstruction,
    SetFavoritesArgs,
};

const PROGRAM: [u8; 32] = [42u8; 32];

fn pda(signer: [u8; 32]) -> ([u8; 32], u8) {
    let (k, b) = steel::Pubkey::find_program_address(
        &[b"favorites", &signer],
        &steel::Pubkey::new_from_array(PROGRAM),
    );
    (k.to_bytes(), b)
}

fn state(key: [u8; 32]) -> AccountState {
    AccountState {
        key,
        owner: [0u8; 32],
        lamports: 0,
        data: Vec::new(),
        is_signer: false,
        is_writable: false,
        executable: false,
    }
}

fn sample_args() -> SetFavoritesArgs {
    let mut color = [0u8; 32];
    color[..4].copy_from_slice(b"blue");
    let mut hobbies_len = [0u32; 32];
    hobbies_len[0] = 5;
    hobbies_len[31] = 0x0102_0304;
    let mut hobbies = [[0u8; 32]; 32];
    hobbies[0][..5].copy_from_slice(b"hobby");
    hobbies[31][31] = 0xff;
    SetFavoritesArgs {
        number: 42,
        color_len: 4,
        color,
        hobbies_count: 1,
        hobbies_len,
        hobbies,
    }
}

fn accounts_for(signer: [u8; 32], favorites: AccountState) -> Vec<AccountState> {
    let mut s = state(signer);
    s.is_signer = true;
    let mut sys = state([0u8; 32]);
    sys.executable = true;
    vec![s, favorites, sys]
}

#[test]
fn discriminators_are_zero() {
    assert_eq!(FavoritesInstruction::SetFavoritesArgs.discriminator(), 0);
    assert_eq!(FavoritesInstruction::from_discriminator(0), Some(FavoritesInstruction::SetFavoritesArgs));
    assert_eq!(FavoritesInstruction::from_discriminator(1), None);
    assert_eq!(FavoritesAccount::Favorites.discriminator(), 0);
    assert_eq!(FavoritesAccount::from_discriminator(0), Some(FavoritesAccount::Favorites));
    assert_eq!(FavoritesAccount::from_discriminator(7), None);
}

#[test]
fn set_favorites_args_layout() {
    let args = sample_args();
    let bytes = args.to_bytes();
    assert_eq!(bytes.len(), 1201);
    assert_eq!(bytes[0], 0);
    assert_eq!(&bytes[1..9], &42u64.to_le_bytes());
    assert_eq!(&bytes[9..13], &4u32.to_le_bytes());
    assert_eq!(&bytes[13..17], b"blue");
    assert_eq!(&bytes[45..49], &1u32.to_le_bytes());
    assert_eq!(&bytes[49..53], &5u32.to_le_bytes());
    assert_eq!(&bytes[173..177], &0x0102_0304u32.to_le_bytes());
    assert_eq!(&bytes[177..182], b"hobby");
    assert_eq!(bytes[1200], 0xff);
    let back = SetFavoritesArgs::try_from_bytes(&bytes[1..]).unwrap();
    assert_eq!(back, args);
}

#[test]
fn set_favorites_args_wrong_length() {
    let bytes = sample_args().to_bytes();
    assert_eq!(
        SetFavoritesArgs::try_from_bytes(&bytes),
        Err(ProgramError::InvalidInstructionData)
    );
    assert_eq!(
        SetFavoritesArgs::try_from_bytes(&bytes[2..]),
        Err(ProgramError::InvalidInstructionData)
    );
    assert_eq!(SetFavoritesArgs::try_from_bytes(&[]), Err(ProgramError::InvalidInstructionData));
}

#[test]
fn favorites_account_decoding() {
    let args = sample_args();
    let fav = Favorites {
        number: args.number,
        color_len: args.color_len,
        color: args.color,
        hobbies_count: args.hobbies_count,
        hobbies_len: args.hobbies_len,
        hobbies: args.hobbies,
    };
    let body = fav.to_bytes();
    assert_eq!(body.len(), 1200);
    let mut data = vec![0u8; 8];
    data.extend_from_slice(&body);
    assert_eq!(Favorites::try_from_bytes(&data), Ok(fav));
    let mut wrong = data.clone();
    wrong[0] = 1;
    assert_eq!(Favorites::try_from_bytes(&wrong), Err(ProgramError::InvalidAccountData));
    let mut long = data.clone();
    long.push(0);
    assert_eq!(Favorites::try_from_bytes(&long), Err(ProgramError::InvalidAccountData));
    assert_eq!(Favorites::try_from_bytes(&[3u8]), Err(ProgramError::InvalidAccountData));
}

#[test]
fn process_set_favorites_errors() {
    let data = sample_args().to_bytes();
    let body = &data[1..];
    let fav = state([1u8; 32]);
    assert_eq!(
        process_set_favorites(&accounts_for([2u8; 32], fav.clone_state())[..2], body, &PROGRAM).err(),
        Some(ProgramError::NotEnoughAccountKeys)
    );
    let mut accounts = accounts_for([2u8; 32], state([1u8; 32]));
    accounts[0].is_signer = false;
    assert_eq!(
        process_set_favorites(&accounts, body, &PROGRAM).err(),
        Some(ProgramError::MissingRequiredSignature)
    );
    let mut accounts = accounts_for([2u8; 32], state([1u8; 32]));
    accounts[2].key = [3u8; 32];
    assert_eq!(
        process_set_favorites(&accounts, body, &PROGRAM).err(),
        Some(ProgramError::InvalidAccountData)
    );
    let mut accounts = accounts_for([2u8; 32], state([1u8; 32]));
    accounts[2].executable = false;
    assert_eq!(
        process_set_favorites(&accounts, body, &PROGRAM).err(),
        Some(ProgramError::InvalidAccountData)
    );
    let accounts = accounts_for([2u8; 32], state([1u8; 32]));
    assert_eq!(
        process_set_favorites(&accounts, &data, &PROGRAM).err(),
        Some(ProgramError::InvalidInstructionData)
    );
}

trait CloneState {
    fn clone_state(&self) -> AccountState;
}

impl CloneState for AccountState {
    fn clone_state(&self) -> AccountState {
        AccountState {
            key: self.key,
            owner: self.owner,
            lamports: self.lamports,
            data: self.data.clone(),
            is_signer: self.is_signer,
            is_writable: self.is_writable,
            executable: self.executable,
        }
    }
}

#[test]
fn set_favorites_plans_creation_then_stores() {
    let signer = [2u8; 32];
    let args = sample_args();
    let data = args.to_bytes();
    let seeds = vec![b"favorites".to_vec(), signer.to_vec()];
    let (address, bump) = pda(signer);

    let accounts = accounts_for(signer, state(address));
    let plan = process_set_favorites(&accounts, &data[1..], &PROGRAM).unwrap();
    assert!(plan.create_account);
    assert_eq!(plan.seeds, seeds);
    assert_eq!(plan.bump, bump);
    assert_eq!(plan.args, args);

    let mut created = state(address);
    created.owner = PROGRAM;
    created.is_writable = true;
    created.data = vec![0u8; 1208];
    let stored = finish_set_favorites(&plan, &created, &PROGRAM).unwrap();
    assert_eq!(stored.len(), 1208);
    assert_eq!(&stored[..8], &[0u8; 8]);
    assert_eq!(&stored[8..], &data[1..]);
    let read = Favorites::try_from_bytes(&stored).unwrap();
    assert_eq!(read.number, 42);
    assert_eq!(read.color, args.color);
    assert_eq!(read.hobbies, args.hobbies);
    assert_eq!(read.hobbies_len, args.hobbies_len);

    let accounts = accounts_for(signer, created.clone_state());
    let plan = process_set_favorites(&accounts, &data[1..], &PROGRAM).unwrap();
    assert!(!plan.create_account);
}

#[test]
fn finish_set_favorites_errors() {
    let signer = [2u8; 32];
    let args = sample_args();
    let data = args.to_bytes();
    let seeds = vec![b"favorites".to_vec(), signer.to_vec()];
    let (address, _) = pda(signer);
    let plan = process_set_favorites(&accounts_for(signer, state(address)), &data[1..], &PROGRAM).unwrap();

    let mut good = state(address);
    good.owner = PROGRAM;
    good.is_writable = true;
    good.data = vec![0u8; 1210];
    good.data[1209] = 7;

    let mut wrong_key = good.clone_state();
    wrong_key.key = [9u8; 32];
    assert_eq!(finish_set_favorites(&plan, &wrong_key, &PROGRAM), Err(ProgramError::InvalidSeeds));
    let mut read_only = good.clone_state();
    read_only.is_writable = false;
    assert_eq!(
        finish_set_favorites(&plan, &read_only, &PROGRAM),
        Err(ProgramError::MissingRequiredSignature)
    );
    let mut foreign = good.clone_state();
    foreign.owner = [1u8; 32];
    assert_eq!(
        finish_set_favorites(&plan, &foreign, &PROGRAM),
        Err(ProgramError::InvalidAccountOwner)
    );
    let mut short = good.clone_state();
    short.data = vec![0u8; 100];
    assert_eq!(
        finish_set_favorites(&plan, &short, &PROGRAM),
        Err(ProgramError::InvalidAccountData)
    );
    let mut other_type = good.clone_state();
    other_type.data[0] = 1;
    assert_eq!(
        finish_set_favorites(&plan, &other_type, &PROGRAM),
        Err(ProgramError::InvalidAccountData)
    );
    let stored = finish_set_favorites(&plan, &good, &PROGRAM).unwrap();
    assert_eq!(stored.len(), 1210);
    assert_eq!(&stored[8..1208], &data[1..]);
    assert_eq!(stored[1209], 7);
}

#[test]
fn storing_twice_keeps_the_last_arguments() {
    let signer = [2u8; 32];
    let first = sample_args();
    let mut second = sample_args();
    second.number = 7;
    second.hobbies[3][0] = b'x';
    let (address, _) = pda(signer);
    let mut account = state(address);
    account.owner = PROGRAM;
    account.is_writable = true;
    account.data = vec![0u8; 1208];
    account.data[3] = 9;
    let plan_first =
        process_set_favorites(&accounts_for(signer, account.clone_state()), &first.to_bytes()[1..], &PROGRAM)
            .unwrap();
    let plan_second =
        process_set_favorites(&accounts_for(signer, account.clone_state()), &second.to_bytes()[1..], &PROGRAM)
            .unwrap();
    let once = finish_set_favorites(&plan_first, &account, &PROGRAM).unwrap();
    let mut after_first = account.clone_state();
    after_first.data = once.clone();
    let twice = finish_set_favorites(&plan_second, &after_first, &PROGRAM).unwrap();
    let direct = finish_set_favorites(&plan_second, &account, &PROGRAM).unwrap();
    assert_eq!(twice, direct);
    assert_eq!(twice[3], 9);
    assert_eq!(Favorites::try_from_bytes(&twice).unwrap().number, 7);
    let mut again = account.clone_state();
    again.data = once.clone();
    assert_eq!(finish_set_favorites(&plan_first, &again, &PROGRAM).unwrap(), once);
}
