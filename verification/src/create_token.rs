use vstd::bytes::{spec_u16_from_le_bytes, spec_u32_from_le_bytes};
use vstd::prelude::*;
use vstd::utf8::valid_utf8;

use crate::account::{and_then, check, AccountState};
use crate::bytes::{lemma_nul_trimmed_len, lemma_valid_utf8_nul_trimmed, nul_trimmed, padded, trim_nul};
use crate::cpi::{
    create_metadata_account_v3, create_metadata_v3_data, initialize_mint, initialize_mint_data,
    lemma_create_metadata_v3_data_fields, string_from_utf8,
};
use crate::instruction::Instruction;
use crate::error::ProgramError;
use crate::keys::{
    find_program_address, keys_equal, program_address, rent_sysvar_address, rent_sysvar_id,
    system_program_address, system_program_id, token_metadata_program_address,
    token_metadata_program_id, token_program_address, token_program_id, Key,
};
use crate::mint_authority::{
    key_seed, make_metadata_seed, make_mint_authority_seed, make_mint_seed, make_mint_seeds,
    metadata_seeds, mint_authority_pda, mint_authority_seed, mint_authority_seeds, mint_seed,
    mint_seeds, lemma_create_token_strings_round_trip, string_bytes, CreateToken,
};
use crate::token::MINT_LEN;

verus! {

/// The checks of the create-token instruction, in order: the arguments are
/// 243 bytes, eight accounts are given, the payer signed, the mint account
/// holds no data and is the program address of `b"mint"` with the bump the
/// arguments carry, the metadata account is the metadata address of the mint
/// under the metadata program account, the token, metadata and system program
/// accounts are those programs, and the rent account is the rent sysvar.
pub open spec fn create_token_checks(accounts: Seq<AccountState>, data: Seq<u8>, program_id: Seq<u8>) -> Result<
    (),
    ProgramError,
> {
    if data.len() != 243 {
        Err(ProgramError::InvalidInstructionData)
    } else if accounts.len() != 8 {
        Err(ProgramError::NotEnoughAccountKeys)
    } else {
        and_then(
            accounts[0].signer_check(),
            and_then(
                accounts[1].empty_check(),
                and_then(
                    accounts[1].seeds_check(mint_seeds(), data[242], program_id),
                    and_then(
                        check(
                            accounts[3].key@ == program_address(
                                metadata_seeds(accounts[5].key@, accounts[1].key@),
                                accounts[5].key@,
                            ).0,
                            ProgramError::InvalidSeeds,
                        ),
                        and_then(
                            accounts[4].program_check(token_program_address()),
                            and_then(
                                accounts[5].program_check(token_metadata_program_address()),
                                and_then(
                                    accounts[6].program_check(system_program_address()),
                                    accounts[7].address_check(rent_sysvar_address()),
                                ),
                            ),
                        ),
                    ),
                ),
            ),
        )
    }
}

/// What the create-token instruction does once its checks pass: allocate the
/// mint account for the token program, initialize it as a mint, and create its
/// metadata, each step invoked with the signer seeds given here.
pub struct CreateTokenPlan {
    /// The program that the mint account is allocated for: the token program.
    pub mint_owner: Key,
    /// The signer seeds of the mint account: `b"mint"` and its bump.
    pub mint_signer_seeds: Vec<Vec<u8>>,
    /// The space to allocate for the mint: the length of a packed mint.
    pub mint_space: usize,
    /// The token program's `InitializeMint` instruction for the mint, with the
    /// mint-authority account as its authority, no freeze authority and the
    /// decimals.
    pub initialize_mint: Instruction,
    /// The signer seeds of the initialization: `b"mint_authority"` and the
    /// bump that the arguments carry.
    pub initialize_mint_signer_seeds: Vec<Vec<u8>>,
    /// The token name, symbol and URI: the argument fields without the zero
    /// bytes at either end.
    pub name: Vec<u8>,
    pub symbol: Vec<u8>,
    pub uri: Vec<u8>,
    /// The metadata program's `CreateMetadataAccountV3` instruction for the
    /// mint, with the name, symbol and URI, no seller fee and the mint
    /// authority as its update authority; `None` when an argument field is not
    /// valid UTF-8, where the program panics once the mint is initialized.
    pub metadata: Option<Instruction>,
    /// The signer seeds of the metadata creation: `b"mint_authority"` and the
    /// bump of the mint-authority address.
    pub metadata_signer_seeds: Vec<Vec<u8>>,
}

/// The outcome of the create-token checks that pass: the plan, or the mint
/// authority account is not the mint-authority address, where the program
/// stops on a failed assertion.
pub enum CreateTokenStep {
    Proceed(CreateTokenPlan),
    MintAuthorityMismatch,
}

/// The metadata instruction of a plan: to the metadata program, naming the
/// metadata account (writable), the mint, the mint authority (signer), the
/// payer (writable signer), the mint authority again as the update authority
/// (not signing), the system program and the rent account; its data creates
/// mutable metadata with the trimmed name, symbol and URI and no seller fee.
pub open spec fn create_token_metadata(accounts: Seq<AccountState>, data: Seq<u8>, ix: Instruction) -> bool {
    &&& ix.program_id@ == token_metadata_program_address()
    &&& ix.account_views() == seq![
        (accounts[3].key@, false, true),
        (accounts[1].key@, false, false),
        (accounts[2].key@, true, false),
        (accounts[0].key@, true, true),
        (accounts[2].key@, false, false),
        (accounts[6].key@, false, false),
        (accounts[7].key@, false, false),
    ]
    &&& ix.data@ == create_metadata_v3_data(
        nul_trimmed(data.subrange(0, 32)),
        nul_trimmed(data.subrange(32, 42)),
        nul_trimmed(data.subrange(42, 242)),
        0,
        true,
    )
}

/// The step that the create-token instruction takes after its checks pass.
pub open spec fn create_token_step(
    accounts: Seq<AccountState>,
    data: Seq<u8>,
    program_id: Seq<u8>,
    decimals: u8,
    step: CreateTokenStep,
) -> bool {
    let authority = program_address(mint_authority_seeds(), program_id);
    if accounts[2].key@ != authority.0 {
        step is MintAuthorityMismatch
    } else {
        step matches CreateTokenStep::Proceed(p) && {
            &&& p.mint_owner@ == token_program_address()
            &&& p.mint_signer_seeds.deep_view() == seq![mint_seed(), seq![data[242]]]
            &&& p.mint_space == 82
            &&& p.initialize_mint.program_id@ == token_program_address()
            &&& p.initialize_mint.account_views() == seq![
                (accounts[1].key@, false, true),
                (rent_sysvar_address(), false, false),
            ]
            &&& p.initialize_mint.data@ == initialize_mint_data(accounts[2].key@, None, decimals)
            &&& p.initialize_mint_signer_seeds.deep_view() == seq![
                mint_authority_seed(),
                seq![data[242]],
            ]
            &&& p.name@ == nul_trimmed(data.subrange(0, 32))
            &&& p.symbol@ == nul_trimmed(data.subrange(32, 42))
            &&& p.uri@ == nul_trimmed(data.subrange(42, 242))
            &&& (p.metadata is Some <==> {
                &&& valid_utf8(data.subrange(0, 32))
                &&& valid_utf8(data.subrange(32, 42))
                &&& valid_utf8(data.subrange(42, 242))
            })
            &&& (p.metadata matches Some(ix) ==> create_token_metadata(accounts, data, ix))
            &&& p.metadata_signer_seeds.deep_view() == seq![
                mint_authority_seed(),
                seq![authority.1],
            ]
        }
    }
}

fn seeds_with_bump(seed: Vec<u8>, bump: u8) -> (r: Vec<Vec<u8>>)
    ensures
        r.deep_view() == seq![seed@, seq![bump]],
{
    let ghost s = seed@;
    let mut r: Vec<Vec<u8>> = Vec::new();
    r.push(seed);
    let b: Vec<u8> = vec![bump];
    assert(b@ =~= seq![bump]);
    r.push(b);
    assert(r.deep_view()[0] == s);
    assert(r.deep_view()[1] == seq![bump]);
    assert(r.deep_view() =~= seq![s, seq![bump]]);
    r
}

/// Processes the create-token instruction, with accounts `[payer, mint,
/// mint_authority, metadata, token_program, token_metadata_program,
/// system_program, rent]`, the data after the discriminator and the decimals
/// of the tokens created.
///
/// Fails with the first failing check of `create_token_checks`, before any
/// step is planned: an error carries no allocation, initialization or
/// metadata creation. Otherwise it stops when the mint authority account is
/// not the program address of `b"mint_authority"`, and else plans the mint's
/// allocation (82 bytes for the token program, signed by the mint's seeds),
/// its `InitializeMint` (signed by `b"mint_authority"` with the bump that the
/// arguments carry), and its `CreateMetadataAccountV3` with the NUL-trimmed
/// name, symbol and URI (signed by the mint authority's seeds), or no metadata
/// creation where a field is not UTF-8.
pub fn process_create_token(
    accounts: &[AccountState],
    data: &[u8],
    program_id: &Key,
    decimals: u8,
) -> (r: Result<CreateTokenStep, ProgramError>)
    ensures
        r is Err <==> create_token_checks(accounts@, data@, program_id@) is Err,
        match create_token_checks(accounts@, data@, program_id@) {
            Err(e) => r is Err && r->Err_0 == e,
            Ok(()) => r matches Ok(step) && create_token_step(
                accounts@,
                data@,
                program_id@,
                decimals,
                step,
            ),
        },
{
    let args = CreateToken::try_from_bytes(data)?;
    if accounts.len() != 8 {
        return Err(ProgramError::NotEnoughAccountKeys);
    }
    let payer = &accounts[0];
    let mint_account = &accounts[1];
    let mint_authority = &accounts[2];
    let metadata_account = &accounts[3];
    let token_program = &accounts[4];
    let token_metadata_program = &accounts[5];
    let system_program = &accounts[6];
    let rent = &accounts[7];
    proof {
        assert(args.body()[242] == args.bump);
        assert(args.token_name@ =~= data@.subrange(0, 32));
        assert(args.token_symbol@ =~= data@.subrange(32, 42));
        assert(args.token_uri@ =~= data@.subrange(42, 242));
    }
    payer.is_signer()?;
    mint_account.is_empty()?;
    let mint_seeds = make_mint_seeds();
    mint_account.has_seeds(&mint_seeds, args.bump, program_id)?;
    let mut md_seeds: Vec<Vec<u8>> = Vec::new();
    md_seeds.push(make_metadata_seed());
    md_seeds.push(key_seed(&token_metadata_program.key));
    md_seeds.push(key_seed(&mint_account.key));
    assert(md_seeds.deep_view()[0] == crate::mint_authority::metadata_seed());
    assert(md_seeds.deep_view()[1] == token_metadata_program.key@);
    assert(md_seeds.deep_view()[2] == mint_account.key@);
    assert(md_seeds.deep_view() =~= metadata_seeds(
        token_metadata_program.key@,
        mint_account.key@,
    ));
    let (metadata, _) = find_program_address(&md_seeds, &token_metadata_program.key);
    if !keys_equal(&metadata_account.key, &metadata) {
        return Err(ProgramError::InvalidSeeds);
    }
    token_program.is_program(&token_program_id())?;
    token_metadata_program.is_program(&token_metadata_program_id())?;
    system_program.is_program(&system_program_id())?;
    rent.has_address(&rent_sysvar_id())?;
    let (authority, authority_bump) = mint_authority_pda(program_id);
    if !keys_equal(&authority, &mint_authority.key) {
        return Ok(CreateTokenStep::MintAuthorityMismatch);
    }
    let initialize = initialize_mint(
        &token_program_id(),
        &mint_account.key,
        &mint_authority.key,
        None,
        decimals,
    )?;
    let name = trim_nul(args.token_name.as_slice());
    let symbol = trim_nul(args.token_symbol.as_slice());
    let uri = trim_nul(args.token_uri.as_slice());
    proof {
        lemma_valid_utf8_nul_trimmed(args.token_name@);
        lemma_valid_utf8_nul_trimmed(args.token_symbol@);
        lemma_valid_utf8_nul_trimmed(args.token_uri@);
    }
    let name_str = string_from_utf8(name.clone());
    let symbol_str = string_from_utf8(symbol.clone());
    let uri_str = string_from_utf8(uri.clone());
    let metadata = match (name_str, symbol_str, uri_str) {
        (Some(n), Some(s), Some(u)) => Some(
            create_metadata_account_v3(
                &metadata_account.key,
                &mint_account.key,
                &mint_authority.key,
                &payer.key,
                &mint_authority.key,
                false,
                &system_program.key,
                &rent.key,
                n,
                s,
                u,
                0,
                true,
            ),
        ),
        _ => None,
    };
    Ok(
        CreateTokenStep::Proceed(
            CreateTokenPlan {
                mint_owner: token_program_id(),
                mint_signer_seeds: seeds_with_bump(make_mint_seed(), args.bump),
                mint_space: MINT_LEN,
                initialize_mint: initialize,
                initialize_mint_signer_seeds: seeds_with_bump(
                    make_mint_authority_seed(),
                    args.bump,
                ),
                name,
                symbol,
                uri,
                metadata,
                metadata_signer_seeds: seeds_with_bump(make_mint_authority_seed(), authority_bump),
            },
        ),
    )
}

/// Law: the strings of a client's create-token instruction reach the
/// metadata. When the arguments that the program parses are the fields that
/// `create_token` pads from a name, symbol and URI that fit and hold no
/// `'\0'`, every field is valid UTF-8, so a plan carries a metadata
/// instruction, and that instruction records the strings' bytes.
pub proof fn lemma_client_strings_reach_metadata(
    name: String,
    symbol: String,
    uri: String,
    bump: u8,
    a: CreateToken,
    accounts: Seq<AccountState>,
    ix: Instruction,
)
    requires
        a.body() == padded(string_bytes(name), 32) + padded(string_bytes(symbol), 10) + padded(
            string_bytes(uri),
            200,
        ) + seq![bump],
        string_bytes(name).len() <= 32,
        string_bytes(symbol).len() <= 10,
        string_bytes(uri).len() <= 200,
        forall|i: int| 0 <= i < name@.len() ==> name@[i] != '\0',
        forall|i: int| 0 <= i < symbol@.len() ==> symbol@[i] != '\0',
        forall|i: int| 0 <= i < uri@.len() ==> uri@[i] != '\0',
    ensures
        valid_utf8(a.body().subrange(0, 32)),
        valid_utf8(a.body().subrange(32, 42)),
        valid_utf8(a.body().subrange(42, 242)),
        create_token_metadata(accounts, a.body(), ix) ==> ix.data@ == create_metadata_v3_data(
            string_bytes(name),
            string_bytes(symbol),
            string_bytes(uri),
            0,
            true,
        ),
{
    lemma_create_token_strings_round_trip(name, symbol, uri, bump, a);
    let body = a.body();
    assert(body.subrange(0, 32) =~= a.token_name@);
    assert(body.subrange(32, 42) =~= a.token_symbol@);
    assert(body.subrange(42, 242) =~= a.token_uri@);
    vstd::utf8::encode_utf8_valid_utf8(name@);
    vstd::utf8::encode_utf8_valid_utf8(symbol@);
    vstd::utf8::encode_utf8_valid_utf8(uri@);
    lemma_valid_utf8_nul_trimmed(a.token_name@);
    lemma_valid_utf8_nul_trimmed(a.token_symbol@);
    lemma_valid_utf8_nul_trimmed(a.token_uri@);
}

} // verus!

verus! {

/// The key of every account that `create_token_checks` requires to be a
/// program: the token, metadata and system programs are those programs (the
/// system program's address is 32 zero bytes) and executable, and the rent
/// account is the rent sysvar.
pub open spec fn create_token_program_accounts_ok(accounts: Seq<AccountState>) -> bool {
    &&& accounts[4].key@ == token_program_address()
    &&& accounts[4].executable
    &&& accounts[5].key@ == token_metadata_program_address()
    &&& accounts[5].executable
    &&& forall|i: int| 0 <= i < 32 ==> accounts[6].key@[i] == 0u8
    &&& accounts[6].executable
    &&& accounts[7].key@ == rent_sysvar_address()
}

/// Law: what the create-token checks accept and how they fail.
///
/// They pass exactly when the data is 243 bytes, eight accounts are given,
/// the payer signed, the mint account is empty and is the address that the
/// search finds for `[b"mint"]` under the program with the bump in the last
/// data byte, the metadata account is the address of `[b"metadata",
/// metadata program, mint]` under the metadata program account, the token,
/// metadata and system program accounts are those executable programs, and
/// the rent account is the rent sysvar. A wrong length fails with
/// `InvalidInstructionData`, too few accounts with `NotEnoughAccountKeys`, a
/// missing payer signature with `MissingRequiredSignature`, a mint with data
/// with `AccountAlreadyInitialized`, a wrong mint or metadata address with
/// `InvalidSeeds`, and, once those pass, any wrong program or rent account
/// with `InvalidAccountData`.
pub proof fn lemma_create_token_checks(accounts: Seq<AccountState>, data: Seq<u8>, program_id: Seq<u8>)
    ensures
        create_token_checks(accounts, data, program_id) is Ok <==> {
            &&& data.len() == 243
            &&& accounts.len() == 8
            &&& accounts[0].is_signer
            &&& accounts[1].data@.len() == 0
            &&& program_address(seq![seq![109u8, 105, 110, 116]], program_id) == (
                accounts[1].key@,
                data[242],
            )
            &&& accounts[3].key@ == program_address(
                seq![seq![109u8, 101, 116, 97, 100, 97, 116, 97], accounts[5].key@, accounts[1].key@],
                accounts[5].key@,
            ).0
            &&& create_token_program_accounts_ok(accounts)
        },
        data.len() != 243 ==> create_token_checks(accounts, data, program_id) == Err::<
            (),
            ProgramError,
        >(ProgramError::InvalidInstructionData),
        data.len() == 243 && accounts.len() != 8 ==> create_token_checks(accounts, data, program_id)
            == Err::<(), ProgramError>(ProgramError::NotEnoughAccountKeys),
        data.len() == 243 && accounts.len() == 8 && !accounts[0].is_signer ==> create_token_checks(
            accounts,
            data,
            program_id,
        ) == Err::<(), ProgramError>(ProgramError::MissingRequiredSignature),
        data.len() == 243 && accounts.len() == 8 && accounts[0].is_signer && accounts[1].data@.len()
            != 0 ==> create_token_checks(accounts, data, program_id) == Err::<(), ProgramError>(
            ProgramError::AccountAlreadyInitialized,
        ),
        data.len() == 243 && accounts.len() == 8 && accounts[0].is_signer && accounts[1].data@.len()
            == 0 && program_address(seq![seq![109u8, 105, 110, 116]], program_id) != (
            accounts[1].key@,
            data[242],
        ) ==> create_token_checks(accounts, data, program_id) == Err::<(), ProgramError>(
            ProgramError::InvalidSeeds,
        ),
        data.len() == 243 && accounts.len() == 8 && accounts[0].is_signer && accounts[1].data@.len()
            == 0 && program_address(seq![seq![109u8, 105, 110, 116]], program_id) == (
            accounts[1].key@,
            data[242],
        ) && accounts[3].key@ != program_address(
            seq![seq![109u8, 101, 116, 97, 100, 97, 116, 97], accounts[5].key@, accounts[1].key@],
            accounts[5].key@,
        ).0 ==> create_token_checks(accounts, data, program_id) == Err::<(), ProgramError>(
            ProgramError::InvalidSeeds,
        ),
        data.len() == 243 && accounts.len() == 8 && accounts[0].is_signer && accounts[1].data@.len()
            == 0 && program_address(seq![seq![109u8, 105, 110, 116]], program_id) == (
            accounts[1].key@,
            data[242],
        ) && accounts[3].key@ == program_address(
            seq![seq![109u8, 101, 116, 97, 100, 97, 116, 97], accounts[5].key@, accounts[1].key@],
            accounts[5].key@,
        ).0 && !create_token_program_accounts_ok(accounts) ==> create_token_checks(
            accounts,
            data,
            program_id,
        ) == Err::<(), ProgramError>(ProgramError::InvalidAccountData),
{
    assert(mint_seeds() =~= seq![seq![109u8, 105, 110, 116]]);
    if accounts.len() == 8 {
        assert(metadata_seeds(accounts[5].key@, accounts[1].key@) =~= seq![
            seq![109u8, 101, 116, 97, 100, 97, 116, 97],
            accounts[5].key@,
            accounts[1].key@,
        ]);
        assert(accounts[6].key@.len() == 32);
        assert((accounts[6].key@ == system_program_address()) <==> (forall|i: int|
            0 <= i < 32 ==> accounts[6].key@[i] == 0u8)) by {
            if forall|i: int| 0 <= i < 32 ==> accounts[6].key@[i] == 0u8 {
                assert(accounts[6].key@ =~= system_program_address());
            }
        }
    }
}

/// Law: what a create-token plan does, once the checks pass.
///
/// The program proceeds exactly when the mint authority account is the
/// address that the search finds for `[b"mint_authority"]` under the program.
/// Its plan then allocates 82 bytes owned by the token program, signed by
/// seeds that derive the mint account; initializes the mint through the token
/// program, on the mint and the rent sysvar, with the mint-authority address
/// as authority, no freeze authority and the given decimals, signed with
/// `b"mint_authority"` and the bump that the arguments carry; and, where every
/// field is UTF-8, creates the metadata through the metadata program, signed
/// by seeds that derive the mint-authority account, naming that account as
/// mint and update authority and the all-zero system program, and recording
/// the trimmed name, symbol and URI, each after its length.
pub proof fn lemma_create_token_plan(
    accounts: Seq<AccountState>,
    data: Seq<u8>,
    program_id: Seq<u8>,
    decimals: u8,
    step: CreateTokenStep,
)
    requires
        create_token_checks(accounts, data, program_id) is Ok,
        create_token_step(accounts, data, program_id, decimals, step),
    ensures
        step is Proceed <==> accounts[2].key@ == program_address(
            seq![seq![109u8, 105, 110, 116, 95, 97, 117, 116, 104, 111, 114, 105, 116, 121]],
            program_id,
        ).0,
        step matches CreateTokenStep::Proceed(p) ==> {
            let authority = program_address(
                seq![seq![109u8, 105, 110, 116, 95, 97, 117, 116, 104, 111, 114, 105, 116, 121]],
                program_id,
            );
            let mint = program_address(seq![seq![109u8, 105, 110, 116]], program_id);
            let ms = p.mint_signer_seeds.deep_view();
            let ims = p.initialize_mint_signer_seeds.deep_view();
            let mds = p.metadata_signer_seeds.deep_view();
            let init = p.initialize_mint.data@;
            &&& p.mint_owner@ == token_program_address()
            &&& p.mint_space == 82
            &&& ms.len() == 2 && ms[1].len() == 1
            &&& program_address(ms.take(1), program_id) == (accounts[1].key@, ms[1][0])
            &&& p.initialize_mint.program_id@ == token_program_address()
            &&& p.initialize_mint.account_views() == seq![
                (accounts[1].key@, false, true),
                (rent_sysvar_address(), false, false),
            ]
            &&& init.len() == 35 && init[0] == 0u8 && init[1] == decimals && init[34] == 0u8
            &&& init.subrange(2, 34) == authority.0
            &&& ims == seq![
                seq![109u8, 105, 110, 116, 95, 97, 117, 116, 104, 111, 114, 105, 116, 121],
                seq![mint.1],
            ]
            &&& mds.len() == 2 && mds[1].len() == 1
            &&& mds[0] == seq![109u8, 105, 110, 116, 95, 97, 117, 116, 104, 111, 114, 105, 116, 121]
            &&& program_address(mds.take(1), program_id) == (accounts[2].key@, mds[1][0])
        },
        step matches CreateTokenStep::Proceed(p) ==> (p.metadata is Some <==> {
            &&& valid_utf8(data.subrange(0, 32))
            &&& valid_utf8(data.subrange(32, 42))
            &&& valid_utf8(data.subrange(42, 242))
        }),
        step matches CreateTokenStep::Proceed(p) ==> (p.metadata matches Some(ix) ==> {
            let authority = program_address(
                seq![seq![109u8, 105, 110, 116, 95, 97, 117, 116, 104, 111, 114, 105, 116, 121]],
                program_id,
            ).0;
            let name = nul_trimmed(data.subrange(0, 32));
            let symbol = nul_trimmed(data.subrange(32, 42));
            let uri = nul_trimmed(data.subrange(42, 242));
            let d = ix.data@;
            let n = name.len() as int;
            let s = symbol.len() as int;
            let u = uri.len() as int;
            &&& ix.program_id@ == token_metadata_program_address()
            &&& ix.account_views() == seq![
                (accounts[3].key@, false, true),
                (accounts[1].key@, false, false),
                (authority, true, false),
                (accounts[0].key@, true, true),
                (authority, false, false),
                (Seq::new(32, |i: int| 0u8), false, false),
                (rent_sysvar_address(), false, false),
            ]
            &&& d.len() == 20 + n + s + u
            &&& d[0] == 33u8
            &&& spec_u32_from_le_bytes(d.subrange(1, 5)) == n
            &&& d.subrange(5, 5 + n) == name
            &&& spec_u32_from_le_bytes(d.subrange(5 + n, 9 + n)) == s
            &&& d.subrange(9 + n, 9 + n + s) == symbol
            &&& spec_u32_from_le_bytes(d.subrange(9 + n + s, 13 + n + s)) == u
            &&& d.subrange(13 + n + s, 13 + n + s + u) == uri
            &&& spec_u16_from_le_bytes(d.subrange(13 + n + s + u, 15 + n + s + u)) == 0
            &&& d.subrange(15 + n + s + u, d.len() as int) == seq![0u8, 0, 0, 1, 0]
        }),
{
    lemma_create_token_checks(accounts, data, program_id);
    assert(mint_seeds() =~= seq![seq![109u8, 105, 110, 116]]);
    assert(mint_authority_seeds() =~= seq![
        seq![109u8, 105, 110, 116, 95, 97, 117, 116, 104, 111, 114, 105, 116, 121],
    ]);
    if let CreateTokenStep::Proceed(p) = step {
        let ms = p.mint_signer_seeds.deep_view();
        let mds = p.metadata_signer_seeds.deep_view();
        assert(ms.take(1) =~= mint_seeds());
        assert(mds.take(1) =~= mint_authority_seeds());
        let init = p.initialize_mint.data@;
        assert(init.subrange(2, 34) =~= accounts[2].key@);
        assert(accounts[6].key@ =~= Seq::new(32, |i: int| 0u8));
        if let Some(ix) = p.metadata {
            let name = nul_trimmed(data.subrange(0, 32));
            let symbol = nul_trimmed(data.subrange(32, 42));
            let uri = nul_trimmed(data.subrange(42, 242));
            lemma_nul_trimmed_len(data.subrange(0, 32));
            lemma_nul_trimmed_len(data.subrange(32, 42));
            lemma_nul_trimmed_len(data.subrange(42, 242));
            lemma_create_metadata_v3_data_fields(name, symbol, uri, 0, true, ix.data@);
        }
    }
}

} // verus!
