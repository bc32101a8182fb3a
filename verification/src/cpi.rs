use mpl_token_metadata::instructions::{
    CreateMetadataAccountV3, CreateMetadataAccountV3InstructionArgs,
};
use mpl_token_metadata::types::DataV2;
use vstd::bytes::{
    lemma_auto_spec_u16_to_from_le_bytes, lemma_auto_spec_u32_to_from_le_bytes,
    spec_u16_from_le_bytes, spec_u16_to_le_bytes, spec_u32_from_le_bytes, spec_u32_to_le_bytes,
};
use vstd::prelude::*;
use vstd::utf8::{encode_utf8, valid_utf8};

use crate::error::ProgramError;
use crate::instruction::{AccountMeta, Instruction};
use crate::keys::{rent_sysvar_address, token_metadata_program_address, token_program_address, Key};

verus! {

/// The data of the token program's `InitializeMint` instruction: the tag 0,
/// the decimals, the mint authority, then the freeze authority as an option
/// (a 0, or a 1 and the key).
pub open spec fn initialize_mint_data(
    authority: Seq<u8>,
    freeze_authority: Option<Seq<u8>>,
    decimals: u8,
) -> Seq<u8> {
    seq![0u8, decimals] + authority + match freeze_authority {
        Some(k) => seq![1u8] + k,
        None => seq![0u8],
    }
}

/// The bytes of an optional key.
pub open spec fn key_option(k: Option<Key>) -> Option<Seq<u8>> {
    match k {
        Some(k) => Some(k@),
        None => None,
    }
}

/// What `initialize_mint` gives: `IncorrectProgramId` unless the token
/// program is the SPL token program, else the instruction to it that names
/// the mint (writable) and the rent sysvar (read-only) and carries
/// `initialize_mint_data`.
pub open spec fn initialize_mint_outcome(
    token_program: Seq<u8>,
    mint: Seq<u8>,
    authority: Seq<u8>,
    freeze_authority: Option<Seq<u8>>,
    decimals: u8,
    r: Result<Instruction, ProgramError>,
) -> bool {
    if token_program != token_program_address() {
        r == Err::<Instruction, ProgramError>(ProgramError::IncorrectProgramId)
    } else {
        &&& r is Ok
        &&& r->Ok_0.program_id@ == token_program_address()
        &&& r->Ok_0.account_views() == seq![(mint, false, true), (rent_sysvar_address(), false, false)]
        &&& r->Ok_0.data@ == initialize_mint_data(authority, freeze_authority, decimals)
    }
}

/// Wraps `spl_token::instruction::initialize_mint`.
///
/// Claims what its source shows: `IncorrectProgramId` unless the token
/// program given is `spl_token::ID`, and otherwise an instruction to that
/// program that names the mint (writable) and the rent sysvar (read-only) and
/// carries the packed `InitializeMint` with the authorities and decimals.
#[verifier::external_body]
pub(crate) fn initialize_mint(
    token_program: &Key,
    mint: &Key,
    authority: &Key,
    freeze_authority: Option<Key>,
    decimals: u8,
) -> (r: Result<Instruction, ProgramError>)
    ensures
        initialize_mint_outcome(token_program@, mint@, authority@, key_option(freeze_authority), decimals, r),
{
    let k = |x: &Key| steel::Pubkey::new_from_array(*x);
    let freeze = freeze_authority.map(|x| k(&x));
    match spl_token::instruction::initialize_mint(&k(token_program), &k(mint), &k(authority), freeze.as_ref(), decimals) {
        Ok(ix) => Ok(Instruction {
            program_id: ix.program_id.to_bytes(),
            accounts: ix.accounts.iter().map(|m| AccountMeta { pubkey: m.pubkey.to_bytes(), is_signer: m.is_signer, is_writable: m.is_writable }).collect(),
            data: ix.data,
        }),
        Err(_) => Err(ProgramError::IncorrectProgramId),
    }
}

/// The Borsh encoding of a byte string: its length as a little-endian `u32`,
/// then its bytes.
pub open spec fn borsh_bytes(s: Seq<u8>) -> Seq<u8> {
    spec_u32_to_le_bytes(s.len() as u32) + s
}

/// The data of the metadata program's `CreateMetadataAccountV3` instruction
/// for metadata with no creators, collection or uses and no collection
/// details: the discriminator 33, the Borsh-encoded name, symbol and URI, the
/// seller fee in basis points, three absent options, the mutability flag and
/// a last absent option.
pub open spec fn create_metadata_v3_data(
    name: Seq<u8>,
    symbol: Seq<u8>,
    uri: Seq<u8>,
    seller_fee_basis_points: u16,
    is_mutable: bool,
) -> Seq<u8> {
    seq![33u8] + borsh_bytes(name) + borsh_bytes(symbol) + borsh_bytes(uri) + spec_u16_to_le_bytes(
        seller_fee_basis_points,
    ) + seq![0u8, 0u8, 0u8, if is_mutable { 1u8 } else { 0u8 }, 0u8]
}

/// Wraps `mpl_token_metadata::instructions::CreateMetadataAccountV3::instruction`,
/// with the rent account given and no creators, collection, uses or
/// collection details.
///
/// Claims what its generated source shows: an instruction to the metadata
/// program naming the metadata (writable), the mint, the mint authority
/// (signer), the payer (writable signer), the update authority (signer as
/// asked), the system program and the rent account, whose data is the
/// Borsh encoding of its arguments. Strings longer than `u32::MAX` bytes,
/// which Borsh refuses and the source unwraps, are ruled out.
#[verifier::external_body]
pub(crate) fn create_metadata_account_v3(
    metadata: &Key,
    mint: &Key,
    mint_authority: &Key,
    payer: &Key,
    update_authority: &Key,
    update_authority_signs: bool,
    system_program: &Key,
    rent: &Key,
    name: String,
    symbol: String,
    uri: String,
    seller_fee_basis_points: u16,
    is_mutable: bool,
) -> (r: Instruction)
    requires
        encode_utf8(name@).len() <= u32::MAX,
        encode_utf8(symbol@).len() <= u32::MAX,
        encode_utf8(uri@).len() <= u32::MAX,
    ensures
        r.program_id@ == token_metadata_program_address(),
        r.account_views() == seq![
            (metadata@, false, true),
            (mint@, false, false),
            (mint_authority@, true, false),
            (payer@, true, true),
            (update_authority@, update_authority_signs, false),
            (system_program@, false, false),
            (rent@, false, false),
        ],
        r.data@ == create_metadata_v3_data(
            encode_utf8(name@),
            encode_utf8(symbol@),
            encode_utf8(uri@),
            seller_fee_basis_points,
            is_mutable,
        ),
{
    let k = |x: &Key| steel::Pubkey::new_from_array(*x);
    let ix = CreateMetadataAccountV3 { metadata: k(metadata), mint: k(mint), mint_authority: k(mint_authority), payer: k(payer),
        update_authority: (k(update_authority), update_authority_signs), system_program: k(system_program), rent: Some(k(rent)),
    }.instruction(CreateMetadataAccountV3InstructionArgs {
        data: DataV2 { name, symbol, uri, seller_fee_basis_points, creators: None, collection: None, uses: None },
        is_mutable,
        collection_details: None,
    });
    Instruction {
        program_id: ix.program_id.to_bytes(),
        accounts: ix.accounts.iter().map(|m| AccountMeta { pubkey: m.pubkey.to_bytes(), is_signer: m.is_signer, is_writable: m.is_writable }).collect(),
        data: ix.data,
    }
}

/// Wraps `String::from_utf8`.
///
/// Claims what its documentation says: the bytes convert exactly when they
/// are valid UTF-8, and the string then holds those bytes.
#[verifier::external_body]
pub(crate) fn string_from_utf8(bytes: Vec<u8>) -> (r: Option<String>)
    ensures
        r is Some <==> valid_utf8(bytes@),
        r matches Some(s) ==> encode_utf8(s@) == bytes@,
{
    String::from_utf8(bytes).ok()
}

/// Law: the `CreateMetadataAccountV3` data reads back field by field. After
/// the discriminator 33 come the name, symbol and URI, each as a
/// little-endian `u32` length followed by that many bytes, then the seller fee
/// as a little-endian `u16`, three zero bytes for the absent creators,
/// collection and uses, the mutability flag and a zero byte for the absent
/// collection details; nothing else.
pub proof fn lemma_create_metadata_v3_data_fields(
    name: Seq<u8>,
    symbol: Seq<u8>,
    uri: Seq<u8>,
    seller_fee_basis_points: u16,
    is_mutable: bool,
    d: Seq<u8>,
)
    requires
        name.len() <= u32::MAX,
        symbol.len() <= u32::MAX,
        uri.len() <= u32::MAX,
        d == create_metadata_v3_data(name, symbol, uri, seller_fee_basis_points, is_mutable),
    ensures
        d.len() == 20 + name.len() as int + symbol.len() as int + uri.len() as int,
        d[0] == 33u8,
        spec_u32_from_le_bytes(d.subrange(1, 5)) == name.len(),
        d.subrange(5, 5 + name.len() as int) == name,
        spec_u32_from_le_bytes(d.subrange(5 + name.len() as int, 9 + name.len() as int)) == symbol.len(),
        d.subrange(9 + name.len() as int, 9 + name.len() as int + symbol.len() as int) == symbol,
        spec_u32_from_le_bytes(
            d.subrange(9 + name.len() as int + symbol.len() as int, 13 + name.len() as int + symbol.len() as int),
        ) == uri.len(),
        d.subrange(13 + name.len() as int + symbol.len() as int, 13 + name.len() as int + symbol.len() as int + uri.len() as int)
            == uri,
        spec_u16_from_le_bytes(
            d.subrange(
                13 + name.len() as int + symbol.len() as int + uri.len() as int,
                15 + name.len() as int + symbol.len() as int + uri.len() as int,
            ),
        ) == seller_fee_basis_points,
        d.subrange(15 + name.len() as int + symbol.len() as int + uri.len() as int, d.len() as int) == seq![
            0u8,
            0u8,
            0u8,
            if is_mutable { 1u8 } else { 0u8 },
            0u8,
        ],
{
    lemma_auto_spec_u32_to_from_le_bytes();
    lemma_auto_spec_u16_to_from_le_bytes();
    let nl = name.len() as int;
    let sl = symbol.len() as int;
    let ul = uri.len() as int;
    let ln = spec_u32_to_le_bytes(name.len() as u32);
    let ls = spec_u32_to_le_bytes(symbol.len() as u32);
    let lu = spec_u32_to_le_bytes(uri.len() as u32);
    let fee = spec_u16_to_le_bytes(seller_fee_basis_points);
    let tail = seq![0u8, 0u8, 0u8, if is_mutable { 1u8 } else { 0u8 }, 0u8];
    assert(d =~= seq![33u8] + ln + name + ls + symbol + lu + uri + fee + tail);
    assert(d.subrange(1, 5) =~= ln);
    assert(d.subrange(5, 5 + nl) =~= name);
    assert(d.subrange(5 + nl, 9 + nl) =~= ls);
    assert(d.subrange(9 + nl, 9 + nl + sl) =~= symbol);
    assert(d.subrange(9 + nl + sl, 13 + nl + sl) =~= lu);
    assert(d.subrange(13 + nl + sl, 13 + nl + sl + ul) =~= uri);
    assert(d.subrange(13 + nl + sl + ul, 15 + nl + sl + ul) =~= fee);
    assert(d.subrange(15 + nl + sl + ul, d.len() as int) =~= tail);
}

} // verus!
