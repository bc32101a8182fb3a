use vstd::bytes::*;
use vstd::prelude::*;
use vstd::utf8::{encode_scalar, encode_utf8};

use crate::bytes::{
    append_bytes, append_u64_le, lemma_padded_bytes, lemma_padded_trims_back, nul_trimmed,
    pad_array, padded, read_array, read_u64_le,
};
use crate::error::ProgramError;
use crate::instruction::{AccountMeta, Instruction};
use crate::keys::{
    find_program_address, get_associated_token_address, associated_token_address,
    associated_token_program_address, associated_token_program_id, program_address,
    rent_sysvar_address, rent_sysvar_id, system_program_address, system_program_id,
    token_metadata_program_address, token_metadata_program_id, token_program_address,
    token_program_id, Key,
};

verus! {

/// The account types of the mint-authority program, by discriminator.
#[derive(Debug, Clone, Copy, PartialEq, Eq)]
pub enum AccountType {
    MintAuthorityPda,
}

impl AccountType {
    /// The discriminator byte of the account type.
    pub fn discriminator(&self) -> (r: u8)
        ensures
            r == 0,
    {
        0
    }

    /// The account type with the given discriminator, if any.
    pub fn from_discriminator(tag: u8) -> (r: Option<AccountType>)
        ensures
            tag == 0 ==> r == Some(AccountType::MintAuthorityPda),
            tag != 0 ==> r is None,
    {
        if tag == 0 {
            Some(AccountType::MintAuthorityPda)
        } else {
            None
        }
    }
}

/// The state of the mint-authority account: its bump seed.
#[derive(Debug, Clone, Copy, PartialEq, Eq, Default)]
pub struct MintAuthorityPda {
    pub bump: u8,
}

/// The seed of the mint address, `b"mint"`.
pub open spec fn mint_seed() -> Seq<u8> {
    seq![109u8, 105, 110, 116]
}

/// The seed prefix of a metadata address, `b"metadata"`.
pub open spec fn metadata_seed() -> Seq<u8> {
    seq![109u8, 101, 116, 97, 100, 97, 116, 97]
}

/// The seed `b"mint"`.
pub fn make_mint_seed() -> (r: Vec<u8>)
    ensures
        r@ == mint_seed(),
{
    let r: Vec<u8> = vec![109u8, 105, 110, 116];
    assert(r@ =~= mint_seed());
    r
}

/// The seed prefix `b"metadata"`.
pub fn make_metadata_seed() -> (r: Vec<u8>)
    ensures
        r@ == metadata_seed(),
{
    let r: Vec<u8> = vec![109u8, 101, 116, 97, 100, 97, 116, 97];
    assert(r@ =~= metadata_seed());
    r
}

/// A key as a seed.
pub fn key_seed(k: &Key) -> (r: Vec<u8>)
    ensures
        r@ == k@,
{
    let mut r: Vec<u8> = Vec::new();
    append_bytes(&mut r, k.as_slice());
    r
}

/// The single seed `b"mint"`.
pub open spec fn mint_seeds() -> Seq<Seq<u8>> {
    seq![mint_seed()]
}

/// The seeds `[b"mint"]`.
pub fn make_mint_seeds() -> (r: Vec<Vec<u8>>)
    ensures
        r.deep_view() == mint_seeds(),
{
    let mut r: Vec<Vec<u8>> = Vec::new();
    r.push(make_mint_seed());
    assert(r.deep_view()[0] == mint_seed());
    assert(r.deep_view() =~= mint_seeds());
    r
}

impl MintAuthorityPda {
    /// The seed prefix of the mint-authority address.
    pub const SEED_PREFIX: &'static str = "mint_authority";

    /// The size the program reserves for the state.
    pub const SIZE: usize = 8;

    /// The state bytes: the bump.
    pub fn to_bytes(&self) -> (r: Vec<u8>)
        ensures
            r@ == seq![self.bump],
    {
        let r: Vec<u8> = vec![self.bump];
        r
    }

    /// Reads the state from an account's data: the discriminator byte, seven
    /// header bytes, then the bump; `InvalidAccountData` unless the first byte
    /// is the `MintAuthorityPda` discriminator and exactly one byte follows the
    /// header. Indexing panics when the data is empty, or shorter than the
    /// header while its first byte is the discriminator; those inputs are excluded.
    pub fn try_from_bytes(data: &[u8]) -> (r: Result<MintAuthorityPda, ProgramError>)
        requires
            data@.len() >= 1,
            data@[0] == 0 ==> data@.len() >= 8,
        ensures
            r == (if data@[0] == 0 && data@.len() == 9 {
                Ok::<MintAuthorityPda, ProgramError>(MintAuthorityPda { bump: data@[8] })
            } else {
                Err(ProgramError::InvalidAccountData)
            }),
    {
        if data[0] != 0 || data.len() != 9 {
            return Err(ProgramError::InvalidAccountData);
        }
        Ok(MintAuthorityPda { bump: data[8] })
    }
}

/// The size of a mint-authority account: 8 bytes of discriminator header and
/// the reserved state size.
pub fn get_mint_authority_pda_size() -> (r: usize)
    ensures
        r == 16,
{
    8 + MintAuthorityPda::SIZE
}

/// The mint address of the program `program_id` and its bump: the program
/// address of the seed `b"mint"`.
pub fn mint_pda(program_id: &Key) -> (r: (Key, u8))
    ensures
        (r.0@, r.1) == program_address(mint_seeds(), program_id@),
{
    let seeds = make_mint_seeds();
    find_program_address(&seeds, program_id)
}

/// The instructions of the mint-authority program, by discriminator.
#[derive(Debug, Clone, Copy, PartialEq, Eq)]
pub enum MintAuthorityInstruction {
    CreateToken,
    MintToken,
}

/// The discriminator byte of an instruction.
pub open spec fn instruction_tag(ix: MintAuthorityInstruction) -> u8 {
    match ix {
        MintAuthorityInstruction::CreateToken => 0u8,
        MintAuthorityInstruction::MintToken => 1u8,
    }
}

/// The instruction a discriminator byte names, if any.
pub open spec fn instruction_of_tag(tag: u8) -> Option<MintAuthorityInstruction> {
    if tag == 0 {
        Some(MintAuthorityInstruction::CreateToken)
    } else if tag == 1 {
        Some(MintAuthorityInstruction::MintToken)
    } else {
        None
    }
}

impl MintAuthorityInstruction {
    /// The discriminator byte of the instruction.
    pub fn discriminator(&self) -> (r: u8)
        ensures
            r == instruction_tag(*self),
    {
        match self {
            MintAuthorityInstruction::CreateToken => 0,
            MintAuthorityInstruction::MintToken => 1,
        }
    }

    /// The instruction with the given discriminator, if any.
    pub fn from_discriminator(tag: u8) -> (r: Option<MintAuthorityInstruction>)
        ensures
            r == instruction_of_tag(tag),
    {
        if tag == 0 {
            Some(MintAuthorityInstruction::CreateToken)
        } else if tag == 1 {
            Some(MintAuthorityInstruction::MintToken)
        } else {
            None
        }
    }
}

/// Law: reading an instruction's discriminator byte gives the instruction
/// back, and every byte that names an instruction is its discriminator.
pub proof fn lemma_instruction_tag_roundtrip(ix: MintAuthorityInstruction, tag: u8)
    ensures
        instruction_of_tag(instruction_tag(ix)) == Some(ix),
        instruction_of_tag(tag) matches Some(named) ==> instruction_tag(named) == tag,
{
}

/// The arguments of the create-token instruction: name, symbol and URI padded
/// to fixed sizes, and the bump of the mint address.
#[derive(Debug, Clone, Copy, PartialEq, Eq)]
pub struct CreateToken {
    pub token_name: [u8; 32],
    pub token_symbol: [u8; 10],
    pub token_uri: [u8; 200],
    pub bump: u8,
}

impl CreateToken {
    /// The layout bytes of the arguments: name, symbol, URI, bump.
    pub open spec fn body(&self) -> Seq<u8> {
        self.token_name@ + self.token_symbol@ + self.token_uri@ + seq![self.bump]
    }

    /// The instruction data: the discriminator, then the layout bytes.
    pub fn to_bytes(&self) -> (r: Vec<u8>)
        ensures
            r@ == seq![0u8] + self.body(),
    {
        let mut out: Vec<u8> = Vec::new();
        out.push(0u8);
        append_bytes(&mut out, self.token_name.as_slice());
        append_bytes(&mut out, self.token_symbol.as_slice());
        append_bytes(&mut out, self.token_uri.as_slice());
        out.push(self.bump);
        assert(out@ =~= seq![0u8] + self.body());
        out
    }

    /// Reads the arguments from the data after the discriminator: exactly 243
    /// bytes, else `InvalidInstructionData`.
    pub fn try_from_bytes(data: &[u8]) -> (r: Result<CreateToken, ProgramError>)
        ensures
            data@.len() == 243 ==> (r matches Ok(a) && a.body() == data@),
            data@.len() != 243 ==> r == Err::<CreateToken, ProgramError>(
                ProgramError::InvalidInstructionData,
            ),
    {
        if data.len() != 243 {
            return Err(ProgramError::InvalidInstructionData);
        }
        let token_name = read_array::<32>(data, 0);
        let token_symbol = read_array::<10>(data, 32);
        let token_uri = read_array::<200>(data, 42);
        let bump = data[242];
        let a = CreateToken { token_name, token_symbol, token_uri, bump };
        assert(a.body() =~= data@);
        Ok(a)
    }
}

/// Law: the layout determines the create-token arguments.
pub proof fn lemma_create_token_roundtrip(a: CreateToken, b: CreateToken)
    requires
        a.body() == b.body(),
    ensures
        a == b,
{
    broadcast use vstd::array::group_array_axioms;

    let s = a.body();
    assert(a.token_name@ =~= s.subrange(0, 32));
    assert(b.token_name@ =~= s.subrange(0, 32));
    assert(a.token_symbol@ =~= s.subrange(32, 42));
    assert(b.token_symbol@ =~= s.subrange(32, 42));
    assert(a.token_uri@ =~= s.subrange(42, 242));
    assert(b.token_uri@ =~= s.subrange(42, 242));
    assert(s[242] == a.bump);
    assert(a.token_name =~= b.token_name);
    assert(a.token_symbol =~= b.token_symbol);
    assert(a.token_uri =~= b.token_uri);
}

/// The arguments of the mint-token instruction.
#[derive(Debug, Clone, Copy, PartialEq, Eq)]
pub struct MintToken {
    pub amount: u64,
}

impl MintToken {
    /// The layout bytes: the amount, little-endian.
    pub open spec fn body(&self) -> Seq<u8> {
        spec_u64_to_le_bytes(self.amount)
    }

    /// The instruction data: the discriminator, then the layout bytes.
    pub fn to_bytes(&self) -> (r: Vec<u8>)
        ensures
            r@ == seq![1u8] + self.body(),
    {
        let mut out: Vec<u8> = Vec::new();
        out.push(1u8);
        append_u64_le(&mut out, self.amount);
        out
    }

    /// Reads the arguments from the data after the discriminator: exactly 8
    /// bytes, else `InvalidInstructionData`.
    pub fn try_from_bytes(data: &[u8]) -> (r: Result<MintToken, ProgramError>)
        ensures
            data@.len() == 8 ==> (r matches Ok(a) && a.body() == data@),
            data@.len() != 8 ==> r == Err::<MintToken, ProgramError>(
                ProgramError::InvalidInstructionData,
            ),
    {
        if data.len() != 8 {
            return Err(ProgramError::InvalidInstructionData);
        }
        let amount = read_u64_le(data, 0);
        assert(data@.subrange(0, 8) =~= data@);
        Ok(MintToken { amount })
    }
}

/// Law: the layout determines the mint-token arguments.
pub proof fn lemma_mint_token_roundtrip(a: MintToken, b: MintToken)
    requires
        a.body() == b.body(),
    ensures
        a == b,
{
    lemma_auto_spec_u64_to_from_le_bytes();
    assert(spec_u64_from_le_bytes(spec_u64_to_le_bytes(a.amount)) == a.amount);
    assert(spec_u64_from_le_bytes(spec_u64_to_le_bytes(b.amount)) == b.amount);
}

/// The bytes of a string.
pub open spec fn string_bytes(s: String) -> Seq<u8> {
    encode_utf8(s@)
}

/// The seed prefix of the mint-authority address, `"mint_authority"`, as bytes.
pub open spec fn mint_authority_seed() -> Seq<u8> {
    seq![109u8, 105, 110, 116, 95, 97, 117, 116, 104, 111, 114, 105, 116, 121]
}

/// The single seed `b"mint_authority"`.
pub open spec fn mint_authority_seeds() -> Seq<Seq<u8>> {
    seq![mint_authority_seed()]
}

/// The seed prefix `b"mint_authority"`.
pub fn make_mint_authority_seed() -> (r: Vec<u8>)
    ensures
        r@ == mint_authority_seed(),
{
    let r: Vec<u8> = vec![109u8, 105, 110, 116, 95, 97, 117, 116, 104, 111, 114, 105, 116, 121];
    assert(r@ =~= mint_authority_seed());
    r
}

/// The mint-authority address of the program `program_id` and its bump: the
/// program address of `MintAuthorityPda::SEED_PREFIX`.
pub(crate) fn mint_authority_pda(program_id: &Key) -> (r: (Key, u8))
    ensures
        (r.0@, r.1) == program_address(mint_authority_seeds(), program_id@),
{
    let mut seeds: Vec<Vec<u8>> = Vec::new();
    seeds.push(make_mint_authority_seed());
    assert(seeds.deep_view()[0] == mint_authority_seed());
    assert(seeds.deep_view() =~= mint_authority_seeds());
    find_program_address(&seeds, program_id)
}

/// The seeds of a Metaplex metadata address: `b"metadata"`, the metadata
/// program's address and the mint's.
pub open spec fn metadata_seeds(metadata_program: Seq<u8>, mint: Seq<u8>) -> Seq<Seq<u8>> {
    seq![metadata_seed(), metadata_program, mint]
}

/// The Metaplex metadata address of a mint: the program address of its
/// metadata seeds under the metadata program.
pub open spec fn metadata_address(mint: Seq<u8>) -> Seq<u8> {
    program_address(
        metadata_seeds(token_metadata_program_address(), mint),
        token_metadata_program_address(),
    ).0
}

/// The create-token instruction for the program `program_id`, paid by `payer`.
///
/// It names the payer (signer, writable), the mint (writable), the mint
/// authority (read-only), the mint's Metaplex metadata address (writable),
/// then the token, metadata and system programs and the rent sysvar
/// (read-only); its data carries the name, symbol and URI cut or padded with
/// zero bytes to 32, 10 and 200 bytes, and the mint's bump.
pub fn create_token(
    payer: Key,
    token_name: String,
    token_symbol: String,
    token_uri: String,
    program_id: &Key,
) -> (r: Instruction)
    ensures
        r.program_id@ == program_id@,
        r.account_views() == seq![
            (payer@, true, true),
            (program_address(mint_seeds(), program_id@).0, false, true),
            (program_address(mint_authority_seeds(), program_id@).0, false, false),
            (metadata_address(program_address(mint_seeds(), program_id@).0), false, true),
            (token_program_address(), false, false),
            (token_metadata_program_address(), false, false),
            (system_program_address(), false, false),
            (rent_sysvar_address(), false, false),
        ],
        r.data@ == seq![0u8] + padded(string_bytes(token_name), 32) + padded(
            string_bytes(token_symbol),
            10,
        ) + padded(string_bytes(token_uri), 200) + seq![
            program_address(mint_seeds(), program_id@).1,
        ],
{
    let (mint, bump) = mint_pda(program_id);
    let (authority, _) = mint_authority_pda(program_id);
    let metadata_program = token_metadata_program_id();
    let mut seeds: Vec<Vec<u8>> = Vec::new();
    seeds.push(make_metadata_seed());
    seeds.push(key_seed(&metadata_program));
    seeds.push(key_seed(&mint));
    assert(seeds.deep_view()[0] == metadata_seed());
    assert(seeds.deep_view()[1] == metadata_program@);
    assert(seeds.deep_view()[2] == mint@);
    assert(seeds.deep_view() =~= metadata_seeds(metadata_program@, mint@));
    let (metadata, _) = find_program_address(&seeds, &metadata_program);
    let mut accounts: Vec<AccountMeta> = Vec::new();
    accounts.push(AccountMeta::new(payer, true));
    accounts.push(AccountMeta::new(mint, false));
    accounts.push(AccountMeta::new_readonly(authority, false));
    accounts.push(AccountMeta::new(metadata, false));
    accounts.push(AccountMeta::new_readonly(token_program_id(), false));
    accounts.push(AccountMeta::new_readonly(metadata_program, false));
    accounts.push(AccountMeta::new_readonly(system_program_id(), false));
    accounts.push(AccountMeta::new_readonly(rent_sysvar_id(), false));
    let args = CreateToken {
        token_name: pad_array::<32>(token_name.as_str().as_bytes()),
        token_symbol: pad_array::<10>(token_symbol.as_str().as_bytes()),
        token_uri: pad_array::<200>(token_uri.as_str().as_bytes()),
        bump,
    };
    let data = args.to_bytes();
    let r = Instruction { program_id: *program_id, accounts, data };
    assert(r.account_views() =~= seq![
        (payer@, true, true),
        (program_address(mint_seeds(), program_id@).0, false, true),
        (program_address(mint_authority_seeds(), program_id@).0, false, false),
        (metadata_address(program_address(mint_seeds(), program_id@).0), false, true),
        (token_program_address(), false, false),
        (token_metadata_program_address(), false, false),
        (system_program_address(), false, false),
        (rent_sysvar_address(), false, false),
    ]);
    r
}

/// The mint-token instruction for the program `program_id`: it names the payer
/// (signer, writable), the mint and the payer's associated token account for
/// it (writable), then the token, associated token account and system programs
/// (read-only); its data carries the amount.
pub fn mint_token(payer: Key, amount: u64, program_id: &Key) -> (r: Instruction)
    ensures
        r.program_id@ == program_id@,
        r.account_views() == seq![
            (payer@, true, true),
            (program_address(mint_seeds(), program_id@).0, false, true),
            (
                associated_token_address(payer@, program_address(mint_seeds(), program_id@).0),
                false,
                true,
            ),
            (token_program_address(), false, false),
            (associated_token_program_address(), false, false),
            (system_program_address(), false, false),
        ],
        r.data@ == seq![1u8] + spec_u64_to_le_bytes(amount),
{
    let (mint, _) = mint_pda(program_id);
    let token_account = get_associated_token_address(&payer, &mint);
    let mut accounts: Vec<AccountMeta> = Vec::new();
    accounts.push(AccountMeta::new(payer, true));
    accounts.push(AccountMeta::new(mint, false));
    accounts.push(AccountMeta::new(token_account, false));
    accounts.push(AccountMeta::new_readonly(token_program_id(), false));
    accounts.push(AccountMeta::new_readonly(associated_token_program_id(), false));
    accounts.push(AccountMeta::new_readonly(system_program_id(), false));
    let data = MintToken { amount }.to_bytes();
    let r = Instruction { program_id: *program_id, accounts, data };
    assert(r.account_views() =~= seq![
        (payer@, true, true),
        (program_address(mint_seeds(), program_id@).0, false, true),
        (
            associated_token_address(payer@, program_address(mint_seeds(), program_id@).0),
            false,
            true,
        ),
        (token_program_address(), false, false),
        (associated_token_program_address(), false, false),
        (system_program_address(), false, false),
    ]);
    r
}

} // verus!

verus! {

/// Law: the arguments the client packs into the create-token instruction are
/// read back by the program's parser as the padded name, symbol and URI and
/// the mint's bump.
pub proof fn lemma_client_arguments_read_back(
    name: Seq<u8>,
    symbol: Seq<u8>,
    uri: Seq<u8>,
    bump: u8,
    a: CreateToken,
)
    requires
        a.body() == padded(name, 32) + padded(symbol, 10) + padded(uri, 200) + seq![bump],
    ensures
        a.token_name@ == padded(name, 32),
        a.token_symbol@ == padded(symbol, 10),
        a.token_uri@ == padded(uri, 200),
        a.bump == bump,
{
    let s = a.body();
    assert(a.token_name@ =~= s.subrange(0, 32));
    assert(padded(name, 32) =~= s.subrange(0, 32));
    assert(a.token_symbol@ =~= s.subrange(32, 42));
    assert(padded(symbol, 10) =~= s.subrange(32, 42));
    assert(a.token_uri@ =~= s.subrange(42, 242));
    assert(padded(uri, 200) =~= s.subrange(42, 242));
    assert(s[242] == a.bump);
}

/// Law: the client's create-token data, after its discriminator, holds the
/// leading bytes of the name, symbol and URI in fields of 32, 10 and 200
/// bytes, each zero-filled past the end of its string and cut at the field's
/// end, then the bump.
pub proof fn lemma_client_fields_hold_prefixes(
    name: Seq<u8>,
    symbol: Seq<u8>,
    uri: Seq<u8>,
    bump: u8,
    data: Seq<u8>,
)
    requires
        data == seq![0u8] + padded(name, 32) + padded(symbol, 10) + padded(uri, 200) + seq![bump],
    ensures
        data.len() == 244,
        data[0] == 0u8,
        forall|i: int| 0 <= i < 32 ==> data[1 + i] == (if i < name.len() { name[i] } else { 0u8 }),
        forall|i: int|
            0 <= i < 10 ==> data[33 + i] == (if i < symbol.len() { symbol[i] } else { 0u8 }),
        forall|i: int| 0 <= i < 200 ==> data[43 + i] == (if i < uri.len() { uri[i] } else { 0u8 }),
        data[243] == bump,
{
    lemma_padded_bytes(name, 32);
    lemma_padded_bytes(symbol, 10);
    lemma_padded_bytes(uri, 200);
    assert forall|i: int| 0 <= i < 32 implies data[1 + i] == (if i < name.len() {
        name[i]
    } else {
        0u8
    }) by {
        assert(data[1 + i] == padded(name, 32)[i]);
    }
    assert forall|i: int| 0 <= i < 10 implies data[33 + i] == (if i < symbol.len() {
        symbol[i]
    } else {
        0u8
    }) by {
        assert(data[33 + i] == padded(symbol, 10)[i]);
    }
    assert forall|i: int| 0 <= i < 200 implies data[43 + i] == (if i < uri.len() {
        uri[i]
    } else {
        0u8
    }) by {
        assert(data[43 + i] == padded(uri, 200)[i]);
    }
}

/// Law: the program's decoding undoes the client's encoding. For a name,
/// symbol and URI that fit their fields and hold no zero byte, the fields the
/// program parses from the client's instruction, trimmed of zero bytes at
/// either end, are the strings' bytes.
pub proof fn lemma_client_strings_trim_back(
    name: Seq<u8>,
    symbol: Seq<u8>,
    uri: Seq<u8>,
    bump: u8,
    a: CreateToken,
)
    requires
        a.body() == padded(name, 32) + padded(symbol, 10) + padded(uri, 200) + seq![bump],
        name.len() <= 32,
        symbol.len() <= 10,
        uri.len() <= 200,
        forall|i: int| 0 <= i < name.len() ==> name[i] != 0,
        forall|i: int| 0 <= i < symbol.len() ==> symbol[i] != 0,
        forall|i: int| 0 <= i < uri.len() ==> uri[i] != 0,
    ensures
        nul_trimmed(a.token_name@) == name,
        nul_trimmed(a.token_symbol@) == symbol,
        nul_trimmed(a.token_uri@) == uri,
{
    lemma_client_arguments_read_back(name, symbol, uri, bump, a);
    lemma_padded_trims_back(name, 32);
    lemma_padded_trims_back(symbol, 10);
    lemma_padded_trims_back(uri, 200);
}

proof fn lemma_scalar_bytes_nonzero(v: u32)
    requires
        v != 0,
    ensures
        forall|j: int| 0 <= j < encode_scalar(v).len() ==> encode_scalar(v)[j] != 0,
{
    assert(0 < v <= 0x7F ==> (v & 0x7F) as u8 != 0) by (bit_vector);
    assert(0xC0u8 | ((v >> 6) & 0x1F) as u8 != 0) by (bit_vector);
    assert(0xE0u8 | ((v >> 12) & 0x0F) as u8 != 0) by (bit_vector);
    assert(0xF0u8 | ((v >> 18) & 0x7) as u8 != 0) by (bit_vector);
    assert(0x80u8 | (v & 0x3F) as u8 != 0) by (bit_vector);
    assert(0x80u8 | ((v >> 6) & 0x3F) as u8 != 0) by (bit_vector);
    assert(0x80u8 | ((v >> 12) & 0x3F) as u8 != 0) by (bit_vector);
}

/// The UTF-8 bytes of characters none of which is `'\0'` hold no zero byte.
pub proof fn lemma_utf8_without_nul(chars: Seq<char>)
    requires
        forall|i: int| 0 <= i < chars.len() ==> chars[i] != '\0',
    ensures
        forall|j: int| 0 <= j < encode_utf8(chars).len() ==> encode_utf8(chars)[j] != 0,
    decreases chars.len(),
{
    if chars.len() > 0 {
        let c = chars[0];
        vstd::utf8::char_is_scalar(c);
        vstd::utf8::char_u32_cast(c, c as u32);
        vstd::utf8::char_u32_cast('\0', '\0' as u32);
        assert('\0' as u32 == 0);
        assert(c as u32 != 0);
        lemma_scalar_bytes_nonzero(c as u32);
        lemma_utf8_without_nul(chars.drop_first());
        let e = encode_utf8(chars);
        let head = encode_scalar(c as u32);
        let tail = encode_utf8(chars.drop_first());
        assert(e == head + tail);
        assert forall|j: int| 0 <= j < e.len() implies e[j] != 0 by {
            if j < head.len() {
                assert(e[j] == head[j]);
            } else {
                assert(e[j] == tail[j - head.len()]);
            }
        }
    }
}

/// Law: the create-token instruction round trip on strings. For a name,
/// symbol and URI that fit their fields and hold no `'\0'`, the fields the
/// program parses from the data `create_token` builds, trimmed of zero bytes
/// at either end, are the strings' bytes.
pub proof fn lemma_create_token_strings_round_trip(
    name: String,
    symbol: String,
    uri: String,
    bump: u8,
    a: CreateToken,
)
    requires
        a.body() == padded(string_bytes(name), 32) + padded(string_bytes(symbol), 10) + padded(
            string_bytes(uri),
            200,
        ) + seq![bump],
        string_bytes(name).len() <= 32,
        string_bytes(symbol).len() <= 10,
        string_bytes(uri).len() <= 200,
        forall|i: int| 0 <= i < name@.len() ==> name@[i] != '\0',
        forall|i: int| 0 <= i < symbol@.len() ==> symbol@[i] != '\0',
        forall|i: int| 0 <= i < uri@.len() ==> uri@[i] != '\0',
    ensures
        nul_trimmed(a.token_name@) == string_bytes(name),
        nul_trimmed(a.token_symbol@) == string_bytes(symbol),
        nul_trimmed(a.token_uri@) == string_bytes(uri),
{
    lemma_utf8_without_nul(name@);
    lemma_utf8_without_nul(symbol@);
    lemma_utf8_without_nul(uri@);
    lemma_client_strings_trim_back(
        string_bytes(name),
        string_bytes(symbol),
        string_bytes(uri),
        bump,
        a,
    );
}

} // verus!

verus! {

/// Law: the data of the create-token instruction that `create_token` builds,
/// after its discriminator, has the length the program's parser accepts, and
/// the bump it carries is the mint address's, so the program's seeds check on
/// an account at the mint address passes.
pub proof fn lemma_client_instruction_passes_mint_seeds(
    data: Seq<u8>,
    name: Seq<u8>,
    symbol: Seq<u8>,
    uri: Seq<u8>,
    program_id: Seq<u8>,
    mint_account: crate::account::AccountState,
)
    requires
        data == seq![0u8] + padded(name, 32) + padded(symbol, 10) + padded(uri, 200) + seq![
            program_address(mint_seeds(), program_id).1,
        ],
        mint_account.key@ == program_address(mint_seeds(), program_id).0,
    ensures
        data.drop_first().len() == 243,
        mint_account.seeds_check(mint_seeds(), data.drop_first()[242], program_id) is Ok,
{
    let rest = data.drop_first();
    assert(rest =~= padded(name, 32) + padded(symbol, 10) + padded(uri, 200) + seq![
        program_address(mint_seeds(), program_id).1,
    ]);
    assert(rest[242] == program_address(mint_seeds(), program_id).1);
}

} // verus!
