use vstd::prelude::*;

verus! {

/// A 32-byte account address.
pub type Key = [u8; 32];

/// The program-derived address and bump seed that
/// `solana_program::pubkey::Pubkey::find_program_address` finds for `seeds`
/// under `program_id` (a SHA-256 search over bump seeds from 255 down).
pub uninterp spec fn program_address(seeds: Seq<Seq<u8>>, program_id: Seq<u8>) -> (Seq<u8>, u8);

/// Seeds that `find_program_address` accepts: fewer than 16 seeds (the bump
/// seed makes the sixteenth), none longer than 32 bytes.
pub open spec fn valid_seeds(seeds: Seq<Seq<u8>>) -> bool {
    &&& seeds.len() < 16
    &&& forall|i: int| 0 <= i < seeds.len() ==> #[trigger] seeds[i].len() <= 32
}

/// Wraps `solana_program::pubkey::Pubkey::find_program_address`.
///
/// Claims that the result is a function of the seeds and the program id
/// alone: the address and bump named by `program_address`. The outside
/// function panics when the seeds are invalid (ruled out here) and when none
/// of the 255 bump seeds gives an address off the curve, an event of
/// probability about 2^-255 that nothing here rules out.
#[verifier::external_body]
pub(crate) fn find_program_address(seeds: &Vec<Vec<u8>>, program_id: &Key) -> (r: (Key, u8))
    requires
        valid_seeds(seeds.deep_view()),
    ensures
        (r.0@, r.1) == program_address(seeds.deep_view(), program_id@),
{
    let refs: Vec<&[u8]> = seeds.iter().map(|s| s.as_slice()).collect();
    let (address, bump) = steel::Pubkey::find_program_address(
        &refs,
        &steel::Pubkey::new_from_array(*program_id),
    );
    (address.to_bytes(), bump)
}

/// Whether two addresses are the same.
pub fn keys_equal(a: &Key, b: &Key) -> (r: bool)
    ensures
        r == (a@ == b@),
{
    let mut i: usize = 0;
    while i < 32
        invariant
            0 <= i <= 32,
            forall|j: int| 0 <= j < i ==> a@[j] == b@[j],
        decreases 32 - i,
    {
        if a[i] != b[i] {
            return false;
        }
        i = i + 1;
    }
    assert(a@ =~= b@);
    true
}

/// The address of the system program: 32 zero bytes.
pub open spec fn system_program_address() -> Seq<u8> {
    Seq::new(32, |i: int| 0u8)
}

/// The system program's address is the key of 32 zero bytes.
pub proof fn lemma_system_program_address(k: Seq<u8>)
    requires
        k.len() == 32,
    ensures
        k == system_program_address() <==> forall|i: int| 0 <= i < 32 ==> k[i] == 0u8,
{
    if forall|i: int| 0 <= i < 32 ==> k[i] == 0u8 {
        assert(k =~= system_program_address());
    }
}

/// The address of the SPL token program, `TokenkegQfeZyiNwAJbNbGKPFXCWuBvf9Ss623VQ5DA`.
pub open spec fn token_program_address() -> Seq<u8> {
    seq![
        6u8, 221, 246, 225, 215, 101, 161, 147, 217, 203, 225, 70, 206, 235, 121, 172,
        28, 180, 133, 237, 95, 91, 55, 145, 58, 140, 245, 133, 126, 255, 0, 169,
    ]
}

/// The address of the associated token account program,
/// `ATokenGPvbdGVxr1b2hvZbsiqW5xWH25efTNsLJA8knL`.
pub open spec fn associated_token_program_address() -> Seq<u8> {
    seq![
        140u8, 151, 37, 143, 78, 36, 137, 241, 187, 61, 16, 41, 20, 142, 13, 131,
        11, 90, 19, 153, 218, 255, 16, 132, 4, 142, 123, 216, 219, 233, 248, 89,
    ]
}

/// The address of the Metaplex token metadata program,
/// `metaqbxxUerdq28cj1RbAWkYQm3ybzjb6a8bt518x1s`.
pub open spec fn token_metadata_program_address() -> Seq<u8> {
    seq![
        11u8, 112, 101, 177, 227, 209, 124, 69, 56, 157, 82, 127, 107, 4, 195, 205,
        88, 184, 108, 115, 26, 160, 253, 181, 73, 182, 209, 188, 3, 248, 41, 70,
    ]
}

/// The address of the rent sysvar, `SysvarRent111111111111111111111111111111111`.
pub open spec fn rent_sysvar_address() -> Seq<u8> {
    seq![
        6u8, 167, 213, 23, 25, 44, 92, 81, 33, 140, 201, 76, 61, 74, 241, 127,
        88, 218, 238, 8, 155, 161, 253, 68, 227, 219, 217, 138, 0, 0, 0, 0,
    ]
}

/// Reads `solana_program::system_program::ID`, declared in its source as
/// `11111111111111111111111111111111`; claims its bytes are all zero.
#[verifier::external_body]
pub(crate) fn system_program_id() -> (r: Key)
    ensures
        r@ == system_program_address(),
{
    steel::system_program::ID.to_bytes()
}

/// Reads `spl_token::ID`; claims its bytes are those of the base-58 string
/// `TokenkegQfeZyiNwAJbNbGKPFXCWuBvf9Ss623VQ5DA` that its source declares.
#[verifier::external_body]
pub(crate) fn token_program_id() -> (r: Key)
    ensures
        r@ == token_program_address(),
{
    spl_token::ID.to_bytes()
}

/// Reads `spl_associated_token_account::ID`; claims its bytes are those of
/// the base-58 string `ATokenGPvbdGVxr1b2hvZbsiqW5xWH25efTNsLJA8knL` that its
/// source declares.
#[verifier::external_body]
pub(crate) fn associated_token_program_id() -> (r: Key)
    ensures
        r@ == associated_token_program_address(),
{
    spl_associated_token_account::ID.to_bytes()
}

/// Reads `mpl_token_metadata::ID`; claims its bytes are those of the base-58
/// string `metaqbxxUerdq28cj1RbAWkYQm3ybzjb6a8bt518x1s` that its source declares.
#[verifier::external_body]
pub(crate) fn token_metadata_program_id() -> (r: Key)
    ensures
        r@ == token_metadata_program_address(),
{
    mpl_token_metadata::ID.to_bytes()
}

/// Reads `solana_program::sysvar::rent::ID`; claims its bytes are those of
/// the base-58 string `SysvarRent111111111111111111111111111111111` that its
/// source declares.
#[verifier::external_body]
pub(crate) fn rent_sysvar_id() -> (r: Key)
    ensures
        r@ == rent_sysvar_address(),
{
    steel::sysvar::rent::ID.to_bytes()
}

/// The address of the associated token account that
/// `spl_associated_token_account::get_associated_token_address` derives for a
/// wallet and a mint: the program address of the seeds
/// `[wallet, token program, mint]` under the associated token account program.
pub open spec fn associated_token_address(wallet: Seq<u8>, mint: Seq<u8>) -> Seq<u8> {
    program_address(
        seq![wallet, token_program_address(), mint],
        associated_token_program_address(),
    ).0
}

/// Wraps `spl_associated_token_account::get_associated_token_address`.
///
/// Claims what its source shows: the result is the first component of
/// `find_program_address(&[wallet, spl_token::id(), mint], &ID)`. The same
/// negligible chance of a panic as in `find_program_address` stays unstated.
#[verifier::external_body]
pub(crate) fn get_associated_token_address(wallet: &Key, mint: &Key) -> (r: Key)
    ensures
        r@ == associated_token_address(wallet@, mint@),
{
    spl_associated_token_account::get_associated_token_address(
        &steel::Pubkey::new_from_array(*wallet),
        &steel::Pubkey::new_from_array(*mint),
    ).to_bytes()
}

} // verus!
