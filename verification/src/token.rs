use vstd::bytes::*;
use spl_token::solana_program::program_pack::Pack;
use vstd::prelude::*;

use crate::account::AccountState;
use crate::bytes::{pad_array, padded};
use crate::error::ProgramError;
use crate::keys::{token_program_address, token_program_id, Key};

verus! {

/// The fields of an SPL token mint.
#[derive(Debug, Clone, Copy, PartialEq, Eq)]
pub struct MintState {
    pub mint_authority: Option<Key>,
    pub supply: u64,
    pub decimals: u8,
    pub is_initialized: bool,
    pub freeze_authority: Option<Key>,
}

/// The length of a packed mint.
pub const MINT_LEN: usize = 82;

/// A packed optional key: four tag bytes (`[0, 0, 0, 0]` for none,
/// `[1, 0, 0, 0]` for some), then 32 key bytes.
pub open spec fn coption_key_valid(b: Seq<u8>) -> bool {
    b[1] == 0 && b[2] == 0 && b[3] == 0 && (b[0] == 0 || b[0] == 1)
}

pub open spec fn coption_key_matches(b: Seq<u8>, k: Option<Key>) -> bool {
    if b[0] == 0 {
        k is None
    } else {
        k matches Some(key) && key@ == b.subrange(4, 36)
    }
}

/// Whether the 82 packed bytes are well formed: both optional keys have valid
/// tags and the initialized byte is 0 or 1.
pub open spec fn mint_bytes_valid(data: Seq<u8>) -> bool {
    &&& coption_key_valid(data.subrange(0, 36))
    &&& data[45] <= 1
    &&& coption_key_valid(data.subrange(46, 82))
}

/// Whether `m` is what the 82 packed bytes hold: mint authority, supply
/// (little-endian), decimals, initialized flag, freeze authority.
pub open spec fn mint_matches(data: Seq<u8>, m: MintState) -> bool {
    &&& coption_key_matches(data.subrange(0, 36), m.mint_authority)
    &&& spec_u64_to_le_bytes(m.supply) == data.subrange(36, 44)
    &&& m.decimals == data[44]
    &&& m.is_initialized == (data[45] == 1)
    &&& coption_key_matches(data.subrange(46, 82), m.freeze_authority)
}

/// What unpacking a mint from `data` gives: `InvalidAccountData` unless it is
/// 82 well-formed bytes, `UninitializedAccount` when the initialized byte is 0,
/// else the fields the bytes hold.
pub open spec fn mint_unpack_outcome(data: Seq<u8>, r: Result<MintState, ProgramError>) -> bool {
    if data.len() != 82 || !mint_bytes_valid(data) {
        r == Err::<MintState, ProgramError>(ProgramError::InvalidAccountData)
    } else if data[45] == 0 {
        r == Err::<MintState, ProgramError>(ProgramError::UninitializedAccount)
    } else {
        r matches Ok(m) && mint_matches(data, m)
    }
}

/// Wraps `spl_token::state::Mint::unpack`.
///
/// Claims what the source of `Pack::unpack` and `Mint::unpack_from_slice`
/// shows: `InvalidAccountData` unless the input is 82 bytes with valid option
/// tags and an initialized byte of 0 or 1; `UninitializedAccount` when that
/// byte is 0; otherwise the unpacked fields.
#[verifier::external_body]
pub(crate) fn unpack_mint(data: &[u8]) -> (r: Result<MintState, ProgramError>)
    ensures
        mint_unpack_outcome(data@, r),
{
    match spl_token::state::Mint::unpack(data) {
        Ok(m) => Ok(MintState {
            mint_authority: Option::from(m.mint_authority).map(|k: steel::Pubkey| k.to_bytes()),
            supply: m.supply,
            decimals: m.decimals,
            is_initialized: m.is_initialized,
            freeze_authority: Option::from(m.freeze_authority).map(|k: steel::Pubkey| k.to_bytes()),
        }),
        Err(steel::ProgramError::UninitializedAccount) => Err(ProgramError::UninitializedAccount),
        Err(_) => Err(ProgramError::InvalidAccountData),
    }
}

impl AccountState {
    /// Reads the account as an SPL token mint, as `steel` does: the token
    /// program must own it (`InvalidAccountOwner` otherwise), and the first 82
    /// bytes of its data are unpacked. An account with less data reads zero
    /// bytes past its end, which is what the runtime's input buffer holds there.
    pub fn to_mint(&self) -> (r: Result<MintState, ProgramError>)
        ensures
            match self.owner_check(token_program_address()) {
                Err(e) => r is Err && r->Err_0 == e,
                Ok(()) => mint_unpack_outcome(padded(self.data@, 82), r),
            },
    {
        self.has_owner(&token_program_id())?;
        let bytes: [u8; 82] = pad_array::<82>(self.data.as_slice());
        unpack_mint(bytes.as_slice())
    }
}

} // verus!
