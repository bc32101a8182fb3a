use vstd::bytes::*;
use vstd::prelude::*;

use crate::account::{and_then, check, AccountState};
use crate::bytes::{
    append_bytes, append_u32_le, append_u32s_le, append_u64_le, append_arrays32, flatten32,
    lemma_flatten32_injective, lemma_flatten32_len, lemma_u32s_le_injective, lemma_u32s_le_len,
    read_array32, read_arrays32, read_u32_le, read_u32s_le, read_u64_le, u32s_le,
};
use crate::error::ProgramError;
use crate::keys::{
    find_program_address, lemma_system_program_address, program_address, system_program_address, system_program_id, valid_seeds, Key};

verus! {

/// The instructions of the favorites program, by discriminator.
#[derive(Debug, Clone, Copy, PartialEq, Eq)]
pub enum FavoritesInstruction {
    SetFavoritesArgs,
}

impl FavoritesInstruction {
    /// The discriminator byte of the instruction.
    pub fn discriminator(&self) -> (r: u8)
        ensures
            r == 0,
    {
        0
    }

    /// The instruction with the given discriminator, if any.
    pub fn from_discriminator(tag: u8) -> (r: Option<FavoritesInstruction>)
        ensures
            tag == 0 ==> r == Some(FavoritesInstruction::SetFavoritesArgs),
            tag != 0 ==> r is None,
    {
        if tag == 0 {
            Some(FavoritesInstruction::SetFavoritesArgs)
        } else {
            None
        }
    }
}

/// The account types of the favorites program, by discriminator.
#[derive(Debug, Clone, Copy, PartialEq, Eq)]
pub enum FavoritesAccount {
    Favorites,
}

impl FavoritesAccount {
    /// The discriminator byte of the account type.
    pub fn discriminator(&self) -> (r: u8)
        ensures
            r == 0,
    {
        0
    }

    /// The account type with the given discriminator, if any.
    pub fn from_discriminator(tag: u8) -> (r: Option<FavoritesAccount>)
        ensures
            tag == 0 ==> r == Some(FavoritesAccount::Favorites),
            tag != 0 ==> r is None,
    {
        if tag == 0 {
            Some(FavoritesAccount::Favorites)
        } else {
            None
        }
    }
}

/// Bytes of the `#[repr(C)]` layout shared by `SetFavoritesArgs` and
/// `Favorites`: the number, the color length, the color, the hobby count, the
/// hobby lengths and the hobbies, little-endian and without padding.
pub open spec fn favorites_layout(
    number: u64,
    color_len: u32,
    color: [u8; 32],
    hobbies_count: u32,
    hobbies_len: [u32; 32],
    hobbies: [[u8; 32]; 32],
) -> Seq<u8> {
    spec_u64_to_le_bytes(number) + spec_u32_to_le_bytes(color_len) + color@ + spec_u32_to_le_bytes(
        hobbies_count,
    ) + u32s_le(hobbies_len@) + flatten32(hobbies@)
}

/// The size of the layout in bytes.
pub const FAVORITES_LAYOUT_LEN: usize = 1200;

/// The layout is 1200 bytes long.
pub proof fn lemma_favorites_layout_len(
    number: u64,
    color_len: u32,
    color: [u8; 32],
    hobbies_count: u32,
    hobbies_len: [u32; 32],
    hobbies: [[u8; 32]; 32],
)
    ensures
        favorites_layout(number, color_len, color, hobbies_count, hobbies_len, hobbies).len() == 1200,
{
    lemma_auto_spec_u32_to_from_le_bytes();
    lemma_auto_spec_u64_to_from_le_bytes();
    lemma_u32s_le_len(hobbies_len@);
    lemma_flatten32_len(hobbies@);
}

/// Two values with the same layout bytes have the same fields.
pub proof fn lemma_favorites_layout_injective(
    n1: u64,
    cl1: u32,
    c1: [u8; 32],
    hc1: u32,
    hl1: [u32; 32],
    h1: [[u8; 32]; 32],
    n2: u64,
    cl2: u32,
    c2: [u8; 32],
    hc2: u32,
    hl2: [u32; 32],
    h2: [[u8; 32]; 32],
)
    requires
        favorites_layout(n1, cl1, c1, hc1, hl1, h1) == favorites_layout(n2, cl2, c2, hc2, hl2, h2),
    ensures
        n1 == n2,
        cl1 == cl2,
        c1 == c2,
        hc1 == hc2,
        hl1 == hl2,
        h1 == h2,
{
    broadcast use vstd::array::group_array_axioms;

    lemma_auto_spec_u32_to_from_le_bytes();
    lemma_auto_spec_u64_to_from_le_bytes();
    lemma_u32s_le_len(hl1@);
    lemma_flatten32_len(h1@);
    lemma_u32s_le_len(hl2@);
    lemma_flatten32_len(h2@);
    let b = favorites_layout(n1, cl1, c1, hc1, hl1, h1);
    assert(spec_u64_to_le_bytes(n1) =~= b.subrange(0, 8));
    assert(spec_u64_to_le_bytes(n2) =~= b.subrange(0, 8));
    assert(spec_u32_to_le_bytes(cl1) =~= b.subrange(8, 12));
    assert(spec_u32_to_le_bytes(cl2) =~= b.subrange(8, 12));
    assert(c1@ =~= b.subrange(12, 44));
    assert(c2@ =~= b.subrange(12, 44));
    assert(spec_u32_to_le_bytes(hc1) =~= b.subrange(44, 48));
    assert(spec_u32_to_le_bytes(hc2) =~= b.subrange(44, 48));
    assert(u32s_le(hl1@) =~= b.subrange(48, 176));
    assert(u32s_le(hl2@) =~= b.subrange(48, 176));
    assert(flatten32(h1@) =~= b.subrange(176, 1200));
    assert(flatten32(h2@) =~= b.subrange(176, 1200));
    assert(spec_u64_from_le_bytes(spec_u64_to_le_bytes(n1)) == n1);
    assert(spec_u64_from_le_bytes(spec_u64_to_le_bytes(n2)) == n2);
    assert(spec_u32_from_le_bytes(spec_u32_to_le_bytes(cl1)) == cl1);
    assert(spec_u32_from_le_bytes(spec_u32_to_le_bytes(cl2)) == cl2);
    assert(spec_u32_from_le_bytes(spec_u32_to_le_bytes(hc1)) == hc1);
    assert(spec_u32_from_le_bytes(spec_u32_to_le_bytes(hc2)) == hc2);
    lemma_u32s_le_injective(hl1@, hl2@);
    lemma_flatten32_injective(h1@, h2@);
    assert(c1 =~= c2);
    assert(hl1 =~= hl2);
    assert(h1 =~= h2);
}

/// Appends the layout bytes of the given fields.
fn append_favorites_layout(
    out: &mut Vec<u8>,
    number: u64,
    color_len: u32,
    color: &[u8; 32],
    hobbies_count: u32,
    hobbies_len: &[u32; 32],
    hobbies: &[[u8; 32]; 32],
)
    ensures
        final(out)@ == old(out)@ + favorites_layout(
            number,
            color_len,
            *color,
            hobbies_count,
            *hobbies_len,
            *hobbies,
        ),
{
    let ghost start = out@;
    append_u64_le(out, number);
    append_u32_le(out, color_len);
    append_bytes(out, color.as_slice());
    append_u32_le(out, hobbies_count);
    append_u32s_le(out, hobbies_len);
    append_arrays32(out, hobbies);
    assert(out@ =~= start + favorites_layout(
        number,
        color_len,
        *color,
        hobbies_count,
        *hobbies_len,
        *hobbies,
    ));
}

/// Reads the fields whose layout is the 1200 bytes at `at`.
fn read_favorites_layout(data: &[u8], at: usize) -> (r: (
    u64,
    u32,
    [u8; 32],
    u32,
    [u32; 32],
    [[u8; 32]; 32],
))
    requires
        at + 1200 <= data@.len(),
    ensures
        favorites_layout(r.0, r.1, r.2, r.3, r.4, r.5) == data@.subrange(at as int, at + 1200),
{
    let len = data.len();
    let number = read_u64_le(data, at);
    let color_len = read_u32_le(data, at + 8);
    let color = read_array32(data, at + 12);
    let hobbies_count = read_u32_le(data, at + 44);
    let hobbies_len = read_u32s_le(data, at + 48);
    let hobbies = read_arrays32(data, at + 176);
    assert(favorites_layout(number, color_len, color, hobbies_count, hobbies_len, hobbies)
        =~= data@.subrange(at as int, at + 1200));
    (number, color_len, color, hobbies_count, hobbies_len, hobbies)
}

/// The arguments of the set-favorites instruction.
#[derive(Debug, Clone, Copy, PartialEq, Eq)]
pub struct SetFavoritesArgs {
    pub number: u64,
    pub color_len: u32,
    pub color: [u8; 32],
    pub hobbies_count: u32,
    pub hobbies_len: [u32; 32],
    pub hobbies: [[u8; 32]; 32],
}

impl SetFavoritesArgs {
    /// The layout bytes of the arguments.
    pub open spec fn body(&self) -> Seq<u8> {
        favorites_layout(
            self.number,
            self.color_len,
            self.color,
            self.hobbies_count,
            self.hobbies_len,
            self.hobbies,
        )
    }

    /// The instruction data: the discriminator, then the layout bytes.
    pub fn to_bytes(&self) -> (r: Vec<u8>)
        ensures
            r@ == seq![0u8] + self.body(),
    {
        let mut out: Vec<u8> = Vec::new();
        out.push(0u8);
        append_favorites_layout(
            &mut out,
            self.number,
            self.color_len,
            &self.color,
            self.hobbies_count,
            &self.hobbies_len,
            &self.hobbies,
        );
        out
    }

    /// Reads the arguments from the instruction data that follows the
    /// discriminator: exactly 1200 layout bytes, else `InvalidInstructionData`.
    pub fn try_from_bytes(data: &[u8]) -> (r: Result<SetFavoritesArgs, ProgramError>)
        ensures
            data@.len() == 1200 ==> (r matches Ok(a) && a.body() == data@),
            data@.len() != 1200 ==> r == Err::<SetFavoritesArgs, ProgramError>(
                ProgramError::InvalidInstructionData,
            ),
    {
        if data.len() != 1200 {
            return Err(ProgramError::InvalidInstructionData);
        }
        let f = read_favorites_layout(data, 0);
        assert(data@.subrange(0, 1200) =~= data@);
        Ok(
            SetFavoritesArgs {
                number: f.0,
                color_len: f.1,
                color: f.2,
                hobbies_count: f.3,
                hobbies_len: f.4,
                hobbies: f.5,
            },
        )
    }
}

/// The favorites stored for a user.
#[derive(Debug, Clone, Copy, PartialEq, Eq)]
pub struct Favorites {
    pub number: u64,
    pub color_len: u32,
    pub color: [u8; 32],
    pub hobbies_count: u32,
    pub hobbies_len: [u32; 32],
    pub hobbies: [[u8; 32]; 32],
}

/// The length of a favorites account's data: an 8-byte discriminator header,
/// then the layout.
pub const FAVORITES_ACCOUNT_LEN: usize = 1208;

/// What reading a favorites account's data gives: `InvalidAccountData` unless
/// the first byte is the `Favorites` discriminator and exactly 1200 bytes
/// follow the 8-byte header; else the body bytes.
pub open spec fn favorites_account_body(data: Seq<u8>) -> Result<Seq<u8>, ProgramError> {
    if data[0] != 0 || data.len() != 1208 {
        Err(ProgramError::InvalidAccountData)
    } else {
        Ok(data.subrange(8, 1208))
    }
}

impl Favorites {
    /// The layout bytes of the favorites.
    pub open spec fn body(&self) -> Seq<u8> {
        favorites_layout(
            self.number,
            self.color_len,
            self.color,
            self.hobbies_count,
            self.hobbies_len,
            self.hobbies,
        )
    }

    /// The layout bytes of the favorites (without the account header).
    pub fn to_bytes(&self) -> (r: Vec<u8>)
        ensures
            r@ == self.body(),
    {
        let mut out: Vec<u8> = Vec::new();
        append_favorites_layout(
            &mut out,
            self.number,
            self.color_len,
            &self.color,
            self.hobbies_count,
            &self.hobbies_len,
            &self.hobbies,
        );
        out
    }

    /// Reads favorites from a favorites account's data (the header, then the
    /// layout). Indexing the data panics when it is empty, or shorter than the
    /// header while its first byte is the discriminator; those inputs are
    /// excluded.
    pub fn try_from_bytes(data: &[u8]) -> (r: Result<Favorites, ProgramError>)
        requires
            data@.len() >= 1,
            data@[0] == 0 ==> data@.len() >= 8,
        ensures
            match favorites_account_body(data@) {
                Ok(body) => r matches Ok(f) && f.body() == body,
                Err(e) => r == Err::<Favorites, ProgramError>(e),
            },
    {
        if data[0] != 0 {
            return Err(ProgramError::InvalidAccountData);
        }
        if data.len() != 1208 {
            return Err(ProgramError::InvalidAccountData);
        }
        let f = read_favorites_layout(data, 8);
        Ok(
            Favorites {
                number: f.0,
                color_len: f.1,
                color: f.2,
                hobbies_count: f.3,
                hobbies_len: f.4,
                hobbies: f.5,
            },
        )
    }
}

/// The seed bytes `b"favorites"`.
pub open spec fn favorites_seed() -> Seq<u8> {
    seq![102u8, 97, 118, 111, 114, 105, 116, 101, 115]
}

/// The seeds of a user's favorites account: `b"favorites"` and the user's address.
pub open spec fn favorites_seeds(user: Seq<u8>) -> Seq<Seq<u8>> {
    seq![favorites_seed(), user]
}

fn make_favorites_seeds(user: &Key) -> (r: Vec<Vec<u8>>)
    ensures
        r.deep_view() == favorites_seeds(user@),
{
    let mut user_seed: Vec<u8> = Vec::new();
    append_bytes(&mut user_seed, user.as_slice());
    let prefix: Vec<u8> = vec![102u8, 97, 118, 111, 114, 105, 116, 101, 115];
    assert(prefix@ =~= favorites_seed());
    let mut seeds: Vec<Vec<u8>> = Vec::new();
    seeds.push(prefix);
    seeds.push(user_seed);
    assert(seeds.deep_view()[0] == favorites_seed());
    assert(seeds.deep_view()[1] == user@);
    assert(seeds.deep_view() =~= favorites_seeds(user@));
    seeds
}

/// What `process_set_favorites` decided: the arguments to store, the seeds and
/// bump of the favorites account, and whether the account must be created first.
pub struct SetFavoritesPlan {
    pub args: SetFavoritesArgs,
    pub seeds: Vec<Vec<u8>>,
    pub bump: u8,
    pub create_account: bool,
}

/// The checks of `process_set_favorites` before any account is touched, in
/// order: the signer signed, the system program is the system program, and the
/// instruction data is 1200 bytes.
pub open spec fn set_favorites_checks(
    signer: AccountState,
    system_program: AccountState,
    data: Seq<u8>,
) -> Result<(), ProgramError> {
    and_then(
        signer.signer_check(),
        and_then(
            system_program.program_check(system_program_address()),
            check(data.len() == 1200, ProgramError::InvalidInstructionData),
        ),
    )
}

/// First step of the set-favorites instruction, with accounts
/// `[signer, favorites, system_program]` and the data after the discriminator.
///
/// Fails with `NotEnoughAccountKeys` unless exactly three accounts are given,
/// then as `set_favorites_checks` says. Otherwise it plans to store the parsed
/// arguments in the program address of `[b"favorites", signer]` under
/// `program_id`, creating that account first when it holds no data.
pub fn process_set_favorites(accounts: &[AccountState], data: &[u8], program_id: &Key) -> (r:
    Result<SetFavoritesPlan, ProgramError>)
    ensures
        accounts@.len() != 3 ==> r is Err && r->Err_0 == ProgramError::NotEnoughAccountKeys,
        accounts@.len() == 3 ==> match set_favorites_checks(accounts@[0], accounts@[2], data@) {
            Err(e) => r is Err && r->Err_0 == e,
            Ok(()) => r matches Ok(p) && {
                &&& p.args.body() == data@
                &&& p.seeds.deep_view() == favorites_seeds(accounts@[0].key@)
                &&& valid_seeds(p.seeds.deep_view())
                &&& p.bump == program_address(
                    favorites_seeds(accounts@[0].key@),
                    program_id@,
                ).1
                &&& p.create_account == (accounts@[1].data@.len() == 0)
            },
        },
{
    if accounts.len() != 3 {
        return Err(ProgramError::NotEnoughAccountKeys);
    }
    let signer_info = &accounts[0];
    let favorites_info = &accounts[1];
    let system_program = &accounts[2];
    signer_info.is_signer()?;
    system_program.is_program(&system_program_id())?;
    let args = SetFavoritesArgs::try_from_bytes(data)?;
    let seeds = make_favorites_seeds(&signer_info.key);
    let (_, bump) = find_program_address(&seeds, program_id);
    Ok(
        SetFavoritesPlan {
            args,
            seeds,
            bump,
            create_account: favorites_info.data.len() == 0,
        },
    )
}

/// The data of the favorites account after storing `args` in `data`: the
/// header kept, the layout bytes replaced by those of `args`, the rest kept.
pub open spec fn stored_favorites(data: Seq<u8>, args: SetFavoritesArgs) -> Seq<u8> {
    data.subrange(0, 8) + args.body() + data.subrange(1208, data.len() as int)
}

/// The checks of `finish_set_favorites`, in order: the account is the program
/// address of the plan's seeds with the plan's bump, it is writable, the program
/// owns it, it holds at least the header and the layout, and its first byte is
/// the `Favorites` discriminator.
pub open spec fn finish_set_favorites_checks(
    favorites: AccountState,
    seeds: Seq<Seq<u8>>,
    bump: u8,
    program_id: Seq<u8>,
) -> Result<(), ProgramError> {
    and_then(
        favorites.seeds_check(seeds, bump, program_id),
        and_then(
            favorites.writable_check(),
            and_then(
                favorites.owner_check(program_id),
                and_then(
                    check(favorites.data@.len() >= 1208, ProgramError::InvalidAccountData),
                    check(favorites.data@[0] == 0, ProgramError::InvalidAccountData),
                ),
            ),
        ),
    )
}

/// Second step of the set-favorites instruction, on the favorites account as it
/// stands once any creation the plan asked for is done: the account's new data,
/// the plan's arguments stored in it.
pub fn finish_set_favorites(plan: &SetFavoritesPlan, favorites: &AccountState, program_id: &Key) -> (r:
    Result<Vec<u8>, ProgramError>)
    requires
        valid_seeds(plan.seeds.deep_view()),
    ensures
        match finish_set_favorites_checks(*favorites, plan.seeds.deep_view(), plan.bump, program_id@) {
            Err(e) => r is Err && r->Err_0 == e,
            Ok(()) => r matches Ok(d) && d@ == stored_favorites(favorites.data@, plan.args),
        },
{
    favorites.has_seeds(&plan.seeds, plan.bump, program_id)?;
    favorites.is_writable()?;
    favorites.has_owner(program_id)?;
    if favorites.data.len() < 1208 {
        return Err(ProgramError::InvalidAccountData);
    }
    if favorites.data[0] != 0 {
        return Err(ProgramError::InvalidAccountData);
    }
    let mut out: Vec<u8> = Vec::new();
    append_bytes(&mut out, vstd::slice::slice_subrange(favorites.data.as_slice(), 0, 8));
    let a = &plan.args;
    append_favorites_layout(
        &mut out,
        a.number,
        a.color_len,
        &a.color,
        a.hobbies_count,
        &a.hobbies_len,
        &a.hobbies,
    );
    let n = favorites.data.len();
    append_bytes(&mut out, vstd::slice::slice_subrange(favorites.data.as_slice(), 1208, n));
    Ok(out)
}

} // verus!

verus! {

/// Law: the layout determines the arguments; reading back the bytes that
/// `SetFavoritesArgs::to_bytes` writes after the discriminator gives the same
/// arguments.
pub proof fn lemma_set_favorites_args_roundtrip(a: SetFavoritesArgs, b: SetFavoritesArgs)
    requires
        a.body() == b.body(),
    ensures
        a == b,
{
    lemma_favorites_layout_injective(
        a.number,
        a.color_len,
        a.color,
        a.hobbies_count,
        a.hobbies_len,
        a.hobbies,
        b.number,
        b.color_len,
        b.color,
        b.hobbies_count,
        b.hobbies_len,
        b.hobbies,
    );
}

/// The layout of any arguments is 1200 bytes long, the length that
/// `SetFavoritesArgs::try_from_bytes` accepts.
pub proof fn lemma_set_favorites_args_len(a: SetFavoritesArgs)
    ensures
        a.body().len() == 1200,
{
    lemma_favorites_layout_len(a.number, a.color_len, a.color, a.hobbies_count, a.hobbies_len, a.hobbies);
}

/// Law: favorites account data read back is what was written. The data that
/// `finish_set_favorites` produces from an account of the exact size, read as
/// a favorites account, gives favorites whose fields are the arguments stored.
pub proof fn lemma_stored_favorites_read_back(data: Seq<u8>, args: SetFavoritesArgs, f: Favorites)
    requires
        data.len() == 1208,
        data[0] == 0,
        favorites_account_body(stored_favorites(data, args)) == Ok::<Seq<u8>, ProgramError>(f.body()),
    ensures
        f.number == args.number,
        f.color_len == args.color_len,
        f.color == args.color,
        f.hobbies_count == args.hobbies_count,
        f.hobbies_len == args.hobbies_len,
        f.hobbies == args.hobbies,
{
    lemma_set_favorites_args_len(args);
    let s = stored_favorites(data, args);
    assert(s.subrange(8, 1208) =~= args.body());
    lemma_favorites_layout_injective(
        f.number,
        f.color_len,
        f.color,
        f.hobbies_count,
        f.hobbies_len,
        f.hobbies,
        args.number,
        args.color_len,
        args.color,
        args.hobbies_count,
        args.hobbies_len,
        args.hobbies,
    );
}

/// Law: storing favorites into an account of the exact size keeps it a
/// readable favorites account: the header and length are kept, so reading it
/// succeeds with the stored layout.
pub proof fn lemma_stored_favorites_readable(data: Seq<u8>, args: SetFavoritesArgs)
    requires
        data.len() == 1208,
        data[0] == 0,
    ensures
        favorites_account_body(stored_favorites(data, args)) == Ok::<Seq<u8>, ProgramError>(args.body()),
{
    lemma_set_favorites_args_len(args);
    let s = stored_favorites(data, args);
    assert(s.len() == 1208);
    assert(s[0] == data[0]);
    assert(s.subrange(8, 1208) =~= args.body());
}

/// Law: the bump that `process_set_favorites` plans with is the one the address
/// search finds, so the seeds check of `finish_set_favorites` fails exactly
/// when the account is not at the derived address.
pub proof fn lemma_planned_bump_checks_address_only(
    favorites: AccountState,
    user: Seq<u8>,
    program_id: Seq<u8>,
)
    ensures
        favorites.seeds_check(
            favorites_seeds(user),
            program_address(favorites_seeds(user), program_id).1,
            program_id,
        ) == check(
            favorites.key@ == program_address(favorites_seeds(user), program_id).0,
            ProgramError::InvalidSeeds,
        ),
{
}

} // verus!

verus! {

/// Law: the layout determines the stored favorites.
pub proof fn lemma_favorites_roundtrip(a: Favorites, b: Favorites)
    requires
        a.body() == b.body(),
    ensures
        a == b,
{
    lemma_favorites_layout_injective(
        a.number,
        a.color_len,
        a.color,
        a.hobbies_count,
        a.hobbies_len,
        a.hobbies,
        b.number,
        b.color_len,
        b.color,
        b.hobbies_count,
        b.hobbies_len,
        b.hobbies,
    );
}

} // verus!

verus! {

/// Law: storing favorites twice keeps only the second arguments: the layout
/// bytes are those last stored, and every other byte of the account is kept.
pub proof fn lemma_stored_favorites_last_write_wins(
    data: Seq<u8>,
    first: SetFavoritesArgs,
    second: SetFavoritesArgs,
)
    requires
        data.len() >= 1208,
    ensures
        stored_favorites(stored_favorites(data, first), second) == stored_favorites(data, second),
{
    lemma_set_favorites_args_len(first);
    lemma_set_favorites_args_len(second);
    let once = stored_favorites(data, first);
    assert(once.len() == data.len());
    assert(once.subrange(0, 8) =~= data.subrange(0, 8));
    assert(once.subrange(1208, once.len() as int) =~= data.subrange(1208, data.len() as int));
    assert(stored_favorites(once, second) =~= stored_favorites(data, second));
}

/// Law: storing the arguments an account already holds leaves it unchanged.
pub proof fn lemma_stored_favorites_idempotent(data: Seq<u8>, args: SetFavoritesArgs)
    requires
        data.len() >= 1208,
        data.subrange(8, 1208) == args.body(),
    ensures
        stored_favorites(data, args) == data,
{
    assert(stored_favorites(data, args) =~= data);
}

} // verus!

verus! {

/// Law: the set-favorites checks pass exactly when the signer signed, the
/// third account is the executable system program (32 zero bytes) and the
/// data is 1200 bytes. An unsigned signer fails with
/// `MissingRequiredSignature`; then any other third account, executable or
/// not, with `InvalidAccountData`; then data of another length with
/// `InvalidInstructionData`.
pub proof fn lemma_set_favorites_checks(signer: AccountState, system_program: AccountState, data: Seq<u8>)
    ensures
        set_favorites_checks(signer, system_program, data) is Ok <==> {
            &&& signer.is_signer
            &&& forall|i: int| 0 <= i < 32 ==> system_program.key@[i] == 0u8
            &&& system_program.executable
            &&& data.len() == 1200
        },
        !signer.is_signer ==> set_favorites_checks(signer, system_program, data) == Err::<
            (),
            ProgramError,
        >(ProgramError::MissingRequiredSignature),
        signer.is_signer && !((forall|i: int| 0 <= i < 32 ==> system_program.key@[i] == 0u8)
            && system_program.executable) ==> set_favorites_checks(signer, system_program, data)
            == Err::<(), ProgramError>(ProgramError::InvalidAccountData),
        signer.is_signer && (forall|i: int| 0 <= i < 32 ==> system_program.key@[i] == 0u8)
            && system_program.executable && data.len() != 1200 ==> set_favorites_checks(
            signer,
            system_program,
            data,
        ) == Err::<(), ProgramError>(ProgramError::InvalidInstructionData),
{
    lemma_system_program_address(system_program.key@);
}

/// Law: storing favorites is accepted exactly when the account is the address
/// that the search finds for the seeds under the program, with the given bump,
/// is writable, is owned by the program, holds at least 1208 bytes and starts
/// with the `Favorites` discriminator 0.
pub proof fn lemma_finish_set_favorites_checks(
    favorites: AccountState,
    seeds: Seq<Seq<u8>>,
    bump: u8,
    program_id: Seq<u8>,
)
    ensures
        finish_set_favorites_checks(favorites, seeds, bump, program_id) is Ok <==> {
            &&& program_address(seeds, program_id) == (favorites.key@, bump)
            &&& favorites.is_writable
            &&& favorites.owner@ == program_id
            &&& favorites.data@.len() >= 1208
            &&& favorites.data@[0] == 0u8
        },
{
}

} // verus!
