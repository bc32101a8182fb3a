use vstd::prelude::*;

use crate::error::ProgramError;
use crate::keys::{find_program_address, keys_equal, program_address, valid_seeds, Key};

verus! {

/// What an instruction processor reads of an account handed to it: its
/// address, owner, lamports, data and flags.
pub struct AccountState {
    pub key: Key,
    pub owner: Key,
    pub lamports: u64,
    pub data: Vec<u8>,
    pub is_signer: bool,
    pub is_writable: bool,
    pub executable: bool,
}

/// `Ok(())` when `ok` holds, else `Err(e)`.
pub open spec fn check(ok: bool, e: ProgramError) -> Result<(), ProgramError> {
    if ok {
        Ok(())
    } else {
        Err(e)
    }
}

/// The first of two checks that fails, or `Ok(())`.
pub open spec fn and_then(
    first: Result<(), ProgramError>,
    second: Result<(), ProgramError>,
) -> Result<(), ProgramError> {
    match first {
        Ok(()) => second,
        Err(e) => Err(e),
    }
}

impl AccountState {
    pub open spec fn signer_check(&self) -> Result<(), ProgramError> {
        check(self.is_signer, ProgramError::MissingRequiredSignature)
    }

    pub open spec fn writable_check(&self) -> Result<(), ProgramError> {
        check(self.is_writable, ProgramError::MissingRequiredSignature)
    }

    pub open spec fn executable_check(&self) -> Result<(), ProgramError> {
        check(self.executable, ProgramError::InvalidAccountData)
    }

    pub open spec fn empty_check(&self) -> Result<(), ProgramError> {
        check(self.data@.len() == 0, ProgramError::AccountAlreadyInitialized)
    }

    pub open spec fn address_check(&self, address: Seq<u8>) -> Result<(), ProgramError> {
        check(self.key@ == address, ProgramError::InvalidAccountData)
    }

    pub open spec fn owner_check(&self, owner: Seq<u8>) -> Result<(), ProgramError> {
        check(self.owner@ == owner, ProgramError::InvalidAccountOwner)
    }

    pub open spec fn program_check(&self, program_id: Seq<u8>) -> Result<(), ProgramError> {
        and_then(self.address_check(program_id), self.executable_check())
    }

    pub open spec fn seeds_check(&self, seeds: Seq<Seq<u8>>, bump: u8, program_id: Seq<u8>) -> Result<
        (),
        ProgramError,
    > {
        let pda = program_address(seeds, program_id);
        check(self.key@ == pda.0 && bump == pda.1, ProgramError::InvalidSeeds)
    }

    /// Fails with `MissingRequiredSignature` unless the account signed.
    pub fn is_signer(&self) -> (r: Result<(), ProgramError>)
        ensures
            r == self.signer_check(),
    {
        if !self.is_signer {
            return Err(ProgramError::MissingRequiredSignature);
        }
        Ok(())
    }

    /// Fails with `MissingRequiredSignature` unless the account is writable.
    pub fn is_writable(&self) -> (r: Result<(), ProgramError>)
        ensures
            r == self.writable_check(),
    {
        if !self.is_writable {
            return Err(ProgramError::MissingRequiredSignature);
        }
        Ok(())
    }

    /// Fails with `InvalidAccountData` unless the account is executable.
    pub fn is_executable(&self) -> (r: Result<(), ProgramError>)
        ensures
            r == self.executable_check(),
    {
        if !self.executable {
            return Err(ProgramError::InvalidAccountData);
        }
        Ok(())
    }

    /// Fails with `AccountAlreadyInitialized` unless the account holds no data.
    pub fn is_empty(&self) -> (r: Result<(), ProgramError>)
        ensures
            r == self.empty_check(),
    {
        if self.data.len() != 0 {
            return Err(ProgramError::AccountAlreadyInitialized);
        }
        Ok(())
    }

    /// Fails with `InvalidAccountData` unless the account has the given address.
    pub fn has_address(&self, address: &Key) -> (r: Result<(), ProgramError>)
        ensures
            r == self.address_check(address@),
    {
        if !keys_equal(&self.key, address) {
            return Err(ProgramError::InvalidAccountData);
        }
        Ok(())
    }

    /// Fails with `InvalidAccountOwner` unless the given program owns the account.
    pub fn has_owner(&self, owner: &Key) -> (r: Result<(), ProgramError>)
        ensures
            r == self.owner_check(owner@),
    {
        if !keys_equal(&self.owner, owner) {
            return Err(ProgramError::InvalidAccountOwner);
        }
        Ok(())
    }

    /// The account is the given program: it has the program's address and is
    /// executable (`InvalidAccountData` otherwise, the address checked first).
    pub fn is_program(&self, program_id: &Key) -> (r: Result<(), ProgramError>)
        ensures
            r == self.program_check(program_id@),
    {
        self.has_address(program_id)?;
        self.is_executable()
    }

    /// The account is the program address of `seeds` under `program_id`, and
    /// `bump` is its bump seed (`InvalidSeeds` otherwise).
    pub fn has_seeds(&self, seeds: &Vec<Vec<u8>>, bump: u8, program_id: &Key) -> (r: Result<
        (),
        ProgramError,
    >)
        requires
            valid_seeds(seeds.deep_view()),
        ensures
            r == self.seeds_check(seeds.deep_view(), bump, program_id@),
    {
        let (pda, pda_bump) = find_program_address(seeds, program_id);
        if !keys_equal(&self.key, &pda) || bump != pda_bump {
            return Err(ProgramError::InvalidSeeds);
        }
        Ok(())
    }
}

} // verus!
