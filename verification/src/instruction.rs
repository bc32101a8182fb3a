use vstd::prelude::*;

use crate::keys::Key;

verus! {

/// An account that an instruction names, with its signer and writable flags.
#[derive(Debug, Clone, Copy, PartialEq, Eq)]
pub struct AccountMeta {
    pub pubkey: Key,
    pub is_signer: bool,
    pub is_writable: bool,
}

impl View for AccountMeta {
    type V = (Seq<u8>, bool, bool);

    open spec fn view(&self) -> (Seq<u8>, bool, bool) {
        (self.pubkey@, self.is_signer, self.is_writable)
    }
}

impl AccountMeta {
    /// A writable account.
    pub fn new(pubkey: Key, is_signer: bool) -> (r: AccountMeta)
        ensures
            r@ == (pubkey@, is_signer, true),
    {
        AccountMeta { pubkey, is_signer, is_writable: true }
    }

    /// A read-only account.
    pub fn new_readonly(pubkey: Key, is_signer: bool) -> (r: AccountMeta)
        ensures
            r@ == (pubkey@, is_signer, false),
    {
        AccountMeta { pubkey, is_signer, is_writable: false }
    }
}

/// An instruction to a program: the program, the accounts it names and its data.
pub struct Instruction {
    pub program_id: Key,
    pub accounts: Vec<AccountMeta>,
    pub data: Vec<u8>,
}

impl Instruction {
    /// The views of the accounts the instruction names.
    pub open spec fn account_views(&self) -> Seq<(Seq<u8>, bool, bool)> {
        self.accounts@.map_values(|m: AccountMeta| m@)
    }
}

} // verus!
