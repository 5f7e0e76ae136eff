//! The storage slot as the handler sees it.

use vstd::prelude::*;
use crate::bytes::{Key, KEY_LEN};
use crate::error::InstructionError;

verus! {

/// A storage slot handed to the handler: its identity, whether the identity
/// that controls it authorized the instruction, and its bytes.
#[derive(Clone, Debug, PartialEq, Eq)]
pub struct Account {
    /// The stable identity of the slot.
    pub key: Key,
    /// Whether the controlling identity authorized the instruction.
    pub is_signer: bool,
    /// The bytes of the slot. The handler writes them in place and never
    /// resizes them.
    pub data: Vec<u8>,
}

/// A slot as a mathematical value.
#[verifier::ext_equal]
pub struct AccountView {
    pub key: Seq<u8>,
    pub is_signer: bool,
    pub data: Seq<u8>,
}

impl View for Account {
    type V = AccountView;

    open spec fn view(&self) -> AccountView {
        AccountView { key: self.key@, is_signer: self.is_signer, data: self.data@ }
    }
}

impl AccountView {
    /// The identity has the length of an identity.
    pub open spec fn wf(self) -> bool {
        self.key.len() == KEY_LEN
    }

    /// This slot with other bytes in it.
    pub open spec fn with_data(self, data: Seq<u8>) -> AccountView {
        AccountView { data, ..self }
    }
}

/// A list of slots as mathematical values.
pub open spec fn views(accounts: Seq<Account>) -> Seq<AccountView> {
    accounts.map_values(|a: Account| a@)
}

/// Every slot of the list is well formed.
pub open spec fn well_formed(accounts: Seq<AccountView>) -> bool {
    forall|i: int| 0 <= i < accounts.len() ==> (#[trigger] accounts[i]).wf()
}

/// Every list of slots that a program can hold is well formed, and has one
/// view per slot: what is stated of well-formed views holds of every call.
pub proof fn law_views_are_well_formed(accounts: Seq<Account>)
    ensures
        views(accounts).len() == accounts.len(),
        well_formed(views(accounts)),
{
}

/// Takes the next slot off the front of `accounts`, handing back the slot
/// and the slots after it, or fails with `MissingAccount` when none is left.
pub fn next_account<'a>(accounts: &'a mut [Account]) -> (r: Result<
    (&'a mut Account, &'a mut [Account]),
    InstructionError,
>)
    ensures
        match r {
            Ok((first, rest)) => {
                &&& old(accounts).len() > 0
                &&& *first == old(accounts)@[0]
                &&& rest@ == old(accounts)@.skip(1)
                &&& final(accounts)@ == seq![*final(first)] + final(rest)@
            },
            Err(e) => {
                &&& old(accounts).len() == 0
                &&& e == InstructionError::MissingAccount
                &&& final(accounts)@ == old(accounts)@
            },
        },
{
    if accounts.len() == 0 {
        Err(InstructionError::MissingAccount)
    } else {
        let (head, rest) = accounts.split_at_mut(1);
        let first = head.first_mut().unwrap();
        Ok((first, rest))
    }
}

} // verus!
