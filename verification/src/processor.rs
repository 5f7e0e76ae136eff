//! The instruction handler.
//!
//! An instruction is an ordered list of slots and a payload. With an empty
//! payload it registers a user: it binds the user in the first slot to the
//! chain named by the second. With a payload it posts a message: it writes
//! the message into the second slot, links it behind the message in the
//! third slot if there is one, and checks that the user may post into that
//! chain.
//!
//! `outcome` and `effect` say, as functions of the slots and the payload,
//! what the handler returns and what it leaves in the slots. The handler
//! writes in place and undoes nothing: a rejected instruction can leave
//! writes behind, and `effect` says which. A host is expected to discard the
//! slots of a rejected instruction.

use vstd::prelude::*;
use vstd::utf8::valid_utf8;
use vstd::slice::slice_subrange;
use crate::account::{next_account, views, Account, AccountView};
use crate::bytes::{bytes_eq, copy_bytes, is_zero, zero_key, Key, KEY_LEN};
use crate::error::{InstructionError, MessageFeedError};
use crate::record::{
    message_record, user_record, with_banned, with_creator, with_from, with_next_message,
    with_text, with_user_creator, MessageAccountData, UserAccountData, BANNED,
    MESSAGE_HEADER_LEN, USER_LEN,
};
use crate::text::{validate, validated};

verus! {

/// The user slot and the message slot are both authorized.
pub open spec fn authorized(accounts: Seq<AccountView>) -> bool {
    accounts[0].is_signer && accounts[1].is_signer
}

/// The instruction gets as far as writing a message: both required slots
/// are there and authorized, and the payload is non-empty valid text.
pub open spec fn posts(accounts: Seq<AccountView>, input: Seq<u8>) -> bool {
    &&& accounts.len() >= 2
    &&& authorized(accounts)
    &&& input.len() > 0
    &&& valid_utf8(input)
}

/// The instruction names an existing message to link the new one behind.
pub open spec fn links(accounts: Seq<AccountView>) -> bool {
    accounts.len() >= 3
}

/// The existing message has no successor yet.
pub open spec fn is_unlinked(accounts: Seq<AccountView>) -> bool {
    message_record(accounts[2].data).next_message == zero_key()
}

/// The instruction names a user to ban.
pub open spec fn bans(accounts: Seq<AccountView>) -> bool {
    accounts.len() >= 4
}

/// The chain root that a posted message gets: that of the message it is
/// linked behind, or its own identity where it starts a chain.
pub open spec fn resolved_creator(accounts: Seq<AccountView>) -> Seq<u8> {
    if links(accounts) {
        message_record(accounts[2].data).creator
    } else {
        accounts[1].key
    }
}

/// How many slots, counted from the front of the list, the instruction
/// reads as records. It reads no slot behind these.
pub open spec fn slots_read(accounts: Seq<AccountView>, input: Seq<u8>) -> nat {
    if accounts.len() < 2 {
        accounts.len()
    } else if !posts(accounts, input) || !links(accounts) {
        2
    } else if !is_unlinked(accounts) || !bans(accounts) {
        3
    } else {
        4
    }
}

/// Every slot that the instruction reads as a record is large enough for
/// that record, and where a message is written, the text of the message slot
/// has exactly the length of the payload. Slots that the instruction does
/// not read may have any size.
pub open spec fn slots_fit(accounts: Seq<AccountView>, input: Seq<u8>) -> bool {
    let n = slots_read(accounts, input);
    &&& n >= 1 ==> accounts[0].data.len() >= USER_LEN
    &&& n >= 2 ==> accounts[1].data.len() >= MESSAGE_HEADER_LEN
    &&& n >= 3 ==> accounts[2].data.len() >= MESSAGE_HEADER_LEN
    &&& n >= 4 ==> accounts[3].data.len() >= USER_LEN
    &&& posts(accounts, input) ==> accounts[1].data.len() == MESSAGE_HEADER_LEN + input.len()
}

/// What the handler returns for these slots and this payload.
pub open spec fn outcome(accounts: Seq<AccountView>, input: Seq<u8>) -> Result<
    (),
    InstructionError,
> {
    if accounts.len() < 2 {
        Err(InstructionError::MissingAccount)
    } else if !authorized(accounts) {
        Err(InstructionError::MissingAuthorization)
    } else if input.len() == 0 {
        Ok(())
    } else if !valid_utf8(input) {
        validated(input)
    } else if links(accounts) && !is_unlinked(accounts) {
        Err(InstructionError::Feed(MessageFeedError::NextMessageExists))
    } else if user_record(accounts[0].data).creator != resolved_creator(accounts) {
        Err(InstructionError::Feed(MessageFeedError::CreatorMismatch))
    } else {
        Ok(())
    }
}

/// The slots after a registration: the user is bound to the identity of the
/// message slot.
pub open spec fn registered(accounts: Seq<AccountView>) -> Seq<AccountView> {
    accounts.update(
        0,
        accounts[0].with_data(with_user_creator(accounts[0].data, accounts[1].key)),
    )
}

/// The bytes of the message slot once the payload and the author are
/// written.
pub open spec fn written(accounts: Seq<AccountView>, input: Seq<u8>) -> Seq<u8> {
    with_from(with_text(accounts[1].data, input), accounts[0].key)
}

/// The slots after a post that starts a chain: the message is its own root.
pub open spec fn posted_root(accounts: Seq<AccountView>, input: Seq<u8>) -> Seq<AccountView> {
    accounts.update(
        1,
        accounts[1].with_data(with_creator(written(accounts, input), accounts[1].key)),
    )
}

/// The slots after a post that was refused because the existing message
/// already has a successor: the payload and the author are written into the
/// message slot, and nothing else is.
pub open spec fn refused_link(accounts: Seq<AccountView>, input: Seq<u8>) -> Seq<
    AccountView,
> {
    accounts.update(1, accounts[1].with_data(written(accounts, input)))
}

/// The slots after a post behind an existing message: the existing message
/// links to the new one, the new one takes over its chain root, and the
/// fourth slot, where there is one, is marked as banned.
pub open spec fn posted_behind(accounts: Seq<AccountView>, input: Seq<u8>) -> Seq<AccountView> {
    let linked = accounts.update(
        1,
        accounts[1].with_data(
            with_creator(written(accounts, input), message_record(accounts[2].data).creator),
        ),
    ).update(2, accounts[2].with_data(with_next_message(accounts[2].data, accounts[1].key)));
    if bans(accounts) {
        linked.update(3, accounts[3].with_data(with_banned(accounts[3].data)))
    } else {
        linked
    }
}

/// What the handler leaves in the slots, whether it accepts the instruction
/// or not.
pub open spec fn effect(accounts: Seq<AccountView>, input: Seq<u8>) -> Seq<AccountView> {
    if accounts.len() < 2 || !authorized(accounts) {
        accounts
    } else if input.len() == 0 {
        registered(accounts)
    } else if !valid_utf8(input) {
        accounts
    } else if !links(accounts) {
        posted_root(accounts, input)
    } else if !is_unlinked(accounts) {
        refused_link(accounts, input)
    } else {
        posted_behind(accounts, input)
    }
}

/// Tells whether the slots fit the instruction, which is what
/// `process_instruction` asks of its caller.
pub fn fits(accounts: &[Account], input: &[u8]) -> (fit: bool)
    ensures
        fit == slots_fit(views(accounts@), input@),
{
    let n = accounts.len();
    if n >= 1 && accounts[0].data.len() < USER_LEN {
        return false;
    }
    if n < 2 {
        return true;
    }
    if accounts[1].data.len() < MESSAGE_HEADER_LEN {
        return false;
    }
    if !accounts[0].is_signer || !accounts[1].is_signer || input.len() == 0 {
        return true;
    }
    match validate(input) {
        Ok(()) => {},
        Err(_) => {
            return true;
        },
    }
    if accounts[1].data.len() - MESSAGE_HEADER_LEN != input.len() {
        return false;
    }
    if n < 3 {
        return true;
    }
    if accounts[2].data.len() < MESSAGE_HEADER_LEN {
        return false;
    }
    if n >= 4 && is_zero(slice_subrange(accounts[2].data.as_slice(), 0, KEY_LEN))
        && accounts[3].data.len() < USER_LEN {
        return false;
    }
    true
}

/// Counts the slots that the instruction reads as records: the slots behind
/// them are not looked at, and keep their bytes.
pub fn consulted(accounts: &[Account], input: &[u8]) -> (n: usize)
    requires
        slots_fit(views(accounts@), input@),
    ensures
        n == slots_read(views(accounts@), input@),
{
    let n = accounts.len();
    if n < 2 {
        return n;
    }
    if !accounts[0].is_signer || !accounts[1].is_signer || input.len() == 0 {
        return 2;
    }
    match validate(input) {
        Ok(()) => {},
        Err(_) => {
            return 2;
        },
    }
    if n < 3 {
        return 2;
    }
    if n < 4 || !is_zero(slice_subrange(accounts[2].data.as_slice(), 0, KEY_LEN)) {
        return 3;
    }
    4
}

/// Runs one instruction on `accounts` with the payload `input`.
///
/// The slots are taken in order: the user, the message, then optionally the
/// existing message to link behind and the user to ban. The result is
/// `outcome` and the slots hold `effect`, for every instruction whose slots
/// fit.
pub fn process_instruction(_program_id: &Key, accounts: &mut [Account], input: &[u8]) -> (r:
    Result<(), InstructionError>)
    requires
        slots_fit(views(old(accounts)@), input@),
    ensures
        r == outcome(views(old(accounts)@), input@),
        views(final(accounts)@) == effect(views(old(accounts)@), input@),
{
    let ghost before = views(accounts@);

    let (user_account, rest) = match next_account(accounts) {
        Ok(next) => next,
        Err(e) => {
            proof {
                assert(views(final(accounts)@) =~~= before);
            }
            return Err(e);
        },
    };
    let user_data = UserAccountData::new(user_account.data.as_mut_slice());

    let (message_account, rest) = match next_account(rest) {
        Ok(next) => next,
        Err(e) => {
            proof {
                assert(final(user_account).data@ =~= before[0].data);
                assert(views(final(accounts)@) =~~= before);
            }
            return Err(e);
        },
    };
    let new_message_data = MessageAccountData::new(message_account.data.as_mut_slice());

    if !user_account.is_signer || !message_account.is_signer {
        proof {
            assert(final(user_account).data@ =~= before[0].data);
            assert(final(message_account).data@ =~= before[1].data);
            assert(views(final(accounts)@) =~~= before);
        }
        return Err(InstructionError::MissingAuthorization);
    }
    if input.is_empty() {
        copy_bytes(user_data.creator, message_account.key.as_slice());
        proof {
            assert(final(message_account).data@ =~= before[1].data);
            assert(views(final(accounts)@) =~~= registered(before));
        }
        return Ok(());
    }
    match validate(input) {
        Ok(()) => {},
        Err(e) => {
            proof {
                assert(final(user_account).data@ =~= before[0].data);
                assert(final(message_account).data@ =~= before[1].data);
                assert(views(final(accounts)@) =~~= before);
            }
            return Err(e);
        },
    }
    copy_bytes(new_message_data.text, input);
    copy_bytes(new_message_data.from, user_account.key.as_slice());

    match next_account(rest) {
        Ok((existing_message_account, rest)) => {
            let existing_message_data = MessageAccountData::new(
                existing_message_account.data.as_mut_slice(),
            );
            if !is_zero(existing_message_data.next_message) {
                proof {
                    assert(final(user_account).data@ =~= before[0].data);
                    assert(final(message_account).data@ =~= written(before, input@));
                    assert(final(existing_message_account).data@ =~= before[2].data);
                    assert(views(final(accounts)@) =~~= refused_link(before, input@));
                }
                return Err(InstructionError::from(MessageFeedError::NextMessageExists));
            }
            copy_bytes(existing_message_data.next_message, message_account.key.as_slice());
            match next_account(rest) {
                Ok((ban_user_account, _)) => {
                    let ban_user_data = UserAccountData::new(
                        ban_user_account.data.as_mut_slice(),
                    );
                    *ban_user_data.banned = BANNED;
                    proof {
                        assert(final(ban_user_account).data@ =~= with_banned(before[3].data));
                    }
                },
                Err(_) => {},
            }
            copy_bytes(new_message_data.creator, existing_message_data.creator);
            proof {
                assert(final(existing_message_account).data@ =~= with_next_message(
                    before[2].data,
                    before[1].key,
                ));
            }
        },
        Err(_) => {
            copy_bytes(new_message_data.creator, message_account.key.as_slice());
        },
    }
    let same = bytes_eq(user_data.creator, new_message_data.creator);
    proof {
        assert(final(user_account).data@ =~= before[0].data);
        assert(final(message_account).data@ =~= with_creator(
            written(before, input@),
            resolved_creator(before),
        ));
        if links(before) {
            assert(views(final(accounts)@) =~~= posted_behind(before, input@));
        } else {
            assert(views(final(accounts)@) =~~= posted_root(before, input@));
        }
    }
    if !same {
        return Err(InstructionError::from(MessageFeedError::CreatorMismatch));
    }
    Ok(())
}

} // verus!
