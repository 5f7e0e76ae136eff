//! What holds of every instruction.
//!
//! Each law is stated over `outcome` and `effect`, the two functions that
//! the contract of the handler is stated over, so it holds of every call of
//! the handler.

use vstd::prelude::*;
use vstd::utf8::valid_utf8;
use crate::account::{well_formed, AccountView};
use crate::bytes::zero_key;
use crate::error::{InstructionError, MessageFeedError};
use crate::processor::{
    authorized, bans, effect, is_unlinked, links, outcome, posts, resolved_creator, slots_fit,
    slots_read,
};
use crate::record::{message_record, user_record, USER_LEN};
use crate::text::{is_valid_up_to, lemma_valid_up_to, valid_up_to};

verus! {

/// The handler changes bytes and nothing else: the slots stay as many as
/// they were, each keeps its identity, its authorization and its size, and
/// a slot that the instruction does not read keeps its bytes too.
pub proof fn law_slots_keep_their_shape(accounts: Seq<AccountView>, input: Seq<u8>, i: int)
    requires
        well_formed(accounts),
        slots_fit(accounts, input),
        0 <= i < accounts.len(),
    ensures
        effect(accounts, input).len() == accounts.len(),
        effect(accounts, input)[i].key == accounts[i].key,
        effect(accounts, input)[i].is_signer == accounts[i].is_signer,
        effect(accounts, input)[i].data.len() == accounts[i].data.len(),
        i >= slots_read(accounts, input) ==> effect(accounts, input)[i] == accounts[i],
{
}

/// An instruction that is refused for a missing slot or a missing
/// authorization changes nothing.
pub proof fn law_unauthorized_changes_nothing(accounts: Seq<AccountView>, input: Seq<u8>)
    requires
        accounts.len() < 2 || !authorized(accounts),
    ensures
        outcome(accounts, input) is Err,
        accounts.len() < 2 ==> outcome(accounts, input) == Err::<(), _>(
            InstructionError::MissingAccount,
        ),
        accounts.len() >= 2 ==> outcome(accounts, input) == Err::<(), _>(
            InstructionError::MissingAuthorization,
        ),
        effect(accounts, input) == accounts,
{
}

/// Registration binds the user to the identity of the message slot and
/// touches nothing else: not the flag of the user, not the message slot, not
/// any further slot.
pub proof fn law_registration(accounts: Seq<AccountView>, i: int)
    requires
        well_formed(accounts),
        slots_fit(accounts, Seq::empty()),
        accounts.len() >= 2,
        authorized(accounts),
        1 <= i < accounts.len(),
    ensures
        outcome(accounts, Seq::empty()) is Ok,
        user_record(effect(accounts, Seq::empty())[0].data).creator == accounts[1].key,
        user_record(effect(accounts, Seq::empty())[0].data).banned == user_record(
            accounts[0].data,
        ).banned,
        effect(accounts, Seq::empty())[i] == accounts[i],
{
    let after = effect(accounts, Seq::empty())[0].data;
    assert(after.subrange(1, 33) =~= accounts[1].key);
}

/// The successor link is written once. An instruction that posts behind a
/// message which already has a successor is refused with
/// `NextMessageExists`, and no instruction that names such a message as the
/// one to link behind changes a byte of it.
pub proof fn law_link_is_write_once(accounts: Seq<AccountView>, input: Seq<u8>)
    requires
        links(accounts),
        !is_unlinked(accounts),
    ensures
        effect(accounts, input)[2] == accounts[2],
        posts(accounts, input) ==> outcome(accounts, input) == Err::<(), _>(
            InstructionError::Feed(MessageFeedError::NextMessageExists),
        ),
        input.len() > 0 ==> outcome(accounts, input) is Err,
{
}

/// A successor link that is set stays as it is: no instruction changes it in
/// the slot that it names as the new message or as the message to link
/// behind.
pub proof fn law_set_link_is_kept(accounts: Seq<AccountView>, input: Seq<u8>, i: int)
    requires
        well_formed(accounts),
        slots_fit(accounts, input),
        1 <= i <= 2,
        i < accounts.len(),
        message_record(accounts[i].data).next_message != zero_key(),
    ensures
        message_record(effect(accounts, input)[i].data).next_message == message_record(
            accounts[i].data,
        ).next_message,
{
    let after = effect(accounts, input)[i].data;
    assert(after.subrange(0, 32) =~= accounts[i].data.subrange(0, 32));
}

/// A message that is posted without a message to link behind starts a
/// chain: its creator is its own identity.
pub proof fn law_root_is_its_own_creator(accounts: Seq<AccountView>, input: Seq<u8>)
    requires
        well_formed(accounts),
        slots_fit(accounts, input),
        posts(accounts, input),
        !links(accounts),
    ensures
        message_record(effect(accounts, input)[1].data).creator == accounts[1].key,
{
    let after = effect(accounts, input)[1].data;
    assert(after.subrange(64, 96) =~= accounts[1].key);
}

/// A message that is posted behind an existing one takes over its creator,
/// and the existing message, which keeps its creator, links to the new one.
pub proof fn law_link_propagates_creator(accounts: Seq<AccountView>, input: Seq<u8>)
    requires
        well_formed(accounts),
        slots_fit(accounts, input),
        posts(accounts, input),
        links(accounts),
        is_unlinked(accounts),
    ensures
        message_record(effect(accounts, input)[1].data).creator == message_record(
            accounts[2].data,
        ).creator,
        message_record(effect(accounts, input)[2].data).creator == message_record(
            accounts[2].data,
        ).creator,
        message_record(effect(accounts, input)[2].data).from == message_record(
            accounts[2].data,
        ).from,
        message_record(effect(accounts, input)[2].data).text == message_record(
            accounts[2].data,
        ).text,
        message_record(effect(accounts, input)[2].data).next_message == accounts[1].key,
{
    let new = effect(accounts, input)[1].data;
    let existing = effect(accounts, input)[2].data;
    assert(new.subrange(64, 96) =~= accounts[2].data.subrange(64, 96));
    assert(existing.subrange(0, 32) =~= accounts[1].key);
    assert(existing.subrange(32, 64) =~= accounts[2].data.subrange(32, 64));
    assert(existing.subrange(64, 96) =~= accounts[2].data.subrange(64, 96));
    assert(existing.subrange(96, existing.len() as int) =~= accounts[2].data.subrange(
        96,
        accounts[2].data.len() as int,
    ));
}

/// A post is accepted exactly if the existing message, where one is named,
/// has no successor yet and the user is bound to the chain that the message
/// joins. Where only the second fails, the post is refused with
/// `CreatorMismatch`. An accepted message carries the creator that the user
/// is bound to. No post changes the slot of the user that posts.
pub proof fn law_scope_enforcement(accounts: Seq<AccountView>, input: Seq<u8>)
    requires
        well_formed(accounts),
        slots_fit(accounts, input),
        posts(accounts, input),
    ensures
        outcome(accounts, input) is Ok <==> (links(accounts) ==> is_unlinked(accounts))
            && user_record(accounts[0].data).creator == resolved_creator(accounts),
        (links(accounts) ==> is_unlinked(accounts)) && user_record(accounts[0].data).creator
            != resolved_creator(accounts) ==> outcome(accounts, input) == Err::<(), _>(
            InstructionError::Feed(MessageFeedError::CreatorMismatch),
        ),
        outcome(accounts, input) is Ok ==> message_record(
            effect(accounts, input)[1].data,
        ).creator == user_record(accounts[0].data).creator,
        effect(accounts, input)[0] == accounts[0],
        message_record(effect(accounts, input)[1].data).next_message == message_record(
            accounts[1].data,
        ).next_message,
{
    let after = effect(accounts, input)[1].data;
    assert(after.subrange(0, 32) =~= accounts[1].data.subrange(0, 32));
    if links(accounts) {
        if is_unlinked(accounts) {
            law_link_propagates_creator(accounts, input);
        }
    } else {
        law_root_is_its_own_creator(accounts, input);
    }
}

/// Once an instruction gets to writing a message, the text of the message
/// slot is the payload, byte for byte, and its author is the identity of the
/// user slot.
pub proof fn law_payload_integrity(accounts: Seq<AccountView>, input: Seq<u8>)
    requires
        well_formed(accounts),
        slots_fit(accounts, input),
        posts(accounts, input),
    ensures
        message_record(effect(accounts, input)[1].data).text == input,
        message_record(effect(accounts, input)[1].data).from == accounts[0].key,
{
    let after = effect(accounts, input)[1].data;
    assert(after.subrange(96, after.len() as int) =~= input);
    assert(after.subrange(32, 64) =~= accounts[0].key);
}

/// A payload that is not valid UTF-8 is never accepted and changes nothing.
/// Where the two required slots are there and authorized, the error is
/// `InvalidPayload` with the offset at which the payload stops being valid:
/// the bytes before it are valid text, and no longer prefix is.
pub proof fn law_invalid_text_is_rejected(accounts: Seq<AccountView>, input: Seq<u8>)
    requires
        !valid_utf8(input),
    ensures
        outcome(accounts, input) is Err,
        effect(accounts, input) == accounts,
        accounts.len() >= 2 && authorized(accounts) ==> outcome(accounts, input) == Err::<(), _>(
            InstructionError::InvalidPayload { valid_up_to: valid_up_to(input) as usize },
        ),
        is_valid_up_to(input, valid_up_to(input) as int),
        valid_up_to(input) < input.len(),
{
    lemma_valid_up_to(input, 0);
}

/// A post behind an existing message with a fourth slot marks that slot as
/// banned, whatever the slot holds and whoever posts, and leaves the creator
/// in it as it was.
pub proof fn law_ban_is_unguarded(accounts: Seq<AccountView>, input: Seq<u8>)
    requires
        well_formed(accounts),
        slots_fit(accounts, input),
        posts(accounts, input),
        links(accounts),
        is_unlinked(accounts),
        bans(accounts),
    ensures
        user_record(effect(accounts, input)[3].data).banned,
        user_record(effect(accounts, input)[3].data).creator == user_record(
            accounts[3].data,
        ).creator,
{
    let after = effect(accounts, input)[3].data;
    assert(after.subrange(1, 33) =~= accounts[3].data.subrange(1, 33));
}

/// The moderation flag is never cleared: a user slot that is marked as
/// banned stays so under every instruction, wherever in the list it stands.
pub proof fn law_ban_is_never_cleared(accounts: Seq<AccountView>, input: Seq<u8>, i: int)
    requires
        well_formed(accounts),
        slots_fit(accounts, input),
        0 <= i < accounts.len(),
        accounts[i].data.len() == USER_LEN,
        user_record(accounts[i].data).banned,
    ensures
        user_record(effect(accounts, input)[i].data).banned,
{
}

/// No instruction is refused with `BannedUser`: the handler never reads the
/// flag.
pub proof fn law_banned_user_is_never_reported(accounts: Seq<AccountView>, input: Seq<u8>)
    ensures
        outcome(accounts, input) != Err::<(), _>(
            InstructionError::Feed(MessageFeedError::BannedUser),
        ),
{
}

} // verus!
