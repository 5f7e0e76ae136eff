//! The two record layouts, as views over the bytes of a slot.
//!
//! A user record is a flag byte followed by one identity. A message record
//! is three identities followed by the text, which fills the rest of the
//! slot. A view splits a buffer into one mutable range per field: the ranges
//! do not overlap, so a write to one field leaves every other byte of the
//! buffer as it was.

use vstd::prelude::*;
use crate::bytes::KEY_LEN;

verus! {

/// Size in bytes of a user record.
pub const USER_LEN: usize = 33;

/// Offset of the author in a message record.
pub const FROM_OFFSET: usize = 32;

/// Offset of the chain root in a message record.
pub const CREATOR_OFFSET: usize = 64;

/// Size in bytes of a message record without its text, which is also the
/// offset of the text.
pub const MESSAGE_HEADER_LEN: usize = 96;

/// The flag byte that marks a user as banned.
pub const BANNED: u8 = 1;

/// A user record as a mathematical value.
#[verifier::ext_equal]
pub struct UserRecord {
    /// The moderation flag.
    pub banned: bool,
    /// The root of the chain that the user may post into.
    pub creator: Seq<u8>,
}

/// A message record as a mathematical value.
#[verifier::ext_equal]
pub struct MessageRecord {
    /// The message that follows this one; zero while there is none.
    pub next_message: Seq<u8>,
    /// The user who wrote the message.
    pub from: Seq<u8>,
    /// The message that started the chain.
    pub creator: Seq<u8>,
    /// The text of the message.
    pub text: Seq<u8>,
}

/// The user record that a buffer of at least `USER_LEN` bytes holds.
pub open spec fn user_record(data: Seq<u8>) -> UserRecord {
    UserRecord { banned: data[0] != 0, creator: data.subrange(1, USER_LEN as int) }
}

/// The message record that a buffer of at least `MESSAGE_HEADER_LEN` bytes
/// holds.
pub open spec fn message_record(data: Seq<u8>) -> MessageRecord {
    MessageRecord {
        next_message: data.subrange(0, FROM_OFFSET as int),
        from: data.subrange(FROM_OFFSET as int, CREATOR_OFFSET as int),
        creator: data.subrange(CREATOR_OFFSET as int, MESSAGE_HEADER_LEN as int),
        text: data.subrange(MESSAGE_HEADER_LEN as int, data.len() as int),
    }
}

/// The bytes of a user slot after its flag byte and its creator were
/// replaced. Bytes past the record stay.
pub open spec fn user_bytes(banned: u8, creator: Seq<u8>, data: Seq<u8>) -> Seq<u8> {
    seq![banned] + creator + data.subrange(USER_LEN as int, data.len() as int)
}

/// The bytes of a message slot that holds the four fields in order.
pub open spec fn message_bytes(
    next_message: Seq<u8>,
    from: Seq<u8>,
    creator: Seq<u8>,
    text: Seq<u8>,
) -> Seq<u8> {
    next_message + from + creator + text
}

/// `data` with the creator of the user record replaced.
pub open spec fn with_user_creator(data: Seq<u8>, creator: Seq<u8>) -> Seq<u8> {
    user_bytes(data[0], creator, data)
}

/// `data` with the user record marked as banned.
pub open spec fn with_banned(data: Seq<u8>) -> Seq<u8> {
    user_bytes(BANNED, user_record(data).creator, data)
}

/// `data` with the successor link of the message record replaced.
pub open spec fn with_next_message(data: Seq<u8>, next_message: Seq<u8>) -> Seq<u8> {
    let m = message_record(data);
    message_bytes(next_message, m.from, m.creator, m.text)
}

/// `data` with the author of the message record replaced.
pub open spec fn with_from(data: Seq<u8>, from: Seq<u8>) -> Seq<u8> {
    let m = message_record(data);
    message_bytes(m.next_message, from, m.creator, m.text)
}

/// `data` with the chain root of the message record replaced.
pub open spec fn with_creator(data: Seq<u8>, creator: Seq<u8>) -> Seq<u8> {
    let m = message_record(data);
    message_bytes(m.next_message, m.from, creator, m.text)
}

/// `data` with the text of the message record replaced.
pub open spec fn with_text(data: Seq<u8>, text: Seq<u8>) -> Seq<u8> {
    let m = message_record(data);
    message_bytes(m.next_message, m.from, m.creator, text)
}

/// The fields of a message record cover its buffer exactly once: put back
/// together in order, they are the buffer.
pub proof fn law_message_fields_cover(data: Seq<u8>)
    requires
        data.len() >= MESSAGE_HEADER_LEN,
    ensures
        ({
            let m = message_record(data);
            message_bytes(m.next_message, m.from, m.creator, m.text) == data
        }),
{
    let m = message_record(data);
    assert(message_bytes(m.next_message, m.from, m.creator, m.text) =~= data);
}

/// The fields of a user record and the bytes behind it cover its buffer
/// exactly once.
pub proof fn law_user_fields_cover(data: Seq<u8>)
    requires
        data.len() >= USER_LEN,
    ensures
        user_bytes(data[0], user_record(data).creator, data) == data,
{
    assert(user_bytes(data[0], user_record(data).creator, data) =~= data);
}

/// What is written through the fields of a message record is what the
/// buffer holds as a record afterwards, and the buffer has the size of the
/// three identities and the text.
pub proof fn law_message_round_trip(
    next_message: Seq<u8>,
    from: Seq<u8>,
    creator: Seq<u8>,
    text: Seq<u8>,
)
    requires
        next_message.len() == KEY_LEN,
        from.len() == KEY_LEN,
        creator.len() == KEY_LEN,
    ensures
        message_record(message_bytes(next_message, from, creator, text)) == (MessageRecord {
            next_message,
            from,
            creator,
            text,
        }),
        message_bytes(next_message, from, creator, text).len() == MESSAGE_HEADER_LEN + text.len(),
{
    let m = message_record(message_bytes(next_message, from, creator, text));
    assert(m.next_message =~= next_message);
    assert(m.from =~= from);
    assert(m.creator =~= creator);
    assert(m.text =~= text);
}

/// What is written through the fields of a user record is what the buffer
/// holds as a record afterwards; the buffer keeps its size and the bytes
/// behind the record.
pub proof fn law_user_round_trip(banned: u8, creator: Seq<u8>, data: Seq<u8>)
    requires
        creator.len() == KEY_LEN,
        data.len() >= USER_LEN,
    ensures
        user_record(user_bytes(banned, creator, data)) == (UserRecord {
            banned: banned != 0,
            creator,
        }),
        user_bytes(banned, creator, data).len() == data.len(),
        user_bytes(banned, creator, data).subrange(USER_LEN as int, data.len() as int)
            == data.subrange(USER_LEN as int, data.len() as int),
{
    let after = user_bytes(banned, creator, data);
    assert(user_record(after).creator =~= creator);
    assert(after.subrange(USER_LEN as int, data.len() as int) =~= data.subrange(
        USER_LEN as int,
        data.len() as int,
    ));
}

/// A write to one field of a message record changes that field and no
/// other.
pub proof fn law_message_writes_are_independent(data: Seq<u8>, key: Seq<u8>, text: Seq<u8>)
    requires
        data.len() >= MESSAGE_HEADER_LEN,
        key.len() == KEY_LEN,
    ensures
        message_record(with_next_message(data, key)) == (MessageRecord {
            next_message: key,
            ..message_record(data)
        }),
        message_record(with_from(data, key)) == (MessageRecord {
            from: key,
            ..message_record(data)
        }),
        message_record(with_creator(data, key)) == (MessageRecord {
            creator: key,
            ..message_record(data)
        }),
        message_record(with_text(data, text)) == (MessageRecord { text, ..message_record(data) }),
{
    let m = message_record(data);
    law_message_round_trip(key, m.from, m.creator, m.text);
    law_message_round_trip(m.next_message, key, m.creator, m.text);
    law_message_round_trip(m.next_message, m.from, key, m.text);
    law_message_round_trip(m.next_message, m.from, m.creator, text);
}

/// A write to one field of a user record changes that field and no other.
pub proof fn law_user_writes_are_independent(data: Seq<u8>, key: Seq<u8>)
    requires
        data.len() >= USER_LEN,
        key.len() == KEY_LEN,
    ensures
        user_record(with_user_creator(data, key)) == (UserRecord {
            creator: key,
            ..user_record(data)
        }),
        user_record(with_banned(data)) == (UserRecord { banned: true, ..user_record(data) }),
{
    law_user_round_trip(data[0], key, data);
    law_user_round_trip(BANNED, user_record(data).creator, data);
}

/// A user record laid over the bytes of a slot: one mutable range per field.
pub struct UserAccountData<'a> {
    /// The flag byte: zero while the user is not banned.
    pub banned: &'a mut u8,
    /// The root of the chain that the user may post into.
    pub creator: &'a mut [u8],
}

impl<'a> View for UserAccountData<'a> {
    type V = UserRecord;

    open spec fn view(&self) -> UserRecord {
        UserRecord { banned: *self.banned != 0, creator: self.creator@ }
    }
}

impl<'a> UserAccountData<'a> {
    /// Lays a user record over `data`.
    ///
    /// The fields are the current contents of the buffer, and whatever is
    /// written through them is what the buffer holds afterwards: the flag in
    /// its first byte, the creator in the next `KEY_LEN` bytes, and behind
    /// them what was there before.
    pub fn new(data: &'a mut [u8]) -> (user: Self)
        requires
            old(data).len() >= USER_LEN,
        ensures
            user@ == user_record(old(data)@),
            *user.banned == old(data)@[0],
            user.creator@.len() == KEY_LEN,
            final(data)@ == user_bytes(*final(user.banned), final(user.creator)@, old(data)@),
    {
        let (banned, creator) = data.split_at_mut(1);
        let (creator, _) = creator.split_at_mut(KEY_LEN);
        let banned = banned.first_mut().unwrap();
        UserAccountData { banned, creator }
    }
}

/// A message record laid over the bytes of a slot: one mutable range per
/// field.
pub struct MessageAccountData<'a> {
    /// The message that follows this one; zero while there is none.
    pub next_message: &'a mut [u8],
    /// The user who wrote the message.
    pub from: &'a mut [u8],
    /// The message that started the chain.
    pub creator: &'a mut [u8],
    /// The text: the rest of the slot.
    pub text: &'a mut [u8],
}

impl<'a> View for MessageAccountData<'a> {
    type V = MessageRecord;

    open spec fn view(&self) -> MessageRecord {
        MessageRecord {
            next_message: self.next_message@,
            from: self.from@,
            creator: self.creator@,
            text: self.text@,
        }
    }
}

impl<'a> MessageAccountData<'a> {
    /// Lays a message record over `data`.
    ///
    /// The fields are the current contents of the buffer, and whatever is
    /// written through them is what the buffer holds afterwards: the four
    /// fields in order, covering the buffer exactly.
    pub fn new(data: &'a mut [u8]) -> (message: Self)
        requires
            old(data).len() >= MESSAGE_HEADER_LEN,
        ensures
            message@ == message_record(old(data)@),
            message.next_message@.len() == KEY_LEN,
            message.from@.len() == KEY_LEN,
            message.creator@.len() == KEY_LEN,
            message.text@.len() == old(data)@.len() - MESSAGE_HEADER_LEN,
            final(data)@ == message_bytes(
                final(message.next_message)@,
                final(message.from)@,
                final(message.creator)@,
                final(message.text)@,
            ),
    {
        let (next_message, rest) = data.split_at_mut(KEY_LEN);
        let (from, rest) = rest.split_at_mut(KEY_LEN);
        let (creator, text) = rest.split_at_mut(KEY_LEN);
        MessageAccountData { next_message, from, creator, text }
    }
}

} // verus!
