use message_feed::account::{next_account, Account};
use message_feed::error::{InstructionError, MessageFeedError};
use message_feed::text::validate;

#[test]
fn codes_follow_declaration_order() {
    assert_eq!(MessageFeedError::BannedUser.code(), 0);
    assert_eq!(MessageFeedError::NextMessageExists.code(), 1);
    assert_eq!(MessageFeedError::CreatorMismatch.code(), 2);
}

#[test]
fn from_code_decodes_known_codes_only() {
    assert_eq!(MessageFeedError::from_code(0), Some(MessageFeedError::BannedUser));
    assert_eq!(MessageFeedError::from_code(1), Some(MessageFeedError::NextMessageExists));
    assert_eq!(MessageFeedError::from_code(2), Some(MessageFeedError::CreatorMismatch));
    assert_eq!(MessageFeedError::from_code(3), None);
    assert_eq!(MessageFeedError::from_code(u32::MAX), None);
}

#[test]
fn code_round_trip() {
    for kind in [
        MessageFeedError::BannedUser,
        MessageFeedError::NextMessageExists,
        MessageFeedError::CreatorMismatch,
    ] {
        assert_eq!(MessageFeedError::from_code(kind.code()), Some(kind));
    }
}

#[test]
fn messages() {
    assert_eq!(MessageFeedError::BannedUser.message(), "User is banned");
    assert_eq!(MessageFeedError::NextMessageExists.message(), "Next message already exists");
    assert_eq!(MessageFeedError::CreatorMismatch.message(), "Creator mismatch");
}

#[test]
fn type_of_names_the_enum() {
    assert_eq!(MessageFeedError::type_of(), "MessageFeedError");
}

#[test]
fn feed_error_converts_into_instruction_error() {
    let e: InstructionError = MessageFeedError::CreatorMismatch.into();
    assert_eq!(e, InstructionError::Feed(MessageFeedError::CreatorMismatch));
    assert_eq!(
        InstructionError::from(MessageFeedError::BannedUser),
        InstructionError::Feed(MessageFeedError::BannedUser)
    );
}

#[test]
fn validate_accepts_valid_text() {
    assert_eq!(validate(b""), Ok(()));
    assert_eq!(validate(b"hello"), Ok(()));
    assert_eq!(validate("π ≈ 3.14 🙂".as_bytes()), Ok(()));
    assert_eq!(validate(&[0x00, 0x7f]), Ok(()));
}

#[test]
fn validate_reports_first_invalid_offset() {
    assert_eq!(validate(&[0xff]), Err(InstructionError::InvalidPayload { valid_up_to: 0 }));
    assert_eq!(
        validate(&[b'h', b'i', 0xff, b'!']),
        Err(InstructionError::InvalidPayload { valid_up_to: 2 })
    );
    assert_eq!(
        validate(&[b'a', 0xc3, 0xa9, 0x80]),
        Err(InstructionError::InvalidPayload { valid_up_to: 3 })
    );
}

#[test]
fn validate_rejects_truncated_overlong_and_surrogate_forms() {
    assert_eq!(
        validate(&[b'a', 0xe2, 0x82]),
        Err(InstructionError::InvalidPayload { valid_up_to: 1 })
    );
    assert_eq!(validate(&[0xc0, 0x80]), Err(InstructionError::InvalidPayload { valid_up_to: 0 }));
    assert_eq!(
        validate(&[b'x', 0xed, 0xa0, 0x80]),
        Err(InstructionError::InvalidPayload { valid_up_to: 1 })
    );
    assert_eq!(
        validate(&[0xf4, 0x90, 0x80, 0x80]),
        Err(InstructionError::InvalidPayload { valid_up_to: 0 })
    );
}

#[test]
fn next_account_takes_slots_in_order() {
    let mut accounts = vec![
        Account { key: [1; 32], is_signer: true, data: vec![1] },
        Account { key: [2; 32], is_signer: false, data: vec![2, 2] },
    ];
    {
        let (first, rest) = next_account(&mut accounts).unwrap();
        assert_eq!(first.key, [1; 32]);
        assert_eq!(rest.len(), 1);
        first.data[0] = 9;
        let (second, rest) = next_account(rest).unwrap();
        assert_eq!(second.key, [2; 32]);
        assert!(!second.is_signer);
        second.data[1] = 8;
        assert_eq!(next_account(rest).err(), Some(InstructionError::MissingAccount));
    }
    assert_eq!(accounts[0].data, vec![9]);
    assert_eq!(accounts[1].data, vec![2, 8]);
}

#[test]
fn next_account_fails_on_empty_list() {
    let mut accounts: Vec<Account> = Vec::new();
    assert_eq!(next_account(&mut accounts).err(), Some(InstructionError::MissingAccount));
}
