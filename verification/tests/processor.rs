use message_feed::account::Account;
use message_feed::error::{InstructionError, MessageFeedError};
use message_feed::processor::{consulted, fits, process_instruction};

const PROGRAM: [u8; 32] = [9; 32];

fn key(n: u8) -> [u8; 32] {
    [n; 32]
}

fn user(n: u8) -> Account {
    Account { key: key(n), is_signer: true, data: vec![0; 33] }
}

fn message(n: u8, capacity: usize) -> Account {
    Account { key: key(n), is_signer: true, data: vec![0; 96 + capacity] }
}

/// Runs an instruction on copies of the given slots and hands back the
/// result with the slots as the handler left them.
fn run(slots: &[&Account], input: &[u8]) -> (Result<(), InstructionError>, Vec<Account>) {
    let mut accounts: Vec<Account> = slots.iter().map(|a| (*a).clone()).collect();
    assert!(fits(&accounts, input));
    let result = process_instruction(&PROGRAM, &mut accounts, input);
    (result, accounts)
}

/// A user bound to the chain of `root`, and `root` posted with `text`.
fn chain_of_one(text: &[u8]) -> (Account, Account) {
    let (r, a) = run(&[&user(1), &message(10, text.len())], b"");
    assert_eq!(r, Ok(()));
    let (r, a) = run(&[&a[0], &a[1]], text);
    assert_eq!(r, Ok(()));
    (a[0].clone(), a[1].clone())
}

#[test]
fn registration_binds_user_to_message_identity() {
    let u = user(1);
    let m1 = message(10, 5);
    let (r, a) = run(&[&u, &m1], b"");
    assert_eq!(r, Ok(()));
    assert_eq!(a[0].data[0], 0);
    assert_eq!(&a[0].data[1..33], &key(10)[..]);
    assert_eq!(a[1], m1);
}

#[test]
fn registration_consults_no_further_slot() {
    let u = user(1);
    let m1 = message(10, 0);
    let odd = Account { key: key(7), is_signer: false, data: vec![3; 2] };
    let (r, a) = run(&[&u, &m1, &odd, &odd], b"");
    assert_eq!(r, Ok(()));
    assert_eq!(a[2], odd);
    assert_eq!(a[3], odd);
    assert_eq!(consulted(&[u, m1, odd.clone(), odd], b""), 2);
}

#[test]
fn registration_keeps_bytes_behind_the_user_record() {
    let mut u = user(1);
    u.data = vec![0xAA; 40];
    let (r, a) = run(&[&u, &message(10, 0)], b"");
    assert_eq!(r, Ok(()));
    assert_eq!(a[0].data.len(), 40);
    assert_eq!(a[0].data[0], 0xAA);
    assert_eq!(&a[0].data[1..33], &key(10)[..]);
    assert_eq!(&a[0].data[33..], &[0xAA; 7][..]);
}

#[test]
fn end_to_end_feed() {
    let u = user(1);
    let m1 = message(10, 5);
    let m2 = message(11, 5);

    let (r, a) = run(&[&u, &m1], b"");
    assert_eq!(r, Ok(()));
    let (u, m1) = (a[0].clone(), a[1].clone());
    assert_eq!(&u.data[1..33], &key(10)[..]);

    let (r, a) = run(&[&u, &m1], b"hello");
    assert_eq!(r, Ok(()));
    let (u, m1) = (a[0].clone(), a[1].clone());
    assert_eq!(&m1.data[0..32], &[0u8; 32][..]);
    assert_eq!(&m1.data[32..64], &key(1)[..]);
    assert_eq!(&m1.data[64..96], &key(10)[..]);
    assert_eq!(&m1.data[96..], b"hello");

    let (r, a) = run(&[&u, &m2, &m1], b"world");
    assert_eq!(r, Ok(()));
    let (u, m2, m1) = (a[0].clone(), a[1].clone(), a[2].clone());
    assert_eq!(&m1.data[0..32], &key(11)[..]);
    assert_eq!(&m1.data[32..64], &key(1)[..]);
    assert_eq!(&m1.data[64..96], &key(10)[..]);
    assert_eq!(&m1.data[96..], b"hello");
    assert_eq!(&m2.data[0..32], &[0u8; 32][..]);
    assert_eq!(&m2.data[32..64], &key(1)[..]);
    assert_eq!(&m2.data[64..96], &key(10)[..]);
    assert_eq!(&m2.data[96..], b"world");

    let m3 = message(12, 5);
    let (r, a) = run(&[&u, &m3, &m1], b"again");
    assert_eq!(r, Err(InstructionError::Feed(MessageFeedError::NextMessageExists)));
    assert_eq!(a[2], m1);
    assert_eq!(a[0], u);
}

#[test]
fn ban_target_is_banned_whatever_its_relation() {
    let (u, m1) = chain_of_one(b"hello");
    let m3 = message(12, 2);
    let mut target = user(50);
    target.is_signer = false;
    target.data[1..33].copy_from_slice(&key(77));
    let (r, a) = run(&[&u, &m3, &m1, &target], b"hi");
    assert_eq!(r, Ok(()));
    assert_eq!(a[3].data[0], 1);
    assert_eq!(&a[3].data[1..33], &key(77)[..]);
    assert_eq!(&a[2].data[0..32], &key(12)[..]);
    assert_eq!(consulted(&[u, m3, m1, target], b"hi"), 4);
}

#[test]
fn ban_is_written_before_the_scope_check() {
    let (_, m1) = chain_of_one(b"hello");
    let stranger = user(2);
    let m3 = message(12, 2);
    let target = user(50);
    let (r, a) = run(&[&stranger, &m3, &m1, &target], b"hi");
    assert_eq!(r, Err(InstructionError::Feed(MessageFeedError::CreatorMismatch)));
    assert_eq!(a[3].data[0], 1);
    assert_eq!(&a[2].data[0..32], &key(12)[..]);
    assert_eq!(a[0], stranger);
}

#[test]
fn banned_user_can_still_post() {
    let (mut u, m1) = chain_of_one(b"hello");
    u.data[0] = 1;
    let m2 = message(11, 3);
    let (r, a) = run(&[&u, &m2, &m1], b"yes");
    assert_eq!(r, Ok(()));
    assert_eq!(&a[1].data[96..], b"yes");
}

#[test]
fn missing_account_with_no_slot() {
    let (r, a) = run(&[], b"hello");
    assert_eq!(r, Err(InstructionError::MissingAccount));
    assert!(a.is_empty());
}

#[test]
fn missing_account_with_one_slot() {
    let u = user(1);
    let (r, a) = run(&[&u], b"");
    assert_eq!(r, Err(InstructionError::MissingAccount));
    assert_eq!(a[0], u);
    assert_eq!(consulted(&[u], b""), 1);
}

#[test]
fn missing_authorization_of_user() {
    let mut u = user(1);
    u.is_signer = false;
    let m1 = message(10, 5);
    let (r, a) = run(&[&u, &m1], b"hello");
    assert_eq!(r, Err(InstructionError::MissingAuthorization));
    assert_eq!(a, vec![u, m1]);
}

#[test]
fn missing_authorization_of_message() {
    let u = user(1);
    let mut m1 = message(10, 0);
    m1.is_signer = false;
    let (r, a) = run(&[&u, &m1], b"");
    assert_eq!(r, Err(InstructionError::MissingAuthorization));
    assert_eq!(a, vec![u, m1]);
}

#[test]
fn missing_authorization_comes_before_invalid_payload() {
    let mut u = user(1);
    u.is_signer = false;
    let m1 = message(10, 1);
    let (r, _) = run(&[&u, &m1], &[0xff]);
    assert_eq!(r, Err(InstructionError::MissingAuthorization));
}

#[test]
fn invalid_payload_reports_offset_and_changes_nothing() {
    let (u, _) = chain_of_one(b"hello");
    let m2 = message(11, 5);
    let (r, a) = run(&[&u, &m2], &[b'a', b'b', 0xff, b'c', b'd']);
    assert_eq!(r, Err(InstructionError::InvalidPayload { valid_up_to: 2 }));
    assert_eq!(a, vec![u, m2]);
}

#[test]
fn invalid_payload_at_the_first_byte() {
    let u = user(1);
    let m = message(10, 1);
    let (r, a) = run(&[&u, &m], &[0x80]);
    assert_eq!(r, Err(InstructionError::InvalidPayload { valid_up_to: 0 }));
    assert_eq!(a, vec![u, m]);
}

#[test]
fn invalid_payload_needs_no_fitting_text() {
    let u = user(1);
    let m = message(10, 0);
    let accounts = vec![u, m];
    assert!(fits(&accounts, &[b'a', 0xc3]));
    assert_eq!(consulted(&accounts, &[b'a', 0xc3]), 2);
    let (r, _) = run(&[&accounts[0], &accounts[1]], &[b'a', 0xc3]);
    assert_eq!(r, Err(InstructionError::InvalidPayload { valid_up_to: 1 }));
}

#[test]
fn multi_byte_text_is_written_byte_for_byte() {
    let text = "héllo wörld ✓".as_bytes();
    let (u, m1) = chain_of_one(text);
    assert_eq!(&m1.data[96..], text);
    assert_eq!(&m1.data[32..64], &u.key[..]);
}

#[test]
fn second_link_is_refused_and_leaves_partial_writes() {
    let (u, m1) = chain_of_one(b"hello");
    let m2 = message(11, 5);
    let (r, a) = run(&[&u, &m2, &m1], b"world");
    assert_eq!(r, Ok(()));
    let m1 = a[2].clone();

    let m3 = message(12, 3);
    let target = user(50);
    let (r, a) = run(&[&u, &m3, &m1, &target], b"new");
    assert_eq!(r, Err(InstructionError::Feed(MessageFeedError::NextMessageExists)));
    assert_eq!(a[0], u);
    assert_eq!(a[2], m1);
    assert_eq!(a[3], target);
    assert_eq!(&a[1].data[0..32], &[0u8; 32][..]);
    assert_eq!(&a[1].data[32..64], &key(1)[..]);
    assert_eq!(&a[1].data[64..96], &[0u8; 32][..]);
    assert_eq!(&a[1].data[96..], b"new");
    assert_eq!(consulted(&[u, m3, m1, target], b"new"), 3);
}

#[test]
fn creator_mismatch_for_unregistered_user() {
    let u = user(1);
    let m1 = message(10, 5);
    let (r, a) = run(&[&u, &m1], b"hello");
    assert_eq!(r, Err(InstructionError::Feed(MessageFeedError::CreatorMismatch)));
    assert_eq!(a[0], u);
    assert_eq!(&a[1].data[32..64], &key(1)[..]);
    assert_eq!(&a[1].data[64..96], &key(10)[..]);
    assert_eq!(&a[1].data[96..], b"hello");
}

#[test]
fn creator_mismatch_for_user_of_another_chain() {
    let (_, m1) = chain_of_one(b"hello");
    let (r, a) = run(&[&user(2), &message(20, 0)], b"");
    assert_eq!(r, Ok(()));
    let other = a[0].clone();
    let m2 = message(11, 5);
    let (r, a) = run(&[&other, &m2, &m1], b"world");
    assert_eq!(r, Err(InstructionError::Feed(MessageFeedError::CreatorMismatch)));
    assert_eq!(a[0], other);
    assert_eq!(&a[1].data[64..96], &key(10)[..]);
    assert_eq!(&a[2].data[0..32], &key(11)[..]);
}

#[test]
fn creator_propagates_along_a_chain_of_three() {
    let (u, m1) = chain_of_one(b"one");
    let (r, a) = run(&[&u, &message(11, 3), &m1], b"two");
    assert_eq!(r, Ok(()));
    let (m2, m1) = (a[1].clone(), a[2].clone());
    let (r, a) = run(&[&u, &message(12, 5), &m2], b"three");
    assert_eq!(r, Ok(()));
    let (m3, m2) = (a[1].clone(), a[2].clone());
    for m in [&m1, &m2, &m3] {
        assert_eq!(&m.data[64..96], &key(10)[..]);
        assert_eq!(&m.data[32..64], &key(1)[..]);
    }
    assert_eq!(&m1.data[0..32], &key(11)[..]);
    assert_eq!(&m2.data[0..32], &key(12)[..]);
    assert_eq!(&m3.data[0..32], &[0u8; 32][..]);
}

#[test]
fn slots_keep_identity_flag_and_size() {
    let (u, m1) = chain_of_one(b"hello");
    let m2 = message(11, 2);
    let target = user(50);
    let extra = Account { key: key(60), is_signer: false, data: vec![5; 3] };
    let before = vec![u, m2, m1, target, extra];
    let refs: Vec<&Account> = before.iter().collect();
    let (r, after) = run(&refs, b"ok");
    assert_eq!(r, Ok(()));
    assert_eq!(after.len(), before.len());
    for (b, a) in before.iter().zip(after.iter()) {
        assert_eq!(a.key, b.key);
        assert_eq!(a.is_signer, b.is_signer);
        assert_eq!(a.data.len(), b.data.len());
    }
    assert_eq!(after[4], before[4]);
}

#[test]
fn fits_rejects_short_slots() {
    let mut short_user = user(1);
    short_user.data.truncate(32);
    assert!(!fits(&[short_user.clone()], b""));
    assert!(!fits(&[short_user, message(10, 0)], b""));

    let mut short_message = message(10, 0);
    short_message.data.truncate(95);
    assert!(!fits(&[user(1), short_message], b""));

    let mut short_existing = message(11, 0);
    short_existing.data.truncate(95);
    assert!(!fits(&[user(1), message(10, 2), short_existing.clone()], b"hi"));
    assert!(fits(&[user(1), message(10, 0), short_existing], b""));

    let mut short_target = user(50);
    short_target.data.truncate(32);
    assert!(!fits(&[user(1), message(10, 2), message(11, 0), short_target.clone()], b"hi"));
    let mut linked = message(11, 0);
    linked.data[0] = 1;
    assert!(fits(&[user(1), message(10, 2), linked, short_target], b"hi"));
}

#[test]
fn fits_wants_text_of_the_payload_length() {
    assert!(fits(&[user(1), message(10, 5)], b"hello"));
    assert!(!fits(&[user(1), message(10, 4)], b"hello"));
    assert!(!fits(&[user(1), message(10, 6)], b"hello"));
    assert!(fits(&[user(1), message(10, 6)], b""));
    let mut unsigned = user(1);
    unsigned.is_signer = false;
    assert!(fits(&[unsigned, message(10, 6)], b"hello"));
}
