//! A chain of messages, as the handler builds it one post after another.
//!
//! The first post starts the chain; every later post is made behind the
//! message that was posted last. `feed` is the list of message slots that
//! such a run of accepted posts leaves, oldest first.

use vstd::prelude::*;
use crate::account::{well_formed, AccountView};
use crate::laws::{law_link_propagates_creator, law_root_is_its_own_creator};
use crate::processor::{effect, outcome, slots_fit};
use crate::record::message_record;

verus! {

/// One post: the slot of the user who posts, the slot that receives the
/// message, the slot of a user to ban with it if any, and the payload.
pub struct Post {
    pub user: AccountView,
    pub message: AccountView,
    pub ban: Option<AccountView>,
    pub input: Seq<u8>,
}

/// The slots of the instruction that makes `post` behind the last message of
/// `chain`, or as the first message where the chain is empty.
pub open spec fn post_accounts(chain: Seq<AccountView>, post: Post) -> Seq<AccountView> {
    if chain.len() == 0 {
        seq![post.user, post.message]
    } else {
        match post.ban {
            Some(target) => seq![post.user, post.message, chain.last(), target],
            None => seq![post.user, post.message, chain.last()],
        }
    }
}

/// The handler accepts `post` behind `chain`.
pub open spec fn accepted(chain: Seq<AccountView>, post: Post) -> bool {
    &&& well_formed(post_accounts(chain, post))
    &&& slots_fit(post_accounts(chain, post), post.input)
    &&& post.input.len() > 0
    &&& outcome(post_accounts(chain, post), post.input) is Ok
}

/// The chain after `post` was made behind it: the last message as the
/// handler left it, and the new message behind it.
pub open spec fn extended(chain: Seq<AccountView>, post: Post) -> Seq<AccountView> {
    let after = effect(post_accounts(chain, post), post.input);
    if chain.len() == 0 {
        seq![after[1]]
    } else {
        chain.drop_last().push(after[2]).push(after[1])
    }
}

/// The chain that the posts build, one behind the other.
pub open spec fn feed(posts: Seq<Post>) -> Seq<AccountView>
    decreases posts.len(),
{
    if posts.len() == 0 {
        Seq::empty()
    } else {
        extended(feed(posts.drop_last()), posts.last())
    }
}

/// The handler accepts each of the posts behind the chain of those before
/// it.
pub open spec fn all_accepted(posts: Seq<Post>) -> bool
    decreases posts.len(),
{
    posts.len() > 0 ==> all_accepted(posts.drop_last()) && accepted(
        feed(posts.drop_last()),
        posts.last(),
    )
}

/// Every message of a chain carries the identity of the first as its
/// creator, and links to the message that was posted after it.
///
/// Whatever run of posts the handler accepted, the chain holds one slot per
/// post under the identity of its message slot; the creator in each is the
/// identity of the first message; and the successor link in each but the
/// last is the identity of the next.
pub proof fn law_chain_shares_its_root(posts: Seq<Post>)
    requires
        all_accepted(posts),
    ensures
        feed(posts).len() == posts.len(),
        forall|i: int|
            0 <= i < posts.len() ==> (#[trigger] feed(posts)[i]).key == posts[i].message.key,
        forall|i: int|
            0 <= i < posts.len() ==> message_record((#[trigger] feed(posts)[i]).data).creator
                == posts[0].message.key,
        forall|i: int|
            0 <= i < posts.len() - 1 ==> message_record(
                (#[trigger] feed(posts)[i]).data,
            ).next_message == posts[i + 1].message.key,
    decreases posts.len(),
{
    if posts.len() > 0 {
        let before = posts.drop_last();
        let post = posts.last();
        let chain = feed(before);
        law_chain_shares_its_root(before);
        let accounts = post_accounts(chain, post);
        if chain.len() == 0 {
            law_root_is_its_own_creator(accounts, post.input);
        } else {
            law_link_propagates_creator(accounts, post.input);
            let n = chain.len() as int;
            assert forall|i: int| 0 <= i < posts.len() implies message_record(
                (#[trigger] feed(posts)[i]).data,
            ).creator == posts[0].message.key by {
                if i < n - 1 {
                    assert(feed(posts)[i] == chain[i]);
                } else {
                    assert(message_record(chain[n - 1].data).creator == before[0].message.key);
                }
            }
            assert forall|i: int| 0 <= i < posts.len() - 1 implies message_record(
                (#[trigger] feed(posts)[i]).data,
            ).next_message == posts[i + 1].message.key by {
                if i < n - 1 {
                    assert(feed(posts)[i] == chain[i]);
                    assert(posts[i + 1] == before[i + 1]);
                }
            }
            assert forall|i: int| 0 <= i < posts.len() implies (#[trigger] feed(posts)[i]).key
                == posts[i].message.key by {
                if i < n - 1 {
                    assert(feed(posts)[i] == chain[i]);
                    assert(posts[i] == before[i]);
                } else if i == n - 1 {
                    assert(chain[i].key == before[i].message.key);
                }
            }
        }
    }
}

} // verus!
