//! The persistent state of the message board and its well-formedness
//! invariant: the stipend registry, the id allocator, the message store
//! and the like ledger, held as one plain value that every operation
//! receives explicitly.

use vstd::prelude::*;

verus! {

/// A quantity of a named currency: the shape of the stipend recorded at
/// initialization and of the funds a caller attaches to a call.
#[derive(Debug, PartialEq)]
pub struct Coin {
    pub denom: String,
    pub amount: u128,
}

/// The mathematical content of a [`Coin`]: its denomination as a character
/// sequence and its amount.
#[verifier::ext_equal]
pub ghost struct CoinView {
    pub denom: Seq<char>,
    pub amount: u128,
}

impl View for Coin {
    type V = CoinView;

    open spec fn view(&self) -> CoinView {
        CoinView { denom: self.denom@, amount: self.amount }
    }
}

impl DeepView for Coin {
    type V = CoinView;

    open spec fn deep_view(&self) -> CoinView {
        self.view()
    }
}

impl Clone for Coin {
    fn clone(&self) -> (r: Coin)
        ensures
            r@ == self@,
    {
        Coin { denom: self.denom.clone(), amount: self.amount }
    }
}

/// A stored message: assigned id, the caller that created it, and its
/// free-form topic and body. Messages are never updated or deleted.
#[derive(Debug, PartialEq)]
pub struct Message {
    pub id: u128,
    pub owner: String,
    pub topic: String,
    pub message: String,
}

/// The mathematical content of a [`Message`].
#[verifier::ext_equal]
pub ghost struct MessageView {
    pub id: u128,
    pub owner: Seq<char>,
    pub topic: Seq<char>,
    pub message: Seq<char>,
}

impl View for Message {
    type V = MessageView;

    open spec fn view(&self) -> MessageView {
        MessageView {
            id: self.id,
            owner: self.owner@,
            topic: self.topic@,
            message: self.message@,
        }
    }
}

impl DeepView for Message {
    type V = MessageView;

    open spec fn deep_view(&self) -> MessageView {
        self.view()
    }
}

impl Clone for Message {
    fn clone(&self) -> (r: Message)
        ensures
            r@ == self@,
    {
        Message {
            id: self.id,
            owner: self.owner.clone(),
            topic: self.topic.clone(),
            message: self.message.clone(),
        }
    }
}

/// The like counter of one message: the message's id and how many likes it
/// has accumulated. Created with count 1 on the first like.
#[derive(Debug, Clone, Copy, PartialEq, Eq, Structural)]
pub struct Like {
    pub id: u128,
    pub count: u128,
}

/// The count recorded in the like ledger for message `id`, or `None` when no
/// like has ever been recorded for it.
pub open spec fn like_count_of(likes: Seq<Like>, id: u128) -> Option<u128>
    decreases likes.len(),
{
    if likes.len() == 0 {
        None
    } else if likes[0].id == id {
        Some(likes[0].count)
    } else {
        like_count_of(likes.drop_first(), id)
    }
}

/// The ledger's count for `id` is the count stored at the first entry for
/// `id`; entries before it do not mention `id`.
pub proof fn lemma_like_count_at_first(likes: Seq<Like>, id: u128, i: int)
    requires
        0 <= i < likes.len(),
        likes[i].id == id,
        forall|j: int| 0 <= j < i ==> likes[j].id != id,
    ensures
        like_count_of(likes, id) == Some(likes[i].count),
    decreases i,
{
    if i > 0 {
        assert(forall|j: int| 0 <= j < i - 1 ==> likes.drop_first()[j].id != id);
        lemma_like_count_at_first(likes.drop_first(), id, i - 1);
    }
}

/// A ledger none of whose entries mention `id` records no count for `id`.
pub proof fn lemma_like_count_absent(likes: Seq<Like>, id: u128)
    requires
        forall|j: int| 0 <= j < likes.len() ==> likes[j].id != id,
    ensures
        like_count_of(likes, id) is None,
    decreases likes.len(),
{
    if likes.len() > 0 {
        assert(forall|j: int| 0 <= j < likes.len() - 1 ==> likes.drop_first()[j].id != id);
        lemma_like_count_absent(likes.drop_first(), id);
    }
}

/// Overwriting an entry in place leaves every other id's count as it was.
pub proof fn lemma_like_count_update_other(likes: Seq<Like>, i: int, l2: Like, other: u128)
    requires
        0 <= i < likes.len(),
        likes[i].id == l2.id,
        other != l2.id,
    ensures
        like_count_of(likes.update(i, l2), other) == like_count_of(likes, other),
    decreases likes.len(),
{
    let upd = likes.update(i, l2);
    if i == 0 {
        assert(upd.drop_first() =~= likes.drop_first());
    } else {
        assert(upd[0] == likes[0]);
        if likes[0].id != other {
            assert(upd.drop_first() =~= likes.drop_first().update(i - 1, l2));
            lemma_like_count_update_other(likes.drop_first(), i - 1, l2, other);
        }
    }
}

/// Appending an entry leaves every other id's count as it was.
pub proof fn lemma_like_count_push_other(likes: Seq<Like>, l: Like, other: u128)
    requires
        other != l.id,
    ensures
        like_count_of(likes.push(l), other) == like_count_of(likes, other),
    decreases likes.len(),
{
    let p = likes.push(l);
    if likes.len() == 0 {
        assert(p[0] == l);
        assert(p.drop_first() =~= Seq::<Like>::empty());
        assert(like_count_of(p.drop_first(), other) is None);
        assert(like_count_of(likes, other) is None);
    } else {
        assert(p[0] == likes[0]);
        if likes[0].id != other {
            assert(p.drop_first() =~= likes.drop_first().push(l));
            lemma_like_count_push_other(likes.drop_first(), l, other);
        }
    }
}

/// The whole persistent state of the board. `current_id` and `stipend` are
/// `None` until initialization; `messages` is append-only with ids assigned
/// in order; `likes` holds at most one counter per message id.
pub struct Store {
    /// The next message id to assign; `None` before initialization.
    pub current_id: Option<u128>,
    /// The payment required for posting and for liking; `None` before
    /// initialization.
    pub stipend: Option<Coin>,
    /// All stored messages, in order of creation.
    pub messages: Vec<Message>,
    /// One like counter per message that has been liked at least once.
    pub likes: Vec<Like>,
}

impl Store {
    /// The messages as a sequence of their mathematical contents.
    pub open spec fn msgs(self) -> Seq<MessageView> {
        self.messages.deep_view()
    }

    /// The stipend as a mathematical value.
    pub open spec fn stip(self) -> Option<CoinView> {
        match self.stipend {
            Some(c) => Some(c@),
            None => None,
        }
    }

    /// Well-formedness: the id allocator counts the stored messages, whose
    /// ids are exactly `0, 1, 2, ...` in storage order; initialization set
    /// the stipend and the counter together and checked the stipend; the
    /// like ledger references existing messages, one counter per id, each
    /// count at least 1.
    pub open spec fn wf(self) -> bool {
        &&& match self.current_id {
            Some(n) => n == self.messages@.len(),
            None => self.messages@.len() == 0 && self.likes@.len() == 0,
        }
        &&& (self.current_id is Some <==> self.stipend is Some)
        &&& match self.stipend {
            Some(c) => c.denom@.len() > 0 && c.amount >= 1,
            None => true,
        }
        &&& forall|i: int|
            0 <= i < self.messages@.len() ==> (#[trigger] self.messages@[i]).id == i
        &&& forall|i: int, j: int|
            0 <= i < j < self.likes@.len() ==> (#[trigger] self.likes@[i]).id != (
            #[trigger] self.likes@[j]).id
        &&& forall|i: int|
            0 <= i < self.likes@.len() ==> (#[trigger] self.likes@[i]).id
                < self.messages@.len() && self.likes@[i].count >= 1
    }

    /// Checks well-formedness at run time, for a store assembled from
    /// parts that were persisted outside the library.
    pub fn check_wf(&self) -> (b: bool)
        ensures
            b == self.wf(),
    {
        let ok_counter = match self.current_id {
            Some(n) => n == self.messages.len() as u128,
            None => self.messages.len() == 0 && self.likes.len() == 0,
        };
        if !ok_counter {
            return false;
        }
        if self.current_id.is_some() != self.stipend.is_some() {
            return false;
        }
        match &self.stipend {
            Some(c) => {
                if c.denom.as_str().is_empty() || c.amount < 1 {
                    return false;
                }
            },
            None => {},
        }
        let mut i: usize = 0;
        while i < self.messages.len()
            invariant
                i <= self.messages@.len(),
                forall|k: int| 0 <= k < i ==> (#[trigger] self.messages@[k]).id == k,
            decreases self.messages@.len() - i,
        {
            if self.messages[i].id != i as u128 {
                return false;
            }
            i = i + 1;
        }
        let mut i: usize = 0;
        while i < self.likes.len()
            invariant
                i <= self.likes@.len(),
                forall|k: int|
                    0 <= k < i ==> (#[trigger] self.likes@[k]).id < self.messages@.len()
                        && self.likes@[k].count >= 1,
                forall|k1: int, k2: int|
                    0 <= k1 < k2 < i ==> (#[trigger] self.likes@[k1]).id != (
                    #[trigger] self.likes@[k2]).id,
            decreases self.likes@.len() - i,
        {
            let l = self.likes[i];
            proof {
                assert(l == self.likes@[i as int]);
            }
            if l.id >= self.messages.len() as u128 || l.count < 1 {
                return false;
            }
            let mut j: usize = 0;
            while j < i
                invariant
                    j <= i < self.likes@.len(),
                    l == self.likes@[i as int],
                    forall|k: int| 0 <= k < j ==> (#[trigger] self.likes@[k]).id != self.likes@[
                        i as int].id,
                decreases i - j,
            {
                if self.likes[j].id == l.id {
                    proof {
                        assert(self.likes@[j as int].id == self.likes@[i as int].id);
                    }
                    return false;
                }
                j = j + 1;
            }
            i = i + 1;
        }
        true
    }

    /// The fresh, uninitialized state: nothing persisted yet.
    pub fn new() -> (s: Store)
        ensures
            s.wf(),
            s.current_id is None,
            s.stipend is None,
            s.messages@ == Seq::<Message>::empty(),
            s.likes@ == Seq::<Like>::empty(),
    {
        Store { current_id: None, stipend: None, messages: Vec::new(), likes: Vec::new() }
    }
}

/// Assigned ids are exactly `0, 1, 2, ...` in call order: in every
/// well-formed store the i-th stored message carries id i, with no gaps
/// and no repeats.
pub proof fn lemma_ids_sequential(s: Store)
    requires
        s.wf(),
    ensures
        forall|i: int| 0 <= i < s.msgs().len() ==> (#[trigger] s.msgs()[i]).id == i,
{
    assert forall|i: int| 0 <= i < s.msgs().len() implies (#[trigger] s.msgs()[i]).id == i by {
        assert(s.msgs()[i] == s.messages@[i]@);
    }
}

/// Listing a well-formed store returns its messages in strictly
/// ascending-id order, which is the order of creation.
pub proof fn lemma_ids_ascending(s: Store)
    requires
        s.wf(),
    ensures
        forall|i: int, j: int|
            0 <= i < j < s.msgs().len() ==> (#[trigger] s.msgs()[i]).id < (
            #[trigger] s.msgs()[j]).id,
{
    lemma_ids_sequential(s);
}

} // verus!
