//! The transition engine: the three state-changing operations and the six
//! queries, each a total function from the persistent [`Store`] and the
//! call's inputs to the next state and an observable result.

use vstd::prelude::*;

use crate::error::{ContractError, StateItem, StdError};
use crate::msg::{
    Action, BankMsg, ExecuteMsg, InstantiateMsg, LikesResponse, MessageInfo, MessagesResponse,
    QueryMsg, QueryResponse, Response,
};
use crate::state::{
    lemma_like_count_absent, lemma_like_count_at_first, lemma_like_count_push_other,
    lemma_like_count_update_other, like_count_of, Coin, Like, Message, MessageView, Store,
};

verus! {

/// A stipend is acceptable when its denomination is non-empty and its
/// amount is at least 1.
pub open spec fn spec_stipend_valid(stip: Coin) -> bool {
    stip.denom@.len() > 0 && stip.amount >= 1
}

/// Attached funds match the stipend when they are exactly one coin of the
/// stipend's denomination and amount.
pub open spec fn spec_funds_ok(funds: Seq<Coin>, stip: Coin) -> bool {
    &&& funds.len() == 1
    &&& funds[0].denom@ == stip.denom@
    &&& funds[0].amount == stip.amount
}

/// The funds-mismatch error, carrying the expected denomination and amount.
pub open spec fn is_invalid_funds_err(r: Result<Response, ContractError>, stip: Coin) -> bool {
    r matches Err(ContractError::InvalidFundsMessage { val1, val2 }) && val1@ == stip.denom@
        && val2 == stip.amount
}

/// The error reported when an operation runs before initialization: the
/// named state item is not persisted yet.
pub open spec fn is_not_found_err(r: Result<Response, ContractError>, item: StateItem) -> bool {
    r == Err::<Response, ContractError>(ContractError::Std(StdError::NotFound { kind: item }))
}

/// Nothing observable about the store differs between `pre` and `post`.
pub open spec fn store_unchanged(pre: Store, post: Store) -> bool {
    &&& post.current_id == pre.current_id
    &&& post.stip() == pre.stip()
    &&& post.msgs() == pre.msgs()
    &&& post.likes@ == pre.likes@
}

/// A response that announces nothing and requests no transfer.
pub open spec fn is_empty_response(resp: Response) -> bool {
    &&& resp.action is None
    &&& resp.id is None
    &&& resp.sent_to is None
    &&& resp.messages@.len() == 0
}

/// A response announcing a successful post: the action that ran, the id it
/// assigned, and no transfer.
pub open spec fn is_post_response(resp: Response, action: Action, id: u128) -> bool {
    &&& resp.action == Some(action)
    &&& resp.id == Some(id)
    &&& resp.sent_to is None
    &&& resp.messages@.len() == 0
}

/// `post` is `pre` with one message appended for `sender`, and everything
/// else as it was; `r` announces the assigned id.
pub open spec fn posted(
    pre: Store,
    sender: String,
    topic: String,
    body: String,
    post: Store,
    r: Result<Response, ContractError>,
    action: Action,
) -> bool {
    &&& pre.current_id matches Some(id) ==> {
        &&& post.current_id == Some((id + 1) as u128)
        &&& post.msgs() == pre.msgs().push(
            Message { id, owner: sender, topic, message: body }@,
        )
        &&& post.stip() == pre.stip()
        &&& post.likes@ == pre.likes@
        &&& r matches Ok(resp) && is_post_response(resp, action, id)
    }
}

/// Everything `add_message` promises: reject before initialization or on a
/// funds mismatch with the store untouched, else append the message under
/// the next id.
pub open spec fn add_message_outcome(
    pre: Store,
    info: MessageInfo,
    topic: String,
    message: String,
    post: Store,
    r: Result<Response, ContractError>,
) -> bool {
    &&& pre.current_id is None ==> is_not_found_err(r, StateItem::CurrentId) && store_unchanged(
        pre, post)
    &&& pre.current_id is Some ==> {
        let stip = pre.stipend->0;
        if spec_funds_ok(info.funds@, stip) {
            posted(pre, info.sender, topic, message, post, r, Action::AddMessage)
        } else {
            is_invalid_funds_err(r, stip) && store_unchanged(pre, post)
        }
    }
}

/// Everything `add_message_without_funds` promises: as `add_message`, with
/// no funds gate at all.
pub open spec fn add_message_without_funds_outcome(
    pre: Store,
    info: MessageInfo,
    topic: String,
    message: String,
    post: Store,
    r: Result<Response, ContractError>,
) -> bool {
    &&& pre.current_id is None ==> is_not_found_err(r, StateItem::CurrentId) && store_unchanged(
        pre, post)
    &&& pre.current_id is Some ==> posted(pre, info.sender, topic, message, post, r,
        Action::AddMessageWithoutFunds)
}

/// The count the ledger holds for `id` after one more like: one more than
/// before, or 1 when no like was recorded yet.
pub open spec fn new_like_count(pre_likes: Seq<Like>, id: u128) -> u128 {
    match like_count_of(pre_likes, id) {
        Some(c) => (c + 1) as u128,
        None => 1u128,
    }
}

/// `post` is `pre` with exactly one more like recorded for `id`: its count
/// grew by 1 (from 0 if absent), every other id's count is untouched, and
/// nothing else about the store changed.
pub open spec fn liked(pre: Store, id: u128, post: Store) -> bool {
    &&& like_count_of(post.likes@, id) == Some(new_like_count(pre.likes@, id))
    &&& forall|other: u128|
        other != id ==> #[trigger] like_count_of(post.likes@, other) == like_count_of(
            pre.likes@, other)
    &&& post.likes@.len() == pre.likes@.len() + (if like_count_of(pre.likes@, id) is Some {
        0int
    } else {
        1int
    })
    &&& post.msgs() == pre.msgs()
    &&& post.current_id == pre.current_id
    &&& post.stip() == pre.stip()
}

/// A response announcing a successful like: the liked id, the owner the
/// stipend was relayed to, and exactly one transfer, of the stipend, to
/// that owner.
pub open spec fn is_like_response(resp: Response, id: u128, owner: Seq<char>, stip: Coin) -> bool {
    &&& resp.action == Some(Action::MessageLike)
    &&& resp.id == Some(id)
    &&& resp.sent_to matches Some(s) && s@ == owner
    &&& resp.messages@.len() == 1
    &&& resp.messages@[0] matches BankMsg::Send { to_address, amount } && to_address@ == owner
        && amount@.len() == 1 && amount@[0]@ == stip@
}

/// Everything `like_message` promises: reject before initialization, on a
/// funds mismatch, or on an unknown id with the store untouched — the
/// funds are checked first — else record the like and request the relay
/// of the stipend to the message's owner.
pub open spec fn like_message_outcome(
    pre: Store,
    info: MessageInfo,
    id: u128,
    post: Store,
    r: Result<Response, ContractError>,
) -> bool {
    &&& pre.stipend is None ==> is_not_found_err(r, StateItem::Stipend) && store_unchanged(pre,
        post)
    &&& pre.stipend matches Some(stip) ==> if !spec_funds_ok(info.funds@, stip) {
        is_invalid_funds_err(r, stip) && store_unchanged(pre, post)
    } else if id >= pre.msgs().len() {
        (r matches Err(e) && e is InvalidMessageID) && store_unchanged(pre, post)
    } else {
        liked(pre, id, post) && (r matches Ok(resp) && is_like_response(resp, id,
            pre.msgs()[id as int].owner, stip))
    }
}

/// Liking one message twice: on a store with no like recorded for `id`,
/// the first successful like records count 1 and the second count 2 — and
/// in general each successful like moves the count from N - 1 to N.
pub proof fn lemma_like_twice(pre: Store, mid: Store, post: Store, id: u128)
    requires
        like_count_of(pre.likes@, id) is None,
        liked(pre, id, mid),
        liked(mid, id, post),
    ensures
        like_count_of(mid.likes@, id) == Some(1u128),
        like_count_of(post.likes@, id) == Some(2u128),
{
}

/// The N-th like yields count N: along any chain of stores in which each
/// step records one successful like of the same message, starting from a
/// store with no like recorded for it, the count recorded after the N-th
/// step is exactly N.
pub proof fn lemma_nth_like(stores: Seq<Store>, id: u128)
    requires
        1 <= stores.len() <= u128::MAX + 1,
        like_count_of(stores.first().likes@, id) is None,
        forall|i: int|
            0 <= i < stores.len() - 1 ==> liked(#[trigger] stores[i], id, stores[i + 1]),
    ensures
        stores.len() == 1 ==> like_count_of(stores.last().likes@, id) is None,
        stores.len() > 1 ==> like_count_of(stores.last().likes@, id) == Some(
            (stores.len() - 1) as u128,
        ),
    decreases stores.len(),
{
    if stores.len() > 1 {
        let prefix = stores.drop_last();
        assert(prefix.first() == stores.first());
        assert(forall|i: int|
            0 <= i < prefix.len() - 1 ==> liked(#[trigger] prefix[i], id, prefix[i + 1]));
        lemma_nth_like(prefix, id);
        assert(liked(stores[stores.len() - 2], id, stores.last()));
    }
}

/// Checks the attached funds against the stipend, in the order the board
/// fixes: coin count first, then denomination, then amount.
fn check_funds(funds: &Vec<Coin>, stip: &Coin) -> (ok: bool)
    ensures
        ok == spec_funds_ok(funds@, *stip),
{
    funds.len() == 1 && funds[0].denom == stip.denom && funds[0].amount == stip.amount
}

/// Sets up the board: persists the stipend and resets the id allocator to
/// 0, rejecting a stipend with an empty denomination or an amount below 1
/// before anything is persisted. Runs exactly once, before any other
/// operation.
pub fn instantiate(store: &mut Store, msg: InstantiateMsg) -> (r: Result<Response, ContractError>)
    requires
        old(store).wf(),
        old(store).current_id is None,
    ensures
        final(store).wf(),
        !spec_stipend_valid(msg.stipend) ==> {
            &&& r matches Err(e) && e is ValidCoinRequired
            &&& store_unchanged(*old(store), *final(store))
        },
        spec_stipend_valid(msg.stipend) ==> {
            &&& r matches Ok(resp) && is_empty_response(resp)
            &&& final(store).current_id == Some(0u128)
            &&& final(store).stip() == Some(msg.stipend@)
            &&& final(store).msgs() == old(store).msgs()
            &&& final(store).likes@ == old(store).likes@
        },
{
    if msg.stipend.denom.as_str().is_empty() || msg.stipend.amount < 1 {
        return Err(ContractError::ValidCoinRequired);
    }
    store.current_id = Some(0);
    store.stipend = Some(msg.stipend);
    Ok(Response::default())
}

/// Posts a message for the caller: validates the attached funds against
/// the stipend, then persists the message under the next id and advances
/// the allocator. Fails without any state change when the board is
/// uninitialized or the funds mismatch.
pub fn add_message(
    store: &mut Store,
    info: MessageInfo,
    topic: String,
    message: String,
) -> (r: Result<Response, ContractError>)
    requires
        old(store).wf(),
    ensures
        final(store).wf(),
        add_message_outcome(*old(store), info, topic, message, *final(store), r),
{
    let current_id = match store.current_id {
        Some(n) => n,
        None => {
            return Err(ContractError::Std(StdError::NotFound { kind: StateItem::CurrentId }));
        },
    };
    let (denom, amount) = match &store.stipend {
        Some(c) => (c.denom.clone(), c.amount),
        None => {
            return Err(ContractError::Std(StdError::NotFound { kind: StateItem::Stipend }));
        },
    };
    let stipend = Coin { denom, amount };
    if !check_funds(&info.funds, &stipend) {
        return Err(ContractError::InvalidFundsMessage {
            val1: stipend.denom,
            val2: stipend.amount,
        });
    }
    push_message(store, current_id, info.sender, topic, message);
    Ok(Response {
        action: Some(Action::AddMessage),
        id: Some(current_id),
        sent_to: None,
        messages: Vec::new(),
    })
}

/// Posts a message with no funds check at all: the deliberately permissive
/// second entry point, identical to `add_message` but for skipping the
/// stipend gate.
pub fn add_message_without_funds(
    store: &mut Store,
    info: MessageInfo,
    topic: String,
    message: String,
) -> (r: Result<Response, ContractError>)
    requires
        old(store).wf(),
    ensures
        final(store).wf(),
        add_message_without_funds_outcome(*old(store), info, topic, message, *final(store), r),
{
    let current_id = match store.current_id {
        Some(n) => n,
        None => {
            return Err(ContractError::Std(StdError::NotFound { kind: StateItem::CurrentId }));
        },
    };
    push_message(store, current_id, info.sender, topic, message);
    Ok(Response {
        action: Some(Action::AddMessageWithoutFunds),
        id: Some(current_id),
        sent_to: None,
        messages: Vec::new(),
    })
}

/// Appends the new message under the allocator's current id and advances
/// the allocator by exactly 1.
fn push_message(store: &mut Store, current_id: u128, sender: String, topic: String, body: String)
    requires
        old(store).wf(),
        old(store).current_id == Some(current_id),
    ensures
        final(store).wf(),
        final(store).current_id == Some((current_id + 1) as u128),
        final(store).msgs() == old(store).msgs().push(
            Message { id: current_id, owner: sender, topic, message: body }@,
        ),
        final(store).stip() == old(store).stip(),
        final(store).likes@ == old(store).likes@,
{
    // The counter equals the number of stored messages, which fits in a
    // usize, so advancing it cannot overflow the 128-bit counter.
    let message_count = store.messages.len();
    assert(current_id == message_count as u128);
    let new_message = Message { id: current_id, owner: sender, topic, message: body };
    let ghost pre_msgs = store.msgs();
    let ghost mv = new_message@;
    store.messages.push(new_message);
    store.current_id = Some(current_id + 1);
    proof {
        assert(store.msgs() =~= pre_msgs.push(mv));
    }
}

/// Finds the ledger entry for `id`, reporting the first index holding it
/// or that no entry does.
fn find_like(likes: &Vec<Like>, id: u128) -> (res: Option<usize>)
    ensures
        match res {
            Some(i) => i < likes@.len() && likes@[i as int].id == id && (forall|j: int|
                0 <= j < i ==> likes@[j].id != id),
            None => forall|j: int| 0 <= j < likes@.len() ==> likes@[j].id != id,
        },
{
    let mut i: usize = 0;
    while i < likes.len()
        invariant
            i <= likes@.len(),
            forall|j: int| 0 <= j < i ==> likes@[j].id != id,
        decreases likes@.len() - i,
    {
        if likes[i].id == id {
            return Some(i);
        }
        i = i + 1;
    }
    None
}

/// Likes a message: validates the attached funds against the stipend, then
/// resolves the message, records the like, and requests the relay of the
/// stipend to the message's owner. Fails without any state change when the
/// board is uninitialized, the funds mismatch, or no message has the given
/// id; the funds are checked first, so a bad id behind bad funds reports
/// the funds error.
pub fn like_message(store: &mut Store, info: MessageInfo, id: u128) -> (r: Result<
    Response,
    ContractError,
>)
    requires
        old(store).wf(),
        like_count_of(old(store).likes@, id) matches Some(c) ==> c < u128::MAX,
    ensures
        final(store).wf(),
        like_message_outcome(*old(store), info, id, *final(store), r),
{
    let (denom, amount) = match &store.stipend {
        Some(c) => (c.denom.clone(), c.amount),
        None => {
            return Err(ContractError::Std(StdError::NotFound { kind: StateItem::Stipend }));
        },
    };
    let stipend = Coin { denom, amount };
    if !check_funds(&info.funds, &stipend) {
        return Err(ContractError::InvalidFundsMessage {
            val1: stipend.denom,
            val2: stipend.amount,
        });
    }
    if id >= store.messages.len() as u128 {
        return Err(ContractError::InvalidMessageID);
    }
    let idx = id as usize;
    let owner = store.messages[idx].owner.clone();
    let ghost pre_likes = store.likes@;
    match find_like(&store.likes, id) {
        Some(i) => {
            let c = store.likes[i].count;
            proof {
                lemma_like_count_at_first(pre_likes, id, i as int);
            }
            store.likes[i] = Like { id, count: c + 1 };
            proof {
                lemma_like_count_at_first(store.likes@, id, i as int);
                assert forall|other: u128| other != id implies #[trigger] like_count_of(
                    store.likes@, other) == like_count_of(pre_likes, other) by {
                    lemma_like_count_update_other(pre_likes, i as int,
                        Like { id, count: (c + 1) as u128 }, other);
                }
            }
        },
        None => {
            proof {
                lemma_like_count_absent(pre_likes, id);
            }
            store.likes.push(Like { id, count: 1 });
            proof {
                lemma_like_count_at_first(store.likes@, id, pre_likes.len() as int);
                assert forall|other: u128| other != id implies #[trigger] like_count_of(
                    store.likes@, other) == like_count_of(pre_likes, other) by {
                    lemma_like_count_push_other(pre_likes, Like { id, count: 1u128 }, other);
                }
            }
        },
    }
    let mut relay: Vec<Coin> = Vec::new();
    relay.push(stipend);
    let mut bank: Vec<BankMsg> = Vec::new();
    bank.push(BankMsg::Send { to_address: owner.clone(), amount: relay });
    Ok(Response {
        action: Some(Action::MessageLike),
        id: Some(id),
        sent_to: Some(owner),
        messages: bank,
    })
}

/// Runs the state-changing operation a caller requested, dispatching on
/// the closed set of execute messages.
pub fn execute(store: &mut Store, info: MessageInfo, msg: ExecuteMsg) -> (r: Result<
    Response,
    ContractError,
>)
    requires
        old(store).wf(),
        msg matches ExecuteMsg::LikeMessage { id } ==> (like_count_of(old(store).likes@, id)
            matches Some(c) ==> c < u128::MAX),
    ensures
        final(store).wf(),
        match msg {
            ExecuteMsg::AddMessage { topic, message } => add_message_outcome(*old(store), info,
                topic, message, *final(store), r),
            ExecuteMsg::AddMessageWithoutFunds { topic, message } =>
                add_message_without_funds_outcome(*old(store), info, topic, message,
                *final(store), r),
            ExecuteMsg::LikeMessage { id } => like_message_outcome(*old(store), info, id,
                *final(store), r),
        },
{
    match msg {
        ExecuteMsg::AddMessage { topic, message } => add_message(store, info, topic, message),
        ExecuteMsg::AddMessageWithoutFunds { topic, message } => add_message_without_funds(
            store, info, topic, message),
        ExecuteMsg::LikeMessage { id } => like_message(store, info, id),
    }
}

/// The predicate `query_messages_by_addr` filters with: the message's
/// owner is the queried address.
pub open spec fn owner_pred(address: Seq<char>) -> spec_fn(MessageView) -> bool {
    |m: MessageView| m.owner == address
}

/// The predicate `query_messages_by_topic` filters with: the message's
/// topic is the queried topic.
pub open spec fn topic_pred(topic: Seq<char>) -> spec_fn(MessageView) -> bool {
    |m: MessageView| m.topic == topic
}

/// Taking one more element extends the filtered prefix by that element
/// exactly when the predicate accepts it.
proof fn lemma_filter_take_step<A>(s: Seq<A>, pred: spec_fn(A) -> bool, i: int)
    requires
        0 <= i < s.len(),
    ensures
        s.take(i + 1).filter(pred) == if pred(s[i]) {
            s.take(i).filter(pred).push(s[i])
        } else {
            s.take(i).filter(pred)
        },
{
    reveal(Seq::filter);
    assert(s.take(i + 1).drop_last() =~= s.take(i));
    assert(s.take(i + 1).last() == s[i]);
}

/// Returns the id the allocator will assign next, or reports that the
/// board is uninitialized.
pub fn query_current_id(store: &Store) -> (r: Result<u128, StdError>)
    ensures
        match store.current_id {
            Some(n) => r == Ok::<u128, StdError>(n),
            None => r == Err::<u128, StdError>(StdError::NotFound { kind: StateItem::CurrentId }),
        },
{
    match store.current_id {
        Some(n) => Ok(n),
        None => Err(StdError::NotFound { kind: StateItem::CurrentId }),
    }
}

/// Returns every stored message, in ascending-id order.
pub fn query_all_messages(store: &Store) -> (r: Result<MessagesResponse, StdError>)
    ensures
        r matches Ok(resp) && resp.messages.deep_view() == store.msgs(),
{
    let mut out: Vec<Message> = Vec::new();
    let mut i: usize = 0;
    while i < store.messages.len()
        invariant
            i <= store.messages@.len(),
            out.deep_view() == store.msgs().take(i as int),
        decreases store.messages@.len() - i,
    {
        let ghost pre_deep = out.deep_view();
        out.push(store.messages[i].clone());
        proof {
            assert(out.deep_view() =~= pre_deep.push(store.msgs()[i as int]));
            assert(store.msgs().take(i + 1) =~= pre_deep.push(store.msgs()[i as int]));
        }
        i = i + 1;
    }
    proof {
        assert(store.msgs().take(store.messages@.len() as int) =~= store.msgs());
    }
    Ok(MessagesResponse { messages: out })
}

/// Returns the stored messages whose owner is `address`, in ascending-id
/// order.
pub fn query_messages_by_addr(store: &Store, address: String) -> (r: Result<
    MessagesResponse,
    StdError,
>)
    ensures
        r matches Ok(resp) && resp.messages.deep_view() == store.msgs().filter(
            owner_pred(address@)),
{
    let mut out: Vec<Message> = Vec::new();
    let mut i: usize = 0;
    while i < store.messages.len()
        invariant
            i <= store.messages@.len(),
            out.deep_view() == store.msgs().take(i as int).filter(owner_pred(address@)),
        decreases store.messages@.len() - i,
    {
        proof {
            lemma_filter_take_step(store.msgs(), owner_pred(address@), i as int);
        }
        if store.messages[i].owner == address {
            let ghost pre_deep = out.deep_view();
            out.push(store.messages[i].clone());
            proof {
                assert(out.deep_view() =~= pre_deep.push(store.msgs()[i as int]));
            }
        }
        i = i + 1;
    }
    proof {
        assert(store.msgs().take(store.messages@.len() as int) =~= store.msgs());
    }
    Ok(MessagesResponse { messages: out })
}

/// Returns the stored messages whose topic is `topic`, in ascending-id
/// order.
pub fn query_messages_by_topic(store: &Store, topic: String) -> (r: Result<
    MessagesResponse,
    StdError,
>)
    ensures
        r matches Ok(resp) && resp.messages.deep_view() == store.msgs().filter(
            topic_pred(topic@)),
{
    let mut out: Vec<Message> = Vec::new();
    let mut i: usize = 0;
    while i < store.messages.len()
        invariant
            i <= store.messages@.len(),
            out.deep_view() == store.msgs().take(i as int).filter(topic_pred(topic@)),
        decreases store.messages@.len() - i,
    {
        proof {
            lemma_filter_take_step(store.msgs(), topic_pred(topic@), i as int);
        }
        if store.messages[i].topic == topic {
            let ghost pre_deep = out.deep_view();
            out.push(store.messages[i].clone());
            proof {
                assert(out.deep_view() =~= pre_deep.push(store.msgs()[i as int]));
            }
        }
        i = i + 1;
    }
    proof {
        assert(store.msgs().take(store.messages@.len() as int) =~= store.msgs());
    }
    Ok(MessagesResponse { messages: out })
}

/// Returns the single message stored under `id`, or reports that none is.
pub fn query_messages_by_id(store: &Store, id: u128) -> (r: Result<MessagesResponse, StdError>)
    requires
        store.wf(),
    ensures
        id < store.msgs().len() ==> (r matches Ok(resp) && resp.messages.deep_view() == seq![
            store.msgs()[id as int],
        ]),
        id >= store.msgs().len() ==> r == Err::<MessagesResponse, StdError>(
            StdError::NotFound { kind: StateItem::Message },
        ),
{
    if id >= store.messages.len() as u128 {
        return Err(StdError::NotFound { kind: StateItem::Message });
    }
    let idx = id as usize;
    let mut out: Vec<Message> = Vec::new();
    out.push(store.messages[idx].clone());
    proof {
        assert(idx as int == id as int);
        assert(out.deep_view() =~= seq![store.msgs()[id as int]]);
    }
    Ok(MessagesResponse { messages: out })
}

/// Returns the like counter recorded for `id`, or reports that no like
/// was ever recorded for it.
pub fn query_likes_by_id(store: &Store, id: u128) -> (r: Result<LikesResponse, StdError>)
    ensures
        match like_count_of(store.likes@, id) {
            Some(c) => r == Ok::<LikesResponse, StdError>(
                LikesResponse { likes: Like { id, count: c } },
            ),
            None => r == Err::<LikesResponse, StdError>(
                StdError::NotFound { kind: StateItem::Like },
            ),
        },
{
    match find_like(&store.likes, id) {
        Some(i) => {
            proof {
                lemma_like_count_at_first(store.likes@, id, i as int);
            }
            Ok(LikesResponse { likes: Like { id, count: store.likes[i].count } })
        },
        None => {
            proof {
                lemma_like_count_absent(store.likes@, id);
            }
            Err(StdError::NotFound { kind: StateItem::Like })
        },
    }
}

/// Answers the read-only operation a caller requested, dispatching on the
/// closed set of query messages.
pub fn query(store: &Store, msg: QueryMsg) -> (r: Result<QueryResponse, StdError>)
    requires
        store.wf(),
    ensures
        match msg {
            QueryMsg::GetCurrentId => match store.current_id {
                Some(n) => r == Ok::<QueryResponse, StdError>(QueryResponse::CurrentId(n)),
                None => r == Err::<QueryResponse, StdError>(
                    StdError::NotFound { kind: StateItem::CurrentId },
                ),
            },
            QueryMsg::GetAllMessage => r matches Ok(QueryResponse::Messages(resp))
                && resp.messages.deep_view() == store.msgs(),
            QueryMsg::GetMessagesByAddr { address } => r matches Ok(QueryResponse::Messages(resp))
                && resp.messages.deep_view() == store.msgs().filter(owner_pred(address@)),
            QueryMsg::GetMessagesByTopic { topic } => r matches Ok(QueryResponse::Messages(resp))
                && resp.messages.deep_view() == store.msgs().filter(topic_pred(topic@)),
            QueryMsg::GetMessagesById { id } => if id < store.msgs().len() {
                r matches Ok(QueryResponse::Messages(resp)) && resp.messages.deep_view() == seq![
                    store.msgs()[id as int],
                ]
            } else {
                r == Err::<QueryResponse, StdError>(
                    StdError::NotFound { kind: StateItem::Message },
                )
            },
            QueryMsg::GetLikesById { id } => match like_count_of(store.likes@, id) {
                Some(c) => r matches Ok(QueryResponse::Likes(resp)) && resp.likes == Like {
                    id,
                    count: c,
                },
                None => r == Err::<QueryResponse, StdError>(
                    StdError::NotFound { kind: StateItem::Like },
                ),
            },
        },
{
    match msg {
        QueryMsg::GetCurrentId => match query_current_id(store) {
            Ok(n) => Ok(QueryResponse::CurrentId(n)),
            Err(e) => Err(e),
        },
        QueryMsg::GetAllMessage => match query_all_messages(store) {
            Ok(resp) => Ok(QueryResponse::Messages(resp)),
            Err(e) => Err(e),
        },
        QueryMsg::GetMessagesByAddr { address } => match query_messages_by_addr(store, address) {
            Ok(resp) => Ok(QueryResponse::Messages(resp)),
            Err(e) => Err(e),
        },
        QueryMsg::GetMessagesByTopic { topic } => match query_messages_by_topic(store, topic) {
            Ok(resp) => Ok(QueryResponse::Messages(resp)),
            Err(e) => Err(e),
        },
        QueryMsg::GetMessagesById { id } => match query_messages_by_id(store, id) {
            Ok(resp) => Ok(QueryResponse::Messages(resp)),
            Err(e) => Err(e),
        },
        QueryMsg::GetLikesById { id } => match query_likes_by_id(store, id) {
            Ok(resp) => Ok(QueryResponse::Likes(resp)),
            Err(e) => Err(e),
        },
    }
}

} // verus!

