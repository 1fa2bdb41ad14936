//! The inbound operations and the values the board hands back: the
//! initialization message, the closed set of execute and query requests,
//! the typed query responses, and the response a successful transition
//! returns, including any requested fund transfer.

use vstd::prelude::*;

use crate::state::{Coin, Like, Message};

verus! {

/// Initialization input: the stipend required for posting and liking.
#[derive(Debug, PartialEq)]
pub struct InstantiateMsg {
    pub stipend: Coin,
}

/// Who invoked the current call and what funds they attached.
#[derive(Debug, PartialEq)]
pub struct MessageInfo {
    pub sender: String,
    pub funds: Vec<Coin>,
}

/// The three state-changing operations.
#[derive(Debug, PartialEq)]
pub enum ExecuteMsg {
    /// Post a message; the attached funds must match the stipend.
    AddMessage { topic: String, message: String },
    /// Post a message with no funds check at all.
    AddMessageWithoutFunds { topic: String, message: String },
    /// Like the message with the given id; the attached funds must match
    /// the stipend and are relayed to the message's owner.
    LikeMessage { id: u128 },
}

/// The read-only operations.
#[derive(Debug, PartialEq)]
pub enum QueryMsg {
    GetCurrentId,
    GetAllMessage,
    GetMessagesByAddr { address: String },
    GetMessagesByTopic { topic: String },
    GetMessagesById { id: u128 },
    GetLikesById { id: u128 },
}

/// A list of messages, in ascending-id order.
#[derive(Debug, PartialEq)]
pub struct MessagesResponse {
    pub messages: Vec<Message>,
}

/// The like counter of one message.
#[derive(Debug, PartialEq)]
pub struct LikesResponse {
    pub likes: Like,
}

/// The typed result of a query, one variant per query kind.
#[derive(Debug, PartialEq)]
pub enum QueryResponse {
    CurrentId(u128),
    Messages(MessagesResponse),
    Likes(LikesResponse),
}

/// What a successful transition announces.
#[derive(Debug, Clone, Copy, PartialEq, Eq, Structural)]
pub enum Action {
    AddMessage,
    AddMessageWithoutFunds,
    MessageLike,
}

/// A requested transfer from the board's own holdings, delegated to the
/// external ledger.
#[derive(Debug, PartialEq)]
pub enum BankMsg {
    Send { to_address: String, amount: Vec<Coin> },
}

/// The observable outcome of a successful transition: which action ran,
/// the message id it concerned, where funds were relayed, and the
/// requested transfers themselves.
#[derive(Debug, PartialEq)]
pub struct Response {
    pub action: Option<Action>,
    pub id: Option<u128>,
    pub sent_to: Option<String>,
    pub messages: Vec<BankMsg>,
}

impl Default for Response {
    /// The empty response: no action, no id, no transfer.
    fn default() -> (r: Response)
        ensures
            r.action is None,
            r.id is None,
            r.sent_to is None,
            r.messages@ == Seq::<BankMsg>::empty(),
    {
        Response { action: None, id: None, sent_to: None, messages: Vec::new() }
    }
}

} // verus!
