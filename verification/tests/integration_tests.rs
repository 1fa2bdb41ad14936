use messages::contract::{execute, instantiate, query};
use messages::msg::{ExecuteMsg, InstantiateMsg, MessageInfo, MessagesResponse, QueryMsg,
    QueryResponse};
use messages::state::{Coin, Store};

const USER1: &str = "juno10c3slrqx3369mfsr9670au22zvq082jaej8ve4";
const USER2: &str = "juno1and87527ua866yqh2mpakl9zkxzj5myu6f87ll";
const LIKECOIN_DENOM: &str = "like_coin";
const LIKECOIN_AMOUNT: u128 = 100;
const LIKECOIN_WRONG_AMOUNT: u128 = 200;

fn coin(amount: u128, denom: &str) -> Coin {
    Coin { denom: denom.to_string(), amount }
}

fn messages_board() -> Store {
    // At instantiate the stipend that needs to be sent to add a message or
    // like a message is set up.
    let mut store = Store::new();
    let msg = InstantiateMsg { stipend: coin(LIKECOIN_AMOUNT, LIKECOIN_DENOM) };
    instantiate(&mut store, msg).unwrap();
    store
}

fn get_all_messages(store: &Store) -> MessagesResponse {
    match query(store, QueryMsg::GetAllMessage).unwrap() {
        QueryResponse::Messages(m) => m,
        other => panic!("unexpected query response: {:?}", other),
    }
}

fn get_likes_by_id(store: &Store, id: u128) -> messages::msg::LikesResponse {
    match query(store, QueryMsg::GetLikesById { id }).unwrap() {
        QueryResponse::Likes(l) => l,
        other => panic!("unexpected query response: {:?}", other),
    }
}

fn add_message(store: &mut Store, owner: &str, topic: String, message: String, funds: Vec<Coin>) {
    let msg = ExecuteMsg::AddMessage { topic, message };
    let info = MessageInfo { sender: owner.to_string(), funds };
    execute(store, info, msg).unwrap();
}

fn add_message_without_funds_requirement(
    store: &mut Store,
    owner: &str,
    topic: String,
    message: String,
) {
    let msg = ExecuteMsg::AddMessageWithoutFunds { topic, message };
    let info = MessageInfo { sender: owner.to_string(), funds: vec![] };
    execute(store, info, msg).unwrap();
}

fn add_message_wrong_funds(
    store: &mut Store,
    owner: &str,
    topic: String,
    message: String,
    funds: Vec<Coin>,
) {
    let msg = ExecuteMsg::AddMessage { topic, message };
    let info = MessageInfo { sender: owner.to_string(), funds };
    execute(store, info, msg).unwrap_err();
}

fn like_message(store: &mut Store, owner: &str, id: u128, funds: Vec<Coin>) {
    let msg = ExecuteMsg::LikeMessage { id };
    let info = MessageInfo { sender: owner.to_string(), funds };
    execute(store, info, msg).unwrap();
}

#[test]
fn add_two_messages_query_all_messages() {
    let mut store = messages_board();
    let funds = vec![coin(LIKECOIN_AMOUNT, LIKECOIN_DENOM)];
    add_message(&mut store, USER1, "topic1".to_string(), "message1".to_string(), funds.clone());
    add_message(&mut store, USER1, "topic2".to_string(), "message2".to_string(), funds.clone());
    let message_response = get_all_messages(&store);
    assert_eq!(message_response.messages.len(), 2);
}

#[test]
fn add_one_message_sending_wrong_funds_and_query_all_messages() {
    let mut store = messages_board();
    let funds = vec![coin(LIKECOIN_WRONG_AMOUNT, LIKECOIN_DENOM)];
    add_message_wrong_funds(
        &mut store,
        USER1,
        "topic1".to_string(),
        "message1".to_string(),
        funds.clone(),
    );
    let message_response = get_all_messages(&store);
    assert_eq!(message_response.messages.len(), 0);
}

#[test]
fn add_two_messages_sending_like_one_and_query_like_messages() {
    let mut store = messages_board();
    let funds = vec![coin(LIKECOIN_AMOUNT, LIKECOIN_DENOM)];
    add_message(&mut store, USER1, "topic1".to_string(), "message1".to_string(), funds.clone());
    add_message(&mut store, USER1, "topic2".to_string(), "message2".to_string(), funds.clone());
    like_message(&mut store, USER1, 1, funds.clone());

    let message_response = get_all_messages(&store);
    let like_response = get_likes_by_id(&store, 1);
    assert_eq!(message_response.messages.len(), 2);
    assert_eq!(like_response.likes.count, 1u128);
}

#[test]
fn add_two_messages_from_two_users_sending_like_one_and_query_like_messages() {
    // The second user posts through the permissive no-funds entry point, so
    // a like can target a message whose owner holds no balance.
    let mut store = messages_board();
    let funds = vec![coin(LIKECOIN_AMOUNT, LIKECOIN_DENOM)];
    add_message(&mut store, USER1, "topic1".to_string(), "message1".to_string(), funds.clone());
    add_message_without_funds_requirement(
        &mut store,
        USER2,
        "topic2".to_string(),
        "message2".to_string(),
    );
    like_message(&mut store, USER1, 1, funds.clone());

    let message_response = get_all_messages(&store);
    let like_response = get_likes_by_id(&store, 1);
    assert_eq!(message_response.messages.len(), 2);
    assert_eq!(like_response.likes.count, 1u128);
}
