use messages::contract::{execute, instantiate, query};
use messages::msg::{ExecuteMsg, InstantiateMsg, MessageInfo, QueryMsg, QueryResponse};
use messages::state::{Coin, Message, Store};
use messages::ContractError;

const SENDER: &str = "sender_address";
const SENDER2: &str = "sender_address2";
const LIKECOIN_DENOM: &str = "like_coin";
const LIKECOIN_AMOUNT: u128 = 100;
const LIKECOIN_WRONG_AMOUNT: u128 = 50;

fn coin(amount: u128, denom: &str) -> Coin {
    Coin { denom: denom.to_string(), amount }
}

fn mock_info(sender: &str, funds: Vec<Coin>) -> MessageInfo {
    MessageInfo { sender: sender.to_string(), funds }
}

fn setup_contract(store: &mut Store) {
    let msg = InstantiateMsg { stipend: coin(LIKECOIN_AMOUNT, LIKECOIN_DENOM) };
    let res = instantiate(store, msg).unwrap();
    assert_eq!(0, res.messages.len());
}

fn add_message(store: &mut Store, sender: &str, topic: String, message: String) {
    let msg = ExecuteMsg::AddMessage { topic, message };
    let info = mock_info(sender, vec![coin(LIKECOIN_AMOUNT, LIKECOIN_DENOM)]);
    execute(store, info, msg).unwrap();
}

fn like_message(store: &mut Store, sender: &str, id: u128, funds: Vec<Coin>) {
    let msg = ExecuteMsg::LikeMessage { id };
    let info = mock_info(sender, funds);
    execute(store, info, msg).unwrap();
}

fn like_message_err(store: &mut Store, sender: &str, id: u128, funds: Vec<Coin>) -> ContractError {
    let msg = ExecuteMsg::LikeMessage { id };
    let info = mock_info(sender, funds);
    execute(store, info, msg).unwrap_err()
}

#[test]
fn proper_initialization() {
    let mut store = Store::new();
    setup_contract(&mut store);

    // it worked, let's query the state
    let res = query(&store, QueryMsg::GetCurrentId).unwrap();
    match res {
        QueryResponse::CurrentId(value) => assert_eq!(0u128, value),
        other => panic!("unexpected query response: {:?}", other),
    }
}

#[test]
fn add_2_messages_transferring_funds_and_query_all_messages() {
    let mut store = Store::new();
    setup_contract(&mut store);
    add_message(&mut store, SENDER, "topic1".to_string(), "message1".to_string());
    add_message(&mut store, SENDER, "topic2".to_string(), "message2".to_string());

    let res = query(&store, QueryMsg::GetAllMessage).unwrap();
    let value = match res {
        QueryResponse::Messages(m) => m,
        other => panic!("unexpected query response: {:?}", other),
    };
    assert_eq!(2, value.messages.len());
    assert_eq!(
        Message {
            id: 0,
            owner: SENDER.to_string(),
            topic: "topic1".to_string(),
            message: "message1".to_string()
        },
        value.messages[0]
    );
    assert_eq!(
        Message {
            id: 1,
            owner: SENDER.to_string(),
            topic: "topic2".to_string(),
            message: "message2".to_string()
        },
        value.messages[1]
    );
}

#[test]
fn add_message_like_message() {
    let mut store = Store::new();
    setup_contract(&mut store);
    add_message(&mut store, SENDER, "topic1".to_string(), "message1".to_string());
    add_message(&mut store, SENDER, "topic2".to_string(), "message2".to_string());

    let funds = vec![coin(LIKECOIN_AMOUNT, LIKECOIN_DENOM)];
    like_message(&mut store, SENDER2, 0, funds.clone());
    like_message(&mut store, SENDER2, 0, funds);

    let res = query(&store, QueryMsg::GetLikesById { id: 0 }).unwrap();
    let value = match res {
        QueryResponse::Likes(l) => l,
        other => panic!("unexpected query response: {:?}", other),
    };

    assert_eq!(2u128, value.likes.count);
    assert_eq!(0u128, value.likes.id);
}

#[test]
fn add_message_like_message_with_wrong_funds() {
    let mut store = Store::new();
    setup_contract(&mut store);
    add_message(&mut store, SENDER, "topic1".to_string(), "message1".to_string());
    add_message(&mut store, SENDER, "topic2".to_string(), "message2".to_string());

    let funds = vec![coin(LIKECOIN_WRONG_AMOUNT, LIKECOIN_DENOM)];

    let res = like_message_err(&mut store, SENDER2, 0, funds);
    assert_eq!(
        res,
        ContractError::InvalidFundsMessage {
            val1: LIKECOIN_DENOM.to_string(),
            val2: LIKECOIN_AMOUNT
        }
    );
}
