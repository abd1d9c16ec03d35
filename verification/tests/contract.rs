use cosmwasm_std::testing::{mock_dependencies, MockApi, MockStorage};
use cosmwasm_std::Addr;
use wasm_poll::contract::{execute, instantiate, query};
use wasm_poll::error::ContractError;
use wasm_poll::host::{Host, HostRef};
use wasm_poll::msg::{ExecuteMsg, GetPollResponse, InstantiateMsg, QueryMsg, QueryResponse};
use wasm_poll::response::attr;
use wasm_poll::state::{Config, Poll};

fn set_up(storage: &mut MockStorage, api: &MockApi) {
    let msg = InstantiateMsg { admin_address: "addr".to_string() };
    instantiate(&mut Host { storage, api }, msg).unwrap();
}

fn create(storage: &mut MockStorage, api: &MockApi, question: &str) {
    let msg = ExecuteMsg::CreatePoll { question: question.to_string() };
    execute(&mut Host { storage, api }, msg).unwrap();
}

fn poll_of(storage: &MockStorage, question: &str) -> Option<Poll> {
    let msg = QueryMsg::GetPoll { question: question.to_string() };
    match query(&HostRef { storage }, msg).unwrap() {
        QueryResponse::GetPoll(response) => response.poll,
        QueryResponse::GetConfig(_) => panic!("a poll was asked for"),
    }
}

#[test]
fn test_instantiate() {
    let mut deps = mock_dependencies();
    let msg = InstantiateMsg { admin_address: "addr".to_string() };

    let resp = instantiate(&mut Host { storage: &mut deps.storage, api: &deps.api }, msg).unwrap();
    assert_eq!(resp.attributes, vec![attr("action", "instantiate")]);

    let msg = QueryMsg::GetConfig {};
    let resp = query(&HostRef { storage: &deps.storage }, msg).unwrap();
    assert_eq!(
        resp,
        QueryResponse::GetConfig(Config { admin_address: Addr::unchecked("addr").into_string() })
    );
}

#[test]
fn test_create_poll() {
    let mut deps = mock_dependencies();
    set_up(&mut deps.storage, &deps.api);

    let msg = ExecuteMsg::CreatePoll { question: "I did it, I can learn anything".to_string() };
    let resp = execute(&mut Host { storage: &mut deps.storage, api: &deps.api }, msg).unwrap();
    assert_eq!(resp.attributes, vec![attr("action", "create_poll")]);

    let msg = QueryMsg::GetPoll { question: "I did it, I can learn anything".to_string() };
    let resp = query(&HostRef { storage: &deps.storage }, msg).unwrap();
    assert_eq!(
        resp,
        QueryResponse::GetPoll(GetPollResponse {
            poll: Some(Poll {
                question: "I did it, I can learn anything".to_string(),
                yes_votes: 0,
                no_votes: 0
            })
        })
    );

    let msg = ExecuteMsg::CreatePoll { question: "I did it, I can learn anything".to_string() };
    let _resp = execute(&mut Host { storage: &mut deps.storage, api: &deps.api }, msg).unwrap_err();
}

#[test]
fn test_vote() {
    let mut deps = mock_dependencies();
    set_up(&mut deps.storage, &deps.api);
    create(&mut deps.storage, &deps.api, "I did it, I can learn anything");

    let msg = ExecuteMsg::Vote {
        question: "I did it, I can learn anything".to_string(),
        choice: "yes".to_string(),
    };
    let resp = execute(&mut Host { storage: &mut deps.storage, api: &deps.api }, msg).unwrap();
    assert_eq!(resp.attributes, vec![attr("action", "vote")]);

    let msg = ExecuteMsg::Vote {
        question: "I did it, I can learn anything????".to_string(),
        choice: "yes".to_string(),
    };
    let _resp = execute(&mut Host { storage: &mut deps.storage, api: &deps.api }, msg).unwrap_err();

    let msg = ExecuteMsg::Vote {
        question: "I did it, I can learn anything".to_string(),
        choice: "maybe".to_string(),
    };
    let _resp = execute(&mut Host { storage: &mut deps.storage, api: &deps.api }, msg).unwrap_err();
}

#[test]
fn scenario_of_one_poll() {
    let mut deps = mock_dependencies();
    let question = "I did it, I can learn anything";
    create(&mut deps.storage, &deps.api, question);

    let vote = |storage: &mut MockStorage, question: &str, choice: &str| {
        let msg = ExecuteMsg::Vote { question: question.to_string(), choice: choice.to_string() };
        execute(&mut Host { storage, api: &MockApi::default() }, msg)
    };

    assert_eq!(vote(&mut deps.storage, question, "yes").unwrap().attributes, vec![attr("action", "vote")]);
    assert_eq!(
        poll_of(&deps.storage, question),
        Some(Poll { question: question.to_string(), yes_votes: 1, no_votes: 0 })
    );

    let unrelated = "I did it, I can learn anything????";
    assert_eq!(vote(&mut deps.storage, unrelated, "yes"), Err(ContractError::NotFound));
    assert_eq!(poll_of(&deps.storage, unrelated), None);

    assert_eq!(vote(&mut deps.storage, question, "maybe"), Err(ContractError::InvalidChoice));
    assert_eq!(
        poll_of(&deps.storage, question),
        Some(Poll { question: question.to_string(), yes_votes: 1, no_votes: 0 })
    );
}

#[test]
fn instantiate_refuses_an_address_that_fails_validation() {
    let mut deps = mock_dependencies();
    for address in ["", "ab", "Foobar123"] {
        let msg = InstantiateMsg { admin_address: address.to_string() };
        let outcome = instantiate(&mut Host { storage: &mut deps.storage, api: &deps.api }, msg);
        assert_eq!(outcome, Err(ContractError::ValidationError));
        let config = query(&HostRef { storage: &deps.storage }, QueryMsg::GetConfig {});
        assert_eq!(config, Err(ContractError::NotFound));
    }
}

#[test]
fn a_refused_setup_keeps_the_earlier_config() {
    let mut deps = mock_dependencies();
    set_up(&mut deps.storage, &deps.api);
    let msg = InstantiateMsg { admin_address: "NotNormalized".to_string() };
    let outcome = instantiate(&mut Host { storage: &mut deps.storage, api: &deps.api }, msg);
    assert_eq!(outcome, Err(ContractError::ValidationError));
    let config = query(&HostRef { storage: &deps.storage }, QueryMsg::GetConfig {});
    assert_eq!(config, Ok(QueryResponse::GetConfig(Config { admin_address: "addr".to_string() })));
}

#[test]
fn a_second_setup_overwrites_the_config() {
    let mut deps = mock_dependencies();
    set_up(&mut deps.storage, &deps.api);
    let msg = InstantiateMsg { admin_address: "another".to_string() };
    instantiate(&mut Host { storage: &mut deps.storage, api: &deps.api }, msg).unwrap();
    let config = query(&HostRef { storage: &deps.storage }, QueryMsg::GetConfig {});
    assert_eq!(
        config,
        Ok(QueryResponse::GetConfig(Config { admin_address: "another".to_string() }))
    );
}

#[test]
fn setup_leaves_the_polls_alone() {
    let mut deps = mock_dependencies();
    create(&mut deps.storage, &deps.api, "before setup");
    set_up(&mut deps.storage, &deps.api);
    assert_eq!(
        poll_of(&deps.storage, "before setup"),
        Some(Poll { question: "before setup".to_string(), yes_votes: 0, no_votes: 0 })
    );
}

#[test]
fn get_config_before_setup_is_not_found() {
    let deps = mock_dependencies();
    let config = query(&HostRef { storage: &deps.storage }, QueryMsg::GetConfig {});
    assert_eq!(config, Err(ContractError::NotFound));
}

#[test]
fn execute_reports_each_error() {
    let mut deps = mock_dependencies();
    create(&mut deps.storage, &deps.api, "q");

    let again = ExecuteMsg::CreatePoll { question: "q".to_string() };
    assert_eq!(
        execute(&mut Host { storage: &mut deps.storage, api: &deps.api }, again),
        Err(ContractError::AlreadyExists)
    );
    let missing = ExecuteMsg::Vote { question: "p".to_string(), choice: "no".to_string() };
    assert_eq!(
        execute(&mut Host { storage: &mut deps.storage, api: &deps.api }, missing),
        Err(ContractError::NotFound)
    );
    let undecided = ExecuteMsg::Vote { question: "q".to_string(), choice: "Yes".to_string() };
    assert_eq!(
        execute(&mut Host { storage: &mut deps.storage, api: &deps.api }, undecided),
        Err(ContractError::InvalidChoice)
    );
    assert_eq!(
        poll_of(&deps.storage, "q"),
        Some(Poll { question: "q".to_string(), yes_votes: 0, no_votes: 0 })
    );
}

#[test]
fn a_missing_poll_is_reported_before_the_choice_is_judged() {
    let mut deps = mock_dependencies();
    let msg = ExecuteMsg::Vote { question: "nowhere".to_string(), choice: "maybe".to_string() };
    assert_eq!(
        execute(&mut Host { storage: &mut deps.storage, api: &deps.api }, msg),
        Err(ContractError::NotFound)
    );
}

#[test]
fn query_answers_with_the_kind_that_was_asked_for() {
    let mut deps = mock_dependencies();
    set_up(&mut deps.storage, &deps.api);
    let reader = HostRef { storage: &deps.storage };
    assert_eq!(
        query(&reader, QueryMsg::GetPoll { question: "none".to_string() }),
        Ok(QueryResponse::GetPoll(GetPollResponse { poll: None }))
    );
    assert!(matches!(query(&reader, QueryMsg::GetConfig {}), Ok(QueryResponse::GetConfig(_))));
}
