use cosmwasm_std::StdError;
use vstd::prelude::*;

use crate::error::ContractError;
use crate::host::{
    load_poll, may_load_config, may_load_poll, poll_exists, save_config, save_poll,
    validate_address, Host, HostRef,
};
use crate::msg::{ExecuteMsg, GetPollResponse, InstantiateMsg, QueryMsg, QueryResponse};
use crate::response::{action, Response};
use crate::state::{Config, Poll};

verus! {

/// A call returned what the model gives: the same error, or a value with the
/// same view.
pub open spec fn agrees<T: View>(
    returned: Result<T, ContractError>,
    expected: Result<T::V, ContractError>,
) -> bool {
    match expected {
        Ok(value) => returned matches Ok(got) && got@ == value,
        Err(e) => returned matches Err(got) && got == e,
    }
}

/// A command returned what the model gives: the same error, or a response
/// that carries the action's label and nothing else.
pub open spec fn answers<T>(
    returned: Result<Response, ContractError>,
    expected: Result<T, ContractError>,
    label: Seq<char>,
) -> bool {
    match expected {
        Ok(_) => returned matches Ok(response) && response@ == action(label),
        Err(e) => returned matches Err(got) && got == e,
    }
}

/// The address that a validation let through, if it did.
pub open spec fn passed(validated: Result<String, StdError>) -> Option<Seq<char>> {
    match validated {
        Ok(address) => Some(address@),
        Err(_) => None,
    }
}

/// Setup, given what the chain's validation said of the administrator
/// address: an address that passed is written as the configuration, over
/// whatever stood there, and returned; one that did not is refused and
/// nothing is written.
pub fn initialize(host: &mut Host, validated: Result<String, StdError>) -> (outcome: Result<
    Config,
    ContractError,
>)
    ensures
        final(host).ledger() == old(host).ledger().initialize(passed(validated)).ledger,
        agrees(outcome, old(host).ledger().initialize(passed(validated)).outcome),
{
    match validated {
        Ok(admin_address) => {
            let config = Config { admin_address };
            match save_config(host, &config) {
                Ok(_) => Ok(config),
                Err(_) => Err(ContractError::Storage),
            }
        },
        Err(_) => Err(ContractError::ValidationError),
    }
}

/// Creates the poll on `question` with no votes and returns it, unless a
/// record stands under that question already.
pub fn create_poll(host: &mut Host, question: String) -> (outcome: Result<Poll, ContractError>)
    ensures
        final(host).ledger() == old(host).ledger().create_poll(question@).ledger,
        agrees(outcome, old(host).ledger().create_poll(question@).outcome),
{
    if poll_exists(host, question.as_str()) {
        return Err(ContractError::AlreadyExists);
    }
    let poll = Poll::new(question.clone());
    match save_poll(host, question.as_str(), &poll) {
        Ok(_) => Ok(poll),
        Err(_) => Err(ContractError::Storage),
    }
}

/// Counts one vote on the poll under `question` and returns the poll as it
/// then stands. The poll has to exist and the choice has to be "yes" or
/// "no"; a vote that is refused changes nothing.
pub fn cast_vote(host: &mut Host, question: String, choice: String) -> (outcome: Result<
    Poll,
    ContractError,
>)
    ensures
        final(host).ledger() == old(host).ledger().cast_vote(question@, choice@).ledger,
        agrees(outcome, old(host).ledger().cast_vote(question@, choice@).outcome),
{
    if !poll_exists(host, question.as_str()) {
        return Err(ContractError::NotFound);
    }
    let mut poll = match load_poll(host, question.as_str()) {
        Ok(poll) => poll,
        Err(_) => {
            return Err(ContractError::Storage);
        },
    };
    match poll.tally(choice.as_str()) {
        Ok(_) => {},
        Err(e) => {
            return Err(e);
        },
    }
    match save_poll(host, question.as_str(), &poll) {
        Ok(_) => Ok(poll),
        Err(_) => Err(ContractError::Storage),
    }
}

/// The poll under `question` as it stands, or `None` where there is none.
pub fn get_poll(reader: &HostRef, question: &str) -> (outcome: Result<Option<Poll>, ContractError>)
    ensures
        match reader.ledger().get_poll(question@) {
            Ok(Some(poll)) => outcome matches Ok(Some(got)) && got@ == poll,
            Ok(None) => outcome matches Ok(None),
            Err(e) => outcome matches Err(got) && got == e,
        },
{
    match may_load_poll(reader, question) {
        Ok(found) => Ok(found),
        Err(_) => Err(ContractError::Storage),
    }
}

/// The configuration, which is not found before setup.
pub fn get_config(reader: &HostRef) -> (outcome: Result<Config, ContractError>)
    ensures
        agrees(outcome, reader.ledger().get_config()),
{
    match may_load_config(reader) {
        Ok(Some(config)) => Ok(config),
        Ok(None) => Err(ContractError::NotFound),
        Err(_) => Err(ContractError::Storage),
    }
}

/// The setup entry point: has the chain validate the administrator address
/// of `msg`, then sets up with what came back. Whether an address passes is
/// the chain's rule: where it does, the configuration holds the address as
/// it was given; where it does not, nothing is written.
pub fn instantiate(host: &mut Host, msg: InstantiateMsg) -> (outcome: Result<
    Response,
    ContractError,
>)
    ensures
        match outcome {
            Ok(response) => {
                &&& response@ == action("instantiate"@)
                &&& final(host).ledger() == old(host).ledger().initialize(
                    Some(msg.admin_address@),
                ).ledger
            },
            Err(e) => {
                &&& e == ContractError::ValidationError
                &&& final(host).ledger() == old(host).ledger()
            },
        },
{
    let validated = validate_address(host, msg.admin_address.as_str());
    match initialize(host, validated) {
        Ok(_) => Ok(Response::new().add_attribute("action", "instantiate")),
        Err(e) => Err(e),
    }
}

/// The command entry point.
pub fn execute(host: &mut Host, msg: ExecuteMsg) -> (outcome: Result<Response, ContractError>)
    ensures
        match msg {
            ExecuteMsg::CreatePoll { question } => {
                &&& final(host).ledger() == old(host).ledger().create_poll(question@).ledger
                &&& answers(
                    outcome,
                    old(host).ledger().create_poll(question@).outcome,
                    "create_poll"@,
                )
            },
            ExecuteMsg::Vote { question, choice } => {
                &&& final(host).ledger() == old(host).ledger().cast_vote(
                    question@,
                    choice@,
                ).ledger
                &&& answers(
                    outcome,
                    old(host).ledger().cast_vote(question@, choice@).outcome,
                    "vote"@,
                )
            },
        },
{
    match msg {
        ExecuteMsg::CreatePoll { question } => execute_create_poll(host, question),
        ExecuteMsg::Vote { question, choice } => execute_vote(host, question, choice),
    }
}

/// Carries out `ExecuteMsg::CreatePoll`.
pub fn execute_create_poll(host: &mut Host, question: String) -> (outcome: Result<
    Response,
    ContractError,
>)
    ensures
        final(host).ledger() == old(host).ledger().create_poll(question@).ledger,
        answers(outcome, old(host).ledger().create_poll(question@).outcome, "create_poll"@),
{
    match create_poll(host, question) {
        Ok(_) => Ok(Response::new().add_attribute("action", "create_poll")),
        Err(e) => Err(e),
    }
}

/// Carries out `ExecuteMsg::Vote`.
pub fn execute_vote(host: &mut Host, question: String, choice: String) -> (outcome: Result<
    Response,
    ContractError,
>)
    ensures
        final(host).ledger() == old(host).ledger().cast_vote(question@, choice@).ledger,
        answers(outcome, old(host).ledger().cast_vote(question@, choice@).outcome, "vote"@),
{
    match cast_vote(host, question, choice) {
        Ok(_) => Ok(Response::new().add_attribute("action", "vote")),
        Err(e) => Err(e),
    }
}

/// The query entry point. A query writes nothing.
pub fn query(reader: &HostRef, msg: QueryMsg) -> (outcome: Result<QueryResponse, ContractError>)
    ensures
        match msg {
            QueryMsg::GetPoll { question } => match reader.ledger().get_poll(question@) {
                Ok(found) => outcome matches Ok(QueryResponse::GetPoll(response)) && response@
                    == found,
                Err(e) => outcome matches Err(got) && got == e,
            },
            QueryMsg::GetConfig {} => match reader.ledger().get_config() {
                Ok(config) => outcome matches Ok(QueryResponse::GetConfig(got)) && got@ == config,
                Err(e) => outcome matches Err(got) && got == e,
            },
        },
{
    match msg {
        QueryMsg::GetPoll { question } => match query_get_poll(reader, question) {
            Ok(response) => Ok(QueryResponse::GetPoll(response)),
            Err(e) => Err(e),
        },
        QueryMsg::GetConfig {} => match get_config(reader) {
            Ok(config) => Ok(QueryResponse::GetConfig(config)),
            Err(e) => Err(e),
        },
    }
}

/// Answers `QueryMsg::GetPoll`.
pub fn query_get_poll(reader: &HostRef, question: String) -> (outcome: Result<
    GetPollResponse,
    ContractError,
>)
    ensures
        agrees(outcome, reader.ledger().get_poll(question@)),
{
    match get_poll(reader, question.as_str()) {
        Ok(poll) => Ok(GetPollResponse { poll }),
        Err(e) => Err(e),
    }
}

} // verus!
