use vstd::prelude::*;

use crate::state::{Config, Poll, PollData};

verus! {

/// The setup message.
#[derive(Clone, Debug, PartialEq)]
pub struct InstantiateMsg {
    pub admin_address: String,
}

/// The commands.
#[derive(Clone, Debug, PartialEq)]
pub enum ExecuteMsg {
    CreatePoll { question: String },
    Vote { question: String, choice: String },
}

/// The queries.
#[derive(Clone, Debug, PartialEq)]
pub enum QueryMsg {
    GetPoll { question: String },
    GetConfig {},
}

/// The answer to `QueryMsg::GetPoll`: the poll, or `None` where there is none
/// under the question.
#[derive(Clone, Debug, PartialEq)]
pub struct GetPollResponse {
    pub poll: Option<Poll>,
}

impl View for GetPollResponse {
    type V = Option<PollData>;

    open spec fn view(&self) -> Option<PollData> {
        match self.poll {
            Some(poll) => Some(poll@),
            None => None,
        }
    }
}

/// The answer to a query, before it is serialised.
#[derive(Clone, Debug, PartialEq)]
pub enum QueryResponse {
    GetPoll(GetPollResponse),
    GetConfig(Config),
}

} // verus!
