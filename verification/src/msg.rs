use vstd::prelude::*;

use crate::state::{Config, Poll, PollView};

verus! {

/// The initialization message: the candidate administrator address.
#[derive(Clone, Debug, PartialEq, Eq)]
pub struct InstantiateMsg {
    pub admin_address: String,
}

/// The state-mutating transaction messages.
#[derive(Clone, Debug, PartialEq, Eq)]
pub enum ExecuteMsg {
    CreatePoll { question: String },
    Vote { question: String, choice: String },
}

/// Mathematical model of a transaction message.
pub ghost enum ExecuteMsgView {
    CreatePoll { question: Seq<char> },
    Vote { question: Seq<char>, choice: Seq<char> },
}

impl View for ExecuteMsg {
    type V = ExecuteMsgView;

    open spec fn view(&self) -> ExecuteMsgView {
        match self {
            ExecuteMsg::CreatePoll { question } => ExecuteMsgView::CreatePoll {
                question: question@,
            },
            ExecuteMsg::Vote { question, choice } => ExecuteMsgView::Vote {
                question: question@,
                choice: choice@,
            },
        }
    }
}

/// The read-only query messages.
#[derive(Clone, Debug, PartialEq, Eq)]
pub enum QueryMsg {
    GetPoll { question: String },
    GetConfig {},
}

/// Mathematical model of a query message.
pub ghost enum QueryMsgView {
    GetPoll { question: Seq<char> },
    GetConfig,
}

impl View for QueryMsg {
    type V = QueryMsgView;

    open spec fn view(&self) -> QueryMsgView {
        match self {
            QueryMsg::GetPoll { question } => QueryMsgView::GetPoll { question: question@ },
            QueryMsg::GetConfig {  } => QueryMsgView::GetConfig,
        }
    }
}

/// The answer to a poll read: the poll if present, or an explicit absent
/// result.
#[derive(Clone, Debug, PartialEq, Eq)]
pub struct GetPollResponse {
    pub poll: Option<Poll>,
}

impl View for GetPollResponse {
    type V = Option<PollView>;

    open spec fn view(&self) -> Option<PollView> {
        match self.poll {
            Some(p) => Some(p@),
            None => None,
        }
    }
}

/// An empty acknowledgement payload.
#[derive(Clone, Debug, PartialEq, Eq)]
pub struct RegResponse {}

/// A typed query answer; the runtime serializes it for transport.
#[derive(Clone, Debug, PartialEq, Eq)]
pub enum QueryAnswer {
    Poll(GetPollResponse),
    Config(Config),
}

} // verus!
