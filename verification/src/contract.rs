use vstd::prelude::*;

use crate::error::ContractError;
use crate::msg::{
    ExecuteMsg, ExecuteMsgView, GetPollResponse, InstantiateMsg, QueryAnswer, QueryMsg,
    QueryMsgView,
};
use crate::response::{response_add_attribute, response_attrs, response_new};
use crate::state::{
    apply_choice, apply_choices, count_matching, has_poll, is_valid_choice,
    lemma_poll_index_unique, lemma_push_preserves_unique, lemma_update_preserves_unique, lookup,
    no_choice, poll_for, poll_index, unique_questions, vote_count_fits, yes_choice, Config,
    ContractState, Poll, PollView, StateView,
};
use cosmwasm_std::Response;

verus! {

/// Everything the initialization handler guarantees: with a well-formed
/// address the configuration is set to it and the polls are untouched;
/// with a malformed one the transaction is rejected and nothing changes.
pub open spec fn instantiate_outcome(
    pre: StateView,
    post: StateView,
    addr: Seq<char>,
    address_ok: bool,
    r: Result<Response, ContractError>,
) -> bool {
    if address_ok {
        &&& r is Ok
        &&& response_attrs(r->Ok_0) == seq![("action"@, "instantiate"@)]
        &&& post.config == Some(addr)
        &&& post.polls == pre.polls
    } else {
        &&& r is Err
        &&& r->Err_0 == ContractError::InvalidAddress
        &&& post == pre
    }
}

/// Everything the poll-creation handler guarantees: a fresh question is
/// stored with both counters at zero; a duplicate is rejected with no
/// state change. The configuration is never touched.
pub open spec fn create_poll_outcome(
    pre: StateView,
    post: StateView,
    q: Seq<char>,
    r: Result<Response, ContractError>,
) -> bool {
    &&& post.config == pre.config
    &&& if has_poll(pre.polls, q) {
        &&& r is Err
        &&& r->Err_0 == ContractError::DuplicateKeyError
        &&& post == pre
    } else {
        &&& r is Ok
        &&& response_attrs(r->Ok_0) == seq![("action"@, "create_poll"@)]
        &&& post.polls == pre.polls.push(PollView { question: q, yes_votes: 0, no_votes: 0 })
    }
}

/// Everything the vote handler guarantees: an absent poll or an
/// unrecognized choice rejects the transaction with the matching error
/// and no state change; a valid vote bumps exactly the chosen counter of
/// exactly the named poll. The configuration is never touched.
pub open spec fn vote_outcome(
    pre: StateView,
    post: StateView,
    q: Seq<char>,
    c: Seq<char>,
    r: Result<Response, ContractError>,
) -> bool {
    &&& post.config == pre.config
    &&& if !has_poll(pre.polls, q) {
        &&& r is Err
        &&& r->Err_0 == ContractError::NotFoundError
        &&& post == pre
    } else if !is_valid_choice(c) {
        &&& r is Err
        &&& r->Err_0 == ContractError::InvalidChoiceError
        &&& post == pre
    } else {
        &&& r is Ok
        &&& response_attrs(r->Ok_0) == seq![("action"@, "vote"@)]
        &&& post.polls == pre.polls.update(
            poll_index(pre.polls, q),
            apply_choice(poll_for(pre.polls, q), c),
        )
    }
}

/// A response that records the action taken, as the handlers emit it.
fn action_response(action: &str) -> (r: Response)
    ensures
        response_attrs(r) == seq![("action"@, action@)],
{
    proof {
        reveal_strlit("action");
    }
    let empty = response_new();
    let r = response_add_attribute(empty, "action", action);
    proof {
        assert(response_attrs(r) =~= seq![("action"@, action@)]);
    }
    r
}

/// Initializes the contract with the candidate administrator address.
/// The host runtime owns the address format, so its verdict on the
/// candidate is handed in as `address_ok`; the handler stores the
/// address exactly when the verdict accepts it.
pub fn instantiate(state: &mut ContractState, msg: InstantiateMsg, address_ok: bool) -> (r: Result<
    Response,
    ContractError,
>)
    requires
        old(state).wf(),
    ensures
        final(state).wf(),
        instantiate_outcome(old(state)@, final(state)@, msg.admin_address@, address_ok, r),
{
    if !address_ok {
        return Err(ContractError::InvalidAddress);
    }
    state.set_config(msg.admin_address);
    Ok(action_response("instantiate"))
}

/// Dispatches a transaction message to the matching handler.
pub fn execute(state: &mut ContractState, msg: ExecuteMsg) -> (r: Result<Response, ContractError>)
    requires
        old(state).wf(),
        msg@ matches ExecuteMsgView::Vote { question, choice } ==> vote_count_fits(
            old(state)@.polls,
            question,
            choice,
        ),
    ensures
        final(state).wf(),
        match msg@ {
            ExecuteMsgView::CreatePoll { question } => create_poll_outcome(
                old(state)@,
                final(state)@,
                question,
                r,
            ),
            ExecuteMsgView::Vote { question, choice } => vote_outcome(
                old(state)@,
                final(state)@,
                question,
                choice,
                r,
            ),
        },
{
    match msg {
        ExecuteMsg::CreatePoll { question } => execute_create_poll(state, question),
        ExecuteMsg::Vote { question, choice } => execute_vote(state, question, choice),
    }
}

/// Creates a poll under `question` with both counters at zero, or
/// rejects the transaction if that key is already taken.
pub fn execute_create_poll(state: &mut ContractState, question: String) -> (r: Result<
    Response,
    ContractError,
>)
    requires
        old(state).wf(),
    ensures
        final(state).wf(),
        create_poll_outcome(old(state)@, final(state)@, question@, r),
{
    match state.find_index(&question) {
        Some(i) => {
            proof {
                lemma_poll_index_unique(state@.polls, question@, i as int);
            }
            Err(ContractError::DuplicateKeyError)
        },
        None => {
            let poll = Poll { question, yes_votes: 0, no_votes: 0 };
            proof {
                lemma_push_preserves_unique(state@.polls, poll@);
            }
            state.push_poll(poll);
            Ok(action_response("create_poll"))
        },
    }
}

/// Casts one vote on the poll stored under `question`, or rejects the
/// transaction if the poll is absent or the choice is unrecognized.
pub fn execute_vote(state: &mut ContractState, question: String, choice: String) -> (r: Result<
    Response,
    ContractError,
>)
    requires
        old(state).wf(),
        vote_count_fits(old(state)@.polls, question@, choice@),
    ensures
        final(state).wf(),
        vote_outcome(old(state)@, final(state)@, question@, choice@, r),
{
    let i = match state.find_index(&question) {
        None => {
            return Err(ContractError::NotFoundError);
        },
        Some(i) => i,
    };
    proof {
        lemma_poll_index_unique(state@.polls, question@, i as int);
    }
    let voted = match vote_on_poll(state.poll_at(i), &choice) {
        Err(e) => {
            return Err(e);
        },
        Ok(p) => p,
    };
    proof {
        lemma_update_preserves_unique(state@.polls, i as int, voted@);
    }
    state.set_poll(i, voted);
    Ok(action_response("vote"))
}

/// The per-key vote transition of the poll state machine: a "yes" takes
/// `(y, n)` to `(y + 1, n)`, a "no" takes it to `(y, n + 1)`, and any
/// other choice is rejected before any counter is touched.
pub fn vote_on_poll(poll: &Poll, choice: &String) -> (r: Result<Poll, ContractError>)
    requires
        is_valid_choice(choice@) ==> {
            if choice@ == yes_choice() {
                poll@.yes_votes < u64::MAX
            } else {
                poll@.no_votes < u64::MAX
            }
        },
    ensures
        match r {
            Ok(p) => is_valid_choice(choice@) && p@ == apply_choice(poll@, choice@),
            Err(e) => e == ContractError::InvalidChoiceError && !is_valid_choice(choice@),
        },
{
    let yes: String = "yes".to_owned();
    let no: String = "no".to_owned();
    if *choice == yes {
        Ok(
            Poll {
                question: poll.question.clone(),
                yes_votes: poll.yes_votes + 1,
                no_votes: poll.no_votes,
            },
        )
    } else if *choice == no {
        Ok(
            Poll {
                question: poll.question.clone(),
                yes_votes: poll.yes_votes,
                no_votes: poll.no_votes + 1,
            },
        )
    } else {
        Err(ContractError::InvalidChoiceError)
    }
}

/// Serves a read-only query against the current state. Reading the
/// configuration presupposes an initialized contract: for a correctly
/// deployed contract a missing configuration is impossible, not a
/// handled error.
pub fn query(state: &ContractState, msg: QueryMsg) -> (r: QueryAnswer)
    requires
        state.wf(),
        msg@ is GetConfig ==> state@.config is Some,
    ensures
        match msg@ {
            QueryMsgView::GetPoll { question } => {
                &&& r matches QueryAnswer::Poll(gp)
                &&& gp@ == lookup(state@.polls, question)
            },
            QueryMsgView::GetConfig => {
                &&& r matches QueryAnswer::Config(c)
                &&& state@.config == Some(c.admin_address@)
            },
        },
{
    match msg {
        QueryMsg::GetPoll { question } => QueryAnswer::Poll(query_get_poll(state, question)),
        QueryMsg::GetConfig {  } => {
            match state.config_admin() {
                Some(a) => QueryAnswer::Config(Config { admin_address: a.clone() }),
                None => vstd::pervasive::unreached(),
            }
        },
    }
}

/// Reads the poll stored under `question`: the poll if present, or an
/// explicit absent result. Absence is a normal outcome, not an error.
pub fn query_get_poll(state: &ContractState, question: String) -> (r: GetPollResponse)
    requires
        state.wf(),
    ensures
        r@ == lookup(state@.polls, question@),
{
    match state.find_index(&question) {
        None => GetPollResponse { poll: None },
        Some(i) => {
            proof {
                lemma_poll_index_unique(state@.polls, question@, i as int);
            }
            let p = state.poll_at(i);
            let yes_votes = p.yes_votes;
            let no_votes = p.no_votes;
            GetPollResponse { poll: Some(Poll { question, yes_votes, no_votes }) }
        },
    }
}

/// The two recognized choice strings are distinct.
pub proof fn lemma_yes_no_distinct()
    ensures
        yes_choice() != no_choice(),
{
    reveal_strlit("yes");
    reveal_strlit("no");
    assert(yes_choice().len() == 3);
    assert(no_choice().len() == 2);
}

/// After initialization with an address the host accepted, reading the
/// configuration observes exactly that address.
pub proof fn lemma_config_after_instantiate(
    pre: StateView,
    post: StateView,
    addr: Seq<char>,
    r: Result<Response, ContractError>,
)
    requires
        instantiate_outcome(pre, post, addr, true, r),
    ensures
        post.config == Some(addr),
{
}

/// For any question: the first creation succeeds, and a read then
/// observes that poll with both counters at zero; a second creation of
/// the same question is rejected with the duplicate-key error and
/// changes nothing.
pub proof fn lemma_create_poll_then_get(
    pre: StateView,
    s1: StateView,
    s2: StateView,
    q: Seq<char>,
    r1: Result<Response, ContractError>,
    r2: Result<Response, ContractError>,
)
    requires
        unique_questions(pre.polls),
        !has_poll(pre.polls, q),
        create_poll_outcome(pre, s1, q, r1),
        create_poll_outcome(s1, s2, q, r2),
    ensures
        r1 is Ok,
        lookup(s1.polls, q) == Some(PollView { question: q, yes_votes: 0, no_votes: 0 }),
        r2 is Err && r2->Err_0 == ContractError::DuplicateKeyError,
        s2 == s1,
{
    let zero = PollView { question: q, yes_votes: 0, no_votes: 0 };
    lemma_push_preserves_unique(pre.polls, zero);
    assert(s1.polls[pre.polls.len() as int] == zero);
    lemma_poll_index_unique(s1.polls, q, pre.polls.len() as int);
}

/// A successful vote moves the named poll by one step of the per-key
/// state machine and leaves every other poll exactly where it was.
pub proof fn lemma_vote_step_lookup(
    pre: StateView,
    post: StateView,
    q: Seq<char>,
    c: Seq<char>,
    r: Result<Response, ContractError>,
)
    requires
        unique_questions(pre.polls),
        has_poll(pre.polls, q),
        is_valid_choice(c),
        vote_outcome(pre, post, q, c, r),
    ensures
        r is Ok,
        unique_questions(post.polls),
        lookup(post.polls, q) == Some(apply_choice(poll_for(pre.polls, q), c)),
        forall|q2: Seq<char>| q2 != q ==> lookup(post.polls, q2) == lookup(pre.polls, q2),
{
    let i = poll_index(pre.polls, q);
    let stepped = apply_choice(poll_for(pre.polls, q), c);
    assert(0 <= i < pre.polls.len() && pre.polls[i].question == q);
    lemma_update_preserves_unique(pre.polls, i, stepped);
    lemma_poll_index_unique(post.polls, q, i);
    assert forall|q2: Seq<char>| q2 != q implies lookup(post.polls, q2) == lookup(
        pre.polls,
        q2,
    ) by {
        if has_poll(pre.polls, q2) {
            let k = poll_index(pre.polls, q2);
            assert(0 <= k < pre.polls.len() && pre.polls[k].question == q2);
            assert(post.polls[k] == pre.polls[k]);
            lemma_poll_index_unique(post.polls, q2, k);
            lemma_poll_index_unique(pre.polls, q2, k);
        } else {
            if has_poll(post.polls, q2) {
                let k = choose|k: int|
                    0 <= k < post.polls.len() && post.polls[k].question == q2;
                assert(pre.polls[k].question == q2);
            }
        }
    }
}

/// Commutative accumulation: after any sequence of valid votes on one
/// poll, the final counters are the initial ones plus the number of
/// "yes" and "no" entries in the sequence — the order contributes
/// nothing beyond those counts.
pub proof fn lemma_vote_sequence_counts(p: PollView, cs: Seq<Seq<char>>)
    requires
        forall|k: int| 0 <= k < cs.len() ==> is_valid_choice(#[trigger] cs[k]),
    ensures
        apply_choices(p, cs).question == p.question,
        apply_choices(p, cs).yes_votes == p.yes_votes + count_matching(cs, yes_choice()),
        apply_choices(p, cs).no_votes == p.no_votes + count_matching(cs, no_choice()),
    decreases cs.len(),
{
    lemma_yes_no_distinct();
    if cs.len() > 0 {
        let rest = cs.drop_first();
        assert(is_valid_choice(cs[0]));
        assert forall|k: int| 0 <= k < rest.len() implies is_valid_choice(#[trigger] rest[k]) by {
            assert(rest[k] == cs[k + 1]);
        }
        lemma_vote_sequence_counts(apply_choice(p, cs[0]), rest);
    }
}

} // verus!
