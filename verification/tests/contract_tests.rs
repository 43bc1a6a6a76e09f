use cosmwasm_std::attr;
use poll_contract::contract::{execute, instantiate, query, query_get_poll};
use poll_contract::msg::{ExecuteMsg, GetPollResponse, InstantiateMsg, QueryAnswer, QueryMsg};
use poll_contract::state::{Config, ContractState, Poll};
use poll_contract::ContractError;

fn initialized_state() -> ContractState {
    let mut state = ContractState::new();
    let msg = InstantiateMsg {
        admin_address: "addr1".to_string(),
    };
    instantiate(&mut state, msg, true).unwrap();
    state
}

#[test]
fn test_instantiate() {
    let mut state = ContractState::new();
    let msg = InstantiateMsg {
        admin_address: "addr1".to_string(),
    };

    let resp = instantiate(&mut state, msg, true).unwrap();
    assert_eq!(resp.attributes, vec![attr("action", "instantiate")]);

    let msg = QueryMsg::GetConfig {};
    let resp = query(&state, msg);
    match resp {
        QueryAnswer::Config(config) => assert_eq!(
            config,
            Config {
                admin_address: "addr1".to_string()
            }
        ),
        other => panic!("expected a config answer, got {:?}", other),
    }
}

#[test]
fn test_create_poll() {
    let mut state = initialized_state();

    let msg = ExecuteMsg::CreatePoll {
        question: "Do you like grapes?".to_string(),
    };

    let resp = execute(&mut state, msg).unwrap();
    assert_eq!(resp.attributes, vec![attr("action", "create_poll")]);

    let msg = QueryMsg::GetPoll {
        question: "Do you like grapes?".to_string(),
    };
    let resp = query(&state, msg);
    match resp {
        QueryAnswer::Poll(get_polls_response) => assert_eq!(
            get_polls_response,
            GetPollResponse {
                poll: Some(Poll {
                    question: "Do you like grapes?".to_string(),
                    yes_votes: 0,
                    no_votes: 0,
                })
            }
        ),
        other => panic!("expected a poll answer, got {:?}", other),
    }

    let msg = ExecuteMsg::CreatePoll {
        question: "Do you like grapes?".to_string(),
    };

    let _resp = execute(&mut state, msg).unwrap_err();
}

#[test]
fn test_vote() {
    let mut state = initialized_state();

    let msg = ExecuteMsg::CreatePoll {
        question: "Do you like grapes?".to_string(),
    };

    let _resp = execute(&mut state, msg).unwrap();

    // Vote on a poll that does not exist.
    let msg = ExecuteMsg::Vote {
        question: "this poll doesnt exist".to_string(),
        choice: "yes".to_string(),
    };

    let _resp = execute(&mut state, msg).unwrap_err();

    // Vote with an invalid choice.
    let msg = ExecuteMsg::Vote {
        question: "Do you like grapes?".to_string(),
        choice: "abc".to_string(),
    };

    let _resp = execute(&mut state, msg).unwrap_err();

    // Vote yes.
    let msg = ExecuteMsg::Vote {
        question: "Do you like grapes?".to_string(),
        choice: "yes".to_string(),
    };

    let resp = execute(&mut state, msg).unwrap();
    assert_eq!(resp.attributes, vec![attr("action", "vote")]);

    let msg = QueryMsg::GetPoll {
        question: "Do you like grapes?".to_string(),
    };
    let resp = query(&state, msg);
    match resp {
        QueryAnswer::Poll(get_poll_resp) => assert_eq!(
            get_poll_resp,
            GetPollResponse {
                poll: Some(Poll {
                    question: "Do you like grapes?".to_string(),
                    yes_votes: 1,
                    no_votes: 0,
                })
            }
        ),
        other => panic!("expected a poll answer, got {:?}", other),
    }

    // Vote no.
    let msg = ExecuteMsg::Vote {
        question: "Do you like grapes?".to_string(),
        choice: "no".to_string(),
    };

    let _resp = execute(&mut state, msg).unwrap();
}

#[test]
fn test_instantiate_invalid_address() {
    let mut state = ContractState::new();
    let msg = InstantiateMsg {
        admin_address: "not an address".to_string(),
    };

    let err = instantiate(&mut state, msg, false).unwrap_err();
    assert_eq!(err, ContractError::InvalidAddress);
}

#[test]
fn test_create_poll_duplicate_error() {
    let mut state = initialized_state();

    let msg = ExecuteMsg::CreatePoll {
        question: "q".to_string(),
    };
    execute(&mut state, msg).unwrap();

    let msg = ExecuteMsg::CreatePoll {
        question: "q".to_string(),
    };
    let err = execute(&mut state, msg).unwrap_err();
    assert_eq!(err, ContractError::DuplicateKeyError);

    // The stored poll is unchanged by the rejected creation.
    let resp = query_get_poll(&state, "q".to_string());
    assert_eq!(
        resp,
        GetPollResponse {
            poll: Some(Poll {
                question: "q".to_string(),
                yes_votes: 0,
                no_votes: 0,
            })
        }
    );
}

#[test]
fn test_vote_missing_poll_error() {
    let mut state = initialized_state();

    let msg = ExecuteMsg::Vote {
        question: "never created".to_string(),
        choice: "yes".to_string(),
    };
    let err = execute(&mut state, msg).unwrap_err();
    assert_eq!(err, ContractError::NotFoundError);

    // The failed vote created no poll.
    let resp = query_get_poll(&state, "never created".to_string());
    assert_eq!(resp, GetPollResponse { poll: None });
}

#[test]
fn test_vote_invalid_choice_error() {
    let mut state = initialized_state();

    let msg = ExecuteMsg::CreatePoll {
        question: "q".to_string(),
    };
    execute(&mut state, msg).unwrap();

    let msg = ExecuteMsg::Vote {
        question: "q".to_string(),
        choice: "maybe".to_string(),
    };
    let err = execute(&mut state, msg).unwrap_err();
    assert_eq!(err, ContractError::InvalidChoiceError);

    // The rejected vote left the counters unchanged.
    let resp = query_get_poll(&state, "q".to_string());
    assert_eq!(
        resp,
        GetPollResponse {
            poll: Some(Poll {
                question: "q".to_string(),
                yes_votes: 0,
                no_votes: 0,
            })
        }
    );
}

#[test]
fn test_get_poll_absent_is_not_an_error() {
    let state = initialized_state();
    let resp = query(&state, QueryMsg::GetPoll {
        question: "never created".to_string(),
    });
    assert_eq!(resp, QueryAnswer::Poll(GetPollResponse { poll: None }));
}

#[test]
fn test_vote_counts_ignore_order() {
    let choices_a = ["yes", "no", "yes", "yes", "no"];
    let choices_b = ["no", "yes", "yes", "no", "yes"];

    let mut finals = Vec::new();
    for choices in [choices_a, choices_b] {
        let mut state = initialized_state();
        execute(
            &mut state,
            ExecuteMsg::CreatePoll {
                question: "q".to_string(),
            },
        )
        .unwrap();
        for choice in choices {
            execute(
                &mut state,
                ExecuteMsg::Vote {
                    question: "q".to_string(),
                    choice: choice.to_string(),
                },
            )
            .unwrap();
        }
        finals.push(query_get_poll(&state, "q".to_string()));
    }

    let expected = GetPollResponse {
        poll: Some(Poll {
            question: "q".to_string(),
            yes_votes: 3,
            no_votes: 2,
        }),
    };
    assert_eq!(finals[0], expected);
    assert_eq!(finals[1], expected);
}

#[test]
fn test_end_to_end() {
    let mut state = ContractState::new();
    instantiate(
        &mut state,
        InstantiateMsg {
            admin_address: "addr1".to_string(),
        },
        true,
    )
    .unwrap();

    execute(
        &mut state,
        ExecuteMsg::CreatePoll {
            question: "Do you like grapes?".to_string(),
        },
    )
    .unwrap();

    let resp = query_get_poll(&state, "Do you like grapes?".to_string());
    assert_eq!(
        resp,
        GetPollResponse {
            poll: Some(Poll {
                question: "Do you like grapes?".to_string(),
                yes_votes: 0,
                no_votes: 0,
            })
        }
    );

    execute(
        &mut state,
        ExecuteMsg::Vote {
            question: "Do you like grapes?".to_string(),
            choice: "yes".to_string(),
        },
    )
    .unwrap();
    let resp = query_get_poll(&state, "Do you like grapes?".to_string());
    let poll = resp.poll.unwrap();
    assert_eq!((poll.yes_votes, poll.no_votes), (1, 0));

    execute(
        &mut state,
        ExecuteMsg::Vote {
            question: "Do you like grapes?".to_string(),
            choice: "no".to_string(),
        },
    )
    .unwrap();
    let resp = query_get_poll(&state, "Do you like grapes?".to_string());
    let poll = resp.poll.unwrap();
    assert_eq!((poll.yes_votes, poll.no_votes), (1, 1));
}

#[test]
fn test_polls_are_independent() {
    let mut state = initialized_state();
    for q in ["first", "second"] {
        execute(
            &mut state,
            ExecuteMsg::CreatePoll {
                question: q.to_string(),
            },
        )
        .unwrap();
    }
    execute(
        &mut state,
        ExecuteMsg::Vote {
            question: "first".to_string(),
            choice: "yes".to_string(),
        },
    )
    .unwrap();

    let first = query_get_poll(&state, "first".to_string()).poll.unwrap();
    let second = query_get_poll(&state, "second".to_string()).poll.unwrap();
    assert_eq!((first.yes_votes, first.no_votes), (1, 0));
    assert_eq!((second.yes_votes, second.no_votes), (0, 0));
}
