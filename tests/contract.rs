use cosmwasm_std::testing::{mock_env, MockApi};
use cosmwasm_std::Api;
use vote::contract::{
    create_vote_box, execute, execute_vote, instantiate, query, query_vote, reset, ExecuteMsg,
    ExecuteResponse, QueryMsg, VoteResponse,
};
use vote::schedule::{Block, Deadline};
use vote::state::{ContractError, Tally, VoteBox, VoteState};

fn block_now() -> Block {
    let env = mock_env();
    Block {
        height: env.block.height,
        time: env.block.time.nanos(),
    }
}

fn address_ok(addr: &str) -> bool {
    MockApi::default().addr_validate(addr).is_ok()
}

fn admin() -> String {
    "admin".to_string()
}

fn fresh(deadline: Deadline) -> VoteState {
    instantiate(&admin(), deadline).unwrap()
}

#[test]
fn proper_initialization() {
    let state = instantiate(&admin(), Deadline::AtHeight(123)).unwrap();
    let res = query_vote(&state, None).unwrap();
    assert_eq!("0", res.yes_count.to_string());
    assert_eq!("0", res.no_count.to_string());
}

#[test]
fn execution_test() {
    let deadline = Deadline::AtHeight(123111);
    let mut state = instantiate(&admin(), deadline).unwrap();
    let res = query_vote(&state, None).unwrap();
    assert_eq!("0", res.yes_count.to_string());

    let msg = ExecuteMsg::CreateVoteBox {
        deadline,
        owner: "simon".to_string(),
    };
    let valid = address_ok("simon");
    let res = execute(&mut state, &block_now(), &admin(), msg, valid).unwrap();
    match res {
        ExecuteResponse::Created { id, owner } => {
            assert_eq!("1", id.to_string());
            assert_eq!("simon", owner);
        }
        other => panic!("unexpected response {:?}", other),
    }

    let msg = ExecuteMsg::Vote { id: Some(1), vote: true };
    let res = execute(&mut state, &block_now(), &admin(), msg, false).unwrap();
    match res {
        ExecuteResponse::Voted { tally } => {
            assert_eq!("1", tally.yes_count.to_string(), "Value is {}", tally.yes_count)
        }
        other => panic!("unexpected response {:?}", other),
    }

    let msg = ExecuteMsg::Vote { id: Some(1), vote: false };
    let res = execute(&mut state, &block_now(), &admin(), msg, false).unwrap();
    match res {
        ExecuteResponse::Voted { tally } => {
            assert_eq!("1", tally.no_count.to_string(), "Value is {}", tally.yes_count)
        }
        other => panic!("unexpected response {:?}", other),
    }

    let msg = ExecuteMsg::VoteReset { id: Some(1) };
    let simon = "simon".to_string();
    let res = execute(&mut state, &block_now(), &simon, msg, false).unwrap();
    match res {
        ExecuteResponse::Reset { tally, caller } => {
            assert_eq!("0", tally.yes_count.to_string(), "Value is {}", tally.yes_count);
            assert_eq!("0", tally.no_count.to_string(), "Value is {}", tally.no_count);
            assert_eq!("simon", caller, "Value is {}", caller);
        }
        other => panic!("unexpected response {:?}", other),
    }
}

#[test]
fn instantiate_by_non_admin_is_refused() {
    let r = instantiate(&"simon".to_string(), Deadline::AtHeight(123));
    assert!(matches!(r, Err(ContractError::Unauthorized)));
}

#[test]
fn two_yes_votes_then_reset_by_owner() {
    let mut state = fresh(Deadline::AtHeight(123111));
    let block = block_now();
    execute_vote(&mut state, &block, None, true).unwrap();
    execute_vote(&mut state, &block, None, true).unwrap();
    let q = query(&state, QueryMsg::QueryVote { id: None }).unwrap();
    assert_eq!(
        q,
        VoteResponse {
            yes_count: 2,
            no_count: 0,
            deadline: Deadline::AtHeight(123111)
        }
    );
    let t = reset(&mut state, &block, &admin(), None).unwrap();
    assert_eq!(t, Tally { yes_count: 0, no_count: 0 });
    let q = query(&state, QueryMsg::QueryVote { id: None }).unwrap();
    assert_eq!((q.yes_count, q.no_count), (0, 0));
}

#[test]
fn each_vote_raises_one_counter() {
    let mut state = fresh(Deadline::AtHeight(123111));
    let block = block_now();
    let votes = [true, false, true, true, false, true, true];
    let mut accepted: u128 = 0;
    for v in votes {
        let before = query_vote(&state, None).unwrap();
        let t = execute_vote(&mut state, &block, None, v).unwrap();
        accepted += 1;
        if v {
            assert_eq!(t, Tally { yes_count: before.yes_count + 1, no_count: before.no_count });
        } else {
            assert_eq!(t, Tally { yes_count: before.yes_count, no_count: before.no_count + 1 });
        }
        assert_eq!(t.yes_count + t.no_count, accepted);
    }
    let q = query_vote(&state, None).unwrap();
    assert_eq!((q.yes_count, q.no_count), (5, 2));
}

#[test]
fn expired_record_refuses_votes_and_reset() {
    let mut state = fresh(Deadline::AtHeight(100));
    let early = Block { height: 99, time: 0 };
    execute_vote(&mut state, &early, None, true).unwrap();
    let late = Block { height: 100, time: 0 };
    assert_eq!(execute_vote(&mut state, &late, None, false), Err(ContractError::Expired));
    assert_eq!(reset(&mut state, &late, &admin(), None), Err(ContractError::Expired));
    let q = query_vote(&state, None).unwrap();
    assert_eq!((q.yes_count, q.no_count), (1, 0));
}

#[test]
fn reset_by_non_owner_is_refused() {
    let mut state = fresh(Deadline::AtHeight(123111));
    let block = block_now();
    execute_vote(&mut state, &block, None, false).unwrap();
    let r = reset(&mut state, &block, &"simon".to_string(), None);
    assert_eq!(r, Err(ContractError::Unauthorized));
    let q = query_vote(&state, None).unwrap();
    assert_eq!((q.yes_count, q.no_count), (0, 1));
}

#[test]
fn owner_is_checked_before_deadline() {
    let mut state = fresh(Deadline::AtHeight(10));
    let late = Block { height: 50, time: 0 };
    let r = reset(&mut state, &late, &"simon".to_string(), None);
    assert_eq!(r, Err(ContractError::Unauthorized));
}

#[test]
fn box_ids_increase_from_one() {
    let mut state = fresh(Deadline::AtHeight(123111));
    for expected in 1..=4u64 {
        let id = create_vote_box(&mut state, Deadline::AtHeight(500), "simon".to_string(), true).unwrap();
        assert_eq!(id, expected);
    }
}

#[test]
fn votes_on_one_box_leave_another_alone() {
    let mut state = fresh(Deadline::AtHeight(123111));
    let block = block_now();
    create_vote_box(&mut state, Deadline::AtHeight(123111), "simon".to_string(), true).unwrap();
    create_vote_box(&mut state, Deadline::AtHeight(123111), "alice".to_string(), true).unwrap();
    execute_vote(&mut state, &block, Some(1), true).unwrap();
    execute_vote(&mut state, &block, Some(1), true).unwrap();
    execute_vote(&mut state, &block, Some(1), false).unwrap();
    let one = query_vote(&state, Some(1)).unwrap();
    let two = query_vote(&state, Some(2)).unwrap();
    let global = query_vote(&state, None).unwrap();
    assert_eq!((one.yes_count, one.no_count), (2, 1));
    assert_eq!((two.yes_count, two.no_count), (0, 0));
    assert_eq!((global.yes_count, global.no_count), (0, 0));
}

#[test]
fn unknown_box_is_not_found() {
    let mut state = fresh(Deadline::AtHeight(123111));
    let block = block_now();
    assert_eq!(execute_vote(&mut state, &block, Some(1), true), Err(ContractError::NotFound));
    assert_eq!(execute_vote(&mut state, &block, Some(0), true), Err(ContractError::NotFound));
    assert_eq!(reset(&mut state, &block, &admin(), Some(3)), Err(ContractError::NotFound));
    assert_eq!(query_vote(&state, Some(1)), Err(ContractError::NotFound));
}

#[test]
fn invalid_owner_address_is_refused() {
    let mut state = fresh(Deadline::AtHeight(123111));
    let valid = address_ok("");
    assert!(!valid);
    let r = create_vote_box(&mut state, Deadline::AtHeight(500), String::new(), valid);
    assert_eq!(r, Err(ContractError::InvalidAddress));
    assert_eq!(state.seq, 0);
    assert!(state.boxes.is_empty());
}

#[test]
fn full_counter_overflows() {
    let mut state = VoteState {
        global: VoteBox {
            id: 0,
            yes_count: u128::MAX,
            no_count: 7,
            deadline: Deadline::AtHeight(1000),
            owner: admin(),
        },
        seq: 0,
        boxes: Vec::new(),
    };
    let block = Block { height: 1, time: 0 };
    assert_eq!(execute_vote(&mut state, &block, None, true), Err(ContractError::Overflow));
    assert_eq!(execute_vote(&mut state, &block, None, false), Ok(Tally { yes_count: u128::MAX, no_count: 8 }));
}

#[test]
fn exhausted_sequence_overflows() {
    let mut state = fresh(Deadline::AtHeight(1000));
    state.seq = u64::MAX;
    let r = create_vote_box(&mut state, Deadline::AtHeight(500), "simon".to_string(), true);
    assert_eq!(r, Err(ContractError::Overflow));
}

#[test]
fn expired_box_still_answers_queries() {
    let mut state = fresh(Deadline::AtHeight(123111));
    create_vote_box(&mut state, Deadline::AtTime(2_000), "simon".to_string(), true).unwrap();
    let before = Block { height: 1, time: 1_999 };
    execute_vote(&mut state, &before, Some(1), true).unwrap();
    let after = Block { height: 1, time: 2_000 };
    assert_eq!(execute_vote(&mut state, &after, Some(1), true), Err(ContractError::Expired));
    let q = query_vote(&state, Some(1)).unwrap();
    assert_eq!(q, VoteResponse { yes_count: 1, no_count: 0, deadline: Deadline::AtTime(2_000) });
}

#[test]
fn deadlines_trigger_at_their_mark() {
    let b = Block { height: 100, time: 5_000 };
    assert!(!Deadline::AtHeight(101).is_triggered(&b));
    assert!(Deadline::AtHeight(100).is_triggered(&b));
    assert!(Deadline::AtHeight(0).is_triggered(&b));
    assert!(!Deadline::AtTime(5_001).is_triggered(&b));
    assert!(Deadline::AtTime(5_000).is_triggered(&b));
    assert!(!Deadline::AtHeight(123111).is_triggered(&block_now()));
    assert!(Deadline::AtTime(5_000).is_triggered(&block_now()));
}
