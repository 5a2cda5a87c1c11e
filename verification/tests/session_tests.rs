use superbuffer::identity::Identity;
use superbuffer::player::PlayerMessage;
use superbuffer::requests::{ProtocolError, Request};
use superbuffer::response::{Record, Response, Value};
use superbuffer::session::{transaction_notice, SessionError};
use superbuffer::table::{ChessTable, Status};

fn request(program_id: &str, function_name: &str, caller: &str) -> Request {
    Request::new(
        program_id.to_string(),
        function_name.to_string(),
        Identity::new(caller.to_string()),
        "payload".to_string(),
    )
}

fn new_table() -> ChessTable {
    ChessTable::new(Identity::new("A1".to_string()), Identity::new("B1".to_string()))
}

fn record(owner: &str, data: &str) -> Value {
    Value::Record(Record { owner: Identity::new(owner.to_string()), data: data.to_string() })
}

#[test]
fn start_messages_announce_seats_and_opponents() {
    let table = new_table();
    let (to_a, to_b) = table.start_messages();
    match to_a {
        PlayerMessage::Start(seat, opponent) => {
            assert_eq!(seat, "A".to_string());
            assert_eq!(opponent, Identity::new("B1".to_string()));
        },
        _ => panic!("player A expects a seat announcement"),
    }
    match to_b {
        PlayerMessage::Start(seat, opponent) => {
            assert_eq!(seat, "B".to_string());
            assert_eq!(opponent, Identity::new("A1".to_string()));
        },
        _ => panic!("player B expects a seat announcement"),
    }
}

#[test]
fn an_accepted_turn_notifies_both_players_with_their_own_records() {
    let mut table = new_table();
    let batch = vec![
        request("battleship.aleo", "initialize_board", "A1"),
        request("battleship.aleo", "play", "A1"),
    ];
    let response = Response {
        outputs: vec![record("A1", "a board"), record("B1", "b board")],
    };
    let outcome = table.session_step(batch, &response).expect("accepted");
    assert_eq!(outcome.status, Status::BInitialize);
    assert_eq!(table.status(), Status::BInitialize);
    // The whole batch, in order, goes on to the proof pipeline.
    assert_eq!(outcome.proof_batch.len(), 2);
    assert_eq!(outcome.proof_batch[0].function_name, "initialize_board".to_string());
    assert_eq!(outcome.proof_batch[1].function_name, "play".to_string());
    match outcome.notify_a {
        PlayerMessage::GameStatus(status, records) => {
            assert_eq!(status, Status::BInitialize);
            assert_eq!(records.len(), 1);
            assert_eq!(records[0].owner, Identity::new("A1".to_string()));
            assert_eq!(records[0].data, "a board".to_string());
        },
        _ => panic!("player A expects a status message"),
    }
    match outcome.notify_b {
        PlayerMessage::GameStatus(status, records) => {
            assert_eq!(status, Status::BInitialize);
            assert_eq!(records.len(), 1);
            assert_eq!(records[0].owner, Identity::new("B1".to_string()));
            assert_eq!(records[0].data, "b board".to_string());
        },
        _ => panic!("player B expects a status message"),
    }
}

#[test]
fn an_empty_batch_aborts_the_session() {
    let mut table = new_table();
    let response = Response { outputs: vec![] };
    let r = table.session_step(vec![], &response);
    assert!(matches!(r, Err(SessionError::EmptyBatch)));
    assert_eq!(table.status(), Status::AInitialize);
}

#[test]
fn a_wrong_program_aborts_the_session() {
    let mut table = new_table();
    let response = Response { outputs: vec![] };
    let batch = vec![request("credits.aleo", "initialize_board", "A1")];
    let r = table.session_step(batch, &response);
    assert!(matches!(r, Err(SessionError::Protocol(ProtocolError::WrongProgram))));
    assert_eq!(table.status(), Status::AInitialize);
}

#[test]
fn an_unknown_function_aborts_the_session() {
    let mut table = new_table();
    let response = Response { outputs: vec![] };
    let batch = vec![request("battleship.aleo", "surrender", "A1")];
    let r = table.session_step(batch, &response);
    assert!(matches!(r, Err(SessionError::Protocol(ProtocolError::UnknownFunction))));
    assert_eq!(table.status(), Status::AInitialize);
}

#[test]
fn a_phase_mismatch_aborts_the_session_and_changes_nothing() {
    let mut table = new_table();
    let response = Response { outputs: vec![] };
    let batch = vec![request("battleship.aleo", "play", "B1")];
    let r = table.session_step(batch, &response);
    match r {
        Err(SessionError::Phase(e)) => {
            assert_eq!(e.phase, Status::AInitialize);
            assert_eq!(e.actual_caller, Identity::new("B1".to_string()));
        },
        _ => panic!("a play before the opening must be rejected"),
    }
    assert_eq!(table.status(), Status::AInitialize);
}

#[test]
fn a_transaction_notice_carries_the_identifier() {
    let notice = transaction_notice("at1example");
    match notice {
        PlayerMessage::TxID(id) => assert_eq!(id, "at1example".to_string()),
        _ => panic!("expected a transaction notice"),
    }
}
