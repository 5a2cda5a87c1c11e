use superbuffer::identity::Identity;
use superbuffer::requests::{action_from_request, ActionKind, Request};
use superbuffer::table::{ChessTable, Status};

fn request(function_name: &str, caller: &str) -> Request {
    Request::new(
        "battleship.aleo".to_string(),
        function_name.to_string(),
        Identity::new(caller.to_string()),
        "payload".to_string(),
    )
}

fn apply(table: &mut ChessTable, function_name: &str, caller: &str) -> Result<Status, ()> {
    let action = action_from_request(request(function_name, caller)).expect("classifies");
    table.update_action(action).map_err(|_| ())
}

#[test]
fn cooperative_run_walks_the_phase_sequence() {
    let mut table = ChessTable::new(
        Identity::new("A1".to_string()),
        Identity::new("B1".to_string()),
    );
    assert_eq!(table.status(), Status::AInitialize);
    assert_eq!(apply(&mut table, "initialize_board", "A1"), Ok(Status::BInitialize));
    assert_eq!(apply(&mut table, "initialize_board", "B1"), Ok(Status::AOffer));
    assert_eq!(apply(&mut table, "offer_battleship", "A1"), Ok(Status::BStart));
    assert_eq!(apply(&mut table, "start_battleship", "B1"), Ok(Status::ATurn));
    assert_eq!(apply(&mut table, "play", "A1"), Ok(Status::BTurn));
    assert_eq!(apply(&mut table, "play", "B1"), Ok(Status::ATurn));
    assert_eq!(apply(&mut table, "play", "A1"), Ok(Status::BTurn));
    assert_eq!(apply(&mut table, "play", "B1"), Ok(Status::ATurn));
}

#[test]
fn rejection_leaves_the_phase_unchanged() {
    let mut table = ChessTable::new(
        Identity::new("A1".to_string()),
        Identity::new("B1".to_string()),
    );
    assert_eq!(apply(&mut table, "initialize_board", "A1"), Ok(Status::BInitialize));
    // While phase is BInitialize, a second Initialize from A1 is rejected
    // and the phase stays BInitialize.
    assert_eq!(apply(&mut table, "initialize_board", "A1"), Err(()));
    assert_eq!(table.status(), Status::BInitialize);
}

#[test]
fn duplicate_of_an_accepted_move_is_rejected_after_the_phase_advances() {
    let mut table = ChessTable::new(
        Identity::new("A1".to_string()),
        Identity::new("B1".to_string()),
    );
    assert_eq!(apply(&mut table, "initialize_board", "A1"), Ok(Status::BInitialize));
    assert_eq!(apply(&mut table, "initialize_board", "B1"), Ok(Status::AOffer));
    assert_eq!(apply(&mut table, "offer_battleship", "A1"), Ok(Status::BStart));
    // Resubmitting the already-accepted offer does not apply twice.
    assert_eq!(apply(&mut table, "offer_battleship", "A1"), Err(()));
    assert_eq!(table.status(), Status::BStart);
    assert_eq!(apply(&mut table, "start_battleship", "B1"), Ok(Status::ATurn));
    assert_eq!(apply(&mut table, "play", "A1"), Ok(Status::BTurn));
    assert_eq!(apply(&mut table, "play", "A1"), Err(()));
    assert_eq!(table.status(), Status::BTurn);
}

#[test]
fn wrong_caller_is_rejected() {
    let mut table = ChessTable::new(
        Identity::new("A1".to_string()),
        Identity::new("B1".to_string()),
    );
    // The opening Initialize must come from player A.
    assert_eq!(apply(&mut table, "initialize_board", "B1"), Err(()));
    assert_eq!(table.status(), Status::AInitialize);
    // A caller who is neither player is rejected too.
    assert_eq!(apply(&mut table, "initialize_board", "C1"), Err(()));
    assert_eq!(table.status(), Status::AInitialize);
}

#[test]
fn wrong_action_is_rejected() {
    let mut table = ChessTable::new(
        Identity::new("A1".to_string()),
        Identity::new("B1".to_string()),
    );
    assert_eq!(apply(&mut table, "play", "A1"), Err(()));
    assert_eq!(apply(&mut table, "offer_battleship", "A1"), Err(()));
    assert_eq!(apply(&mut table, "start_battleship", "A1"), Err(()));
    assert_eq!(table.status(), Status::AInitialize);
}

#[test]
fn phase_error_carries_expected_versus_actual() {
    let mut table = ChessTable::new(
        Identity::new("A1".to_string()),
        Identity::new("B1".to_string()),
    );
    let action = action_from_request(request("play", "B1")).expect("classifies");
    let error = table.update_action(action).expect_err("rejected");
    assert_eq!(error.phase, Status::AInitialize);
    assert_eq!(error.expected_kind, ActionKind::Initialize);
    assert_eq!(error.expected_caller, Identity::new("A1".to_string()));
    assert_eq!(error.actual_kind, ActionKind::Play);
    assert_eq!(error.actual_caller, Identity::new("B1".to_string()));
}
