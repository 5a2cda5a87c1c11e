use superbuffer::identity::Identity;
use superbuffer::player::owned_records;
use superbuffer::response::{Record, Response, Value};

fn record(owner: &str, data: &str) -> Value {
    Value::Record(Record { owner: Identity::new(owner.to_string()), data: data.to_string() })
}

fn mixed_response() -> Response {
    Response {
        outputs: vec![
            record("A1", "a board"),
            Value::Plaintext("public note".to_string()),
            record("B1", "b board"),
            record("A1", "a move"),
        ],
    }
}

#[test]
fn a_player_sees_exactly_its_own_records_in_order() {
    let response = mixed_response();
    let records = owned_records(&response, &Identity::new("A1".to_string()));
    assert_eq!(records.len(), 2);
    assert_eq!(records[0].data, "a board".to_string());
    assert_eq!(records[1].data, "a move".to_string());
}

#[test]
fn no_player_receives_a_record_owned_by_the_other() {
    let response = mixed_response();
    let a = Identity::new("A1".to_string());
    let b = Identity::new("B1".to_string());
    for r in owned_records(&response, &a) {
        assert_ne!(r.owner, b);
        assert_eq!(r.owner, a);
    }
    for r in owned_records(&response, &b) {
        assert_ne!(r.owner, a);
        assert_eq!(r.owner, b);
    }
}

#[test]
fn plaintext_outputs_and_strangers_records_are_dropped() {
    let response = mixed_response();
    let stranger = Identity::new("C1".to_string());
    assert!(owned_records(&response, &stranger).is_empty());
    let empty = Response { outputs: vec![] };
    assert!(owned_records(&empty, &Identity::new("A1".to_string())).is_empty());
}
