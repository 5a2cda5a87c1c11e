use superbuffer::identity::Identity;
use superbuffer::matchmaker::{handshake, HandshakeError, Matchmaker};

#[test]
fn handshake_takes_the_first_text_frame_as_the_identity() {
    let r = handshake(Some("A1".to_string()));
    assert_eq!(r, Ok(Identity::new("A1".to_string())));
}

#[test]
fn a_connection_without_an_identity_is_turned_away() {
    let r = handshake(None);
    assert_eq!(r, Err(HandshakeError::MissingIdentity));
}

#[test]
fn arrivals_are_paired_two_at_a_time_in_order() {
    let mut matchmaker: Matchmaker<u32> = Matchmaker::new();
    assert_eq!(matchmaker.enqueue(1), None);
    assert_eq!(matchmaker.waiting_len(), 1);
    assert_eq!(matchmaker.enqueue(2), Some((1, 2)));
    assert_eq!(matchmaker.waiting_len(), 0);
    assert_eq!(matchmaker.enqueue(3), None);
    assert_eq!(matchmaker.enqueue(4), Some((3, 4)));
    assert_eq!(matchmaker.waiting_len(), 0);
}
