use vstd::prelude::*;

use crate::identity::Identity;

verus! {

/// Why a connection's opening handshake failed.
#[derive(Clone, Copy, Debug, PartialEq, Eq, Structural)]
pub enum HandshakeError {
    /// The connection closed, or the first frame was not text, before an
    /// identity arrived.
    MissingIdentity,
}

/// Reads the opening handshake: the first inbound frame must carry the text
/// form of the connecting player's identity. A connection that yields no such
/// frame is turned away and never queued.
pub fn handshake(first_frame: Option<String>) -> (r: Result<Identity, HandshakeError>)
    ensures
        first_frame matches Some(text) ==> r matches Ok(id) && id@ == text@,
        first_frame is None ==> r == Err::<Identity, HandshakeError>(
            HandshakeError::MissingIdentity,
        ),
{
    match first_frame {
        Some(text) => Ok(Identity::new(text)),
        None => Err(HandshakeError::MissingIdentity),
    }
}

/// Pairs arriving connections two at a time, first come first served: no
/// re-matching, no skip-ahead, no priority.
///
/// The type of the queued connections is the caller's; the matchmaker only
/// holds and pairs them.
pub struct Matchmaker<T> {
    waiting: Vec<T>,
}

impl<T> View for Matchmaker<T> {
    type V = Seq<T>;

    closed spec fn view(&self) -> Seq<T> {
        self.waiting@
    }
}

impl<T> Matchmaker<T> {
    /// Opens a matchmaker with nobody waiting.
    pub fn new() -> (r: Matchmaker<T>)
        ensures
            r@ == Seq::<T>::empty(),
    {
        let r = Matchmaker { waiting: Vec::new() };
        proof {
            assert(r@ =~= Seq::<T>::empty());
        }
        r
    }

    /// Queues one handshaked connection. The moment two are waiting they are
    /// paired, in arrival order, and handed back; otherwise the connection
    /// waits for the next arrival.
    pub fn enqueue(&mut self, connection: T) -> (r: Option<(T, T)>)
        requires
            old(self)@.len() < 2,
        ensures
            old(self)@.len() == 0 ==> r is None && final(self)@ == old(self)@.push(connection),
            old(self)@.len() == 1 ==> r == Some((old(self)@[0], connection)) && final(self)@
                == Seq::<T>::empty(),
    {
        self.waiting.push(connection);
        if self.waiting.len() == 2 {
            let second = self.waiting.pop().unwrap();
            let first = self.waiting.pop().unwrap();
            proof {
                assert(self@ =~= Seq::<T>::empty());
            }
            Some((first, second))
        } else {
            None
        }
    }

    /// How many connections are waiting to be paired.
    pub fn waiting_len(&self) -> (r: usize)
        ensures
            r == self@.len(),
    {
        self.waiting.len()
    }
}

} // verus!
