use vstd::prelude::*;

use crate::identity::Identity;
use crate::requests::{ActionKind, ActionRequest, Request, RequestView};

verus! {

/// The position of a session in the two-party turn protocol.
///
/// The order is `AInitialize -> BInitialize -> AOffer -> BStart`, after which
/// `ATurn` and `BTurn` alternate indefinitely; no terminal state exists.
#[derive(Clone, Copy, Debug, PartialEq, Eq, Structural)]
pub enum Status {
    AInitialize,
    BInitialize,
    AOffer,
    BStart,
    ATurn,
    BTurn,
}

/// The protocol action that the given phase accepts.
pub open spec fn required_kind(status: Status) -> ActionKind {
    match status {
        Status::AInitialize => ActionKind::Initialize,
        Status::BInitialize => ActionKind::Initialize,
        Status::AOffer => ActionKind::Offer,
        Status::BStart => ActionKind::Start,
        Status::ATurn => ActionKind::Play,
        Status::BTurn => ActionKind::Play,
    }
}

/// Whether the given phase requires the move to come from player A
/// (otherwise it must come from player B).
pub open spec fn requires_player_a(status: Status) -> bool {
    match status {
        Status::AInitialize => true,
        Status::BInitialize => false,
        Status::AOffer => true,
        Status::BStart => false,
        Status::ATurn => true,
        Status::BTurn => false,
    }
}

/// The phase that follows the given phase once the one action it accepts has
/// been applied.
pub open spec fn next_status(status: Status) -> Status {
    match status {
        Status::AInitialize => Status::BInitialize,
        Status::BInitialize => Status::AOffer,
        Status::AOffer => Status::BStart,
        Status::BStart => Status::ATurn,
        Status::ATurn => Status::BTurn,
        Status::BTurn => Status::ATurn,
    }
}

/// The transition table: a `(phase, action, caller)` triple is accepted
/// exactly when the action is the one the phase requires and the caller is
/// the player whose turn it is.
pub open spec fn table_accepts(
    status: Status,
    kind: ActionKind,
    caller: Seq<char>,
    player_a: Seq<char>,
    player_b: Seq<char>,
) -> bool {
    &&& kind == required_kind(status)
    &&& caller == if requires_player_a(status) {
        player_a
    } else {
        player_b
    }
}

/// A rejected move: the action or its caller did not fit the current phase.
/// Carries the expectation alongside what actually arrived.
#[derive(Debug)]
pub struct PhaseError {
    /// The phase the session was in; rejection leaves it unchanged.
    pub phase: Status,
    /// The action that phase would have accepted.
    pub expected_kind: ActionKind,
    /// The player whose move that phase was waiting for.
    pub expected_caller: Identity,
    /// The action that actually arrived.
    pub actual_kind: ActionKind,
    /// The player that actually sent the move.
    pub actual_caller: Identity,
}

/// The per-session turn-protocol state machine.
///
/// It pairs the two players' identities with the append-only log of accepted
/// requests and the current phase. The log grows only on acceptance, and a
/// rejected move changes nothing.
pub struct ChessTable {
    player_a: Identity,
    player_b: Identity,
    requests: Vec<Request>,
    status: Status,
}

/// The mathematical value of a [`ChessTable`].
pub ghost struct TableView {
    pub player_a: Seq<char>,
    pub player_b: Seq<char>,
    pub log: Seq<RequestView>,
    pub status: Status,
}

impl View for ChessTable {
    type V = TableView;

    closed spec fn view(&self) -> TableView {
        TableView {
            player_a: self.player_a@,
            player_b: self.player_b@,
            log: self.requests.deep_view(),
            status: self.status,
        }
    }
}

impl TableView {
    /// What holds of every table that was opened fresh and only ever fed
    /// moves through [`ChessTable::update_action`]: the phase is exactly the
    /// one reached by as many accepted moves as the log holds, and each
    /// logged move was sent by the player whose turn its position was.
    pub open spec fn wf(self) -> bool {
        &&& self.status == phase_after(self.log.len() as nat)
        &&& forall|i: int|
            0 <= i < self.log.len() ==> (#[trigger] self.log[i]).caller == if requires_player_a(
                phase_after(i as nat),
            ) {
                self.player_a
            } else {
                self.player_b
            }
    }
}

impl ChessTable {
    /// Opens a fresh table for the two given players, with an empty log, in
    /// the initial phase.
    pub fn new(player_a: Identity, player_b: Identity) -> (r: ChessTable)
        ensures
            r@.player_a == player_a@,
            r@.player_b == player_b@,
            r@.log == Seq::<RequestView>::empty(),
            r@.status == Status::AInitialize,
            r@.wf(),
    {
        let r = ChessTable { player_a, player_b, requests: Vec::new(), status: Status::AInitialize };
        proof {
            assert(r@.log =~= Seq::<RequestView>::empty());
        }
        r
    }

    /// The identity seated as player A.
    pub fn player_a_identity(&self) -> (r: &Identity)
        ensures
            r@ == self@.player_a,
    {
        &self.player_a
    }

    /// The identity seated as player B.
    pub fn player_b_identity(&self) -> (r: &Identity)
        ensures
            r@ == self@.player_b,
    {
        &self.player_b
    }

    /// The current phase.
    pub fn status(&self) -> (r: Status)
        ensures
            r == self@.status,
    {
        self.status
    }

    /// Applies one classified move to the table.
    ///
    /// The move is accepted exactly when the transition table admits the
    /// `(phase, action, caller)` triple; acceptance appends the request to
    /// the log and advances the phase, and returns the new phase. Any other
    /// triple is rejected with a [`PhaseError`] carrying expected versus
    /// actual, and rejection mutates neither the phase nor the log.
    pub fn update_action(&mut self, action: ActionRequest) -> (r: Result<Status, PhaseError>)
        ensures
            table_accepts(
                old(self)@.status,
                action.kind(),
                action.request()@.caller,
                old(self)@.player_a,
                old(self)@.player_b,
            ) ==> {
                &&& r matches Ok(s) && s == next_status(old(self)@.status)
                &&& final(self)@.status == next_status(old(self)@.status)
                &&& final(self)@.log == old(self)@.log.push(action.request()@)
                &&& final(self)@.player_a == old(self)@.player_a
                &&& final(self)@.player_b == old(self)@.player_b
            },
            !table_accepts(
                old(self)@.status,
                action.kind(),
                action.request()@.caller,
                old(self)@.player_a,
                old(self)@.player_b,
            ) ==> {
                &&& r matches Err(e)
                &&& e.phase == old(self)@.status
                &&& e.expected_kind == required_kind(old(self)@.status)
                &&& e.expected_caller@ == if requires_player_a(old(self)@.status) {
                    old(self)@.player_a
                } else {
                    old(self)@.player_b
                }
                &&& e.actual_kind == action.kind()
                &&& e.actual_caller@ == action.request()@.caller
                &&& final(self)@ == old(self)@
            },
            old(self)@.wf() ==> final(self)@.wf(),
    {
        let kind = match &action {
            ActionRequest::Initialize(_) => ActionKind::Initialize,
            ActionRequest::Offer(_) => ActionKind::Offer,
            ActionRequest::Start(_) => ActionKind::Start,
            ActionRequest::Play(_) => ActionKind::Play,
        };
        let expected_kind = match self.status {
            Status::AInitialize => ActionKind::Initialize,
            Status::BInitialize => ActionKind::Initialize,
            Status::AOffer => ActionKind::Offer,
            Status::BStart => ActionKind::Start,
            Status::ATurn => ActionKind::Play,
            Status::BTurn => ActionKind::Play,
        };
        let a_moves = match self.status {
            Status::AInitialize => true,
            Status::BInitialize => false,
            Status::AOffer => true,
            Status::BStart => false,
            Status::ATurn => true,
            Status::BTurn => false,
        };
        let request = action.into_request();
        let caller_ok = if a_moves {
            request.caller == self.player_a
        } else {
            request.caller == self.player_b
        };
        if kind == expected_kind && caller_ok {
            let next = match self.status {
                Status::AInitialize => Status::BInitialize,
                Status::BInitialize => Status::AOffer,
                Status::AOffer => Status::BStart,
                Status::BStart => Status::ATurn,
                Status::ATurn => Status::BTurn,
                Status::BTurn => Status::ATurn,
            };
            let ghost log0 = self.requests.deep_view();
            self.requests.push(request);
            self.status = next;
            proof {
                assert(self.requests.deep_view() =~= log0.push(action.request()@));
                if old(self)@.wf() {
                    let oldv = old(self)@;
                    let newv = self@;
                    assert(newv.status == phase_after(newv.log.len() as nat));
                    assert forall|i: int| 0 <= i < newv.log.len() implies (#[trigger] newv.log[i]).caller
                        == if requires_player_a(phase_after(i as nat)) {
                        newv.player_a
                    } else {
                        newv.player_b
                    } by {
                        if i < oldv.log.len() {
                            assert(newv.log[i] == oldv.log[i]);
                        } else {
                            assert(newv.log[i] == action.request()@);
                        }
                    }
                }
            }
            Ok(next)
        } else {
            let expected_caller = if a_moves {
                self.player_a.clone()
            } else {
                self.player_b.clone()
            };
            let actual_caller = request.caller;
            Err(
                PhaseError {
                    phase: self.status,
                    expected_kind,
                    expected_caller,
                    actual_kind: kind,
                    actual_caller,
                },
            )
        }
    }
}

/// Once a move has been accepted and the phase has advanced, resubmitting
/// the very same move is rejected: the transition table never accepts the
/// same `(action, caller)` pair in two consecutive phases when the two
/// players are distinct.
pub proof fn lemma_no_double_apply(
    status: Status,
    kind: ActionKind,
    caller: Seq<char>,
    player_a: Seq<char>,
    player_b: Seq<char>,
)
    requires
        player_a != player_b,
        table_accepts(status, kind, caller, player_a, player_b),
    ensures
        !table_accepts(next_status(status), kind, caller, player_a, player_b),
{
}

/// The phase a fully cooperative session is in after `n` accepted moves:
/// the four opening phases in order, then the two turn phases alternating
/// without end.
pub open spec fn expected_phase(n: nat) -> Status {
    if n == 0 {
        Status::AInitialize
    } else if n == 1 {
        Status::BInitialize
    } else if n == 2 {
        Status::AOffer
    } else if n == 3 {
        Status::BStart
    } else if (n - 4) % 2 == 0 {
        Status::ATurn
    } else {
        Status::BTurn
    }
}

/// The phase reached from the initial phase by `n` accepted moves. Each
/// phase accepts exactly one `(action, caller)` pair, so the sequence of
/// phases of a cooperative run is deterministic, however the two players'
/// submissions interleave in time.
pub open spec fn phase_after(n: nat) -> Status
    decreases n,
{
    if n == 0 {
        Status::AInitialize
    } else {
        next_status(phase_after((n - 1) as nat))
    }
}

/// Each phase accepts exactly one `(action, caller)` pair: the transition
/// table is deterministic.
pub proof fn lemma_unique_accepted(
    status: Status,
    k1: ActionKind,
    c1: Seq<char>,
    k2: ActionKind,
    c2: Seq<char>,
    player_a: Seq<char>,
    player_b: Seq<char>,
)
    requires
        table_accepts(status, k1, c1, player_a, player_b),
        table_accepts(status, k2, c2, player_a, player_b),
    ensures
        k1 == k2,
        c1 == c2,
{
}

/// A fully cooperative run walks the deterministic phase sequence
/// `AInitialize, BInitialize, AOffer, BStart, ATurn, BTurn, ATurn, ...`:
/// after `n` accepted moves the session is in `expected_phase(n)`.
pub proof fn lemma_deterministic_phase_sequence(n: nat)
    ensures
        phase_after(n) == expected_phase(n),
    decreases n,
{
    if n > 0 {
        lemma_deterministic_phase_sequence((n - 1) as nat);
    }
}

} // verus!
