use vstd::prelude::*;

use crate::player::{owned_records, spec_owned_records, MessageView, PlayerMessage};
use crate::requests::{classify_name, game_program, ProtocolError, Request};
use crate::requests::action_from_request;
use crate::response::Response;
use crate::table::{next_status, table_accepts, required_kind, requires_player_a, ChessTable,
    PhaseError, Status};

verus! {

/// What ends a session turn in failure: the batch carried nothing, its first
/// request failed classification, or the move did not fit the current phase.
/// Any of these aborts the session.
#[derive(Debug)]
pub enum SessionError {
    EmptyBatch,
    Protocol(ProtocolError),
    Phase(PhaseError),
}

/// Everything one accepted turn asks the surrounding machinery to do: the
/// phase the session moved to, one status message for each player holding
/// only the records that player owns, and the accepted batch to submit to
/// the proof pipeline.
#[derive(Debug)]
pub struct StepOutcome {
    pub status: Status,
    pub notify_a: PlayerMessage,
    pub notify_b: PlayerMessage,
    pub proof_batch: Vec<Request>,
}

impl ChessTable {
    /// The seat announcements that open a session: each player learns its
    /// seat label and the opponent's identity.
    pub fn start_messages(&self) -> (r: (PlayerMessage, PlayerMessage))
        ensures
            r.0@ == MessageView::Start("A"@, self@.player_b),
            r.1@ == MessageView::Start("B"@, self@.player_a),
    {
        let to_a = PlayerMessage::Start("A".to_owned(), self.player_b_identity().clone());
        let to_b = PlayerMessage::Start("B".to_owned(), self.player_a_identity().clone());
        (to_a, to_b)
    }

    /// Runs one turn of the session over an arrived batch and the backend's
    /// evaluation of it.
    ///
    /// The batch's first request is classified and fed to the turn state
    /// machine. On acceptance the outcome carries the new phase, a status
    /// message per player filtered down to the records that player owns, and
    /// the whole batch for the proof pipeline. An empty batch, a failed
    /// classification or a phase mismatch is handed back as the error that
    /// aborts the session, and leaves the table untouched.
    pub fn session_step(&mut self, batch: Vec<Request>, response: &Response) -> (r: Result<
        StepOutcome,
        SessionError,
    >)
        ensures
            batch@.len() == 0 ==> (r matches Err(SessionError::EmptyBatch) && final(self)@ == old(
                self,
            )@),
            batch@.len() > 0 && batch@[0]@.program_id != game_program() ==> (r matches Err(
                SessionError::Protocol(ProtocolError::WrongProgram),
            ) && final(self)@ == old(self)@),
            batch@.len() > 0 && batch@[0]@.program_id == game_program() && classify_name(
                batch@[0]@.function_name,
            ) is None ==> (r matches Err(SessionError::Protocol(ProtocolError::UnknownFunction))
                && final(self)@ == old(self)@),
            batch@.len() > 0 && batch@[0]@.program_id == game_program() ==> (classify_name(
                batch@[0]@.function_name,
            ) matches Some(kind) ==> (if table_accepts(
                old(self)@.status,
                kind,
                batch@[0]@.caller,
                old(self)@.player_a,
                old(self)@.player_b,
            ) {
                &&& r matches Ok(out)
                &&& out.status == next_status(old(self)@.status)
                &&& final(self)@.status == next_status(old(self)@.status)
                &&& final(self)@.log == old(self)@.log.push(batch@[0]@)
                &&& final(self)@.player_a == old(self)@.player_a
                &&& final(self)@.player_b == old(self)@.player_b
                &&& out.notify_a@ == MessageView::GameStatus(
                    next_status(old(self)@.status),
                    spec_owned_records(response@, old(self)@.player_a),
                )
                &&& out.notify_b@ == MessageView::GameStatus(
                    next_status(old(self)@.status),
                    spec_owned_records(response@, old(self)@.player_b),
                )
                &&& out.proof_batch == batch
            } else {
                &&& r matches Err(SessionError::Phase(e))
                &&& e.phase == old(self)@.status
                &&& e.expected_kind == required_kind(old(self)@.status)
                &&& e.expected_caller@ == if requires_player_a(old(self)@.status) {
                    old(self)@.player_a
                } else {
                    old(self)@.player_b
                }
                &&& e.actual_kind == kind
                &&& e.actual_caller@ == batch@[0]@.caller
                &&& final(self)@ == old(self)@
            })),
            old(self)@.wf() ==> final(self)@.wf(),
    {
        if batch.len() == 0 {
            return Err(SessionError::EmptyBatch);
        }
        let first = batch[0].clone();
        let action = match action_from_request(first) {
            Ok(action) => action,
            Err(protocol_error) => {
                return Err(SessionError::Protocol(protocol_error));
            },
        };
        let status = match self.update_action(action) {
            Ok(status) => status,
            Err(phase_error) => {
                return Err(SessionError::Phase(phase_error));
            },
        };
        let records_a = owned_records(response, self.player_a_identity());
        let records_b = owned_records(response, self.player_b_identity());
        Ok(
            StepOutcome {
                status,
                notify_a: PlayerMessage::GameStatus(status, records_a),
                notify_b: PlayerMessage::GameStatus(status, records_b),
                proof_batch: batch,
            },
        )
    }
}

/// The message that tells a player a proven transaction's identifier. Both
/// players of the session are sent the same one.
pub fn transaction_notice(transaction_id: &str) -> (r: PlayerMessage)
    ensures
        r@ == MessageView::TxID(transaction_id@),
{
    PlayerMessage::TxID(transaction_id.to_owned())
}

} // verus!
