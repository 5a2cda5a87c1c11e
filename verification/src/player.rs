use vstd::prelude::*;

use crate::identity::Identity;
use crate::response::{Record, RecordView, Response, Value, ValueView};
use crate::table::Status;

verus! {

/// One message a player can be sent over its connection: its seat and
/// opponent at session start, the new phase with the records it now owns
/// after an accepted move, or the identifier of a proven transaction.
#[derive(Debug)]
pub enum PlayerMessage {
    Start(String, Identity),
    GameStatus(Status, Vec<Record>),
    TxID(String),
}

/// The mathematical value of a [`PlayerMessage`].
pub ghost enum MessageView {
    Start(Seq<char>, Seq<char>),
    GameStatus(Status, Seq<RecordView>),
    TxID(Seq<char>),
}

impl View for PlayerMessage {
    type V = MessageView;

    open spec fn view(&self) -> MessageView {
        match self {
            PlayerMessage::Start(seat, opponent) => MessageView::Start(seat@, opponent@),
            PlayerMessage::GameStatus(status, records) => MessageView::GameStatus(
                *status,
                records.deep_view(),
            ),
            PlayerMessage::TxID(id) => MessageView::TxID(id@),
        }
    }
}

/// The output records of a response that the given player owns, in response
/// order: record outputs owned by someone else, and plain outputs, are
/// dropped.
pub open spec fn spec_owned_records(outputs: Seq<ValueView>, me: Seq<char>) -> Seq<RecordView>
    decreases outputs.len(),
{
    if outputs.len() == 0 {
        Seq::empty()
    } else {
        let prefix = spec_owned_records(outputs.drop_last(), me);
        match outputs.last() {
            ValueView::Record(r) => if r.owner == me {
                prefix.push(r)
            } else {
                prefix
            },
            ValueView::Plaintext(_) => prefix,
        }
    }
}

/// Filters a response down to the records the given player owns.
///
/// This is the confidentiality gate: everything a player is shown of a
/// response passes through here, so a player is never handed a record owned
/// by anyone else.
pub fn owned_records(response: &Response, me: &Identity) -> (r: Vec<Record>)
    ensures
        r.deep_view() == spec_owned_records(response@, me@),
{
    let mut records: Vec<Record> = Vec::new();
    let mut i: usize = 0;
    while i < response.outputs.len()
        invariant
            i <= response.outputs.len(),
            records.deep_view() == spec_owned_records(response@.take(i as int), me@),
        decreases response.outputs.len() - i,
    {
        proof {
            assert(response@.take(i + 1 as int).drop_last() =~= response@.take(i as int));
            assert(response@.take(i + 1 as int).last() == response@[i as int]);
        }
        match &response.outputs[i] {
            Value::Record(record) => {
                if record.owner == *me {
                    records.push(record.clone());
                    proof {
                        assert(records.deep_view() =~= spec_owned_records(
                            response@.take(i + 1 as int),
                            me@,
                        ));
                    }
                }
            },
            Value::Plaintext(_) => {},
        }
        i = i + 1;
    }
    proof {
        assert(response@.take(response@.len() as int) =~= response@);
    }
    records
}

/// Every record the filter keeps for a player is owned by that player.
pub proof fn lemma_owned_records_owner(outputs: Seq<ValueView>, me: Seq<char>)
    ensures
        forall|i: int|
            0 <= i < spec_owned_records(outputs, me).len() ==> #[trigger] spec_owned_records(
                outputs,
                me,
            )[i].owner == me,
    decreases outputs.len(),
{
    if outputs.len() > 0 {
        lemma_owned_records_owner(outputs.drop_last(), me);
        let prefix = spec_owned_records(outputs.drop_last(), me);
        let result = spec_owned_records(outputs, me);
        assert forall|i: int| 0 <= i < result.len() implies #[trigger] result[i].owner == me by {
            if i < prefix.len() {
                assert(result[i] == prefix[i]);
            }
        }
    }
}

/// Confidentiality: whatever a response holds, a player's filtered view of
/// it never contains a record owned by the other identity.
pub proof fn lemma_confidentiality(outputs: Seq<ValueView>, me: Seq<char>, other: Seq<char>)
    requires
        me != other,
    ensures
        forall|i: int|
            0 <= i < spec_owned_records(outputs, me).len() ==> #[trigger] spec_owned_records(
                outputs,
                me,
            )[i].owner != other,
{
    lemma_owned_records_owner(outputs, me);
}

} // verus!
