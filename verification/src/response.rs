use vstd::prelude::*;

use crate::identity::Identity;

verus! {

/// A private output record produced by the execution backend, owned by one
/// player. The contents are opaque to the core; only the owner matters to it.
#[derive(Debug)]
pub struct Record {
    pub owner: Identity,
    pub data: String,
}

/// The mathematical value of a [`Record`].
pub ghost struct RecordView {
    pub owner: Seq<char>,
    pub data: Seq<char>,
}

impl View for Record {
    type V = RecordView;

    open spec fn view(&self) -> RecordView {
        RecordView { owner: self.owner@, data: self.data@ }
    }
}

impl DeepView for Record {
    type V = RecordView;

    open spec fn deep_view(&self) -> RecordView {
        self.view()
    }
}

impl Clone for Record {
    fn clone(&self) -> (r: Self)
        ensures
            r@ == self@,
    {
        Record { owner: self.owner.clone(), data: self.data.as_str().to_owned() }
    }
}

/// One output of the execution backend: either a private record with an
/// owner, or a plain public value.
#[derive(Debug)]
pub enum Value {
    Record(Record),
    Plaintext(String),
}

/// The mathematical value of a [`Value`].
pub ghost enum ValueView {
    Record(RecordView),
    Plaintext(Seq<char>),
}

impl View for Value {
    type V = ValueView;

    open spec fn view(&self) -> ValueView {
        match self {
            Value::Record(r) => ValueView::Record(r@),
            Value::Plaintext(s) => ValueView::Plaintext(s@),
        }
    }
}

impl DeepView for Value {
    type V = ValueView;

    open spec fn deep_view(&self) -> ValueView {
        self.view()
    }
}

/// What the execution backend hands back from evaluating a batch: the
/// ordered outputs of the call.
#[derive(Debug)]
pub struct Response {
    pub outputs: Vec<Value>,
}

impl View for Response {
    type V = Seq<ValueView>;

    open spec fn view(&self) -> Seq<ValueView> {
        self.outputs.deep_view()
    }
}

/// A response carried an unexpected number of outputs.
#[derive(Clone, Copy, Debug, PartialEq, Eq, Structural)]
pub struct ResponseError {
    /// How many outputs the action's response must carry.
    pub expected: usize,
    /// How many it carried.
    pub actual: usize,
}

/// A response examined against the shape its protocol action demands.
pub trait ActionResponse {
    /// The outputs of the wrapped response.
    spec fn outputs(&self) -> Seq<ValueView>;

    /// How many outputs a response to this action must carry.
    spec fn expected_outputs(&self) -> usize;

    /// Checks that the wrapped response carries exactly the number of
    /// outputs its action demands.
    fn dispatch(&self) -> (r: Result<(), ResponseError>)
        ensures
            r matches Ok(()) <==> self.outputs().len() == self.expected_outputs(),
            r matches Err(e) ==> e.expected == self.expected_outputs() && e.actual == self.outputs().len(),
    ;
}

/// A response to an `Initialize` action: one board record.
pub struct InitializeResponse(pub Response);

/// A response to an `Offer` action: a board record and a move record.
pub struct OfferReponse(pub Response);

/// A response to a `Start` action: a board record and a move record.
pub struct StartReponse(pub Response);

/// A response to a `Play` action: a board record and a move record.
pub struct PlayResponse(pub Response);

impl ActionResponse for InitializeResponse {
    open spec fn outputs(&self) -> Seq<ValueView> {
        self.0@
    }

    open spec fn expected_outputs(&self) -> usize {
        1
    }

    fn dispatch(&self) -> (r: Result<(), ResponseError>) {
        if self.0.outputs.len() == 1 {
            Ok(())
        } else {
            Err(ResponseError { expected: 1, actual: self.0.outputs.len() })
        }
    }
}

impl ActionResponse for OfferReponse {
    open spec fn outputs(&self) -> Seq<ValueView> {
        self.0@
    }

    open spec fn expected_outputs(&self) -> usize {
        2
    }

    fn dispatch(&self) -> (r: Result<(), ResponseError>) {
        if self.0.outputs.len() == 2 {
            Ok(())
        } else {
            Err(ResponseError { expected: 2, actual: self.0.outputs.len() })
        }
    }
}

impl ActionResponse for StartReponse {
    open spec fn outputs(&self) -> Seq<ValueView> {
        self.0@
    }

    open spec fn expected_outputs(&self) -> usize {
        2
    }

    fn dispatch(&self) -> (r: Result<(), ResponseError>) {
        if self.0.outputs.len() == 2 {
            Ok(())
        } else {
            Err(ResponseError { expected: 2, actual: self.0.outputs.len() })
        }
    }
}

impl ActionResponse for PlayResponse {
    open spec fn outputs(&self) -> Seq<ValueView> {
        self.0@
    }

    open spec fn expected_outputs(&self) -> usize {
        2
    }

    fn dispatch(&self) -> (r: Result<(), ResponseError>) {
        if self.0.outputs.len() == 2 {
            Ok(())
        } else {
            Err(ResponseError { expected: 2, actual: self.0.outputs.len() })
        }
    }
}

} // verus!
