use vstd::prelude::*;

use crate::identity::Identity;

verus! {

/// An authorized call into the execution backend, tagged with the program it
/// targets, the function it invokes, the identity of the caller and an opaque
/// argument payload. The core never interprets the arguments.
#[derive(Debug)]
pub struct Request {
    pub program_id: String,
    pub function_name: String,
    pub caller: Identity,
    pub payload: String,
}

/// The mathematical value of a [`Request`].
pub ghost struct RequestView {
    pub program_id: Seq<char>,
    pub function_name: Seq<char>,
    pub caller: Seq<char>,
    pub payload: Seq<char>,
}

impl View for Request {
    type V = RequestView;

    open spec fn view(&self) -> RequestView {
        RequestView {
            program_id: self.program_id@,
            function_name: self.function_name@,
            caller: self.caller@,
            payload: self.payload@,
        }
    }
}

impl DeepView for Request {
    type V = RequestView;

    open spec fn deep_view(&self) -> RequestView {
        self.view()
    }
}

impl Request {
    /// Builds a request from its parts.
    pub fn new(program_id: String, function_name: String, caller: Identity, payload: String) -> (r:
        Request)
        ensures
            r@.program_id == program_id@,
            r@.function_name == function_name@,
            r@.caller == caller@,
            r@.payload == payload@,
    {
        Request { program_id, function_name, caller, payload }
    }
}

impl Clone for Request {
    fn clone(&self) -> (r: Self)
        ensures
            r@ == self@,
    {
        Request {
            program_id: self.program_id.as_str().to_owned(),
            function_name: self.function_name.as_str().to_owned(),
            caller: self.caller.clone(),
            payload: self.payload.as_str().to_owned(),
        }
    }
}

/// The closed set of protocol actions a request can stand for, derived from
/// the request's function name.
#[derive(Clone, Copy, Debug, PartialEq, Eq, Structural)]
pub enum ActionKind {
    Initialize,
    Offer,
    Start,
    Play,
}

/// A request together with the protocol action it was classified as.
#[derive(Debug)]
pub enum ActionRequest {
    Initialize(Request),
    Offer(Request),
    Start(Request),
    Play(Request),
}

impl ActionRequest {
    /// The action tag of this classified request.
    pub open spec fn kind(&self) -> ActionKind {
        match self {
            ActionRequest::Initialize(_) => ActionKind::Initialize,
            ActionRequest::Offer(_) => ActionKind::Offer,
            ActionRequest::Start(_) => ActionKind::Start,
            ActionRequest::Play(_) => ActionKind::Play,
        }
    }

    /// The request carried inside, whatever the tag.
    pub open spec fn request(&self) -> Request {
        match self {
            ActionRequest::Initialize(r) => *r,
            ActionRequest::Offer(r) => *r,
            ActionRequest::Start(r) => *r,
            ActionRequest::Play(r) => *r,
        }
    }

    /// Hands back the request carried inside, whatever the tag.
    pub fn into_request(self) -> (r: Request)
        ensures
            r == self.request(),
    {
        match self {
            ActionRequest::Initialize(r) => r,
            ActionRequest::Offer(r) => r,
            ActionRequest::Start(r) => r,
            ActionRequest::Play(r) => r,
        }
    }
}

/// Why a request failed classification.
#[derive(Clone, Copy, Debug, PartialEq, Eq, Structural)]
pub enum ProtocolError {
    /// The request targets a program other than the game program.
    WrongProgram,
    /// The request's function name is none of the protocol actions.
    UnknownFunction,
}

/// The one program whose calls the core mediates.
pub open spec fn game_program() -> Seq<char> {
    "battleship.aleo"@
}

/// The function name that stands for each protocol action, if any.
pub open spec fn classify_name(name: Seq<char>) -> Option<ActionKind> {
    if name == "initialize_board"@ {
        Some(ActionKind::Initialize)
    } else if name == "offer_battleship"@ {
        Some(ActionKind::Offer)
    } else if name == "start_battleship"@ {
        Some(ActionKind::Start)
    } else if name == "play"@ {
        Some(ActionKind::Play)
    } else {
        None
    }
}

/// Classifies a request into a protocol action.
///
/// A request for another program is rejected, and an unrecognized function
/// name is a classification error, never a trap.
pub fn action_from_request(request: Request) -> (r: Result<ActionRequest, ProtocolError>)
    ensures
        request@.program_id != game_program() ==> r == Err::<ActionRequest, ProtocolError>(
            ProtocolError::WrongProgram,
        ),
        request@.program_id == game_program() ==> match classify_name(request@.function_name) {
            Some(kind) => {
                &&& r matches Ok(action)
                &&& action.kind() == kind
                &&& action.request() == request
            },
            None => r == Err::<ActionRequest, ProtocolError>(ProtocolError::UnknownFunction),
        },
{
    let program: String = "battleship.aleo".to_owned();
    if request.program_id != program {
        return Err(ProtocolError::WrongProgram);
    }
    let initialize: String = "initialize_board".to_owned();
    let offer: String = "offer_battleship".to_owned();
    let start: String = "start_battleship".to_owned();
    let play: String = "play".to_owned();
    if request.function_name == initialize {
        Ok(ActionRequest::Initialize(request))
    } else if request.function_name == offer {
        Ok(ActionRequest::Offer(request))
    } else if request.function_name == start {
        Ok(ActionRequest::Start(request))
    } else if request.function_name == play {
        Ok(ActionRequest::Play(request))
    } else {
        Err(ProtocolError::UnknownFunction)
    }
}

} // verus!
