use vstd::prelude::*;
use vstd::utf8::encode_utf8;
use crate::json::{JsonNumber, NumberModel};
use crate::server::headers::{header_models, Header, HeaderModel};
use crate::text::bytes_of;
use crate::utils::camera::CameraError;
use crate::utils::rppal_error::RppalError;

verus! {

/// The status of an answer to a request that was served.
pub const STATUS_OK: u16 = 200;

/// The status of an answer to a request that was turned away.
pub const STATUS_BAD_REQUEST: u16 = 400;

/// The status of an answer to a request for which no handler is bound.
pub const STATUS_NOT_FOUND: u16 = 404;

/// The status of an answer that tells of a fault of the server.
pub const STATUS_INTERNAL_SERVER_ERROR: u16 = 500;

/// The verb of a request.
#[derive(Clone, Copy, Debug, PartialEq, Eq, Structural)]
pub enum Method {
    Get,
    Post,
    Put,
    Delete,
    /// Any other verb.
    Other,
}

/// What a request says of itself before its body: verb, path and headers.
#[derive(Debug)]
pub struct Parts {
    pub method: Method,
    pub path: String,
    pub headers: Vec<Header>,
}

/// What a [`Parts`] stands for in contracts.
pub struct PartsModel {
    pub method: Method,
    pub path: Seq<char>,
    pub headers: Seq<HeaderModel>,
}

impl View for Parts {
    type V = PartsModel;

    open spec fn view(&self) -> PartsModel {
        PartsModel {
            method: self.method,
            path: self.path@,
            headers: header_models(self.headers@),
        }
    }
}

/// An answer: status, the content type and length where they are stated,
/// and the body.
#[derive(Debug)]
pub struct Response {
    pub status: u16,
    pub content_type: Option<String>,
    pub content_length: Option<usize>,
    pub body: Vec<u8>,
}

/// What a [`Response`] stands for in contracts.
pub struct ResponseModel {
    pub status: u16,
    pub content_type: Option<Seq<char>>,
    pub content_length: Option<usize>,
    pub body: Seq<u8>,
}

impl View for Response {
    type V = ResponseModel;

    open spec fn view(&self) -> ResponseModel {
        ResponseModel {
            status: self.status,
            content_type: match self.content_type {
                Some(t) => Some(t@),
                None => None,
            },
            content_length: self.content_length,
            body: self.body@,
        }
    }
}

impl ResponseModel {
    /// An answer that is a plain text, with no header of its own.
    pub open spec fn text(status: u16, message: Seq<char>) -> ResponseModel {
        ResponseModel {
            status,
            content_type: None,
            content_length: None,
            body: encode_utf8(message),
        }
    }

    /// An answer that is these bytes, with no header of its own.
    pub open spec fn bytes(status: u16, body: Seq<u8>) -> ResponseModel {
        ResponseModel { status, content_type: None, content_length: None, body }
    }

    /// The answer to a request that was served: the JSON text of the
    /// output, with its type and length stated.
    pub open spec fn json(body: Seq<u8>) -> ResponseModel {
        ResponseModel {
            status: STATUS_OK,
            content_type: Some("application/json"@),
            content_length: Some(body.len() as usize),
            body,
        }
    }

    pub open spec fn not_found() -> ResponseModel {
        Self::text(STATUS_NOT_FOUND, "Not found"@)
    }

    pub open spec fn internal_server_error() -> ResponseModel {
        Self::text(STATUS_INTERNAL_SERVER_ERROR, "Internal server error"@)
    }
}

impl Response {
    pub fn text(status: u16, message: &str) -> (response: Response)
        ensures
            response@ == ResponseModel::text(status, message@),
    {
        Response { status, content_type: None, content_length: None, body: bytes_of(message) }
    }

    pub fn bytes(status: u16, body: Vec<u8>) -> (response: Response)
        ensures
            response@ == ResponseModel::bytes(status, body@),
    {
        Response { status, content_type: None, content_length: None, body }
    }

    pub fn json(body: Vec<u8>) -> (response: Response)
        ensures
            response@ == ResponseModel::json(body@),
    {
        Response {
            status: STATUS_OK,
            content_type: Some("application/json".to_owned()),
            content_length: Some(body.len()),
            body,
        }
    }

    pub fn internal_server_error() -> (response: Response)
        ensures
            response@ == ResponseModel::internal_server_error(),
    {
        Response::text(STATUS_INTERNAL_SERVER_ERROR, "Internal server error")
    }
}

/// The answer to a request for which no handler is bound.
pub fn not_found() -> (response: Response)
    ensures
        response@ == ResponseModel::not_found(),
{
    Response::text(STATUS_NOT_FOUND, "Not found")
}

/// What the caller is to do next for a request.
#[derive(Debug)]
pub enum Action {
    /// Send this answer; the request is done.
    Respond(Response),
    /// Ask the water sensor whether there is enough water.
    ReadWaterLevel,
    /// Run the pump for this many seconds.
    RunPump { seconds: u64 },
    /// Turn the servo to this angle, in degrees.
    TurnServo { angle: JsonNumber },
    /// Take a photo.
    TakePhoto,
    /// Tell the peer at this address that its switch was set.
    NotifyPeer { ip: String, port: u16, enabled: bool },
}

/// What an [`Action`] stands for in contracts.
pub enum ActionModel {
    Respond(ResponseModel),
    ReadWaterLevel,
    RunPump { seconds: u64 },
    TurnServo { angle: NumberModel },
    TakePhoto,
    NotifyPeer { ip: Seq<char>, port: u16, enabled: bool },
}

impl View for Action {
    type V = ActionModel;

    open spec fn view(&self) -> ActionModel {
        match self {
            Action::Respond(response) => ActionModel::Respond(response@),
            Action::ReadWaterLevel => ActionModel::ReadWaterLevel,
            Action::RunPump { seconds } => ActionModel::RunPump { seconds: *seconds },
            Action::TurnServo { angle } => ActionModel::TurnServo { angle: angle@ },
            Action::TakePhoto => ActionModel::TakePhoto,
            Action::NotifyPeer { ip, port, enabled } => ActionModel::NotifyPeer {
                ip: ip@,
                port: *port,
                enabled: *enabled,
            },
        }
    }
}

/// What a request waits for.
#[derive(Clone, Copy, Debug, PartialEq, Eq, Structural)]
pub enum Pending {
    /// Nothing: the request is done.
    Nothing,
    /// The water level, to report it.
    WaterLevel,
    /// The water level, to water where there is enough or it is forced.
    WaterLevelForPump { seconds: u64, force: bool },
    /// The pump to stop.
    Pump,
    /// The servo to have turned.
    Servo,
    /// The photo.
    Photo,
    /// The peer to have been told.
    Peer { created: bool },
}

/// What came of the action that a request waited for.
#[derive(Debug)]
pub enum Event {
    WaterLevel(Result<bool, RppalError>),
    PumpStopped(Result<(), RppalError>),
    ServoTurned(Result<(), RppalError>),
    Photo(Result<Vec<u8>, CameraError>),
    /// The peer was told, or could not be.
    PeerNotified,
}

/// What an [`Event`] stands for in contracts.
pub enum EventModel {
    WaterLevel(Result<bool, RppalError>),
    PumpStopped(Result<(), RppalError>),
    ServoTurned(Result<(), RppalError>),
    Photo(Result<Seq<u8>, CameraError>),
    PeerNotified,
}

impl View for Event {
    type V = EventModel;

    open spec fn view(&self) -> EventModel {
        match self {
            Event::WaterLevel(level) => EventModel::WaterLevel(*level),
            Event::PumpStopped(outcome) => EventModel::PumpStopped(*outcome),
            Event::ServoTurned(outcome) => EventModel::ServoTurned(*outcome),
            Event::Photo(Ok(photo)) => EventModel::Photo(Ok(photo@)),
            Event::Photo(Err(error)) => EventModel::Photo(Err(*error)),
            Event::PeerNotified => EventModel::PeerNotified,
        }
    }
}

/// One step of a request: what it waits for now, and what is to be done.
#[derive(Debug)]
pub struct Step {
    pub pending: Pending,
    pub action: Action,
}

/// What a [`Step`] stands for in contracts.
pub struct StepModel {
    pub pending: Pending,
    pub action: ActionModel,
}

impl View for Step {
    type V = StepModel;

    open spec fn view(&self) -> StepModel {
        StepModel { pending: self.pending, action: self.action@ }
    }
}

impl Pending {
    /// How many more steps a request can take at most.
    pub open spec fn steps_left(self) -> nat {
        match self {
            Pending::Nothing => 0,
            Pending::WaterLevelForPump { .. } => 2,
            _ => 1,
        }
    }
}

impl StepModel {
    /// Whether the action is the one that goes with what the request waits
    /// for: an answer where it waits for nothing, else the work of the
    /// device that it waits for.
    pub open spec fn coherent(self) -> bool {
        match self.pending {
            Pending::Nothing => self.action is Respond,
            Pending::WaterLevel => self.action is ReadWaterLevel,
            Pending::WaterLevelForPump { .. } => self.action is ReadWaterLevel,
            Pending::Pump => self.action is RunPump,
            Pending::Servo => self.action is TurnServo,
            Pending::Photo => self.action is TakePhoto,
            Pending::Peer { .. } => self.action is NotifyPeer,
        }
    }

    /// The last step of a request: this answer, and nothing to wait for.
    pub open spec fn respond(response: ResponseModel) -> StepModel {
        StepModel { pending: Pending::Nothing, action: ActionModel::Respond(response) }
    }
}

impl Step {
    pub fn respond(response: Response) -> (step: Step)
        ensures
            step@ == StepModel::respond(response@),
    {
        Step { pending: Pending::Nothing, action: Action::Respond(response) }
    }
}

/// What an endpoint came to: its output, or something to wait for.
#[derive(Debug)]
pub enum Progress<O> {
    Output(O),
    Wait(Step),
}

/// What a [`Progress`] stands for in contracts.
pub enum ProgressModel<V> {
    Output(V),
    Wait(StepModel),
}

impl<O: View> Progress<O> {
    /// What the progress stands for.
    pub open spec fn model(self) -> ProgressModel<O::V> {
        match self {
            Progress::Output(output) => ProgressModel::Output(output@),
            Progress::Wait(step) => ProgressModel::Wait(step@),
        }
    }
}

} // verus!
