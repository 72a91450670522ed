use vstd::prelude::*;
use crate::json::{parsed, print, printed, JsonModel, JsonValue, Payload};
use crate::requests::get_camera_image_request::{after_photo, GetCameraImageRequest};
use crate::requests::is_enough_water_request::IsEnoughWaterRequest;
use crate::requests::set_switch_request::{PostOutput, PostSwitchMethod};
use crate::requests::turn_servo_request::TurnServoRequest;
use crate::requests::water_request::{after_water_level, plant_was_watered, WaterRequest};
use crate::server::envelope::{
    not_found, ActionModel, Event, EventModel, Parts, PartsModel, Pending, ProgressModel, Response, ResponseModel, Step,
    StepModel, STATUS_BAD_REQUEST, STATUS_INTERNAL_SERVER_ERROR,
};
use crate::server::error_output::ErrorOutput;
use crate::server::headers::{method_named, ServerMethod};
use crate::server::json_request_handler::{
    advance, finish, finished, key_header_unreadable, presented_key, replied,
};
use crate::server::request_handler::RequestHandler;
use crate::server::server_error::{LogicError, ServerError};
use crate::services::climate::{Climate, ClimateModel};
use crate::services::switches::{SwitchModel, Switches};
use crate::text::same_text;

pub mod envelope;
pub mod error_output;
pub mod headers;
pub mod json_request_handler;
pub mod protected_json_request_handler;
pub mod request_handler;
pub mod server_error;

verus! {

/// What is answered to a request whose body could not be read.
pub const BODY_UNREADABLE: &'static str = "Cannon read";

/// A request: what it says of itself, and its body where that could be
/// read.
#[derive(Debug)]
pub struct Request {
    pub parts: Parts,
    pub body: Option<Vec<u8>>,
}

/// What a [`Request`] stands for in contracts.
pub struct RequestModel {
    pub parts: PartsModel,
    pub body: Option<Seq<u8>>,
}

impl View for Request {
    type V = RequestModel;

    open spec fn view(&self) -> RequestModel {
        RequestModel {
            parts: self.parts@,
            body: match self.body {
                Some(bytes) => Some(bytes@),
                None => None,
            },
        }
    }
}

impl RequestModel {
    /// What the body reads as, where there is a body that can be read.
    pub open spec fn json(self) -> Option<JsonModel> {
        match self.body {
            Some(bytes) => parsed(bytes),
            None => None,
        }
    }
}

/// The place of the last handler of a name, or -1 where there is none.
pub open spec fn last_match(handlers: Seq<RequestHandler>, name: Seq<char>) -> int
    decreases handlers.len(),
{
    if handlers.len() == 0 {
        -1
    } else if handlers.last().spec_path() == name {
        handlers.len() - 1
    } else {
        last_match(handlers.drop_last(), name)
    }
}

/// The handler registered under a name.
pub open spec fn find_handler(handlers: Seq<RequestHandler>, name: Seq<char>) -> Option<
    RequestHandler,
> {
    if last_match(handlers, name) >= 0 {
        Some(handlers[last_match(handlers, name)])
    } else {
        None
    }
}

proof fn lemma_last_match_bounds(handlers: Seq<RequestHandler>, name: Seq<char>)
    ensures
        -1 <= last_match(handlers, name) < handlers.len(),
        last_match(handlers, name) >= 0 ==> handlers[last_match(handlers, name)].spec_path()
            == name,
    decreases handlers.len(),
{
    if handlers.len() > 0 && handlers.last().spec_path() != name {
        lemma_last_match_bounds(handlers.drop_last(), name);
    }
}

proof fn lemma_last_match_after_replace(
    handlers: Seq<RequestHandler>,
    i: int,
    handler: RequestHandler,
    name: Seq<char>,
)
    requires
        0 <= i < handlers.len(),
        last_match(handlers, handler.spec_path()) == i,
    ensures
        last_match(handlers.update(i, handler), name) == if name == handler.spec_path() {
            i
        } else {
            last_match(handlers, name)
        },
    decreases handlers.len(),
{
    let replaced = handlers.update(i, handler);
    lemma_last_match_bounds(handlers, handler.spec_path());
    if i == handlers.len() - 1 {
        assert(replaced.drop_last() =~= handlers.drop_last());
    } else {
        assert(replaced.last() == handlers.last());
        assert(replaced.drop_last() =~= handlers.drop_last().update(i, handler));
        if handlers.last().spec_path() != name {
            lemma_last_match_after_replace(handlers.drop_last(), i, handler, name);
        }
    }
}

/// A handler put in the place of the one of its name is found under that
/// name, and every other name finds what it found.
proof fn lemma_find_after_replace(
    handlers: Seq<RequestHandler>,
    i: int,
    handler: RequestHandler,
    name: Seq<char>,
)
    requires
        0 <= i < handlers.len(),
        last_match(handlers, handler.spec_path()) == i,
    ensures
        find_handler(handlers.update(i, handler), name) == if name == handler.spec_path() {
            Some(handler)
        } else {
            find_handler(handlers, name)
        },
{
    lemma_last_match_after_replace(handlers, i, handler, name);
    lemma_last_match_bounds(handlers, name);
    lemma_last_match_bounds(handlers, handler.spec_path());
}

/// A handler added at the end under a new name is found under that name,
/// and every other name finds what it found.
proof fn lemma_find_after_push(handlers: Seq<RequestHandler>, handler: RequestHandler, name: Seq<char>)
    ensures
        find_handler(handlers.push(handler), name) == if name == handler.spec_path() {
            Some(handler)
        } else {
            find_handler(handlers, name)
        },
{
    let longer = handlers.push(handler);
    assert(longer.drop_last() =~= handlers);
    lemma_last_match_bounds(handlers, name);
}

/// The answer that tells of an error. A broken rule is told by its number,
/// as JSON; a broken lock or an answer that could not be put together is
/// the server's fault; anything else is a bad request, told by a short
/// text.
pub open spec fn error_response(error: ServerError) -> ResponseModel {
    match error {
        ServerError::Logic(rule) => match printed(
            ErrorOutput::encoded(ErrorOutput { code: rule.spec_code() }),
        ) {
            Some(body) => ResponseModel::bytes(STATUS_BAD_REQUEST, body),
            None => ResponseModel::internal_server_error(),
        },
        ServerError::Poison => ResponseModel::text(
            STATUS_INTERNAL_SERVER_ERROR,
            error.spec_message(),
        ),
        ServerError::Hyper => ResponseModel::text(
            STATUS_INTERNAL_SERVER_ERROR,
            error.spec_message(),
        ),
        _ => ResponseModel::text(STATUS_BAD_REQUEST, error.spec_message()),
    }
}

/// The step that a handler's outcome comes to: an error ends the request
/// with the answer that tells of it.
pub open spec fn rendered(outcome: Result<StepModel, ServerError>) -> StepModel {
    match outcome {
        Ok(step) => step,
        Err(error) => StepModel::respond(error_response(error)),
    }
}

/// What a request comes to, and the state of the house after it.
pub struct Answered {
    pub step: StepModel,
    pub switches: Map<Seq<char>, SwitchModel>,
    pub climate: ClimateModel,
}

/// What follows for a request that waited, once the event came. An event
/// that the request did not wait for ends it as the server's fault.
pub open spec fn resumed(pending: Pending, event: EventModel) -> StepModel {
    match (pending, event) {
        (Pending::WaterLevel, EventModel::WaterLevel(level)) => rendered(
            replied::<crate::requests::is_enough_water_request::Output>(
                finished(
                    match level {
                        Ok(result) => Ok(
                            crate::requests::is_enough_water_request::Output { result },
                        ),
                        Err(error) => Err(ServerError::Rppal(error)),
                    },
                ),
            ),
        ),
        (Pending::WaterLevelForPump { seconds, force }, EventModel::WaterLevel(level)) => rendered(
            replied::<crate::requests::water_request::Output>(
                after_water_level(seconds, force, level),
            ),
        ),
        (Pending::Pump, EventModel::PumpStopped(outcome)) => rendered(
            replied::<crate::requests::water_request::Output>(
                finished(
                    match outcome {
                        Ok(_) => Ok(plant_was_watered()),
                        Err(error) => Err(ServerError::Rppal(error)),
                    },
                ),
            ),
        ),
        (Pending::Servo, EventModel::ServoTurned(outcome)) => rendered(
            replied::<crate::requests::turn_servo_request::Output>(
                finished(
                    match outcome {
                        Ok(_) => Ok(
                            crate::requests::turn_servo_request::OutputModel { result: "Ok"@ },
                        ),
                        Err(error) => Err(ServerError::Rppal(error)),
                    },
                ),
            ),
        ),
        (Pending::Photo, EventModel::Photo(photo)) => rendered(
            replied::<crate::requests::get_camera_image_request::Output>(
                finished(after_photo(photo)),
            ),
        ),
        (Pending::Peer { created }, EventModel::PeerNotified) => rendered(
            replied::<PostOutput>(finished(Ok(PostOutput { created }))),
        ),
        _ => StepModel::respond(ResponseModel::internal_server_error()),
    }
}

/// The answer to a request that presented a wrong key, or none: a bad
/// request whose body is the JSON text of the number 1.
pub open spec fn invalid_key_response() -> ResponseModel {
    match printed(ErrorOutput::encoded(ErrorOutput { code: 1 })) {
        Some(body) => ResponseModel::bytes(STATUS_BAD_REQUEST, body),
        None => ResponseModel::internal_server_error(),
    }
}

/// A request that waited goes on to an answer, or to the work of the device
/// that it then waits for, and has fewer steps left than before: no request
/// waits more than twice.
pub proof fn lemma_resumed_runs_out(pending: Pending, event: EventModel)
    ensures
        resumed(pending, event).coherent(),
        pending.steps_left() <= 2,
        pending != Pending::Nothing ==> resumed(pending, event).pending.steps_left()
            < pending.steps_left(),
        pending == Pending::Nothing ==> resumed(pending, event).pending == Pending::Nothing,
{
}

/// The pump is run only for a request that waited for the water level, got
/// it, and either found enough water or was told to water by force; and
/// then for the time that the request asked.
pub proof fn lemma_pump_runs_only_with_water_or_force(pending: Pending, event: EventModel)
    requires
        resumed(pending, event).action is RunPump,
    ensures
        pending matches Pending::WaterLevelForPump { seconds, force } && event
            matches EventModel::WaterLevel(Ok(enough)) && (force || enough) && resumed(
            pending,
            event,
        ).action == (ActionModel::RunPump { seconds }),
{
}

/// The registry of the service: for each method name, the handler
/// registered last under it.
pub struct RpiHomeContext {
    requests: Vec<RequestHandler>,
}

impl RpiHomeContext {
    /// The handler registered under a name.
    pub closed spec fn lookup(&self, name: Seq<char>) -> Option<RequestHandler> {
        find_handler(self.requests@, name)
    }

    /// What the service makes of a request whose body reads as `json`. The
    /// method is the one that the request names; a request that names none,
    /// or one under which nothing is registered, is answered that nothing
    /// was found, and one whose body could not be read that it could not.
    pub open spec fn answered(
        &self,
        switches: Map<Seq<char>, SwitchModel>,
        climate: ClimateModel,
        request: RequestModel,
        json: Option<JsonModel>,
    ) -> Answered {
        match method_named(request.parts.headers, request.parts.path) {
            None => Answered {
                step: StepModel::respond(ResponseModel::not_found()),
                switches,
                climate,
            },
            Some(name) => if request.body is None {
                Answered {
                    step: StepModel::respond(
                        ResponseModel::text(STATUS_BAD_REQUEST, BODY_UNREADABLE@),
                    ),
                    switches,
                    climate,
                }
            } else {
                match self.lookup(name) {
                    None => Answered {
                        step: StepModel::respond(ResponseModel::not_found()),
                        switches,
                        climate,
                    },
                    Some(handler) => {
                        let served = handler.handled(switches, climate, request.parts, json);
                        Answered {
                            step: rendered(served.outcome),
                            switches: served.switches,
                            climate: served.climate,
                        }
                    },
                }
            },
        }
    }

    /// A request for a method under which nothing is registered, or for a
    /// verb to which the method binds no handler, is answered with status
    /// 404 whatever its body holds, and leaves the house as it is. So is a
    /// request whose method header is no text.
    pub proof fn lemma_unbound_is_not_found(
        self,
        switches: Map<Seq<char>, SwitchModel>,
        climate: ClimateModel,
        request: RequestModel,
        json: Option<JsonModel>,
    )
        requires
            request.body is Some,
            match method_named(request.parts.headers, request.parts.path) {
                Some(name) => self.lookup(name) is None || self.lookup(name)->Some_0.slot(
                    request.parts.method,
                ) is None,
                None => true,
            },
        ensures
            self.answered(switches, climate, request, json) == (Answered {
                step: StepModel::respond(ResponseModel::not_found()),
                switches,
                climate,
            }),
            ResponseModel::not_found().status == 404,
    {
    }

    /// A request to a method whose handler is guarded by a key, with a body
    /// that stands for an input of it, and which presents another key or
    /// none, is answered as a bad request with the number 1, whatever else
    /// the input holds, and leaves the house as it is. The one exception is
    /// a request whose key header has to be read and cannot be.
    pub proof fn lemma_wrong_key_is_answered_with_code_one(
        self,
        switches: Map<Seq<char>, SwitchModel>,
        climate: ClimateModel,
        request: RequestModel,
        json: JsonModel,
        name: Seq<char>,
        key: Seq<char>,
    )
        requires
            request.body is Some,
            method_named(request.parts.headers, request.parts.path) == Some(name),
            self.lookup(name) is Some,
            self.lookup(name)->Some_0.slot(request.parts.method) is Some,
            self.lookup(name)->Some_0.slot(request.parts.method)->Some_0.key() == Some(key),
            self.lookup(name)->Some_0.slot(request.parts.method)->Some_0.carried_key(json) is Some,
            presented_key(
                request.parts.headers,
                self.lookup(name)->Some_0.slot(request.parts.method)->Some_0.carried_key(
                    json,
                )->Some_0,
            ) != Some(key),
            !key_header_unreadable(
                request.parts.headers,
                self.lookup(name)->Some_0.slot(request.parts.method)->Some_0.carried_key(
                    json,
                )->Some_0,
            ),
        ensures
            self.answered(switches, climate, request, Some(json)) == (Answered {
                step: StepModel::respond(invalid_key_response()),
                switches,
                climate,
            }),
    {
        let handler = self.lookup(name)->Some_0.slot(request.parts.method)->Some_0;
        handler.lemma_guarded_handler_refuses(key, switches, climate, request.parts, json);
    }

    /// The first step of every request is an answer, or the work of the
    /// device that the request then waits for, and never to run the pump.
    pub proof fn lemma_first_step_is_coherent(
        self,
        switches: Map<Seq<char>, SwitchModel>,
        climate: ClimateModel,
        request: RequestModel,
        json: Option<JsonModel>,
    )
        ensures
            self.answered(switches, climate, request, json).step.coherent(),
            !(self.answered(switches, climate, request, json).step.action is RunPump),
    {
        match method_named(request.parts.headers, request.parts.path) {
            Some(name) => match self.lookup(name) {
                Some(handler) => match handler.slot(request.parts.method) {
                    Some(bound) => {
                        bound.lemma_served_step_is_coherent(switches, climate, request.parts, json);
                    },
                    None => {},
                },
                None => {},
            },
            None => {},
        }
    }

    /// A registry with nothing registered.
    pub fn new() -> (context: RpiHomeContext)
        ensures
            forall|name: Seq<char>| context.lookup(name) is None,
    {
        RpiHomeContext { requests: Vec::new() }
    }

    /// Registers a handler under its name; one registered before under the
    /// same name is replaced.
    pub fn add_handler(&mut self, handler: RequestHandler)
        ensures
            forall|name: Seq<char>|
                final(self).lookup(name) == if name == handler.spec_path() {
                    Some(handler)
                } else {
                    old(self).lookup(name)
                },
    {
        let ghost before = self.requests@;
        match self.place(handler.path()) {
            Some(i) => {
                self.requests.set(i, handler);
                assert forall|name: Seq<char>|
                    find_handler(self.requests@, name) == if name == handler.spec_path() {
                        Some(handler)
                    } else {
                        find_handler(before, name)
                    } by {
                    lemma_find_after_replace(before, i as int, handler, name);
                }
            },
            None => {
                self.requests.push(handler);
                assert forall|name: Seq<char>|
                    find_handler(self.requests@, name) == if name == handler.spec_path() {
                        Some(handler)
                    } else {
                        find_handler(before, name)
                    } by {
                    lemma_find_after_push(before, handler, name);
                }
            },
        }
    }

    fn place(&self, name: &str) -> (place: Option<usize>)
        ensures
            match place {
                Some(i) => i < self.requests.len() && last_match(self.requests@, name@) == i,
                None => last_match(self.requests@, name@) == -1,
            },
    {
        let ghost all = self.requests@;
        assert(all.take(all.len() as int) =~= all);
        let mut i: usize = self.requests.len();
        while i > 0
            invariant
                i <= self.requests.len(),
                all == self.requests@,
                last_match(all, name@) == last_match(all.take(i as int), name@),
            decreases i,
        {
            i -= 1;
            assert(all.take(i + 1).last() == all[i as int]);
            assert(all.take(i + 1).drop_last() =~= all.take(i as int));
            if same_text(self.requests[i].path(), name) {
                return Some(i);
            }
        }
        None
    }

    fn find(&self, name: &str) -> (found: Option<&RequestHandler>)
        ensures
            match found {
                Some(handler) => self.lookup(name@) == Some(*handler),
                None => self.lookup(name@) is None,
            },
    {
        match self.place(name) {
            Some(i) => Some(&self.requests[i]),
            None => None,
        }
    }

    /// Serves a request up to its answer or to the first thing that it has
    /// to wait for.
    pub fn handle(&self, switches: &mut Switches, climate: &mut Climate, request: &Request) -> (step:
        Step)
        ensures
            ({
                let expected = self.answered(
                    old(switches)@,
                    old(climate)@,
                    request@,
                    request@.json(),
                );
                &&& step@ == expected.step
                &&& final(switches)@ == expected.switches
                &&& final(climate)@ == expected.climate
            }),
    {
        let method = match ServerMethod::resolve(&request.parts.headers, request.parts.path.as_str()) {
            Some(method) => method,
            None => {
                return Step::respond(not_found());
            },
        };
        let data = match &request.body {
            Some(data) => data,
            None => {
                return Self::error_message(BODY_UNREADABLE, STATUS_BAD_REQUEST);
            },
        };
        let handler = match self.find(method.name()) {
            Some(handler) => handler,
            None => {
                return Step::respond(not_found());
            },
        };
        Self::render(handler.process(switches, climate, &request.parts, data.as_slice()))
    }

    /// Serves a request whose body was read as `json`, or could not be read
    /// as such.
    pub fn handle_json(
        &self,
        switches: &mut Switches,
        climate: &mut Climate,
        request: &Request,
        json: Option<&JsonValue>,
    ) -> (step: Step)
        ensures
            ({
                let expected = self.answered(
                    old(switches)@,
                    old(climate)@,
                    request@,
                    match json {
                        Some(tree) => Some(tree@),
                        None => None,
                    },
                );
                &&& step@ == expected.step
                &&& final(switches)@ == expected.switches
                &&& final(climate)@ == expected.climate
            }),
    {
        let method = match ServerMethod::resolve(&request.parts.headers, request.parts.path.as_str()) {
            Some(method) => method,
            None => {
                return Step::respond(not_found());
            },
        };
        if request.body.is_none() {
            return Self::error_message(BODY_UNREADABLE, STATUS_BAD_REQUEST);
        }
        let handler = match self.find(method.name()) {
            Some(handler) => handler,
            None => {
                return Step::respond(not_found());
            },
        };
        Self::render(handler.process_json(switches, climate, &request.parts, json))
    }

    /// Goes on with a request that waited, now that the event came.
    pub fn resume(pending: Pending, event: Event) -> (step: Step)
        ensures
            step@ == resumed(pending, event@),
    {
        let outcome = match (pending, event) {
            (Pending::WaterLevel, Event::WaterLevel(level)) => finish(
                IsEnoughWaterRequest::water_level(level),
            ),
            (Pending::WaterLevelForPump { seconds, force }, Event::WaterLevel(level)) => advance(
                WaterRequest::water_level(seconds, force, level),
            ),
            (Pending::Pump, Event::PumpStopped(outcome)) => finish(
                WaterRequest::pump_stopped(outcome),
            ),
            (Pending::Servo, Event::ServoTurned(outcome)) => finish(
                TurnServoRequest::servo_turned(outcome),
            ),
            (Pending::Photo, Event::Photo(photo)) => finish(GetCameraImageRequest::photo(&photo)),
            (Pending::Peer { created }, Event::PeerNotified) => finish(
                Ok(PostSwitchMethod::peer_notified(created)),
            ),
            _ => Ok(Step::respond(Response::internal_server_error())),
        };
        Self::render(outcome)
    }

    /// The step that a handler's outcome comes to.
    pub fn render(outcome: Result<Step, ServerError>) -> (step: Step)
        ensures
            step@ == rendered(
                match outcome {
                    Ok(s) => Ok(s@),
                    Err(error) => Err(error),
                },
            ),
    {
        match outcome {
            Ok(step) => step,
            Err(error) => Step::respond(Self::error_response(&error)),
        }
    }

    /// The answer that tells of an error.
    pub fn error_response(error: &ServerError) -> (response: Response)
        ensures
            response@ == error_response(*error),
    {
        match error {
            ServerError::Logic(rule) => Self::logic_error_response(
                print(&ErrorOutput::new(*rule).to_json()),
            ),
            ServerError::Poison => Response::text(
                STATUS_INTERNAL_SERVER_ERROR,
                error.message().as_str(),
            ),
            ServerError::Hyper => Response::text(
                STATUS_INTERNAL_SERVER_ERROR,
                error.message().as_str(),
            ),
            _ => Response::text(STATUS_BAD_REQUEST, error.message().as_str()),
        }
    }

    /// The answer that tells of a broken rule, given the text written for
    /// its number.
    pub fn logic_error_response(text: Result<Vec<u8>, serde_json::Error>) -> (response: Response)
        ensures
            match text {
                Ok(body) => response@ == ResponseModel::bytes(STATUS_BAD_REQUEST, body@),
                Err(_) => response@ == ResponseModel::internal_server_error(),
            },
    {
        match text {
            Ok(body) => Self::error(body, STATUS_BAD_REQUEST),
            Err(_) => Response::internal_server_error(),
        }
    }

    fn error_message(message: &str, code: u16) -> (step: Step)
        ensures
            step@ == StepModel::respond(ResponseModel::text(code, message@)),
    {
        Step::respond(Response::text(code, message))
    }

    fn error(body: Vec<u8>, code: u16) -> (response: Response)
        ensures
            response@ == ResponseModel::bytes(code, body@),
    {
        Response::bytes(code, body)
    }
}

} // verus!
