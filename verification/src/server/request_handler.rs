use vstd::prelude::*;
use crate::json::{parsed, JsonModel, JsonValue};
use crate::requests::conditioners_request::ConditionersRequest;
use crate::requests::echo_request::EchoRequest;
use crate::requests::get_camera_image_request::GetCameraImageRequest;
use crate::requests::get_climate_request::GetClimateRequest;
use crate::requests::is_enabled_request::IsEnabledRequest;
use crate::requests::is_enough_water_request::IsEnoughWaterRequest;
use crate::requests::set_climate_request::SetClimateRequest;
use crate::requests::set_switch_request::{GetSwitchMethod, PostSwitchMethod};
use crate::requests::turn_servo_request::TurnServoRequest;
use crate::requests::water_request::WaterRequest;
use crate::server::envelope::{not_found, Method, Parts, PartsModel, ResponseModel, Step, StepModel};
use crate::server::json_request_handler::{
    carried, key_header_unreadable, lemma_guarded_endpoint_refuses, lemma_step_is_answer_or_wait,
    presented_key, served,
    JsonMethodHandlerAdapter, Served,
};
use crate::server::server_error::LogicError;
use crate::server::server_error::ServerError;
use crate::services::climate::{Climate, ClimateModel};
use crate::services::switches::{SwitchModel, Switches};

verus! {

/// The handler bound to one verb of a method: one of the endpoints of the
/// service, with the key that guards it.
pub enum MethodHandler {
    Echo(JsonMethodHandlerAdapter<EchoRequest>),
    GetCameraImage(JsonMethodHandlerAdapter<GetCameraImageRequest>),
    IsEnoughWater(JsonMethodHandlerAdapter<IsEnoughWaterRequest>),
    Water(JsonMethodHandlerAdapter<WaterRequest>),
    TurnServo(JsonMethodHandlerAdapter<TurnServoRequest>),
    Conditioners(JsonMethodHandlerAdapter<ConditionersRequest>),
    GetClimate(JsonMethodHandlerAdapter<GetClimateRequest>),
    SetClimate(JsonMethodHandlerAdapter<SetClimateRequest>),
    IsEnabled(JsonMethodHandlerAdapter<IsEnabledRequest>),
    GetSwitch(JsonMethodHandlerAdapter<GetSwitchMethod>),
    PostSwitch(JsonMethodHandlerAdapter<PostSwitchMethod>),
}

impl MethodHandler {
    /// The key that guards the handler.
    pub open spec fn key(self) -> Option<Seq<char>> {
        match self {
            MethodHandler::Echo(adapter) => adapter.key(),
            MethodHandler::GetCameraImage(adapter) => adapter.key(),
            MethodHandler::IsEnoughWater(adapter) => adapter.key(),
            MethodHandler::Water(adapter) => adapter.key(),
            MethodHandler::TurnServo(adapter) => adapter.key(),
            MethodHandler::Conditioners(adapter) => adapter.key(),
            MethodHandler::GetClimate(adapter) => adapter.key(),
            MethodHandler::SetClimate(adapter) => adapter.key(),
            MethodHandler::IsEnabled(adapter) => adapter.key(),
            MethodHandler::GetSwitch(adapter) => adapter.key(),
            MethodHandler::PostSwitch(adapter) => adapter.key(),
        }
    }

    /// What the handler makes of a request whose body reads as `json`.
    pub open spec fn served(
        self,
        switches: Map<Seq<char>, SwitchModel>,
        climate: ClimateModel,
        parts: PartsModel,
        json: Option<JsonModel>,
    ) -> Served {
        match self {
            MethodHandler::Echo(adapter) => served::<EchoRequest>(
                adapter.key(),
                switches,
                climate,
                parts,
                json,
            ),
            MethodHandler::GetCameraImage(adapter) => served::<GetCameraImageRequest>(
                adapter.key(),
                switches,
                climate,
                parts,
                json,
            ),
            MethodHandler::IsEnoughWater(adapter) => served::<IsEnoughWaterRequest>(
                adapter.key(),
                switches,
                climate,
                parts,
                json,
            ),
            MethodHandler::Water(adapter) => served::<WaterRequest>(
                adapter.key(),
                switches,
                climate,
                parts,
                json,
            ),
            MethodHandler::TurnServo(adapter) => served::<TurnServoRequest>(
                adapter.key(),
                switches,
                climate,
                parts,
                json,
            ),
            MethodHandler::Conditioners(adapter) => served::<ConditionersRequest>(
                adapter.key(),
                switches,
                climate,
                parts,
                json,
            ),
            MethodHandler::GetClimate(adapter) => served::<GetClimateRequest>(
                adapter.key(),
                switches,
                climate,
                parts,
                json,
            ),
            MethodHandler::SetClimate(adapter) => served::<SetClimateRequest>(
                adapter.key(),
                switches,
                climate,
                parts,
                json,
            ),
            MethodHandler::IsEnabled(adapter) => served::<IsEnabledRequest>(
                adapter.key(),
                switches,
                climate,
                parts,
                json,
            ),
            MethodHandler::GetSwitch(adapter) => served::<GetSwitchMethod>(
                adapter.key(),
                switches,
                climate,
                parts,
                json,
            ),
            MethodHandler::PostSwitch(adapter) => served::<PostSwitchMethod>(
                adapter.key(),
                switches,
                climate,
                parts,
                json,
            ),
        }
    }

    /// The key that a body carries for the handler's endpoint, where the
    /// body stands for an input of it: `None` where it does not.
    pub open spec fn carried_key(self, json: JsonModel) -> Option<Option<Seq<char>>> {
        match self {
            MethodHandler::Echo(_) => carried::<EchoRequest>(json),
            MethodHandler::GetCameraImage(_) => carried::<GetCameraImageRequest>(json),
            MethodHandler::IsEnoughWater(_) => carried::<IsEnoughWaterRequest>(json),
            MethodHandler::Water(_) => carried::<WaterRequest>(json),
            MethodHandler::TurnServo(_) => carried::<TurnServoRequest>(json),
            MethodHandler::Conditioners(_) => carried::<ConditionersRequest>(json),
            MethodHandler::GetClimate(_) => carried::<GetClimateRequest>(json),
            MethodHandler::SetClimate(_) => carried::<SetClimateRequest>(json),
            MethodHandler::IsEnabled(_) => carried::<IsEnabledRequest>(json),
            MethodHandler::GetSwitch(_) => carried::<GetSwitchMethod>(json),
            MethodHandler::PostSwitch(_) => carried::<PostSwitchMethod>(json),
        }
    }

    /// A handler guarded by a key turns away, as one with an invalid key,
    /// every request whose body stands for an input and which presents
    /// another key or none, and leaves the house as it is. The one exception
    /// is a request whose key header has to be read and cannot be.
    pub proof fn lemma_guarded_handler_refuses(
        self,
        key: Seq<char>,
        switches: Map<Seq<char>, SwitchModel>,
        climate: ClimateModel,
        parts: PartsModel,
        json: JsonModel,
    )
        requires
            self.key() == Some(key),
            self.carried_key(json) is Some,
            presented_key(parts.headers, self.carried_key(json)->Some_0) != Some(key),
            !key_header_unreadable(parts.headers, self.carried_key(json)->Some_0),
        ensures
            self.served(switches, climate, parts, Some(json)) == (Served {
                outcome: Err(ServerError::Logic(LogicError::InvalidProtectedKey)),
                switches,
                climate,
            }),
    {
        match self {
            MethodHandler::Echo(_) => lemma_guarded_endpoint_refuses::<EchoRequest>(
                key,
                switches,
                climate,
                parts,
                json,
            ),
            MethodHandler::GetCameraImage(_) => lemma_guarded_endpoint_refuses::<GetCameraImageRequest>(
                key,
                switches,
                climate,
                parts,
                json,
            ),
            MethodHandler::IsEnoughWater(_) => lemma_guarded_endpoint_refuses::<IsEnoughWaterRequest>(
                key,
                switches,
                climate,
                parts,
                json,
            ),
            MethodHandler::Water(_) => lemma_guarded_endpoint_refuses::<WaterRequest>(
                key,
                switches,
                climate,
                parts,
                json,
            ),
            MethodHandler::TurnServo(_) => lemma_guarded_endpoint_refuses::<TurnServoRequest>(
                key,
                switches,
                climate,
                parts,
                json,
            ),
            MethodHandler::Conditioners(_) => lemma_guarded_endpoint_refuses::<ConditionersRequest>(
                key,
                switches,
                climate,
                parts,
                json,
            ),
            MethodHandler::GetClimate(_) => lemma_guarded_endpoint_refuses::<GetClimateRequest>(
                key,
                switches,
                climate,
                parts,
                json,
            ),
            MethodHandler::SetClimate(_) => lemma_guarded_endpoint_refuses::<SetClimateRequest>(
                key,
                switches,
                climate,
                parts,
                json,
            ),
            MethodHandler::IsEnabled(_) => lemma_guarded_endpoint_refuses::<IsEnabledRequest>(
                key,
                switches,
                climate,
                parts,
                json,
            ),
            MethodHandler::GetSwitch(_) => lemma_guarded_endpoint_refuses::<GetSwitchMethod>(
                key,
                switches,
                climate,
                parts,
                json,
            ),
            MethodHandler::PostSwitch(_) => lemma_guarded_endpoint_refuses::<PostSwitchMethod>(
                key,
                switches,
                climate,
                parts,
                json,
            ),
        }
    }

    /// Whatever a handler makes of a request, where it comes to a step, the
    /// step's action goes with what the request then waits for, and is not
    /// to run the pump.
    pub proof fn lemma_served_step_is_coherent(
        self,
        switches: Map<Seq<char>, SwitchModel>,
        climate: ClimateModel,
        parts: PartsModel,
        json: Option<JsonModel>,
    )
        ensures
            self.served(switches, climate, parts, json).outcome matches Ok(step)
                ==> step.coherent() && !(step.action is RunPump),
    {
        match self {
            MethodHandler::Echo(adapter) => lemma_step_is_answer_or_wait::<EchoRequest>(
                adapter.key(),
                switches,
                climate,
                parts,
                json,
            ),
            MethodHandler::GetCameraImage(adapter) => lemma_step_is_answer_or_wait::<GetCameraImageRequest>(
                adapter.key(),
                switches,
                climate,
                parts,
                json,
            ),
            MethodHandler::IsEnoughWater(adapter) => lemma_step_is_answer_or_wait::<IsEnoughWaterRequest>(
                adapter.key(),
                switches,
                climate,
                parts,
                json,
            ),
            MethodHandler::Water(adapter) => lemma_step_is_answer_or_wait::<WaterRequest>(
                adapter.key(),
                switches,
                climate,
                parts,
                json,
            ),
            MethodHandler::TurnServo(adapter) => lemma_step_is_answer_or_wait::<TurnServoRequest>(
                adapter.key(),
                switches,
                climate,
                parts,
                json,
            ),
            MethodHandler::Conditioners(adapter) => lemma_step_is_answer_or_wait::<ConditionersRequest>(
                adapter.key(),
                switches,
                climate,
                parts,
                json,
            ),
            MethodHandler::GetClimate(adapter) => lemma_step_is_answer_or_wait::<GetClimateRequest>(
                adapter.key(),
                switches,
                climate,
                parts,
                json,
            ),
            MethodHandler::SetClimate(adapter) => lemma_step_is_answer_or_wait::<SetClimateRequest>(
                adapter.key(),
                switches,
                climate,
                parts,
                json,
            ),
            MethodHandler::IsEnabled(adapter) => lemma_step_is_answer_or_wait::<IsEnabledRequest>(
                adapter.key(),
                switches,
                climate,
                parts,
                json,
            ),
            MethodHandler::GetSwitch(adapter) => lemma_step_is_answer_or_wait::<GetSwitchMethod>(
                adapter.key(),
                switches,
                climate,
                parts,
                json,
            ),
            MethodHandler::PostSwitch(adapter) => lemma_step_is_answer_or_wait::<PostSwitchMethod>(
                adapter.key(),
                switches,
                climate,
                parts,
                json,
            ),
        }
    }

    /// Serves a request with this body.
    pub fn process(
        &self,
        switches: &mut Switches,
        climate: &mut Climate,
        parts: &Parts,
        data: &[u8],
    ) -> (outcome: Result<Step, ServerError>)
        ensures
            ({
                let expected = self.served(old(switches)@, old(climate)@, parts@, parsed(data@));
                &&& final(switches)@ == expected.switches
                &&& final(climate)@ == expected.climate
                &&& match outcome {
                    Ok(step) => expected.outcome == Ok::<StepModel, ServerError>(step@),
                    Err(error) => expected.outcome == Err::<StepModel, ServerError>(error),
                }
            }),
    {
        match self {
            MethodHandler::Echo(adapter) => adapter.process(switches, climate, parts, data),
            MethodHandler::GetCameraImage(adapter) => adapter.process(switches, climate, parts, data),
            MethodHandler::IsEnoughWater(adapter) => adapter.process(switches, climate, parts, data),
            MethodHandler::Water(adapter) => adapter.process(switches, climate, parts, data),
            MethodHandler::TurnServo(adapter) => adapter.process(switches, climate, parts, data),
            MethodHandler::Conditioners(adapter) => adapter.process(switches, climate, parts, data),
            MethodHandler::GetClimate(adapter) => adapter.process(switches, climate, parts, data),
            MethodHandler::SetClimate(adapter) => adapter.process(switches, climate, parts, data),
            MethodHandler::IsEnabled(adapter) => adapter.process(switches, climate, parts, data),
            MethodHandler::GetSwitch(adapter) => adapter.process(switches, climate, parts, data),
            MethodHandler::PostSwitch(adapter) => adapter.process(switches, climate, parts, data),
        }
    }

    /// Serves a request whose body was read as `json`, or could not be read.
    pub fn process_json(
        &self,
        switches: &mut Switches,
        climate: &mut Climate,
        parts: &Parts,
        json: Option<&JsonValue>,
    ) -> (outcome: Result<Step, ServerError>)
        ensures
            ({
                let expected = self.served(
                    old(switches)@,
                    old(climate)@,
                    parts@,
                    match json {
                        Some(tree) => Some(tree@),
                        None => None,
                    },
                );
                &&& final(switches)@ == expected.switches
                &&& final(climate)@ == expected.climate
                &&& match outcome {
                    Ok(step) => expected.outcome == Ok::<StepModel, ServerError>(step@),
                    Err(error) => expected.outcome == Err::<StepModel, ServerError>(error),
                }
            }),
    {
        match self {
            MethodHandler::Echo(adapter) => adapter.process_json(switches, climate, parts, json),
            MethodHandler::GetCameraImage(adapter) => adapter.process_json(
                switches,
                climate,
                parts,
                json,
            ),
            MethodHandler::IsEnoughWater(adapter) => adapter.process_json(
                switches,
                climate,
                parts,
                json,
            ),
            MethodHandler::Water(adapter) => adapter.process_json(switches, climate, parts, json),
            MethodHandler::TurnServo(adapter) => adapter.process_json(switches, climate, parts, json),
            MethodHandler::Conditioners(adapter) => adapter.process_json(
                switches,
                climate,
                parts,
                json,
            ),
            MethodHandler::GetClimate(adapter) => adapter.process_json(switches, climate, parts, json),
            MethodHandler::SetClimate(adapter) => adapter.process_json(switches, climate, parts, json),
            MethodHandler::IsEnabled(adapter) => adapter.process_json(switches, climate, parts, json),
            MethodHandler::GetSwitch(adapter) => adapter.process_json(switches, climate, parts, json),
            MethodHandler::PostSwitch(adapter) => adapter.process_json(switches, climate, parts, json),
        }
    }
}

/// The handlers of one method, by verb.
pub struct RequestHandler {
    path: &'static str,
    get: Option<MethodHandler>,
    post: Option<MethodHandler>,
    put: Option<MethodHandler>,
    delete: Option<MethodHandler>,
}

impl RequestHandler {
    /// The name of the method.
    pub closed spec fn spec_path(&self) -> Seq<char> {
        self.path@
    }

    /// The handler bound to a verb.
    pub closed spec fn slot(&self, method: Method) -> Option<MethodHandler> {
        match method {
            Method::Get => self.get,
            Method::Post => self.post,
            Method::Put => self.put,
            Method::Delete => self.delete,
            Method::Other => None,
        }
    }

    /// What the method makes of a request whose body reads as `json`: the
    /// handler bound to the request's verb serves it; with none bound, the
    /// answer is that nothing was found.
    pub open spec fn handled(
        &self,
        switches: Map<Seq<char>, SwitchModel>,
        climate: ClimateModel,
        parts: PartsModel,
        json: Option<JsonModel>,
    ) -> Served {
        match self.slot(parts.method) {
            Some(handler) => handler.served(switches, climate, parts, json),
            None => Served {
                outcome: Ok(StepModel::respond(ResponseModel::not_found())),
                switches,
                climate,
            },
        }
    }

    /// A method of this name with no handler bound.
    pub fn new(path: &'static str) -> (handler: RequestHandler)
        ensures
            handler.spec_path() == path@,
            forall|method: Method| handler.slot(method) is None,
    {
        RequestHandler { path, get: None, post: None, put: None, delete: None }
    }

    pub fn set_get(self, handler: MethodHandler) -> (bound: RequestHandler)
        ensures
            bound.spec_path() == self.spec_path(),
            forall|method: Method|
                bound.slot(method) == if method == Method::Get {
                    Some(handler)
                } else {
                    self.slot(method)
                },
    {
        let mut bound = self;
        bound.get = Some(handler);
        bound
    }

    pub fn set_post(self, handler: MethodHandler) -> (bound: RequestHandler)
        ensures
            bound.spec_path() == self.spec_path(),
            forall|method: Method|
                bound.slot(method) == if method == Method::Post {
                    Some(handler)
                } else {
                    self.slot(method)
                },
    {
        let mut bound = self;
        bound.post = Some(handler);
        bound
    }

    pub fn set_put(self, handler: MethodHandler) -> (bound: RequestHandler)
        ensures
            bound.spec_path() == self.spec_path(),
            forall|method: Method|
                bound.slot(method) == if method == Method::Put {
                    Some(handler)
                } else {
                    self.slot(method)
                },
    {
        let mut bound = self;
        bound.put = Some(handler);
        bound
    }

    pub fn set_delete(self, handler: MethodHandler) -> (bound: RequestHandler)
        ensures
            bound.spec_path() == self.spec_path(),
            forall|method: Method|
                bound.slot(method) == if method == Method::Delete {
                    Some(handler)
                } else {
                    self.slot(method)
                },
    {
        let mut bound = self;
        bound.delete = Some(handler);
        bound
    }

    pub fn path(&self) -> (path: &'static str)
        ensures
            path@ == self.spec_path(),
    {
        self.path
    }

    /// Serves a request with this body.
    pub fn process(
        &self,
        switches: &mut Switches,
        climate: &mut Climate,
        parts: &Parts,
        data: &[u8],
    ) -> (outcome: Result<Step, ServerError>)
        ensures
            ({
                let expected = self.handled(old(switches)@, old(climate)@, parts@, parsed(data@));
                &&& final(switches)@ == expected.switches
                &&& final(climate)@ == expected.climate
                &&& match outcome {
                    Ok(step) => expected.outcome == Ok::<StepModel, ServerError>(step@),
                    Err(error) => expected.outcome == Err::<StepModel, ServerError>(error),
                }
            }),
    {
        let handler = match parts.method {
            Method::Get => &self.get,
            Method::Post => &self.post,
            Method::Put => &self.put,
            Method::Delete => &self.delete,
            Method::Other => &None,
        };
        match handler {
            Some(handler) => handler.process(switches, climate, parts, data),
            None => Ok(Step::respond(not_found())),
        }
    }

    /// Serves a request whose body was read as `json`, or could not be read.
    pub fn process_json(
        &self,
        switches: &mut Switches,
        climate: &mut Climate,
        parts: &Parts,
        json: Option<&JsonValue>,
    ) -> (outcome: Result<Step, ServerError>)
        ensures
            ({
                let expected = self.handled(
                    old(switches)@,
                    old(climate)@,
                    parts@,
                    match json {
                        Some(tree) => Some(tree@),
                        None => None,
                    },
                );
                &&& final(switches)@ == expected.switches
                &&& final(climate)@ == expected.climate
                &&& match outcome {
                    Ok(step) => expected.outcome == Ok::<StepModel, ServerError>(step@),
                    Err(error) => expected.outcome == Err::<StepModel, ServerError>(error),
                }
            }),
    {
        let handler = match parts.method {
            Method::Get => &self.get,
            Method::Post => &self.post,
            Method::Put => &self.put,
            Method::Delete => &self.delete,
            Method::Other => &None,
        };
        match handler {
            Some(handler) => handler.process_json(switches, climate, parts, json),
            None => Ok(Step::respond(not_found())),
        }
    }
}

} // verus!
