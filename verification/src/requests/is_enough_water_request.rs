use vstd::prelude::*;
use crate::server::protected_json_request_handler::ProtectedInput;
use crate::server::envelope::Method;
use crate::server::json_request_handler::JsonMethodHandlerAdapter;
use crate::server::request_handler::{MethodHandler, RequestHandler};
use crate::json::{lemma_find_first_of_name, JsonModel, JsonValue, Payload};
use crate::server::json_request_handler::JsonMethodHandler;
use crate::server::envelope::{
    Action, ActionModel, Parts, Pending, Progress, ProgressModel, Step, StepModel,
};
use crate::server::server_error::ServerError;
use crate::services::climate::{Climate, ClimateModel};
use crate::services::switches::{SwitchModel, Switches};

use crate::utils::rppal_error::RppalError;

verus! {

/// What the endpoint takes.
#[derive(Debug)]
pub struct Input {
    pub key: String,
}

/// What an [`Input`] stands for in contracts.
pub struct InputModel {
    pub key: Seq<char>,
}

impl View for Input {
    type V = InputModel;

    open spec fn view(&self) -> InputModel {
        InputModel { key: self.key@ }
    }
}

impl ProtectedInput for Input {
    open spec fn protected_key(&self) -> Seq<char> {
        self.key@
    }

    fn get_protected_key(&self) -> (key: &str) {
        self.key.as_str()
    }
}

impl Payload for Input {
    open spec fn encoded(model: InputModel) -> JsonModel {
        JsonModel::record().put("key"@, JsonModel::String(model.key))
    }

    open spec fn decoded(json: JsonModel) -> Option<InputModel> {
        match json.text_member("key"@) {
            Some(key) => Some(InputModel { key }),
            None => None,
        }
    }

    fn to_json(&self) -> (json: JsonValue) {
        JsonValue::record().put("key", JsonValue::String(self.key.clone()))
    }

    fn from_json(json: &JsonValue) -> (value: Option<Input>) {
        match json.text_member("key") {
            Some(key) => Some(Input { key }),
            None => None,
        }
    }

    proof fn lemma_round_trip(model: InputModel) {
        lemma_find_first_of_name(Self::encoded(model)->Object_0, 0);
    }
}

/// What the endpoint gives.
#[derive(Clone, Copy, Debug, PartialEq, Eq, Structural)]
pub struct Output {
    pub result: bool,
}

impl View for Output {
    type V = Output;

    open spec fn view(&self) -> Output {
        *self
    }
}

impl Payload for Output {
    open spec fn encoded(model: Output) -> JsonModel {
        JsonModel::record().put("result"@, JsonModel::Bool(model.result))
    }

    open spec fn decoded(json: JsonModel) -> Option<Output> {
        match json.bool_member("result"@) {
            Some(result) => Some(Output { result }),
            None => None,
        }
    }

    fn to_json(&self) -> (json: JsonValue) {
        JsonValue::record().put("result", JsonValue::Bool(self.result))
    }

    fn from_json(json: &JsonValue) -> (value: Option<Output>) {
        match json.bool_member("result") {
            Some(result) => Some(Output { result }),
            None => None,
        }
    }

    proof fn lemma_round_trip(model: Output) {
        lemma_find_first_of_name(Self::encoded(model)->Object_0, 0);
    }
}

/// Says whether the tank holds enough water.
pub struct IsEnoughWaterRequest;

impl IsEnoughWaterRequest {
    /// The output for what the water sensor said.
    pub fn water_level(level: Result<bool, RppalError>) -> (output: Result<Output, ServerError>)
        ensures
            output == (match level {
                Ok(result) => Ok::<Output, ServerError>(Output { result }),
                Err(error) => Err::<Output, ServerError>(ServerError::Rppal(error)),
            }),
    {
        match level {
            Ok(result) => Ok(Output { result }),
            Err(error) => Err(ServerError::Rppal(error)),
        }
    }
}

impl IsEnoughWaterRequest {
    /// The method `is-enough-water`, served on POST and guarded by the key.
    pub fn new(key: &str) -> (handler: RequestHandler)
        ensures
            handler.spec_path() == "is-enough-water"@,
            forall|method: Method| method != Method::Post ==> handler.slot(method) is None,
            handler.slot(Method::Post) matches Some(MethodHandler::IsEnoughWater(adapter))
                && adapter.key() == Some(key@),
    {
        RequestHandler::new("is-enough-water").set_post(
            MethodHandler::IsEnoughWater(JsonMethodHandlerAdapter::new(IsEnoughWaterRequest, Some(key.to_owned()))),
        )
    }
}

impl JsonMethodHandler for IsEnoughWaterRequest {
    type Input = Input;

    type Output = Output;

    open spec fn key_of(input: InputModel) -> Option<Seq<char>> {
        Some(input.key)
    }

    open spec fn outcome(
        input: InputModel,
        switches: Map<Seq<char>, SwitchModel>,
        climate: ClimateModel,
    ) -> Result<ProgressModel<Output>, ServerError> {
        Ok(
            ProgressModel::Wait(
                StepModel { pending: Pending::WaterLevel, action: ActionModel::ReadWaterLevel },
            ),
        )
    }

    open spec fn switches_after(
        input: InputModel,
        switches: Map<Seq<char>, SwitchModel>,
    ) -> Map<Seq<char>, SwitchModel> {
        switches
    }

    open spec fn climate_after(input: InputModel, climate: ClimateModel) -> ClimateModel {
        climate
    }

    fn read_key<'a>(&self, input: &'a Input) -> (key: Option<&'a str>) {
        Some(input.get_protected_key())
    }

    fn process(
        &self,
        switches: &mut Switches,
        climate: &mut Climate,
        parts: &Parts,
        input: Input,
    ) -> (outcome: Result<Progress<Output>, ServerError>) {
        Ok(Progress::Wait(Step { pending: Pending::WaterLevel, action: Action::ReadWaterLevel }))
    }
}

} // verus!
