use vstd::prelude::*;
use crate::server::protected_json_request_handler::ProtectedInput;
use crate::server::envelope::Method;
use crate::server::json_request_handler::JsonMethodHandlerAdapter;
use crate::server::request_handler::{MethodHandler, RequestHandler};
use crate::json::{lemma_find_first_of_name, JsonModel, JsonValue, Payload};
use crate::server::json_request_handler::JsonMethodHandler;
use crate::server::envelope::{
    Action, ActionModel, Parts, Pending, Progress, ProgressModel, Step, StepModel,
};
use crate::server::server_error::ServerError;
use crate::services::climate::{Climate, ClimateModel};
use crate::services::switches::{SwitchModel, Switches};

use crate::json::{JsonNumber, NumberModel};
use crate::utils::rppal_error::RppalError;

verus! {

/// The angle is held as the number that was given, in degrees.
#[derive(Debug)]
pub struct Input {
    pub key: String,
    pub angle: JsonNumber,
}

/// What an [`Input`] stands for in contracts.
pub struct InputModel {
    pub key: Seq<char>,
    pub angle: NumberModel,
}

impl View for Input {
    type V = InputModel;

    open spec fn view(&self) -> InputModel {
        InputModel { key: self.key@, angle: self.angle@ }
    }
}

impl ProtectedInput for Input {
    open spec fn protected_key(&self) -> Seq<char> {
        self.key@
    }

    fn get_protected_key(&self) -> (key: &str) {
        self.key.as_str()
    }
}

impl Payload for Input {
    open spec fn encoded(model: InputModel) -> JsonModel {
        JsonModel::record().put("key"@, JsonModel::String(model.key)).put(
            "angle"@,
            JsonModel::Number(model.angle),
        )
    }

    open spec fn decoded(json: JsonModel) -> Option<InputModel> {
        match (json.text_member("key"@), json.number_member("angle"@)) {
            (Some(key), Some(angle)) => Some(InputModel { key, angle }),
            _ => None,
        }
    }

    fn to_json(&self) -> (json: JsonValue) {
        JsonValue::record().put("key", JsonValue::String(self.key.clone())).put(
            "angle",
            JsonValue::Number(self.angle.clone()),
        )
    }

    fn from_json(json: &JsonValue) -> (value: Option<Input>) {
        match (json.text_member("key"), json.number_member("angle")) {
            (Some(key), Some(angle)) => Some(Input { key, angle }),
            _ => None,
        }
    }

    proof fn lemma_round_trip(model: InputModel) {
        reveal_strlit("key");
        reveal_strlit("angle");
        let members = Self::encoded(model)->Object_0;
        assert(members[0].name.len() == 3 && members[1].name.len() == 5);
        lemma_find_first_of_name(members, 0);
        lemma_find_first_of_name(members, 1);
    }
}

/// What the endpoint gives.
#[derive(Debug)]
pub struct Output {
    pub result: String,
}

/// What an [`Output`] stands for in contracts.
pub struct OutputModel {
    pub result: Seq<char>,
}

impl View for Output {
    type V = OutputModel;

    open spec fn view(&self) -> OutputModel {
        OutputModel { result: self.result@ }
    }
}

impl Payload for Output {
    open spec fn encoded(model: OutputModel) -> JsonModel {
        JsonModel::record().put("result"@, JsonModel::String(model.result))
    }

    open spec fn decoded(json: JsonModel) -> Option<OutputModel> {
        match json.text_member("result"@) {
            Some(result) => Some(OutputModel { result }),
            None => None,
        }
    }

    fn to_json(&self) -> (json: JsonValue) {
        JsonValue::record().put("result", JsonValue::String(self.result.clone()))
    }

    fn from_json(json: &JsonValue) -> (value: Option<Output>) {
        match json.text_member("result") {
            Some(result) => Some(Output { result }),
            None => None,
        }
    }

    proof fn lemma_round_trip(model: OutputModel) {
        lemma_find_first_of_name(Self::encoded(model)->Object_0, 0);
    }
}

/// Turns the servo to an angle.
pub struct TurnServoRequest;

impl TurnServoRequest {
    /// The output once the servo has turned.
    pub fn servo_turned(outcome: Result<(), RppalError>) -> (output: Result<Output, ServerError>)
        ensures
            match (outcome, output) {
                (Ok(_), Ok(said)) => said@ == (OutputModel { result: "Ok"@ }),
                (Err(error), Err(told)) => told == ServerError::Rppal(error),
                _ => false,
            },
    {
        match outcome {
            Ok(_) => Ok(Output { result: "Ok".to_owned() }),
            Err(error) => Err(ServerError::Rppal(error)),
        }
    }
}

impl TurnServoRequest {
    /// The method `turn-servo`, served on POST and guarded by the key.
    pub fn new(key: &str) -> (handler: RequestHandler)
        ensures
            handler.spec_path() == "turn-servo"@,
            forall|method: Method| method != Method::Post ==> handler.slot(method) is None,
            handler.slot(Method::Post) matches Some(MethodHandler::TurnServo(adapter))
                && adapter.key() == Some(key@),
    {
        RequestHandler::new("turn-servo").set_post(
            MethodHandler::TurnServo(JsonMethodHandlerAdapter::new(TurnServoRequest, Some(key.to_owned()))),
        )
    }
}

impl JsonMethodHandler for TurnServoRequest {
    type Input = Input;

    type Output = Output;

    open spec fn key_of(input: InputModel) -> Option<Seq<char>> {
        Some(input.key)
    }

    open spec fn outcome(
        input: InputModel,
        switches: Map<Seq<char>, SwitchModel>,
        climate: ClimateModel,
    ) -> Result<ProgressModel<OutputModel>, ServerError> {
        Ok(
            ProgressModel::Wait(
                StepModel {
                    pending: Pending::Servo,
                    action: ActionModel::TurnServo { angle: input.angle },
                },
            ),
        )
    }

    open spec fn switches_after(
        input: InputModel,
        switches: Map<Seq<char>, SwitchModel>,
    ) -> Map<Seq<char>, SwitchModel> {
        switches
    }

    open spec fn climate_after(input: InputModel, climate: ClimateModel) -> ClimateModel {
        climate
    }

    fn read_key<'a>(&self, input: &'a Input) -> (key: Option<&'a str>) {
        Some(input.get_protected_key())
    }

    fn process(
        &self,
        switches: &mut Switches,
        climate: &mut Climate,
        parts: &Parts,
        input: Input,
    ) -> (outcome: Result<Progress<Output>, ServerError>) {
        Ok(
            Progress::Wait(
                Step { pending: Pending::Servo, action: Action::TurnServo { angle: input.angle } },
            ),
        )
    }
}

} // verus!
