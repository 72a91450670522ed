use vstd::prelude::*;
use crate::server::protected_json_request_handler::ProtectedInput;
use crate::server::envelope::Method;
use crate::server::json_request_handler::JsonMethodHandlerAdapter;
use crate::server::request_handler::{MethodHandler, RequestHandler};
use crate::json::{lemma_find_first_of_name, JsonModel, JsonValue, Payload};
use crate::server::json_request_handler::JsonMethodHandler;
use crate::server::envelope::{
    Action, ActionModel, Parts, Pending, Progress, ProgressModel, Step, StepModel,
};
use crate::server::server_error::ServerError;
use crate::services::climate::{Climate, ClimateModel};
use crate::services::switches::{SwitchModel, Switches};

use crate::utils::rppal_error::RppalError;

verus! {

/// What the endpoint takes.
#[derive(Debug)]
pub struct Input {
    pub key: String,
    pub duration_seconds: u64,
    pub force: bool,
}

/// What an [`Input`] stands for in contracts.
pub struct InputModel {
    pub key: Seq<char>,
    pub duration_seconds: u64,
    pub force: bool,
}

impl View for Input {
    type V = InputModel;

    open spec fn view(&self) -> InputModel {
        InputModel { key: self.key@, duration_seconds: self.duration_seconds, force: self.force }
    }
}

impl ProtectedInput for Input {
    open spec fn protected_key(&self) -> Seq<char> {
        self.key@
    }

    fn get_protected_key(&self) -> (key: &str) {
        self.key.as_str()
    }
}

impl Payload for Input {
    open spec fn encoded(model: InputModel) -> JsonModel {
        JsonModel::record().put("key"@, JsonModel::String(model.key)).put(
            "duration_seconds"@,
            JsonModel::whole(model.duration_seconds as int),
        ).put("force"@, JsonModel::Bool(model.force))
    }

    open spec fn decoded(json: JsonModel) -> Option<InputModel> {
        match (
            json.text_member("key"@),
            json.whole_member("duration_seconds"@, 0, u64::MAX as int),
            json.bool_member("force"@),
        ) {
            (Some(key), Some(seconds), Some(force)) => Some(
                InputModel { key, duration_seconds: seconds as u64, force },
            ),
            _ => None,
        }
    }

    fn to_json(&self) -> (json: JsonValue) {
        JsonValue::record().put("key", JsonValue::String(self.key.clone())).put(
            "duration_seconds",
            JsonValue::unsigned(self.duration_seconds),
        ).put("force", JsonValue::Bool(self.force))
    }

    fn from_json(json: &JsonValue) -> (value: Option<Input>) {
        match (json.text_member("key"), json.u64_member("duration_seconds"), json.bool_member("force")) {
            (Some(key), Some(duration_seconds), Some(force)) => Some(
                Input { key, duration_seconds, force },
            ),
            _ => None,
        }
    }

    proof fn lemma_round_trip(model: InputModel) {
        reveal_strlit("key");
        reveal_strlit("duration_seconds");
        reveal_strlit("force");
        let members = Self::encoded(model)->Object_0;
        assert(members[0].name.len() == 3 && members[1].name.len() == 16 && members[2].name.len()
            == 5);
        lemma_find_first_of_name(members, 0);
        lemma_find_first_of_name(members, 1);
        lemma_find_first_of_name(members, 2);
    }
}

/// What the endpoint gives.
#[derive(Debug)]
pub struct Output {
    pub result: bool,
    pub message: String,
}

/// What an [`Output`] stands for in contracts.
pub struct OutputModel {
    pub result: bool,
    pub message: Seq<char>,
}

impl View for Output {
    type V = OutputModel;

    open spec fn view(&self) -> OutputModel {
        OutputModel { result: self.result, message: self.message@ }
    }
}

impl Payload for Output {
    open spec fn encoded(model: OutputModel) -> JsonModel {
        JsonModel::record().put("result"@, JsonModel::Bool(model.result)).put(
            "message"@,
            JsonModel::String(model.message),
        )
    }

    open spec fn decoded(json: JsonModel) -> Option<OutputModel> {
        match (json.bool_member("result"@), json.text_member("message"@)) {
            (Some(result), Some(message)) => Some(OutputModel { result, message }),
            _ => None,
        }
    }

    fn to_json(&self) -> (json: JsonValue) {
        JsonValue::record().put("result", JsonValue::Bool(self.result)).put(
            "message",
            JsonValue::String(self.message.clone()),
        )
    }

    fn from_json(json: &JsonValue) -> (value: Option<Output>) {
        match (json.bool_member("result"), json.text_member("message")) {
            (Some(result), Some(message)) => Some(Output { result, message }),
            _ => None,
        }
    }

    proof fn lemma_round_trip(model: OutputModel) {
        reveal_strlit("result");
        reveal_strlit("message");
        let members = Self::encoded(model)->Object_0;
        assert(members[0].name.len() == 6 && members[1].name.len() == 7);
        lemma_find_first_of_name(members, 0);
        lemma_find_first_of_name(members, 1);
    }
}

/// What is said where the plant was not watered for want of water.
pub open spec fn not_enough_water() -> OutputModel {
    OutputModel { result: false, message: "Not enough water"@ }
}

/// What is said where the plant was watered.
pub open spec fn plant_was_watered() -> OutputModel {
    OutputModel { result: true, message: "Plant was watered"@ }
}

/// What follows once the water sensor has spoken: its failure ends the
/// request; with too little water and no force nothing is pumped; otherwise
/// the pump runs for the time asked.
pub open spec fn after_water_level(
    seconds: u64,
    force: bool,
    level: Result<bool, RppalError>,
) -> Result<ProgressModel<OutputModel>, ServerError> {
    match level {
        Err(error) => Err(ServerError::Rppal(error)),
        Ok(enough) => if !force && !enough {
            Ok(ProgressModel::Output(not_enough_water()))
        } else {
            Ok(
                ProgressModel::Wait(
                    StepModel { pending: Pending::Pump, action: ActionModel::RunPump { seconds } },
                ),
            )
        },
    }
}

/// Waters the plant: asks the water sensor first, then runs the pump.
pub struct WaterRequest;

impl WaterRequest {
    /// What follows once the water sensor has spoken.
    pub fn water_level(seconds: u64, force: bool, level: Result<bool, RppalError>) -> (outcome: Result<
        Progress<Output>,
        ServerError,
    >)
        ensures
            match outcome {
                Ok(progress) => after_water_level(seconds, force, level) == Ok::<
                    ProgressModel<OutputModel>,
                    ServerError,
                >(progress.model()),
                Err(error) => after_water_level(seconds, force, level) == Err::<
                    ProgressModel<OutputModel>,
                    ServerError,
                >(error),
            },
    {
        match level {
            Err(error) => Err(ServerError::Rppal(error)),
            Ok(enough) => {
                if !force && !enough {
                    Ok(
                        Progress::Output(
                            Output { result: false, message: "Not enough water".to_owned() },
                        ),
                    )
                } else {
                    Ok(
                        Progress::Wait(
                            Step { pending: Pending::Pump, action: Action::RunPump { seconds } },
                        ),
                    )
                }
            },
        }
    }

    /// The output once the pump has stopped.
    pub fn pump_stopped(outcome: Result<(), RppalError>) -> (output: Result<Output, ServerError>)
        ensures
            match (outcome, output) {
                (Ok(_), Ok(said)) => said@ == plant_was_watered(),
                (Err(error), Err(told)) => told == ServerError::Rppal(error),
                _ => false,
            },
    {
        match outcome {
            Ok(_) => Ok(Output { result: true, message: "Plant was watered".to_owned() }),
            Err(error) => Err(ServerError::Rppal(error)),
        }
    }
}

impl WaterRequest {
    /// The method `water`, served on POST and guarded by the key.
    pub fn new(key: &str) -> (handler: RequestHandler)
        ensures
            handler.spec_path() == "water"@,
            forall|method: Method| method != Method::Post ==> handler.slot(method) is None,
            handler.slot(Method::Post) matches Some(MethodHandler::Water(adapter))
                && adapter.key() == Some(key@),
    {
        RequestHandler::new("water").set_post(
            MethodHandler::Water(JsonMethodHandlerAdapter::new(WaterRequest, Some(key.to_owned()))),
        )
    }
}

impl JsonMethodHandler for WaterRequest {
    type Input = Input;

    type Output = Output;

    open spec fn key_of(input: InputModel) -> Option<Seq<char>> {
        Some(input.key)
    }

    open spec fn outcome(
        input: InputModel,
        switches: Map<Seq<char>, SwitchModel>,
        climate: ClimateModel,
    ) -> Result<ProgressModel<OutputModel>, ServerError> {
        Ok(
            ProgressModel::Wait(
                StepModel {
                    pending: Pending::WaterLevelForPump {
                        seconds: input.duration_seconds,
                        force: input.force,
                    },
                    action: ActionModel::ReadWaterLevel,
                },
            ),
        )
    }

    open spec fn switches_after(
        input: InputModel,
        switches: Map<Seq<char>, SwitchModel>,
    ) -> Map<Seq<char>, SwitchModel> {
        switches
    }

    open spec fn climate_after(input: InputModel, climate: ClimateModel) -> ClimateModel {
        climate
    }

    fn read_key<'a>(&self, input: &'a Input) -> (key: Option<&'a str>) {
        Some(input.get_protected_key())
    }

    fn process(
        &self,
        switches: &mut Switches,
        climate: &mut Climate,
        parts: &Parts,
        input: Input,
    ) -> (outcome: Result<Progress<Output>, ServerError>) {
        Ok(
            Progress::Wait(
                Step {
                    pending: Pending::WaterLevelForPump {
                        seconds: input.duration_seconds,
                        force: input.force,
                    },
                    action: Action::ReadWaterLevel,
                },
            ),
        )
    }
}

} // verus!
