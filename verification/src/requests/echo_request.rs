use vstd::prelude::*;
use crate::server::envelope::Method;
use crate::server::json_request_handler::JsonMethodHandlerAdapter;
use crate::server::request_handler::{MethodHandler, RequestHandler};
use crate::json::{lemma_find_first_of_name, JsonModel, JsonValue, Payload};
use crate::server::json_request_handler::JsonMethodHandler;
use crate::server::envelope::{Parts, Progress, ProgressModel};
use crate::server::server_error::{LogicError, ServerError};
use crate::services::climate::{Climate, ClimateModel};
use crate::services::switches::{SwitchModel, Switches};
use crate::text::same_text;

verus! {

/// The text that the echo endpoint takes as a probe for the error path.
pub const LOGIC_ERROR_TEST: &'static str = "logic error test";

/// What the endpoint takes.
#[derive(Debug)]
pub struct Input {
    pub str: String,
}

/// What an [`Input`] stands for in contracts.
pub struct InputModel {
    pub str: Seq<char>,
}

impl View for Input {
    type V = InputModel;

    open spec fn view(&self) -> InputModel {
        InputModel { str: self.str@ }
    }
}

impl Payload for Input {
    open spec fn encoded(model: InputModel) -> JsonModel {
        JsonModel::record().put("str"@, JsonModel::String(model.str))
    }

    open spec fn decoded(json: JsonModel) -> Option<InputModel> {
        match json.member("str"@) {
            Some(JsonModel::String(str)) => Some(InputModel { str }),
            _ => None,
        }
    }

    fn to_json(&self) -> (json: JsonValue) {
        JsonValue::record().put("str", JsonValue::String(self.str.clone()))
    }

    fn from_json(json: &JsonValue) -> (value: Option<Input>) {
        match json.member("str") {
            Some(JsonValue::String(str)) => Some(Input { str: str.clone() }),
            _ => None,
        }
    }

    proof fn lemma_round_trip(model: InputModel) {
        lemma_find_first_of_name(Self::encoded(model)->Object_0, 0);
    }
}

/// What the endpoint gives.
#[derive(Debug)]
pub struct Output {
    pub str: String,
}

/// What an [`Output`] stands for in contracts.
pub struct OutputModel {
    pub str: Seq<char>,
}

impl View for Output {
    type V = OutputModel;

    open spec fn view(&self) -> OutputModel {
        OutputModel { str: self.str@ }
    }
}

impl Payload for Output {
    open spec fn encoded(model: OutputModel) -> JsonModel {
        JsonModel::record().put("str"@, JsonModel::String(model.str))
    }

    open spec fn decoded(json: JsonModel) -> Option<OutputModel> {
        match json.member("str"@) {
            Some(JsonModel::String(str)) => Some(OutputModel { str }),
            _ => None,
        }
    }

    fn to_json(&self) -> (json: JsonValue) {
        JsonValue::record().put("str", JsonValue::String(self.str.clone()))
    }

    fn from_json(json: &JsonValue) -> (value: Option<Output>) {
        match json.member("str") {
            Some(JsonValue::String(str)) => Some(Output { str: str.clone() }),
            _ => None,
        }
    }

    proof fn lemma_round_trip(model: OutputModel) {
        lemma_find_first_of_name(Self::encoded(model)->Object_0, 0);
    }
}

/// Gives back the text that it was given. No key guards it.
pub struct EchoRequest;

impl EchoRequest {
    /// The method `echo`, served on POST and guarded by no key.
    pub fn new() -> (handler: RequestHandler)
        ensures
            handler.spec_path() == "echo"@,
            forall|method: Method| method != Method::Post ==> handler.slot(method) is None,
            handler.slot(Method::Post) matches Some(MethodHandler::Echo(adapter))
                && adapter.key() is None,
    {
        RequestHandler::new("echo").set_post(
            MethodHandler::Echo(JsonMethodHandlerAdapter::new(EchoRequest, None)),
        )
    }
}

impl JsonMethodHandler for EchoRequest {
    type Input = Input;

    type Output = Output;

    open spec fn key_of(input: InputModel) -> Option<Seq<char>> {
        None
    }

    open spec fn outcome(
        input: InputModel,
        switches: Map<Seq<char>, SwitchModel>,
        climate: ClimateModel,
    ) -> Result<ProgressModel<OutputModel>, ServerError> {
        if input.str == LOGIC_ERROR_TEST@ {
            Err(ServerError::Logic(LogicError::InvalidProtectedKey))
        } else {
            Ok(ProgressModel::Output(OutputModel { str: input.str }))
        }
    }

    open spec fn switches_after(
        input: InputModel,
        switches: Map<Seq<char>, SwitchModel>,
    ) -> Map<Seq<char>, SwitchModel> {
        switches
    }

    open spec fn climate_after(input: InputModel, climate: ClimateModel) -> ClimateModel {
        climate
    }

    fn read_key<'a>(&self, input: &'a Input) -> (key: Option<&'a str>) {
        None
    }

    fn process(
        &self,
        switches: &mut Switches,
        climate: &mut Climate,
        parts: &Parts,
        input: Input,
    ) -> (outcome: Result<Progress<Output>, ServerError>) {
        if same_text(input.str.as_str(), LOGIC_ERROR_TEST) {
            return Err(ServerError::Logic(LogicError::InvalidProtectedKey));
        }
        Ok(Progress::Output(Output { str: input.str }))
    }
}

} // verus!
