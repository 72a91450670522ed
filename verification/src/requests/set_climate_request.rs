use vstd::prelude::*;
use crate::server::protected_json_request_handler::ProtectedInput;
use crate::server::envelope::Method;
use crate::server::json_request_handler::JsonMethodHandlerAdapter;
use crate::server::request_handler::{MethodHandler, RequestHandler};
use crate::json::{lemma_find_first_of_name, JsonModel, JsonValue, Payload};
use crate::server::json_request_handler::JsonMethodHandler;
use crate::server::envelope::{Parts, Progress, ProgressModel};
use crate::server::server_error::ServerError;
use crate::services::climate::{Climate, ClimateModel};
use crate::services::switches::{SwitchModel, Switches};

use crate::json::{decode_list, decoded_list, encode_list, encoded_list, lemma_list_round_trip, views};
use crate::services::climate::{conditioners_after_set, Conditioner};

verus! {

/// What the endpoint takes.
#[derive(Debug)]
pub struct Input {
    pub key: String,
    pub conditioners: Vec<Conditioner>,
}

/// What an [`Input`] stands for in contracts.
pub struct InputModel {
    pub key: Seq<char>,
    pub conditioners: Seq<Conditioner>,
}

impl View for Input {
    type V = InputModel;

    open spec fn view(&self) -> InputModel {
        InputModel { key: self.key@, conditioners: views(self.conditioners@) }
    }
}

impl ProtectedInput for Input {
    open spec fn protected_key(&self) -> Seq<char> {
        self.key@
    }

    fn get_protected_key(&self) -> (key: &str) {
        self.key.as_str()
    }
}

impl Payload for Input {
    open spec fn encoded(model: InputModel) -> JsonModel {
        JsonModel::record().put("key"@, JsonModel::String(model.key)).put(
            "conditioners"@,
            encoded_list::<Conditioner>(model.conditioners),
        )
    }

    open spec fn decoded(json: JsonModel) -> Option<InputModel> {
        match (json.text_member("key"@), json.member("conditioners"@)) {
            (Some(key), Some(listed)) => match decoded_list::<Conditioner>(listed) {
                Some(conditioners) => Some(InputModel { key, conditioners }),
                None => None,
            },
            _ => None,
        }
    }

    fn to_json(&self) -> (json: JsonValue) {
        JsonValue::record().put("key", JsonValue::String(self.key.clone())).put(
            "conditioners",
            encode_list(&self.conditioners),
        )
    }

    fn from_json(json: &JsonValue) -> (value: Option<Input>) {
        let conditioners = match json.member("conditioners") {
            Some(listed) => decode_list::<Conditioner>(listed),
            None => None,
        };
        match (json.text_member("key"), conditioners) {
            (Some(key), Some(conditioners)) => Some(Input { key, conditioners }),
            _ => None,
        }
    }

    proof fn lemma_round_trip(model: InputModel) {
        reveal_strlit("key");
        reveal_strlit("conditioners");
        let members = Self::encoded(model)->Object_0;
        assert(members[0].name.len() == 3 && members[1].name.len() == 12);
        lemma_find_first_of_name(members, 0);
        lemma_find_first_of_name(members, 1);
        lemma_list_round_trip::<Conditioner>(model.conditioners);
    }
}

/// What the endpoint gives.
#[derive(Debug)]
pub struct Output {
    pub result: String,
}

/// What an [`Output`] stands for in contracts.
pub struct OutputModel {
    pub result: Seq<char>,
}

impl View for Output {
    type V = OutputModel;

    open spec fn view(&self) -> OutputModel {
        OutputModel { result: self.result@ }
    }
}

impl Payload for Output {
    open spec fn encoded(model: OutputModel) -> JsonModel {
        JsonModel::record().put("result"@, JsonModel::String(model.result))
    }

    open spec fn decoded(json: JsonModel) -> Option<OutputModel> {
        match json.text_member("result"@) {
            Some(result) => Some(OutputModel { result }),
            None => None,
        }
    }

    fn to_json(&self) -> (json: JsonValue) {
        JsonValue::record().put("result", JsonValue::String(self.result.clone()))
    }

    fn from_json(json: &JsonValue) -> (value: Option<Output>) {
        match json.text_member("result") {
            Some(result) => Some(Output { result }),
            None => None,
        }
    }

    proof fn lemma_round_trip(model: OutputModel) {
        lemma_find_first_of_name(Self::encoded(model)->Object_0, 0);
    }
}

/// Gives each conditioner the state given for its place.
pub struct SetClimateRequest;

impl SetClimateRequest {
    /// The method `set-climate`, served on POST and guarded by the key.
    pub fn new(key: &str) -> (handler: RequestHandler)
        ensures
            handler.spec_path() == "set-climate"@,
            forall|method: Method| method != Method::Post ==> handler.slot(method) is None,
            handler.slot(Method::Post) matches Some(MethodHandler::SetClimate(adapter))
                && adapter.key() == Some(key@),
    {
        RequestHandler::new("set-climate").set_post(
            MethodHandler::SetClimate(JsonMethodHandlerAdapter::new(SetClimateRequest, Some(key.to_owned()))),
        )
    }
}

impl JsonMethodHandler for SetClimateRequest {
    type Input = Input;

    type Output = Output;

    open spec fn key_of(input: InputModel) -> Option<Seq<char>> {
        Some(input.key)
    }

    open spec fn outcome(
        input: InputModel,
        switches: Map<Seq<char>, SwitchModel>,
        climate: ClimateModel,
    ) -> Result<ProgressModel<OutputModel>, ServerError> {
        Ok(ProgressModel::Output(OutputModel { result: "Success"@ }))
    }

    open spec fn switches_after(
        input: InputModel,
        switches: Map<Seq<char>, SwitchModel>,
    ) -> Map<Seq<char>, SwitchModel> {
        switches
    }

    open spec fn climate_after(input: InputModel, climate: ClimateModel) -> ClimateModel {
        ClimateModel {
            conditioners: conditioners_after_set(climate.conditioners, input.conditioners),
            ..climate
        }
    }

    fn read_key<'a>(&self, input: &'a Input) -> (key: Option<&'a str>) {
        Some(input.get_protected_key())
    }

    fn process(
        &self,
        switches: &mut Switches,
        climate: &mut Climate,
        parts: &Parts,
        input: Input,
    ) -> (outcome: Result<Progress<Output>, ServerError>) {
        assert(views(input.conditioners@) =~= input.conditioners@);
        climate.set(input.conditioners.as_slice());
        Ok(Progress::Output(Output { result: "Success".to_owned() }))
    }
}

} // verus!
