use vstd::prelude::*;
use crate::server::protected_json_request_handler::ProtectedInput;
use crate::server::envelope::Method;
use crate::server::json_request_handler::JsonMethodHandlerAdapter;
use crate::server::request_handler::{MethodHandler, RequestHandler};
use crate::json::{lemma_find_first_of_name, JsonModel, JsonValue, Payload};
use crate::server::json_request_handler::JsonMethodHandler;
use crate::server::envelope::{Parts, Progress, ProgressModel};
use crate::server::server_error::ServerError;
use crate::services::climate::{Climate, ClimateModel};
use crate::services::switches::{SwitchModel, Switches};

use crate::json::{decode_list, decoded_list, encode_list, encoded_list, lemma_list_round_trip, views};
use crate::services::climate::{Conditioner, Sensors, SensorsModel};

verus! {

/// What the endpoint takes.
#[derive(Debug)]
pub struct Input {
    pub key: String,
}

/// What an [`Input`] stands for in contracts.
pub struct InputModel {
    pub key: Seq<char>,
}

impl View for Input {
    type V = InputModel;

    open spec fn view(&self) -> InputModel {
        InputModel { key: self.key@ }
    }
}

impl ProtectedInput for Input {
    open spec fn protected_key(&self) -> Seq<char> {
        self.key@
    }

    fn get_protected_key(&self) -> (key: &str) {
        self.key.as_str()
    }
}

impl Payload for Input {
    open spec fn encoded(model: InputModel) -> JsonModel {
        JsonModel::record().put("key"@, JsonModel::String(model.key))
    }

    open spec fn decoded(json: JsonModel) -> Option<InputModel> {
        match json.text_member("key"@) {
            Some(key) => Some(InputModel { key }),
            None => None,
        }
    }

    fn to_json(&self) -> (json: JsonValue) {
        JsonValue::record().put("key", JsonValue::String(self.key.clone()))
    }

    fn from_json(json: &JsonValue) -> (value: Option<Input>) {
        match json.text_member("key") {
            Some(key) => Some(Input { key }),
            None => None,
        }
    }

    proof fn lemma_round_trip(model: InputModel) {
        lemma_find_first_of_name(Self::encoded(model)->Object_0, 0);
    }
}

/// What the endpoint gives.
#[derive(Debug)]
pub struct Output {
    pub conditioners: Vec<Conditioner>,
    pub sensors: Sensors,
}

/// What an [`Output`] stands for in contracts.
pub struct OutputModel {
    pub conditioners: Seq<Conditioner>,
    pub sensors: SensorsModel,
}

impl View for Output {
    type V = OutputModel;

    open spec fn view(&self) -> OutputModel {
        OutputModel { conditioners: views(self.conditioners@), sensors: self.sensors@ }
    }
}

impl Payload for Output {
    open spec fn encoded(model: OutputModel) -> JsonModel {
        JsonModel::record().put(
            "conditioners"@,
            encoded_list::<Conditioner>(model.conditioners),
        ).put("sensors"@, Sensors::encoded(model.sensors))
    }

    open spec fn decoded(json: JsonModel) -> Option<OutputModel> {
        match (json.member("conditioners"@), json.member("sensors"@)) {
            (Some(listed), Some(readings)) => match (
                decoded_list::<Conditioner>(listed),
                Sensors::decoded(readings),
            ) {
                (Some(conditioners), Some(sensors)) => Some(OutputModel { conditioners, sensors }),
                _ => None,
            },
            _ => None,
        }
    }

    fn to_json(&self) -> (json: JsonValue) {
        JsonValue::record().put("conditioners", encode_list(&self.conditioners)).put(
            "sensors",
            self.sensors.to_json(),
        )
    }

    fn from_json(json: &JsonValue) -> (value: Option<Output>) {
        let conditioners = match json.member("conditioners") {
            Some(listed) => decode_list::<Conditioner>(listed),
            None => None,
        };
        let sensors = match json.member("sensors") {
            Some(readings) => Sensors::from_json(readings),
            None => None,
        };
        match (conditioners, sensors) {
            (Some(conditioners), Some(sensors)) => Some(Output { conditioners, sensors }),
            _ => None,
        }
    }

    proof fn lemma_round_trip(model: OutputModel) {
        reveal_strlit("conditioners");
        reveal_strlit("sensors");
        let members = Self::encoded(model)->Object_0;
        assert(members[0].name.len() == 12 && members[1].name.len() == 7);
        lemma_find_first_of_name(members, 0);
        lemma_find_first_of_name(members, 1);
        lemma_list_round_trip::<Conditioner>(model.conditioners);
        Sensors::lemma_round_trip(model.sensors);
    }
}

/// Says how the conditioners stand and what the sensors read last.
pub struct GetClimateRequest;

impl GetClimateRequest {
    /// The method `get-climate`, served on POST and guarded by the key.
    pub fn new(key: &str) -> (handler: RequestHandler)
        ensures
            handler.spec_path() == "get-climate"@,
            forall|method: Method| method != Method::Post ==> handler.slot(method) is None,
            handler.slot(Method::Post) matches Some(MethodHandler::GetClimate(adapter))
                && adapter.key() == Some(key@),
    {
        RequestHandler::new("get-climate").set_post(
            MethodHandler::GetClimate(JsonMethodHandlerAdapter::new(GetClimateRequest, Some(key.to_owned()))),
        )
    }
}

impl JsonMethodHandler for GetClimateRequest {
    type Input = Input;

    type Output = Output;

    open spec fn key_of(input: InputModel) -> Option<Seq<char>> {
        Some(input.key)
    }

    open spec fn outcome(
        input: InputModel,
        switches: Map<Seq<char>, SwitchModel>,
        climate: ClimateModel,
    ) -> Result<ProgressModel<OutputModel>, ServerError> {
        Ok(
            ProgressModel::Output(
                OutputModel { conditioners: climate.conditioners, sensors: climate.sensors },
            ),
        )
    }

    open spec fn switches_after(
        input: InputModel,
        switches: Map<Seq<char>, SwitchModel>,
    ) -> Map<Seq<char>, SwitchModel> {
        switches
    }

    open spec fn climate_after(input: InputModel, climate: ClimateModel) -> ClimateModel {
        climate
    }

    fn read_key<'a>(&self, input: &'a Input) -> (key: Option<&'a str>) {
        Some(input.get_protected_key())
    }

    fn process(
        &self,
        switches: &mut Switches,
        climate: &mut Climate,
        parts: &Parts,
        input: Input,
    ) -> (outcome: Result<Progress<Output>, ServerError>) {
        let conditioners = climate.conditioners();
        let sensors = climate.sensors();
        let output = Output { conditioners, sensors };
        assert(output@.conditioners =~= climate@.conditioners);
        Ok(Progress::Output(output))
    }
}

} // verus!
