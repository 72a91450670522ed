use vstd::prelude::*;
use crate::server::protected_json_request_handler::ProtectedInput;
use crate::server::envelope::Method;
use crate::server::json_request_handler::JsonMethodHandlerAdapter;
use crate::server::request_handler::{MethodHandler, RequestHandler};
use crate::json::{lemma_find_first_of_name, JsonModel, JsonValue, Payload};
use crate::server::json_request_handler::JsonMethodHandler;
use crate::server::envelope::{Parts, Progress, ProgressModel};
use crate::server::server_error::ServerError;
use crate::services::climate::{Climate, ClimateModel};
use crate::services::switches::{SwitchModel, Switches};

use crate::json::{
    decode_list, decoded_list, encode_list, encoded_list, lemma_list_round_trip, views, JsonNumber,
    NumberModel,
};
use crate::services::climate::{Conditioner, Sensors, SensorsModel, WeatherSensor, WeatherSensorModel};

verus! {

/// The readings of the house's sensors, with the key.
#[derive(Debug)]
pub struct Input {
    pub key: String,
    pub sensors: Vec<WeatherSensor>,
    pub sensor_temp: JsonNumber,
    pub bedroom_temp: JsonNumber,
    pub living_temp: JsonNumber,
}

/// What an [`Input`] stands for in contracts.
pub struct InputModel {
    pub key: Seq<char>,
    pub sensors: Seq<WeatherSensorModel>,
    pub sensor_temp: NumberModel,
    pub bedroom_temp: NumberModel,
    pub living_temp: NumberModel,
}

impl View for Input {
    type V = InputModel;

    open spec fn view(&self) -> InputModel {
        InputModel {
            key: self.key@,
            sensors: views(self.sensors@),
            sensor_temp: self.sensor_temp@,
            bedroom_temp: self.bedroom_temp@,
            living_temp: self.living_temp@,
        }
    }
}

impl InputModel {
    /// The readings that the input carries.
    pub open spec fn readings(self) -> SensorsModel {
        SensorsModel {
            weather_sensors: self.sensors,
            sensor_temp: self.sensor_temp,
            bedroom_temp: self.bedroom_temp,
            living_temp: self.living_temp,
        }
    }
}

impl ProtectedInput for Input {
    open spec fn protected_key(&self) -> Seq<char> {
        self.key@
    }

    fn get_protected_key(&self) -> (key: &str) {
        self.key.as_str()
    }
}

impl Payload for Input {
    open spec fn encoded(model: InputModel) -> JsonModel {
        JsonModel::record().put("key"@, JsonModel::String(model.key)).put(
            "sensors"@,
            encoded_list::<WeatherSensor>(model.sensors),
        ).put("sensor_temp"@, JsonModel::Number(model.sensor_temp)).put(
            "bedroom_temp"@,
            JsonModel::Number(model.bedroom_temp),
        ).put("living_temp"@, JsonModel::Number(model.living_temp))
    }

    open spec fn decoded(json: JsonModel) -> Option<InputModel> {
        match (
            json.text_member("key"@),
            json.member("sensors"@),
            json.number_member("sensor_temp"@),
            json.number_member("bedroom_temp"@),
            json.number_member("living_temp"@),
        ) {
            (Some(key), Some(listed), Some(sensor_temp), Some(bedroom_temp), Some(living_temp)) => match decoded_list::<
                WeatherSensor,
            >(listed) {
                Some(sensors) => Some(
                    InputModel { key, sensors, sensor_temp, bedroom_temp, living_temp },
                ),
                None => None,
            },
            _ => None,
        }
    }

    fn to_json(&self) -> (json: JsonValue) {
        JsonValue::record().put("key", JsonValue::String(self.key.clone())).put(
            "sensors",
            encode_list(&self.sensors),
        ).put("sensor_temp", JsonValue::Number(self.sensor_temp.clone())).put(
            "bedroom_temp",
            JsonValue::Number(self.bedroom_temp.clone()),
        ).put("living_temp", JsonValue::Number(self.living_temp.clone()))
    }

    fn from_json(json: &JsonValue) -> (value: Option<Input>) {
        let sensors = match json.member("sensors") {
            Some(listed) => decode_list::<WeatherSensor>(listed),
            None => None,
        };
        match (
            json.text_member("key"),
            sensors,
            json.number_member("sensor_temp"),
            json.number_member("bedroom_temp"),
            json.number_member("living_temp"),
        ) {
            (Some(key), Some(sensors), Some(sensor_temp), Some(bedroom_temp), Some(living_temp)) => Some(
                Input { key, sensors, sensor_temp, bedroom_temp, living_temp },
            ),
            _ => None,
        }
    }

    proof fn lemma_round_trip(model: InputModel) {
        reveal_strlit("key");
        reveal_strlit("sensors");
        reveal_strlit("sensor_temp");
        reveal_strlit("bedroom_temp");
        reveal_strlit("living_temp");
        let members = Self::encoded(model)->Object_0;
        assert(members[0].name.len() == 3 && members[1].name.len() == 7 && members[2].name.len()
            == 11 && members[3].name.len() == 12);
        assert(members[2].name[0] == 's' && members[4].name[0] == 'l');
        lemma_find_first_of_name(members, 0);
        lemma_find_first_of_name(members, 1);
        lemma_find_first_of_name(members, 2);
        lemma_find_first_of_name(members, 3);
        lemma_find_first_of_name(members, 4);
        lemma_list_round_trip::<WeatherSensor>(model.sensors);
    }
}

/// What the endpoint gives.
#[derive(Debug)]
pub struct Output {
    pub conditioners: Vec<Conditioner>,
}

/// What an [`Output`] stands for in contracts.
pub struct OutputModel {
    pub conditioners: Seq<Conditioner>,
}

impl View for Output {
    type V = OutputModel;

    open spec fn view(&self) -> OutputModel {
        OutputModel { conditioners: views(self.conditioners@) }
    }
}

impl Payload for Output {
    open spec fn encoded(model: OutputModel) -> JsonModel {
        JsonModel::record().put("conditioners"@, encoded_list::<Conditioner>(model.conditioners))
    }

    open spec fn decoded(json: JsonModel) -> Option<OutputModel> {
        match json.member("conditioners"@) {
            Some(listed) => match decoded_list::<Conditioner>(listed) {
                Some(conditioners) => Some(OutputModel { conditioners }),
                None => None,
            },
            None => None,
        }
    }

    fn to_json(&self) -> (json: JsonValue) {
        JsonValue::record().put("conditioners", encode_list(&self.conditioners))
    }

    fn from_json(json: &JsonValue) -> (value: Option<Output>) {
        match json.member("conditioners") {
            Some(listed) => match decode_list::<Conditioner>(listed) {
                Some(conditioners) => Some(Output { conditioners }),
                None => None,
            },
            None => None,
        }
    }

    proof fn lemma_round_trip(model: OutputModel) {
        lemma_find_first_of_name(Self::encoded(model)->Object_0, 0);
        lemma_list_round_trip::<Conditioner>(model.conditioners);
    }
}

/// Takes the readings of the sensors and says how the conditioners are to
/// stand.
pub struct ConditionersRequest;

impl ConditionersRequest {
    /// The method `conditioners`, served on POST and guarded by the key.
    pub fn new(key: &str) -> (handler: RequestHandler)
        ensures
            handler.spec_path() == "conditioners"@,
            forall|method: Method| method != Method::Post ==> handler.slot(method) is None,
            handler.slot(Method::Post) matches Some(MethodHandler::Conditioners(adapter))
                && adapter.key() == Some(key@),
    {
        RequestHandler::new("conditioners").set_post(
            MethodHandler::Conditioners(JsonMethodHandlerAdapter::new(ConditionersRequest, Some(key.to_owned()))),
        )
    }
}

impl JsonMethodHandler for ConditionersRequest {
    type Input = Input;

    type Output = Output;

    open spec fn key_of(input: InputModel) -> Option<Seq<char>> {
        Some(input.key)
    }

    open spec fn outcome(
        input: InputModel,
        switches: Map<Seq<char>, SwitchModel>,
        climate: ClimateModel,
    ) -> Result<ProgressModel<OutputModel>, ServerError> {
        Ok(ProgressModel::Output(OutputModel { conditioners: climate.conditioners }))
    }

    open spec fn switches_after(
        input: InputModel,
        switches: Map<Seq<char>, SwitchModel>,
    ) -> Map<Seq<char>, SwitchModel> {
        switches
    }

    open spec fn climate_after(input: InputModel, climate: ClimateModel) -> ClimateModel {
        ClimateModel { sensors: input.readings(), ..climate }
    }

    fn read_key<'a>(&self, input: &'a Input) -> (key: Option<&'a str>) {
        Some(input.get_protected_key())
    }

    fn process(
        &self,
        switches: &mut Switches,
        climate: &mut Climate,
        parts: &Parts,
        input: Input,
    ) -> (outcome: Result<Progress<Output>, ServerError>) {
        let sensors = Sensors::new(
            input.sensors,
            input.sensor_temp,
            input.bedroom_temp,
            input.living_temp,
        );
        let conditioners = climate.calculate(sensors);
        let output = Output { conditioners };
        assert(output@.conditioners =~= old(climate)@.conditioners);
        Ok(Progress::Output(output))
    }
}

} // verus!
