use vstd::prelude::*;
use crate::json::{
    decode_list, decoded_list, encode_list, encoded_list, lemma_find_first_of_name,
    lemma_list_round_trip, views,
    JsonModel, JsonNumber, JsonValue, NumberModel, Payload,
};

verus! {

/// How an air conditioner works.
#[derive(Clone, Copy, Debug, PartialEq, Eq, Structural)]
pub enum ConditionerMode {
    Auto,
    Cool,
    Dry,
    Fan,
    Heat,
}

impl ConditionerMode {
    /// The number that stands for this mode on the wire.
    pub open spec fn spec_code(self) -> i32 {
        match self {
            ConditionerMode::Auto => 0,
            ConditionerMode::Cool => 1,
            ConditionerMode::Dry => 2,
            ConditionerMode::Fan => 3,
            ConditionerMode::Heat => 4,
        }
    }

    /// The mode that a number stands for, where it stands for one.
    pub open spec fn spec_from_code(code: int) -> Option<ConditionerMode> {
        if code == 0 {
            Some(ConditionerMode::Auto)
        } else if code == 1 {
            Some(ConditionerMode::Cool)
        } else if code == 2 {
            Some(ConditionerMode::Dry)
        } else if code == 3 {
            Some(ConditionerMode::Fan)
        } else if code == 4 {
            Some(ConditionerMode::Heat)
        } else {
            None
        }
    }

    #[verifier::when_used_as_spec(spec_code)]
    pub fn code(self) -> (code: i32)
        ensures
            code == self.spec_code(),
    {
        match self {
            ConditionerMode::Auto => 0,
            ConditionerMode::Cool => 1,
            ConditionerMode::Dry => 2,
            ConditionerMode::Fan => 3,
            ConditionerMode::Heat => 4,
        }
    }

    pub fn from_code(code: i32) -> (mode: Option<ConditionerMode>)
        ensures
            mode == Self::spec_from_code(code as int),
    {
        if code == 0 {
            Some(ConditionerMode::Auto)
        } else if code == 1 {
            Some(ConditionerMode::Cool)
        } else if code == 2 {
            Some(ConditionerMode::Dry)
        } else if code == 3 {
            Some(ConditionerMode::Fan)
        } else if code == 4 {
            Some(ConditionerMode::Heat)
        } else {
            None
        }
    }
}

/// The state of one air conditioner.
#[derive(Clone, Copy, Debug, PartialEq, Eq, Structural)]
pub struct Conditioner {
    pub enabled: bool,
    pub temperature: i32,
    pub mode: ConditionerMode,
}

impl View for Conditioner {
    type V = Conditioner;

    open spec fn view(&self) -> Conditioner {
        *self
    }
}

impl Payload for Conditioner {
    open spec fn encoded(model: Conditioner) -> JsonModel {
        JsonModel::record().put("enabled"@, JsonModel::Bool(model.enabled)).put(
            "temperature"@,
            JsonModel::whole(model.temperature as int),
        ).put("mode"@, JsonModel::whole(model.mode.spec_code() as int))
    }

    open spec fn decoded(json: JsonModel) -> Option<Conditioner> {
        match (json.member("enabled"@), json.member("temperature"@), json.member("mode"@)) {
            (Some(enabled), Some(temperature), Some(mode)) => match (
                enabled.boolean(),
                temperature.whole_within(i32::MIN as int, i32::MAX as int),
                mode.whole_within(i32::MIN as int, i32::MAX as int),
            ) {
                (Some(enabled), Some(temperature), Some(code)) => match ConditionerMode::spec_from_code(
                    code,
                ) {
                    Some(mode) => Some(
                        Conditioner { enabled, temperature: temperature as i32, mode },
                    ),
                    None => None,
                },
                _ => None,
            },
            _ => None,
        }
    }

    fn to_json(&self) -> (json: JsonValue) {
        JsonValue::record().put("enabled", JsonValue::Bool(self.enabled)).put(
            "temperature",
            JsonValue::integer(self.temperature as i64),
        ).put("mode", JsonValue::integer(self.mode.code() as i64))
    }

    fn from_json(json: &JsonValue) -> (value: Option<Conditioner>) {
        let enabled = match json.member("enabled") {
            Some(v) => v.boolean(),
            None => None,
        };
        let temperature = match json.member("temperature") {
            Some(v) => v.whole_i32(),
            None => None,
        };
        let code = match json.member("mode") {
            Some(v) => v.whole_i32(),
            None => None,
        };
        match (enabled, temperature, code) {
            (Some(enabled), Some(temperature), Some(code)) => match ConditionerMode::from_code(code) {
                Some(mode) => Some(Conditioner { enabled, temperature, mode }),
                None => None,
            },
            _ => None,
        }
    }

    proof fn lemma_round_trip(model: Conditioner) {
        reveal_strlit("enabled");
        reveal_strlit("temperature");
        reveal_strlit("mode");
        let members = Self::encoded(model)->Object_0;
        assert(members[0].name.len() == 7 && members[1].name.len() == 11 && members[2].name.len()
            == 4);
        lemma_find_first_of_name(members, 0);
        lemma_find_first_of_name(members, 1);
        lemma_find_first_of_name(members, 2);
    }
}

/// One reading of an outdoor sensor. The temperature is held as the number
/// that was given.
#[derive(Debug)]
pub struct WeatherSensor {
    pub channel: i32,
    pub temperature: JsonNumber,
    pub humidity: i32,
    pub low_battery: bool,
}

/// What a [`WeatherSensor`] stands for in contracts.
pub struct WeatherSensorModel {
    pub channel: i32,
    pub temperature: NumberModel,
    pub humidity: i32,
    pub low_battery: bool,
}

impl View for WeatherSensor {
    type V = WeatherSensorModel;

    open spec fn view(&self) -> WeatherSensorModel {
        WeatherSensorModel {
            channel: self.channel,
            temperature: self.temperature@,
            humidity: self.humidity,
            low_battery: self.low_battery,
        }
    }
}

impl Clone for WeatherSensor {
    fn clone(&self) -> (copy: WeatherSensor)
        ensures
            copy@ == self@,
    {
        WeatherSensor {
            channel: self.channel,
            temperature: self.temperature.clone(),
            humidity: self.humidity,
            low_battery: self.low_battery,
        }
    }
}

impl Payload for WeatherSensor {
    open spec fn encoded(model: WeatherSensorModel) -> JsonModel {
        JsonModel::record().put("channel"@, JsonModel::whole(model.channel as int)).put(
            "temperature"@,
            JsonModel::Number(model.temperature),
        ).put("humidity"@, JsonModel::whole(model.humidity as int)).put(
            "low_battery"@,
            JsonModel::Bool(model.low_battery),
        )
    }

    open spec fn decoded(json: JsonModel) -> Option<WeatherSensorModel> {
        match (
            json.member("channel"@),
            json.member("temperature"@),
            json.member("humidity"@),
            json.member("low_battery"@),
        ) {
            (Some(channel), Some(temperature), Some(humidity), Some(low_battery)) => match (
                channel.whole_within(i32::MIN as int, i32::MAX as int),
                temperature.number(),
                humidity.whole_within(i32::MIN as int, i32::MAX as int),
                low_battery.boolean(),
            ) {
                (Some(channel), Some(temperature), Some(humidity), Some(low_battery)) => Some(
                    WeatherSensorModel {
                        channel: channel as i32,
                        temperature,
                        humidity: humidity as i32,
                        low_battery,
                    },
                ),
                _ => None,
            },
            _ => None,
        }
    }

    fn to_json(&self) -> (json: JsonValue) {
        JsonValue::record().put("channel", JsonValue::integer(self.channel as i64)).put(
            "temperature",
            JsonValue::Number(self.temperature.clone()),
        ).put("humidity", JsonValue::integer(self.humidity as i64)).put(
            "low_battery",
            JsonValue::Bool(self.low_battery),
        )
    }

    fn from_json(json: &JsonValue) -> (value: Option<WeatherSensor>) {
        let channel = match json.member("channel") {
            Some(v) => v.whole_i32(),
            None => None,
        };
        let temperature = match json.member("temperature") {
            Some(v) => v.number(),
            None => None,
        };
        let humidity = match json.member("humidity") {
            Some(v) => v.whole_i32(),
            None => None,
        };
        let low_battery = match json.member("low_battery") {
            Some(v) => v.boolean(),
            None => None,
        };
        match (channel, temperature, humidity, low_battery) {
            (Some(channel), Some(temperature), Some(humidity), Some(low_battery)) => Some(
                WeatherSensor { channel, temperature: temperature.clone(), humidity, low_battery },
            ),
            _ => None,
        }
    }

    proof fn lemma_round_trip(model: WeatherSensorModel) {
        reveal_strlit("channel");
        reveal_strlit("temperature");
        reveal_strlit("humidity");
        reveal_strlit("low_battery");
        let members = Self::encoded(model)->Object_0;
        assert(members[0].name.len() == 7 && members[1].name.len() == 11 && members[2].name.len()
            == 8);
        assert(members[1].name[0] == 't' && members[3].name[0] == 'l');
        lemma_find_first_of_name(members, 0);
        lemma_find_first_of_name(members, 1);
        lemma_find_first_of_name(members, 2);
        lemma_find_first_of_name(members, 3);
    }
}

/// What the sensors of the house read last. Temperatures are held as the
/// numbers that were given.
#[derive(Debug)]
pub struct Sensors {
    pub weather_sensors: Vec<WeatherSensor>,
    pub sensor_temp: JsonNumber,
    pub bedroom_temp: JsonNumber,
    pub living_temp: JsonNumber,
}

/// What a [`Sensors`] stands for in contracts.
pub struct SensorsModel {
    pub weather_sensors: Seq<WeatherSensorModel>,
    pub sensor_temp: NumberModel,
    pub bedroom_temp: NumberModel,
    pub living_temp: NumberModel,
}

impl View for Sensors {
    type V = SensorsModel;

    open spec fn view(&self) -> SensorsModel {
        SensorsModel {
            weather_sensors: views(self.weather_sensors@),
            sensor_temp: self.sensor_temp@,
            bedroom_temp: self.bedroom_temp@,
            living_temp: self.living_temp@,
        }
    }
}

impl Sensors {
    /// No outdoor reading, and zero for each temperature.
    pub open spec fn spec_empty() -> SensorsModel {
        SensorsModel {
            weather_sensors: Seq::empty(),
            sensor_temp: NumberModel::Real("0.0"@),
            bedroom_temp: NumberModel::Real("0.0"@),
            living_temp: NumberModel::Real("0.0"@),
        }
    }

    pub fn empty() -> (sensors: Sensors)
        ensures
            sensors@ == Self::spec_empty(),
    {
        let sensors = Sensors {
            weather_sensors: Vec::new(),
            sensor_temp: JsonNumber::Real("0.0".to_owned()),
            bedroom_temp: JsonNumber::Real("0.0".to_owned()),
            living_temp: JsonNumber::Real("0.0".to_owned()),
        };
        assert(sensors@.weather_sensors =~= Seq::empty());
        sensors
    }

    pub fn new(
        weather_sensors: Vec<WeatherSensor>,
        sensor_temp: JsonNumber,
        bedroom_temp: JsonNumber,
        living_temp: JsonNumber,
    ) -> (sensors: Sensors)
        ensures
            sensors@ == (SensorsModel {
                weather_sensors: views(weather_sensors@),
                sensor_temp: sensor_temp@,
                bedroom_temp: bedroom_temp@,
                living_temp: living_temp@,
            }),
    {
        Sensors { weather_sensors, sensor_temp, bedroom_temp, living_temp }
    }
}

impl Clone for Sensors {
    fn clone(&self) -> (copy: Sensors)
        ensures
            copy@ == self@,
    {
        let mut weather_sensors: Vec<WeatherSensor> = Vec::new();
        let mut i: usize = 0;
        while i < self.weather_sensors.len()
            invariant
                i <= self.weather_sensors.len(),
                weather_sensors.len() == i,
                forall|j: int|
                    0 <= j < i ==> (#[trigger] weather_sensors@[j])@ == self.weather_sensors@[j]@,
            decreases self.weather_sensors.len() - i,
        {
            weather_sensors.push(self.weather_sensors[i].clone());
            i += 1;
        }
        let copy = Sensors {
            weather_sensors,
            sensor_temp: self.sensor_temp.clone(),
            bedroom_temp: self.bedroom_temp.clone(),
            living_temp: self.living_temp.clone(),
        };
        assert(copy@.weather_sensors =~= self@.weather_sensors);
        copy
    }
}

impl Payload for Sensors {
    open spec fn encoded(model: SensorsModel) -> JsonModel {
        JsonModel::record().put(
            "weather_sensors"@,
            encoded_list::<WeatherSensor>(model.weather_sensors),
        ).put("sensor_temp"@, JsonModel::Number(model.sensor_temp)).put(
            "bedroom_temp"@,
            JsonModel::Number(model.bedroom_temp),
        ).put("living_temp"@, JsonModel::Number(model.living_temp))
    }

    open spec fn decoded(json: JsonModel) -> Option<SensorsModel> {
        match (
            json.member("weather_sensors"@),
            json.member("sensor_temp"@),
            json.member("bedroom_temp"@),
            json.member("living_temp"@),
        ) {
            (Some(weather_sensors), Some(sensor_temp), Some(bedroom_temp), Some(living_temp)) => match (
                decoded_list::<WeatherSensor>(weather_sensors),
                sensor_temp.number(),
                bedroom_temp.number(),
                living_temp.number(),
            ) {
                (Some(weather_sensors), Some(sensor_temp), Some(bedroom_temp), Some(living_temp)) => Some(
                    SensorsModel { weather_sensors, sensor_temp, bedroom_temp, living_temp },
                ),
                _ => None,
            },
            _ => None,
        }
    }

    fn to_json(&self) -> (json: JsonValue) {
        JsonValue::record().put("weather_sensors", encode_list(&self.weather_sensors)).put(
            "sensor_temp",
            JsonValue::Number(self.sensor_temp.clone()),
        ).put("bedroom_temp", JsonValue::Number(self.bedroom_temp.clone())).put(
            "living_temp",
            JsonValue::Number(self.living_temp.clone()),
        )
    }

    fn from_json(json: &JsonValue) -> (value: Option<Sensors>) {
        let weather_sensors = match json.member("weather_sensors") {
            Some(v) => decode_list::<WeatherSensor>(v),
            None => None,
        };
        let sensor_temp = match json.member("sensor_temp") {
            Some(v) => v.number(),
            None => None,
        };
        let bedroom_temp = match json.member("bedroom_temp") {
            Some(v) => v.number(),
            None => None,
        };
        let living_temp = match json.member("living_temp") {
            Some(v) => v.number(),
            None => None,
        };
        match (weather_sensors, sensor_temp, bedroom_temp, living_temp) {
            (Some(weather_sensors), Some(sensor_temp), Some(bedroom_temp), Some(living_temp)) => Some(
                Sensors {
                    weather_sensors,
                    sensor_temp: sensor_temp.clone(),
                    bedroom_temp: bedroom_temp.clone(),
                    living_temp: living_temp.clone(),
                },
            ),
            _ => None,
        }
    }

    proof fn lemma_round_trip(model: SensorsModel) {
        reveal_strlit("weather_sensors");
        reveal_strlit("sensor_temp");
        reveal_strlit("bedroom_temp");
        reveal_strlit("living_temp");
        let members = Self::encoded(model)->Object_0;
        assert(members[0].name.len() == 15 && members[1].name.len() == 11 && members[2].name.len()
            == 12);
        assert(members[1].name[0] == 's' && members[3].name[0] == 'l');
        lemma_find_first_of_name(members, 0);
        lemma_find_first_of_name(members, 1);
        lemma_find_first_of_name(members, 2);
        lemma_find_first_of_name(members, 3);
        lemma_list_round_trip::<WeatherSensor>(model.weather_sensors);
    }
}

/// The climate of the house as the service holds it.
pub struct ClimateModel {
    pub conditioners: Seq<Conditioner>,
    pub sensors: SensorsModel,
}

/// The air conditioners, a fixed number of them, and the last readings.
pub struct Climate {
    conditioners: Vec<Conditioner>,
    sensors: Sensors,
}

impl View for Climate {
    type V = ClimateModel;

    closed spec fn view(&self) -> ClimateModel {
        ClimateModel { conditioners: self.conditioners@, sensors: self.sensors@ }
    }
}

/// The states of the conditioners after new ones were given: each slot takes
/// the state given for its place; a slot for which none was given stays, and
/// a state for which there is no slot is dropped.
pub open spec fn conditioners_after_set(held: Seq<Conditioner>, given: Seq<Conditioner>) -> Seq<
    Conditioner,
> {
    Seq::new(
        held.len(),
        |i: int|
            if i < given.len() {
                given[i]
            } else {
                held[i]
            },
    )
}

impl Climate {
    /// A conditioner as it is at the start: off, cooling, at 20 degrees.
    pub open spec fn spec_new_conditioner() -> Conditioner {
        Conditioner { enabled: false, temperature: 20, mode: ConditionerMode::Cool }
    }

    pub fn new() -> (climate: Climate)
        ensures
            climate@.conditioners == seq![Self::spec_new_conditioner(), Self::spec_new_conditioner()],
            climate@.sensors == Sensors::spec_empty(),
    {
        let mut conditioners: Vec<Conditioner> = Vec::new();
        conditioners.push(Self::new_conditioner());
        conditioners.push(Self::new_conditioner());
        assert(conditioners@ =~= seq![Self::spec_new_conditioner(), Self::spec_new_conditioner()]);
        Climate { conditioners, sensors: Sensors::empty() }
    }

    fn new_conditioner() -> (conditioner: Conditioner)
        ensures
            conditioner == Self::spec_new_conditioner(),
    {
        Conditioner { enabled: false, temperature: 20, mode: ConditionerMode::Cool }
    }

    /// Gives each conditioner the state given for its place.
    pub fn set(&mut self, conditioners: &[Conditioner])
        ensures
            final(self)@.conditioners == conditioners_after_set(
                old(self)@.conditioners,
                conditioners@,
            ),
            final(self)@.sensors == old(self)@.sensors,
    {
        let mut i: usize = 0;
        while i < conditioners.len() && i < self.conditioners.len()
            invariant
                i <= conditioners.len(),
                i <= self.conditioners.len(),
                self.conditioners.len() == old(self).conditioners.len(),
                self.sensors == old(self).sensors,
                forall|j: int| 0 <= j < i && j < self.conditioners.len() ==> self.conditioners@[j]
                    == conditioners@[j],
                forall|j: int|
                    i <= j < self.conditioners.len() ==> self.conditioners@[j] == old(
                        self,
                    ).conditioners@[j],
            decreases conditioners.len() - i,
        {
            self.conditioners.set(i, conditioners[i]);
            i += 1;
        }
        assert(self.conditioners@ =~= conditioners_after_set(
            old(self).conditioners@,
            conditioners@,
        ));
    }

    pub fn conditioners(&self) -> (conditioners: Vec<Conditioner>)
        ensures
            conditioners@ == self@.conditioners,
    {
        let mut conditioners: Vec<Conditioner> = Vec::new();
        let mut i: usize = 0;
        while i < self.conditioners.len()
            invariant
                i <= self.conditioners.len(),
                conditioners@ == self.conditioners@.take(i as int),
            decreases self.conditioners.len() - i,
        {
            conditioners.push(self.conditioners[i]);
            assert(conditioners@ =~= self.conditioners@.take(i + 1));
            i += 1;
        }
        assert(conditioners@ =~= self.conditioners@);
        conditioners
    }

    pub fn sensors(&self) -> (sensors: Sensors)
        ensures
            sensors@ == self@.sensors,
    {
        self.sensors.clone()
    }

    /// Takes new readings and says how the conditioners are to stand: as
    /// they stand now.
    pub fn calculate(&mut self, sensors: Sensors) -> (conditioners: Vec<Conditioner>)
        ensures
            final(self)@.sensors == sensors@,
            final(self)@.conditioners == old(self)@.conditioners,
            conditioners@ == old(self)@.conditioners,
    {
        self.sensors = sensors;
        self.conditioners()
    }
}

} // verus!
