use vstd::prelude::*;
use crate::server::envelope::Method;
use crate::server::json_request_handler::JsonMethodHandlerAdapter;
use crate::server::request_handler::{MethodHandler, RequestHandler};
use crate::json::{lemma_find_first_of_name, JsonModel, JsonValue, Payload};
use crate::server::json_request_handler::JsonMethodHandler;
use crate::server::envelope::{Parts, Progress, ProgressModel};
use crate::server::server_error::ServerError;
use crate::services::climate::{Climate, ClimateModel};
use crate::services::switches::{SwitchModel, Switches};

use crate::services::switches::{after_query, enabled_in, text_of};

verus! {

/// The name of a switch, with the key and the address at which the asker
/// listens, each of which may be left out.
#[derive(Debug)]
pub struct Input {
    pub key: Option<String>,
    pub name: String,
    pub ip: Option<String>,
    pub port: Option<u16>,
}

/// What an [`Input`] stands for in contracts.
pub struct InputModel {
    pub key: Option<Seq<char>>,
    pub name: Seq<char>,
    pub ip: Option<Seq<char>>,
    pub port: Option<u16>,
}

impl View for Input {
    type V = InputModel;

    open spec fn view(&self) -> InputModel {
        InputModel {
            key: text_of(self.key),
            name: self.name@,
            ip: text_of(self.ip),
            port: self.port,
        }
    }
}

/// The port that a whole number stands for.
pub open spec fn port_of(n: Option<int>) -> Option<u16> {
    match n {
        Some(n) => Some(n as u16),
        None => None,
    }
}

/// The whole number of a port.
pub open spec fn whole_of(port: Option<u16>) -> Option<int> {
    match port {
        Some(p) => Some(p as int),
        None => None,
    }
}

impl Payload for Input {
    open spec fn encoded(model: InputModel) -> JsonModel {
        JsonModel::record().put("key"@, JsonModel::maybe_text(model.key)).put(
            "name"@,
            JsonModel::String(model.name),
        ).put("ip"@, JsonModel::maybe_text(model.ip)).put(
            "port"@,
            JsonModel::maybe_whole(whole_of(model.port)),
        )
    }

    open spec fn decoded(json: JsonModel) -> Option<InputModel> {
        match (
            json.optional_text_member("key"@),
            json.text_member("name"@),
            json.optional_text_member("ip"@),
            json.optional_whole_member("port"@, 0, u16::MAX as int),
        ) {
            (Some(key), Some(name), Some(ip), Some(port)) => Some(
                InputModel { key, name, ip, port: port_of(port) },
            ),
            _ => None,
        }
    }

    fn to_json(&self) -> (json: JsonValue) {
        JsonValue::record().put("key", JsonValue::maybe_text(&self.key)).put(
            "name",
            JsonValue::String(self.name.clone()),
        ).put("ip", JsonValue::maybe_text(&self.ip)).put("port", JsonValue::maybe_u16(self.port))
    }

    fn from_json(json: &JsonValue) -> (value: Option<Input>) {
        match (
            json.optional_text_member("key"),
            json.text_member("name"),
            json.optional_text_member("ip"),
            json.optional_u16_member("port"),
        ) {
            (Some(key), Some(name), Some(ip), Some(port)) => Some(Input { key, name, ip, port }),
            _ => None,
        }
    }

    proof fn lemma_round_trip(model: InputModel) {
        reveal_strlit("key");
        reveal_strlit("name");
        reveal_strlit("ip");
        reveal_strlit("port");
        let members = Self::encoded(model)->Object_0;
        assert(members[0].name.len() == 3 && members[1].name.len() == 4 && members[2].name.len()
            == 2);
        assert(members[1].name[0] == 'n' && members[3].name[0] == 'p');
        lemma_find_first_of_name(members, 0);
        lemma_find_first_of_name(members, 1);
        lemma_find_first_of_name(members, 2);
        lemma_find_first_of_name(members, 3);
    }
}

/// What the endpoint gives.
#[derive(Clone, Copy, Debug, PartialEq, Eq, Structural)]
pub struct Output {
    pub enabled: bool,
}

impl View for Output {
    type V = Output;

    open spec fn view(&self) -> Output {
        *self
    }
}

impl Payload for Output {
    open spec fn encoded(model: Output) -> JsonModel {
        JsonModel::record().put("enabled"@, JsonModel::Bool(model.enabled))
    }

    open spec fn decoded(json: JsonModel) -> Option<Output> {
        match json.bool_member("enabled"@) {
            Some(enabled) => Some(Output { enabled }),
            None => None,
        }
    }

    fn to_json(&self) -> (json: JsonValue) {
        JsonValue::record().put("enabled", JsonValue::Bool(self.enabled))
    }

    fn from_json(json: &JsonValue) -> (value: Option<Output>) {
        match json.bool_member("enabled") {
            Some(enabled) => Some(Output { enabled }),
            None => None,
        }
    }

    proof fn lemma_round_trip(model: Output) {
        lemma_find_first_of_name(Self::encoded(model)->Object_0, 0);
    }
}

/// Says whether a switch is on, and records where the asker listens.
pub struct IsEnabledRequest;

impl IsEnabledRequest {
    /// The method `is-enabled`, served on GET and on POST and guarded by the
    /// key.
    pub fn new(key: &str) -> (handler: RequestHandler)
        ensures
            handler.spec_path() == "is-enabled"@,
            handler.slot(Method::Put) is None,
            handler.slot(Method::Delete) is None,
            handler.slot(Method::Other) is None,
            handler.slot(Method::Get) matches Some(MethodHandler::IsEnabled(adapter))
                && adapter.key() == Some(key@),
            handler.slot(Method::Post) matches Some(MethodHandler::IsEnabled(adapter))
                && adapter.key() == Some(key@),
    {
        RequestHandler::new("is-enabled").set_get(MethodHandler::IsEnabled(Self::adapter(key))).set_post(
            MethodHandler::IsEnabled(Self::adapter(key)),
        )
    }

    fn adapter(key: &str) -> (adapter: JsonMethodHandlerAdapter<IsEnabledRequest>)
        ensures
            adapter.key() == Some(key@),
    {
        JsonMethodHandlerAdapter::new(IsEnabledRequest, Some(key.to_owned()))
    }
}

impl JsonMethodHandler for IsEnabledRequest {
    type Input = Input;

    type Output = Output;

    open spec fn key_of(input: InputModel) -> Option<Seq<char>> {
        input.key
    }

    open spec fn outcome(
        input: InputModel,
        switches: Map<Seq<char>, SwitchModel>,
        climate: ClimateModel,
    ) -> Result<ProgressModel<Output>, ServerError> {
        Ok(ProgressModel::Output(Output { enabled: enabled_in(switches, input.name) }))
    }

    open spec fn switches_after(
        input: InputModel,
        switches: Map<Seq<char>, SwitchModel>,
    ) -> Map<Seq<char>, SwitchModel> {
        after_query(switches, input.name, input.ip, input.port)
    }

    open spec fn climate_after(input: InputModel, climate: ClimateModel) -> ClimateModel {
        climate
    }

    fn read_key<'a>(&self, input: &'a Input) -> (key: Option<&'a str>) {
        match &input.key {
            Some(key) => Some(key.as_str()),
            None => None,
        }
    }

    fn process(
        &self,
        switches: &mut Switches,
        climate: &mut Climate,
        parts: &Parts,
        input: Input,
    ) -> (outcome: Result<Progress<Output>, ServerError>) {
        let enabled = switches.is_enabled(input.name.as_str(), &input.ip, &input.port);
        Ok(Progress::Output(Output { enabled }))
    }
}

} // verus!
