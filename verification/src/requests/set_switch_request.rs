use vstd::prelude::*;
use crate::server::envelope::Method;
use crate::server::json_request_handler::JsonMethodHandlerAdapter;
use crate::server::request_handler::{MethodHandler, RequestHandler};
use crate::json::{lemma_find_first_of_name, JsonModel, JsonValue, Payload};
use crate::server::json_request_handler::JsonMethodHandler;
use crate::server::envelope::{Parts, Progress, ProgressModel};
use crate::server::server_error::ServerError;
use crate::services::climate::{Climate, ClimateModel};
use crate::services::switches::{SwitchModel, Switches};

use crate::commands::command::{Command, CommandModel, SocketAddress};
use crate::json::written;
use crate::server::envelope::{Action, ActionModel, Pending, Step, StepModel};
use crate::server::server_error::LogicError;
use crate::services::switches::{after_query, after_set, enabled_in, peer_in, text_of};
use crate::text::folded;

verus! {

/// The number of the method by which a peer is told that its switch was
/// set.
pub const ENABLE_METHOD_ID: i32 = 0;

/// What the endpoint takes.
#[derive(Debug)]
pub struct GetInput {
    pub name: String,
}

/// What an [`GetInput`] stands for in contracts.
pub struct GetInputModel {
    pub name: Seq<char>,
}

impl View for GetInput {
    type V = GetInputModel;

    open spec fn view(&self) -> GetInputModel {
        GetInputModel { name: self.name@ }
    }
}

impl Payload for GetInput {
    open spec fn encoded(model: GetInputModel) -> JsonModel {
        JsonModel::record().put("name"@, JsonModel::String(model.name))
    }

    open spec fn decoded(json: JsonModel) -> Option<GetInputModel> {
        match json.text_member("name"@) {
            Some(name) => Some(GetInputModel { name }),
            None => None,
        }
    }

    fn to_json(&self) -> (json: JsonValue) {
        JsonValue::record().put("name", JsonValue::String(self.name.clone()))
    }

    fn from_json(json: &JsonValue) -> (value: Option<GetInput>) {
        match json.text_member("name") {
            Some(name) => Some(GetInput { name }),
            None => None,
        }
    }

    proof fn lemma_round_trip(model: GetInputModel) {
        lemma_find_first_of_name(Self::encoded(model)->Object_0, 0);
    }
}

/// What the endpoint gives.
#[derive(Clone, Copy, Debug, PartialEq, Eq, Structural)]
pub struct GetOutput {
    pub enabled: bool,
}

impl View for GetOutput {
    type V = GetOutput;

    open spec fn view(&self) -> GetOutput {
        *self
    }
}

impl Payload for GetOutput {
    open spec fn encoded(model: GetOutput) -> JsonModel {
        JsonModel::record().put("enabled"@, JsonModel::Bool(model.enabled))
    }

    open spec fn decoded(json: JsonModel) -> Option<GetOutput> {
        match json.bool_member("enabled"@) {
            Some(enabled) => Some(GetOutput { enabled }),
            None => None,
        }
    }

    fn to_json(&self) -> (json: JsonValue) {
        JsonValue::record().put("enabled", JsonValue::Bool(self.enabled))
    }

    fn from_json(json: &JsonValue) -> (value: Option<GetOutput>) {
        match json.bool_member("enabled") {
            Some(enabled) => Some(GetOutput { enabled }),
            None => None,
        }
    }

    proof fn lemma_round_trip(model: GetOutput) {
        lemma_find_first_of_name(Self::encoded(model)->Object_0, 0);
    }
}

/// Says whether a switch is on. It carries no key of its own: where one
/// guards it, the key comes in a header.
pub struct GetSwitchMethod;

impl JsonMethodHandler for GetSwitchMethod {
    type Input = GetInput;

    type Output = GetOutput;

    open spec fn key_of(input: GetInputModel) -> Option<Seq<char>> {
        None
    }

    open spec fn outcome(
        input: GetInputModel,
        switches: Map<Seq<char>, SwitchModel>,
        climate: ClimateModel,
    ) -> Result<ProgressModel<GetOutput>, ServerError> {
        Ok(ProgressModel::Output(GetOutput { enabled: enabled_in(switches, input.name) }))
    }

    open spec fn switches_after(
        input: GetInputModel,
        switches: Map<Seq<char>, SwitchModel>,
    ) -> Map<Seq<char>, SwitchModel> {
        after_query(switches, input.name, None, None)
    }

    open spec fn climate_after(input: GetInputModel, climate: ClimateModel) -> ClimateModel {
        climate
    }

    fn read_key<'a>(&self, input: &'a GetInput) -> (key: Option<&'a str>) {
        None
    }

    fn process(
        &self,
        switches: &mut Switches,
        climate: &mut Climate,
        parts: &Parts,
        input: GetInput,
    ) -> (outcome: Result<Progress<GetOutput>, ServerError>) {
        let enabled = switches.is_enabled(input.name.as_str(), &None, &None);
        Ok(Progress::Output(GetOutput { enabled }))
    }
}

/// What the endpoint takes.
#[derive(Debug)]
pub struct PostInput {
    pub key: Option<String>,
    pub name: String,
    pub value: bool,
}

/// What an [`PostInput`] stands for in contracts.
pub struct PostInputModel {
    pub key: Option<Seq<char>>,
    pub name: Seq<char>,
    pub value: bool,
}

impl View for PostInput {
    type V = PostInputModel;

    open spec fn view(&self) -> PostInputModel {
        PostInputModel { key: text_of(self.key), name: self.name@, value: self.value }
    }
}

impl Payload for PostInput {
    open spec fn encoded(model: PostInputModel) -> JsonModel {
        JsonModel::record().put("key"@, JsonModel::maybe_text(model.key)).put(
            "name"@,
            JsonModel::String(model.name),
        ).put("value"@, JsonModel::Bool(model.value))
    }

    open spec fn decoded(json: JsonModel) -> Option<PostInputModel> {
        match (
            json.optional_text_member("key"@),
            json.text_member("name"@),
            json.bool_member("value"@),
        ) {
            (Some(key), Some(name), Some(value)) => Some(PostInputModel { key, name, value }),
            _ => None,
        }
    }

    fn to_json(&self) -> (json: JsonValue) {
        JsonValue::record().put("key", JsonValue::maybe_text(&self.key)).put(
            "name",
            JsonValue::String(self.name.clone()),
        ).put("value", JsonValue::Bool(self.value))
    }

    fn from_json(json: &JsonValue) -> (value: Option<PostInput>) {
        match (json.optional_text_member("key"), json.text_member("name"), json.bool_member("value")) {
            (Some(key), Some(name), Some(value)) => Some(PostInput { key, name, value }),
            _ => None,
        }
    }

    proof fn lemma_round_trip(model: PostInputModel) {
        reveal_strlit("key");
        reveal_strlit("name");
        reveal_strlit("value");
        let members = Self::encoded(model)->Object_0;
        assert(members[0].name.len() == 3 && members[1].name.len() == 4 && members[2].name.len()
            == 5);
        lemma_find_first_of_name(members, 0);
        lemma_find_first_of_name(members, 1);
        lemma_find_first_of_name(members, 2);
    }
}

/// What the endpoint gives.
#[derive(Clone, Copy, Debug, PartialEq, Eq, Structural)]
pub struct PostOutput {
    pub created: bool,
}

impl View for PostOutput {
    type V = PostOutput;

    open spec fn view(&self) -> PostOutput {
        *self
    }
}

impl Payload for PostOutput {
    open spec fn encoded(model: PostOutput) -> JsonModel {
        JsonModel::record().put("created"@, JsonModel::Bool(model.created))
    }

    open spec fn decoded(json: JsonModel) -> Option<PostOutput> {
        match json.bool_member("created"@) {
            Some(created) => Some(PostOutput { created }),
            None => None,
        }
    }

    fn to_json(&self) -> (json: JsonValue) {
        JsonValue::record().put("created", JsonValue::Bool(self.created))
    }

    fn from_json(json: &JsonValue) -> (value: Option<PostOutput>) {
        match json.bool_member("created") {
            Some(created) => Some(PostOutput { created }),
            None => None,
        }
    }

    proof fn lemma_round_trip(model: PostOutput) {
        lemma_find_first_of_name(Self::encoded(model)->Object_0, 0);
    }
}

/// What a peer is told when its switch was set.
#[derive(Clone, Copy, Debug, PartialEq, Eq, Structural)]
pub struct EnableCommandInput {
    pub enabled: bool,
}

impl View for EnableCommandInput {
    type V = EnableCommandInput;

    open spec fn view(&self) -> EnableCommandInput {
        *self
    }
}

impl Payload for EnableCommandInput {
    open spec fn encoded(model: EnableCommandInput) -> JsonModel {
        JsonModel::record().put("enabled"@, JsonModel::Bool(model.enabled))
    }

    open spec fn decoded(json: JsonModel) -> Option<EnableCommandInput> {
        match json.bool_member("enabled"@) {
            Some(enabled) => Some(EnableCommandInput { enabled }),
            None => None,
        }
    }

    fn to_json(&self) -> (json: JsonValue) {
        JsonValue::record().put("enabled", JsonValue::Bool(self.enabled))
    }

    fn from_json(json: &JsonValue) -> (value: Option<EnableCommandInput>) {
        match json.bool_member("enabled") {
            Some(enabled) => Some(EnableCommandInput { enabled }),
            None => None,
        }
    }

    proof fn lemma_round_trip(model: EnableCommandInput) {
        lemma_find_first_of_name(Self::encoded(model)->Object_0, 0);
    }
}

/// What a peer answers when it was told: an object, of which nothing is
/// read.
#[derive(Clone, Copy, Debug, PartialEq, Eq, Structural)]
pub struct EnableCommandOutput {}

impl View for EnableCommandOutput {
    type V = EnableCommandOutput;

    open spec fn view(&self) -> EnableCommandOutput {
        *self
    }
}

impl Payload for EnableCommandOutput {
    open spec fn encoded(model: EnableCommandOutput) -> JsonModel {
        JsonModel::record()
    }

    open spec fn decoded(json: JsonModel) -> Option<EnableCommandOutput> {
        if json is Object {
            Some(EnableCommandOutput {  })
        } else {
            None
        }
    }

    fn to_json(&self) -> (json: JsonValue) {
        JsonValue::record()
    }

    fn from_json(json: &JsonValue) -> (value: Option<EnableCommandOutput>) {
        match json {
            JsonValue::Object(_) => Some(EnableCommandOutput {  }),
            _ => None,
        }
    }

    proof fn lemma_round_trip(model: EnableCommandOutput) {
    }
}

/// What setting a switch comes to: where a peer is recorded with the
/// switch, by address and port, the peer is to be told first; otherwise the
/// output says whether the switch was made.
pub open spec fn after_switch_set(
    input: PostInputModel,
    switches: Map<Seq<char>, SwitchModel>,
) -> ProgressModel<PostOutput> {
    let created = !switches.contains_key(folded(input.name));
    match peer_in(switches, input.name) {
        (Some(ip), Some(port)) => ProgressModel::Wait(
            StepModel {
                pending: Pending::Peer { created },
                action: ActionModel::NotifyPeer { ip, port, enabled: input.value },
            },
        ),
        _ => ProgressModel::Output(PostOutput { created }),
    }
}

/// Turns a switch on or off, and tells the peer recorded with it.
pub struct PostSwitchMethod;

impl PostSwitchMethod {
    /// The output once the peer was told, or could not be.
    pub fn peer_notified(created: bool) -> (output: PostOutput)
        ensures
            output == (PostOutput { created }),
    {
        PostOutput { created }
    }

    /// The call that tells a peer, at the first of the addresses that its
    /// name stands for, that its switch was set.
    pub fn command(resolved: Vec<SocketAddress>, enabled: bool) -> (command: Result<
        Command,
        ServerError,
    >)
        ensures
            resolved.len() == 0 ==> command == Err::<Command, ServerError>(
                ServerError::Logic(LogicError::CommandSocketAddressNotFound),
            ),
            resolved.len() > 0 ==> match written::<EnableCommandInput>(
                EnableCommandInput { enabled },
            ) {
                Some(bytes) => command is Ok && command->Ok_0@ == (CommandModel {
                    host: resolved[0].host@,
                    port: resolved[0].port,
                    method_id: Some(ENABLE_METHOD_ID),
                    input: Some(bytes),
                }),
                None => command == Err::<Command, ServerError>(ServerError::Json),
            },
    {
        match Command::new(resolved) {
            Ok(command) => command.method_id(ENABLE_METHOD_ID).input(
                &EnableCommandInput { enabled },
            ),
            Err(error) => Err(error),
        }
    }
}

impl JsonMethodHandler for PostSwitchMethod {
    type Input = PostInput;

    type Output = PostOutput;

    open spec fn key_of(input: PostInputModel) -> Option<Seq<char>> {
        input.key
    }

    open spec fn outcome(
        input: PostInputModel,
        switches: Map<Seq<char>, SwitchModel>,
        climate: ClimateModel,
    ) -> Result<ProgressModel<PostOutput>, ServerError> {
        Ok(after_switch_set(input, switches))
    }

    open spec fn switches_after(
        input: PostInputModel,
        switches: Map<Seq<char>, SwitchModel>,
    ) -> Map<Seq<char>, SwitchModel> {
        after_set(switches, input.name, input.value)
    }

    open spec fn climate_after(input: PostInputModel, climate: ClimateModel) -> ClimateModel {
        climate
    }

    fn read_key<'a>(&self, input: &'a PostInput) -> (key: Option<&'a str>) {
        match &input.key {
            Some(key) => Some(key.as_str()),
            None => None,
        }
    }

    fn process(
        &self,
        switches: &mut Switches,
        climate: &mut Climate,
        parts: &Parts,
        input: PostInput,
    ) -> (outcome: Result<Progress<PostOutput>, ServerError>) {
        let (created, ip, port) = switches.set(input.name.as_str(), input.value);
        match (ip, port) {
            (Some(ip), Some(port)) => Ok(
                Progress::Wait(
                    Step {
                        pending: Pending::Peer { created },
                        action: Action::NotifyPeer { ip, port, enabled: input.value },
                    },
                ),
            ),
            _ => Ok(Progress::Output(PostOutput { created })),
        }
    }
}

/// The method `set-switch`: asked on GET, set on POST.
pub struct SwitchRequest;

impl SwitchRequest {
    /// The method `set-switch`, with both handlers guarded by the key.
    pub fn new(key: &str) -> (handler: RequestHandler)
        ensures
            handler.spec_path() == "set-switch"@,
            handler.slot(Method::Put) is None,
            handler.slot(Method::Delete) is None,
            handler.slot(Method::Other) is None,
            handler.slot(Method::Get) matches Some(MethodHandler::GetSwitch(adapter))
                && adapter.key() == Some(key@),
            handler.slot(Method::Post) matches Some(MethodHandler::PostSwitch(adapter))
                && adapter.key() == Some(key@),
    {
        RequestHandler::new("set-switch").set_get(
            MethodHandler::GetSwitch(
                JsonMethodHandlerAdapter::new(GetSwitchMethod, Some(key.to_owned())),
            ),
        ).set_post(
            MethodHandler::PostSwitch(
                JsonMethodHandlerAdapter::new(PostSwitchMethod, Some(key.to_owned())),
            ),
        )
    }
}

} // verus!
