use vstd::prelude::*;
use crate::json::{lemma_find_first_of_name, read_as, JsonModel, JsonValue, Payload};
use crate::server::server_error::ServerError;

verus! {

/// What the service is started with: the address to listen at, the key that
/// guards its methods, and where the logging is configured.
#[derive(Debug)]
pub struct Config {
    pub address: String,
    pub protected_key: String,
    pub log_config_path: String,
}

/// What a [`Config`] stands for in contracts.
pub struct ConfigModel {
    pub address: Seq<char>,
    pub protected_key: Seq<char>,
    pub log_config_path: Seq<char>,
}

impl View for Config {
    type V = ConfigModel;

    open spec fn view(&self) -> ConfigModel {
        ConfigModel {
            address: self.address@,
            protected_key: self.protected_key@,
            log_config_path: self.log_config_path@,
        }
    }
}

impl Payload for Config {
    open spec fn encoded(model: ConfigModel) -> JsonModel {
        JsonModel::record().put("address"@, JsonModel::String(model.address)).put(
            "protected_key"@,
            JsonModel::String(model.protected_key),
        ).put("log_config_path"@, JsonModel::String(model.log_config_path))
    }

    open spec fn decoded(json: JsonModel) -> Option<ConfigModel> {
        match (
            json.text_member("address"@),
            json.text_member("protected_key"@),
            json.text_member("log_config_path"@),
        ) {
            (Some(address), Some(protected_key), Some(log_config_path)) => Some(
                ConfigModel { address, protected_key, log_config_path },
            ),
            _ => None,
        }
    }

    fn to_json(&self) -> (json: JsonValue) {
        JsonValue::record().put("address", JsonValue::String(self.address.clone())).put(
            "protected_key",
            JsonValue::String(self.protected_key.clone()),
        ).put("log_config_path", JsonValue::String(self.log_config_path.clone()))
    }

    fn from_json(json: &JsonValue) -> (value: Option<Config>) {
        match (
            json.text_member("address"),
            json.text_member("protected_key"),
            json.text_member("log_config_path"),
        ) {
            (Some(address), Some(protected_key), Some(log_config_path)) => Some(
                Config { address, protected_key, log_config_path },
            ),
            _ => None,
        }
    }

    proof fn lemma_round_trip(model: ConfigModel) {
        reveal_strlit("address");
        reveal_strlit("protected_key");
        reveal_strlit("log_config_path");
        let members = Self::encoded(model)->Object_0;
        assert(members[0].name.len() == 7 && members[1].name.len() == 13 && members[2].name.len()
            == 15);
        lemma_find_first_of_name(members, 0);
        lemma_find_first_of_name(members, 1);
        lemma_find_first_of_name(members, 2);
    }
}

impl Config {
    /// The configuration that the text of a configuration file stands for.
    pub fn from_text(text: &[u8]) -> (config: Result<Config, ServerError>)
        ensures
            match config {
                Ok(read) => read_as::<Config>(text@) == Some(read@),
                Err(error) => error == ServerError::Json && read_as::<Config>(text@) is None,
            },
    {
        crate::json::from_text::<Config>(text)
    }
}

} // verus!
