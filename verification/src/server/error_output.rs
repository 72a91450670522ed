use vstd::prelude::*;
use crate::json::{lemma_find_first_of_name, JsonModel, JsonValue, Payload};
use crate::server::server_error::LogicError;

verus! {

/// The body of the answer to a request that broke a rule of the service.
#[derive(Clone, Copy, Debug, PartialEq, Eq, Structural)]
pub struct ErrorOutput {
    pub code: i32,
}

impl ErrorOutput {
    pub fn new(error: LogicError) -> (output: ErrorOutput)
        ensures
            output.code == error.spec_code(),
    {
        ErrorOutput { code: error.code() }
    }
}

impl View for ErrorOutput {
    type V = ErrorOutput;

    open spec fn view(&self) -> ErrorOutput {
        *self
    }
}

impl Payload for ErrorOutput {
    open spec fn encoded(model: ErrorOutput) -> JsonModel {
        JsonModel::record().put("code"@, JsonModel::whole(model.code as int))
    }

    open spec fn decoded(json: JsonModel) -> Option<ErrorOutput> {
        match json.member("code"@) {
            Some(code) => match code.whole_within(i32::MIN as int, i32::MAX as int) {
                Some(n) => Some(ErrorOutput { code: n as i32 }),
                None => None,
            },
            None => None,
        }
    }

    fn to_json(&self) -> (json: JsonValue) {
        JsonValue::record().put("code", JsonValue::integer(self.code as i64))
    }

    fn from_json(json: &JsonValue) -> (value: Option<ErrorOutput>) {
        match json.member("code") {
            Some(code) => match code.whole_i32() {
                Some(n) => Some(ErrorOutput { code: n }),
                None => None,
            },
            None => None,
        }
    }

    proof fn lemma_round_trip(model: ErrorOutput) {
        lemma_find_first_of_name(Self::encoded(model)->Object_0, 0);
    }
}

} // verus!
