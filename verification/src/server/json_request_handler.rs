use vstd::prelude::*;
use crate::json::{parse, parsed, print, printed, JsonModel, JsonValue, Payload};
use crate::server::headers::{
    find_header, header, header_text, header_text_of, HeaderModel, PROTECTED_KEY,
};
use crate::server::envelope::{
    Parts, PartsModel, Pending, Progress, ProgressModel, Response, ResponseModel, Step, StepModel,
};
use crate::server::server_error::{LogicError, ServerError};
use crate::services::climate::{Climate, ClimateModel};
use crate::services::switches::{SwitchModel, Switches};
use crate::text::same_text;

verus! {

/// One endpoint: what it takes, what it gives, and what it does to the
/// state of the house.
pub trait JsonMethodHandler {
    type Input: Payload;

    type Output: Payload;

    /// The key that an input carries, where it carries one.
    spec fn key_of(input: <Self::Input as View>::V) -> Option<Seq<char>>;

    /// What the endpoint comes to on an input.
    spec fn outcome(
        input: <Self::Input as View>::V,
        switches: Map<Seq<char>, SwitchModel>,
        climate: ClimateModel,
    ) -> Result<ProgressModel<<Self::Output as View>::V>, ServerError>;

    /// The switches after the endpoint ran on an input.
    spec fn switches_after(
        input: <Self::Input as View>::V,
        switches: Map<Seq<char>, SwitchModel>,
    ) -> Map<Seq<char>, SwitchModel>;

    /// The climate after the endpoint ran on an input.
    spec fn climate_after(input: <Self::Input as View>::V, climate: ClimateModel) -> ClimateModel;

    fn read_key<'a>(&self, input: &'a Self::Input) -> (key: Option<&'a str>)
        ensures
            match key {
                Some(k) => Self::key_of(input@) == Some(k@),
                None => Self::key_of(input@) is None,
            },
    ;

    fn process(
        &self,
        switches: &mut Switches,
        climate: &mut Climate,
        parts: &Parts,
        input: Self::Input,
    ) -> (outcome: Result<Progress<Self::Output>, ServerError>)
        ensures
            match outcome {
                Ok(progress) => Self::outcome(input@, old(switches)@, old(climate)@) == Ok::<
                    ProgressModel<<Self::Output as View>::V>,
                    ServerError,
                >(progress.model()),
                Err(error) => Self::outcome(input@, old(switches)@, old(climate)@) == Err::<
                    ProgressModel<<Self::Output as View>::V>,
                    ServerError,
                >(error),
            },
            final(switches)@ == Self::switches_after(input@, old(switches)@),
            final(climate)@ == Self::climate_after(input@, old(climate)@),
    ;
}

/// The key that a request presents: the one that its input carries, or else
/// the text of its `Protected-Key` header.
pub open spec fn presented_key(headers: Seq<HeaderModel>, carried: Option<Seq<char>>) -> Option<
    Seq<char>,
> {
    match carried {
        Some(presented) => Some(presented),
        None => match find_header(headers, PROTECTED_KEY@) {
            Some(value) => header_text_of(value),
            None => None,
        },
    }
}

/// Whether the `Protected-Key` header has to be read and is no text.
pub open spec fn key_header_unreadable(headers: Seq<HeaderModel>, carried: Option<Seq<char>>) -> bool {
    carried is None && find_header(headers, PROTECTED_KEY@) is Some && header_text_of(
        find_header(headers, PROTECTED_KEY@)->Some_0,
    ) is None
}

/// Whether a request may pass a handler. With no key configured it may.
/// With one, it passes where the key that it presents is the key
/// configured, letter for letter.
pub open spec fn key_check(
    configured: Option<Seq<char>>,
    headers: Seq<HeaderModel>,
    carried: Option<Seq<char>>,
) -> Result<(), ServerError> {
    match configured {
        None => Ok(()),
        Some(key) => if key_header_unreadable(headers, carried) {
            Err(ServerError::ToStr)
        } else if presented_key(headers, carried) == Some(key) {
            Ok(())
        } else {
            Err(ServerError::Logic(LogicError::InvalidProtectedKey))
        },
    }
}

/// The last step for an endpoint's outcome: the answer that carries its
/// output, the step that it waits with, or its error.
pub open spec fn replied<O: Payload>(
    outcome: Result<ProgressModel<O::V>, ServerError>,
) -> Result<StepModel, ServerError> {
    match outcome {
        Ok(ProgressModel::Output(output)) => reply_with(printed(O::encoded(output))),
        Ok(ProgressModel::Wait(step)) => Ok(step),
        Err(error) => Err(error),
    }
}

/// The step that answers with the text of an output, where there is one.
pub open spec fn reply_with(text: Option<Seq<u8>>) -> Result<StepModel, ServerError> {
    match text {
        Some(body) => Ok(StepModel::respond(ResponseModel::json(body))),
        None => Err(ServerError::Json),
    }
}

/// What serving a request came to, and the state of the house after it.
pub struct Served {
    pub outcome: Result<StepModel, ServerError>,
    pub switches: Map<Seq<char>, SwitchModel>,
    pub climate: ClimateModel,
}

/// What a handler with this key makes of a request whose body reads as
/// `json`: the body has to stand for an input, then the key is checked, and
/// only then the endpoint runs.
pub open spec fn served<H: JsonMethodHandler>(
    key: Option<Seq<char>>,
    switches: Map<Seq<char>, SwitchModel>,
    climate: ClimateModel,
    parts: PartsModel,
    json: Option<JsonModel>,
) -> Served {
    match json {
        None => Served { outcome: Err(ServerError::Json), switches, climate },
        Some(tree) => match H::Input::decoded(tree) {
            None => Served { outcome: Err(ServerError::Json), switches, climate },
            Some(input) => match key_check(key, parts.headers, H::key_of(input)) {
                Err(error) => Served { outcome: Err(error), switches, climate },
                Ok(_) => Served {
                    outcome: replied::<H::Output>(H::outcome(input, switches, climate)),
                    switches: H::switches_after(input, switches),
                    climate: H::climate_after(input, climate),
                },
            },
        },
    }
}

/// The key that a body carries for an endpoint, where the body stands for
/// an input of that endpoint: `None` where it does not.
pub open spec fn carried<H: JsonMethodHandler>(json: JsonModel) -> Option<Option<Seq<char>>> {
    match H::Input::decoded(json) {
        Some(input) => Some(H::key_of(input)),
        None => None,
    }
}

/// A handler guarded by a key turns away, as one with an invalid key, every
/// request whose body stands for an input and which presents another key or
/// none, and leaves the house as it is. The one exception is a request whose
/// key header has to be read and cannot be.
pub proof fn lemma_guarded_endpoint_refuses<H: JsonMethodHandler>(
    key: Seq<char>,
    switches: Map<Seq<char>, SwitchModel>,
    climate: ClimateModel,
    parts: PartsModel,
    json: JsonModel,
)
    requires
        carried::<H>(json) is Some,
        presented_key(parts.headers, carried::<H>(json)->Some_0) != Some(key),
        !key_header_unreadable(parts.headers, carried::<H>(json)->Some_0),
    ensures
        served::<H>(Some(key), switches, climate, parts, Some(json)) == (Served {
            outcome: Err(ServerError::Logic(LogicError::InvalidProtectedKey)),
            switches,
            climate,
        }),
{
}

/// A body that does not read, or that stands for no input of the endpoint,
/// is a JSON error whatever key is presented, and leaves the house as it is.
pub proof fn lemma_unreadable_body_is_refused<H: JsonMethodHandler>(
    key: Option<Seq<char>>,
    switches: Map<Seq<char>, SwitchModel>,
    climate: ClimateModel,
    parts: PartsModel,
    json: Option<JsonModel>,
)
    requires
        json is None || carried::<H>(json->Some_0) is None,
    ensures
        served::<H>(key, switches, climate, parts, json) == (Served {
            outcome: Err(ServerError::Json),
            switches,
            climate,
        }),
{
}

/// A step that a handler comes to is the answer that carries the output,
/// or the step with which the endpoint waits on the input that the body
/// stands for.
pub proof fn lemma_step_is_answer_or_wait<H: JsonMethodHandler>(
    key: Option<Seq<char>>,
    switches: Map<Seq<char>, SwitchModel>,
    climate: ClimateModel,
    parts: PartsModel,
    json: Option<JsonModel>,
)
    ensures
        served::<H>(key, switches, climate, parts, json).outcome matches Ok(step) ==> {
            ||| step.pending == Pending::Nothing && step.action is Respond
            ||| json is Some && H::Input::decoded(json->Some_0) is Some && H::outcome(
                H::Input::decoded(json->Some_0)->Some_0,
                switches,
                climate,
            ) == Ok::<ProgressModel<<H::Output as View>::V>, ServerError>(ProgressModel::Wait(step))
        },
{
}

/// A handler of one endpoint with the key that guards it, if any.
pub struct JsonMethodHandlerAdapter<H: JsonMethodHandler> {
    inner: H,
    key: Option<String>,
}

/// The step that answers with an output.
pub fn reply<O: Payload>(output: &O) -> (step: Result<Step, ServerError>)
    ensures
        match step {
            Ok(s) => reply_with(printed(O::encoded(output@))) == Ok::<StepModel, ServerError>(s@),
            Err(error) => reply_with(printed(O::encoded(output@))) == Err::<StepModel, ServerError>(
                error,
            ),
        },
{
    reply_printed(print(&output.to_json()))
}

/// The step that answers with the text written for an output.
pub fn reply_printed(text: Result<Vec<u8>, serde_json::Error>) -> (step: Result<Step, ServerError>)
    ensures
        match (text, step) {
            (Ok(body), Ok(s)) => s@ == StepModel::respond(ResponseModel::json(body@)),
            (Err(_), Err(error)) => error == ServerError::Json,
            _ => false,
        },
{
    match text {
        Ok(body) => Ok(Step::respond(Response::json(body))),
        Err(error) => Err(ServerError::from(error)),
    }
}

/// An output as the progress of an endpoint that has nothing left to wait
/// for.
pub open spec fn finished<V>(output: Result<V, ServerError>) -> Result<
    ProgressModel<V>,
    ServerError,
> {
    match output {
        Ok(said) => Ok(ProgressModel::Output(said)),
        Err(error) => Err(error),
    }
}

/// The step for an endpoint's outcome.
pub fn advance<O: Payload>(outcome: Result<Progress<O>, ServerError>) -> (step: Result<
    Step,
    ServerError,
>)
    ensures
        ({
            let expected = replied::<O>(
                match outcome {
                    Ok(progress) => Ok(progress.model()),
                    Err(error) => Err(error),
                },
            );
            match step {
                Ok(s) => expected == Ok::<StepModel, ServerError>(s@),
                Err(error) => expected == Err::<StepModel, ServerError>(error),
            }
        }),
{
    match outcome {
        Ok(Progress::Output(output)) => reply(&output),
        Ok(Progress::Wait(step)) => Ok(step),
        Err(error) => Err(error),
    }
}

/// The step for the output of an endpoint that has nothing left to wait
/// for.
pub fn finish<O: Payload>(output: Result<O, ServerError>) -> (step: Result<Step, ServerError>)
    ensures
        ({
            let expected = replied::<O>(
                finished(
                    match output {
                        Ok(said) => Ok(said@),
                        Err(error) => Err(error),
                    },
                ),
            );
            match step {
                Ok(s) => expected == Ok::<StepModel, ServerError>(s@),
                Err(error) => expected == Err::<StepModel, ServerError>(error),
            }
        }),
{
    match output {
        Ok(said) => reply(&said),
        Err(error) => Err(error),
    }
}

impl<H: JsonMethodHandler> JsonMethodHandlerAdapter<H> {
    /// The key that guards the handler.
    pub closed spec fn key(&self) -> Option<Seq<char>> {
        match self.key {
            Some(k) => Some(k@),
            None => None,
        }
    }

    pub fn new(inner: H, key: Option<String>) -> (adapter: Self)
        ensures
            adapter.key() == (match key {
                Some(k) => Some(k@),
                None => None,
            }),
    {
        JsonMethodHandlerAdapter { inner, key }
    }

    /// Whether a request with this input may pass.
    pub fn check_key(&self, parts: &Parts, input: &H::Input) -> (passed: Result<(), ServerError>)
        ensures
            passed == key_check(self.key(), parts@.headers, H::key_of(input@)),
    {
        match &self.key {
            None => Ok(()),
            Some(key) => {
                let carried = self.inner.read_key(input);
                let matches = match carried {
                    Some(presented) => same_text(presented, key.as_str()),
                    None => match header(&parts.headers, PROTECTED_KEY) {
                        Some(value) => match header_text(value.as_slice()) {
                            Some(presented) => same_text(presented.as_str(), key.as_str()),
                            None => {
                                return Err(ServerError::ToStr);
                            },
                        },
                        None => false,
                    },
                };
                if matches {
                    Ok(())
                } else {
                    Err(ServerError::Logic(LogicError::InvalidProtectedKey))
                }
            },
        }
    }

    /// Serves a request with this body.
    pub fn process(
        &self,
        switches: &mut Switches,
        climate: &mut Climate,
        parts: &Parts,
        data: &[u8],
    ) -> (outcome: Result<Step, ServerError>)
        ensures
            ({
                let expected = served::<H>(
                    self.key(),
                    old(switches)@,
                    old(climate)@,
                    parts@,
                    parsed(data@),
                );
                &&& final(switches)@ == expected.switches
                &&& final(climate)@ == expected.climate
                &&& match outcome {
                    Ok(step) => expected.outcome == Ok::<StepModel, ServerError>(step@),
                    Err(error) => expected.outcome == Err::<StepModel, ServerError>(error),
                }
            }),
    {
        match parse(data) {
            Ok(json) => self.process_json(switches, climate, parts, Some(&json)),
            Err(_) => self.process_json(switches, climate, parts, None),
        }
    }

    /// Serves a request whose body was read as `json`, or could not be read.
    pub fn process_json(
        &self,
        switches: &mut Switches,
        climate: &mut Climate,
        parts: &Parts,
        json: Option<&JsonValue>,
    ) -> (outcome: Result<Step, ServerError>)
        ensures
            ({
                let expected = served::<H>(
                    self.key(),
                    old(switches)@,
                    old(climate)@,
                    parts@,
                    match json {
                        Some(tree) => Some(tree@),
                        None => None,
                    },
                );
                &&& final(switches)@ == expected.switches
                &&& final(climate)@ == expected.climate
                &&& match outcome {
                    Ok(step) => expected.outcome == Ok::<StepModel, ServerError>(step@),
                    Err(error) => expected.outcome == Err::<StepModel, ServerError>(error),
                }
            }),
    {
        let tree = match json {
            Some(tree) => tree,
            None => {
                return Err(ServerError::Json);
            },
        };
        let input = match H::Input::from_json(tree) {
            Some(input) => input,
            None => {
                return Err(ServerError::Json);
            },
        };
        match self.check_key(parts, &input) {
            Ok(_) => {},
            Err(error) => {
                return Err(error);
            },
        }
        advance(self.inner.process(switches, climate, parts, input))
    }
}

} // verus!
