use base64::engine::general_purpose::STANDARD;
use base64::engine::Engine;
use vstd::prelude::*;
use crate::server::protected_json_request_handler::ProtectedInput;
use crate::server::envelope::Method;
use crate::server::json_request_handler::JsonMethodHandlerAdapter;
use crate::server::request_handler::{MethodHandler, RequestHandler};
use crate::json::{lemma_find_first_of_name, JsonModel, JsonValue, Payload};
use crate::server::json_request_handler::JsonMethodHandler;
use crate::server::envelope::{
    Action, ActionModel, Parts, Pending, Progress, ProgressModel, Step, StepModel,
};
use crate::server::server_error::ServerError;
use crate::services::climate::{Climate, ClimateModel};
use crate::services::switches::{SwitchModel, Switches};

use crate::utils::camera::CameraError;

verus! {

/// The text that `base64` writes for bytes with its standard alphabet and
/// padding.
pub uninterp spec fn base64_standard(bytes: Seq<u8>) -> Seq<char>;

/// The longest photo that is put into text: the text of a longer one could
/// have a length that does not fit the machine's word.
pub open spec fn longest_photo() -> int {
    (usize::MAX - 4) / 4 * 3
}

/// `Engine::encode` of `base64` on `general_purpose::STANDARD`. The same
/// bytes always give the same text: `base64_standard` is the name of it.
/// The call fails where four thirds of the length, rounded up to a multiple
/// of four, do not fit the machine's word; such bytes are left out.
#[verifier::external_body]
fn encode_standard(bytes: &[u8]) -> (text: String)
    requires
        bytes@.len() <= longest_photo(),
    ensures
        text@ == base64_standard(bytes@),
{
    STANDARD.encode(bytes)
}

/// What the endpoint takes.
#[derive(Debug)]
pub struct Input {
    pub key: String,
}

/// What an [`Input`] stands for in contracts.
pub struct InputModel {
    pub key: Seq<char>,
}

impl View for Input {
    type V = InputModel;

    open spec fn view(&self) -> InputModel {
        InputModel { key: self.key@ }
    }
}

impl ProtectedInput for Input {
    open spec fn protected_key(&self) -> Seq<char> {
        self.key@
    }

    fn get_protected_key(&self) -> (key: &str) {
        self.key.as_str()
    }
}

impl Payload for Input {
    open spec fn encoded(model: InputModel) -> JsonModel {
        JsonModel::record().put("key"@, JsonModel::String(model.key))
    }

    open spec fn decoded(json: JsonModel) -> Option<InputModel> {
        match json.text_member("key"@) {
            Some(key) => Some(InputModel { key }),
            None => None,
        }
    }

    fn to_json(&self) -> (json: JsonValue) {
        JsonValue::record().put("key", JsonValue::String(self.key.clone()))
    }

    fn from_json(json: &JsonValue) -> (value: Option<Input>) {
        match json.text_member("key") {
            Some(key) => Some(Input { key }),
            None => None,
        }
    }

    proof fn lemma_round_trip(model: InputModel) {
        lemma_find_first_of_name(Self::encoded(model)->Object_0, 0);
    }
}

/// What the endpoint gives.
#[derive(Debug)]
pub struct Output {
    pub image_base64: String,
}

/// What an [`Output`] stands for in contracts.
pub struct OutputModel {
    pub image_base64: Seq<char>,
}

impl View for Output {
    type V = OutputModel;

    open spec fn view(&self) -> OutputModel {
        OutputModel { image_base64: self.image_base64@ }
    }
}

impl Payload for Output {
    open spec fn encoded(model: OutputModel) -> JsonModel {
        JsonModel::record().put("image_base64"@, JsonModel::String(model.image_base64))
    }

    open spec fn decoded(json: JsonModel) -> Option<OutputModel> {
        match json.text_member("image_base64"@) {
            Some(image_base64) => Some(OutputModel { image_base64 }),
            None => None,
        }
    }

    fn to_json(&self) -> (json: JsonValue) {
        JsonValue::record().put("image_base64", JsonValue::String(self.image_base64.clone()))
    }

    fn from_json(json: &JsonValue) -> (value: Option<Output>) {
        match json.text_member("image_base64") {
            Some(image_base64) => Some(Output { image_base64 }),
            None => None,
        }
    }

    proof fn lemma_round_trip(model: OutputModel) {
        lemma_find_first_of_name(Self::encoded(model)->Object_0, 0);
    }
}

/// What a photo, or the failure to take one, comes to.
pub open spec fn after_photo(photo: Result<Seq<u8>, CameraError>) -> Result<
    OutputModel,
    ServerError,
> {
    match photo {
        Ok(bytes) => if bytes.len() <= longest_photo() {
            Ok(OutputModel { image_base64: base64_standard(bytes) })
        } else {
            Err(ServerError::Io)
        },
        Err(error) => Err(ServerError::Camera(error)),
    }
}

/// Takes a photo and gives it as text.
pub struct GetCameraImageRequest;

impl GetCameraImageRequest {
    /// The output for the photo that was taken.
    pub fn photo(photo: &Result<Vec<u8>, CameraError>) -> (output: Result<Output, ServerError>)
        ensures
            ({
                let expected = after_photo(
                    match *photo {
                        Ok(bytes) => Ok(bytes@),
                        Err(error) => Err(error),
                    },
                );
                match output {
                    Ok(said) => expected == Ok::<OutputModel, ServerError>(said@),
                    Err(error) => expected == Err::<OutputModel, ServerError>(error),
                }
            }),
    {
        match photo {
            Ok(bytes) => {
                if bytes.len() > (usize::MAX - 4) / 4 * 3 {
                    return Err(ServerError::Io);
                }
                Ok(Self::output(encode_standard(bytes.as_slice())))
            },
            Err(error) => Err(ServerError::Camera(*error)),
        }
    }

    /// The output that carries this text.
    pub fn output(image_base64: String) -> (output: Output)
        ensures
            output@ == (OutputModel { image_base64: image_base64@ }),
    {
        Output { image_base64 }
    }
}

impl GetCameraImageRequest {
    /// The method `get-camera-image`, served on POST and guarded by the key.
    pub fn new(key: &str) -> (handler: RequestHandler)
        ensures
            handler.spec_path() == "get-camera-image"@,
            forall|method: Method| method != Method::Post ==> handler.slot(method) is None,
            handler.slot(Method::Post) matches Some(MethodHandler::GetCameraImage(adapter))
                && adapter.key() == Some(key@),
    {
        RequestHandler::new("get-camera-image").set_post(
            MethodHandler::GetCameraImage(JsonMethodHandlerAdapter::new(GetCameraImageRequest, Some(key.to_owned()))),
        )
    }
}

impl JsonMethodHandler for GetCameraImageRequest {
    type Input = Input;

    type Output = Output;

    open spec fn key_of(input: InputModel) -> Option<Seq<char>> {
        Some(input.key)
    }

    open spec fn outcome(
        input: InputModel,
        switches: Map<Seq<char>, SwitchModel>,
        climate: ClimateModel,
    ) -> Result<ProgressModel<OutputModel>, ServerError> {
        Ok(
            ProgressModel::Wait(
                StepModel { pending: Pending::Photo, action: ActionModel::TakePhoto },
            ),
        )
    }

    open spec fn switches_after(
        input: InputModel,
        switches: Map<Seq<char>, SwitchModel>,
    ) -> Map<Seq<char>, SwitchModel> {
        switches
    }

    open spec fn climate_after(input: InputModel, climate: ClimateModel) -> ClimateModel {
        climate
    }

    fn read_key<'a>(&self, input: &'a Input) -> (key: Option<&'a str>) {
        Some(input.get_protected_key())
    }

    fn process(
        &self,
        switches: &mut Switches,
        climate: &mut Climate,
        parts: &Parts,
        input: Input,
    ) -> (outcome: Result<Progress<Output>, ServerError>) {
        Ok(Progress::Wait(Step { pending: Pending::Photo, action: Action::TakePhoto }))
    }
}

} // verus!
