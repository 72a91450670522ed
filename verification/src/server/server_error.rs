use vstd::prelude::*;
use vstd::string::*;
use vstd::std_specs::convert::FromSpecImpl;
use crate::utils::camera::CameraError;
use crate::utils::rppal_error::RppalError;

verus! {

/// A rule of the service that the client broke. Each variant has a fixed
/// number on the wire.
#[derive(Clone, Copy, Debug, PartialEq, Eq, Structural)]
pub enum LogicError {
    InvalidProtectedKey,
    CameraNotFound,
    CommandMethodIdNotSet,
    CommandInputNotSet,
    CommandUnsupportedContentType,
    CommandSocketAddressNotFound,
}

impl LogicError {
    /// The number that stands for this error on the wire.
    pub open spec fn spec_code(self) -> i32 {
        match self {
            LogicError::InvalidProtectedKey => 1,
            LogicError::CameraNotFound => 2,
            LogicError::CommandMethodIdNotSet => 3,
            LogicError::CommandInputNotSet => 4,
            LogicError::CommandUnsupportedContentType => 5,
            LogicError::CommandSocketAddressNotFound => 6,
        }
    }

    #[verifier::when_used_as_spec(spec_code)]
    pub fn code(self) -> (code: i32)
        ensures
            code == self.spec_code(),
    {
        match self {
            LogicError::InvalidProtectedKey => 1,
            LogicError::CameraNotFound => 2,
            LogicError::CommandMethodIdNotSet => 3,
            LogicError::CommandInputNotSet => 4,
            LogicError::CommandUnsupportedContentType => 5,
            LogicError::CommandSocketAddressNotFound => 6,
        }
    }

    /// The error that a number stands for, where it stands for one.
    pub open spec fn spec_from_code(code: int) -> Option<LogicError> {
        if code == 1 {
            Some(LogicError::InvalidProtectedKey)
        } else if code == 2 {
            Some(LogicError::CameraNotFound)
        } else if code == 3 {
            Some(LogicError::CommandMethodIdNotSet)
        } else if code == 4 {
            Some(LogicError::CommandInputNotSet)
        } else if code == 5 {
            Some(LogicError::CommandUnsupportedContentType)
        } else if code == 6 {
            Some(LogicError::CommandSocketAddressNotFound)
        } else {
            None
        }
    }

    pub fn from_code(code: i32) -> (error: Option<LogicError>)
        ensures
            error == Self::spec_from_code(code as int),
    {
        if code == 1 {
            Some(LogicError::InvalidProtectedKey)
        } else if code == 2 {
            Some(LogicError::CameraNotFound)
        } else if code == 3 {
            Some(LogicError::CommandMethodIdNotSet)
        } else if code == 4 {
            Some(LogicError::CommandInputNotSet)
        } else if code == 5 {
            Some(LogicError::CommandUnsupportedContentType)
        } else if code == 6 {
            Some(LogicError::CommandSocketAddressNotFound)
        } else {
            None
        }
    }

    /// No two errors share a number.
    pub proof fn lemma_codes_tell_errors_apart(a: LogicError, b: LogicError)
        ensures
            a.spec_code() == b.spec_code() <==> a == b,
            Self::spec_from_code(a.spec_code() as int) == Some(a),
    {
    }

    pub open spec fn spec_message(self) -> Seq<char> {
        match self {
            LogicError::InvalidProtectedKey => "Invalid protected key"@,
            LogicError::CameraNotFound => "Camera was not found"@,
            LogicError::CommandMethodIdNotSet => "Command method is not set"@,
            LogicError::CommandInputNotSet => "Command input is not set"@,
            LogicError::CommandUnsupportedContentType => "Command has unsupported content type"@,
            LogicError::CommandSocketAddressNotFound => "Socket address not found"@,
        }
    }

    /// What this error says of itself.
    pub fn message(self) -> (text: &'static str)
        ensures
            text@ == self.spec_message(),
    {
        match self {
            LogicError::InvalidProtectedKey => "Invalid protected key",
            LogicError::CameraNotFound => "Camera was not found",
            LogicError::CommandMethodIdNotSet => "Command method is not set",
            LogicError::CommandInputNotSet => "Command input is not set",
            LogicError::CommandUnsupportedContentType => "Command has unsupported content type",
            LogicError::CommandSocketAddressNotFound => "Socket address not found",
        }
    }
}

/// Why a request could not be served. `Logic` is the client's doing and is
/// told to it by number; the others are told by a short text.
#[derive(Clone, Copy, Debug, PartialEq, Eq, Structural)]
pub enum ServerError {
    /// A body or a record did not have the form that was asked for.
    Json,
    /// Reading or writing failed.
    Io,
    Logic(LogicError),
    /// An answer could not be put together.
    Hyper,
    Camera(CameraError),
    Rppal(RppalError),
    /// A header holds bytes that are no visible ASCII.
    ToStr,
    /// A lock was left broken by the one that held it.
    Poison,
}

impl ServerError {
    pub open spec fn spec_message(self) -> Seq<char> {
        match self {
            ServerError::Json => "Json error"@,
            ServerError::Io => "Io error"@,
            ServerError::Logic(error) => "Logic error: "@ + error.spec_message(),
            ServerError::Hyper => "Internal server error"@,
            ServerError::Camera(CameraError::Rascam) => "Camera error"@,
            ServerError::Camera(CameraError::NotFound) => "Camera error: camera was not found"@,
            ServerError::Rppal(RppalError::Gpio) => "Rppal error: Gpio error"@,
            ServerError::Rppal(RppalError::Pwm) => "Rppal error: Pwm error"@,
            ServerError::ToStr => "To string error"@,
            ServerError::Poison => "Mutex is poison"@,
        }
    }

    /// What this error says of itself, without the detail of its cause.
    pub fn message(&self) -> (text: String)
        ensures
            text@ == self.spec_message(),
    {
        match self {
            ServerError::Json => "Json error".to_owned(),
            ServerError::Io => "Io error".to_owned(),
            ServerError::Logic(error) => {
                let mut text = "Logic error: ".to_owned();
                text.append(error.message());
                text
            },
            ServerError::Hyper => "Internal server error".to_owned(),
            ServerError::Camera(CameraError::Rascam) => "Camera error".to_owned(),
            ServerError::Camera(CameraError::NotFound) => "Camera error: camera was not found".to_owned(),
            ServerError::Rppal(RppalError::Gpio) => "Rppal error: Gpio error".to_owned(),
            ServerError::Rppal(RppalError::Pwm) => "Rppal error: Pwm error".to_owned(),
            ServerError::ToStr => "To string error".to_owned(),
            ServerError::Poison => "Mutex is poison".to_owned(),
        }
    }
}

impl From<LogicError> for ServerError {
    fn from(error: LogicError) -> (converted: ServerError) {
        ServerError::Logic(error)
    }
}

impl FromSpecImpl<LogicError> for ServerError {
    open spec fn obeys_from_spec() -> bool {
        true
    }

    open spec fn from_spec(error: LogicError) -> ServerError {
        ServerError::Logic(error)
    }
}

impl From<CameraError> for ServerError {
    fn from(error: CameraError) -> (converted: ServerError) {
        ServerError::Camera(error)
    }
}

impl FromSpecImpl<CameraError> for ServerError {
    open spec fn obeys_from_spec() -> bool {
        true
    }

    open spec fn from_spec(error: CameraError) -> ServerError {
        ServerError::Camera(error)
    }
}

impl From<RppalError> for ServerError {
    fn from(error: RppalError) -> (converted: ServerError) {
        ServerError::Rppal(error)
    }
}

impl FromSpecImpl<RppalError> for ServerError {
    open spec fn obeys_from_spec() -> bool {
        true
    }

    open spec fn from_spec(error: RppalError) -> ServerError {
        ServerError::Rppal(error)
    }
}

impl From<serde_json::Error> for ServerError {
    fn from(error: serde_json::Error) -> (converted: ServerError) {
        ServerError::Json
    }
}

impl FromSpecImpl<serde_json::Error> for ServerError {
    open spec fn obeys_from_spec() -> bool {
        true
    }

    open spec fn from_spec(error: serde_json::Error) -> ServerError {
        ServerError::Json
    }
}

} // verus!
