use rpi_home::json::Payload;
use rpi_home::server::envelope::{not_found, Response};
use rpi_home::server::error_output::ErrorOutput;
use rpi_home::server::server_error::{LogicError, ServerError};
use rpi_home::server::RpiHomeContext;
use rpi_home::utils::camera::CameraError;
use rpi_home::utils::rppal_error::RppalError;

const RULES: [(LogicError, i32, &str); 6] = [
    (LogicError::InvalidProtectedKey, 1, "Invalid protected key"),
    (LogicError::CameraNotFound, 2, "Camera was not found"),
    (LogicError::CommandMethodIdNotSet, 3, "Command method is not set"),
    (LogicError::CommandInputNotSet, 4, "Command input is not set"),
    (LogicError::CommandUnsupportedContentType, 5, "Command has unsupported content type"),
    (LogicError::CommandSocketAddressNotFound, 6, "Socket address not found"),
];

fn text(response: &Response) -> String {
    String::from_utf8(response.body.clone()).unwrap()
}

#[test]
fn logic_errors_have_their_wire_codes() {
    for (rule, code, message) in RULES {
        assert_eq!(rule.code(), code);
        assert_eq!(ErrorOutput::new(rule).code, code);
        assert_eq!(LogicError::from_code(code), Some(rule));
        assert_eq!(rule.message(), message);
    }
    assert_eq!(LogicError::from_code(0), None);
    assert_eq!(LogicError::from_code(7), None);
    assert_eq!(LogicError::from_code(-1), None);
}

#[test]
fn a_logic_error_is_answered_with_its_code() {
    for (rule, code, _) in RULES {
        let response = RpiHomeContext::error_response(&ServerError::Logic(rule));
        assert_eq!(response.status, 400);
        assert_eq!(text(&response), format!("{{\"code\":{}}}", code));
    }
}

#[test]
fn other_errors_are_answered_with_a_short_text() {
    let bad_requests = [
        (ServerError::Json, "Json error"),
        (ServerError::Io, "Io error"),
        (ServerError::Camera(CameraError::Rascam), "Camera error"),
        (ServerError::Camera(CameraError::NotFound), "Camera error: camera was not found"),
        (ServerError::Rppal(RppalError::Gpio), "Rppal error: Gpio error"),
        (ServerError::Rppal(RppalError::Pwm), "Rppal error: Pwm error"),
        (ServerError::ToStr, "To string error"),
    ];
    for (error, message) in bad_requests {
        let response = RpiHomeContext::error_response(&error);
        assert_eq!(response.status, 400);
        assert_eq!(text(&response), message);
        assert_eq!(error.message(), message);
        assert_eq!(response.content_type, None);
        assert_eq!(response.content_length, None);
    }
}

#[test]
fn a_broken_lock_or_answer_is_the_servers_fault() {
    let response = RpiHomeContext::error_response(&ServerError::Poison);
    assert_eq!(response.status, 500);
    assert_eq!(text(&response), "Mutex is poison");
    let response = RpiHomeContext::error_response(&ServerError::Hyper);
    assert_eq!(response.status, 500);
    assert_eq!(text(&response), "Internal server error");
    let response = Response::internal_server_error();
    assert_eq!(response.status, 500);
    assert_eq!(text(&response), "Internal server error");
}

#[test]
fn a_logic_error_says_what_it_is() {
    assert_eq!(
        ServerError::Logic(LogicError::InvalidProtectedKey).message(),
        "Logic error: Invalid protected key"
    );
    assert_eq!(
        ServerError::Logic(LogicError::CommandSocketAddressNotFound).message(),
        "Logic error: Socket address not found"
    );
}

#[test]
fn errors_convert_into_server_errors() {
    assert_eq!(ServerError::from(LogicError::CameraNotFound), ServerError::Logic(LogicError::CameraNotFound));
    assert_eq!(ServerError::from(CameraError::NotFound), ServerError::Camera(CameraError::NotFound));
    assert_eq!(ServerError::from(RppalError::Pwm), ServerError::Rppal(RppalError::Pwm));
    let broken = serde_json::from_slice::<serde_json::Value>(b"{").unwrap_err();
    assert_eq!(ServerError::from(broken), ServerError::Json);
}

#[test]
fn an_answer_that_could_not_be_written_is_the_servers_fault() {
    let response = RpiHomeContext::logic_error_response(serde_json::to_vec(&1));
    assert_eq!(response.status, 400);
    assert_eq!(text(&response), "1");
    let broken = serde_json::from_slice::<serde_json::Value>(b"{").unwrap_err();
    let response = RpiHomeContext::logic_error_response(Err(broken));
    assert_eq!(response.status, 500);
    assert_eq!(text(&response), "Internal server error");
}

#[test]
fn not_found_is_404() {
    let response = not_found();
    assert_eq!(response.status, 404);
    assert_eq!(text(&response), "Not found");
    assert_eq!(response.content_type, None);
}

#[test]
fn an_error_output_reads_back_from_its_tree() {
    for code in [i32::MIN, -1, 0, 1, 6, i32::MAX] {
        let output = ErrorOutput { code };
        assert_eq!(ErrorOutput::from_json(&output.to_json()), Some(output));
    }
}
