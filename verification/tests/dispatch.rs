use rpi_home::json::{from_text, to_text};
use rpi_home::requests::conditioners_request::ConditionersRequest;
use rpi_home::requests::{echo_request, get_climate_request, water_request};
use rpi_home::requests::echo_request::EchoRequest;
use rpi_home::requests::get_camera_image_request::GetCameraImageRequest;
use rpi_home::requests::get_climate_request::GetClimateRequest;
use rpi_home::requests::is_enabled_request::IsEnabledRequest;
use rpi_home::requests::is_enough_water_request::IsEnoughWaterRequest;
use rpi_home::requests::set_climate_request::SetClimateRequest;
use rpi_home::requests::set_switch_request::SwitchRequest;
use rpi_home::requests::turn_servo_request::TurnServoRequest;
use rpi_home::requests::water_request::WaterRequest;
use rpi_home::server::envelope::{Action, Event, Method, Parts, Pending, Response, Step};
use rpi_home::server::headers::Header;
use rpi_home::server::request_handler::RequestHandler;
use rpi_home::server::{Request, RpiHomeContext};
use rpi_home::services::climate::Climate;
use rpi_home::services::switches::Switches;
use rpi_home::utils::camera::CameraError;
use rpi_home::utils::rppal_error::RppalError;

const KEY: &str = "correct";

struct House {
    context: RpiHomeContext,
    switches: Switches,
    climate: Climate,
}

fn house() -> House {
    let mut context = RpiHomeContext::new();
    context.add_handler(EchoRequest::new());
    context.add_handler(GetCameraImageRequest::new(KEY));
    context.add_handler(IsEnoughWaterRequest::new(KEY));
    context.add_handler(WaterRequest::new(KEY));
    context.add_handler(TurnServoRequest::new(KEY));
    context.add_handler(ConditionersRequest::new(KEY));
    context.add_handler(GetClimateRequest::new(KEY));
    context.add_handler(SetClimateRequest::new(KEY));
    context.add_handler(IsEnabledRequest::new(KEY));
    context.add_handler(SwitchRequest::new(KEY));
    House { context, switches: Switches::new(), climate: Climate::new() }
}

fn request(method: Method, path: &str, headers: Vec<(&str, &[u8])>, body: &[u8]) -> Request {
    Request {
        parts: Parts {
            method,
            path: path.to_string(),
            headers: headers
                .into_iter()
                .map(|(name, value)| Header { name: name.to_string(), value: value.to_vec() })
                .collect(),
        },
        body: Some(body.to_vec()),
    }
}

fn post(path: &str, body: &str) -> Request {
    request(Method::Post, path, vec![], body.as_bytes())
}

fn serve(house: &mut House, request: &Request) -> Step {
    house.context.handle(&mut house.switches, &mut house.climate, request)
}

fn answer(step: Step) -> Response {
    assert_eq!(step.pending, Pending::Nothing);
    match step.action {
        Action::Respond(response) => response,
        other => panic!("the request waits: {:?}", other),
    }
}

fn text(response: &Response) -> String {
    String::from_utf8(response.body.clone()).unwrap()
}

fn assert_json(response: &Response, status: u16, body: &str) {
    assert_eq!(response.status, status);
    assert_eq!(text(response), body);
    assert_eq!(response.content_type.as_deref(), Some("application/json"));
    assert_eq!(response.content_length, Some(body.len()));
}

fn assert_code(response: &Response, code: i32) {
    assert_eq!(response.status, 400);
    assert_eq!(text(response), format!("{{\"code\":{}}}", code));
}

fn assert_not_found(response: &Response) {
    assert_eq!(response.status, 404);
    assert_eq!(text(response), "Not found");
    assert_eq!(response.content_type, None);
}

#[test]
fn echo_gives_back_what_it_was_given() {
    let mut house = house();
    let response = answer(serve(&mut house, &post("/echo", r#"{"str":"hello"}"#)));
    assert_json(&response, 200, r#"{"str":"hello"}"#);
}

#[test]
fn echo_of_the_probe_text_is_a_logic_error() {
    let mut house = house();
    let response = answer(serve(&mut house, &post("/echo", r#"{"str":"logic error test"}"#)));
    assert_code(&response, 1);
    assert_eq!(response.content_type, None);
}

#[test]
fn set_switch_with_a_wrong_key_is_refused_and_changes_nothing() {
    let mut house = house();
    let response = answer(serve(
        &mut house,
        &post("/set-switch", r#"{"key":"wrong","name":"pump1","value":true}"#),
    ));
    assert_code(&response, 1);
    let (created, _, _) = house.switches.set("pump1", true);
    assert!(created);
}

#[test]
fn set_switch_makes_the_switch_and_is_enabled_sees_it() {
    let mut house = house();
    let response = answer(serve(
        &mut house,
        &post("/set-switch", r#"{"key":"correct","name":"pump1","value":true}"#),
    ));
    assert_json(&response, 200, r#"{"created":true}"#);
    let asked = request(
        Method::Get,
        "/is-enabled",
        vec![],
        br#"{"key":"correct","name":"pump1"}"#,
    );
    let response = answer(serve(&mut house, &asked));
    assert_json(&response, 200, r#"{"enabled":true}"#);
    let response = answer(serve(
        &mut house,
        &post("/set-switch", r#"{"key":"correct","name":"pump1","value":false}"#),
    ));
    assert_json(&response, 200, r#"{"created":false}"#);
    let response = answer(serve(&mut house, &asked));
    assert_json(&response, 200, r#"{"enabled":false}"#);
}

#[test]
fn water_without_force_and_without_water_does_not_pump() {
    let mut house = house();
    let step = serve(
        &mut house,
        &post("/water", r#"{"key":"correct","duration_seconds":3,"force":false}"#),
    );
    assert_eq!(step.pending, Pending::WaterLevelForPump { seconds: 3, force: false });
    assert!(matches!(step.action, Action::ReadWaterLevel));
    let step = RpiHomeContext::resume(step.pending, Event::WaterLevel(Ok(false)));
    let response = answer(step);
    assert_json(&response, 200, r#"{"result":false,"message":"Not enough water"}"#);
}

#[test]
fn water_with_enough_water_runs_the_pump_for_the_time_asked() {
    let mut house = house();
    let step = serve(
        &mut house,
        &post("/water", r#"{"key":"correct","duration_seconds":7,"force":false}"#),
    );
    let step = RpiHomeContext::resume(step.pending, Event::WaterLevel(Ok(true)));
    assert_eq!(step.pending, Pending::Pump);
    assert!(matches!(step.action, Action::RunPump { seconds: 7 }));
    let response = answer(RpiHomeContext::resume(step.pending, Event::PumpStopped(Ok(()))));
    assert_json(&response, 200, r#"{"result":true,"message":"Plant was watered"}"#);
}

#[test]
fn water_with_force_pumps_without_water() {
    let mut house = house();
    let step = serve(
        &mut house,
        &post("/water", r#"{"key":"correct","duration_seconds":2,"force":true}"#),
    );
    assert!(matches!(step.action, Action::ReadWaterLevel));
    let step = RpiHomeContext::resume(step.pending, Event::WaterLevel(Ok(false)));
    assert!(matches!(step.action, Action::RunPump { seconds: 2 }));
}

#[test]
fn water_fails_where_the_sensor_or_the_pump_fails() {
    let pending = Pending::WaterLevelForPump { seconds: 2, force: true };
    let response = answer(RpiHomeContext::resume(pending, Event::WaterLevel(Err(RppalError::Gpio))));
    assert_eq!(response.status, 400);
    assert_eq!(text(&response), "Rppal error: Gpio error");
    let response =
        answer(RpiHomeContext::resume(Pending::Pump, Event::PumpStopped(Err(RppalError::Gpio))));
    assert_eq!(response.status, 400);
    assert_eq!(text(&response), "Rppal error: Gpio error");
}

#[test]
fn is_enough_water_reports_the_sensor() {
    let mut house = house();
    let step = serve(&mut house, &post("/is-enough-water", r#"{"key":"correct"}"#));
    assert_eq!(step.pending, Pending::WaterLevel);
    assert!(matches!(step.action, Action::ReadWaterLevel));
    let response = answer(RpiHomeContext::resume(step.pending, Event::WaterLevel(Ok(true))));
    assert_json(&response, 200, r#"{"result":true}"#);
    let response = answer(RpiHomeContext::resume(Pending::WaterLevel, Event::WaterLevel(Ok(false))));
    assert_json(&response, 200, r#"{"result":false}"#);
}

#[test]
fn turn_servo_hands_on_the_angle() {
    let mut house = house();
    let step = serve(&mut house, &post("/turn-servo", r#"{"key":"correct","angle":-45.5}"#));
    assert_eq!(step.pending, Pending::Servo);
    match &step.action {
        Action::TurnServo { angle } => assert_eq!(format!("{:?}", angle), "Real(\"-45.5\")"),
        other => panic!("unexpected action {:?}", other),
    }
    let response = answer(RpiHomeContext::resume(step.pending, Event::ServoTurned(Ok(()))));
    assert_json(&response, 200, r#"{"result":"Ok"}"#);
    let response =
        answer(RpiHomeContext::resume(Pending::Servo, Event::ServoTurned(Err(RppalError::Pwm))));
    assert_eq!(response.status, 400);
    assert_eq!(text(&response), "Rppal error: Pwm error");
}

#[test]
fn turn_servo_takes_a_whole_angle() {
    let mut house = house();
    let step = serve(&mut house, &post("/turn-servo", r#"{"key":"correct","angle":90}"#));
    match &step.action {
        Action::TurnServo { angle } => assert_eq!(format!("{:?}", angle), "PosInt(90)"),
        other => panic!("unexpected action {:?}", other),
    }
}

#[test]
fn camera_image_comes_as_base64() {
    let mut house = house();
    let step = serve(&mut house, &post("/get-camera-image", r#"{"key":"correct"}"#));
    assert_eq!(step.pending, Pending::Photo);
    assert!(matches!(step.action, Action::TakePhoto));
    let response =
        answer(RpiHomeContext::resume(step.pending, Event::Photo(Ok(b"hello".to_vec()))));
    assert_json(&response, 200, r#"{"image_base64":"aGVsbG8="}"#);
    let response = answer(RpiHomeContext::resume(Pending::Photo, Event::Photo(Ok(vec![]))));
    assert_json(&response, 200, r#"{"image_base64":""}"#);
}

#[test]
fn camera_failure_is_a_bad_request() {
    let response =
        answer(RpiHomeContext::resume(Pending::Photo, Event::Photo(Err(CameraError::NotFound))));
    assert_eq!(response.status, 400);
    assert_eq!(text(&response), "Camera error: camera was not found");
    let response =
        answer(RpiHomeContext::resume(Pending::Photo, Event::Photo(Err(CameraError::Rascam))));
    assert_eq!(response.status, 400);
    assert_eq!(text(&response), "Camera error");
}

#[test]
fn an_event_that_was_not_waited_for_is_the_servers_fault() {
    let response = answer(RpiHomeContext::resume(Pending::Nothing, Event::PeerNotified));
    assert_eq!(response.status, 500);
    assert_eq!(text(&response), "Internal server error");
    let response = answer(RpiHomeContext::resume(Pending::Pump, Event::WaterLevel(Ok(true))));
    assert_eq!(response.status, 500);
}

#[test]
fn unknown_method_is_not_found_whatever_the_body() {
    let mut house = house();
    assert_not_found(&answer(serve(&mut house, &post("/no-such-method", r#"{"str":"hello"}"#))));
    assert_not_found(&answer(serve(&mut house, &post("/no-such-method", "not json at all"))));
    assert_not_found(&answer(serve(&mut house, &post("/", ""))));
    assert_not_found(&answer(serve(&mut house, &post("", ""))));
    assert_not_found(&answer(serve(&mut house, &post("/echo/more", r#"{"str":"hello"}"#))));
}

#[test]
fn unbound_verb_is_not_found_whatever_the_body() {
    let mut house = house();
    for method in [Method::Get, Method::Put, Method::Delete, Method::Other] {
        let asked = request(method, "/echo", vec![], br#"{"str":"hello"}"#);
        assert_not_found(&answer(serve(&mut house, &asked)));
        let asked = request(method, "/echo", vec![], b"{");
        assert_not_found(&answer(serve(&mut house, &asked)));
    }
    let asked = request(Method::Get, "/water", vec![], br#"{"key":"correct"}"#);
    assert_not_found(&answer(serve(&mut house, &asked)));
}

#[test]
fn the_method_header_wins_over_the_path() {
    let mut house = house();
    let asked = request(
        Method::Post,
        "/no-such-method",
        vec![("Server-Method", b"echo")],
        br#"{"str":"hi"}"#,
    );
    assert_json(&answer(serve(&mut house, &asked)), 200, r#"{"str":"hi"}"#);
    let asked =
        request(Method::Post, "/echo", vec![("server-method", b"nothing")], br#"{"str":"hi"}"#);
    assert_not_found(&answer(serve(&mut house, &asked)));
}

#[test]
fn a_method_header_that_is_no_text_is_not_found() {
    let mut house = house();
    let asked =
        request(Method::Post, "/echo", vec![("Server-Method", b"ech\xf6")], br#"{"str":"hi"}"#);
    assert_not_found(&answer(serve(&mut house, &asked)));
}

#[test]
fn a_body_that_could_not_be_read_is_a_bad_request() {
    let mut house = house();
    let mut asked = post("/echo", "");
    asked.body = None;
    let response = answer(serve(&mut house, &asked));
    assert_eq!(response.status, 400);
    assert_eq!(text(&response), "Cannon read");
    let mut asked = request(Method::Post, "/echo", vec![("Server-Method", b"\xff")], b"");
    asked.body = None;
    assert_not_found(&answer(serve(&mut house, &asked)));
}

#[test]
fn a_body_that_is_no_json_is_a_bad_request() {
    let mut house = house();
    for body in ["", "{", "[]", "null", r#"{"str":1}"#, r#"{"other":"x"}"#, r#"{"str":"a"} x"#] {
        let response = answer(serve(&mut house, &post("/echo", body)));
        assert_eq!(response.status, 400, "body {:?}", body);
        assert_eq!(text(&response), "Json error");
    }
}

#[test]
fn members_that_are_not_asked_for_are_passed_over() {
    let mut house = house();
    let response = answer(serve(
        &mut house,
        &post("/echo", r#"{"more":[1,{"a":null}],"str":"x","last":2.5}"#),
    ));
    assert_json(&response, 200, r#"{"str":"x"}"#);
}

#[test]
fn text_is_escaped_as_json_asks() {
    let mut house = house();
    let response = answer(serve(&mut house, &post("/echo", r#"{"str":"a\"b\\c\né"}"#)));
    assert_json(&response, 200, "{\"str\":\"a\\\"b\\\\c\\n\u{e9}\"}");
}

#[test]
fn the_shape_of_the_body_is_checked_before_the_key() {
    let mut house = house();
    let response =
        answer(serve(&mut house, &post("/water", r#"{"key":"wrong","duration_seconds":"x"}"#)));
    assert_eq!(response.status, 400);
    assert_eq!(text(&response), "Json error");
    let response = answer(serve(
        &mut house,
        &post("/water", r#"{"key":"wrong","duration_seconds":1,"force":true}"#),
    ));
    assert_code(&response, 1);
}

#[test]
fn every_guarded_method_refuses_a_wrong_key() {
    let bodies = [
        ("/get-camera-image", r#"{"key":"Correct"}"#),
        ("/is-enough-water", r#"{"key":"correct "}"#),
        ("/water", r#"{"key":"","duration_seconds":1,"force":false}"#),
        ("/turn-servo", r#"{"key":"wrong","angle":1.5}"#),
        (
            "/conditioners",
            r#"{"key":"wrong","sensors":[],"sensor_temp":1,"bedroom_temp":2,"living_temp":3}"#,
        ),
        ("/get-climate", r#"{"key":"wrong"}"#),
        ("/set-climate", r#"{"key":"wrong","conditioners":[]}"#),
        ("/is-enabled", r#"{"key":"wrong","name":"a"}"#),
        ("/is-enabled", r#"{"name":"a"}"#),
        ("/is-enabled", r#"{"key":null,"name":"a"}"#),
        ("/set-switch", r#"{"name":"a","value":true}"#),
    ];
    for (path, body) in bodies {
        let mut house = house();
        let response = answer(serve(&mut house, &post(path, body)));
        assert_code(&response, 1);
        assert!(house.switches.set("a", true).0, "{} changed the switches", path);
    }
}

#[test]
fn the_key_may_come_in_a_header_where_the_body_carries_none() {
    let mut house = house();
    let asked = request(
        Method::Post,
        "/is-enabled",
        vec![("Protected-Key", b"correct")],
        br#"{"name":"lamp"}"#,
    );
    assert_json(&answer(serve(&mut house, &asked)), 200, r#"{"enabled":false}"#);
    let asked = request(
        Method::Post,
        "/is-enabled",
        vec![("protected-key", b"wrong")],
        br#"{"name":"lamp"}"#,
    );
    assert_code(&answer(serve(&mut house, &asked)), 1);
    let asked = request(
        Method::Post,
        "/is-enabled",
        vec![("Protected-Key", b"correct")],
        br#"{"key":"wrong","name":"lamp"}"#,
    );
    assert_code(&answer(serve(&mut house, &asked)), 1);
}

#[test]
fn a_key_header_that_is_no_text_is_a_bad_request() {
    let mut house = house();
    let asked = request(
        Method::Post,
        "/is-enabled",
        vec![("Protected-Key", b"corr\xe9ct")],
        br#"{"name":"lamp"}"#,
    );
    let response = answer(serve(&mut house, &asked));
    assert_eq!(response.status, 400);
    assert_eq!(text(&response), "To string error");
}

#[test]
fn the_switch_asked_on_get_takes_its_key_from_the_header() {
    let mut house = house();
    house.switches.set("lamp", true);
    let asked = request(Method::Get, "/set-switch", vec![], br#"{"name":"lamp"}"#);
    assert_code(&answer(serve(&mut house, &asked)), 1);
    let asked = request(
        Method::Get,
        "/set-switch",
        vec![("Protected-Key", b"correct")],
        br#"{"name":"LAMP"}"#,
    );
    assert_json(&answer(serve(&mut house, &asked)), 200, r#"{"enabled":true}"#);
}

#[test]
fn is_enabled_asked_twice_answers_the_same() {
    let mut house = house();
    house.switches.set("fan", true);
    let first = post("/is-enabled", r#"{"key":"correct","name":"fan","ip":"10.0.0.2","port":9000}"#);
    let second = post("/is-enabled", r#"{"key":"correct","name":"FAN"}"#);
    assert_json(&answer(serve(&mut house, &first)), 200, r#"{"enabled":true}"#);
    assert_json(&answer(serve(&mut house, &second)), 200, r#"{"enabled":true}"#);
    assert_json(&answer(serve(&mut house, &first)), 200, r#"{"enabled":true}"#);
    let unseen = post("/is-enabled", r#"{"key":"correct","name":"unseen"}"#);
    assert_json(&answer(serve(&mut house, &unseen)), 200, r#"{"enabled":false}"#);
    assert_json(&answer(serve(&mut house, &unseen)), 200, r#"{"enabled":false}"#);
}

#[test]
fn is_enabled_refuses_a_port_that_is_none() {
    let mut house = house();
    for body in [
        r#"{"key":"correct","name":"fan","port":65536}"#,
        r#"{"key":"correct","name":"fan","port":-1}"#,
        r#"{"key":"correct","name":"fan","port":1.5}"#,
        r#"{"key":"correct","name":"fan","port":"80"}"#,
        r#"{"key":"correct","name":"fan","ip":7}"#,
        r#"{"key":7,"name":"fan"}"#,
    ] {
        let response = answer(serve(&mut house, &post("/is-enabled", body)));
        assert_eq!(response.status, 400, "body {}", body);
        assert_eq!(text(&response), "Json error");
    }
    let response = answer(serve(
        &mut house,
        &post("/is-enabled", r#"{"key":"correct","name":"fan","port":65535,"ip":null}"#),
    ));
    assert_json(&response, 200, r#"{"enabled":false}"#);
}

#[test]
fn set_switch_tells_the_peer_that_asked_before() {
    let mut house = house();
    let asked = post("/is-enabled", r#"{"key":"correct","name":"pump","ip":"10.0.0.7","port":4000}"#);
    assert_json(&answer(serve(&mut house, &asked)), 200, r#"{"enabled":false}"#);
    let step = serve(
        &mut house,
        &post("/set-switch", r#"{"key":"correct","name":"Pump","value":true}"#),
    );
    assert_eq!(step.pending, Pending::Peer { created: false });
    match &step.action {
        Action::NotifyPeer { ip, port, enabled } => {
            assert_eq!(ip, "10.0.0.7");
            assert_eq!(*port, 4000);
            assert!(*enabled);
        }
        other => panic!("unexpected action {:?}", other),
    }
    let response = answer(RpiHomeContext::resume(step.pending, Event::PeerNotified));
    assert_json(&response, 200, r#"{"created":false}"#);
    assert_json(&answer(serve(&mut house, &asked)), 200, r#"{"enabled":true}"#);
}

#[test]
fn set_switch_tells_no_peer_without_address_and_port() {
    let mut house = house();
    let asked = post("/is-enabled", r#"{"key":"correct","name":"pump","ip":"10.0.0.7"}"#);
    assert_json(&answer(serve(&mut house, &asked)), 200, r#"{"enabled":false}"#);
    let response = answer(serve(
        &mut house,
        &post("/set-switch", r#"{"key":"correct","name":"pump","value":true}"#),
    ));
    assert_json(&response, 200, r#"{"created":false}"#);
}

#[test]
fn climate_is_read_set_and_computed() {
    let mut house = house();
    let initial = concat_strs(&[
        r#"{"conditioners":[{"enabled":false,"temperature":20,"mode":1},"#,
        r#"{"enabled":false,"temperature":20,"mode":1}],"#,
        r#""sensors":{"weather_sensors":[],"sensor_temp":0.0,"bedroom_temp":0.0,"living_temp":0.0}}"#,
    ]);
    let response = answer(serve(&mut house, &post("/get-climate", r#"{"key":"correct"}"#)));
    assert_json(&response, 200, &initial);

    let response = answer(serve(
        &mut house,
        &post(
            "/set-climate",
            r#"{"key":"correct","conditioners":[{"enabled":true,"temperature":-3,"mode":4}]}"#,
        ),
    ));
    assert_json(&response, 200, r#"{"result":"Success"}"#);

    let readings = concat_strs(&[
        r#"{"key":"correct","sensors":[{"channel":2,"temperature":-1.25,"humidity":40,"#,
        r#""low_battery":true}],"sensor_temp":21.5,"bedroom_temp":19,"living_temp":22.75}"#,
    ]);
    let response = answer(serve(&mut house, &post("/conditioners", &readings)));
    assert_json(
        &response,
        200,
        concat_strs(&[
            r#"{"conditioners":[{"enabled":true,"temperature":-3,"mode":4},"#,
            r#"{"enabled":false,"temperature":20,"mode":1}]}"#,
        ])
        .as_str(),
    );

    let response = answer(serve(&mut house, &post("/get-climate", r#"{"key":"correct"}"#)));
    assert_json(
        &response,
        200,
        concat_strs(&[
            r#"{"conditioners":[{"enabled":true,"temperature":-3,"mode":4},"#,
            r#"{"enabled":false,"temperature":20,"mode":1}],"#,
            r#""sensors":{"weather_sensors":[{"channel":2,"temperature":-1.25,"humidity":40,"#,
            r#""low_battery":true}],"sensor_temp":21.5,"bedroom_temp":19,"living_temp":22.75}}"#,
        ])
        .as_str(),
    );
}

fn concat_strs(parts: &[&str]) -> String {
    parts.concat()
}

#[test]
fn set_climate_passes_over_a_conditioner_without_a_slot() {
    let mut house = house();
    let body = concat_strs(&[
        r#"{"key":"correct","conditioners":[{"enabled":true,"temperature":18,"mode":0},"#,
        r#"{"enabled":true,"temperature":19,"mode":2},{"enabled":true,"temperature":30,"mode":3}]}"#,
    ]);
    assert_json(&answer(serve(&mut house, &post("/set-climate", &body))), 200, r#"{"result":"Success"}"#);
    let held = house.climate.conditioners();
    assert_eq!(held.len(), 2);
    assert_eq!(held[0].temperature, 18);
    assert_eq!(held[1].temperature, 19);
}

#[test]
fn set_climate_refuses_a_mode_that_is_none() {
    let mut house = house();
    for mode in ["5", "-1", "1.0", "\"Cool\"", "null"] {
        let body = format!(
            r#"{{"key":"correct","conditioners":[{{"enabled":true,"temperature":18,"mode":{}}}]}}"#,
            mode
        );
        let response = answer(serve(&mut house, &post("/set-climate", &body)));
        assert_eq!(response.status, 400, "mode {}", mode);
        assert_eq!(text(&response), "Json error");
    }
    assert_eq!(house.climate.conditioners()[0].temperature, 20);
}

#[test]
fn registering_a_name_again_replaces_the_handler() {
    let mut house = house();
    house.context.add_handler(RequestHandler::new("echo"));
    assert_not_found(&answer(serve(&mut house, &post("/echo", r#"{"str":"hello"}"#))));
    house.context.add_handler(EchoRequest::new());
    assert_json(
        &answer(serve(&mut house, &post("/echo", r#"{"str":"hello"}"#))),
        200,
        r#"{"str":"hello"}"#,
    );
}

#[test]
fn method_names_are_told_apart_by_case() {
    let mut house = house();
    assert_not_found(&answer(serve(&mut house, &post("/Echo", r#"{"str":"hello"}"#))));
}

#[test]
fn a_registry_with_nothing_registered_finds_nothing() {
    let context = RpiHomeContext::new();
    let mut switches = Switches::new();
    let mut climate = Climate::new();
    let step = context.handle(&mut switches, &mut climate, &post("/echo", r#"{"str":"hello"}"#));
    assert_not_found(&answer(step));
}

#[test]
fn handle_json_serves_the_tree_that_it_is_given() {
    let mut house = house();
    let tree = rpi_home::json::JsonValue::record()
        .put("str", rpi_home::json::JsonValue::String("tree".to_string()));
    let asked = post("/echo", "ignored");
    let step = house.context.handle_json(&mut house.switches, &mut house.climate, &asked, Some(&tree));
    assert_json(&answer(step), 200, r#"{"str":"tree"}"#);
    let step = house.context.handle_json(&mut house.switches, &mut house.climate, &asked, None);
    let response = answer(step);
    assert_eq!(response.status, 400);
    assert_eq!(text(&response), "Json error");
}

#[test]
fn outputs_read_back_from_their_text() {
    let mut house = house();
    let response = answer(serve(&mut house, &post("/echo", r#"{"str":"a\u00e9\n\"b\""}"#)));
    let output = from_text::<echo_request::Output>(&response.body).unwrap();
    assert_eq!(output.str, "a\u{e9}\n\"b\"");
    assert_eq!(to_text(&output).unwrap(), response.body);

    let response = answer(RpiHomeContext::resume(Pending::Pump, Event::PumpStopped(Ok(()))));
    let output = from_text::<water_request::Output>(&response.body).unwrap();
    assert!(output.result);
    assert_eq!(output.message, "Plant was watered");
    assert_eq!(to_text(&output).unwrap(), response.body);

    let readings = concat_strs(&[
        r#"{"key":"correct","sensors":[{"channel":2,"temperature":-1.25,"humidity":40,"#,
        r#""low_battery":true}],"sensor_temp":21.5,"bedroom_temp":-19,"living_temp":0}"#,
    ]);
    answer(serve(&mut house, &post("/conditioners", &readings)));
    let response = answer(serve(&mut house, &post("/get-climate", r#"{"key":"correct"}"#)));
    let output = from_text::<get_climate_request::Output>(&response.body).unwrap();
    assert_eq!(output.conditioners, house.climate.conditioners());
    assert_eq!(format!("{:?}", output.sensors), format!("{:?}", house.climate.sensors()));
    assert_eq!(to_text(&output).unwrap(), response.body);
}
