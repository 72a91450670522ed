use rpi_home::config::Config;
use rpi_home::json::{decode_list, encode_list, JsonNumber, JsonValue, Payload};
use rpi_home::requests::echo_request;
use rpi_home::requests::is_enabled_request;
use rpi_home::requests::set_switch_request::{GetInput, PostInput, PostOutput};
use rpi_home::requests::turn_servo_request;
use rpi_home::requests::water_request;
use rpi_home::server::headers::{header, Header, ServerMethod};
use rpi_home::server::server_error::ServerError;
use rpi_home::services::climate::{Conditioner, ConditionerMode};
use rpi_home::text::bytes_of;

#[test]
fn members_are_found_by_name() {
    let tree = JsonValue::record()
        .put("a", JsonValue::integer(1))
        .put("b", JsonValue::Bool(true))
        .put("a", JsonValue::integer(2));
    assert_eq!(tree.member("a").unwrap().whole_i32(), Some(1));
    assert_eq!(tree.member("b").unwrap().boolean(), Some(true));
    assert!(tree.member("c").is_none());
    assert!(tree.member("A").is_none());
    assert!(tree.member("a ").is_none());
    assert!(tree.member("").is_none());
    assert!(JsonValue::Null.member("a").is_none());
    assert!(JsonValue::Array(vec![]).member("a").is_none());
}

#[test]
fn put_leaves_what_is_no_object() {
    let value = JsonValue::Bool(true).put("a", JsonValue::Null);
    assert_eq!(value.boolean(), Some(true));
}

#[test]
fn whole_numbers_are_read_within_their_range() {
    assert_eq!(JsonValue::unsigned(u64::MAX).whole_u64(), Some(u64::MAX));
    assert_eq!(JsonValue::integer(-1).whole_u64(), None);
    assert_eq!(JsonValue::integer(0).whole_u64(), Some(0));
    assert_eq!(JsonValue::integer(i32::MAX as i64).whole_i32(), Some(i32::MAX));
    assert_eq!(JsonValue::integer(i32::MAX as i64 + 1).whole_i32(), None);
    assert_eq!(JsonValue::integer(i32::MIN as i64).whole_i32(), Some(i32::MIN));
    assert_eq!(JsonValue::integer(i32::MIN as i64 - 1).whole_i32(), None);
    assert_eq!(JsonValue::integer(65535).whole_u16(), Some(65535));
    assert_eq!(JsonValue::integer(65536).whole_u16(), None);
    assert_eq!(JsonValue::integer(-1).whole_u16(), None);
    assert_eq!(JsonValue::Number(JsonNumber::Real("1.0".to_string())).whole_i32(), None);
    assert_eq!(JsonValue::String("1".to_string()).whole_i32(), None);
    assert_eq!(JsonValue::Null.whole_u64(), None);
}

#[test]
fn values_are_read_by_their_kind() {
    assert_eq!(JsonValue::String("x".to_string()).text().map(|s| s.as_str()), Some("x"));
    assert!(JsonValue::Null.text().is_none());
    assert_eq!(JsonValue::Bool(false).boolean(), Some(false));
    assert_eq!(JsonValue::integer(0).boolean(), None);
    assert!(JsonValue::integer(3).number().is_some());
    assert!(JsonValue::Bool(true).number().is_none());
    assert_eq!(JsonValue::Array(vec![JsonValue::Null]).items().map(|i| i.len()), Some(1));
    assert!(JsonValue::record().items().is_none());
    assert!(matches!(JsonValue::Null.optional_text(), Some(None)));
    assert!(matches!(JsonValue::String("a".to_string()).optional_text(), Some(Some(_))));
    assert!(JsonValue::Bool(true).optional_text().is_none());
}

#[test]
fn lists_are_read_item_by_item() {
    let list = vec![
        Conditioner { enabled: true, temperature: 1, mode: ConditionerMode::Auto },
        Conditioner { enabled: false, temperature: 2, mode: ConditionerMode::Heat },
    ];
    let tree = encode_list(&list);
    assert_eq!(decode_list::<Conditioner>(&tree), Some(list));
    assert_eq!(decode_list::<Conditioner>(&JsonValue::Array(vec![])), Some(vec![]));
    assert_eq!(decode_list::<Conditioner>(&JsonValue::Array(vec![JsonValue::Null])), None);
    assert_eq!(decode_list::<Conditioner>(&JsonValue::record()), None);
}

#[test]
fn inputs_and_outputs_read_back_from_their_trees() {
    let input = echo_request::Input { str: "a \"quoted\" text".to_string() };
    assert_eq!(echo_request::Input::from_json(&input.to_json()).unwrap().str, input.str);
    let output = echo_request::Output { str: String::new() };
    assert_eq!(echo_request::Output::from_json(&output.to_json()).unwrap().str, "");

    let input = water_request::Input { key: "k".to_string(), duration_seconds: u64::MAX, force: true };
    let back = water_request::Input::from_json(&input.to_json()).unwrap();
    assert_eq!(format!("{:?}", back), format!("{:?}", input));
    let output = water_request::Output { result: false, message: "m".to_string() };
    let back = water_request::Output::from_json(&output.to_json()).unwrap();
    assert_eq!(format!("{:?}", back), format!("{:?}", output));

    for (key, ip, port) in [
        (None, None, None),
        (Some("k".to_string()), Some("10.0.0.1".to_string()), Some(0u16)),
        (Some(String::new()), None, Some(u16::MAX)),
    ] {
        let input = is_enabled_request::Input { key, name: "n".to_string(), ip, port };
        let back = is_enabled_request::Input::from_json(&input.to_json()).unwrap();
        assert_eq!(format!("{:?}", back), format!("{:?}", input));
    }

    let input = PostInput { key: None, name: "n".to_string(), value: true };
    let back = PostInput::from_json(&input.to_json()).unwrap();
    assert_eq!(format!("{:?}", back), format!("{:?}", input));
    assert_eq!(PostOutput::from_json(&PostOutput { created: true }.to_json()), Some(PostOutput { created: true }));
    let input = GetInput { name: "n".to_string() };
    assert_eq!(GetInput::from_json(&input.to_json()).unwrap().name, "n");

    let input = turn_servo_request::Input {
        key: "k".to_string(),
        angle: JsonNumber::Real("-12.5".to_string()),
    };
    let back = turn_servo_request::Input::from_json(&input.to_json()).unwrap();
    assert_eq!(format!("{:?}", back), format!("{:?}", input));
}

#[test]
fn a_configuration_is_read_from_its_text() {
    let text = br#"{"address":"127.0.0.1:8080","protected_key":"secret","log_config_path":"log.yml","more":1}"#;
    let config = Config::from_text(text).unwrap();
    assert_eq!(config.address, "127.0.0.1:8080");
    assert_eq!(config.protected_key, "secret");
    assert_eq!(config.log_config_path, "log.yml");
    let back = Config::from_json(&config.to_json()).unwrap();
    assert_eq!(format!("{:?}", back), format!("{:?}", config));
}

#[test]
fn a_configuration_needs_each_member() {
    for text in [
        &br#"{"protected_key":"secret","log_config_path":"log.yml"}"#[..],
        &br#"{"address":"a","log_config_path":"log.yml"}"#[..],
        &br#"{"address":"a","protected_key":"secret"}"#[..],
        &br#"{"address":1,"protected_key":"secret","log_config_path":"log.yml"}"#[..],
        &b"not json"[..],
        &b""[..],
    ] {
        assert!(matches!(Config::from_text(text), Err(ServerError::Json)));
    }
}

#[test]
fn the_bytes_of_a_text_are_its_utf8() {
    assert_eq!(bytes_of("Not found"), b"Not found".to_vec());
    assert_eq!(bytes_of("\u{e9}"), vec![0xc3, 0xa9]);
    assert_eq!(bytes_of(""), Vec::<u8>::new());
}

#[test]
fn a_header_value_of_visible_ascii_is_a_text() {
    let named = |value: &[u8]| {
        let list = vec![Header { name: "Server-Method".to_string(), value: value.to_vec() }];
        ServerMethod::resolve(&list, "/path").map(|method| method.name().to_string())
    };
    assert_eq!(named(b"echo").as_deref(), Some("echo"));
    assert_eq!(named(b"").as_deref(), Some(""));
    assert_eq!(named(b"a b\tc~").as_deref(), Some("a b\tc~"));
    assert_eq!(named(b" !").as_deref(), Some(" !"));
    assert_eq!(named(b"\x7f"), None);
    assert_eq!(named(b"a\nb"), None);
    assert_eq!(named(b"\x1f"), None);
    assert_eq!(named(b"\x00"), None);
    assert_eq!(named(b"caf\xc3\xa9"), None);
    assert_eq!(named(b"\x80"), None);
    assert_eq!(named(b"\xff"), None);
}

fn headers(list: &[(&str, &[u8])]) -> Vec<Header> {
    list.iter()
        .map(|(name, value)| Header { name: name.to_string(), value: value.to_vec() })
        .collect()
}

#[test]
fn the_first_header_of_a_name_is_found() {
    let list = headers(&[("Accept", b"*/*"), ("X-Key", b"one"), ("x-key", b"two")]);
    assert_eq!(header(&list, "X-Key").map(|v| v.as_slice()), Some(&b"one"[..]));
    assert_eq!(header(&list, "x-KEY").map(|v| v.as_slice()), Some(&b"one"[..]));
    assert_eq!(header(&list, "accept").map(|v| v.as_slice()), Some(&b"*/*"[..]));
    assert!(header(&list, "X-Ke").is_none());
    assert!(header(&list, "X_Key").is_none());
    let odd = headers(&[("@", b"at"), ("[", b"bracket")]);
    assert!(header(&odd, "`").is_none());
    assert!(header(&odd, "{").is_none());
    assert_eq!(header(&odd, "[").map(|v| v.as_slice()), Some(&b"bracket"[..]));
    assert!(header(&Vec::new(), "X-Key").is_none());
}

#[test]
fn the_method_is_named_by_header_or_path() {
    let none = headers(&[]);
    assert_eq!(ServerMethod::resolve(&none, "/echo").unwrap().name(), "echo");
    assert_eq!(ServerMethod::resolve(&none, "/a/b").unwrap().name(), "a/b");
    assert_eq!(ServerMethod::resolve(&none, "/").unwrap().name(), "");
    assert_eq!(ServerMethod::resolve(&none, "").unwrap().name(), "");
    assert_eq!(ServerMethod::resolve(&none, "*").unwrap().name(), "");
    assert_eq!(ServerMethod::resolve(&none, "/\u{e9}t\u{e9}").unwrap().name(), "\u{e9}t\u{e9}");
    let named = headers(&[("server-METHOD", b"water"), ("Server-Method", b"echo")]);
    assert_eq!(ServerMethod::resolve(&named, "/echo").unwrap().name(), "water");
    let empty = headers(&[("Server-Method", b"")]);
    assert_eq!(ServerMethod::resolve(&empty, "/echo").unwrap().name(), "");
    let broken = headers(&[("Server-Method", b"\xe9")]);
    assert!(ServerMethod::resolve(&broken, "/echo").is_none());
}
