use rpi_home::commands::command::{Command, SocketAddress};
use rpi_home::requests::set_switch_request::{
    EnableCommandInput, EnableCommandOutput, PostSwitchMethod,
};
use rpi_home::server::server_error::{LogicError, ServerError};

fn peer() -> Vec<SocketAddress> {
    vec![
        SocketAddress { host: "10.0.0.7".to_string(), port: 4000 },
        SocketAddress { host: "10.0.0.8".to_string(), port: 4001 },
    ]
}

#[test]
fn a_command_goes_to_the_first_address() {
    let command = Command::new(peer()).unwrap();
    assert_eq!(command.address().host, "10.0.0.7");
    assert_eq!(command.address().port, 4000);
}

#[test]
fn a_command_needs_an_address() {
    let refused = Command::new(vec![]);
    assert!(matches!(
        refused,
        Err(ServerError::Logic(LogicError::CommandSocketAddressNotFound))
    ));
}

#[test]
fn a_frame_is_three_numbers_and_the_payload() {
    let command = Command::new(peer())
        .unwrap()
        .method_id(0x0102_0304)
        .input(&EnableCommandInput { enabled: true })
        .unwrap();
    let frame = command.frame().unwrap();
    let payload = br#"{"enabled":true}"#;
    let mut expected = vec![4u8, 3, 2, 1, payload.len() as u8, 0, 0, 0, 1, 0, 0, 0];
    expected.extend_from_slice(payload);
    assert_eq!(frame, expected);
}

#[test]
fn a_negative_method_number_is_written_in_twos_complement() {
    let command = Command::new(peer()).unwrap().method_id(-2).input_bytes(vec![]);
    assert_eq!(command.frame().unwrap(), vec![0xfe, 0xff, 0xff, 0xff, 0, 0, 0, 0, 1, 0, 0, 0]);
    let command = Command::new(peer()).unwrap().method_id(i32::MIN).input_bytes(vec![9]);
    assert_eq!(command.frame().unwrap(), vec![0, 0, 0, 0x80, 1, 0, 0, 0, 1, 0, 0, 0, 9]);
}

#[test]
fn a_long_payload_has_its_length_in_the_frame() {
    let command = Command::new(peer()).unwrap().method_id(1).input_bytes(vec![7; 0x1_0203]);
    let frame = command.frame().unwrap();
    assert_eq!(&frame[..12], &[1, 0, 0, 0, 3, 2, 1, 0, 1, 0, 0, 0]);
    assert_eq!(frame.len(), 12 + 0x1_0203);
}

#[test]
fn a_frame_needs_input_and_method() {
    let bare = Command::new(peer()).unwrap();
    assert!(matches!(bare.frame(), Err(ServerError::Logic(LogicError::CommandInputNotSet))));
    let without_input = Command::new(peer()).unwrap().method_id(0);
    assert!(matches!(
        without_input.frame(),
        Err(ServerError::Logic(LogicError::CommandInputNotSet))
    ));
    let without_method = Command::new(peer()).unwrap().input_bytes(vec![1]);
    assert!(matches!(
        without_method.frame(),
        Err(ServerError::Logic(LogicError::CommandMethodIdNotSet))
    ));
}

#[test]
fn the_header_of_an_answer_gives_the_length() {
    assert_eq!(Command::response_size(&[2, 0, 0, 0, 1, 0, 0, 0]).ok(), Some(2));
    assert_eq!(Command::response_size(&[0, 0, 0, 0, 1, 0, 0, 0]).ok(), Some(0));
    assert_eq!(Command::response_size(&[4, 3, 2, 1, 1, 0, 0, 0, 9, 9]).ok(), Some(0x0102_0304));
    assert_eq!(
        Command::response_size(&[0xff, 0xff, 0xff, 0x7f, 1, 0, 0, 0]).ok(),
        Some(i32::MAX as usize)
    );
}

#[test]
fn an_answer_of_another_content_type_is_refused() {
    for content_type in [[0u8, 0, 0, 0], [2, 0, 0, 0], [1, 1, 0, 0], [0xff, 0xff, 0xff, 0xff]] {
        let mut header = vec![2u8, 0, 0, 0];
        header.extend_from_slice(&content_type);
        assert!(matches!(
            Command::response_size(&header),
            Err(ServerError::Logic(LogicError::CommandUnsupportedContentType))
        ));
    }
    assert!(matches!(
        Command::response_size(&[0xff, 0xff, 0xff, 0xff, 2, 0, 0, 0]),
        Err(ServerError::Logic(LogicError::CommandUnsupportedContentType))
    ));
}

#[test]
fn a_header_that_is_short_or_gives_a_negative_length_is_refused() {
    assert!(matches!(Command::response_size(&[]), Err(ServerError::Io)));
    assert!(matches!(Command::response_size(&[1, 0, 0, 0, 1, 0, 0]), Err(ServerError::Io)));
    assert!(matches!(
        Command::response_size(&[0xff, 0xff, 0xff, 0xff, 1, 0, 0, 0]),
        Err(ServerError::Io)
    ));
    assert!(matches!(
        Command::response_size(&[0, 0, 0, 0x80, 1, 0, 0, 0]),
        Err(ServerError::Io)
    ));
}

#[test]
fn the_answer_of_a_peer_is_an_object() {
    assert!(Command::output::<EnableCommandOutput>(b"{}").is_ok());
    assert!(Command::output::<EnableCommandOutput>(br#"{"more":1}"#).is_ok());
    assert!(matches!(Command::output::<EnableCommandOutput>(b"[]"), Err(ServerError::Json)));
    assert!(matches!(Command::output::<EnableCommandOutput>(b"{"), Err(ServerError::Json)));
    assert!(matches!(Command::output::<EnableCommandOutput>(b""), Err(ServerError::Json)));
    let read = Command::output::<EnableCommandInput>(br#"{"enabled":false}"#).unwrap();
    assert_eq!(read, EnableCommandInput { enabled: false });
}

#[test]
fn the_peer_of_a_switch_is_told_by_method_zero() {
    let command = PostSwitchMethod::command(peer(), false).unwrap();
    assert_eq!(command.address().host, "10.0.0.7");
    let payload = br#"{"enabled":false}"#;
    let mut expected = vec![0u8, 0, 0, 0, payload.len() as u8, 0, 0, 0, 1, 0, 0, 0];
    expected.extend_from_slice(payload);
    assert_eq!(command.frame().unwrap(), expected);
    assert!(matches!(
        PostSwitchMethod::command(vec![], true),
        Err(ServerError::Logic(LogicError::CommandSocketAddressNotFound))
    ));
}
