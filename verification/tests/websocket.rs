use camera_tethering::camera::worker::CameraError;
use camera_tethering::websocket::connection::{
    socket_reader, socket_writer, tag, Front, Outgoing, OutgoingEvent,
    OutgoingRequest, SocketAction, SocketInput, WebsocketError, WriterInput,
};
use camera_tethering::websocket::scheme::{
    default_compression_level, CameraConfig, CameraDescriptor, CameraList, CameraStatus,
    ConfigSetting, ConfigValue, ConnectToCamera, Image, ImageInfo, ImageSource, MessageToClient,
    MessageToServer, PostProcessingConfig, SharedPostProcessingConfig, ValidConfigValues,
    WebSocketMsgType,
};

fn image(id: &str, data: Vec<u8>) -> Image {
    Image {
        id: id.to_string(),
        mime_type: "image/jpeg".to_string(),
        source: ImageSource::Capture,
        data,
    }
}

fn json_error() -> serde_json::Error {
    serde_json::from_str::<u8>("no number").unwrap_err()
}

/// Sends a message as long as all goes well. JSON texts are short stand-ins.
fn send_all(message: MessageToClient) -> Vec<Vec<u8>> {
    let mut sent = vec![];
    let mut outgoing = Outgoing::new(message);
    loop {
        let event = match outgoing.request() {
            OutgoingRequest::EncodeInfo(info) => {
                OutgoingEvent::Encoded(Ok(info.id.as_bytes().to_vec()))
            }
            OutgoingRequest::EncodeMessage(_) => OutgoingEvent::Encoded(Ok(b"message".to_vec())),
            OutgoingRequest::Send(bytes) => {
                sent.push(bytes.clone());
                OutgoingEvent::Sent(Ok(()))
            }
            OutgoingRequest::Finish(outcome) => {
                assert!(outcome.is_ok());
                return sent;
            }
        };
        assert!(outgoing.expects(&event));
        outgoing = outgoing.advance(event);
    }
}

#[test]
fn codes_of_message_types() {
    assert_eq!(u8::from(WebSocketMsgType::JSON), 10);
    assert_eq!(u8::from(WebSocketMsgType::BinaryImage), 20);
}

#[test]
fn the_first_byte_tells_the_type() {
    assert_eq!(tag(WebSocketMsgType::JSON, vec![123, 125]), vec![10, 123, 125]);
    assert_eq!(tag(WebSocketMsgType::BinaryImage, vec![]), vec![20]);
    assert_ne!(tag(WebSocketMsgType::JSON, vec![1]), tag(WebSocketMsgType::BinaryImage, vec![1]));
}

#[test]
fn an_image_goes_out_in_two_messages() {
    let sent = send_all(MessageToClient::Image(image("a", vec![7, 8])));
    assert_eq!(sent, vec![vec![10, b'a'], vec![20, 7, 8]]);
}

#[test]
fn the_last_image_of_a_list_goes_first() {
    let list = vec![image("a", vec![1]), image("b", vec![2]), image("c", vec![3])];
    let sent = send_all(MessageToClient::ImageList(list));
    assert_eq!(
        sent,
        vec![
            vec![10, b'c'],
            vec![20, 3],
            vec![10, b'b'],
            vec![20, 2],
            vec![10, b'a'],
            vec![20, 1],
        ]
    );
    assert!(send_all(MessageToClient::ImageList(vec![])).is_empty());
}

#[test]
fn any_other_message_goes_out_as_one() {
    let sent = send_all(MessageToClient::CaptureComplete);
    assert_eq!(sent, vec![b"\x0amessage".to_vec()]);
    let sent = send_all(MessageToClient::CameraError(CameraError::NotConnected));
    assert_eq!(sent.len(), 1);
}

#[test]
fn a_message_that_cannot_be_serialised_is_over() {
    let outgoing = Outgoing::new(MessageToClient::Image(image("a", vec![1])));
    let outgoing = outgoing.advance(OutgoingEvent::Encoded(Err(json_error())));
    assert!(matches!(
        outgoing.front,
        Front::Finished(Err(WebsocketError::SerializationError(_)))
    ));
    assert!(!outgoing.expects(&OutgoingEvent::Sent(Ok(()))));
    assert!(!outgoing.expects(&OutgoingEvent::Encoded(Ok(vec![]))));
}

#[test]
fn a_closed_websocket_ends_the_message() {
    let outgoing = Outgoing::new(MessageToClient::CaptureCancelled);
    assert!(!outgoing.expects(&OutgoingEvent::Sent(Ok(()))));
    let outgoing = outgoing.advance(OutgoingEvent::Encoded(Ok(vec![1])));
    let outgoing = outgoing.advance(OutgoingEvent::Sent(Err(axum::Error::new("closed"))));
    match outgoing.request() {
        OutgoingRequest::Finish(outcome) => {
            assert!(matches!(outcome, Err(WebsocketError::AxumError(_))));
        }
        _ => panic!("the message goes on"),
    }
}

#[test]
fn a_refused_message_is_the_last_that_is_offered() {
    let list = vec![image("a", vec![1]), image("b", vec![2])];
    let mut outgoing = Outgoing::new(MessageToClient::ImageList(list));
    let mut offered: Vec<Vec<u8>> = vec![];
    loop {
        let event = match outgoing.request() {
            OutgoingRequest::EncodeInfo(info) => {
                OutgoingEvent::Encoded(Ok(info.id.as_bytes().to_vec()))
            }
            OutgoingRequest::EncodeMessage(_) => panic!("there is no such part"),
            OutgoingRequest::Send(bytes) => {
                offered.push(bytes.clone());
                if offered.len() == 3 {
                    OutgoingEvent::Sent(Err(axum::Error::new("closed")))
                } else {
                    OutgoingEvent::Sent(Ok(()))
                }
            }
            OutgoingRequest::Finish(outcome) => {
                assert!(matches!(outcome, Err(WebsocketError::AxumError(_))));
                break;
            }
        };
        outgoing = outgoing.advance(event);
    }
    assert_eq!(offered, vec![vec![10, b'b'], vec![20, 2], vec![10, b'a']]);
}

#[test]
fn when_the_writing_goes_on() {
    assert!(socket_writer(&WriterInput::Sent(Ok(()))));
    assert!(socket_writer(&WriterInput::Sent(Err(WebsocketError::from(json_error())))));
    let closed = WebsocketError::from(axum::Error::new("closed"));
    assert!(!socket_writer(&WriterInput::Sent(Err(closed))));
    assert!(!socket_writer(&WriterInput::ReceiveFailed));
}

#[test]
fn what_counts_of_a_client() {
    assert_eq!(
        socket_reader(SocketInput::Parsed(MessageToServer::<u8>::Shutdown)),
        SocketAction::Deliver(MessageToServer::Shutdown)
    );
    for input in [SocketInput::<u8>::Unparsable, SocketInput::NotBinary, SocketInput::ReceiveFailed] {
        assert_eq!(socket_reader(input), SocketAction::Ignore);
    }
    assert_eq!(socket_reader(SocketInput::<u8>::Closed), SocketAction::Stop);
}

#[test]
fn a_new_image_has_a_fresh_id() {
    let one = Image::new(vec![1, 2], "image/png".to_string(), ImageSource::Preview);
    let other = Image::new(vec![1, 2], "image/png".to_string(), ImageSource::Preview);
    assert_ne!(one.id, other.id);
    assert_eq!(one.id.len(), 36);
    let chars: Vec<char> = one.id.chars().collect();
    for (i, c) in chars.iter().enumerate() {
        match i {
            8 | 13 | 18 | 23 => assert_eq!(*c, '-'),
            14 => assert_eq!(*c, '4'),
            19 => assert!("89ab".contains(*c)),
            _ => assert!("0123456789abcdef".contains(*c)),
        }
    }
    assert_eq!(one.mime_type, "image/png");
    assert_eq!(one.source, ImageSource::Preview);
    assert_eq!(one.data, vec![1, 2]);
}

#[test]
fn an_image_splits_into_what_is_known_and_its_data() {
    let (info, data) = image("x", vec![5]).split();
    assert_eq!(
        info,
        ImageInfo {
            id: "x".to_string(),
            mime_type: "image/jpeg".to_string(),
            source: ImageSource::Capture,
        }
    );
    assert_eq!(data, vec![5]);
}

#[test]
fn values_become_config_values() {
    assert_eq!(ConfigValue::from("a".to_string()), ConfigValue::Str("a".to_string()));
    assert_eq!(ConfigValue::from(true), ConfigValue::Bool(true));
    assert_eq!(ConfigValue::from(-3i64), ConfigValue::Int(-3));
}

#[test]
fn values_become_messages() {
    let status = CameraStatus::default();
    assert!(!status.connected);
    assert_eq!(status.port, None);
    assert_eq!(MessageToClient::from(status.clone()), MessageToClient::CameraStatus(status));
    let list = CameraList::from(vec![CameraDescriptor {
        model: "m".to_string(),
        port: "p".to_string(),
    }]);
    assert_eq!(list.cameras.len(), 1);
    let listed: Result<CameraList, CameraError> = Ok(list.clone());
    assert_eq!(MessageToClient::from(listed), MessageToClient::CameraList(list.clone()));
    assert_eq!(MessageToClient::from(list.clone()), MessageToClient::CameraList(list));
    let failed: Result<CameraList, CameraError> = Err(CameraError::NotConnected);
    assert_eq!(
        MessageToClient::from(failed),
        MessageToClient::CameraError(CameraError::NotConnected)
    );
    let config = CameraConfig::default();
    assert_eq!(MessageToClient::from(config.clone()), MessageToClient::CameraConfig(config));
    let one = image("a", vec![]);
    assert_eq!(MessageToClient::from(one.clone()), MessageToClient::Image(one.clone()));
    assert_eq!(MessageToClient::from(vec![one.clone()]), MessageToClient::ImageList(vec![one]));
}

#[test]
fn the_server_gets_no_transport_settings() {
    let step = "sharpen";
    let config = PostProcessingConfig {
        steps: vec![step],
        trigger_every_n_images: 4,
        compress: true,
        compression_level: default_compression_level(),
    };
    assert_eq!(config.compression_level, 1);
    assert_eq!(
        SharedPostProcessingConfig::from(config),
        SharedPostProcessingConfig { steps: vec![step], trigger_every_n_images: 4 }
    );
}

#[test]
fn no_camera_is_asked_for_by_default() {
    let config = ConnectToCamera::default();
    assert_eq!(config.port, None);
    assert_eq!(config.model, None);
}

#[test]
fn settings_are_kept_in_order_and_replaced() {
    let setting = |name: &str| ConfigSetting {
        name: name.to_string(),
        label: None,
        info: None,
        readonly: false,
        value: ConfigValue::ButtonPress,
        accepted_values: ValidConfigValues::ButtonPress,
    };
    let mut config = CameraConfig::default();
    for key in ["b", "a", "ba", "c", "", "Z", "\u{e9}"] {
        config.insert(key.to_string(), setting(key));
    }
    config.insert("b".to_string(), setting("new"));
    let keys: Vec<&str> = config.values.iter().map(|e| e.key.as_str()).collect();
    assert_eq!(keys, vec!["", "Z", "a", "b", "ba", "c", "\u{e9}"]);
    assert_eq!(config.values[3].setting, setting("new"));
}
