use openssl::symm::{encrypt, Cipher};
use sensor_net::gateway::{
    decode_payload, is_processable, process_message_at, process_notification, read_notification, GatewayMessage,
    MiddlewareError,
};
use sensor_net::payload::{decode_hex, HexError};
use sensor_net::sensor_message::Reading;

const TYPE_3: &str = "03008477642fb9e155f6102805002e01000001ab60fd404050fce8ffb9fd3a00";

fn empty() -> GatewayMessage {
    GatewayMessage {
        message_type: None,
        data: None,
        rssi_text: None,
        rssi_number: None,
        mcu_id: None,
        index: None,
        sensor_id: None,
        temperature: None,
        humidity: None,
    }
}

fn number(x: f64) -> serde_json::Number {
    serde_json::Number::from_f64(x).unwrap()
}

#[test]
fn hex_decoding() {
    assert_eq!(decode_hex("0aFf").unwrap(), vec![0x0a, 0xff]);
    assert_eq!(decode_hex("").unwrap(), Vec::<u8>::new());
    assert_eq!(decode_hex("abc").unwrap_err(), HexError::OddLength);
    assert_eq!(decode_hex("0g").unwrap_err(), HexError::InvalidHexCharacter { c: 'g', index: 1 });
    assert_eq!(decode_hex("x0zz").unwrap_err(), HexError::InvalidHexCharacter { c: 'x', index: 0 });
}

#[test]
fn reading_a_notification() {
    let text = "{\"type\": \"gateway-bl651-radio\",\"rssi\": -65,\"data\": \"0a\",\"message\":{\"mcuId\":\"m\",\"index\":3,\"sensorId\":\"s\",\"temperature\":21.5,\"humidity\":40}}";
    let m = read_notification(text).unwrap();
    assert_eq!(m.message_type.as_deref(), Some("gateway-bl651-radio"));
    assert_eq!(m.rssi_number, Some(-65));
    assert_eq!(m.rssi_text, None);
    assert_eq!(m.data.as_deref(), Some("0a"));
    assert_eq!(m.mcu_id.as_deref(), Some("m"));
    assert_eq!(m.index, Some(3));
    assert_eq!(m.sensor_id.as_deref(), Some("s"));
    assert_eq!(m.temperature.unwrap().as_f64(), Some(21.5));
    assert_eq!(m.humidity.unwrap().as_f64(), Some(40.0));
    let odd = read_notification("{\"type\": 5, \"rssi\": \"-3\"}").unwrap();
    assert_eq!(odd.message_type, None);
    assert_eq!(odd.rssi_text.as_deref(), Some("-3"));
    assert_eq!(odd.rssi_number, None);
    assert!(read_notification("not json").is_err());
}

#[test]
fn plain_radio_notification() {
    let mut msg = empty();
    msg.message_type = Some(String::from("gateway-bl651-radio"));
    msg.rssi_number = Some(-65);
    msg.data = Some(String::from(TYPE_3));
    assert!(is_processable(&msg, &vec![]));
    let m = process_message_at(&msg, &vec![], Some(String::from("ts"))).unwrap();
    assert_eq!(m.rssi, "-65");
    assert_eq!(m.message_type, "rfm");
    assert_eq!(m.timestamp, "ts");
    assert_eq!(m.message.mcuId, "00052810-f655e1b92f647784");
    assert_eq!(m.message.measurements[0].parameter("magneticField_z").unwrap().value, Reading::Int16(58));
}

#[test]
fn notification_text_end_to_end() {
    let text = format!("{{\"type\": \"gateway-bl651-radio\",\"rssi\": -65,\"data\": \"{}\"}}", TYPE_3);
    let m = process_notification(&text, &vec![]).unwrap().unwrap();
    assert_eq!(m.rssi, "-65");
    assert_eq!(m.message.index, 302);
    assert_eq!(m.timestamp.len(), 24);
    assert!(m.timestamp.ends_with('Z'));
    assert!(matches!(process_notification("{", &vec![]), Some(Err(MiddlewareError::Json(_)))));
    assert!(process_notification("{\"type\":\"gateway-bl651-radio\"}", &vec![]).is_none());
    let unknown = process_notification("{\"type\":\"x\",\"data\":\"zz\"}", &vec![]).unwrap().unwrap_err();
    assert_eq!(unknown.to_text(), "MiddlewareError: unknown message type");
}

#[test]
fn encrypted_radio_notification() {
    let key: Vec<u8> = (1..=16).collect();
    let plain = hex::decode(TYPE_3).unwrap();
    let cipher = encrypt(Cipher::aes_128_ecb(), &key, None, &plain).unwrap();
    let mut msg = empty();
    msg.message_type = Some(String::from("rfm"));
    msg.rssi_text = Some(String::from("-71"));
    msg.data = Some(hex::encode(&cipher));
    assert!(is_processable(&msg, &key));
    let m = process_message_at(&msg, &key, Some(String::from("ts"))).unwrap();
    assert_eq!(m.rssi, "-71");
    assert_eq!(m.message.index, 302);
    assert_eq!(m.message.measurements[0].sensorId, "ab01");
    let wrong_key: Vec<u8> = vec![0; 16];
    match process_message_at(&msg, &wrong_key, Some(String::from("ts"))) {
        Err(MiddlewareError::Decryption(_)) | Err(MiddlewareError::PacketTooShort) | Err(MiddlewareError::Message(_)) => {}
        other => panic!("unexpected {:?}", other.map(|m| m.message.mcuId)),
    }
}

#[test]
fn sensor_notification() {
    let mut msg = empty();
    msg.message_type = Some(String::from("gateway-bl651-sensor"));
    msg.mcu_id = Some(String::from("gw-1"));
    msg.index = Some(0x1_0000_0005);
    msg.sensor_id = Some(String::from("s7"));
    msg.temperature = Some(number(21.25));
    msg.humidity = Some(number(48.5));
    assert!(is_processable(&msg, &vec![]));
    let m = process_message_at(&msg, &vec![], Some(String::from("ts"))).unwrap();
    assert_eq!(m.rssi, "0");
    assert_eq!(m.message_type, "rfm");
    assert_eq!(m.message.mcuId, "gw-1");
    assert_eq!(m.message.index, 5);
    let ms = &m.message.measurements;
    assert_eq!(ms.len(), 1);
    assert_eq!(ms[0].sensorId, "s7");
    assert_eq!(ms[0].parameter("temperature").unwrap().value, Reading::Number(number(21.25)));
    assert_eq!(ms[0].parameter("relativeHumidity").unwrap().unit, "%");
}

#[test]
fn errors_and_missing_fields() {
    let mut msg = empty();
    assert!(is_processable(&msg, &vec![]));
    assert!(matches!(process_message_at(&msg, &vec![], Some(String::new())), Err(MiddlewareError::UnknownMessageType)));
    msg.message_type = Some(String::from("other"));
    assert!(matches!(process_message_at(&msg, &vec![], Some(String::new())), Err(MiddlewareError::UnknownMessageType)));

    msg.message_type = Some(String::from("gateway-bl651-radio"));
    assert!(!is_processable(&msg, &vec![]));
    msg.rssi_number = Some(1);
    msg.data = Some(String::from("0900"));
    let unsupported = process_message_at(&msg, &vec![], Some(String::new())).unwrap_err();
    assert_eq!(unsupported.to_text(), "MessageError: unsupported message type");
    msg.data = Some(String::from("0300ff"));
    assert!(matches!(process_message_at(&msg, &vec![], Some(String::new())), Err(MiddlewareError::PacketTooShort)));
    msg.data = Some(String::from("03z"));
    let odd = process_message_at(&msg, &vec![], Some(String::new())).unwrap_err();
    assert!(matches!(odd, MiddlewareError::Hex(HexError::OddLength)));
    assert_eq!(odd.to_text(), "Odd number of digits");

    let mut enc = empty();
    enc.message_type = Some(String::from("rfm"));
    assert!(!is_processable(&enc, &vec![]));
    enc.data = Some(String::from("zz"));
    assert!(is_processable(&enc, &vec![]));
    let bad = process_message_at(&enc, &vec![], Some(String::new())).unwrap_err();
    assert!(matches!(bad, MiddlewareError::Hex(HexError::InvalidHexCharacter { c: 'z', index: 0 })));
    assert_eq!(bad.to_text(), "Invalid character 'z' at position 0");
    enc.data = Some(String::from("00"));
    assert!(!is_processable(&enc, &vec![]));

    let mut sensor = empty();
    sensor.message_type = Some(String::from("gateway-bl651-sensor"));
    sensor.mcu_id = Some(String::from("m"));
    assert!(!is_processable(&sensor, &vec![]));
}

#[test]
fn short_packets_are_reported() {
    assert!(matches!(decode_payload(&String::from("1"), &vec![3], Some(String::new())), Err(MiddlewareError::PacketTooShort)));
    assert!(matches!(decode_payload(&String::from("1"), &vec![5, 0, 0], Some(String::new())), Err(MiddlewareError::PacketTooShort)));
    assert!(matches!(decode_payload(&String::from("1"), &vec![7, 0], Some(String::new())), Err(MiddlewareError::Message(_))));
}

#[test]
fn an_unreadable_clock_is_reported() {
    assert!(matches!(decode_payload(&String::from("1"), &hex::decode(TYPE_3).unwrap(), None), Err(MiddlewareError::Clock)));
    assert!(matches!(decode_payload(&String::from("1"), &vec![7, 0], None), Err(MiddlewareError::Message(_))));
    assert!(matches!(decode_payload(&String::from("1"), &vec![3], None), Err(MiddlewareError::PacketTooShort)));
    let mut msg = empty();
    msg.message_type = Some(String::from("gateway-bl651-sensor"));
    msg.mcu_id = Some(String::from("m"));
    msg.index = Some(1);
    msg.sensor_id = Some(String::from("s"));
    msg.temperature = Some(number(1.0));
    msg.humidity = Some(number(2.0));
    let e = process_message_at(&msg, &vec![], None).unwrap_err();
    assert_eq!(e.to_text(), "MiddlewareError: system clock unavailable");
}
