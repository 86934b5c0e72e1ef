use hex::FromHex;
use sensor_net::sensor_message::{ParameterValue, Reading, SensorMessage};
use serde_json::Value;

/// The value and unit of a parameter, the value as the float it stands for.
fn float_value(p: &ParameterValue) -> (f32, String) {
    let v = match p.value {
        Reading::Float32(bits) => f32::from_bits(bits),
        Reading::Int16(count) => count as f32,
        Reading::Number(ref n) => n.as_f64().unwrap() as f32,
    };
    (v, p.unit.clone())
}

#[test]
fn parse_type_3() {
    let s = "{\"type\": \"gateway-bl651-radio\",\"rssi\": -65,\"data\": \"03008477642fb9e155f6102805002e01000001ab60fd404050fce8ffb9fd3a00\"}";
    let msg: Value = serde_json::from_str(&String::from(s)).unwrap();
    let data = &Vec::from_hex(&msg["data"].as_str().unwrap()).unwrap();
    let rssi = msg["rssi"].as_i64().unwrap();
    let sen_msg = SensorMessage::parse(&format!("{}", rssi), data).unwrap();

    assert_eq!(sen_msg.message_type, "rfm");
    assert_eq!(sen_msg.rssi, "-65");
    assert_eq!(sen_msg.message.mcuId, "00052810-f655e1b92f647784");
    assert_eq!(sen_msg.message.index, 302);
    assert_eq!(sen_msg.message.measurements.len(), 1);
    assert_eq!(sen_msg.message.measurements[0].sensorId, "ab01");
    assert_eq!(sen_msg.message.measurements[0].parameters.len(), 6);
    let m = &sen_msg.message.measurements[0];
    assert_eq!(float_value(m.parameter("acceleration_x").unwrap()), (-672.0, String::from("au")));
    assert_eq!(float_value(m.parameter("acceleration_y").unwrap()), (16448.0, String::from("au")));
    assert_eq!(float_value(m.parameter("acceleration_z").unwrap()), (-944.0, String::from("au")));
    assert_eq!(float_value(m.parameter("magneticField_x").unwrap()), (-24.0, String::from("au")));
    assert_eq!(float_value(m.parameter("magneticField_y").unwrap()), (-583.0, String::from("au")));
    assert_eq!(float_value(m.parameter("magneticField_z").unwrap()), (58.0, String::from("au")));
}

#[test]
fn parse_type_5() {
    let input: Vec<u8> = vec![
        0x5, 0x0, 0x6, 0xf7, 0x7, 0x55, 0xb7, 0x45, 0xb2, 0x8e, 0x10, 0x28, 0x5, 0x0, 0x0, 0x0,
        0x0, 0x0, 0x1, 0x0, 0x0, 0x0, 0x2, 0x0, 0x3, 0x0, 0x4, 0x0, 0x5, 0x0, 0x0, 0x0, 0x6, 0x0,
        0x7, 0x0, 0x8, 0x0, 0xa8, 0x34, 0xbb, 0xf, 0xac, 0xe0, 0xd3, 0x41, 0x68, 0x60, 0x64, 0x42,
        0x0, 0x40, 0x6c, 0x3f,
    ];
    let _msg = SensorMessage::parse(&String::from("-10"), &input).unwrap();
}

#[test]
fn type_5_layout_has_four_measurements() {
    let input: Vec<u8> = vec![
        0x5, 0x0, 0x6, 0xf7, 0x7, 0x55, 0xb7, 0x45, 0xb2, 0x8e, 0x10, 0x28, 0x5, 0x0, 0x0, 0x0,
        0x0, 0x0, 0x1, 0x0, 0x0, 0x0, 0x2, 0x0, 0x3, 0x0, 0x4, 0x0, 0x5, 0x0, 0x0, 0x0, 0x6, 0x0,
        0x7, 0x0, 0x8, 0x0, 0xa8, 0x34, 0xbb, 0xf, 0xac, 0xe0, 0xd3, 0x41, 0x68, 0x60, 0x64, 0x42,
        0x0, 0x40, 0x6c, 0x3f,
    ];
    let msg = SensorMessage::parse_at(&String::from("-10"), &input, String::from("T")).unwrap();
    assert_eq!(msg.timestamp, "T");
    assert_eq!(msg.message.mcuId, "00052810-8eb245b75507f706");
    assert_eq!(msg.message.index, 0);
    let ms = &msg.message.measurements;
    assert_eq!(ms.len(), 4);
    assert_eq!(ms[0].sensorId, "0001");
    assert_eq!(float_value(ms[0].parameter("acceleration_x").unwrap()), (2.0, String::from("au")));
    assert_eq!(float_value(ms[0].parameter("acceleration_z").unwrap()), (4.0, String::from("au")));
    assert_eq!(ms[1].sensorId, "0005");
    assert_eq!(float_value(ms[1].parameter("magneticField_z").unwrap()), (8.0, String::from("au")));
    assert_eq!(ms[2].sensorId, "fbb34a8");
    assert_eq!(ms[2].parameters.len(), 2);
    assert_eq!(ms[2].parameter("temperature").unwrap().unit, "\u{b0}C");
    assert_eq!(ms[3].sensorId, "0000");
    assert_eq!(ms[3].parameters.len(), 1);
    assert_eq!(ms[3].parameter("batteryVoltage").unwrap().unit, "V");
    assert_eq!(ms[3].parameter("batteryVoltage").unwrap().value, Reading::Float32(0x3f6c4000));
    let copy = ms[3].parameter("batteryVoltage").unwrap().clone();
    assert_eq!(copy.unit, "V");
}

#[test]
fn type_2_layout() {
    let mut data: Vec<u8> = vec![0; 32];
    data[0] = 2;
    data[2] = 0x34;
    data[3] = 0x12;
    data[4] = 1;
    data[8] = 0xff;
    data[12] = 0x10;
    data[15] = 0xa0;
    data[16] = 7;
    data[20..24].copy_from_slice(&21.5f32.to_le_bytes());
    data[24..28].copy_from_slice(&40.0f32.to_le_bytes());
    data[28..32].copy_from_slice(&1013.25f32.to_le_bytes());
    let msg = SensorMessage::parse_at(&String::from("-70"), &data, String::from("now")).unwrap();
    assert_eq!(msg.message.mcuId, "00000001-000000ff-a0000010");
    assert_eq!(msg.message.index, 7);
    let m = &msg.message.measurements[0];
    assert_eq!(m.sensorId, "1234");
    assert_eq!(m.parameters.len(), 3);
    assert_eq!(float_value(m.parameter("temperature").unwrap()), (21.5, String::from("\u{b0}C")));
    assert_eq!(float_value(m.parameter("relativeHumidity").unwrap()), (40.0, String::from("%")));
    assert_eq!(float_value(m.parameter("pressure").unwrap()), (1013.25, String::from("mbar")));
    assert!(m.parameter("acceleration_x").is_none());
}

#[test]
fn type_4_layout() {
    let mut data: Vec<u8> = vec![0; 28];
    data[0] = 4;
    data[18] = 0xcd;
    data[19] = 0xab;
    data[14] = 1;
    data[20..24].copy_from_slice(&(-3.5f32).to_le_bytes());
    data[24..28].copy_from_slice(&55.0f32.to_le_bytes());
    let msg = SensorMessage::parse_at(&String::from("0"), &data, String::from("t")).unwrap();
    assert_eq!(msg.message.mcuId, "00000000-0000000000000000");
    assert_eq!(msg.message.index, 1);
    let m = &msg.message.measurements[0];
    assert_eq!(m.sensorId, "abcd");
    assert_eq!(float_value(m.parameter("temperature").unwrap()), (-3.5, String::from("\u{b0}C")));
    assert_eq!(float_value(m.parameter("relativeHumidity").unwrap()), (55.0, String::from("%")));
}

#[test]
fn unknown_packet_type_is_an_error() {
    let data: Vec<u8> = vec![9, 0, 1, 2, 3];
    let err = SensorMessage::parse(&String::from("-1"), &data).unwrap_err();
    assert_eq!(err.description, "unsupported message type");
    assert_eq!(err.to_text(), "MessageError: unsupported message type");
    let data: Vec<u8> = vec![0, 2];
    assert!(SensorMessage::parse(&String::from("-1"), &data).is_err());
}

