//! Turning a gateway notification into a sensor message.
//!
//! A notification names its kind. `rfm` carries an AES-128-ECB encrypted
//! radio packet in hexadecimal and the signal strength as text;
//! `gateway-bl651-radio` carries a plain radio packet in hexadecimal and the
//! signal strength as a number; `gateway-bl651-sensor` carries the readings
//! of the gateway's own sensor as separate fields.
use vstd::prelude::*;
use vstd::utf8::encode_utf8;
use crate::le_bytes::read_u16_le;
use crate::num_format::{decimal_text, format_decimal, dec_digits, format_unsigned};
use crate::payload::{HexError, hex_decode, decode_hex, aes_128_ecb_decryption, aes_128_ecb_decrypt};
use crate::sensor_message::{
    SensorMessage, SensorMessageError, SensorMessageView, Message, MessageView, Measurement,
    MeasurementView, ParameterValue, ParameterValueView, Reading, decode_packet, packet_fits,
    packet_type, layout_len, celsius, is_known_type, names_distinct, has_parameter,
};
use crate::text::{owned, append_str};
use crate::clock::{now_rfc3339_millis, is_clock_text};
use crate::json::json_error_text;

verus! {

/// The fields of a gateway notification that the middleware reads; a field
/// is `None` where the notification lacks it or holds a value of another kind.
#[derive(Debug)]
pub struct GatewayMessage {
    /// `type`, when it is a string.
    pub message_type: Option<String>,
    /// `data`, when it is a string: the packet in hexadecimal.
    pub data: Option<String>,
    /// `rssi`, when it is a string.
    pub rssi_text: Option<String>,
    /// `rssi`, when it is an integer that fits an `i64`.
    pub rssi_number: Option<i64>,
    /// `message.mcuId`, when it is a string.
    pub mcu_id: Option<String>,
    /// `message.index`, when it is an integer that fits a `u64`.
    pub index: Option<u64>,
    /// `message.sensorId`, when it is a string.
    pub sensor_id: Option<String>,
    /// `message.temperature`, when it is a number.
    pub temperature: Option<serde_json::Number>,
    /// `message.humidity`, when it is a number.
    pub humidity: Option<serde_json::Number>,
}

/// The mathematical value of a [`GatewayMessage`].
pub struct GatewayMessageView {
    pub message_type: Option<Seq<char>>,
    pub data: Option<Seq<char>>,
    pub rssi_text: Option<Seq<char>>,
    pub rssi_number: Option<i64>,
    pub mcu_id: Option<Seq<char>>,
    pub index: Option<u64>,
    pub sensor_id: Option<Seq<char>>,
    pub temperature: Option<serde_json::Number>,
    pub humidity: Option<serde_json::Number>,
}

/// The view of an optional string.
pub open spec fn text_view(s: Option<String>) -> Option<Seq<char>> {
    match s {
        Some(t) => Some(t@),
        None => None,
    }
}

impl View for GatewayMessage {
    type V = GatewayMessageView;

    open spec fn view(&self) -> GatewayMessageView {
        GatewayMessageView {
            message_type: text_view(self.message_type),
            data: text_view(self.data),
            rssi_text: text_view(self.rssi_text),
            rssi_number: self.rssi_number,
            mcu_id: text_view(self.mcu_id),
            index: self.index,
            sensor_id: text_view(self.sensor_id),
            temperature: self.temperature,
            humidity: self.humidity,
        }
    }
}

/// Why a notification gives no sensor message.
#[derive(Debug)]
pub enum MiddlewareError {
    /// The notification is not JSON.
    Json(serde_json::Error),
    /// The packet text is not hexadecimal.
    Hex(HexError),
    /// OpenSSL could not decrypt the packet.
    Decryption(openssl::error::ErrorStack),
    /// The packet's type is not known.
    Message(SensorMessageError),
    /// The packet is shorter than the layout of its type.
    PacketTooShort,
    /// The notification's kind is not known.
    UnknownMessageType,
    /// The system clock could not be read for the message's timestamp.
    Clock,
}

/// The fields of the JSON text `text` of a notification, or `None` where
/// the text is not JSON.
pub uninterp spec fn notification_fields(text: Seq<char>) -> Option<GatewayMessageView>;

/// Reads the fields of a notification from its JSON text.
///
/// Trusted: calls `serde_json::from_str` into a `serde_json::Value`, then
/// picks each field with `Index` and `as_str`, `as_i64`, `as_u64` or
/// `as_number`. What comes back is a function of the text alone, named
/// [`notification_fields`]; a text that is not JSON gives serde_json's error.
#[verifier::external_body]
pub fn read_notification(text: &str) -> (r: Result<GatewayMessage, serde_json::Error>)
    ensures
        match notification_fields(text@) {
            Some(v) => r matches Ok(m) && m@ == v,
            None => r is Err,
        },
{
    let v: serde_json::Value = serde_json::from_str(text)?;
    let m = &v["message"];
    Ok(GatewayMessage {
        message_type: v["type"].as_str().map(String::from),
        data: v["data"].as_str().map(String::from),
        rssi_text: v["rssi"].as_str().map(String::from),
        rssi_number: v["rssi"].as_i64(),
        mcu_id: m["mcuId"].as_str().map(String::from),
        index: m["index"].as_u64(),
        sensor_id: m["sensorId"].as_str().map(String::from),
        temperature: m["temperature"].as_number().cloned(),
        humidity: m["humidity"].as_number().cloned(),
    })
}

/// The UTF-8 bytes of a text.
pub open spec fn text_bytes(s: Seq<char>) -> Seq<u8> {
    encode_utf8(s)
}

/// Whether the notification's kind is `kind`.
pub open spec fn has_kind(msg: GatewayMessageView, kind: Seq<char>) -> bool {
    msg.message_type == Some(kind)
}

/// Whether every field that the notification's kind reads is there, in the
/// order in which they are read: an `rfm` notification whose packet text is
/// not hexadecimal fails before its signal strength is read.
pub open spec fn fields_present(msg: GatewayMessageView) -> bool {
    &&& has_kind(msg, "rfm"@) ==> msg.data is Some && (hex_decode(text_bytes(msg.data->0)) is Ok
        ==> msg.rssi_text is Some)
    &&& has_kind(msg, "gateway-bl651-radio"@) ==> msg.rssi_number is Some && msg.data is Some
    &&& has_kind(msg, "gateway-bl651-sensor"@) ==> {
        &&& msg.mcu_id is Some
        &&& msg.index is Some
        &&& msg.sensor_id is Some
        &&& msg.temperature is Some
        &&& msg.humidity is Some
    }
}

/// Whether OpenSSL takes the key and the ciphertext of an `rfm`
/// notification: each is at most `i32::MAX` bytes long.
pub open spec fn within_cipher_limits(msg: GatewayMessageView, key: Seq<u8>) -> bool {
    has_kind(msg, "rfm"@) ==> match hex_decode(text_bytes(msg.data->0)) {
        Ok(ciphertext) => key.len() <= i32::MAX && ciphertext.len() <= i32::MAX,
        Err(_) => true,
    }
}

/// Whether a notification is handled to the end under the key `key`: every
/// field its kind reads is there, and OpenSSL takes the key and ciphertext.
pub open spec fn processable(msg: GatewayMessageView, key: Seq<u8>) -> bool {
    fields_present(msg) && within_cipher_limits(msg, key)
}

/// What a packet received with signal strength `rssi` gives, with the
/// timestamp `timestamp` (`None` where the clock could not be read): a decoded
/// message, or the error of a short packet, of an unknown packet type, or of
/// the clock.
pub open spec fn packet_outcome(
    rssi: Seq<char>,
    data: Seq<u8>,
    timestamp: Option<Seq<char>>,
    r: Result<SensorMessage, MiddlewareError>,
) -> bool {
    if !packet_fits(data) {
        r matches Err(MiddlewareError::PacketTooShort)
    } else if !is_known_type(packet_type(data)) {
        r matches Err(MiddlewareError::Message(e)) && e.description@ == "unsupported message type"@
    } else {
        match timestamp {
            Some(t) => r matches Ok(m) && Some(m@) == decode_packet(rssi, data, t),
            None => r matches Err(MiddlewareError::Clock),
        }
    }
}

/// The message that a `gateway-bl651-sensor` notification gives.
pub open spec fn sensor_report(msg: GatewayMessageView, timestamp: Seq<char>) -> SensorMessageView {
    SensorMessageView {
        message_type: "rfm"@,
        rssi: "0"@,
        timestamp,
        message: MessageView {
            mcu_id: msg.mcu_id->0,
            index: (msg.index->0) as u32,
            measurements: seq![
                MeasurementView {
                    sensor_id: msg.sensor_id->0,
                    parameters: seq![
                        ("temperature"@, ParameterValueView { value: Reading::Number(msg.temperature->0), unit: celsius() }),
                        ("relativeHumidity"@, ParameterValueView { value: Reading::Number(msg.humidity->0), unit: "%"@ }),
                    ],
                },
            ],
        },
    }
}

/// The report of a gateway's own sensor has one measurement, and no two of
/// its parameters share a name.
pub proof fn law_sensor_report_names_distinct(msg: GatewayMessageView, timestamp: Seq<char>)
    ensures
        sensor_report(msg, timestamp).message.measurements.len() == 1,
        names_distinct(sensor_report(msg, timestamp).message.measurements[0]),
{
    reveal_strlit("temperature");
    reveal_strlit("relativeHumidity");
    assert("temperature"@.len() != "relativeHumidity"@.len());
}

/// The report of a gateway's own sensor is a radio message with signal
/// strength 0 and the given timestamp that carries the notification's
/// fields: its microcontroller id, its index (the low 32 bits), and one
/// measurement of its sensor whose temperature is the notification's
/// temperature in degrees Celsius and whose relative humidity is the
/// notification's humidity in percent.
pub proof fn law_sensor_report_fields(msg: GatewayMessageView, timestamp: Seq<char>)
    requires
        msg.mcu_id is Some,
        msg.index is Some,
        msg.sensor_id is Some,
        msg.temperature is Some,
        msg.humidity is Some,
    ensures
        ({
            let v = sensor_report(msg, timestamp);
            let m = v.message.measurements[0];
            &&& v.message_type == "rfm"@
            &&& v.rssi == "0"@
            &&& v.timestamp == timestamp
            &&& v.message.mcu_id == msg.mcu_id->0
            &&& v.message.index as int == (msg.index->0) as int % 0x1_0000_0000
            &&& v.message.measurements.len() == 1
            &&& m.sensor_id == msg.sensor_id->0
            &&& m.parameters.len() == 2
            &&& has_parameter(m, "temperature"@, Reading::Number(msg.temperature->0), "\u{b0}C"@)
            &&& has_parameter(m, "relativeHumidity"@, Reading::Number(msg.humidity->0), "%"@)
        }),
{
    let m = sensor_report(msg, timestamp).message.measurements[0];
    let x = msg.index->0;
    assert((x as u32) as int == (x as int) % 0x1_0000_0000) by (bit_vector);
    assert(m.parameters[0] == ("temperature"@, ParameterValueView { value: Reading::Number(msg.temperature->0), unit: "\u{b0}C"@ }));
    assert(m.parameters[1] == ("relativeHumidity"@, ParameterValueView { value: Reading::Number(msg.humidity->0), unit: "%"@ }));
}

/// What a notification gives under the decryption key `key`, with the
/// timestamp `timestamp` (`None` where the clock could not be read).
pub open spec fn gateway_outcome(
    msg: GatewayMessageView,
    key: Seq<u8>,
    timestamp: Option<Seq<char>>,
    r: Result<SensorMessage, MiddlewareError>,
) -> bool {
    if has_kind(msg, "rfm"@) {
        match hex_decode(text_bytes(msg.data->0)) {
            Err(e) => r matches Err(MiddlewareError::Hex(e2)) && e2 == e,
            Ok(ciphertext) => match aes_128_ecb_decryption(key, ciphertext) {
                None => r matches Err(MiddlewareError::Decryption(_)),
                Some(plaintext) => packet_outcome(msg.rssi_text->0, plaintext, timestamp, r),
            },
        }
    } else if has_kind(msg, "gateway-bl651-radio"@) {
        match hex_decode(text_bytes(msg.data->0)) {
            Err(e) => r matches Err(MiddlewareError::Hex(e2)) && e2 == e,
            Ok(bytes) => packet_outcome(decimal_text((msg.rssi_number->0) as int), bytes, timestamp, r),
        }
    } else if has_kind(msg, "gateway-bl651-sensor"@) {
        match timestamp {
            Some(t) => r matches Ok(m) && m@ == sensor_report(msg, t),
            None => r matches Err(MiddlewareError::Clock),
        }
    } else {
        r matches Err(MiddlewareError::UnknownMessageType)
    }
}

/// The clock texts that a message may carry: `None`, or the text of an
/// instant the clock can report.
pub open spec fn is_clock_reading(timestamp: Option<Seq<char>>) -> bool {
    timestamp matches Some(t) ==> is_clock_text(t)
}

/// The text of a hex decoding error, as the `hex` crate displays it.
pub open spec fn hex_error_message(e: HexError) -> Seq<char> {
    match e {
        HexError::InvalidHexCharacter { c, index } => "Invalid character "@ + char_debug_text(c)
            + " at position "@ + dec_digits(index as nat),
        HexError::OddLength => "Odd number of digits"@,
        HexError::InvalidStringLength => "Invalid string length"@,
    }
}

/// The kinds of notification.
enum Kind {
    Encrypted,
    Plain,
    Sensor,
    Unknown,
}

fn text_is(s: &String, lit: &str) -> (r: bool)
    ensures
        r == (s@ == lit@),
{
    *s == owned(lit)
}

fn kind_of(msg: &GatewayMessage) -> (k: Kind)
    ensures
        k is Encrypted <==> has_kind(msg@, "rfm"@),
        k is Plain <==> has_kind(msg@, "gateway-bl651-radio"@),
        k is Sensor <==> has_kind(msg@, "gateway-bl651-sensor"@),
{
    proof {
        reveal_strlit("rfm");
        reveal_strlit("gateway-bl651-radio");
        reveal_strlit("gateway-bl651-sensor");
        assert("rfm"@.len() == 3);
        assert("gateway-bl651-radio"@.len() == 19);
        assert("gateway-bl651-sensor"@.len() == 20);
        assert("gateway-bl651-radio"@[14] != "gateway-bl651-sensor"@[14]);
    }
    match &msg.message_type {
        Some(t) => {
            if text_is(t, "rfm") {
                Kind::Encrypted
            } else if text_is(t, "gateway-bl651-radio") {
                Kind::Plain
            } else if text_is(t, "gateway-bl651-sensor") {
                Kind::Sensor
            } else {
                Kind::Unknown
            }
        },
        None => Kind::Unknown,
    }
}

fn packet_fits_exec(data: &Vec<u8>) -> (r: bool)
    ensures
        r == packet_fits(data@),
{
    if data.len() < 2 {
        return false;
    }
    let t = read_u16_le(data, 0);
    let needed: usize = if t == 2 {
        32
    } else if t == 3 {
        32
    } else if t == 4 {
        28
    } else if t == 5 {
        54
    } else {
        2
    };
    assert(needed == layout_len(packet_type(data@)));
    data.len() >= needed
}

/// Decodes a packet received with signal strength `rssi`, stamped with
/// `timestamp` (`None` where the clock could not be read), after checking that
/// it holds every field of its layout.
pub fn decode_payload(rssi: &String, data: &Vec<u8>, timestamp: Option<String>) -> (r: Result<SensorMessage, MiddlewareError>)
    ensures
        packet_outcome(rssi@, data@, text_view(timestamp), r),
{
    if !packet_fits_exec(data) {
        return Err(MiddlewareError::PacketTooShort);
    }
    let t = read_u16_le(data, 0);
    if t < 2 || t > 5 {
        return Err(MiddlewareError::Message(SensorMessageError { description: owned("unsupported message type") }));
    }
    match timestamp {
        Some(ts) => match SensorMessage::parse_at(rssi, data, ts) {
            Ok(m) => Ok(m),
            Err(e) => Err(MiddlewareError::Message(e)),
        },
        None => Err(MiddlewareError::Clock),
    }
}

/// Whether the notification is handled to the end under `key`: every field
/// its kind reads is there, and OpenSSL takes the key and the ciphertext.
pub fn is_processable(msg: &GatewayMessage, key: &Vec<u8>) -> (r: bool)
    ensures
        r == processable(msg@, key@),
{
    match kind_of(msg) {
        Kind::Encrypted => match &msg.data {
            None => false,
            Some(text) => match decode_hex(text.as_str()) {
                Ok(ciphertext) => msg.rssi_text.is_some() && key.len() <= 0x7fff_ffff
                    && ciphertext.len() <= 0x7fff_ffff,
                Err(_) => true,
            },
        },
        Kind::Plain => msg.rssi_number.is_some() && msg.data.is_some(),
        Kind::Sensor => msg.mcu_id.is_some() && msg.index.is_some() && msg.sensor_id.is_some()
            && msg.temperature.is_some() && msg.humidity.is_some(),
        Kind::Unknown => true,
    }
}

fn sensor_message_of(msg: &GatewayMessage, timestamp: String) -> (r: SensorMessage)
    requires
        has_kind(msg@, "gateway-bl651-sensor"@),
        fields_present(msg@),
    ensures
        r@ == sensor_report(msg@, timestamp@),
{
    let mcu_id = msg.mcu_id.as_ref().unwrap().clone();
    let index = *msg.index.as_ref().unwrap();
    let sensor_id = msg.sensor_id.as_ref().unwrap().clone();
    let temperature = msg.temperature.as_ref().unwrap().clone();
    let humidity = msg.humidity.as_ref().unwrap().clone();
    let parameters = vec![
        (owned("temperature"), ParameterValue { value: Reading::Number(temperature), unit: owned("\u{b0}C") }),
        (owned("relativeHumidity"), ParameterValue { value: Reading::Number(humidity), unit: owned("%") }),
    ];
    let measurements = vec![Measurement { sensorId: sensor_id, parameters }];
    let r = SensorMessage {
        message_type: owned("rfm"),
        rssi: owned("0"),
        timestamp,
        message: Message { mcuId: mcu_id, index: index as u32, measurements },
    };
    assert(r@.message.measurements[0].parameters =~= sensor_report(msg@, timestamp@).message.measurements[0].parameters);
    assert(r@.message.measurements =~= sensor_report(msg@, timestamp@).message.measurements);
    r
}

/// Turns a notification into a sensor message stamped with `timestamp`
/// (`None` where the clock could not be read), decrypting `rfm` packets with
/// `key`.
pub fn process_message_at(msg: &GatewayMessage, key: &Vec<u8>, timestamp: Option<String>) -> (r: Result<SensorMessage, MiddlewareError>)
    requires
        processable(msg@, key@),
    ensures
        gateway_outcome(msg@, key@, text_view(timestamp), r),
{
    match kind_of(msg) {
        Kind::Encrypted => {
            let text = msg.data.as_ref().unwrap();
            let ciphertext = match decode_hex(text.as_str()) {
                Ok(bytes) => bytes,
                Err(e) => return Err(MiddlewareError::Hex(e)),
            };
            let rssi = msg.rssi_text.as_ref().unwrap().clone();
            let plaintext = match aes_128_ecb_decrypt(key.as_slice(), ciphertext.as_slice()) {
                Ok(p) => p,
                Err(e) => return Err(MiddlewareError::Decryption(e)),
            };
            decode_payload(&rssi, &plaintext, timestamp)
        },
        Kind::Plain => {
            let rssi = format_decimal(*msg.rssi_number.as_ref().unwrap());
            let text = msg.data.as_ref().unwrap();
            let bytes = match decode_hex(text.as_str()) {
                Ok(bytes) => bytes,
                Err(e) => return Err(MiddlewareError::Hex(e)),
            };
            decode_payload(&rssi, &bytes, timestamp)
        },
        Kind::Sensor => match timestamp {
            Some(ts) => Ok(sensor_message_of(msg, ts)),
            None => Err(MiddlewareError::Clock),
        },
        Kind::Unknown => Err(MiddlewareError::UnknownMessageType),
    }
}

/// Turns a notification into a sensor message stamped with the current UTC
/// time, decrypting `rfm` packets with `key`.
pub fn process_message(msg: &GatewayMessage, key: &Vec<u8>) -> (r: Result<SensorMessage, MiddlewareError>)
    requires
        processable(msg@, key@),
    ensures
        exists|timestamp: Option<Seq<char>>| is_clock_reading(timestamp) && #[trigger] gateway_outcome(msg@, key@, timestamp, r),
{
    let timestamp = now_rfc3339_millis();
    let ghost t = text_view(timestamp);
    let r = process_message_at(msg, key, timestamp);
    assert(gateway_outcome(msg@, key@, t, r));
    r
}

/// Turns the JSON text of a notification into a sensor message stamped with
/// the current UTC time, decrypting `rfm` packets with `key`. Text that is not
/// JSON gives serde_json's error; `None` where the notification lacks a field
/// its kind reads or OpenSSL would not take the key or the ciphertext.
pub fn process_notification(text: &str, key: &Vec<u8>) -> (r: Option<Result<SensorMessage, MiddlewareError>>)
    ensures
        match notification_fields(text@) {
            None => r matches Some(Err(MiddlewareError::Json(_))),
            Some(msg) => if processable(msg, key@) {
                r matches Some(res) && exists|timestamp: Option<Seq<char>>| is_clock_reading(timestamp)
                    && #[trigger] gateway_outcome(msg, key@, timestamp, res)
            } else {
                r is None
            },
        },
{
    let msg = match read_notification(text) {
        Ok(m) => m,
        Err(e) => return Some(Err(MiddlewareError::Json(e))),
    };
    if !is_processable(&msg, key) {
        return None;
    }
    Some(process_message(&msg, key))
}

/// The debug text of a character, as `format!("{:?}", c)` writes it.
pub uninterp spec fn char_debug_text(c: char) -> Seq<char>;

/// Writes a character as its debug text.
///
/// Trusted: calls `Debug` of `char` (through `format!`), which writes the
/// character quoted and escaped; the text is a function of the character
/// alone, named [`char_debug_text`].
#[verifier::external_body]
fn char_debug(c: char) -> (r: String)
    ensures
        r@ == char_debug_text(c),
{
    format!("{:?}", c)
}

/// The text of an OpenSSL error stack.
///
/// Trusted: calls `Display` of `openssl::error::ErrorStack` (through
/// `format!`). The stack holds what OpenSSL's C code reported, which Verus
/// does not see, so nothing is stated of the text.
#[verifier::external_body]
fn error_stack_text(e: &openssl::error::ErrorStack) -> (r: String) {
    format!("{}", e)
}

impl MiddlewareError {
    /// The error as text, as the middleware logs it.
    pub fn to_text(&self) -> (r: String)
        ensures
            match self {
                MiddlewareError::Hex(e) => r@ == hex_error_message(*e),
                MiddlewareError::Message(e) => r@ == "MessageError: "@ + e.description@,
                MiddlewareError::PacketTooShort => r@ == "MiddlewareError: packet too short for its type"@,
                MiddlewareError::UnknownMessageType => r@ == "MiddlewareError: unknown message type"@,
                MiddlewareError::Clock => r@ == "MiddlewareError: system clock unavailable"@,
                MiddlewareError::Json(_) | MiddlewareError::Decryption(_) => true,
            },
    {
        match self {
            MiddlewareError::Json(e) => json_error_text(e),
            MiddlewareError::Hex(e) => match e {
                HexError::InvalidHexCharacter { c, index } => {
                    let mut r = owned("Invalid character ");
                    append_str(&mut r, char_debug(*c).as_str());
                    append_str(&mut r, " at position ");
                    append_str(&mut r, format_unsigned(*index as u64).as_str());
                    r
                },
                HexError::OddLength => owned("Odd number of digits"),
                HexError::InvalidStringLength => owned("Invalid string length"),
            },
            MiddlewareError::Decryption(e) => error_stack_text(e),
            MiddlewareError::Message(e) => e.to_text(),
            MiddlewareError::PacketTooShort => owned("MiddlewareError: packet too short for its type"),
            MiddlewareError::UnknownMessageType => owned("MiddlewareError: unknown message type"),
            MiddlewareError::Clock => owned("MiddlewareError: system clock unavailable"),
        }
    }
}

} // verus!
