//! The sensor message that the middleware forwards, and the decoder of the
//! binary packets that sensor nodes send.
//!
//! A packet starts with its type, an unsigned 16-bit little-endian number.
//! Types 2 to 5 are known; each has a fixed layout of little-endian fields.
use vstd::prelude::*;
use crate::le_bytes::{le_field, signed16, lemma_le_field_bound, pow256, read_u16_le, read_u32_le, read_u64_le, read_i16_le};
use crate::num_format::{hex_text, format_hex, hex_digit};
use crate::text::owned;
use crate::clock::{now_rfc3339_millis, is_clock_text};

verus! {

/// A measured quantity as it arrives: the bit pattern of an IEEE
/// single-precision float or a signed 16-bit count (from a packet), or a JSON
/// number (from a gateway's own sensor), sent on at single precision.
#[derive(Clone, Debug, PartialEq)]
pub enum Reading {
    Float32(u32),
    Int16(i16),
    Number(serde_json::Number),
}

/// One measured quantity and its unit.
#[derive(Clone, Debug)]
pub struct ParameterValue {
    pub value: Reading,
    pub unit: String,
}

/// The readings of one sensor: each parameter name with its value. No two
/// parameters of a measurement share a name.
#[derive(Debug)]
#[allow(non_snake_case)]
pub struct Measurement {
    pub sensorId: String,
    pub parameters: Vec<(String, ParameterValue)>,
}

/// What a sensor node reports in one packet.
#[derive(Debug)]
#[allow(non_snake_case)]
pub struct Message {
    pub mcuId: String,
    pub index: u32,
    pub measurements: Vec<Measurement>,
}

/// A message as the middleware forwards it.
#[derive(Debug)]
pub struct SensorMessage {
    pub message_type: String,
    pub rssi: String,
    pub timestamp: String,
    pub message: Message,
}

/// Why a packet gives no message: its type is not known, or the clock
/// could not be read.
#[derive(Debug)]
pub struct SensorMessageError {
    pub description: String,
}

/// The mathematical value of a [`ParameterValue`].
pub struct ParameterValueView {
    pub value: Reading,
    pub unit: Seq<char>,
}

/// The mathematical value of a [`Measurement`].
pub struct MeasurementView {
    pub sensor_id: Seq<char>,
    pub parameters: Seq<(Seq<char>, ParameterValueView)>,
}

/// The mathematical value of a [`Message`].
pub struct MessageView {
    pub mcu_id: Seq<char>,
    pub index: u32,
    pub measurements: Seq<MeasurementView>,
}

/// The mathematical value of a [`SensorMessage`].
pub struct SensorMessageView {
    pub message_type: Seq<char>,
    pub rssi: Seq<char>,
    pub timestamp: Seq<char>,
    pub message: MessageView,
}

impl View for ParameterValue {
    type V = ParameterValueView;

    open spec fn view(&self) -> ParameterValueView {
        ParameterValueView { value: self.value, unit: self.unit@ }
    }
}

/// The view of a list of named parameters.
pub open spec fn parameters_view(p: Seq<(String, ParameterValue)>) -> Seq<(Seq<char>, ParameterValueView)> {
    p.map_values(|e: (String, ParameterValue)| (e.0@, e.1@))
}

impl View for Measurement {
    type V = MeasurementView;

    open spec fn view(&self) -> MeasurementView {
        MeasurementView { sensor_id: self.sensorId@, parameters: parameters_view(self.parameters@) }
    }
}

/// The view of a list of measurements.
pub open spec fn measurements_view(m: Seq<Measurement>) -> Seq<MeasurementView> {
    m.map_values(|e: Measurement| e@)
}

impl View for Message {
    type V = MessageView;

    open spec fn view(&self) -> MessageView {
        MessageView {
            mcu_id: self.mcuId@,
            index: self.index,
            measurements: measurements_view(self.measurements@),
        }
    }
}

impl View for SensorMessage {
    type V = SensorMessageView;

    open spec fn view(&self) -> SensorMessageView {
        SensorMessageView {
            message_type: self.message_type@,
            rssi: self.rssi@,
            timestamp: self.timestamp@,
            message: self.message@,
        }
    }
}

/// The type of a packet: its first two bytes, little-endian.
pub open spec fn packet_type(data: Seq<u8>) -> nat {
    le_field(data, 0, 2)
}

/// Whether packets of type `t` are known.
pub open spec fn is_known_type(t: nat) -> bool {
    2 <= t <= 5
}

/// The number of bytes that the layout of a packet of type `t` reads.
pub open spec fn layout_len(t: nat) -> int {
    if t == 2 {
        32
    } else if t == 3 {
        32
    } else if t == 4 {
        28
    } else if t == 5 {
        54
    } else {
        2
    }
}

/// Whether `data` holds a type and every field that the layout of that type reads.
pub open spec fn packet_fits(data: Seq<u8>) -> bool {
    data.len() >= 2 && data.len() >= layout_len(packet_type(data))
}

/// A parameter whose value is the float field of four bytes at `offset`.
pub open spec fn float_param(data: Seq<u8>, offset: int, name: Seq<char>, unit: Seq<char>) -> (Seq<char>, ParameterValueView) {
    (name, ParameterValueView { value: Reading::Float32(le_field(data, offset, 4) as u32), unit })
}

/// A parameter whose value is the signed 16-bit field at `offset`.
pub open spec fn count_param(data: Seq<u8>, offset: int, name: Seq<char>) -> (Seq<char>, ParameterValueView) {
    (name, ParameterValueView { value: Reading::Int16(signed16(le_field(data, offset, 2)) as i16), unit: "au"@ })
}

/// The unit of temperatures: degrees Celsius.
pub open spec fn celsius() -> Seq<char> {
    "\u{b0}C"@
}

/// The microcontroller id of type 2: three 32-bit fields, eight hex digits each.
pub open spec fn triple_mcu_id(data: Seq<u8>) -> Seq<char> {
    hex_text(le_field(data, 4, 4), 8) + seq!['-'] + hex_text(le_field(data, 8, 4), 8) + seq!['-']
        + hex_text(le_field(data, 12, 4), 8)
}

/// The microcontroller id of types 3 to 5: the 32-bit field at 10 in eight
/// hex digits, then the 64-bit field at 2 in sixteen.
pub open spec fn wide_mcu_id(data: Seq<u8>) -> Seq<char> {
    hex_text(le_field(data, 10, 4), 8) + seq!['-'] + hex_text(le_field(data, 2, 8), 16)
}

/// The measurements of a packet of a known type.
pub open spec fn packet_measurements(data: Seq<u8>) -> Seq<MeasurementView> {
    let t = packet_type(data);
    if t == 2 {
        seq![
            MeasurementView {
                sensor_id: hex_text(le_field(data, 2, 2), 4),
                parameters: seq![
                    float_param(data, 20, "temperature"@, celsius()),
                    float_param(data, 24, "relativeHumidity"@, "%"@),
                    float_param(data, 28, "pressure"@, "mbar"@),
                ],
            },
        ]
    } else if t == 3 {
        seq![
            MeasurementView {
                sensor_id: hex_text(le_field(data, 18, 2), 4),
                parameters: seq![
                    count_param(data, 20, "acceleration_x"@),
                    count_param(data, 22, "acceleration_y"@),
                    count_param(data, 24, "acceleration_z"@),
                    count_param(data, 26, "magneticField_x"@),
                    count_param(data, 28, "magneticField_y"@),
                    count_param(data, 30, "magneticField_z"@),
                ],
            },
        ]
    } else if t == 4 {
        seq![
            MeasurementView {
                sensor_id: hex_text(le_field(data, 18, 2), 4),
                parameters: seq![
                    float_param(data, 20, "temperature"@, celsius()),
                    float_param(data, 24, "relativeHumidity"@, "%"@),
                ],
            },
        ]
    } else {
        seq![
            MeasurementView {
                sensor_id: hex_text(le_field(data, 18, 4), 4),
                parameters: seq![
                    count_param(data, 22, "acceleration_x"@),
                    count_param(data, 24, "acceleration_y"@),
                    count_param(data, 26, "acceleration_z"@),
                ],
            },
            MeasurementView {
                sensor_id: hex_text(le_field(data, 28, 4), 4),
                parameters: seq![
                    count_param(data, 32, "magneticField_x"@),
                    count_param(data, 34, "magneticField_y"@),
                    count_param(data, 36, "magneticField_z"@),
                ],
            },
            MeasurementView {
                sensor_id: hex_text(le_field(data, 38, 4), 4),
                parameters: seq![
                    float_param(data, 42, "temperature"@, celsius()),
                    float_param(data, 46, "relativeHumidity"@, "%"@),
                ],
            },
            MeasurementView {
                sensor_id: hex_text(0, 4),
                parameters: seq![float_param(data, 50, "batteryVoltage"@, "V"@)],
            },
        ]
    }
}

/// The message of a packet of a known type.
pub open spec fn packet_message(data: Seq<u8>) -> MessageView {
    let t = packet_type(data);
    MessageView {
        mcu_id: if t == 2 { triple_mcu_id(data) } else { wide_mcu_id(data) },
        index: (if t == 2 { le_field(data, 16, 4) } else { le_field(data, 14, 4) }) as u32,
        measurements: packet_measurements(data),
    }
}

/// The sensor message that a packet decodes to, received with signal strength
/// `rssi` at time `timestamp`; `None` where the packet's type is not known.
pub open spec fn decode_packet(rssi: Seq<char>, data: Seq<u8>, timestamp: Seq<char>) -> Option<SensorMessageView> {
    if is_known_type(packet_type(data)) {
        Some(SensorMessageView {
            message_type: "rfm"@,
            rssi,
            timestamp,
            message: packet_message(data),
        })
    } else {
        None
    }
}

/// Whether no two parameters of `m` share a name.
pub open spec fn names_distinct(m: MeasurementView) -> bool {
    forall|i: int, j: int|
        0 <= i < j < m.parameters.len() ==> #[trigger] m.parameters[i].0 != #[trigger] m.parameters[j].0
}

/// No two parameters of a measurement of a decoded packet share a name, so
/// each name picks out one value.
pub proof fn law_parameter_names_distinct(data: Seq<u8>)
    requires
        is_known_type(packet_type(data)),
    ensures
        forall|k: int| 0 <= k < packet_measurements(data).len() ==> names_distinct(#[trigger] packet_measurements(data)[k]),
{
    reveal_strlit("temperature");
    reveal_strlit("relativeHumidity");
    reveal_strlit("pressure");
    reveal_strlit("acceleration_x");
    reveal_strlit("acceleration_y");
    reveal_strlit("acceleration_z");
    reveal_strlit("magneticField_x");
    reveal_strlit("magneticField_y");
    reveal_strlit("magneticField_z");
    reveal_strlit("batteryVoltage");
    assert("temperature"@.len() == 11);
    assert("relativeHumidity"@.len() == 16);
    assert("pressure"@.len() == 8);
    assert("acceleration_x"@.len() == 14 && "acceleration_x"@[13] == 'x');
    assert("acceleration_y"@.len() == 14 && "acceleration_y"@[13] == 'y');
    assert("acceleration_z"@.len() == 14 && "acceleration_z"@[13] == 'z');
    assert("magneticField_x"@.len() == 15 && "magneticField_x"@[14] == 'x');
    assert("magneticField_y"@.len() == 15 && "magneticField_y"@[14] == 'y');
    assert("magneticField_z"@.len() == 15 && "magneticField_z"@[14] == 'z');
    let ms = packet_measurements(data);
    assert forall|k: int| 0 <= k < ms.len() implies names_distinct(#[trigger] ms[k]) by {
        let ps = ms[k].parameters;
        assert forall|i: int, j: int| 0 <= i < j < ps.len() implies #[trigger] ps[i].0 != #[trigger] ps[j].0 by {
            if ps[i].0 == ps[j].0 {
                assert(ps[i].0.len() == ps[j].0.len());
                assert(ps[i].0[ps[i].0.len() - 1] == ps[j].0[ps[j].0.len() - 1]);
            }
        }
    }
}

/// Whether measurement `m` has a parameter called `name` whose value is
/// `value` in unit `unit`.
pub open spec fn has_parameter(m: MeasurementView, name: Seq<char>, value: Reading, unit: Seq<char>) -> bool {
    exists|i: int| 0 <= i < m.parameters.len() && #[trigger] m.parameters[i] == (name, ParameterValueView { value, unit })
}

/// The float reading of the four bytes at `offset`.
pub open spec fn float_at(data: Seq<u8>, offset: int) -> Reading {
    Reading::Float32(le_field(data, offset, 4) as u32)
}

/// The count reading of the two bytes at `offset`.
pub open spec fn count_at(data: Seq<u8>, offset: int) -> Reading {
    Reading::Int16(signed16(le_field(data, offset, 2)) as i16)
}

/// Every decoded packet is a radio message with the given signal strength
/// and timestamp, and each of its fields and named readings comes from the
/// bytes its packet type places it at:
/// - type 2: index at 16; sensor `2..4`; temperature 20, relative humidity 24,
///   pressure 28;
/// - type 3: index at 14; sensor `18..20`; acceleration x, y, z at 20, 22, 24
///   and magnetic field x, y, z at 26, 28, 30;
/// - type 4: index at 14; sensor `18..20`; temperature 20, relative humidity 24;
/// - type 5: index at 14; acceleration sensor `18..22` with x, y, z at 22, 24,
///   26; magnetic sensor `28..32` with x, y, z at 32, 34, 36; climate sensor
///   `38..42` with temperature 42 and relative humidity 46; battery voltage 50.
pub proof fn law_packet_fields_by_name(rssi: Seq<char>, data: Seq<u8>, timestamp: Seq<char>)
    requires
        packet_fits(data),
        is_known_type(packet_type(data)),
    ensures
        decode_packet(rssi, data, timestamp) matches Some(v) && {
            let ms = v.message.measurements;
            let t = packet_type(data);
            &&& v.message_type == "rfm"@
            &&& v.rssi == rssi
            &&& v.timestamp == timestamp
            &&& t == 2 ==> {
                &&& v.message.index == le_field(data, 16, 4)
                &&& ms.len() == 1
                &&& ms[0].sensor_id == hex_text(le_field(data, 2, 2), 4)
                &&& ms[0].parameters.len() == 3
                &&& has_parameter(ms[0], "temperature"@, float_at(data, 20), "\u{b0}C"@)
                &&& has_parameter(ms[0], "relativeHumidity"@, float_at(data, 24), "%"@)
                &&& has_parameter(ms[0], "pressure"@, float_at(data, 28), "mbar"@)
            }
            &&& t == 3 ==> {
                &&& v.message.index == le_field(data, 14, 4)
                &&& ms.len() == 1
                &&& ms[0].sensor_id == hex_text(le_field(data, 18, 2), 4)
                &&& ms[0].parameters.len() == 6
                &&& has_parameter(ms[0], "acceleration_x"@, count_at(data, 20), "au"@)
                &&& has_parameter(ms[0], "acceleration_y"@, count_at(data, 22), "au"@)
                &&& has_parameter(ms[0], "acceleration_z"@, count_at(data, 24), "au"@)
                &&& has_parameter(ms[0], "magneticField_x"@, count_at(data, 26), "au"@)
                &&& has_parameter(ms[0], "magneticField_y"@, count_at(data, 28), "au"@)
                &&& has_parameter(ms[0], "magneticField_z"@, count_at(data, 30), "au"@)
            }
            &&& t == 4 ==> {
                &&& v.message.index == le_field(data, 14, 4)
                &&& ms.len() == 1
                &&& ms[0].sensor_id == hex_text(le_field(data, 18, 2), 4)
                &&& ms[0].parameters.len() == 2
                &&& has_parameter(ms[0], "temperature"@, float_at(data, 20), "\u{b0}C"@)
                &&& has_parameter(ms[0], "relativeHumidity"@, float_at(data, 24), "%"@)
            }
            &&& t == 5 ==> {
                &&& v.message.index == le_field(data, 14, 4)
                &&& ms.len() == 4
                &&& ms[0].sensor_id == hex_text(le_field(data, 18, 4), 4)
                &&& ms[0].parameters.len() == 3
                &&& has_parameter(ms[0], "acceleration_x"@, count_at(data, 22), "au"@)
                &&& has_parameter(ms[0], "acceleration_y"@, count_at(data, 24), "au"@)
                &&& has_parameter(ms[0], "acceleration_z"@, count_at(data, 26), "au"@)
                &&& ms[1].sensor_id == hex_text(le_field(data, 28, 4), 4)
                &&& ms[1].parameters.len() == 3
                &&& has_parameter(ms[1], "magneticField_x"@, count_at(data, 32), "au"@)
                &&& has_parameter(ms[1], "magneticField_y"@, count_at(data, 34), "au"@)
                &&& has_parameter(ms[1], "magneticField_z"@, count_at(data, 36), "au"@)
                &&& ms[2].sensor_id == hex_text(le_field(data, 38, 4), 4)
                &&& ms[2].parameters.len() == 2
                &&& has_parameter(ms[2], "temperature"@, float_at(data, 42), "\u{b0}C"@)
                &&& has_parameter(ms[2], "relativeHumidity"@, float_at(data, 46), "%"@)
                &&& ms[3].sensor_id == seq!['0', '0', '0', '0']
                &&& ms[3].parameters.len() == 1
                &&& has_parameter(ms[3], "batteryVoltage"@, float_at(data, 50), "V"@)
            }
        },
{
    let ms = packet_measurements(data);
    let t = packet_type(data);
    reveal_with_fuel(pow256, 5);
    if t == 2 {
        lemma_le_field_bound(data, 16, 4);
        assert(ms[0].parameters[0] == ("temperature"@, ParameterValueView { value: float_at(data, 20), unit: "\u{b0}C"@ }));
        assert(ms[0].parameters[1] == ("relativeHumidity"@, ParameterValueView { value: float_at(data, 24), unit: "%"@ }));
        assert(ms[0].parameters[2] == ("pressure"@, ParameterValueView { value: float_at(data, 28), unit: "mbar"@ }));
    } else if t == 3 {
        lemma_le_field_bound(data, 14, 4);
        assert(ms[0].parameters[0] == ("acceleration_x"@, ParameterValueView { value: count_at(data, 20), unit: "au"@ }));
        assert(ms[0].parameters[1] == ("acceleration_y"@, ParameterValueView { value: count_at(data, 22), unit: "au"@ }));
        assert(ms[0].parameters[2] == ("acceleration_z"@, ParameterValueView { value: count_at(data, 24), unit: "au"@ }));
        assert(ms[0].parameters[3] == ("magneticField_x"@, ParameterValueView { value: count_at(data, 26), unit: "au"@ }));
        assert(ms[0].parameters[4] == ("magneticField_y"@, ParameterValueView { value: count_at(data, 28), unit: "au"@ }));
        assert(ms[0].parameters[5] == ("magneticField_z"@, ParameterValueView { value: count_at(data, 30), unit: "au"@ }));
    } else if t == 4 {
        lemma_le_field_bound(data, 14, 4);
        assert(ms[0].parameters[0] == ("temperature"@, ParameterValueView { value: float_at(data, 20), unit: "\u{b0}C"@ }));
        assert(ms[0].parameters[1] == ("relativeHumidity"@, ParameterValueView { value: float_at(data, 24), unit: "%"@ }));
    } else {
        lemma_le_field_bound(data, 14, 4);
        assert(ms[0].parameters[0] == ("acceleration_x"@, ParameterValueView { value: count_at(data, 22), unit: "au"@ }));
        assert(ms[0].parameters[1] == ("acceleration_y"@, ParameterValueView { value: count_at(data, 24), unit: "au"@ }));
        assert(ms[0].parameters[2] == ("acceleration_z"@, ParameterValueView { value: count_at(data, 26), unit: "au"@ }));
        assert(ms[1].parameters[0] == ("magneticField_x"@, ParameterValueView { value: count_at(data, 32), unit: "au"@ }));
        assert(ms[1].parameters[1] == ("magneticField_y"@, ParameterValueView { value: count_at(data, 34), unit: "au"@ }));
        assert(ms[1].parameters[2] == ("magneticField_z"@, ParameterValueView { value: count_at(data, 36), unit: "au"@ }));
        assert(ms[2].parameters[0] == ("temperature"@, ParameterValueView { value: float_at(data, 42), unit: "\u{b0}C"@ }));
        assert(ms[2].parameters[1] == ("relativeHumidity"@, ParameterValueView { value: float_at(data, 46), unit: "%"@ }));
        assert(ms[3].parameters[0] == ("batteryVoltage"@, ParameterValueView { value: float_at(data, 50), unit: "V"@ }));
        reveal_with_fuel(crate::num_format::hex_digits, 1);
        assert(hex_text(0, 4) =~= seq!['0', '0', '0', '0']);
    }
}

fn float_parameter(data: &Vec<u8>, offset: usize, name: &str, unit: &str) -> (r: (String, ParameterValue))
    requires
        offset + 4 <= data.len(),
    ensures
        (r.0@, r.1@) == float_param(data@, offset as int, name@, unit@),
{
    let bits = read_u32_le(data, offset);
    (owned(name), ParameterValue { value: Reading::Float32(bits), unit: owned(unit) })
}

fn count_parameter(data: &Vec<u8>, offset: usize, name: &str) -> (r: (String, ParameterValue))
    requires
        offset + 2 <= data.len(),
    ensures
        (r.0@, r.1@) == count_param(data@, offset as int, name@),
{
    let count = read_i16_le(data, offset);
    (owned(name), ParameterValue { value: Reading::Int16(count), unit: owned("au") })
}

fn measurement(sensor_id: String, parameters: Vec<(String, ParameterValue)>) -> (m: Measurement)
    ensures
        m@.sensor_id == sensor_id@,
        m@.parameters == parameters_view(parameters@),
{
    Measurement { sensorId: sensor_id, parameters }
}

fn triple_mcu_id_text(data: &Vec<u8>) -> (r: String)
    requires
        data.len() >= 16,
    ensures
        r@ == triple_mcu_id(data@),
{
    let mut s = format_hex(read_u32_le(data, 4) as u64, 8);
    crate::text::push_char(&mut s, '-');
    crate::text::append_str(&mut s, format_hex(read_u32_le(data, 8) as u64, 8).as_str());
    crate::text::push_char(&mut s, '-');
    crate::text::append_str(&mut s, format_hex(read_u32_le(data, 12) as u64, 8).as_str());
    assert(s@ =~= triple_mcu_id(data@));
    s
}

fn wide_mcu_id_text(data: &Vec<u8>) -> (r: String)
    requires
        data.len() >= 14,
    ensures
        r@ == wide_mcu_id(data@),
{
    let mut s = format_hex(read_u32_le(data, 10) as u64, 8);
    crate::text::push_char(&mut s, '-');
    crate::text::append_str(&mut s, format_hex(read_u64_le(data, 2), 16).as_str());
    assert(s@ =~= wide_mcu_id(data@));
    s
}

fn type2_measurements(data: &Vec<u8>) -> (r: Vec<Measurement>)
    requires
        data.len() >= 32,
        packet_type(data@) == 2,
    ensures
        measurements_view(r@) == packet_measurements(data@),
{
    let params = vec![
        float_parameter(data, 20, "temperature", "\u{b0}C"),
        float_parameter(data, 24, "relativeHumidity", "%"),
        float_parameter(data, 28, "pressure", "mbar"),
    ];
    let m = measurement(format_hex(read_u16_le(data, 2) as u64, 4), params);
    let r = vec![m];
    assert(parameters_view(params@) =~= packet_measurements(data@)[0].parameters);
    assert(measurements_view(r@) =~= packet_measurements(data@));
    r
}

fn type3_measurements(data: &Vec<u8>) -> (r: Vec<Measurement>)
    requires
        data.len() >= 32,
        packet_type(data@) == 3,
    ensures
        measurements_view(r@) == packet_measurements(data@),
{
    let params = vec![
        count_parameter(data, 20, "acceleration_x"),
        count_parameter(data, 22, "acceleration_y"),
        count_parameter(data, 24, "acceleration_z"),
        count_parameter(data, 26, "magneticField_x"),
        count_parameter(data, 28, "magneticField_y"),
        count_parameter(data, 30, "magneticField_z"),
    ];
    let m = measurement(format_hex(read_u16_le(data, 18) as u64, 4), params);
    let r = vec![m];
    assert(parameters_view(params@) =~= packet_measurements(data@)[0].parameters);
    assert(measurements_view(r@) =~= packet_measurements(data@));
    r
}

fn type4_measurements(data: &Vec<u8>) -> (r: Vec<Measurement>)
    requires
        data.len() >= 28,
        packet_type(data@) == 4,
    ensures
        measurements_view(r@) == packet_measurements(data@),
{
    let params = vec![
        float_parameter(data, 20, "temperature", "\u{b0}C"),
        float_parameter(data, 24, "relativeHumidity", "%"),
    ];
    let m = measurement(format_hex(read_u16_le(data, 18) as u64, 4), params);
    let r = vec![m];
    assert(parameters_view(params@) =~= packet_measurements(data@)[0].parameters);
    assert(measurements_view(r@) =~= packet_measurements(data@));
    r
}

fn type5_measurements(data: &Vec<u8>) -> (r: Vec<Measurement>)
    requires
        data.len() >= 54,
        packet_type(data@) == 5,
    ensures
        measurements_view(r@) == packet_measurements(data@),
{
    let acceleration = vec![
        count_parameter(data, 22, "acceleration_x"),
        count_parameter(data, 24, "acceleration_y"),
        count_parameter(data, 26, "acceleration_z"),
    ];
    let magnetic = vec![
        count_parameter(data, 32, "magneticField_x"),
        count_parameter(data, 34, "magneticField_y"),
        count_parameter(data, 36, "magneticField_z"),
    ];
    let climate = vec![
        float_parameter(data, 42, "temperature", "\u{b0}C"),
        float_parameter(data, 46, "relativeHumidity", "%"),
    ];
    let battery = vec![float_parameter(data, 50, "batteryVoltage", "V")];
    let ghost expected = packet_measurements(data@);
    assert(parameters_view(acceleration@) =~= expected[0].parameters);
    assert(parameters_view(magnetic@) =~= expected[1].parameters);
    assert(parameters_view(climate@) =~= expected[2].parameters);
    assert(parameters_view(battery@) =~= expected[3].parameters);
    let m1 = measurement(format_hex(read_u32_le(data, 18) as u64, 4), acceleration);
    let m2 = measurement(format_hex(read_u32_le(data, 28) as u64, 4), magnetic);
    let m3 = measurement(format_hex(read_u32_le(data, 38) as u64, 4), climate);
    let m4 = measurement(format_hex(0, 4), battery);
    let r = vec![m1, m2, m3, m4];
    assert(measurements_view(r@) =~= expected);
    r
}

impl SensorMessage {
    /// Decodes a packet received with signal strength `rssi` at time
    /// `timestamp`. Packets of types 2 to 5 give their message; any other
    /// type gives the error "unsupported message type".
    pub fn parse_at(rssi: &String, data: &Vec<u8>, timestamp: String) -> (r: Result<SensorMessage, SensorMessageError>)
        requires
            packet_fits(data@),
        ensures
            match decode_packet(rssi@, data@, timestamp@) {
                Some(v) => r matches Ok(m) && m@ == v,
                None => r matches Err(e) && e.description@ == "unsupported message type"@,
            },
    {
        let t = read_u16_le(data, 0);
        if t < 2 || t > 5 {
            return Err(SensorMessageError { description: owned("unsupported message type") });
        }
        let (mcu_id, index, measurements) = if t == 2 {
            (triple_mcu_id_text(data), read_u32_le(data, 16), type2_measurements(data))
        } else if t == 3 {
            (wide_mcu_id_text(data), read_u32_le(data, 14), type3_measurements(data))
        } else if t == 4 {
            (wide_mcu_id_text(data), read_u32_le(data, 14), type4_measurements(data))
        } else {
            (wide_mcu_id_text(data), read_u32_le(data, 14), type5_measurements(data))
        };
        let message = Message { mcuId: mcu_id, index, measurements };
        Ok(SensorMessage { message_type: owned("rfm"), rssi: rssi.clone(), timestamp, message })
    }

    /// Decodes a packet received now with signal strength `rssi`; the
    /// timestamp is the current UTC time. Packets of types 2 to 5 give their
    /// message; any other type gives the error "unsupported message type". A
    /// packet of a known type received while the system clock cannot be read
    /// gives the error "system clock unavailable".
    pub fn parse(rssi: &String, data: &Vec<u8>) -> (r: Result<SensorMessage, SensorMessageError>)
        requires
            packet_fits(data@),
        ensures
            r is Ok ==> is_known_type(packet_type(data@)),
            r matches Ok(m) ==> decode_packet(rssi@, data@, m.timestamp@) == Some(m@) && is_clock_text(m.timestamp@),
            !is_known_type(packet_type(data@)) ==> (r matches Err(e) && e.description@ == "unsupported message type"@),
            is_known_type(packet_type(data@)) ==> (r matches Err(e) ==> e.description@ == "system clock unavailable"@),
    {
        let t = read_u16_le(data, 0);
        if t < 2 || t > 5 {
            return Err(SensorMessageError { description: owned("unsupported message type") });
        }
        match now_rfc3339_millis() {
            Some(timestamp) => {
                let ghost ts = timestamp@;
                let r = SensorMessage::parse_at(rssi, data, timestamp);
                assert(r matches Ok(m) ==> m.timestamp@ == ts);
                r
            },
            None => Err(SensorMessageError { description: owned("system clock unavailable") }),
        }
    }
}

impl SensorMessageError {
    /// The error as text: `MessageError: ` and the description.
    pub fn to_text(&self) -> (r: String)
        ensures
            r@ == "MessageError: "@ + self.description@,
    {
        let mut s = owned("MessageError: ");
        crate::text::append_str(&mut s, self.description.as_str());
        s
    }
}

impl Measurement {
    /// The value of the parameter called `name`, if the measurement has one.
    pub fn parameter(&self, name: &str) -> (r: Option<&ParameterValue>)
        ensures
            match r {
                Some(p) => exists|i: int|
                    0 <= i < self.parameters@.len() && self.parameters@[i].0@ == name@
                        && #[trigger] self.parameters@[i].1 == *p,
                None => forall|i: int|
                    0 <= i < self.parameters@.len() ==> #[trigger] self.parameters@[i].0@ != name@,
            },
    {
        let key = owned(name);
        let mut i: usize = 0;
        while i < self.parameters.len()
            invariant
                i <= self.parameters@.len(),
                key@ == name@,
                forall|j: int| 0 <= j < i ==> #[trigger] self.parameters@[j].0@ != name@,
            decreases self.parameters.len() - i,
        {
            if self.parameters[i].0 == key {
                return Some(&self.parameters[i].1);
            }
            i = i + 1;
        }
        None
    }
}

} // verus!
