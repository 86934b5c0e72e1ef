use sensor_net::line_buffer::LineBuffer;
use sensor_net::num_format::{format_decimal, format_hex};

#[test]
fn hex_is_zero_padded_to_the_width() {
    assert_eq!(format_hex(0xab01, 4), "ab01");
    assert_eq!(format_hex(5, 4), "0005");
    assert_eq!(format_hex(0, 4), "0000");
    assert_eq!(format_hex(0, 0), "0");
    assert_eq!(format_hex(0x12345, 4), "12345");
    assert_eq!(format_hex(0x00052810, 8), "00052810");
    assert_eq!(format_hex(0xf655e1b92f647784, 16), "f655e1b92f647784");
    assert_eq!(format_hex(u64::MAX, 16), "ffffffffffffffff");
    assert_eq!(format_hex(0xbeef, 8), format!("{:08x}", 0xbeefu32));
}

#[test]
fn decimal_matches_display() {
    assert_eq!(format_decimal(-65), "-65");
    assert_eq!(format_decimal(0), "0");
    assert_eq!(format_decimal(1234567890), "1234567890");
    assert_eq!(format_decimal(i64::MIN), i64::MIN.to_string());
    assert_eq!(format_decimal(i64::MAX), i64::MAX.to_string());
}

#[test]
fn chunks_are_split_into_lines() {
    let mut buffer = LineBuffer::new();
    let lines = buffer.push_chunk("{\"a\":1}\n{\"b\"");
    assert_eq!(lines, vec![String::from("{\"a\":1}")]);
    let lines = buffer.push_chunk(":2}\n\n{\"c\":3}\nrest");
    assert_eq!(lines, vec![String::from("{\"b\":2}"), String::new(), String::from("{\"c\":3}")]);
    let lines = buffer.push_chunk("");
    assert!(lines.is_empty());
    let lines = buffer.push_chunk("\n");
    assert_eq!(lines, vec![String::from("rest")]);
}

#[test]
fn chunk_boundaries_do_not_change_the_lines() {
    let text = "one\ntwo\nthree\nfour";
    let mut whole = LineBuffer::new();
    let all = whole.push_chunk(text);
    for cut in 0..text.len() {
        let mut parts = LineBuffer::new();
        let mut got = parts.push_chunk(&text[..cut]);
        got.extend(parts.push_chunk(&text[cut..]));
        assert_eq!(got, all);
        let rest = parts.push_chunk("\n");
        assert_eq!(rest, vec![String::from("four")]);
    }
    assert_eq!(all, vec![String::from("one"), String::from("two"), String::from("three")]);
}

#[test]
fn no_text_is_lost() {
    let mut buffer = LineBuffer::new();
    let mut seen = String::new();
    for chunk in ["ab", "c\nd", "\n\ne", "f\n"] {
        for line in buffer.push_chunk(chunk) {
            seen.push_str(&line);
            seen.push('\n');
        }
    }
    assert_eq!(seen, "abc\nd\n\nef\n");
}
