use afterglow::pair::ControlPair;
use afterglow::wire::encode;

fn text(pair: ControlPair) -> String {
    String::from_utf8(encode(pair)).unwrap()
}

fn reference(channel: i32, value: i32) -> String {
    let mut object = serde_json::Map::new();
    object.insert("channel".to_string(), serde_json::Value::from(channel));
    object.insert("value".to_string(), serde_json::Value::from(value));
    serde_json::to_string(&serde_json::Value::Object(object)).unwrap()
}

#[test]
fn encode_writes_a_compact_object() {
    assert_eq!(text(ControlPair { channel: 5, value: 10 }), "{\"channel\":5,\"value\":10}");
}

#[test]
fn encode_at_the_edges_of_the_ranges() {
    assert_eq!(text(ControlPair { channel: 1, value: 0 }), "{\"channel\":1,\"value\":0}");
    assert_eq!(text(ControlPair { channel: 512, value: 255 }), "{\"channel\":512,\"value\":255}");
    assert_eq!(encode(ControlPair { channel: 1, value: 0 }).len(), 23);
    assert_eq!(encode(ControlPair { channel: 512, value: 255 }).len(), 27);
}

#[test]
fn encode_writes_every_digit() {
    assert_eq!(text(ControlPair { channel: 100, value: 9 }), "{\"channel\":100,\"value\":9}");
    assert_eq!(text(ControlPair { channel: 10, value: 100 }), "{\"channel\":10,\"value\":100}");
    assert_eq!(text(ControlPair { channel: 309, value: 207 }), "{\"channel\":309,\"value\":207}");
}

#[test]
fn encode_of_the_sentinel_and_of_pairs_out_of_range() {
    assert_eq!(text(ControlPair { channel: 0, value: 0 }), "{\"channel\":0,\"value\":0}");
    assert_eq!(text(ControlPair { channel: -7, value: 1000 }), "{\"channel\":-7,\"value\":1000}");
    assert_eq!(
        text(ControlPair { channel: i32::MIN, value: i32::MAX }),
        "{\"channel\":-2147483648,\"value\":2147483647}"
    );
}

#[test]
fn encode_has_no_framing() {
    let bytes = encode(ControlPair { channel: 5, value: 10 });
    assert_eq!(bytes.first(), Some(&b'{'));
    assert_eq!(bytes.last(), Some(&b'}'));
    assert!(!bytes.contains(&b'\n'));
    assert!(!bytes.contains(&b' '));
}

#[test]
fn encode_agrees_with_a_json_serializer() {
    for channel in [1, 2, 9, 10, 11, 99, 100, 101, 255, 256, 511, 512] {
        for value in [0, 1, 9, 10, 99, 100, 199, 200, 254, 255] {
            assert_eq!(text(ControlPair { channel, value }), reference(channel, value));
        }
    }
}

#[test]
fn encode_reads_back_as_the_same_pair() {
    for (channel, value) in [(5, 10), (1, 0), (512, 255), (42, 7)] {
        let parsed: serde_json::Value =
            serde_json::from_slice(&encode(ControlPair { channel, value })).unwrap();
        let object = parsed.as_object().unwrap();
        assert_eq!(object.len(), 2);
        assert_eq!(object.get("channel").and_then(|v| v.as_i64()), Some(channel as i64));
        assert_eq!(object.get("value").and_then(|v| v.as_i64()), Some(value as i64));
    }
}

#[test]
fn distinct_pairs_have_distinct_encodings() {
    let pairs = [(1, 0), (10, 0), (1, 10), (11, 0), (1, 100), (110, 0), (512, 255), (51, 225)];
    for &(c1, v1) in pairs.iter() {
        for &(c2, v2) in pairs.iter() {
            let same = encode(ControlPair { channel: c1, value: v1 })
                == encode(ControlPair { channel: c2, value: v2 });
            assert_eq!(same, (c1, v1) == (c2, v2));
        }
    }
}

#[test]
fn no_encoding_is_the_beginning_of_another() {
    let numbers = [1, 2, 10, 12, 25, 100, 120, 125, 255, 512];
    for &c1 in numbers.iter() {
        for &v1 in numbers.iter() {
            for &c2 in numbers.iter() {
                for &v2 in numbers.iter() {
                    let a = encode(ControlPair { channel: c1, value: v1 });
                    let b = encode(ControlPair { channel: c2, value: v2 });
                    assert_eq!(b.starts_with(&a), (c1, v1) == (c2, v2));
                }
            }
        }
    }
}

#[test]
fn encoding_is_ascii_and_of_bounded_length() {
    for channel in 1..=512 {
        for value in [0, 9, 10, 99, 100, 255] {
            let bytes = encode(ControlPair { channel, value });
            assert!(bytes.is_ascii());
            assert!(23 <= bytes.len() && bytes.len() <= 27);
        }
    }
}
