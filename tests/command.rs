use gmq_remoting::command::{Command, Header, OpaqueGenerator};
use gmq_remoting::frame::{decode_frame, encode_frame};
use gmq_remoting::util::{read_u32, Error};

fn header_text(h: &Header) -> Vec<u8> {
    let mut ext = serde_json::Map::new();
    for (k, v) in h.ext_fields.iter() {
        ext.insert(k.clone(), serde_json::Value::String(v.clone()));
    }
    let mut m = serde_json::Map::new();
    m.insert("code".to_string(), serde_json::Value::from(h.code));
    m.insert("flag".to_string(), serde_json::Value::from(h.flag));
    m.insert("language".to_string(), serde_json::Value::from(h.language.clone()));
    m.insert("opaque".to_string(), serde_json::Value::from(h.opaque));
    m.insert("remark".to_string(), serde_json::Value::from(h.remark.clone()));
    m.insert("ext_fields".to_string(), serde_json::Value::Object(ext));
    serde_json::to_vec(&serde_json::Value::Object(m)).unwrap()
}

fn parse_header(text: &[u8]) -> Option<Header> {
    let v: serde_json::Value = serde_json::from_slice(text).ok()?;
    let mut fields = Vec::new();
    if let Some(ext) = v.get("ext_fields").and_then(|e| e.as_object()) {
        for (k, val) in ext.iter() {
            fields.push((k.clone(), val.as_str()?.to_string()));
        }
    }
    Some(Header::new(
        v.get("code")?.as_u64()? as u8,
        v.get("flag")?.as_u64()? as u8,
        v.get("language")?.as_str()?.to_string(),
        v.get("opaque")?.as_u64()? as usize,
        v.get("remark").and_then(|r| r.as_str()).map(|r| r.to_string()),
        fields,
    ))
}

fn encode(cmd: &Command) -> Vec<u8> {
    cmd.encode(&header_text(cmd.header()))
}

fn decode(data: &[u8]) -> Result<Command, Error> {
    let (h, b) = decode_frame(data)?;
    let header = parse_header(&h).ok_or(Error::DecodeCommandError("bad header".to_string()))?;
    Ok(Command::from_parts(header, b))
}

#[test]
fn test_encode_decode() {
    let mut ids = OpaqueGenerator::new();
    let mut command = Command::new(1, &mut ids);
    command.add_property("test-key", "value");
    command.set_body(vec![1, 2, 3]);

    let encoded = encode(&command);
    let decoded = decode(&encoded).unwrap();
    assert_eq!(1, decoded.code());
    assert_eq!(0, decoded.opaque());
    assert_eq!("value", decoded.get_property("test-key").unwrap());
    assert_eq!(vec![1, 2, 3], decoded.body().unwrap());
}

#[test]
fn round_trip_empty_fields_and_body() {
    let mut ids = OpaqueGenerator::new();
    let command = Command::new(7, &mut ids);
    let decoded = decode(&encode(&command)).unwrap();
    assert_eq!(7, decoded.code());
    assert_eq!(command.opaque(), decoded.opaque());
    assert!(decoded.header().ext_fields.is_empty());
    assert_eq!(Some(&[][..]), decoded.body());
}

#[test]
fn route_scenario_round_trip_and_truncation() {
    let mut ids = OpaqueGenerator::new();
    let command = Command::new_with_header(
        105,
        vec![
            ("topic".to_string(), "bbb".to_string()),
            ("acceptStandardJsonOnly".to_string(), "true".to_string()),
        ],
        &mut ids,
    );
    let encoded = encode(&command);
    let decoded = decode(&encoded).unwrap();
    assert_eq!(105, decoded.code());
    assert_eq!(command.opaque(), decoded.opaque());
    assert_eq!("bbb", decoded.get_property("topic").unwrap());
    assert_eq!("true", decoded.get_property("acceptStandardJsonOnly").unwrap());
    assert_eq!(2, decoded.header().ext_fields.len());
    assert_eq!(Some(&[][..]), decoded.body());

    let truncated = &encoded[..encoded.len() - 1];
    assert!(matches!(decode(truncated), Err(Error::DecodeCommandError(_))));
}

#[test]
fn opaques_strictly_increase() {
    let mut ids = OpaqueGenerator::new();
    let mut last: Option<usize> = None;
    for i in 0..10u8 {
        let c = Command::new(i, &mut ids);
        if let Some(prev) = last {
            assert!(c.opaque() > prev);
        }
        last = Some(c.opaque());
    }
    assert_eq!(Some(9), last);
}

#[test]
fn later_property_replaces_earlier() {
    let mut ids = OpaqueGenerator::new();
    let mut c = Command::new_with_header(
        3,
        vec![("k".to_string(), "a".to_string()), ("k".to_string(), "b".to_string())],
        &mut ids,
    );
    assert_eq!("b", c.get_property("k").unwrap());
    assert_eq!(1, c.header().ext_fields.len());
    c.add_property("k", "c");
    c.add_property("m", "d");
    assert_eq!("c", c.get_property("k").unwrap());
    assert_eq!("d", c.get_property("m").unwrap());
    assert_eq!(None, c.get_property("absent"));
    assert_eq!(None, c.body());
}

#[test]
fn frame_bytes_exact() {
    let frame = encode_frame(&[0x7b, 0x7d], &[9]);
    assert_eq!(vec![0, 0, 0, 7, 0, 0, 0, 2, 0x7b, 0x7d, 9], frame);
    let (h, b) = decode_frame(&frame).unwrap();
    assert_eq!(vec![0x7b, 0x7d], h);
    assert_eq!(vec![9], b);
}

#[test]
fn decode_frame_ignores_trailing_bytes() {
    let frame = vec![0, 0, 0, 6, 0, 0, 0, 1, 0x31, 0x32, 0xff, 0xff];
    let (h, b) = decode_frame(&frame).unwrap();
    assert_eq!(vec![0x31], h);
    assert_eq!(vec![0x32], b);
}

#[test]
fn decode_frame_rejects_short_and_inconsistent_input() {
    assert!(matches!(decode_frame(&[]), Err(Error::DecodeCommandError(_))));
    assert!(matches!(decode_frame(&[0, 0, 0, 4, 0, 0, 0]), Err(Error::DecodeCommandError(_))));
    // header length 9 inside a total length of 6
    assert!(matches!(
        decode_frame(&[0, 0, 0, 6, 0, 0, 0, 9, 1, 2]),
        Err(Error::DecodeCommandError(_))
    ));
    // the flag byte does not count towards the header length
    let (h, b) = decode_frame(&[0, 0, 0, 5, 1, 0, 0, 1, 7]).unwrap();
    assert_eq!(vec![7], h);
    assert!(b.is_empty());
}

#[test]
fn read_u32_is_big_endian() {
    assert_eq!(0x0102_0304, read_u32(&[1, 2, 3, 4, 5]));
    assert_eq!(u32::MAX, read_u32(&[0xff, 0xff, 0xff, 0xff]));
}

#[test]
fn frame_missing_its_last_byte_is_rejected() {
    let frame = encode_frame(b"{}", &[1, 2, 3]);
    assert!(decode_frame(&frame).is_ok());
    assert!(matches!(decode_frame(&frame[..frame.len() - 1]), Err(Error::DecodeCommandError(_))));
    let empty_body = encode_frame(b"{}", &[]);
    assert!(matches!(
        decode_frame(&empty_body[..empty_body.len() - 1]),
        Err(Error::DecodeCommandError(_))
    ));
}
