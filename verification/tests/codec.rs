use betfair_stream_api::codec::{StreamAPIClientCodec, StreamAPIServerCodec};

#[test]
fn lib_can_decode_single_message() {
    let msg = r#"{"op":"connection","connectionId":"002-051134157842-432409"}"#;
    let separator = "\r\n";
    let data = format!("{msg}{separator}");

    let mut codec = StreamAPIClientCodec;
    let mut buf = data.as_bytes().to_vec();
    let decoded = codec.decode(&mut buf).unwrap();

    assert_eq!(decoded, msg.as_bytes());
    assert!(buf.is_empty());
}

#[test]
fn lib_can_decode_multiple_messages() {
    let msg_one = r#"{"op":"connection","connectionId":"002-051134157842-432409"}"#;
    let msg_two = r#"{"op":"ocm","id":3,"clk":"AAAAAAAA","status":503,"pt":1498137379766,"ct":"HEARTBEAT"}"#;
    let separator = "\r\n";
    let data = format!("{msg_one}{separator}{msg_two}{separator}");

    let mut codec = StreamAPIClientCodec;
    let mut buf = data.as_bytes().to_vec();
    let decoded_one = codec.decode(&mut buf).unwrap();
    let decoded_two = codec.decode(&mut buf).unwrap();

    assert_eq!(decoded_one, msg_one.as_bytes());
    assert_eq!(decoded_two, msg_two.as_bytes());
}

#[test]
fn lib_can_decode_multiple_partial_messages() {
    let msg_one = r#"{"op":"connection","connectionId":"002-051134157842-432409"}"#;
    let msg_two_pt_one = r#"{"op":"ocm","id":3,"clk""#;
    let msg_two_pt_two = r#":"AAAAAAAA","status":503,"pt":1498137379766,"ct":"HEARTBEAT"}"#;
    let separator = "\r\n";
    let data = format!("{msg_one}{separator}{msg_two_pt_one}");

    let mut codec = StreamAPIClientCodec;
    let mut buf = data.as_bytes().to_vec();
    let decoded_one = codec.decode(&mut buf).unwrap();
    let msg_two_attempt = codec.decode(&mut buf);
    assert!(msg_two_attempt.is_none());
    buf.extend_from_slice(msg_two_pt_two.as_bytes());
    buf.extend_from_slice(separator.as_bytes());
    let decoded_two = codec.decode(&mut buf).unwrap();

    assert_eq!(decoded_one, msg_one.as_bytes());
    assert_eq!(decoded_two, format!("{msg_two_pt_one}{msg_two_pt_two}").as_bytes());
}

#[test]
fn lib_can_decode_subsequent_messages() {
    let msg_one = r#"{"op":"connection","connectionId":"002-051134157842-432409"}"#;
    let msg_two = r#"{"op":"ocm","id":3,"clk":"AAAAAAAA","status":503,"pt":1498137379766,"ct":"HEARTBEAT"}"#;
    let separator = "\r\n";
    let data = format!("{msg_one}{separator}");

    let mut codec = StreamAPIClientCodec;
    let mut buf = data.as_bytes().to_vec();
    let decoded_one = codec.decode(&mut buf).unwrap();
    let msg_two_attempt = codec.decode(&mut buf);
    assert!(msg_two_attempt.is_none());
    let data = format!("{msg_two}{separator}");
    buf.extend_from_slice(data.as_bytes());
    let decoded_two = codec.decode(&mut buf).unwrap();

    assert_eq!(decoded_one, msg_one.as_bytes());
    assert_eq!(decoded_two, msg_two.as_bytes());
}

#[test]
fn lib_can_encode_message() {
    let json = r#"{"op":"authentication","id":1,"session":"sss","appKey":"aaaa"}"#;
    let mut codec = StreamAPIClientCodec;
    let mut buf = Vec::new();
    codec.encode(json.as_bytes(), &mut buf);

    let data = core::str::from_utf8(&buf).unwrap();

    // assert that we have the suffix \r\n
    assert!(data.ends_with("\r\n"));
    // assert that we have the prefix {"op":"authentication"
    assert!(data.starts_with("{\"op\":\"authentication\""));
}

#[test]
fn tls_sream_can_decode_single_message() {
    let msg = r#"{"op":"connection","connectionId":"002-051134157842-432409"}"#;
    let separator = "\r\n";
    let data = format!("{msg}{separator}");

    let mut codec = StreamAPIClientCodec;
    let mut buf = data.as_bytes().to_vec();
    let decoded = codec.decode(&mut buf).unwrap();

    assert_eq!(decoded, msg.as_bytes());
    assert!(buf.is_empty());
}

#[test]
fn tls_sream_can_decode_multiple_messages() {
    let msg_one = r#"{"op":"connection","connectionId":"002-051134157842-432409"}"#;
    let msg_two = r#"{"op":"ocm","id":3,"clk":"AAAAAAAA","status":503,"pt":1498137379766,"ct":"HEARTBEAT"}"#;
    let separator = "\r\n";
    let data = format!("{msg_one}{separator}{msg_two}{separator}");

    let mut codec = StreamAPIClientCodec;
    let mut buf = data.as_bytes().to_vec();
    let decoded_one = codec.decode(&mut buf).unwrap();
    let decoded_two = codec.decode(&mut buf).unwrap();

    assert_eq!(decoded_one, msg_one.as_bytes());
    assert_eq!(decoded_two, msg_two.as_bytes());
}

#[test]
fn tls_sream_can_decode_multiple_partial_messages() {
    let msg_one = r#"{"op":"connection","connectionId":"002-051134157842-432409"}"#;
    let msg_two_pt_one = r#"{"op":"ocm","id":3,"clk""#;
    let msg_two_pt_two = r#":"AAAAAAAA","status":503,"pt":1498137379766,"ct":"HEARTBEAT"}"#;
    let separator = "\r\n";
    let data = format!("{msg_one}{separator}{msg_two_pt_one}");

    let mut codec = StreamAPIClientCodec;
    let mut buf = data.as_bytes().to_vec();
    let decoded_one = codec.decode(&mut buf).unwrap();
    let msg_two_attempt = codec.decode(&mut buf);
    assert!(msg_two_attempt.is_none());
    buf.extend_from_slice(msg_two_pt_two.as_bytes());
    buf.extend_from_slice(separator.as_bytes());
    let decoded_two = codec.decode(&mut buf).unwrap();

    assert_eq!(decoded_one, msg_one.as_bytes());
    assert_eq!(decoded_two, format!("{msg_two_pt_one}{msg_two_pt_two}").as_bytes());
}

#[test]
fn tls_sream_can_decode_subsequent_messages() {
    let msg_one = r#"{"op":"connection","connectionId":"002-051134157842-432409"}"#;
    let msg_two = r#"{"op":"ocm","id":3,"clk":"AAAAAAAA","status":503,"pt":1498137379766,"ct":"HEARTBEAT"}"#;
    let separator = "\r\n";
    let data = format!("{msg_one}{separator}");

    let mut codec = StreamAPIClientCodec;
    let mut buf = data.as_bytes().to_vec();
    let decoded_one = codec.decode(&mut buf).unwrap();
    let msg_two_attempt = codec.decode(&mut buf);
    assert!(msg_two_attempt.is_none());
    let data = format!("{msg_two}{separator}");
    buf.extend_from_slice(data.as_bytes());
    let decoded_two = codec.decode(&mut buf).unwrap();

    assert_eq!(decoded_one, msg_one.as_bytes());
    assert_eq!(decoded_two, msg_two.as_bytes());
}

#[test]
fn tls_sream_can_encode_message() {
    let json = r#"{"op":"authentication","id":1,"session":"sss","appKey":"aaaa"}"#;
    let mut codec = StreamAPIClientCodec;
    let mut buf = Vec::new();
    codec.encode(json.as_bytes(), &mut buf);

    let data = core::str::from_utf8(&buf).unwrap();

    // assert that we have the suffix \r\n
    assert!(data.ends_with("\r\n"));
    // assert that we have the prefix {"op":"authentication"
    assert!(data.starts_with("{\"op\":\"authentication\""));
}

#[test]
fn raw_stream_connection_can_decode_single_message() {
    let msg = r#"{"op":"connection","connectionId":"002-051134157842-432409"}"#;
    let separator = "\r\n";
    let data = format!("{msg}{separator}");

    let mut codec = StreamAPIClientCodec;
    let mut buf = data.as_bytes().to_vec();
    let decoded = codec.decode(&mut buf).unwrap();

    assert_eq!(decoded, msg.as_bytes());
    assert!(buf.is_empty());
}

#[test]
fn raw_stream_connection_can_decode_multiple_messages() {
    let msg_one = r#"{"op":"connection","connectionId":"002-051134157842-432409"}"#;
    let msg_two = r#"{"op":"ocm","id":3,"clk":"AAAAAAAA","status":503,"pt":1498137379766,"ct":"HEARTBEAT"}"#;
    let separator = "\r\n";
    let data = format!("{msg_one}{separator}{msg_two}{separator}");

    let mut codec = StreamAPIClientCodec;
    let mut buf = data.as_bytes().to_vec();
    let decoded_one = codec.decode(&mut buf).unwrap();
    let decoded_two = codec.decode(&mut buf).unwrap();

    assert_eq!(decoded_one, msg_one.as_bytes());
    assert_eq!(decoded_two, msg_two.as_bytes());
}

#[test]
fn raw_stream_connection_can_decode_multiple_partial_messages() {
    let msg_one = r#"{"op":"connection","connectionId":"002-051134157842-432409"}"#;
    let msg_two_pt_one = r#"{"op":"ocm","id":3,"clk""#;
    let msg_two_pt_two = r#":"AAAAAAAA","status":503,"pt":1498137379766,"ct":"HEARTBEAT"}"#;
    let separator = "\r\n";
    let data = format!("{msg_one}{separator}{msg_two_pt_one}");

    let mut codec = StreamAPIClientCodec;
    let mut buf = data.as_bytes().to_vec();
    let decoded_one = codec.decode(&mut buf).unwrap();
    let msg_two_attempt = codec.decode(&mut buf);
    assert!(msg_two_attempt.is_none());
    buf.extend_from_slice(msg_two_pt_two.as_bytes());
    buf.extend_from_slice(separator.as_bytes());
    let decoded_two = codec.decode(&mut buf).unwrap();

    assert_eq!(decoded_one, msg_one.as_bytes());
    assert_eq!(decoded_two, format!("{msg_two_pt_one}{msg_two_pt_two}").as_bytes());
}

#[test]
fn raw_stream_connection_can_decode_subsequent_messages() {
    let msg_one = r#"{"op":"connection","connectionId":"002-051134157842-432409"}"#;
    let msg_two = r#"{"op":"ocm","id":3,"clk":"AAAAAAAA","status":503,"pt":1498137379766,"ct":"HEARTBEAT"}"#;
    let separator = "\r\n";
    let data = format!("{msg_one}{separator}");

    let mut codec = StreamAPIClientCodec;
    let mut buf = data.as_bytes().to_vec();
    let decoded_one = codec.decode(&mut buf).unwrap();
    let msg_two_attempt = codec.decode(&mut buf);
    assert!(msg_two_attempt.is_none());
    let data = format!("{msg_two}{separator}");
    buf.extend_from_slice(data.as_bytes());
    let decoded_two = codec.decode(&mut buf).unwrap();

    assert_eq!(decoded_one, msg_one.as_bytes());
    assert_eq!(decoded_two, msg_two.as_bytes());
}

#[test]
fn raw_stream_connection_can_encode_message() {
    let json = r#"{"op":"authentication","id":1,"session":"sss","appKey":"aaaa"}"#;
    let mut codec = StreamAPIClientCodec;
    let mut buf = Vec::new();
    codec.encode(json.as_bytes(), &mut buf);

    let data = core::str::from_utf8(&buf).unwrap();

    // assert that we have the suffix \r\n
    assert!(data.ends_with("\r\n"));
    // assert that we have the prefix {"op":"authentication"
    assert!(data.starts_with("{\"op\":\"authentication\""));
}

#[test]
fn client_decode_accepts_bare_line_feed() {
    let mut codec = StreamAPIClientCodec;
    let mut buf = b"{\"a\":1}\n{\"b\":2}\r\nrest".to_vec();
    assert_eq!(codec.decode(&mut buf).unwrap(), b"{\"a\":1}".to_vec());
    assert_eq!(codec.decode(&mut buf).unwrap(), b"{\"b\":2}".to_vec());
    assert!(codec.decode(&mut buf).is_none());
    assert_eq!(buf, b"rest".to_vec());
}

#[test]
fn client_reads_back_what_it_frames() {
    let mut codec = StreamAPIClientCodec;
    let mut buf = Vec::new();
    codec.encode(b"{\"op\":\"heartbeat\"}", &mut buf);
    codec.encode(b"{\"op\":\"heartbeat\",\"id\":2}", &mut buf);
    assert_eq!(codec.decode(&mut buf).unwrap(), b"{\"op\":\"heartbeat\"}".to_vec());
    assert_eq!(codec.decode(&mut buf).unwrap(), b"{\"op\":\"heartbeat\",\"id\":2}".to_vec());
    assert!(buf.is_empty());
}

#[test]
fn server_decode_strips_only_the_line_feed() {
    let mut codec = StreamAPIServerCodec;
    let mut buf = Vec::new();
    codec.encode(b"{\"op\":\"heartbeat\"}", &mut buf);
    assert_eq!(buf, b"{\"op\":\"heartbeat\"}\r\n".to_vec());
    assert_eq!(codec.decode(&mut buf).unwrap(), b"{\"op\":\"heartbeat\"}\r".to_vec());
    assert!(codec.decode(&mut buf).is_none());
}

#[test]
fn decode_of_empty_line() {
    let mut codec = StreamAPIClientCodec;
    let mut buf = b"\n\r\nx".to_vec();
    assert_eq!(codec.decode(&mut buf).unwrap(), Vec::<u8>::new());
    assert_eq!(codec.decode(&mut buf).unwrap(), Vec::<u8>::new());
    assert_eq!(buf, b"x".to_vec());
}
