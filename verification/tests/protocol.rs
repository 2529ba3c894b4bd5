use puppis_core::protocol::{
    accept_response, crc32, encode_request, radio_arguments, read_device_identity, read_radio,
    response_text, ProtocolResponse, ResponseMember, ResponseValue,
};
use puppis_core::{OperationFailure, RadioConfiguration, QUALIFIED_FIRMWARE};

const GET_DEVICE_REQUEST: &str =
    "aa25bd52005d01007b2266756e223a22676574446576696365222c2261726773223a7b7d7d";
const REDACTED_DEVICE_RESPONSE: &str = "aac887937b9402007b2266756e223a22676574446576696365222c2264617461223a7b226d6f6465223a2231222c22616c696173223a225031343131222c226d6f64656c223a225031343131222c22706e223a22507269736d585220507570706973205331222c22736e223a225b52454441435445445d222c226677223a22422d4d443246503134313156312e32322d3235303130382d7230653137222c2273747265616d223a2231222c227374696d65223a22373636227d2c22737461747573223a226f6b227d";

/// The response object that a JSON text holds, as the protocol reads it.
fn parse(text: &str) -> Option<ProtocolResponse> {
    let value: serde_json::Value = serde_json::from_str(text).ok()?;
    let object = value.as_object()?;
    let function = object.get("fun")?.as_str()?.to_owned();
    let status = object.get("status")?.as_str()?.to_owned();
    let data = match object.get("data").and_then(|d| d.as_object()) {
        Some(members) => members
            .iter()
            .map(|(key, value)| ResponseMember {
                key: key.clone(),
                value: match value.as_str() {
                    Some(text) => ResponseValue::Text(text.to_owned()),
                    None => ResponseValue::Other,
                },
            })
            .collect(),
        None => Vec::new(),
    };
    Some(ProtocolResponse { function, data, status })
}

fn decode_response(frame: &[u8], expected: &str) -> Result<ProtocolResponse, OperationFailure> {
    let text = response_text(frame)?;
    accept_response(parse(&text), expected)
}

fn text_of(response: &ProtocolResponse, key: &str) -> Option<String> {
    response.data.iter().find(|m| m.key == key).and_then(|m| match &m.value {
        ResponseValue::Text(t) => Some(t.clone()),
        ResponseValue::Other => None,
    })
}

fn changed(frame: &[u8], index: usize, byte: u8) -> Vec<u8> {
    let mut changed = frame.to_vec();
    changed[index] = byte;
    changed
}

fn reframed(json: &[u8]) -> Vec<u8> {
    let mut body = vec![2, 0];
    body.extend_from_slice(json);
    let mut frame = vec![0xaa, (body.len() + 6) as u8];
    frame.extend_from_slice(&crc32(&body).to_be_bytes());
    frame.extend_from_slice(&body);
    frame
}

fn unhex(value: &str) -> Vec<u8> {
    value
        .as_bytes()
        .chunks_exact(2)
        .map(|pair| u8::from_str_radix(std::str::from_utf8(pair).unwrap(), 16).unwrap())
        .collect()
}

fn hex(value: &[u8]) -> String {
    value.iter().map(|byte| format!("{byte:02x}")).collect()
}

fn member(key: &str, value: &str) -> ResponseMember {
    ResponseMember { key: key.into(), value: ResponseValue::Text(value.into()) }
}

#[test]
fn captured_getter_and_response_pass_the_strict_protocol_contract() {
    assert_eq!(
        hex(&encode_request(br#"{"fun":"getDevice","args":{}}"#).unwrap()),
        GET_DEVICE_REQUEST
    );
    let response = decode_response(&unhex(REDACTED_DEVICE_RESPONSE), "getDevice").unwrap();
    assert_eq!(text_of(&response, "model").as_deref(), Some("P1411"));
    assert_eq!(text_of(&response, "fw").as_deref(), Some(QUALIFIED_FIRMWARE));
}

#[test]
fn every_untrusted_frame_boundary_is_rejected() {
    let valid = unhex(REDACTED_DEVICE_RESPONSE);
    let cases = vec![
        changed(&valid, 0, 0xab),
        changed(&valid, 1, 8),
        changed(&valid, 2, valid[2] ^ 1),
        changed(&valid, 6, 1),
        changed(&valid, 7, 1),
        reframed(&[0xff, 0xfe]),
    ];
    for frame in cases {
        assert_eq!(
            decode_response(&frame, "getDevice").unwrap_err().code,
            "protocol_invalid_frame"
        );
    }
    assert_eq!(
        decode_response(&valid, "get5GHotspot").unwrap_err().code,
        "protocol_response_mismatch"
    );
}

#[test]
fn incomplete_or_wrongly_typed_radio_objects_are_rejected_before_preservation() {
    let complete = vec![
        member("ssid", "five"), member("pwd", "secret"), member("pt", "0"), member("ch", "36"),
        member("code", "CA"), member("en", "0"), member("encrypt", "5"), member("bw", "160"),
    ];
    let response = |data: Vec<ResponseMember>| ProtocolResponse {
        function: "get5GHotspot".into(),
        data,
        status: "ok".into(),
    };
    assert!(read_radio(&response(complete.clone())).is_ok());
    let missing: Vec<ResponseMember> = complete.iter().filter(|m| m.key != "encrypt").cloned().collect();
    assert!(read_radio(&response(missing)).is_err());
    let mut wrong_type = complete;
    wrong_type[7] = ResponseMember { key: "bw".into(), value: ResponseValue::Other };
    assert!(read_radio(&response(wrong_type)).is_err());
}

#[test]
fn the_captured_identity_is_read_from_the_response() {
    let response = decode_response(&unhex(REDACTED_DEVICE_RESPONSE), "getDevice").unwrap();

    let identity = read_device_identity(&response).unwrap();

    assert_eq!(identity.model, "P1411");
    assert_eq!(identity.firmware, QUALIFIED_FIRMWARE);
    assert_eq!(identity.role_code, "1");
}

#[test]
fn unsuccessful_or_incomplete_identities_are_rejected() {
    let failed = ProtocolResponse { function: "getDevice".into(), data: Vec::new(), status: "error".into() };
    assert_eq!(
        read_device_identity(&failed).unwrap_err().message,
        "The Puppis returned an unsuccessful getter response."
    );
    let empty_model = ProtocolResponse {
        function: "getDevice".into(),
        data: vec![member("model", ""), member("fw", "x"), member("mode", "1")],
        status: "ok".into(),
    };
    assert_eq!(
        read_device_identity(&empty_model).unwrap_err().message,
        "The Puppis response omitted a required setting."
    );
}

#[test]
fn radio_settings_outside_the_schema_are_rejected() {
    let response = ProtocolResponse {
        function: "get5GHotspot".into(),
        data: vec![
            member("ssid", "five"), member("pwd", ""), member("pt", "0"), member("ch", "36"),
            member("code", "ca"), member("en", "0"), member("encrypt", "5"), member("bw", "160"),
        ],
        status: "ok".into(),
    };
    assert_eq!(
        read_radio(&response).err().unwrap().message,
        "The Puppis returned radio settings outside the validated schema."
    );
}

#[test]
fn oversized_requests_are_refused_and_the_checksum_is_crc32() {
    assert_eq!(crc32(b"123456789"), 0xcbf4_3926);
    assert_eq!(crc32(b""), 0);
    let json = vec![b'x'; 248];
    assert_eq!(
        encode_request(&json).unwrap_err().message,
        "The device request exceeds the qualified frame size."
    );
    assert_eq!(encode_request(&json[..247]).unwrap().len(), 255);
}

#[test]
fn radio_writes_carry_every_setting_in_key_order() {
    let radio = RadioConfiguration::fixture("five", "secret", "36", "CA", "160");
    let arguments = radio_arguments(&radio);
    let keys: Vec<&str> = arguments.iter().map(|(k, _)| k.as_str()).collect();
    assert_eq!(keys, ["bw", "ch", "code", "en", "encrypt", "pt", "pwd", "ssid"]);
    assert_eq!(arguments[6].1, "secret");
}
