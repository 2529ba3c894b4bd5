//! The P1411 frame protocol: a frame is the magic byte, its total length, the
//! big-endian CRC-32 of its body, and the body (a type byte, a reserved byte
//! and a JSON object). Requests are framed here; responses are checked here
//! before their JSON is read, and the settings they carry are validated.

use vstd::prelude::*;
use vstd::utf8::{decode_utf8, valid_utf8};
use crate::failures::{self, is_invalid_frame};
use crate::failures::failure_is;
use crate::model::{DeviceIdentity, DeviceRole, OperationFailure, RadioBand, RadioConfiguration};
use crate::environment::code_for_role;
use crate::text::{is_text, text, text_bytes};

verus! {

/// The first byte of every frame.
pub const MAGIC: u8 = 0xaa;
/// The body type of a request.
pub const REQUEST_TYPE: u8 = 0x01;
/// The body type of a response.
pub const RESPONSE_TYPE: u8 = 0x02;
/// The reserved body byte.
pub const RESERVED: u8 = 0x00;

/// One step of the reflected CRC-32 register (polynomial 0xedb88320).
pub open spec fn crc_shift(c: u32) -> u32 {
    if c & 1 == 1 { (c >> 1) ^ 0xedb8_8320u32 } else { c >> 1 }
}

/// `n` steps of the register.
pub open spec fn crc_shifts(c: u32, n: nat) -> u32
    decreases n,
{
    if n == 0 { c } else { crc_shift(crc_shifts(c, (n - 1) as nat)) }
}

/// The register after feeding `bytes`, starting from all ones.
pub open spec fn crc_register(bytes: Seq<u8>) -> u32
    decreases bytes.len(),
{
    if bytes.len() == 0 {
        0xffff_ffffu32
    } else {
        crc_shifts(crc_register(bytes.drop_last()) ^ (bytes.last() as u32), 8)
    }
}

/// The CRC-32 (IEEE) of `bytes`.
pub open spec fn crc32_of(bytes: Seq<u8>) -> u32 {
    !crc_register(bytes)
}

/// The CRC-32 (IEEE) of a byte string.
pub fn crc32(bytes: &[u8]) -> (r: u32)
    ensures
        r == crc32_of(bytes@),
{
    let mut crc: u32 = 0xffff_ffff;
    let mut i: usize = 0;
    while i < bytes.len()
        invariant
            i <= bytes@.len(),
            crc == crc_register(bytes@.take(i as int)),
        decreases bytes@.len() - i,
    {
        assert(bytes@.take(i + 1 as int).drop_last() =~= bytes@.take(i as int));
        let start: u32 = crc ^ (bytes[i] as u32);
        crc = start;
        let mut k: u32 = 0;
        while k < 8
            invariant
                k <= 8,
                crc == crc_shifts(start, k as nat),
            decreases 8 - k,
        {
            crc = if crc & 1 == 1 { (crc >> 1) ^ 0xedb8_8320 } else { crc >> 1 };
            k = k + 1;
        }
        i = i + 1;
    }
    assert(bytes@.take(bytes@.len() as int) =~= bytes@);
    !crc
}

/// The four big-endian bytes of `x`.
pub open spec fn be_bytes(x: u32) -> Seq<u8> {
    seq![(x / 0x100_0000) as u8, (x / 0x1_0000 % 0x100) as u8, (x / 0x100 % 0x100) as u8, (x % 0x100) as u8]
}

/// The number that four big-endian bytes give.
pub open spec fn be_value(a: u8, b: u8, c: u8, d: u8) -> int {
    a * 0x100_0000 + b * 0x1_0000 + c * 0x100 + d
}

/// The frame that carries `body`.
pub open spec fn framed(body: Seq<u8>) -> Seq<u8> {
    seq![MAGIC, (body.len() + 6) as u8] + be_bytes(crc32_of(body)) + body
}

/// The request frame that carries the JSON object `json`.
pub open spec fn request_frame(json: Seq<u8>) -> Seq<u8> {
    framed(seq![REQUEST_TYPE, RESERVED] + json)
}

/// Frames a request whose JSON object is `json`; a frame longer than the
/// qualified 255 bytes is refused.
pub fn encode_request(json: &[u8]) -> (r: Result<Vec<u8>, OperationFailure>)
    ensures
        json@.len() + 8 > 255 ==> (r matches Err(f) && is_invalid_frame(f, "The device request exceeds the qualified frame size.")),
        json@.len() + 8 <= 255 ==> (r matches Ok(frame) && frame@ == request_frame(json@)),
{
    if json.len() > 255 - 8 {
        return Err(failures::invalid_frame("The device request exceeds the qualified frame size."));
    }
    let total: u8 = (json.len() + 8) as u8;
    let mut body: Vec<u8> = Vec::new();
    body.push(REQUEST_TYPE);
    body.push(RESERVED);
    for i in 0..json.len()
        invariant
            body@ == seq![REQUEST_TYPE, RESERVED] + json@.take(i as int),
    {
        body.push(json[i]);
        assert(json@.take(i + 1 as int) =~= json@.take(i as int).push(json@[i as int]));
    }
    assert(json@.take(json@.len() as int) =~= json@);
    let crc = crc32(body.as_slice());
    let mut frame: Vec<u8> = Vec::new();
    frame.push(MAGIC);
    frame.push(total);
    frame.push((crc / 0x100_0000) as u8);
    frame.push((crc / 0x1_0000 % 0x100) as u8);
    frame.push((crc / 0x100 % 0x100) as u8);
    frame.push((crc % 0x100) as u8);
    for i in 0..body.len()
        invariant
            frame@ == seq![MAGIC, total] + be_bytes(crc) + body@.take(i as int),
    {
        frame.push(body[i]);
        assert(body@.take(i + 1 as int) =~= body@.take(i as int).push(body@[i as int]));
    }
    assert(body@.take(body@.len() as int) =~= body@);
    assert(frame@ =~= request_frame(json@));
    Ok(frame)
}

/// The frame passes every check of a response: magic byte, exact length,
/// response type, reserved byte and body checksum.
pub open spec fn is_response_frame(frame: Seq<u8>) -> bool {
    &&& frame.len() >= 8
    &&& frame[0] == MAGIC
    &&& frame[1] == frame.len()
    &&& frame[6] == RESPONSE_TYPE
    &&& frame[7] == RESERVED
    &&& be_value(frame[2], frame[3], frame[4], frame[5]) == crc32_of(frame.subrange(6, frame.len() as int))
}

/// The JSON bytes of a frame.
pub open spec fn frame_json(frame: Seq<u8>) -> Seq<u8> {
    frame.subrange(8, frame.len() as int)
}

/// The text that UTF-8 bytes encode, when they are valid UTF-8
/// (`std::str::from_utf8`, which fails exactly on invalid UTF-8).
#[verifier::external_body]
fn utf8_text(bytes: &[u8]) -> (r: Option<String>)
    ensures
        match r {
            Some(s) => valid_utf8(bytes@) && s@ == decode_utf8(bytes@),
            None => !valid_utf8(bytes@),
        },
{
    match std::str::from_utf8(bytes) {
        Ok(text) => Some(text.to_owned()),
        Err(_) => None,
    }
}

/// Checks a response frame and returns the JSON text of its body.
pub fn response_text(frame: &[u8]) -> (r: Result<String, OperationFailure>)
    ensures
        !is_response_frame(frame@) ==> (r matches Err(f) && is_invalid_frame(f, "The Puppis returned an invalid protocol frame.")),
        is_response_frame(frame@) && !valid_utf8(frame_json(frame@)) ==> (r matches Err(f) && is_invalid_frame(f, "The Puppis returned invalid text.")),
        is_response_frame(frame@) && valid_utf8(frame_json(frame@)) ==> (r matches Ok(s) && s@ == decode_utf8(frame_json(frame@))),
{
    let n = frame.len();
    if n < 8 || frame[0] != MAGIC || (frame[1] as usize) != n || frame[6] != RESPONSE_TYPE || frame[7] != RESERVED {
        return Err(failures::invalid_frame("The Puppis returned an invalid protocol frame."));
    }
    let stated: u32 = (frame[2] as u32) * 0x100_0000 + (frame[3] as u32) * 0x1_0000 + (frame[4] as u32) * 0x100 + (frame[5] as u32);
    let mut body: Vec<u8> = Vec::new();
    let mut json: Vec<u8> = Vec::new();
    for i in 6..n
        invariant
            n == frame@.len(),
            8 <= n,
            body@ == frame@.subrange(6, i as int),
            json@ == frame@.subrange(8, if i < 8 { 8 } else { i as int }),
    {
        body.push(frame[i]);
        if i >= 8 {
            json.push(frame[i]);
        }
        assert(body@ =~= frame@.subrange(6, i + 1 as int));
        assert(json@ =~= frame@.subrange(8, if i + 1 < 8 { 8 } else { i + 1 as int }));
    }
    if stated != crc32(body.as_slice()) {
        return Err(failures::invalid_frame("The Puppis returned an invalid protocol frame."));
    }
    match utf8_text(json.as_slice()) {
        Some(text) => Ok(text),
        None => Err(failures::invalid_frame("The Puppis returned invalid text.")),
    }
}


/// A value of the response's `data` object, as far as the protocol reads it.
#[derive(Debug, Clone, PartialEq, Eq)]
pub enum ResponseValue {
    /// A JSON string.
    Text(String),
    /// Any other JSON value.
    Other,
}

/// A member of the response's `data` object.
#[derive(Debug, Clone, PartialEq, Eq)]
pub struct ResponseMember {
    pub key: String,
    pub value: ResponseValue,
}

/// A response object: the function it answers, the members of its `data`
/// object (none when `data` is absent or not an object) and its status.
#[derive(Debug, Clone, PartialEq, Eq)]
pub struct ProtocolResponse {
    pub function: String,
    pub data: Vec<ResponseMember>,
    pub status: String,
}

/// The string value of the first member named `key`, if it is a string.
pub open spec fn member_text(data: Seq<ResponseMember>, key: Seq<char>) -> Option<Seq<char>>
    decreases data.len(),
{
    if data.len() == 0 {
        None
    } else if data[0].key@ == key {
        match data[0].value {
            ResponseValue::Text(s) => Some(s@),
            ResponseValue::Other => None,
        }
    } else {
        member_text(data.drop_first(), key)
    }
}

/// The non-empty string value of the member named `key`.
pub open spec fn required_text(data: Seq<ResponseMember>, key: Seq<char>) -> Option<Seq<char>> {
    match member_text(data, key) {
        Some(t) => if t.len() > 0 { Some(t) } else { None },
        None => None,
    }
}

/// The failure for a response without a required setting.
pub open spec fn is_setting_omitted(f: OperationFailure) -> bool {
    is_invalid_frame(f, "The Puppis response omitted a required setting.")
}

/// Accepts a decoded response object (`None` when the JSON text was not a
/// response object) as the answer to `expected_function`.
pub fn accept_response(parsed: Option<ProtocolResponse>, expected_function: &str) -> (r: Result<ProtocolResponse, OperationFailure>)
    ensures
        parsed is None ==> (r matches Err(f) && is_invalid_frame(f, "The Puppis returned an invalid response object.")),
        parsed matches Some(p) ==> if p.function@ == expected_function@ {
            r == Ok::<ProtocolResponse, OperationFailure>(p)
        } else {
            r matches Err(f) && failures::is_response_mismatch(f)
        },
{
    match parsed {
        None => Err(failures::invalid_frame("The Puppis returned an invalid response object.")),
        Some(p) => if is_text(&p.function, expected_function) {
            Ok(p)
        } else {
            Err(failures::response_mismatch_failure())
        },
    }
}

/// A getter answered successfully.
pub fn ensure_success(response: &ProtocolResponse) -> (r: Result<(), OperationFailure>)
    ensures
        response.status@ == "ok"@ ==> r is Ok,
        response.status@ != "ok"@ ==> (r matches Err(f) && is_invalid_frame(f, "The Puppis returned an unsuccessful getter response.")),
{
    if is_text(&response.status, "ok") {
        Ok(())
    } else {
        Err(failures::invalid_frame("The Puppis returned an unsuccessful getter response."))
    }
}

/// The string value of the member named `key`, possibly empty.
fn required_string_allow_empty(data: &Vec<ResponseMember>, key: &str) -> (r: Result<String, OperationFailure>)
    ensures
        match member_text(data@, key@) {
            Some(t) => r matches Ok(s) && s@ == t,
            None => r matches Err(f) && is_setting_omitted(f),
        },
{
    let mut i: usize = 0;
    assert(data@.skip(0) =~= data@);
    while i < data.len()
        invariant
            i <= data@.len(),
            member_text(data@, key@) == member_text(data@.skip(i as int), key@),
        decreases data@.len() - i,
    {
        assert(data@.skip(i as int)[0] == data@[i as int]);
        assert(data@.skip(i as int).drop_first() =~= data@.skip(i + 1 as int));
        if is_text(&data[i].key, key) {
            return match &data[i].value {
                ResponseValue::Text(s) => Ok(s.clone()),
                ResponseValue::Other => Err(failures::invalid_frame("The Puppis response omitted a required setting.")),
            };
        }
        i = i + 1;
    }
    Err(failures::invalid_frame("The Puppis response omitted a required setting."))
}

/// The non-empty string value of the member named `key`.
fn required_string(data: &Vec<ResponseMember>, key: &str) -> (r: Result<String, OperationFailure>)
    ensures
        match required_text(data@, key@) {
            Some(t) => r matches Ok(s) && s@ == t,
            None => r matches Err(f) && is_setting_omitted(f),
        },
{
    let value = required_string_allow_empty(data, key)?;
    if value.as_str().is_empty() {
        Err(failures::invalid_frame("The Puppis response omitted a required setting."))
    } else {
        Ok(value)
    }
}

/// The identity that a `getDevice` response reports.
pub fn read_device_identity(response: &ProtocolResponse) -> (r: Result<DeviceIdentity, OperationFailure>)
    ensures
        response.status@ != "ok"@ ==> (r matches Err(f) && is_invalid_frame(f, "The Puppis returned an unsuccessful getter response.")),
        response.status@ == "ok"@ ==> match (required_text(response.data@, "model"@), required_text(response.data@, "fw"@), required_text(response.data@, "mode"@)) {
            (Some(model), Some(firmware), Some(mode)) =>
                r matches Ok(i) && i.model@ == model && i.firmware@ == firmware && i.role_code@ == mode,
            _ => r matches Err(f) && is_setting_omitted(f),
        },
{
    ensure_success(response)?;
    let model = required_string(&response.data, "model")?;
    let firmware = required_string(&response.data, "fw")?;
    let role_code = required_string(&response.data, "mode")?;
    Ok(DeviceIdentity { model, firmware, role_code })
}

/// Every byte is an ASCII digit.
pub open spec fn is_numeric(s: Seq<char>) -> bool {
    forall|i: int| 0 <= i < text_bytes(s).len() ==> 48 <= #[trigger] text_bytes(s)[i] <= 57
}

/// Two ASCII capital letters.
pub open spec fn is_country_code(s: Seq<char>) -> bool {
    &&& text_bytes(s).len() == 2
    &&& forall|i: int| 0 <= i < 2 ==> 65 <= #[trigger] text_bytes(s)[i] <= 90
}

/// The settings of a radio lie inside the validated schema.
pub open spec fn is_radio_schema(ssid: Seq<char>, protection: Seq<char>, channel: Seq<char>, country: Seq<char>,
    enabled: Seq<char>, encryption: Seq<char>, bandwidth: Seq<char>) -> bool
{
    &&& text_bytes(ssid).len() <= 32
    &&& is_numeric(protection)
    &&& is_numeric(channel)
    &&& is_country_code(country)
    &&& (enabled == "0"@ || enabled == "1"@)
    &&& is_numeric(encryption)
    &&& is_numeric(bandwidth)
}

/// The radio response carries every setting.
pub open spec fn has_radio_settings(data: Seq<ResponseMember>) -> bool {
    &&& required_text(data, "ssid"@) is Some
    &&& member_text(data, "pwd"@) is Some
    &&& required_text(data, "pt"@) is Some
    &&& required_text(data, "ch"@) is Some
    &&& required_text(data, "code"@) is Some
    &&& required_text(data, "en"@) is Some
    &&& required_text(data, "encrypt"@) is Some
    &&& required_text(data, "bw"@) is Some
}

/// The radio settings carried by `data` lie inside the validated schema.
pub open spec fn radio_settings_valid(data: Seq<ResponseMember>) -> bool {
    is_radio_schema(required_text(data, "ssid"@)->0, required_text(data, "pt"@)->0, required_text(data, "ch"@)->0,
        required_text(data, "code"@)->0, required_text(data, "en"@)->0, required_text(data, "encrypt"@)->0,
        required_text(data, "bw"@)->0)
}

fn numeric(s: &String) -> (r: bool)
    ensures
        r == is_numeric(s@),
{
    let b = s.as_str().as_bytes();
    for i in 0..b.len()
        invariant
            b@ == text_bytes(s@),
            forall|j: int| 0 <= j < i ==> 48 <= #[trigger] b@[j] <= 57,
    {
        if b[i] < 48 || b[i] > 57 {
            return false;
        }
    }
    true
}

fn country_code(s: &String) -> (r: bool)
    ensures
        r == is_country_code(s@),
{
    let b = s.as_str().as_bytes();
    b.len() == 2 && 65 <= b[0] && b[0] <= 90 && 65 <= b[1] && b[1] <= 90
}

/// The complete settings object that a radio getter reports, validated
/// against the schema before it may be preserved or restored.
pub fn read_radio(response: &ProtocolResponse) -> (r: Result<RadioConfiguration, OperationFailure>)
    ensures
        response.status@ != "ok"@ ==> (r matches Err(f) && is_invalid_frame(f, "The Puppis returned an unsuccessful getter response.")),
        response.status@ == "ok"@ && !has_radio_settings(response.data@) ==> (r matches Err(f) && is_setting_omitted(f)),
        response.status@ == "ok"@ && has_radio_settings(response.data@) && !radio_settings_valid(response.data@) ==>
            (r matches Err(f) && is_invalid_frame(f, "The Puppis returned radio settings outside the validated schema.")),
        response.status@ == "ok"@ && has_radio_settings(response.data@) && radio_settings_valid(response.data@) ==> (r matches Ok(c) && {
            &&& c.ssid@ == required_text(response.data@, "ssid"@)->0
            &&& c.password@ == member_text(response.data@, "pwd"@)->0
            &&& c.protection@ == required_text(response.data@, "pt"@)->0
            &&& c.channel@ == required_text(response.data@, "ch"@)->0
            &&& c.country@ == required_text(response.data@, "code"@)->0
            &&& c.enabled@ == required_text(response.data@, "en"@)->0
            &&& c.encryption@ == required_text(response.data@, "encrypt"@)->0
            &&& c.bandwidth@ == required_text(response.data@, "bw"@)->0
        }),
{
    ensure_success(response)?;
    let data = &response.data;
    let radio = RadioConfiguration {
        ssid: required_string(data, "ssid")?,
        password: required_string_allow_empty(data, "pwd")?,
        protection: required_string(data, "pt")?,
        channel: required_string(data, "ch")?,
        country: required_string(data, "code")?,
        enabled: required_string(data, "en")?,
        encryption: required_string(data, "encrypt")?,
        bandwidth: required_string(data, "bw")?,
    };
    let valid = radio.ssid.as_str().as_bytes().len() <= 32
        && numeric(&radio.protection)
        && numeric(&radio.channel)
        && country_code(&radio.country)
        && (is_text(&radio.enabled, "0") || is_text(&radio.enabled, "1"))
        && numeric(&radio.encryption)
        && numeric(&radio.bandwidth);
    if !valid {
        return Err(failures::invalid_frame("The Puppis returned radio settings outside the validated schema."));
    }
    Ok(radio)
}

/// The failure for a mutation that the device rejected.
pub open spec fn is_mutation_rejected(f: OperationFailure, message: &str, guidance: &str) -> bool {
    failure_is(f, "device_mutation_rejected", message, guidance)
}

/// The outcome of a radio settings write, from the device's answer.
pub fn radio_write_result(response: &ProtocolResponse) -> (r: Result<(), OperationFailure>)
    ensures
        response.status@ == "ok"@ ==> r is Ok,
        response.status@ != "ok"@ ==> (r matches Err(f) && is_mutation_rejected(f,
            "The Puppis rejected the requested settings transaction.",
            "The manager will reconcile the observed state before another mutation.")),
{
    if is_text(&response.status, "ok") {
        Ok(())
    } else {
        Err(OperationFailure::safe("device_mutation_rejected", "The Puppis rejected the requested settings transaction.",
            "The manager will reconcile the observed state before another mutation."))
    }
}

/// The outcome of a role write, from the device's answer.
pub fn role_write_result(response: &ProtocolResponse) -> (r: Result<(), OperationFailure>)
    ensures
        response.status@ == "ok"@ ==> r is Ok,
        response.status@ != "ok"@ ==> (r matches Err(f) && is_mutation_rejected(f,
            "The Puppis rejected the requested role transition.",
            "The manager will reconcile the observed role.")),
{
    if is_text(&response.status, "ok") {
        Ok(())
    } else {
        Err(OperationFailure::safe("device_mutation_rejected", "The Puppis rejected the requested role transition.",
            "The manager will reconcile the observed role."))
    }
}

/// The getter that reads a radio.
pub open spec fn radio_getter_name(band: RadioBand) -> Seq<char> {
    match band {
        RadioBand::FiveGhz => "get5GHotspot"@,
        RadioBand::TwoPointFourGhz => "get2GHotspot"@,
    }
}

/// The command that writes a radio.
pub open spec fn radio_setter_name(band: RadioBand) -> Seq<char> {
    match band {
        RadioBand::FiveGhz => "set5GHotspot"@,
        RadioBand::TwoPointFourGhz => "set2GHotspot"@,
    }
}

/// The getter that reads a radio.
pub fn radio_getter(band: RadioBand) -> (r: &'static str)
    ensures
        r@ == radio_getter_name(band),
{
    match band {
        RadioBand::FiveGhz => "get5GHotspot",
        RadioBand::TwoPointFourGhz => "get2GHotspot",
    }
}

/// The command that writes a radio.
pub fn radio_setter(band: RadioBand) -> (r: &'static str)
    ensures
        r@ == radio_setter_name(band),
{
    match band {
        RadioBand::FiveGhz => "set5GHotspot",
        RadioBand::TwoPointFourGhz => "set2GHotspot",
    }
}

/// The arguments of a radio write: the complete settings object under its
/// protocol keys, in key order.
pub fn radio_arguments(radio: &RadioConfiguration) -> (r: Vec<(String, String)>)
    ensures
        r@.len() == 8,
        r@[0].0@ == "bw"@ && r@[0].1@ == radio.bandwidth@,
        r@[1].0@ == "ch"@ && r@[1].1@ == radio.channel@,
        r@[2].0@ == "code"@ && r@[2].1@ == radio.country@,
        r@[3].0@ == "en"@ && r@[3].1@ == radio.enabled@,
        r@[4].0@ == "encrypt"@ && r@[4].1@ == radio.encryption@,
        r@[5].0@ == "pt"@ && r@[5].1@ == radio.protection@,
        r@[6].0@ == "pwd"@ && r@[6].1@ == radio.password@,
        r@[7].0@ == "ssid"@ && r@[7].1@ == radio.ssid@,
{
    let mut r: Vec<(String, String)> = Vec::new();
    r.push((text("bw"), radio.bandwidth.clone()));
    r.push((text("ch"), radio.channel.clone()));
    r.push((text("code"), radio.country.clone()));
    r.push((text("en"), radio.enabled.clone()));
    r.push((text("encrypt"), radio.encryption.clone()));
    r.push((text("pt"), radio.protection.clone()));
    r.push((text("pwd"), radio.password.clone()));
    r.push((text("ssid"), radio.ssid.clone()));
    r
}

/// The arguments of a role write.
pub fn role_arguments(role: DeviceRole) -> (r: Vec<(String, String)>)
    ensures
        r@.len() == 1,
        r@[0].0@ == "mode"@ && r@[0].1@ == code_for_role(role),
{
    let mut r: Vec<(String, String)> = Vec::new();
    r.push((text("mode"), role.code()));
    r
}

/// The failure for a device that does not answer the protocol.
pub open spec fn is_protocol_unreachable(f: OperationFailure) -> bool {
    failure_is(f, "protocol_unreachable", "The Puppis protocol is not reachable.", "Check the Puppis-facing host network and try again.")
}

/// Reports a device that does not answer the protocol.
pub fn unreachable_failure() -> (f: OperationFailure)
    ensures
        is_protocol_unreachable(f),
{
    OperationFailure::safe("protocol_unreachable", "The Puppis protocol is not reachable.", "Check the Puppis-facing host network and try again.")
}

/// A frame header whose length byte cannot hold a frame.
pub fn frame_length_failure() -> (f: OperationFailure)
    ensures
        is_invalid_frame(f, "The Puppis returned an invalid frame length."),
{
    failures::invalid_frame("The Puppis returned an invalid frame length.")
}

} // verus!
