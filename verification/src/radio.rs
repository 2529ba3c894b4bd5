//! Radio settings: which changes are qualified, what a valid network name
//! and password are, and the non-secret snapshot that the interface shows.

use vstd::prelude::*;
use crate::model::{
    radio_configuration_equal, texts, RadioBand, RadioConfiguration, RadioSnapshot,
    RadioSnapshotView, RadioUpdate,
};
use crate::text::{is_text, text, text_bytes};

verus! {

/// An ASCII letter or digit.
pub open spec fn is_ascii_alphanumeric(b: u8) -> bool {
    (48 <= b && b <= 57) || (65 <= b && b <= 90) || (97 <= b && b <= 122)
}

/// A byte of the qualified password alphabet: ASCII letters, digits and
/// the symbols ?!@&$%*_~^#-/.+:;=
pub open spec fn is_password_byte(b: u8) -> bool {
    is_ascii_alphanumeric(b) || b == 63 || b == 33 || b == 64 || b == 38 || b == 36
        || b == 37 || b == 42 || b == 95 || b == 126 || b == 94 || b == 35 || b == 45
        || b == 47 || b == 46 || b == 43 || b == 58 || b == 59 || b == 61
}

/// A network name of the qualified format: 1 to 18 ASCII letters or digits.
pub open spec fn is_valid_ssid(s: Seq<char>) -> bool {
    let b = text_bytes(s);
    &&& 0 < b.len() <= 18
    &&& forall|i: int| 0 <= i < b.len() ==> is_ascii_alphanumeric(#[trigger] b[i])
}

/// A password of the qualified format: 8 to 63 bytes of the qualified alphabet.
pub open spec fn is_valid_password(s: Seq<char>) -> bool {
    let b = text_bytes(s);
    &&& 8 <= b.len() <= 63
    &&& forall|i: int| 0 <= i < b.len() ==> is_password_byte(#[trigger] b[i])
}

fn alphanumeric(b: u8) -> (r: bool)
    ensures
        r == is_ascii_alphanumeric(b),
{
    (48 <= b && b <= 57) || (65 <= b && b <= 90) || (97 <= b && b <= 122)
}

fn password_byte(b: u8) -> (r: bool)
    ensures
        r == is_password_byte(b),
{
    alphanumeric(b) || b == 63 || b == 33 || b == 64 || b == 38 || b == 36
        || b == 37 || b == 42 || b == 95 || b == 126 || b == 94 || b == 35 || b == 45
        || b == 47 || b == 46 || b == 43 || b == 58 || b == 59 || b == 61
}

/// Whether a network name has the qualified format.
pub fn ssid_valid(s: &String) -> (r: bool)
    ensures
        r == is_valid_ssid(s@),
{
    let b = s.as_str().as_bytes();
    if b.len() == 0 || b.len() > 18 {
        return false;
    }
    for i in 0..b.len()
        invariant
            b@ == text_bytes(s@),
            forall|j: int| 0 <= j < i ==> is_ascii_alphanumeric(#[trigger] b@[j]),
    {
        if !alphanumeric(b[i]) {
            return false;
        }
    }
    true
}

/// Whether a password has the qualified format.
pub fn password_valid(s: &String) -> (r: bool)
    ensures
        r == is_valid_password(s@),
{
    let b = s.as_str().as_bytes();
    if b.len() < 8 || b.len() > 63 {
        return false;
    }
    for i in 0..b.len()
        invariant
            b@ == text_bytes(s@),
            forall|j: int| 0 <= j < i ==> is_password_byte(#[trigger] b@[j]),
    {
        if !password_byte(b[i]) {
            return false;
        }
    }
    true
}

/// The channels qualified for a radio: automatic ("0") and one fixed
/// channel, only on qualified firmware and only in Canada.
pub open spec fn qualified_channels_of(band: RadioBand, country: Seq<char>, qualified: bool) -> Seq<Seq<char>> {
    if qualified && country == "CA"@ {
        match band {
            RadioBand::FiveGhz => seq!["0"@, "36"@],
            RadioBand::TwoPointFourGhz => seq!["0"@, "6"@],
        }
    } else {
        Seq::empty()
    }
}

/// Why a password cannot be replaced, if it cannot.
pub open spec fn password_reason_of(band: RadioBand, qualified: bool) -> Option<Seq<char>> {
    if !qualified {
        Some("This exact firmware is not qualified for device mutations."@)
    } else if band == RadioBand::TwoPointFourGhz {
        Some("Password restoration has not completed reversible qualification."@)
    } else {
        None
    }
}

/// The non-secret snapshot of a radio's settings and capabilities.
pub open spec fn is_radio_snapshot_of(v: RadioSnapshotView, band: RadioBand, c: RadioConfiguration, qualified: bool) -> bool {
    v == RadioSnapshotView {
        band,
        ssid: c.ssid@,
        channel: c.channel@,
        country: c.country@,
        enabled: c.enabled@ == "1"@,
        bandwidth: c.bandwidth@,
        ssid_mutation: qualified,
        password_mutation: qualified && band == RadioBand::FiveGhz,
        qualified_channels: qualified_channels_of(band, c.country@, qualified),
        password_unavailable_reason: password_reason_of(band, qualified),
    }
}

/// The snapshot of one radio.
pub fn radio_snapshot(band: RadioBand, c: &RadioConfiguration, qualified: bool) -> (r: RadioSnapshot)
    ensures
        is_radio_snapshot_of(r@, band, *c, qualified),
{
    let mut channels: Vec<String> = Vec::new();
    if qualified && is_text(&c.country, "CA") {
        channels.push(text("0"));
        match band {
            RadioBand::FiveGhz => channels.push(text("36")),
            RadioBand::TwoPointFourGhz => channels.push(text("6")),
        }
    }
    let reason = if !qualified {
        Some(text("This exact firmware is not qualified for device mutations."))
    } else if band == RadioBand::TwoPointFourGhz {
        Some(text("Password restoration has not completed reversible qualification."))
    } else {
        None
    };
    let r = RadioSnapshot {
        band,
        ssid: c.ssid.clone(),
        channel: c.channel.clone(),
        country: c.country.clone(),
        enabled: is_text(&c.enabled, "1"),
        bandwidth: c.bandwidth.clone(),
        ssid_mutation: qualified,
        password_mutation: qualified && band == RadioBand::FiveGhz,
        qualified_channels: channels,
        password_unavailable_reason: reason,
    };
    assert(texts(r.qualified_channels@) =~= qualified_channels_of(band, c.country@, qualified));
    r
}

/// The settings that an update requests on top of `c`.
pub open spec fn is_updated_configuration(d: RadioConfiguration, c: RadioConfiguration, u: RadioUpdate) -> bool {
    &&& d.ssid@ == (match u.ssid { Some(s) => s@, None => c.ssid@ })
    &&& d.channel@ == (match u.channel { Some(s) => s@, None => c.channel@ })
    &&& d.password@ == (match u.password { Some(s) => s@, None => c.password@ })
    &&& d.protection == c.protection
    &&& d.country == c.country
    &&& d.enabled == c.enabled
    &&& d.encryption == c.encryption
    &&& d.bandwidth == c.bandwidth
}

/// `c` with the requested fields replaced.
pub fn updated_configuration(c: &RadioConfiguration, u: &RadioUpdate) -> (d: RadioConfiguration)
    ensures
        is_updated_configuration(d, *c, *u),
{
    let mut d = c.copied();
    match &u.ssid {
        Some(s) => d.ssid = s.clone(),
        None => {},
    }
    match &u.channel {
        Some(s) => d.channel = s.clone(),
        None => {},
    }
    match &u.password {
        Some(s) => d.password = s.clone(),
        None => {},
    }
    d
}

/// The text that names a band to the user.
pub open spec fn band_label(band: RadioBand) -> Seq<char> {
    match band {
        RadioBand::FiveGhz => "5 GHz"@,
        RadioBand::TwoPointFourGhz => "2.4 GHz"@,
    }
}

/// The label of the operation that applies settings to a band.
pub fn apply_operation_label(band: RadioBand) -> (r: String)
    ensures
        r@ == "Apply "@ + band_label(band) + " settings"@,
{
    let label = match band {
        RadioBand::FiveGhz => "5 GHz",
        RadioBand::TwoPointFourGhz => "2.4 GHz",
    };
    text("Apply ").concat(label).concat(" settings")
}

} // verus!
