//! Validation of the parameters that the sauna API accepts.
use vstd::prelude::*;
use vstd::string::*;
use crate::error::{KlafsError, KlafsErrorView};
use crate::text::{chars_of, int_string, int_text, to_owned_string, trim_str, trim_text};

verus! {

/// An ASCII hexadecimal digit.
pub open spec fn is_hex_digit(c: char) -> bool {
    ('0' <= c && c <= '9') || ('a' <= c && c <= 'f') || ('A' <= c && c <= 'F')
}

/// An ASCII decimal digit.
pub open spec fn is_ascii_digit(c: char) -> bool {
    '0' <= c && c <= '9'
}

/// The positions of the hyphens in the hyphenated UUID form.
pub open spec fn is_hyphen_position(i: int) -> bool {
    i == 8 || i == 13 || i == 18 || i == 23
}

/// `8-4-4-4-12` hexadecimal digits separated by hyphens.
pub open spec fn hyphenated_uuid_text(s: Seq<char>) -> bool {
    &&& s.len() == 36
    &&& forall|i: int|
        0 <= i < 36 ==> if is_hyphen_position(i) {
            s[i] == '-'
        } else {
            is_hex_digit(#[trigger] s[i])
        }
}

/// Thirty-two hexadecimal digits.
pub open spec fn simple_uuid_text(s: Seq<char>) -> bool {
    s.len() == 32 && forall|i: int| 0 <= i < 32 ==> is_hex_digit(#[trigger] s[i])
}

/// ASCII lower case of one character (other characters unchanged).
pub open spec fn ascii_lower(c: char) -> char {
    if 'A' <= c && c <= 'Z' {
        ((c as u32) + 32) as char
    } else {
        c
    }
}

/// `s` is `urn:uuid:` in any ASCII case.
pub open spec fn urn_prefix(s: Seq<char>) -> bool {
    s.len() == 9 && forall|i: int| 0 <= i < 9 ==> ascii_lower(#[trigger] s[i]) == "urn:uuid:"@[i]
}

/// The texts that `uuid::Uuid::parse_str` accepts: the simple form, the hyphenated
/// form, the hyphenated form in braces, and the hyphenated form after `urn:uuid:`.
pub open spec fn uuid_text(s: Seq<char>) -> bool {
    ||| simple_uuid_text(s)
    ||| hyphenated_uuid_text(s)
    ||| (s.len() == 38 && s[0] == '{' && s[37] == '}' && hyphenated_uuid_text(s.subrange(1, 37)))
    ||| (s.len() == 45 && urn_prefix(s.subrange(0, 9)) && hyphenated_uuid_text(s.subrange(9, 45)))
}

/// `uuid::Uuid::parse_str(s).is_ok()`. The crate's parser (parser.rs) accepts exactly
/// 32 hex digits, the 36-character hyphenated form, that form in braces, and that
/// form after a case-insensitive `urn:uuid:`; this wrapper claims exactly that.
#[verifier::external_body]
fn uuid_parses(s: &str) -> (r: bool)
    ensures
        r == uuid_text(s@),
{
    uuid::Uuid::parse_str(s).is_ok()
}

/// `s` is a GUID once surrounding white space is removed.
pub open spec fn guid_text(s: Seq<char>) -> bool {
    uuid_text(trim_text(s))
}

/// Whether `s` (trimmed) is a UUID in one of the forms the `uuid` crate accepts.
pub fn is_guid(s: &str) -> (r: bool)
    ensures
        r == guid_text(s@),
{
    uuid_parses(trim_str(s))
}

/// The message given for a sauna ID that is not a UUID.
pub open spec fn bad_sauna_id_text(id: Seq<char>) -> Seq<char> {
    "Invalid sauna ID format '"@ + id + "'. Expected a UUID (e.g., 364cc9db-86f1-49d1-86cd-f6ef9b20a490)"@
}

/// Validate that a sauna ID is a valid UUID format.
pub fn validate_sauna_id(sauna_id: &str) -> (r: Result<(), KlafsError>)
    ensures
        r is Ok <==> guid_text(sauna_id@),
        r matches Err(e) ==> e@ == (KlafsErrorView::InvalidParameter {
            message: bad_sauna_id_text(sauna_id@),
        }),
{
    if !is_guid(sauna_id) {
        let mut message = to_owned_string("Invalid sauna ID format '");
        message.append(sauna_id);
        message.append("'. Expected a UUID (e.g., 364cc9db-86f1-49d1-86cd-f6ef9b20a490)");
        return Err(KlafsError::InvalidParameter { message });
    }
    Ok(())
}

/// A PIN is exactly four ASCII digits.
pub open spec fn valid_pin(pin: Seq<char>) -> bool {
    pin.len() == 4 && forall|i: int| 0 <= i < 4 ==> is_ascii_digit(#[trigger] pin[i])
}

/// Validate PIN format (must be exactly 4 digits).
pub fn validate_pin(pin: &str) -> (r: Result<(), KlafsError>)
    ensures
        r is Ok <==> valid_pin(pin@),
        r matches Err(e) ==> e@ == (KlafsErrorView::InvalidParameter {
            message: "PIN must be exactly 4 digits"@,
        }),
{
    let cs = chars_of(pin);
    let mut ok = cs.len() == 4;
    if ok {
        let mut i: usize = 0;
        while i < 4
            invariant
                cs@ == pin@,
                cs@.len() == 4,
                i <= 4,
                ok == forall|k: int| 0 <= k < i ==> is_ascii_digit(#[trigger] cs@[k]),
            decreases 4 - i,
        {
            let c = cs[i];
            ok = ok && ('0' <= c && c <= '9');
            i += 1;
        }
    }
    if !ok {
        return Err(KlafsError::InvalidParameter {
            message: to_owned_string("PIN must be exactly 4 digits"),
        });
    }
    Ok(())
}

/// The message given for a value outside `min..=max`.
pub open spec fn range_text(name: Seq<char>, min: int, max: int, value: int) -> Seq<char> {
    name + " must be between "@ + int_text(min) + " and "@ + int_text(max) + ", got "@ + int_text(value)
}

/// `value` lies in `min..=max`, else the parameter error naming `name`.
pub open spec fn range_check(name: Seq<char>, min: int, max: int, value: int, r: Result<(), KlafsError>) -> bool {
    &&& (r is Ok <==> min <= value <= max)
    &&& r matches Err(e) ==> e@ == (KlafsErrorView::InvalidParameter {
        message: range_text(name, min, max, value),
    })
}

/// Accept `value` when it lies in `min..=max`; otherwise the parameter error that
/// names the parameter, the bounds and the value.
pub fn validate_range(value: i32, min: i32, max: i32, name: &str) -> (r: Result<(), KlafsError>)
    ensures
        range_check(name@, min as int, max as int, value as int, r),
{
    if !(min <= value && value <= max) {
        let mut message = to_owned_string(name);
        message.append(" must be between ");
        let a = int_string(min as i64);
        message.append(a.as_str());
        message.append(" and ");
        let b = int_string(max as i64);
        message.append(b.as_str());
        message.append(", got ");
        let c = int_string(value as i64);
        message.append(c.as_str());
        return Err(KlafsError::InvalidParameter { message });
    }
    Ok(())
}

/// Validate a sauna-mode temperature (10 to 100 °C).
pub fn validate_temperature(temperature: i32) -> (r: Result<(), KlafsError>)
    ensures
        range_check("Temperature (°C)"@, 10, 100, temperature as int, r),
{
    validate_range(temperature, 10, 100, "Temperature (°C)")
}

/// Validate a sanarium-mode temperature (40 to 75 °C).
pub fn validate_sanarium_temperature(temperature: i32) -> (r: Result<(), KlafsError>)
    ensures
        range_check("Sanarium temperature (°C)"@, 40, 75, temperature as int, r),
{
    validate_range(temperature, 40, 75, "Sanarium temperature (°C)")
}

/// Validate a humidity level (1 to 10).
pub fn validate_humidity_level(level: i32) -> (r: Result<(), KlafsError>)
    ensures
        range_check("Humidity level"@, 1, 10, level as int, r),
{
    validate_range(level, 1, 10, "Humidity level")
}

/// Validate an hour of the day (0 to 23).
pub fn validate_hour(hour: i32) -> (r: Result<(), KlafsError>)
    ensures
        range_check("Hour"@, 0, 23, hour as int, r),
{
    validate_range(hour, 0, 23, "Hour")
}

/// Validate a minute of the hour (0 to 59).
pub fn validate_minute(minute: i32) -> (r: Result<(), KlafsError>)
    ensures
        range_check("Minute"@, 0, 59, minute as int, r),
{
    validate_range(minute, 0, 59, "Minute")
}

} // verus!
