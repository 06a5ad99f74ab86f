//! Header names, header values and the header map of the `http` crate, as
//! verified code sees them.

use http::header::HeaderMap;
use http::header::HeaderName;
use http::header::HeaderValue;
use http::header::InvalidHeaderValue;
use vstd::prelude::*;
use vstd::string::StringSliceAdditionalSpecFns;

verus! {

/// The type `http::header::HeaderName`, known to verified code by its text.
#[verifier::external_type_specification]
#[verifier::external_body]
pub struct ExHeaderName(http::header::HeaderName);

/// The type `http::header::HeaderValue`, known to verified code by its
/// bytes.
#[verifier::external_type_specification]
#[verifier::external_body]
pub struct ExHeaderValue(http::header::HeaderValue);

/// The type `http::header::InvalidHeaderValue`: the refusal of bytes that
/// cannot stand in a header value. It carries nothing.
#[verifier::external_type_specification]
#[verifier::external_body]
pub struct ExInvalidHeaderValue(http::header::InvalidHeaderValue);

/// The type `http::header::HeaderMap`, known to verified code by the values
/// that it holds under each name.
#[verifier::external_type_specification]
#[verifier::external_body]
#[verifier::reject_recursive_types(T)]
pub struct ExHeaderMap<T>(http::header::HeaderMap<T>);

/// The text of a header name: the bytes of its lower-case string form.
pub uninterp spec fn header_name_text(name: HeaderName) -> Seq<u8>;

/// The bytes of a header value.
pub uninterp spec fn header_value_bytes(value: HeaderValue) -> Seq<u8>;

/// What a header map holds: for each name that is present, by its text, the
/// bytes of its values in the order in which they were stored.
pub uninterp spec fn header_map_values(map: HeaderMap<HeaderValue>) -> Map<Seq<u8>, Seq<Seq<u8>>>;

/// The text `connection`.
pub open spec fn connection_text() -> Seq<u8> {
    seq![99u8, 111, 110, 110, 101, 99, 116, 105, 111, 110]
}

/// The text `transfer-encoding`.
pub open spec fn transfer_encoding_text() -> Seq<u8> {
    seq![116u8, 114, 97, 110, 115, 102, 101, 114, 45, 101, 110, 99, 111, 100, 105, 110, 103]
}

/// The text `content-length`.
pub open spec fn content_length_text() -> Seq<u8> {
    seq![99u8, 111, 110, 116, 101, 110, 116, 45, 108, 101, 110, 103, 116, 104]
}

/// The text `date`.
pub open spec fn date_text() -> Seq<u8> {
    seq![100u8, 97, 116, 101]
}

/// Whether a byte may stand in a header value: a tab, or anything from the
/// space upwards but the delete character.
pub open spec fn is_value_byte(b: u8) -> bool {
    (b >= 32 && b != 127) || b == 9
}

/// Whether every byte of `bytes` may stand in a header value.
pub open spec fn is_value_text(bytes: Seq<u8>) -> bool {
    forall|i: int| 0 <= i < bytes.len() ==> is_value_byte(#[trigger] bytes[i])
}

/// A map of values with one more value stored under `name`: after those the
/// name already has, or as its first.
pub open spec fn with_appended(
    values: Map<Seq<u8>, Seq<Seq<u8>>>,
    name: Seq<u8>,
    value: Seq<u8>,
) -> Map<Seq<u8>, Seq<Seq<u8>>> {
    if values.contains_key(name) {
        values.insert(name, values[name].push(value))
    } else {
        values.insert(name, seq![value])
    }
}

/// A map of values in which `value` alone stands under `name`.
pub open spec fn with_inserted(
    values: Map<Seq<u8>, Seq<Seq<u8>>>,
    name: Seq<u8>,
    value: Seq<u8>,
) -> Map<Seq<u8>, Seq<Seq<u8>>> {
    values.insert(name, seq![value])
}

/// A header map that holds fewer names than this stores one more: it is
/// less than a fifth of the 32768 slots that a header map can have.
pub const NAMES_ALWAYS_STORED: usize = 4096;

/// Whether a map of values is small enough for the header map to store one
/// more name for certain.
pub open spec fn has_room(values: Map<Seq<u8>, Seq<Seq<u8>>>) -> bool {
    values.dom().finite() && values.dom().len() < NAMES_ALWAYS_STORED
}

/// `HeaderName::as_str` returns the name's text.
pub assume_specification[ HeaderName::as_str ](name: &HeaderName) -> (text: &str)
    ensures
        text.spec_bytes() == header_name_text(*name),
;

/// `HeaderName::clone` returns a name with the same text.
pub assume_specification[ <HeaderName as Clone>::clone ](name: &HeaderName) -> (copy: HeaderName)
    ensures
        header_name_text(copy) == header_name_text(*name),
;

/// `HeaderValue::clone` returns a value with the same bytes.
pub assume_specification[ <HeaderValue as Clone>::clone ](value: &HeaderValue) -> (copy:
    HeaderValue)
    ensures
        header_value_bytes(copy) == header_value_bytes(*value),
;

/// `HeaderValue::from_bytes` accepts exactly the byte strings whose every
/// byte may stand in a header value, and the value then holds those bytes.
pub assume_specification[ HeaderValue::from_bytes ](src: &[u8]) -> (made: Result<
    HeaderValue,
    InvalidHeaderValue,
>)
    ensures
        made is Ok <==> is_value_text(src@),
        made matches Ok(value) ==> header_value_bytes(value) == src@,
;

/// `HeaderMap::new` returns a map that holds nothing.
pub assume_specification[ HeaderMap::<HeaderValue>::new ]() -> (map: HeaderMap<HeaderValue>)
    ensures
        header_map_values(map) =~= Map::empty(),
;

/// The constant `http::header::CONTENT_LENGTH`, whose text is
/// `content-length`.
#[verifier::external_body]
pub(crate) fn content_length_name() -> (name: HeaderName)
    ensures
        header_name_text(name) == content_length_text(),
{
    http::header::CONTENT_LENGTH
}

/// The constant `http::header::DATE`, whose text is `date`.
#[verifier::external_body]
pub(crate) fn date_name() -> (name: HeaderName)
    ensures
        header_name_text(name) == date_text(),
{
    http::header::DATE
}

/// `HeaderMap::try_insert`: where it reports success, `value` has replaced
/// whatever stood under `name`. It fails only when the map holds 32768 names
/// or would have to grow past 32768 slots, and it asks to grow only when it
/// is three quarters full or, after many collisions, a fifth full: a map
/// with room always succeeds.
#[verifier::external_body]
pub(crate) fn try_insert(
    map: &mut HeaderMap<HeaderValue>,
    name: HeaderName,
    value: HeaderValue,
) -> (stored: bool)
    ensures
        stored ==> header_map_values(*final(map)) == with_inserted(
            header_map_values(*old(map)),
            header_name_text(name),
            header_value_bytes(value),
        ),
        has_room(header_map_values(*old(map))) ==> stored,
{
    map.try_insert(name, value).is_ok()
}

/// `HeaderMap::try_append`: where it reports success, `value` has been stored
/// under `name` after the values that the name already had. It fails only
/// when the map holds 32768 names or would have to grow past 32768 slots, and
/// it asks to grow only when it is three quarters full or, after many
/// collisions, a fifth full: a map with room always succeeds.
#[verifier::external_body]
pub(crate) fn try_append(
    map: &mut HeaderMap<HeaderValue>,
    name: HeaderName,
    value: HeaderValue,
) -> (stored: bool)
    ensures
        stored ==> header_map_values(*final(map)) == with_appended(
            header_map_values(*old(map)),
            header_name_text(name),
            header_value_bytes(value),
        ),
        has_room(header_map_values(*old(map))) ==> stored,
{
    map.try_append(name, value).is_ok()
}

} // verus!
