//! Preparing the head of a response for a multiplexed transport.
//!
//! The status decides whether the response may have a body at all, the
//! resulting size decides whether and which length is announced, headers
//! that only make sense on a connection of its own are left out along with
//! any length that the application set, and a `date` header is added where
//! the application set none.

use crate::body::size::BodySize;
use crate::message::ResponseHead;
use crate::message::ServiceConfig;
use crate::message::StatusCode;
use crate::message::Version;
use crate::message::CONTINUE;
use crate::message::NO_CONTENT;
use crate::message::PROCESSING;
use crate::message::SWITCHING_PROTOCOLS;
use crate::wire::decimal::format_u64;
use crate::wire::header::content_length_name;
use crate::wire::header::date_name;
use crate::wire::header::try_append;
use crate::wire::header::try_insert;
use crate::wire::header::NAMES_ALWAYS_STORED;
use http::header::HeaderMap;
use http::header::HeaderName;
use http::header::HeaderValue;
use vstd::prelude::*;

verus! {

/// The head of a response as it goes on the wire.
pub struct WireHead {
    /// The status, as the application set it.
    pub status: StatusCode,
    /// The version of the transport.
    pub version: Version,
    /// The headers that are sent.
    pub headers: HeaderMap<HeaderValue>,
}

/// Headers as plain values: the text of each name with the bytes of its
/// value, in the order of `headers`.
pub open spec fn header_pairs(headers: Seq<(HeaderName, HeaderValue)>) -> Seq<(Seq<u8>, Seq<u8>)> {
    headers.map_values(
        |pair: (HeaderName, HeaderValue)|
            (
                crate::wire::header::header_name_text(pair.0),
                crate::wire::header::header_value_bytes(pair.1),
            ),
    )
}

/// The size that a response of the given status is sent with: none for
/// `204`, `100` and `102`, streaming for `101`, else the size that its body
/// declares.
pub open spec fn effective_size(status: u16, declared: BodySize) -> BodySize {
    if status == NO_CONTENT || status == CONTINUE || status == PROCESSING {
        BodySize::NoBody
    } else if status == SWITCHING_PROTOCOLS {
        BodySize::Stream
    } else {
        declared
    }
}

/// Whether a response of this size goes without a length header.
pub open spec fn length_suppressed(size: BodySize) -> bool {
    size is NoBody || size is Stream
}

/// The length header that a response of this size announces: none, `0` for
/// an empty body, or the decimal text of the body's length.
pub open spec fn length_header(size: BodySize) -> Map<Seq<u8>, Seq<Seq<u8>>> {
    match size {
        BodySize::NoBody | BodySize::Stream => Map::empty(),
        BodySize::Empty => Map::empty().insert(
            crate::wire::header::content_length_text(),
            seq![seq![48u8]],
        ),
        BodySize::Sized(len) => Map::empty().insert(
            crate::wire::header::content_length_text(),
            seq![crate::wire::decimal::decimal_digits(len as nat)],
        ),
    }
}

/// Whether a header of the application is left out: `connection` and
/// `transfer-encoding`, which mean nothing on a multiplexed transport, and
/// `content-length`, because the size of the body alone decides whether and
/// which length is announced.
pub open spec fn is_dropped(name: Seq<u8>) -> bool {
    name == crate::wire::header::connection_text()
        || name == crate::wire::header::transfer_encoding_text()
        || name == crate::wire::header::content_length_text()
}

/// The values of `start` with the headers that are not dropped stored after
/// them, one by one in their order.
pub open spec fn copy_headers(
    start: Map<Seq<u8>, Seq<Seq<u8>>>,
    headers: Seq<(Seq<u8>, Seq<u8>)>,
) -> Map<Seq<u8>, Seq<Seq<u8>>>
    decreases headers.len(),
{
    if headers.len() == 0 {
        start
    } else {
        let before = copy_headers(start, headers.drop_last());
        if is_dropped(headers.last().0) {
            before
        } else {
            crate::wire::header::with_appended(before, headers.last().0, headers.last().1)
        }
    }
}

/// Whether one of the headers is a `date` header.
pub open spec fn has_date(headers: Seq<(Seq<u8>, Seq<u8>)>) -> bool {
    exists|i: int|
        0 <= i < headers.len() && (#[trigger] headers[i]).0 == crate::wire::header::date_text()
}

/// The headers that go on the wire for a response with the given status,
/// headers and declared size, when `date` is the current time.
pub open spec fn prepared_headers(
    date: Seq<u8>,
    status: u16,
    headers: Seq<(Seq<u8>, Seq<u8>)>,
    declared: BodySize,
) -> Map<Seq<u8>, Seq<Seq<u8>>> {
    let size = effective_size(status, declared);
    let copied = copy_headers(length_header(size), headers);
    if has_date(headers) {
        copied
    } else {
        crate::wire::header::with_inserted(copied, crate::wire::header::date_text(), date)
    }
}

/// Copying headers brings in no length header and takes none away: the copy
/// has the length header that `start` had, or none.
pub proof fn lemma_copy_brings_no_length(
    start: Map<Seq<u8>, Seq<Seq<u8>>>,
    headers: Seq<(Seq<u8>, Seq<u8>)>,
)
    ensures
        copy_headers(start, headers).contains_key(crate::wire::header::content_length_text())
            == start.contains_key(crate::wire::header::content_length_text()),
        start.contains_key(crate::wire::header::content_length_text()) ==> copy_headers(
            start,
            headers,
        )[crate::wire::header::content_length_text()]
            == start[crate::wire::header::content_length_text()],
    decreases headers.len(),
{
    if headers.len() > 0 {
        lemma_copy_brings_no_length(start, headers.drop_last());
    }
}

/// The size alone decides the length header, whatever the application set:
/// a response that is sent without a body or as a stream carries none, one
/// with an empty body carries `0`, and one with a body of known length
/// carries that length, each as the only value. So the statuses `204`, `100`
/// and `102`, which are sent without a body, and `101`, which is sent as a
/// stream, never carry a length header, whatever size the body declares.
pub proof fn lemma_size_decides_length(
    date: Seq<u8>,
    status: u16,
    headers: Seq<(Seq<u8>, Seq<u8>)>,
    declared: BodySize,
)
    ensures
        status == NO_CONTENT || status == CONTINUE || status == PROCESSING ==> effective_size(
            status,
            declared,
        ) is NoBody,
        status == SWITCHING_PROTOCOLS ==> effective_size(status, declared) is Stream,
        length_suppressed(effective_size(status, declared)) == !prepared_headers(
            date,
            status,
            headers,
            declared,
        ).contains_key(crate::wire::header::content_length_text()),
        !length_suppressed(effective_size(status, declared)) ==> prepared_headers(
            date,
            status,
            headers,
            declared,
        )[crate::wire::header::content_length_text()] == length_header(
            effective_size(status, declared),
        )[crate::wire::header::content_length_text()],
{
    let size = effective_size(status, declared);
    lemma_copy_brings_no_length(length_header(size), headers);
    assert(crate::wire::header::date_text().len()
        != crate::wire::header::content_length_text().len());
}

/// The values that `headers` give to `name`, in the order in which they
/// stand there.
pub open spec fn values_named(headers: Seq<(Seq<u8>, Seq<u8>)>, name: Seq<u8>) -> Seq<Seq<u8>> {
    headers.filter(|pair: (Seq<u8>, Seq<u8>)| pair.0 == name).map_values(
        |pair: (Seq<u8>, Seq<u8>)| pair.1,
    )
}

/// The values that a map has for `name`: none where the name is absent.
pub open spec fn values_of(map: Map<Seq<u8>, Seq<Seq<u8>>>, name: Seq<u8>) -> Seq<Seq<u8>> {
    if map.contains_key(name) {
        map[name]
    } else {
        Seq::empty()
    }
}

/// Copying keeps every value of every header that is not dropped, in its
/// order: a name has the values that it had at the start followed by all
/// that the headers give it, and is present exactly when it has a value or
/// was present at the start. A name that is dropped gains nothing.
pub proof fn lemma_copy_keeps_values_in_order(
    start: Map<Seq<u8>, Seq<Seq<u8>>>,
    headers: Seq<(Seq<u8>, Seq<u8>)>,
    name: Seq<u8>,
)
    ensures
        values_of(copy_headers(start, headers), name) == (if is_dropped(name) {
            values_of(start, name)
        } else {
            values_of(start, name) + values_named(headers, name)
        }),
        copy_headers(start, headers).contains_key(name) == (start.contains_key(name) || (
        !is_dropped(name) && values_named(headers, name).len() > 0)),
    decreases headers.len(),
{
    let named = |pair: (Seq<u8>, Seq<u8>)| pair.0 == name;
    reveal_with_fuel(Seq::filter, 1);
    if headers.len() == 0 {
        assert(headers.filter(named) =~= Seq::empty());
        assert(values_named(headers, name) =~= Seq::empty());
        assert(values_of(start, name) + Seq::<Seq<u8>>::empty() =~= values_of(start, name));
    } else {
        let earlier = headers.drop_last();
        let last = headers.last();
        lemma_copy_keeps_values_in_order(start, earlier, name);
        let before = copy_headers(start, earlier);
        if last.0 == name {
            assert(headers.filter(named) == earlier.filter(named).push(last));
            assert(values_named(headers, name) =~= values_named(earlier, name).push(last.1));
            if !is_dropped(name) {
                assert(values_of(copy_headers(start, headers), name) =~= values_of(
                    before,
                    name,
                ).push(last.1));
                assert((values_of(start, name) + values_named(earlier, name)).push(last.1)
                    =~= values_of(start, name) + values_named(earlier, name).push(last.1));
            }
        } else {
            assert(headers.filter(named) == earlier.filter(named));
            assert(values_named(headers, name) =~= values_named(earlier, name));
        }
    }
}

/// What goes on the wire under each name: the length under `content-length`
/// as the size decides, nothing under `connection` and `transfer-encoding`,
/// under `date` the dates of the application or else the current date, and
/// under every other name the values of the application in their order.
pub proof fn lemma_prepared_values(
    date: Seq<u8>,
    status: u16,
    headers: Seq<(Seq<u8>, Seq<u8>)>,
    declared: BodySize,
    name: Seq<u8>,
)
    ensures
        values_of(prepared_headers(date, status, headers, declared), name) == (if name
            == crate::wire::header::content_length_text() {
            values_of(length_header(effective_size(status, declared)), name)
        } else if is_dropped(name) {
            Seq::empty()
        } else if name == crate::wire::header::date_text() && !has_date(headers) {
            seq![date]
        } else {
            values_named(headers, name)
        }),
        has_date(headers) == (values_named(headers, crate::wire::header::date_text()).len() > 0),
{
    let size = effective_size(status, declared);
    let start = length_header(size);
    lemma_copy_keeps_values_in_order(start, headers, name);
    lemma_has_date_is_a_value(headers);
    assert(crate::wire::header::date_text().len()
        != crate::wire::header::content_length_text().len());
    assert(crate::wire::header::date_text().len() != crate::wire::header::connection_text().len());
    assert(crate::wire::header::date_text().len()
        != crate::wire::header::transfer_encoding_text().len());
    assert(crate::wire::header::connection_text().len()
        != crate::wire::header::content_length_text().len());
    assert(crate::wire::header::transfer_encoding_text().len()
        != crate::wire::header::content_length_text().len());
    if name != crate::wire::header::content_length_text() && !is_dropped(name) {
        assert(!start.contains_key(name));
        assert(Seq::<Seq<u8>>::empty() + values_named(headers, name) =~= values_named(
            headers,
            name,
        ));
    }
}

/// The headers have a `date` among them exactly when they give the name
/// `date` a value.
proof fn lemma_has_date_is_a_value(headers: Seq<(Seq<u8>, Seq<u8>)>)
    ensures
        has_date(headers) == (values_named(headers, crate::wire::header::date_text()).len() > 0),
    decreases headers.len(),
{
    let name = crate::wire::header::date_text();
    let named = |pair: (Seq<u8>, Seq<u8>)| pair.0 == name;
    reveal_with_fuel(Seq::filter, 1);
    if headers.len() == 0 {
        assert(headers.filter(named) =~= Seq::empty());
    } else {
        let earlier = headers.drop_last();
        lemma_has_date_is_a_value(earlier);
        assert(earlier =~= headers.take(headers.len() - 1));
        assert(headers.take(headers.len() as int) =~= headers);
        lemma_has_date_step(headers, headers.len() - 1);
        if headers.last().0 == name {
            assert(headers.filter(named) == earlier.filter(named).push(headers.last()));
        } else {
            assert(headers.filter(named) == earlier.filter(named));
        }
    }
}

/// Preparing is a function of its input, and of the date only in the value
/// of a synthesized `date` header: with another date the same names are
/// present and every header but `date` has the same values, and where the
/// application set a `date` header the date plays no part at all.
pub proof fn lemma_prepared_headers_agree_but_for_date(
    date: Seq<u8>,
    other_date: Seq<u8>,
    status: u16,
    headers: Seq<(Seq<u8>, Seq<u8>)>,
    declared: BodySize,
)
    ensures
        prepared_headers(date, status, headers, declared).dom() == prepared_headers(
            other_date,
            status,
            headers,
            declared,
        ).dom(),
        prepared_headers(date, status, headers, declared).remove(crate::wire::header::date_text())
            == prepared_headers(other_date, status, headers, declared).remove(
            crate::wire::header::date_text(),
        ),
        has_date(headers) || date == other_date ==> prepared_headers(
            date,
            status,
            headers,
            declared,
        ) == prepared_headers(other_date, status, headers, declared),
{
    let first = prepared_headers(date, status, headers, declared);
    let second = prepared_headers(other_date, status, headers, declared);
    assert(first.dom() =~= second.dom());
    assert(first.remove(crate::wire::header::date_text()) =~= second.remove(
        crate::wire::header::date_text(),
    ));
}

/// Preparing a head once more, with the size that preparing it left in
/// place, gives the same size and the same headers.
pub proof fn lemma_preparing_again_changes_nothing(
    date: Seq<u8>,
    status: u16,
    headers: Seq<(Seq<u8>, Seq<u8>)>,
    declared: BodySize,
)
    ensures
        effective_size(status, effective_size(status, declared)) == effective_size(
            status,
            declared,
        ),
        prepared_headers(date, status, headers, effective_size(status, declared))
            == prepared_headers(date, status, headers, declared),
{
}

/// Whether two byte strings are the same.
fn same_bytes(a: &[u8], b: &[u8]) -> (same: bool)
    ensures
        same == (a@ == b@),
{
    if a.len() != b.len() {
        return false;
    }
    let mut i: usize = 0;
    while i < a.len()
        invariant
            a.len() == b.len(),
            i <= a.len(),
            forall|j: int| 0 <= j < i ==> a@[j] == b@[j],
        decreases a.len() - i,
    {
        if a[i] != b[i] {
            return false;
        }
        i += 1;
    }
    proof {
        assert(a@ =~= b@);
    }
    true
}

/// Whether `text` is the name `connection`.
fn is_connection(text: &[u8]) -> (is: bool)
    ensures
        is == (text@ == crate::wire::header::connection_text()),
{
    let expected: [u8; 10] = [99, 111, 110, 110, 101, 99, 116, 105, 111, 110];
    proof {
        assert(expected@ =~= crate::wire::header::connection_text());
    }
    same_bytes(text, expected.as_slice())
}

/// Whether `text` is the name `transfer-encoding`.
fn is_transfer_encoding(text: &[u8]) -> (is: bool)
    ensures
        is == (text@ == crate::wire::header::transfer_encoding_text()),
{
    let expected: [u8; 17] = [
        116,
        114,
        97,
        110,
        115,
        102,
        101,
        114,
        45,
        101,
        110,
        99,
        111,
        100,
        105,
        110,
        103,
    ];
    proof {
        assert(expected@ =~= crate::wire::header::transfer_encoding_text());
    }
    same_bytes(text, expected.as_slice())
}

/// Whether `text` is the name `content-length`.
fn is_content_length(text: &[u8]) -> (is: bool)
    ensures
        is == (text@ == crate::wire::header::content_length_text()),
{
    let expected: [u8; 14] = [99, 111, 110, 116, 101, 110, 116, 45, 108, 101, 110, 103, 116, 104];
    proof {
        assert(expected@ =~= crate::wire::header::content_length_text());
    }
    same_bytes(text, expected.as_slice())
}

/// Whether `text` is the name `date`.
fn is_date(text: &[u8]) -> (is: bool)
    ensures
        is == (text@ == crate::wire::header::date_text()),
{
    let expected: [u8; 4] = [100, 97, 116, 101];
    proof {
        assert(expected@ =~= crate::wire::header::date_text());
    }
    same_bytes(text, expected.as_slice())
}

/// The header value that holds `text`.
fn header_value(text: &[u8]) -> (value: HeaderValue)
    requires
        crate::wire::header::is_value_text(text@),
    ensures
        crate::wire::header::header_value_bytes(value) == text@,
{
    match HeaderValue::from_bytes(text) {
        Ok(value) => value,
        Err(_) => vstd::pervasive::unreached(),
    }
}

/// The value of the length header of a body of `len` bytes.
fn length_value(len: u64) -> (value: HeaderValue)
    ensures
        crate::wire::header::header_value_bytes(value) == crate::wire::decimal::decimal_digits(
            len as nat,
        ),
{
    let digits = format_u64(len);
    proof {
        crate::wire::decimal::lemma_decimal_digits_are_digits(len as nat);
    }
    header_value(digits.as_slice())
}

/// Prepares the head of a response for the wire.
///
/// `size` comes in as the size that the body declares and goes out as the
/// size that the response is sent with. The result is `None` only where the
/// header map refuses to store a header, which it never does for a head of
/// fewer than `NAMES_ALWAYS_STORED - 1` headers.
pub fn prepare_response(
    config: &ServiceConfig,
    version: Version,
    head: &ResponseHead,
    size: &mut BodySize,
) -> (prepared: Option<WireHead>)
    ensures
        *final(size) == effective_size(head.status.value(), *old(size)),
        head.headers.len() + 2 <= NAMES_ALWAYS_STORED ==> prepared is Some,
        prepared matches Some(wire) ==> (length_suppressed(*final(size))
            ==> !crate::wire::header::header_map_values(wire.headers).contains_key(
            crate::wire::header::content_length_text(),
        )),
        prepared matches Some(wire) ==> {
            &&& wire.status == head.status
            &&& wire.version == version
            &&& crate::wire::header::header_map_values(wire.headers) == prepared_headers(
                crate::wire::header::header_value_bytes(config.date),
                head.status.value(),
                header_pairs(head.headers@),
                *old(size),
            )
        },
{
    let status = head.status.as_u16();
    if status == NO_CONTENT || status == CONTINUE || status == PROCESSING {
        *size = BodySize::NoBody;
    } else if status == SWITCHING_PROTOCOLS {
        *size = BodySize::Stream;
    }
    let sent = *size;
    let mut headers = HeaderMap::new();
    match sent {
        BodySize::NoBody | BodySize::Stream => {},
        BodySize::Empty => {
            let zero: [u8; 1] = [48];
            assert(zero@ =~= seq![48u8]);
            if !try_insert(&mut headers, content_length_name(), header_value(zero.as_slice())) {
                return None;
            }
        },
        BodySize::Sized(len) => {
            if !try_insert(&mut headers, content_length_name(), length_value(len)) {
                return None;
            }
        },
    }
    let ghost pairs = header_pairs(head.headers@);
    let ghost start = length_header(sent);
    assert(crate::wire::header::header_map_values(headers) =~= start);
    let mut seen_date = false;
    let mut i: usize = 0;
    while i < head.headers.len()
        invariant
            i <= head.headers.len(),
            *size == effective_size(head.status.value(), *old(size)),
            pairs == header_pairs(head.headers@),
            crate::wire::header::header_map_values(headers) == copy_headers(
                start,
                pairs.take(i as int),
            ),
            seen_date == has_date(pairs.take(i as int)),
            crate::wire::header::header_map_values(headers).dom().finite(),
            crate::wire::header::header_map_values(headers).dom().len() <= i + 1,
        decreases head.headers.len() - i,
    {
        let name = &head.headers[i].0;
        let value = &head.headers[i].1;
        let text = name.as_str().as_bytes();
        proof {
            assert(pairs.take(i as int + 1).drop_last() =~= pairs.take(i as int));
            assert(pairs.take(i as int + 1).last() == pairs[i as int]);
            lemma_has_date_step(pairs, i as int);
        }
        if is_connection(text) || is_transfer_encoding(text) || is_content_length(text) {
        } else {
            if is_date(text) {
                seen_date = true;
            }
            let stored = try_append(&mut headers, name.clone(), value.clone());
            if !stored {
                return None;
            }
        }
        i += 1;
    }
    assert(pairs.take(i as int) =~= pairs);
    if !seen_date {
        if !try_insert(&mut headers, date_name(), config.date_header()) {
            return None;
        }
    }
    proof {
        lemma_size_decides_length(
            crate::wire::header::header_value_bytes(config.date),
            head.status.value(),
            pairs,
            *old(size),
        );
    }
    Some(WireHead { status: head.status, version, headers })
}

/// One more header has a `date` among it exactly when the ones before had
/// one or the new one is a `date` header.
proof fn lemma_has_date_step(pairs: Seq<(Seq<u8>, Seq<u8>)>, i: int)
    requires
        0 <= i < pairs.len(),
    ensures
        has_date(pairs.take(i + 1)) == (has_date(pairs.take(i)) || pairs[i].0
            == crate::wire::header::date_text()),
{
    let longer = pairs.take(i + 1);
    let shorter = pairs.take(i);
    if has_date(shorter) {
        let j = choose|j: int|
            0 <= j < shorter.len() && (#[trigger] shorter[j]).0
                == crate::wire::header::date_text();
        assert(longer[j] == shorter[j]);
    }
    if pairs[i].0 == crate::wire::header::date_text() {
        assert(longer[i] == pairs[i]);
    }
    if has_date(longer) {
        let j = choose|j: int|
            0 <= j < longer.len() && (#[trigger] longer[j]).0
                == crate::wire::header::date_text();
        if j < i {
            assert(shorter[j] == longer[j]);
        }
    }
}

} // verus!
