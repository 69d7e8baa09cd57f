//! Reading and writing propagation headers in an `http::HeaderMap`.
use vstd::prelude::*;
use vstd::string::StringSliceAdditionalSpecFns;

verus! {

#[verifier::external_type_specification]
#[verifier::external_body]
#[verifier::reject_recursive_types(T)]
pub struct ExHeaderMap<T>(http::HeaderMap<T>);

#[verifier::external_type_specification]
#[verifier::external_body]
pub struct ExHeaderValue(http::HeaderValue);

#[verifier::external_type_specification]
#[verifier::external_body]
pub struct ExMaxSizeReached(http::header::MaxSizeReached);

/// What a header map holds: each (lower-case) name with its values, in order.
pub uninterp spec fn header_entries(h: http::HeaderMap) -> Map<Seq<u8>, Seq<Seq<u8>>>;

/// Longest header name that a header map accepts.
pub const MAX_NAME_LEN: usize = 65535;

/// A byte that may stand in a header name as it is stored (lower case).
pub open spec fn is_name_byte(b: u8) -> bool {
    b == 33 || (35 <= b <= 39) || b == 34 || b == 42 || b == 43 || b == 45 || b == 46
        || (48 <= b <= 57) || (94 <= b <= 122) || b == 124 || b == 126
}

pub open spec fn is_upper_byte(b: u8) -> bool {
    65 <= b <= 90
}

pub open spec fn lower_byte(b: u8) -> u8 {
    if is_upper_byte(b) {
        (b + 32) as u8
    } else {
        b
    }
}

/// The name under which a header name is stored: ASCII letters folded to lower case.
pub open spec fn lower_name(s: Seq<u8>) -> Seq<u8> {
    s.map_values(|b: u8| lower_byte(b))
}

/// A header name that `http::HeaderName::from_bytes` accepts.
pub open spec fn is_valid_name(s: Seq<u8>) -> bool {
    &&& 0 < s.len() <= MAX_NAME_LEN
    &&& forall|i: int| 0 <= i < s.len() ==> is_name_byte(#[trigger] s[i]) || is_upper_byte(s[i])
}

/// A header value made of visible ASCII and tabs: the values that read back as text.
pub open spec fn is_visible_text(s: Seq<u8>) -> bool {
    forall|i: int| 0 <= i < s.len() ==> (32 <= #[trigger] s[i] && s[i] < 127) || s[i] == 9
}

/// The text that a lookup of `key` finds in `entries`: the first value under the
/// name, when it is visible text.
pub open spec fn text_of(entries: Map<Seq<u8>, Seq<Seq<u8>>>, key: Seq<u8>) -> Option<Seq<u8>> {
    let name = lower_name(key);
    if is_valid_name(key) && entries.contains_key(name) && entries[name].len() > 0
        && is_visible_text(entries[name][0]) {
        Some(entries[name][0])
    } else {
        None
    }
}

/// The entries after the value `value` has been set under `key`, replacing what was there.
pub open spec fn with_header(entries: Map<Seq<u8>, Seq<Seq<u8>>>, key: Seq<u8>, value: Seq<u8>) -> Map<
    Seq<u8>,
    Seq<Seq<u8>>,
> {
    entries.insert(lower_name(key), seq![value])
}

/// Relies on `http::HeaderMap::get` with a `&str` key, which folds the key to lower case
/// and finds nothing for an invalid name, and on `HeaderValue::to_str`, which succeeds
/// exactly on visible ASCII and tabs.
#[verifier::external_body]
fn lookup_text<'a>(headers: &'a http::HeaderMap, key: &str) -> (r: Option<&'a str>)
    ensures
        match r {
            Some(s) => text_of(header_entries(*headers), key.spec_bytes()) == Some(s.spec_bytes()),
            None => text_of(header_entries(*headers), key.spec_bytes()) is None,
        },
{
    headers.get(key).and_then(|v| v.to_str().ok())
}

/// Relies on `http::HeaderMap::try_insert`, which replaces every value under the
/// name, with the name made by `HeaderName::from_bytes` (lower case) and the value
/// by `HeaderValue::from_str` (its bytes). It fails, before it changes any entry,
/// when the map has no room left.
#[verifier::external_body]
fn store_header(headers: &mut http::HeaderMap, key: &str, value: &str) -> (r: Result<
    Option<http::HeaderValue>,
    http::header::MaxSizeReached,
>)
    requires
        is_valid_name(key.spec_bytes()),
        is_visible_text(value.spec_bytes()),
    ensures
        r is Ok ==> header_entries(*final(headers)) == with_header(
            header_entries(*old(headers)),
            key.spec_bytes(),
            value.spec_bytes(),
        ),
        r is Err ==> header_entries(*final(headers)) == header_entries(*old(headers)),
{
    headers.try_insert(
        http::header::HeaderName::from_bytes(key.as_bytes()).expect("invalid header name"),
        http::HeaderValue::from_str(value).expect("invalid header value"),
    )
}

/// Why a propagation header could not be written.
#[derive(Debug, Clone, Copy, PartialEq, Eq, Structural)]
pub enum InjectError {
    InvalidName,
    InvalidValue,
    /// The header map has no room for another entry.
    MapFull,
}

fn name_byte_ok(b: u8) -> (r: bool)
    ensures
        r == (is_name_byte(b) || is_upper_byte(b)),
{
    b == 33 || (35 <= b && b <= 39) || b == 34 || b == 42 || b == 43 || b == 45 || b == 46
        || (48 <= b && b <= 57) || (94 <= b && b <= 122) || b == 124 || b == 126 || (65 <= b
        && b <= 90)
}

/// Whether `key` is a header name that a header map accepts.
pub fn is_header_name(key: &str) -> (r: bool)
    ensures
        r == is_valid_name(key.spec_bytes()),
{
    let bytes = key.as_bytes();
    let n = bytes.len();
    if n == 0 || n > MAX_NAME_LEN {
        return false;
    }
    let mut i: usize = 0;
    while i < n
        invariant
            bytes@ == key.spec_bytes(),
            n == bytes@.len(),
            0 <= i <= n,
            forall|j: int| 0 <= j < i ==> is_name_byte(#[trigger] bytes@[j]) || is_upper_byte(bytes@[j]),
        decreases n - i,
    {
        if !name_byte_ok(bytes[i]) {
            return false;
        }
        i = i + 1;
    }
    true
}

/// Whether `value` is visible ASCII text (tabs allowed), fit to be a header value.
pub fn is_header_text(value: &str) -> (r: bool)
    ensures
        r == is_visible_text(value.spec_bytes()),
{
    let bytes = value.as_bytes();
    let n = bytes.len();
    let mut i: usize = 0;
    while i < n
        invariant
            bytes@ == value.spec_bytes(),
            n == bytes@.len(),
            0 <= i <= n,
            is_visible_text(bytes@.subrange(0, i as int)),
        decreases n - i,
    {
        let b = bytes[i];
        if !((32 <= b && b < 127) || b == 9) {
            assert(!is_visible_text(bytes@)) by {
                assert(bytes@[i as int] == b);
            }
            return false;
        }
        assert(is_visible_text(bytes@.subrange(0, i + 1))) by {
            assert forall|j: int| 0 <= j < i + 1 implies (32 <= #[trigger] bytes@.subrange(0, i + 1)[j]
                && bytes@.subrange(0, i + 1)[j] < 127) || bytes@.subrange(0, i + 1)[j] == 9 by {
                if j < i {
                    assert(bytes@.subrange(0, i + 1)[j] == bytes@.subrange(0, i as int)[j]);
                }
            }
        }
        i = i + 1;
    }
    assert(bytes@.subrange(0, n as int) =~= bytes@);
    true
}

/// The text value of the header `key`: the first value under that name (matched
/// without regard to ASCII case), when it is visible ASCII text.
pub fn header_text<'a>(headers: &'a http::HeaderMap, key: &str) -> (r: Option<&'a str>)
    ensures
        r matches Some(s) ==> text_of(header_entries(*headers), key.spec_bytes()) == Some(s.spec_bytes()),
        r is None ==> text_of(header_entries(*headers), key.spec_bytes()) is None,
{
    lookup_text(headers, key)
}

/// Writes `value` under `key`, replacing any value that the name had; every other
/// header stays as it was. An invalid name, a value that is not visible text, or a
/// map with no room left is refused and leaves the headers as they were.
pub fn inject_header(headers: &mut http::HeaderMap, key: &str, value: &str) -> (r: Result<
    (),
    InjectError,
>)
    ensures
        r == Err::<(), InjectError>(InjectError::InvalidName) <==> !is_valid_name(key.spec_bytes()),
        r == Err::<(), InjectError>(InjectError::InvalidValue) <==> is_valid_name(key.spec_bytes())
            && !is_visible_text(value.spec_bytes()),
        r is Ok || r == Err::<(), InjectError>(InjectError::MapFull) ==> is_valid_name(
            key.spec_bytes(),
        ) && is_visible_text(value.spec_bytes()),
        r is Ok ==> header_entries(*final(headers)) == with_header(
            header_entries(*old(headers)),
            key.spec_bytes(),
            value.spec_bytes(),
        ),
        r is Err ==> header_entries(*final(headers)) == header_entries(*old(headers)),
{
    if !is_header_name(key) {
        return Err(InjectError::InvalidName);
    }
    if !is_header_text(value) {
        return Err(InjectError::InvalidValue);
    }
    match store_header(headers, key, value) {
        Ok(_) => Ok(()),
        Err(_) => Err(InjectError::MapFull),
    }
}

/// Injection changes nothing but the injected name: every other header keeps
/// exactly the values it had, and none appears or disappears.
pub proof fn injection_keeps_other_headers(
    entries: Map<Seq<u8>, Seq<Seq<u8>>>,
    key: Seq<u8>,
    value: Seq<u8>,
    name: Seq<u8>,
)
    requires
        name != lower_name(key),
    ensures
        with_header(entries, key, value).contains_key(name) == entries.contains_key(name),
        entries.contains_key(name) ==> with_header(entries, key, value)[name] == entries[name],
{
}

/// After injection the injected name reads back the injected value.
pub proof fn injection_reads_back(entries: Map<Seq<u8>, Seq<Seq<u8>>>, key: Seq<u8>, value: Seq<u8>)
    requires
        is_valid_name(key),
        is_visible_text(value),
    ensures
        text_of(with_header(entries, key, value), key) == Some(value),
{
}

} // verus!
