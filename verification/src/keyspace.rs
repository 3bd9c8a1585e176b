//! Redis keyspace: how namespace, collection and key map to one Redis key.
//!
//! Each component is percent-encoded over its UTF-8 bytes: letters, digits,
//! `_`, `-` and `.` stay as they are, every other byte becomes `%` and two
//! upper-case hexadecimal digits. The prefix and the encoded components are
//! joined with `:`.

use vstd::prelude::*;

use vstd::utf8::{decode_utf8, encode_scalar, encode_utf8, valid_utf8};

use crate::order::{push_char, text_starts_with};

verus! {

/// Default key prefix for Redis storage.
pub const DEFAULT_KEY_PREFIX: &'static str = "yugendb";

/// Separator used for readable Redis keys.
pub const KEY_SEPARATOR: &'static str = ":";

/// Description of the Redis keyspace used by a driver instance.
#[derive(Debug, PartialEq, Eq)]
pub struct RedisKeyspace {
    /// Prefix added to all Redis keys created by the driver.
    pub key_prefix: String,
}

impl RedisKeyspace {
    /// Creates keyspace metadata for a prefix.
    pub fn new(key_prefix: &str) -> (keyspace: Self)
        ensures
            keyspace.key_prefix@ == key_prefix@,
    {
        RedisKeyspace { key_prefix: key_prefix.to_owned() }
    }
}

impl Clone for RedisKeyspace {
    fn clone(&self) -> (copy: Self)
        ensures
            copy.key_prefix@ == self.key_prefix@,
    {
        RedisKeyspace { key_prefix: self.key_prefix.clone() }
    }
}

/// Bytes that are kept as they are: ASCII letters, digits, `_`, `-` and `.`.
pub open spec fn is_unreserved_byte(b: u8) -> bool {
    (0x41 <= b && b <= 0x5a) || (0x61 <= b && b <= 0x7a) || (0x30 <= b && b <= 0x39) || b == 0x5f
        || b == 0x2d || b == 0x2e
}

/// The upper-case hexadecimal digit of a value below 16.
pub open spec fn hex_digit(n: u8) -> char {
    if n == 0 {
        '0'
    } else if n == 1 {
        '1'
    } else if n == 2 {
        '2'
    } else if n == 3 {
        '3'
    } else if n == 4 {
        '4'
    } else if n == 5 {
        '5'
    } else if n == 6 {
        '6'
    } else if n == 7 {
        '7'
    } else if n == 8 {
        '8'
    } else if n == 9 {
        '9'
    } else if n == 10 {
        'A'
    } else if n == 11 {
        'B'
    } else if n == 12 {
        'C'
    } else if n == 13 {
        'D'
    } else if n == 14 {
        'E'
    } else {
        'F'
    }
}

/// The encoding of one byte.
pub open spec fn encode_byte(b: u8) -> Seq<char> {
    if is_unreserved_byte(b) {
        seq![b as char]
    } else {
        seq!['%', hex_digit(b / 16), hex_digit(b % 16)]
    }
}

/// The encoding of a byte sequence, byte by byte.
pub open spec fn encode_bytes(bytes: Seq<u8>) -> Seq<char>
    decreases bytes.len(),
{
    if bytes.len() == 0 {
        Seq::empty()
    } else {
        encode_byte(bytes[0]) + encode_bytes(bytes.skip(1))
    }
}

/// The encoding of a key component: its UTF-8 bytes, encoded.
pub open spec fn encoded_component(text: Seq<char>) -> Seq<char> {
    encode_bytes(encode_utf8(text))
}

/// The value of a hexadecimal digit byte, in either case.
pub open spec fn hex_value(b: u8) -> Option<u8> {
    if 0x30 <= b && b <= 0x39 {
        Some((b - 0x30) as u8)
    } else if 0x41 <= b && b <= 0x46 {
        Some((b - 0x41 + 10) as u8)
    } else if 0x61 <= b && b <= 0x66 {
        Some((b - 0x61 + 10) as u8)
    } else {
        None
    }
}

/// The byte that the two bytes after a `%` stand for: an optional `+`
/// followed by one hexadecimal digit, or two hexadecimal digits.
pub open spec fn escape_value(high: u8, low: u8) -> Option<u8> {
    if high == 0x2b {
        hex_value(low)
    } else {
        match (hex_value(high), hex_value(low)) {
            (Some(h), Some(l)) => Some((h * 16 + l) as u8),
            _ => None,
        }
    }
}

/// Puts `front` before the bytes of a decoding, if there is one.
pub open spec fn prepend(front: Seq<u8>, rest: Option<Seq<u8>>) -> Option<Seq<u8>> {
    match rest {
        Some(r) => Some(front + r),
        None => None,
    }
}

/// The bytes that an encoded byte sequence stands for, or `None` where a `%`
/// is not followed by two bytes that form an escape.
pub open spec fn decode_bytes(bytes: Seq<u8>) -> Option<Seq<u8>>
    decreases bytes.len(),
{
    if bytes.len() == 0 {
        Some(Seq::empty())
    } else if bytes[0] == 0x25 {
        if bytes.len() < 3 {
            None
        } else {
            match escape_value(bytes[1], bytes[2]) {
                Some(v) => prepend(seq![v], decode_bytes(bytes.skip(3))),
                None => None,
            }
        }
    } else {
        prepend(seq![bytes[0]], decode_bytes(bytes.skip(1)))
    }
}

/// The text that an encoded component stands for: its bytes decoded, where
/// they form valid UTF-8.
pub open spec fn decoded_component(text: Seq<char>) -> Option<Seq<char>> {
    match decode_bytes(encode_utf8(text)) {
        Some(bytes) => if valid_utf8(bytes) {
            Some(decode_utf8(bytes))
        } else {
            None
        },
        None => None,
    }
}

/// Converts bytes to a string where they are valid UTF-8.
///
/// Calls `String::from_utf8`; claims that it succeeds exactly on valid UTF-8
/// and that the string's UTF-8 encoding is then the given bytes.
#[verifier::external_body]
fn string_from_utf8(bytes: Vec<u8>) -> (text: Option<String>)
    ensures
        text is Some <==> valid_utf8(bytes@),
        text matches Some(t) ==> encode_utf8(t@) == bytes@,
{
    String::from_utf8(bytes).ok()
}

fn is_unreserved(b: u8) -> (result: bool)
    ensures
        result == is_unreserved_byte(b),
{
    (0x41 <= b && b <= 0x5a) || (0x61 <= b && b <= 0x7a) || (0x30 <= b && b <= 0x39) || b == 0x5f
        || b == 0x2d || b == 0x2e
}

fn hex_digit_of(n: u8) -> (c: char)
    requires
        n < 16,
    ensures
        c == hex_digit(n),
{
    if n == 0 {
        '0'
    } else if n == 1 {
        '1'
    } else if n == 2 {
        '2'
    } else if n == 3 {
        '3'
    } else if n == 4 {
        '4'
    } else if n == 5 {
        '5'
    } else if n == 6 {
        '6'
    } else if n == 7 {
        '7'
    } else if n == 8 {
        '8'
    } else if n == 9 {
        '9'
    } else if n == 10 {
        'A'
    } else if n == 11 {
        'B'
    } else if n == 12 {
        'C'
    } else if n == 13 {
        'D'
    } else if n == 14 {
        'E'
    } else {
        'F'
    }
}

fn hex_value_of(b: u8) -> (value: Option<u8>)
    ensures
        value == hex_value(b),
{
    if 0x30 <= b && b <= 0x39 {
        Some(b - 0x30)
    } else if 0x41 <= b && b <= 0x46 {
        Some(b - 0x41 + 10)
    } else if 0x61 <= b && b <= 0x66 {
        Some(b - 0x61 + 10)
    } else {
        None
    }
}

fn escape_value_of(high: u8, low: u8) -> (value: Option<u8>)
    ensures
        value == escape_value(high, low),
{
    if high == 0x2b {
        hex_value_of(low)
    } else {
        match (hex_value_of(high), hex_value_of(low)) {
            (Some(h), Some(l)) => Some(h * 16 + l),
            _ => None,
        }
    }
}

proof fn lemma_encode_bytes_step(bytes: Seq<u8>, i: int)
    requires
        0 <= i < bytes.len(),
    ensures
        encode_bytes(bytes.skip(i)) == encode_byte(bytes[i]) + encode_bytes(bytes.skip(i + 1)),
{
    assert(bytes.skip(i).skip(1) =~= bytes.skip(i + 1));
}

/// Percent-encodes one key component over its UTF-8 bytes.
pub fn encode_component(value: &str) -> (encoded: String)
    ensures
        encoded@ == encoded_component(value@),
{
    let bytes = value.as_bytes();
    let mut encoded = String::new();
    let mut i: usize = 0;
    proof {
        assert(bytes@.skip(0) =~= bytes@);
        assert(encoded@ + encode_bytes(bytes@) =~= encode_bytes(bytes@));
    }
    while i < bytes.len()
        invariant
            bytes@ == encode_utf8(value@),
            i <= bytes@.len(),
            encode_bytes(bytes@) == encoded@ + encode_bytes(bytes@.skip(i as int)),
        decreases bytes@.len() - i,
    {
        let b = bytes[i];
        proof {
            lemma_encode_bytes_step(bytes@, i as int);
        }
        let ghost before = encoded@;
        if is_unreserved(b) {
            push_char(&mut encoded, b as char);
        } else {
            let high = b >> 4;
            let low = b & 0x0f;
            proof {
                assert(b >> 4 == b / 16 && b / 16 < 16) by (bit_vector);
                assert(b & 0x0f == b % 16 && b % 16 < 16) by (bit_vector);
            }
            push_char(&mut encoded, '%');
            push_char(&mut encoded, hex_digit_of(high));
            push_char(&mut encoded, hex_digit_of(low));
        }
        proof {
            assert(encoded@ =~= before + encode_byte(b));
            assert(before + encode_bytes(bytes@.skip(i as int)) =~= encoded@ + encode_bytes(bytes@.skip(i + 1)));
        }
        i = i + 1;
    }
    proof {
        assert(bytes@.skip(i as int) =~= Seq::<u8>::empty());
        assert(encoded@ + Seq::<char>::empty() =~= encoded@);
    }
    encoded
}

/// Decodes one percent-encoded key component, or returns `None` where an
/// escape is cut short or malformed or the bytes are not valid UTF-8.
pub fn decode_component(value: &str) -> (decoded: Option<String>)
    ensures
        match decoded {
            Some(text) => decoded_component(value@) == Some(text@),
            None => decoded_component(value@) is None,
        },
{
    let bytes = value.as_bytes();
    let mut out: Vec<u8> = Vec::with_capacity(bytes.len());
    let mut index: usize = 0;
    proof {
        assert(bytes@.skip(0) =~= bytes@);
        match decode_bytes(bytes@) {
            Some(r) => assert(out@ + r =~= r),
            None => {},
        }
    }
    while index < bytes.len()
        invariant
            bytes@ == encode_utf8(value@),
            index <= bytes@.len(),
            decode_bytes(bytes@) == prepend(out@, decode_bytes(bytes@.skip(index as int))),
        decreases bytes@.len() - index,
    {
        let ghost rest = bytes@.skip(index as int);
        if bytes[index] == 0x25 {
            if bytes.len() - index <= 2 {
                return None;
            }
            let byte = match escape_value_of(bytes[index + 1], bytes[index + 2]) {
                Some(v) => v,
                None => {
                    return None;
                },
            };
            proof {
                assert(rest.skip(3) =~= bytes@.skip(index + 3));
                assert(rest[1] == bytes@[index + 1]);
            }
            let ghost before = out@;
            out.push(byte);
            proof {
                assert(out@ =~= before + seq![byte]);
                match decode_bytes(bytes@.skip(index + 3)) {
                    Some(r) => assert(before + (seq![byte] + r) =~= out@ + r),
                    None => {},
                }
            }
            index = index + 3;
        } else {
            let ghost before = out@;
            let byte = bytes[index];
            out.push(byte);
            proof {
                assert(rest.skip(1) =~= bytes@.skip(index + 1));
                assert(out@ =~= before + seq![byte]);
                match decode_bytes(bytes@.skip(index + 1)) {
                    Some(r) => assert(before + (seq![byte] + r) =~= out@ + r),
                    None => {},
                }
            }
            index = index + 1;
        }
    }
    proof {
        assert(bytes@.skip(index as int) =~= Seq::<u8>::empty());
        assert(out@ + Seq::<u8>::empty() =~= out@);
    }
    let ghost decoded_bytes = out@;
    let text = string_from_utf8(out);
    proof {
        if text is Some {
            vstd::utf8::encode_utf8_decode_utf8(text->0@);
        }
    }
    text
}

/// The bytes of a sequence of ASCII characters.
pub open spec fn ascii_bytes(chars: Seq<char>) -> Seq<u8> {
    chars.map_values(|c: char| c as u8)
}

/// Every encoded character is ASCII and none is the separator `:`.
pub open spec fn is_safe_encoding(chars: Seq<char>) -> bool {
    forall|i: int| 0 <= i < chars.len() ==> '\0' <= #[trigger] chars[i] <= '\u{7f}' && chars[i] != ':'
}

proof fn lemma_encode_bytes_safe(bytes: Seq<u8>)
    ensures
        is_safe_encoding(encode_bytes(bytes)),
    decreases bytes.len(),
{
    if bytes.len() > 0 {
        lemma_encode_bytes_safe(bytes.skip(1));
        let b = bytes[0];
        let head = encode_byte(b);
        let rest = encode_bytes(bytes.skip(1));
        assert forall|i: int| 0 <= i < head.len() + rest.len() implies '\0' <= #[trigger] (head + rest)[i] <= '\u{7f}'
            && (head + rest)[i] != ':' by {
            if i >= head.len() {
                assert((head + rest)[i] == rest[i - head.len()]);
            } else if !is_unreserved_byte(b) {
                assert(b / 16 < 16 && b % 16 < 16);
            }
        }
    }
}

proof fn lemma_decode_encode_bytes(bytes: Seq<u8>)
    ensures
        decode_bytes(ascii_bytes(encode_bytes(bytes))) == Some(bytes),
    decreases bytes.len(),
{
    if bytes.len() == 0 {
        assert(ascii_bytes(encode_bytes(bytes)) =~= Seq::<u8>::empty());
    } else {
        let b = bytes[0];
        let rest = bytes.skip(1);
        lemma_decode_encode_bytes(rest);
        let head = encode_byte(b);
        let encoded = ascii_bytes(encode_bytes(bytes));
        assert(encode_bytes(bytes) == head + encode_bytes(rest));
        assert(encoded =~= ascii_bytes(head) + ascii_bytes(encode_bytes(rest)));
        if is_unreserved_byte(b) {
            assert(encoded[0] == b);
            assert(encoded.skip(1) =~= ascii_bytes(encode_bytes(rest)));
        } else {
            let high = b / 16;
            let low = b % 16;
            assert(encoded[0] == 0x25);
            assert(encoded[1] == hex_digit(high) as u8);
            assert(encoded[2] == hex_digit(low) as u8);
            assert(hex_value(hex_digit(high) as u8) == Some(high));
            assert(hex_value(hex_digit(low) as u8) == Some(low));
            assert(escape_value(encoded[1], encoded[2]) == Some(b));
            assert(encoded.skip(3) =~= ascii_bytes(encode_bytes(rest)));
        }
        assert(seq![b] + rest =~= bytes);
    }
}

/// Decoding an encoded component gives back the component.
pub proof fn law_component_round_trip(text: Seq<char>)
    ensures
        decoded_component(encoded_component(text)) == Some(text),
        is_safe_encoding(encoded_component(text)),
{
    let bytes = encode_utf8(text);
    let encoded = encode_bytes(bytes);
    lemma_encode_bytes_safe(bytes);
    vstd::utf8::is_ascii_chars_encode_utf8(encoded);
    assert(encode_utf8(encoded) =~= ascii_bytes(encoded));
    lemma_decode_encode_bytes(bytes);
    vstd::utf8::encode_utf8_valid_utf8(text);
    vstd::utf8::encode_utf8_decode_utf8(text);
}

/// The Redis key of a record: the prefix and the encoded namespace,
/// collection and key, joined with `:`.
pub open spec fn joined_key(prefix: Seq<char>, namespace: Seq<char>, collection: Seq<char>, key: Seq<char>) -> Seq<
    char,
> {
    prefix + seq![':'] + encoded_component(namespace) + seq![':'] + encoded_component(collection) + seq![':']
        + encoded_component(key)
}

/// The key that a Redis key under a collection stands for: the rest after the
/// collection's prefix, decoded; `None` for a key outside the collection or
/// one that does not decode.
pub open spec fn key_in_collection(
    prefix: Seq<char>,
    namespace: Seq<char>,
    collection: Seq<char>,
    redis_key: Seq<char>,
) -> Option<Seq<char>> {
    let collection_prefix = joined_key(prefix, namespace, collection, Seq::empty());
    if collection_prefix.len() <= redis_key.len() && redis_key.subrange(0, collection_prefix.len() as int)
        == collection_prefix {
        decoded_component(redis_key.skip(collection_prefix.len() as int))
    } else {
        None
    }
}

fn join_components(prefix: &str, namespace: &str, collection: &str, key: &str) -> (joined: String)
    ensures
        joined@ == joined_key(prefix@, namespace@, collection@, key@),
{
    proof {
        reveal_strlit(":");
    }
    let mut joined = prefix.to_owned();
    joined.append(KEY_SEPARATOR);
    let encoded_namespace = encode_component(namespace);
    joined.append(encoded_namespace.as_str());
    joined.append(KEY_SEPARATOR);
    let encoded_collection = encode_component(collection);
    joined.append(encoded_collection.as_str());
    joined.append(KEY_SEPARATOR);
    let encoded_key = encode_component(key);
    joined.append(encoded_key.as_str());
    joined
}

/// Builds a Redis storage key from namespace, collection and key parts.
pub fn redis_key(prefix: &str, namespace: &str, collection: &str, key: &str) -> (redis_key: String)
    ensures
        redis_key@ == joined_key(prefix@, namespace@, collection@, key@),
{
    join_components(prefix, namespace, collection, key)
}

/// Builds a prefix used for backend prefix scans.
pub fn redis_prefix(prefix: &str, namespace: &str, collection: &str, key_prefix: &str) -> (redis_prefix: String)
    ensures
        redis_prefix@ == joined_key(prefix@, namespace@, collection@, key_prefix@),
{
    join_components(prefix, namespace, collection, key_prefix)
}

/// Builds a collection-wide Redis key prefix.
pub fn compose_collection_prefix(prefix: &str, namespace: &str, collection: &str) -> (collection_prefix: String)
    ensures
        collection_prefix@ == joined_key(prefix@, namespace@, collection@, Seq::empty()),
{
    proof {
        reveal_strlit("");
    }
    redis_prefix(prefix, namespace, collection, "")
}

/// Alias for composing a Redis storage key.
pub fn compose_storage_key(prefix: &str, namespace: &str, collection: &str, key: &str) -> (storage_key: String)
    ensures
        storage_key@ == joined_key(prefix@, namespace@, collection@, key@),
{
    redis_key(prefix, namespace, collection, key)
}

/// Decodes the user key from a Redis key when it belongs to the target collection.
pub fn decode_redis_key(prefix: &str, namespace: &str, collection: &str, redis_key: &str) -> (key: Option<String>)
    ensures
        match key {
            Some(k) => key_in_collection(prefix@, namespace@, collection@, redis_key@) == Some(k@),
            None => key_in_collection(prefix@, namespace@, collection@, redis_key@) is None,
        },
{
    let collection_prefix = compose_collection_prefix(prefix, namespace, collection);
    let prefix_chars = crate::order::chars_of(collection_prefix.as_str());
    let key_chars = crate::order::chars_of(redis_key);
    if !crate::order::starts_with(&key_chars, &prefix_chars) {
        return None;
    }
    let suffix = redis_key.substring_char(prefix_chars.len(), key_chars.len());
    proof {
        assert(redis_key@.subrange(prefix_chars@.len() as int, redis_key@.len() as int) =~= redis_key@.skip(
            prefix_chars@.len() as int,
        ));
    }
    decode_component(suffix)
}

/// The empty component encodes to nothing.
proof fn lemma_empty_component()
    ensures
        encoded_component(Seq::empty()) == Seq::<char>::empty(),
{
    assert(encode_utf8(Seq::<char>::empty()) =~= Seq::<u8>::empty());
}

/// The key of a record's Redis key, read back under its collection, is the
/// record's key.
pub proof fn law_redis_key_round_trip(prefix: Seq<char>, namespace: Seq<char>, collection: Seq<char>, key: Seq<char>)
    ensures
        key_in_collection(prefix, namespace, collection, joined_key(prefix, namespace, collection, key)) == Some(key),
{
    lemma_empty_component();
    let collection_prefix = joined_key(prefix, namespace, collection, Seq::empty());
    let full = joined_key(prefix, namespace, collection, key);
    assert(collection_prefix =~= prefix + seq![':'] + encoded_component(namespace) + seq![':'] + encoded_component(
        collection,
    ) + seq![':']);
    assert(full =~= collection_prefix + encoded_component(key));
    assert(full.subrange(0, collection_prefix.len() as int) =~= collection_prefix);
    assert(full.skip(collection_prefix.len() as int) =~= encoded_component(key));
    law_component_round_trip(key);
}

proof fn lemma_split_at_separator(a: Seq<char>, b: Seq<char>, rest_a: Seq<char>, rest_b: Seq<char>)
    requires
        is_safe_encoding(a),
        is_safe_encoding(b),
        a + seq![':'] + rest_a == b + seq![':'] + rest_b,
    ensures
        a == b,
        rest_a == rest_b,
{
    let left = a + seq![':'] + rest_a;
    let right = b + seq![':'] + rest_b;
    if a.len() < b.len() {
        assert(left[a.len() as int] == ':');
        assert(right[a.len() as int] == b[a.len() as int]);
    } else if b.len() < a.len() {
        assert(right[b.len() as int] == ':');
        assert(left[b.len() as int] == a[b.len() as int]);
    }
    assert(a =~= left.subrange(0, a.len() as int));
    assert(b =~= right.subrange(0, b.len() as int));
    assert(rest_a =~= left.skip(a.len() as int + 1));
    assert(rest_b =~= right.skip(b.len() as int + 1));
}

proof fn lemma_joined_parts(
    prefix: Seq<char>,
    na: Seq<char>,
    ca: Seq<char>,
    ka: Seq<char>,
    nb: Seq<char>,
    cb: Seq<char>,
    kb: Seq<char>,
)
    requires
        is_safe_encoding(na),
        is_safe_encoding(nb),
        is_safe_encoding(ca),
        is_safe_encoding(cb),
        prefix + seq![':'] + na + seq![':'] + ca + seq![':'] + ka == prefix + seq![':'] + nb + seq![':'] + cb
            + seq![':'] + kb,
    ensures
        na == nb,
        ca == cb,
        ka == kb,
{
    let full_a = prefix + seq![':'] + na + seq![':'] + ca + seq![':'] + ka;
    let full_b = prefix + seq![':'] + nb + seq![':'] + cb + seq![':'] + kb;
    let after_a = na + seq![':'] + (ca + seq![':'] + ka);
    let after_b = nb + seq![':'] + (cb + seq![':'] + kb);
    assert(after_a =~= full_a.skip(prefix.len() as int + 1));
    assert(after_b =~= full_b.skip(prefix.len() as int + 1));
    lemma_split_at_separator(na, nb, ca + seq![':'] + ka, cb + seq![':'] + kb);
    lemma_split_at_separator(ca, cb, ka, kb);
}

proof fn lemma_encoding_injective(a: Seq<char>, b: Seq<char>)
    requires
        encoded_component(a) == encoded_component(b),
    ensures
        a == b,
{
    law_component_round_trip(a);
    law_component_round_trip(b);
}

/// Distinct records under one prefix have distinct Redis keys.
pub proof fn law_redis_key_injective(
    prefix: Seq<char>,
    namespace_a: Seq<char>,
    collection_a: Seq<char>,
    key_a: Seq<char>,
    namespace_b: Seq<char>,
    collection_b: Seq<char>,
    key_b: Seq<char>,
)
    requires
        joined_key(prefix, namespace_a, collection_a, key_a) == joined_key(prefix, namespace_b, collection_b, key_b),
    ensures
        namespace_a == namespace_b,
        collection_a == collection_b,
        key_a == key_b,
{
    lemma_encode_bytes_safe(encode_utf8(namespace_a));
    lemma_encode_bytes_safe(encode_utf8(namespace_b));
    lemma_encode_bytes_safe(encode_utf8(collection_a));
    lemma_encode_bytes_safe(encode_utf8(collection_b));
    lemma_joined_parts(
        prefix,
        encoded_component(namespace_a),
        encoded_component(collection_a),
        encoded_component(key_a),
        encoded_component(namespace_b),
        encoded_component(collection_b),
        encoded_component(key_b),
    );
    lemma_encoding_injective(namespace_a, namespace_b);
    lemma_encoding_injective(collection_a, collection_b);
    lemma_encoding_injective(key_a, key_b);
}

/// Encoding a concatenation of bytes encodes each part in turn.
proof fn lemma_encode_bytes_append(a: Seq<u8>, b: Seq<u8>)
    ensures
        encode_bytes(a + b) == encode_bytes(a) + encode_bytes(b),
    decreases a.len(),
{
    if a.len() == 0 {
        assert(a + b =~= b);
        assert(encode_bytes(a) + encode_bytes(b) =~= encode_bytes(b));
    } else {
        assert((a + b).skip(1) =~= a.skip(1) + b);
        lemma_encode_bytes_append(a.skip(1), b);
        assert((a + b)[0] == a[0]);
        assert(encode_bytes(a + b) =~= encode_byte(a[0]) + (encode_bytes(a.skip(1)) + encode_bytes(b)));
    }
}

/// The UTF-8 encoding of a concatenation of texts is the concatenation of
/// their encodings.
proof fn lemma_encode_utf8_append(a: Seq<char>, b: Seq<char>)
    ensures
        encode_utf8(a + b) == encode_utf8(a) + encode_utf8(b),
    decreases a.len(),
{
    if a.len() == 0 {
        assert(a + b =~= b);
        assert(encode_utf8(a) + encode_utf8(b) =~= encode_utf8(b));
    } else {
        assert((a + b).drop_first() =~= a.drop_first() + b);
        lemma_encode_utf8_append(a.drop_first(), b);
        assert((a + b)[0] == a[0]);
        assert(encode_utf8(a + b) =~= encode_scalar(a[0] as u32) + (encode_utf8(a.drop_first()) + encode_utf8(b)));
    }
}

/// The Redis key of every record whose key starts with `key_prefix` starts
/// with the scan prefix of `key_prefix`, so a prefix scan finds it.
pub proof fn law_scan_prefix_covers_keys(
    prefix: Seq<char>,
    namespace: Seq<char>,
    collection: Seq<char>,
    key_prefix: Seq<char>,
    key: Seq<char>,
)
    requires
        text_starts_with(key, key_prefix),
    ensures
        text_starts_with(
            joined_key(prefix, namespace, collection, key),
            joined_key(prefix, namespace, collection, key_prefix),
        ),
{
    let rest = key.subrange(key_prefix.len() as int, key.len() as int);
    assert(key =~= key_prefix + rest);
    lemma_encode_utf8_append(key_prefix, rest);
    lemma_encode_bytes_append(encode_utf8(key_prefix), encode_utf8(rest));
    let head = prefix + seq![':'] + encoded_component(namespace) + seq![':'] + encoded_component(collection) + seq![
        ':',
    ];
    let short = joined_key(prefix, namespace, collection, key_prefix);
    let long = joined_key(prefix, namespace, collection, key);
    assert(short =~= head + encoded_component(key_prefix));
    assert(long =~= head + encoded_component(key_prefix) + encoded_component(rest));
    assert(long.subrange(0, short.len() as int) =~= short);
}

/// Bytes whose encoding starts another byte sequence's encoding start that
/// sequence: encoding each byte as one character or as `%` and two digits
/// never lets one byte's encoding begin another's.
proof fn lemma_encode_bytes_prefix(a: Seq<u8>, b: Seq<u8>)
    requires
        encode_bytes(a).len() <= encode_bytes(b).len(),
        encode_bytes(b).subrange(0, encode_bytes(a).len() as int) == encode_bytes(a),
    ensures
        a.len() <= b.len(),
        b.subrange(0, a.len() as int) == a,
    decreases a.len(),
{
    if a.len() == 0 {
        assert(b.subrange(0, 0) =~= a);
    } else {
        let ea = encode_bytes(a);
        let eb = encode_bytes(b);
        let ha = encode_byte(a[0]);
        assert(ea == ha + encode_bytes(a.skip(1)));
        assert(ea.len() > 0);
        if b.len() == 0 {
            assert(eb.len() == 0);
            assert(false);
        }
        let hb = encode_byte(b[0]);
        assert(eb == hb + encode_bytes(b.skip(1)));
        assert forall|i: int| 0 <= i < ea.len() implies eb[i] == ea[i] by {
            assert(eb.subrange(0, ea.len() as int)[i] == ea[i]);
        }
        assert(eb[0] == ea[0]);
        if is_unreserved_byte(a[0]) {
            assert(ha[0] == a[0] as char);
            if !is_unreserved_byte(b[0]) {
                assert(hb[0] == '%');
                assert(false);
            }
            assert(hb[0] == b[0] as char);
            assert(a[0] == b[0]);
        } else {
            assert(ha.len() == 3);
            assert(ha[0] == '%');
            if is_unreserved_byte(b[0]) {
                assert(hb[0] == b[0] as char);
                assert(false);
            }
            assert(hb.len() == 3);
            assert(ha[1] == eb[1] && ha[2] == eb[2]);
            assert(hex_value(hex_digit(a[0] / 16) as u8) == Some(a[0] / 16));
            assert(hex_value(hex_digit(a[0] % 16) as u8) == Some(a[0] % 16));
            assert(hex_value(hex_digit(b[0] / 16) as u8) == Some(b[0] / 16));
            assert(hex_value(hex_digit(b[0] % 16) as u8) == Some(b[0] % 16));
            assert(a[0] / 16 == b[0] / 16 && a[0] % 16 == b[0] % 16);
            assert(a[0] == b[0]);
        }
        let ta = encode_bytes(a.skip(1));
        let tb = encode_bytes(b.skip(1));
        assert(ha == hb);
        assert(eb.subrange(ha.len() as int, ea.len() as int) =~= ea.subrange(ha.len() as int, ea.len() as int));
        assert(tb.subrange(0, ta.len() as int) =~= eb.subrange(ha.len() as int, ea.len() as int));
        assert(ta =~= ea.subrange(ha.len() as int, ea.len() as int));
        lemma_encode_bytes_prefix(a.skip(1), b.skip(1));
        assert(b.subrange(0, a.len() as int) =~= seq![b[0]] + b.skip(1).subrange(0, a.len() - 1));
        assert(a =~= seq![a[0]] + a.skip(1));
    }
}

/// Texts whose UTF-8 encoding starts another text's encoding start that
/// text: UTF-8 tells each character's length from its first byte.
proof fn lemma_encode_utf8_prefix(q: Seq<char>, k: Seq<char>)
    requires
        encode_utf8(q).len() <= encode_utf8(k).len(),
        encode_utf8(k).subrange(0, encode_utf8(q).len() as int) == encode_utf8(q),
    ensures
        text_starts_with(k, q),
    decreases q.len(),
{
    if q.len() == 0 {
        assert(k.subrange(0, 0) =~= q);
    } else {
        let a = encode_utf8(q);
        let b = encode_utf8(k);
        vstd::utf8::encode_utf8_first_scalar(q);
        assert(a.len() > 0);
        if k.len() == 0 {
            assert(b.len() == 0);
            assert(false);
        }
        vstd::utf8::encode_utf8_first_scalar(k);
        assert forall|i: int| 0 <= i < a.len() implies b[i] == a[i] by {
            assert(b.subrange(0, a.len() as int)[i] == a[i]);
        }
        assert(vstd::utf8::decode_first_codepoint(a) == vstd::utf8::decode_first_codepoint(b));
        vstd::utf8::char_u32_cast(q[0], q[0] as u32);
        vstd::utf8::char_u32_cast(k[0], k[0] as u32);
        assert(q[0] == k[0]);
        let h = encode_scalar(q[0] as u32);
        let ta = encode_utf8(q.drop_first());
        let tb = encode_utf8(k.drop_first());
        assert(a == h + ta);
        assert(b == h + tb);
        assert(b.subrange(h.len() as int, a.len() as int) =~= a.subrange(h.len() as int, a.len() as int));
        assert(tb.subrange(0, ta.len() as int) =~= b.subrange(h.len() as int, a.len() as int));
        assert(ta =~= a.subrange(h.len() as int, a.len() as int));
        lemma_encode_utf8_prefix(q.drop_first(), k.drop_first());
        assert(k.subrange(0, q.len() as int) =~= seq![k[0]] + k.drop_first().subrange(0, q.len() - 1));
        assert(q =~= seq![q[0]] + q.drop_first());
    }
}

/// A record whose Redis key starts with the scan prefix of `key_prefix` has
/// a key that starts with `key_prefix`: a prefix scan finds no other record.
pub proof fn law_scan_prefix_reflects_keys(
    prefix: Seq<char>,
    namespace: Seq<char>,
    collection: Seq<char>,
    key_prefix: Seq<char>,
    key: Seq<char>,
)
    requires
        text_starts_with(
            joined_key(prefix, namespace, collection, key),
            joined_key(prefix, namespace, collection, key_prefix),
        ),
    ensures
        text_starts_with(key, key_prefix),
{
    let head = prefix + seq![':'] + encoded_component(namespace) + seq![':'] + encoded_component(collection) + seq![
        ':',
    ];
    let short = joined_key(prefix, namespace, collection, key_prefix);
    let long = joined_key(prefix, namespace, collection, key);
    let eq = encoded_component(key_prefix);
    let ek = encoded_component(key);
    assert(short =~= head + eq);
    assert(long =~= head + ek);
    assert forall|i: int| 0 <= i < short.len() implies long[i] == short[i] by {
        assert(long.subrange(0, short.len() as int)[i] == short[i]);
    }
    assert(long.subrange(head.len() as int, short.len() as int) =~= short.subrange(
        head.len() as int,
        short.len() as int,
    ));
    assert(ek.subrange(0, eq.len() as int) =~= long.subrange(head.len() as int, short.len() as int));
    assert(eq =~= short.subrange(head.len() as int, short.len() as int));
    lemma_encode_bytes_prefix(encode_utf8(key_prefix), encode_utf8(key));
    lemma_encode_utf8_prefix(key_prefix, key);
}

/// A Redis key of one namespace and collection is never read back as a key
/// of another.
pub proof fn law_other_collection_decodes_to_nothing(
    prefix: Seq<char>,
    namespace: Seq<char>,
    collection: Seq<char>,
    key: Seq<char>,
    other_namespace: Seq<char>,
    other_collection: Seq<char>,
)
    requires
        other_namespace != namespace || other_collection != collection,
    ensures
        key_in_collection(prefix, other_namespace, other_collection, joined_key(prefix, namespace, collection, key))
            is None,
{
    let full = joined_key(prefix, namespace, collection, key);
    let collection_prefix = joined_key(prefix, other_namespace, other_collection, Seq::empty());
    if collection_prefix.len() <= full.len() && full.subrange(0, collection_prefix.len() as int)
        == collection_prefix {
        lemma_empty_component();
        let rest = full.skip(collection_prefix.len() as int);
        assert(collection_prefix =~= prefix + seq![':'] + encoded_component(other_namespace) + seq![':']
            + encoded_component(other_collection) + seq![':']);
        assert(full =~= collection_prefix + rest);
        law_component_round_trip(namespace);
        law_component_round_trip(collection);
        law_component_round_trip(other_namespace);
        law_component_round_trip(other_collection);
        lemma_joined_parts(
            prefix,
            encoded_component(namespace),
            encoded_component(collection),
            encoded_component(key),
            encoded_component(other_namespace),
            encoded_component(other_collection),
            rest,
        );
        lemma_encoding_injective(namespace, other_namespace);
        lemma_encoding_injective(collection, other_collection);
    }
}

} // verus!
