//! UUIDs, as the C2PA identifiers carry them.
use vstd::prelude::*;
use crate::hash::digest::{hex_char, hex_text, lemma_hex_roundtrip, lemma_hex_text_shape};
use crate::text::{all_hex_digits, ascii_lowercase, is_hex_digit};

verus! {

/// A UUID, held as its 128-bit value: the 16 bytes in big-endian order, as
/// `uuid::Uuid::as_u128` gives them.
#[derive(Debug, Clone, Copy, PartialEq, Eq, Structural)]
pub struct Uuid {
    value: u128,
}

/// The 16 bytes of a UUID value, most significant first.
pub open spec fn uuid_bytes(v: u128) -> Seq<u8> {
    seq![
        (v >> 120u128) as u8,
        (v >> 112u128) as u8,
        (v >> 104u128) as u8,
        (v >> 96u128) as u8,
        (v >> 88u128) as u8,
        (v >> 80u128) as u8,
        (v >> 72u128) as u8,
        (v >> 64u128) as u8,
        (v >> 56u128) as u8,
        (v >> 48u128) as u8,
        (v >> 40u128) as u8,
        (v >> 32u128) as u8,
        (v >> 24u128) as u8,
        (v >> 16u128) as u8,
        (v >> 8u128) as u8,
        v as u8,
    ]
}

/// The version digit of a UUID value: bits 76 to 79.
pub open spec fn uuid_version(v: u128) -> u128 {
    (v >> 76u128) & 15u128
}

/// The hyphenated lowercase text of a UUID value, `8-4-4-4-12` hexadecimal
/// digits, as `uuid::Uuid`'s `Display` writes it.
pub open spec fn uuid_text_of(v: u128) -> Seq<char> {
    let h = hex_text(uuid_bytes(v));
    h.subrange(0, 8) + "-"@ + h.subrange(8, 12) + "-"@ + h.subrange(12, 16) + "-"@ + h.subrange(
        16,
        20,
    ) + "-"@ + h.subrange(20, 32)
}

/// The 32 hexadecimal digits of hyphenated UUID text: 36 characters with
/// hyphens at 8, 13, 18 and 23 and hexadecimal digits of either case
/// elsewhere; `None` for other text.
pub open spec fn hyphenated_digits(t: Seq<char>) -> Option<Seq<char>> {
    if t.len() == 36 && t[8] == '-' && t[13] == '-' && t[18] == '-' && t[23] == '-'
        && all_hex_digits(uuid_digits(t)) {
        Some(uuid_digits(t))
    } else {
        None
    }
}

/// The 32 hexadecimal digits of the text `uuid::Uuid::parse_str` accepts:
/// 32 digits; hyphenated text; hyphenated text in braces; or hyphenated text
/// after `urn:uuid:` in either case. `None` for any other text.
pub open spec fn uuid_text_digits(s: Seq<char>) -> Option<Seq<char>> {
    if s.len() == 32 {
        if all_hex_digits(s) {
            Some(s)
        } else {
            None
        }
    } else if s.len() == 36 {
        hyphenated_digits(s)
    } else if s.len() == 38 && s[0] == '{' && s[37] == '}' {
        hyphenated_digits(s.subrange(1, 37))
    } else if s.len() == 45 && ascii_lowercase(s.take(9)) == "urn:uuid:"@ {
        hyphenated_digits(s.skip(9))
    } else {
        None
    }
}

/// The value `uuid::Uuid::parse_str` reads from `s`, if it accepts it: the
/// value whose lowercase hexadecimal digits the text holds, in either case.
pub open spec fn uuid_parsed(s: Seq<char>) -> Option<u128> {
    match uuid_text_digits(s) {
        Some(d) => Some(choose|v: u128| hex_text(uuid_bytes(v)) == ascii_lowercase(d)),
        None => None,
    }
}

/// The text of the error `uuid::Uuid::parse_str` reports on `s`.
pub uninterp spec fn uuid_error_text(s: Seq<char>) -> Seq<char>;

/// `uuid::Uuid::parse_str`, its error turned into its text: it accepts the
/// four forms of `uuid_text_digits` and reads the value whose lowercase
/// digits the text holds.
#[verifier::external_body]
fn uuid_parse_str(s: &str) -> (r: std::result::Result<u128, String>)
    ensures
        r is Ok <==> uuid_text_digits(s@) is Some,
        r matches Ok(v) ==> (uuid_text_digits(s@) matches Some(d) && hex_text(uuid_bytes(v))
            == ascii_lowercase(d)),
        r matches Err(m) ==> m@ == uuid_error_text(s@),
{
    match uuid::Uuid::parse_str(s) {
        Ok(u) => Ok(u.as_u128()),
        Err(e) => Err(e.to_string()),
    }
}

/// The value a UUID text parses to is the one whose digits it holds.
proof fn lemma_parsed_value(s: Seq<char>, v: u128)
    requires
        uuid_text_digits(s) matches Some(d) && hex_text(uuid_bytes(v)) == ascii_lowercase(d),
    ensures
        uuid_parsed(s) == Some(v),
{
    let d = uuid_text_digits(s)->0;
    let w = choose|w: u128| hex_text(uuid_bytes(w)) == ascii_lowercase(d);
    lemma_hex_roundtrip(uuid_bytes(v));
    lemma_hex_roundtrip(uuid_bytes(w));
    lemma_uuid_bytes_injective(w, v);
}

/// Parses a UUID as `uuid::Uuid::parse_str` does, its error turned into its
/// text.
pub(crate) fn parse_uuid(s: &str) -> (r: std::result::Result<u128, String>)
    ensures
        r is Ok <==> uuid_parsed(s@) is Some,
        r matches Ok(v) ==> uuid_parsed(s@) == Some(v),
        r matches Err(m) ==> m@ == uuid_error_text(s@),
{
    let r = uuid_parse_str(s);
    proof {
        if let Ok(v) = r {
            lemma_parsed_value(s@, v);
        }
    }
    r
}

/// `uuid::Uuid::from_u128` written with `Display`: the hyphenated
/// lowercase text.
#[verifier::external_body]
pub(crate) fn format_uuid(v: u128) -> (r: String)
    ensures
        r@ == uuid_text_of(v),
{
    uuid::Uuid::from_u128(v).to_string()
}

/// `uuid::Uuid::new_v4`: a random version-4 UUID. Which value comes out is
/// left open; its version digit is 4.
#[verifier::external_body]
pub(crate) fn random_uuid() -> (r: u128)
    ensures
        uuid_version(r) == 4,
{
    uuid::Uuid::new_v4().as_u128()
}

impl Uuid {
    /// The 128-bit value.
    pub closed spec fn value(&self) -> u128 {
        self.value
    }

    /// The UUID with the given 128-bit value.
    pub fn from_u128(value: u128) -> (r: Uuid)
        ensures
            r.value() == value,
    {
        Uuid { value }
    }

    /// The 128-bit value.
    pub fn as_u128(&self) -> (r: u128)
        ensures
            r == self.value(),
    {
        self.value
    }

    /// A random version-4 UUID.
    pub fn new_v4() -> (r: Uuid)
        ensures
            uuid_version(r.value()) == 4,
    {
        Uuid { value: random_uuid() }
    }

    /// Parses a UUID as `uuid::Uuid::parse_str` does.
    pub fn parse_str(s: &str) -> (r: Option<Uuid>)
        ensures
            r matches Some(u) ==> uuid_parsed(s@) == Some(u.value()),
            r is None ==> uuid_parsed(s@) is None,
    {
        match parse_uuid(s) {
            Ok(v) => Some(Uuid { value: v }),
            Err(_) => None,
        }
    }

    /// The hyphenated lowercase text, e.g.
    /// `123e4567-e89b-12d3-a456-426614174000`.
    pub fn to_string(&self) -> (r: String)
        ensures
            r@ == uuid_text_of(self.value()),
    {
        format_uuid(self.value)
    }
}

/// Distinct values have distinct bytes.
pub proof fn lemma_uuid_bytes_injective(a: u128, b: u128)
    requires
        uuid_bytes(a) == uuid_bytes(b),
    ensures
        a == b,
{
    assert(uuid_bytes(a)[0] == uuid_bytes(b)[0]);
    assert(uuid_bytes(a)[1] == uuid_bytes(b)[1]);
    assert(uuid_bytes(a)[2] == uuid_bytes(b)[2]);
    assert(uuid_bytes(a)[3] == uuid_bytes(b)[3]);
    assert(uuid_bytes(a)[4] == uuid_bytes(b)[4]);
    assert(uuid_bytes(a)[5] == uuid_bytes(b)[5]);
    assert(uuid_bytes(a)[6] == uuid_bytes(b)[6]);
    assert(uuid_bytes(a)[7] == uuid_bytes(b)[7]);
    assert(uuid_bytes(a)[8] == uuid_bytes(b)[8]);
    assert(uuid_bytes(a)[9] == uuid_bytes(b)[9]);
    assert(uuid_bytes(a)[10] == uuid_bytes(b)[10]);
    assert(uuid_bytes(a)[11] == uuid_bytes(b)[11]);
    assert(uuid_bytes(a)[12] == uuid_bytes(b)[12]);
    assert(uuid_bytes(a)[13] == uuid_bytes(b)[13]);
    assert(uuid_bytes(a)[14] == uuid_bytes(b)[14]);
    assert(uuid_bytes(a)[15] == uuid_bytes(b)[15]);
    assert(a == b) by (bit_vector)
        requires
            (a >> 120u128) as u8 == (b >> 120u128) as u8,
            (a >> 112u128) as u8 == (b >> 112u128) as u8,
            (a >> 104u128) as u8 == (b >> 104u128) as u8,
            (a >> 96u128) as u8 == (b >> 96u128) as u8,
            (a >> 88u128) as u8 == (b >> 88u128) as u8,
            (a >> 80u128) as u8 == (b >> 80u128) as u8,
            (a >> 72u128) as u8 == (b >> 72u128) as u8,
            (a >> 64u128) as u8 == (b >> 64u128) as u8,
            (a >> 56u128) as u8 == (b >> 56u128) as u8,
            (a >> 48u128) as u8 == (b >> 48u128) as u8,
            (a >> 40u128) as u8 == (b >> 40u128) as u8,
            (a >> 32u128) as u8 == (b >> 32u128) as u8,
            (a >> 24u128) as u8 == (b >> 24u128) as u8,
            (a >> 16u128) as u8 == (b >> 16u128) as u8,
            (a >> 8u128) as u8 == (b >> 8u128) as u8,
            a as u8 == b as u8,
    ;
}

/// The hexadecimal digits of a UUID's text, its hyphens left out.
pub open spec fn uuid_digits(t: Seq<char>) -> Seq<char> {
    t.subrange(0, 8) + t.subrange(9, 13) + t.subrange(14, 18) + t.subrange(19, 23) + t.subrange(
        24,
        36,
    )
}

/// The text of a UUID is 36 characters: hexadecimal digits and four
/// hyphens, so no `:`; without its hyphens it is the hexadecimal text of
/// the bytes.
pub proof fn lemma_uuid_text_shape(v: u128)
    ensures
        uuid_text_of(v).len() == 36,
        uuid_digits(uuid_text_of(v)) == hex_text(uuid_bytes(v)),
        forall|i: int|
            0 <= i < 36 ==> is_hex_digit(#[trigger] uuid_text_of(v)[i]) || uuid_text_of(v)[i]
                == '-',
        !uuid_text_of(v).contains(':'),
        uuid_text_of(v)[8] == '-' && uuid_text_of(v)[13] == '-' && uuid_text_of(v)[18] == '-'
            && uuid_text_of(v)[23] == '-',
{
    reveal_strlit("-");
    let h = hex_text(uuid_bytes(v));
    lemma_hex_text_shape(uuid_bytes(v));
    let t = uuid_text_of(v);
    assert(uuid_digits(t) =~= h);
    assert forall|i: int| 0 <= i < 36 implies is_hex_digit(#[trigger] t[i]) || t[i] == '-' by {
        if i < 8 {
            assert(t[i] == h[i]);
        } else if i == 8 || i == 13 || i == 18 || i == 23 {
        } else if i < 13 {
            assert(t[i] == h[i - 1]);
        } else if i < 18 {
            assert(t[i] == h[i - 2]);
        } else if i < 23 {
            assert(t[i] == h[i - 3]);
        } else {
            assert(t[i] == h[i - 4]);
        }
    }
    if t.contains(':') {
        let k = choose|k: int| 0 <= k < t.len() && t[k] == ':';
        assert(is_hex_digit(t[k]) || t[k] == '-');
    }
}

/// Distinct values have distinct texts.
pub proof fn lemma_uuid_text_injective(a: u128, b: u128)
    requires
        uuid_text_of(a) == uuid_text_of(b),
    ensures
        a == b,
{
    lemma_uuid_text_shape(a);
    lemma_uuid_text_shape(b);
    lemma_hex_roundtrip(uuid_bytes(a));
    lemma_hex_roundtrip(uuid_bytes(b));
    lemma_uuid_bytes_injective(a, b);
}

/// Lowercase hexadecimal text has no capitals.
proof fn lemma_hex_text_lowercase(bytes: Seq<u8>)
    ensures
        ascii_lowercase(hex_text(bytes)) == hex_text(bytes),
{
    let h = hex_text(bytes);
    assert forall|i: int| 0 <= i < h.len() implies !('A' <= h[i] && h[i] <= 'Z') by {
        let n = if i % 2 == 0 {
            bytes[i / 2] as int / 16
        } else {
            bytes[i / 2] as int % 16
        };
        assert(h[i] == hex_char(n));
    }
    assert(ascii_lowercase(h) =~= h);
}

/// Parsing the text of a UUID value gives that value back.
pub proof fn lemma_uuid_parse_text(v: u128)
    ensures
        uuid_parsed(uuid_text_of(v)) == Some(v),
{
    let t = uuid_text_of(v);
    lemma_uuid_text_shape(v);
    lemma_hex_text_shape(uuid_bytes(v));
    lemma_hex_text_lowercase(uuid_bytes(v));
    assert(hyphenated_digits(t) == Some(hex_text(uuid_bytes(v))));
    lemma_parsed_value(t, v);
}

} // verus!
