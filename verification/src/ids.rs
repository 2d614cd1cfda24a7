//! Unique identifiers.
use byteorder::ByteOrder;
use vstd::prelude::*;

verus! {

/// A 128-bit unique identifier, in network byte order.
#[derive(Clone, Copy, Debug, PartialEq, Eq)]
pub struct Uuid {
    pub bytes: [u8; 16],
}

impl View for Uuid {
    type V = Seq<u8>;

    open spec fn view(&self) -> Seq<u8> {
        self.bytes@
    }
}

/// The lower-case hexadecimal digit for a number below sixteen.
pub open spec fn hex_digit(n: int) -> char {
    if n < 10 {
        ('0' as int + n) as char
    } else {
        ('a' as int + n - 10) as char
    }
}

/// Two lower-case hexadecimal digits for each byte.
pub open spec fn hex(bytes: Seq<u8>) -> Seq<char> {
    Seq::new(
        2 * bytes.len(),
        |i: int|
            hex_digit(
                if i % 2 == 0 {
                    bytes[i / 2] as int / 16
                } else {
                    bytes[i / 2] as int % 16
                },
            ),
    )
}

/// The usual text of an identifier: groups of 8, 4, 4, 4 and 12 digits.
pub open spec fn hyphenated(bytes: Seq<u8>) -> Seq<char> {
    hex(bytes.subrange(0, 4)).push('-') + hex(bytes.subrange(4, 6)).push('-') + hex(
        bytes.subrange(6, 8),
    ).push('-') + hex(bytes.subrange(8, 10)).push('-') + hex(bytes.subrange(10, 16))
}

/// The eight bytes of a word, most significant first.
pub open spec fn big_endian(word: u64) -> Seq<u8> {
    Seq::new(8, |i: int| (word >> ((56 - 8 * i) as u64)) as u8)
}

/// Whether the bytes carry the marks of a random identifier: version 4 of the RFC 4122 variant.
pub open spec fn is_random_id(bytes: Seq<u8>) -> bool {
    bytes.len() == 16 && bytes[6] / 16 == 4 && bytes[8] / 64 == 2
}

/// The identifier that a text stands for, if it stands for one.
pub uninterp spec fn id_of_text(text: Seq<char>) -> Option<Seq<u8>>;

/// Calls `uuid::Uuid::from_str`: the identifier that the text stands for. Which texts
/// stand for one is left to that crate, and named `id_of_text`.
#[verifier::external_body]
pub(crate) fn parse_id(text: &str) -> (r: Option<Uuid>)
    ensures
        r is Some <==> id_of_text(text@) is Some,
        r matches Some(id) ==> id_of_text(text@) == Some(id@),
{
    text.parse::<uuid::Uuid>().ok().map(|id| Uuid { bytes: *id.as_bytes() })
}

/// Calls `uuid::Uuid::to_string`: lower-case hexadecimal digits in five groups, a text that
/// `uuid::Uuid::from_str` reads back as the same identifier.
#[verifier::external_body]
pub(crate) fn id_text(id: Uuid) -> (r: String)
    ensures
        r@ == hyphenated(id@),
        id_of_text(r@) == Some(id@),
{
    uuid::Uuid::from_bytes(id.bytes).to_string()
}

/// Calls `uuid::Uuid::new_v4`: random, but for the bits that mark the version and the variant.
#[verifier::external_body]
pub(crate) fn random_id() -> (r: Uuid)
    ensures
        is_random_id(r@),
{
    Uuid { bytes: *uuid::Uuid::new_v4().as_bytes() }
}

/// Calls `byteorder::BigEndian::write_i64`: the word's two's complement, most significant
/// byte first.
#[verifier::external_body]
fn write_i64(n: i64) -> (r: [u8; 8])
    ensures
        r@ == big_endian(n as u64),
{
    let mut buf = [0u8; 8];
    byteorder::BigEndian::write_i64(&mut buf, n);
    buf
}

impl Uuid {
    /// The identifier whose bytes are all zero.
    pub fn nil() -> (r: Uuid)
        ensures
            r@ == Seq::new(16, |i: int| 0u8),
    {
        let r = Uuid { bytes: [0u8, 0, 0, 0, 0, 0, 0, 0, 0, 0, 0, 0, 0, 0, 0, 0] };
        assert(r@ =~= Seq::new(16, |i: int| 0u8));
        r
    }

    /// The identifier made of two words, the more significant one first.
    pub fn from_words(most_significant: i64, least_significant: i64) -> (r: Uuid)
        ensures
            r@ == big_endian(most_significant as u64) + big_endian(least_significant as u64),
    {
        let high = write_i64(most_significant);
        let low = write_i64(least_significant);
        let r = Uuid {
            bytes: [
                high[0], high[1], high[2], high[3], high[4], high[5], high[6], high[7], low[0],
                low[1], low[2], low[3], low[4], low[5], low[6], low[7],
            ],
        };
        assert(r@ =~= high@ + low@);
        r
    }
}

/// Different pairs of words make different identifiers.
pub proof fn law_words_determine_identifier(high: u64, low: u64, other_high: u64, other_low: u64)
    requires
        big_endian(high) + big_endian(low) == big_endian(other_high) + big_endian(other_low),
    ensures
        high == other_high,
        low == other_low,
{
    let a = big_endian(high) + big_endian(low);
    let b = big_endian(other_high) + big_endian(other_low);
    assert forall|i: int| 0 <= i < 8 implies #[trigger] big_endian(high)[i] == big_endian(
        other_high,
    )[i] by {
        assert(a[i] == big_endian(high)[i]);
        assert(b[i] == big_endian(other_high)[i]);
    }
    assert forall|i: int| 0 <= i < 8 implies #[trigger] big_endian(low)[i] == big_endian(
        other_low,
    )[i] by {
        assert(a[i + 8] == big_endian(low)[i]);
        assert(b[i + 8] == big_endian(other_low)[i]);
    }
    lemma_big_endian(high, other_high);
    lemma_big_endian(low, other_low);
}

proof fn lemma_big_endian(a: u64, b: u64)
    requires
        forall|i: int| 0 <= i < 8 ==> #[trigger] big_endian(a)[i] == big_endian(b)[i],
    ensures
        a == b,
{
    assert(big_endian(a)[0] == big_endian(b)[0]);
    assert(big_endian(a)[1] == big_endian(b)[1]);
    assert(big_endian(a)[2] == big_endian(b)[2]);
    assert(big_endian(a)[3] == big_endian(b)[3]);
    assert(big_endian(a)[4] == big_endian(b)[4]);
    assert(big_endian(a)[5] == big_endian(b)[5]);
    assert(big_endian(a)[6] == big_endian(b)[6]);
    assert(big_endian(a)[7] == big_endian(b)[7]);
    assert(a == b) by (bit_vector)
        requires
            (a >> 56u64) as u8 == (b >> 56u64) as u8,
            (a >> 48u64) as u8 == (b >> 48u64) as u8,
            (a >> 40u64) as u8 == (b >> 40u64) as u8,
            (a >> 32u64) as u8 == (b >> 32u64) as u8,
            (a >> 24u64) as u8 == (b >> 24u64) as u8,
            (a >> 16u64) as u8 == (b >> 16u64) as u8,
            (a >> 8u64) as u8 == (b >> 8u64) as u8,
            (a >> 0u64) as u8 == (b >> 0u64) as u8,
    ;
}

} // verus!
