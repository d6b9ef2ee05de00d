//! Session identifiers: 128-bit UUIDs, held as two 64-bit halves.

use crate::bytes::{be_bytes, concat, u64_be_bytes};
use vstd::array::array_as_slice;
use vstd::prelude::*;

verus! {

/// The identifier of one session.
#[derive(Debug, Clone, Copy, PartialEq, Eq, Hash, Structural)]
pub struct SessionId {
    /// The first eight bytes, as a big-endian number.
    pub high: u64,
    /// The last eight bytes, as a big-endian number.
    pub low: u64,
}

/// The lower-case hexadecimal digit of a value below sixteen.
pub open spec fn hex_digit(nibble: u8) -> char {
    if nibble < 10 {
        (48 + nibble) as char
    } else {
        (87 + nibble) as char
    }
}

/// Two lower-case hexadecimal digits for every byte.
pub open spec fn hex_text(bytes: Seq<u8>) -> Seq<char>
    decreases bytes.len(),
{
    if bytes.len() == 0 {
        Seq::empty()
    } else {
        seq![hex_digit(bytes[0] / 16), hex_digit(bytes[0] % 16)] + hex_text(bytes.drop_first())
    }
}

/// The canonical text of a UUID: its sixteen bytes in hexadecimal, in
/// groups of 4, 2, 2, 2 and 6 bytes with a hyphen between the groups.
pub open spec fn hyphenated(bytes: Seq<u8>) -> Seq<char> {
    hex_text(bytes.subrange(0, 4)) + seq!['-'] + hex_text(bytes.subrange(4, 6)) + seq!['-']
        + hex_text(bytes.subrange(6, 8)) + seq!['-'] + hex_text(bytes.subrange(8, 10)) + seq!['-']
        + hex_text(bytes.subrange(10, 16))
}

impl SessionId {
    /// The sixteen bytes of the identifier.
    pub open spec fn bytes_spec(self) -> Seq<u8> {
        be_bytes(self.high) + be_bytes(self.low)
    }

    /// The identifier as text.
    pub open spec fn text_spec(self) -> Seq<char> {
        hyphenated(self.bytes_spec())
    }

    /// The sixteen bytes of the identifier.
    pub fn as_bytes(&self) -> (bytes: Vec<u8>)
        ensures
            bytes@ == self.bytes_spec(),
            bytes@.len() == 16,
    {
        let high = u64_be_bytes(self.high);
        let low = u64_be_bytes(self.low);
        concat(array_as_slice(&high), array_as_slice(&low))
    }

    /// A fresh random identifier: a version 4 UUID.
    pub fn generate() -> (id: SessionId)
        ensures
            (id.high >> 12) & 0xf == 4,
            id.low >> 62 == 2,
    {
        let (high, low) = uuid_new_v4();
        SessionId { high, low }
    }

    /// The identifier as text, as UUIDs are written.
    pub fn to_text(&self) -> (text: String)
        ensures
            text@ == self.text_spec(),
    {
        uuid_to_string(self.high, self.low)
    }
}

/// `Uuid::new_v4`: 122 random bits around the version and variant marks.
/// Of the outcome only the marks are promised: version 4 in bits 12 to 15
/// of the upper half, variant `10` in the two top bits of the lower half.
#[verifier::external_body]
fn uuid_new_v4() -> (halves: (u64, u64))
    ensures
        (halves.0 >> 12) & 0xf == 4,
        halves.1 >> 62 == 2,
{
    uuid::Uuid::new_v4().as_u64_pair()
}

/// `Uuid::to_string`: the hyphenated lower-case form of the sixteen bytes.
#[verifier::external_body]
fn uuid_to_string(high: u64, low: u64) -> (text: String)
    ensures
        text@ == hyphenated(be_bytes(high) + be_bytes(low)),
{
    uuid::Uuid::from_u64_pair(high, low).to_string()
}

} // verus!
