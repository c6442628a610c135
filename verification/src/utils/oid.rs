//! Identifiers of stored entities: twelve bytes, written as twenty-four
//! hexadecimal digits.

use crate::errors::Error;
use vstd::prelude::*;
use vstd::std_specs::cmp::PartialEqSpecImpl;

verus! {

/// Number of bytes in an identifier.
pub const OBJECT_ID_BYTES: usize = 12;

/// The lower-case hexadecimal digit for a value below sixteen.
pub open spec fn hex_digit(n: nat) -> char
    recommends
        n < 16,
{
    if n < 10 {
        ((48 + n) as u8) as char
    } else {
        ((87 + n) as u8) as char
    }
}

/// The value of a hexadecimal digit of either case, if `c` is one.
pub open spec fn hex_value(c: char) -> Option<nat> {
    let code = c as nat;
    if 48 <= code <= 57 {
        Some((code - 48) as nat)
    } else if 97 <= code <= 102 {
        Some((code - 87) as nat)
    } else if 65 <= code <= 70 {
        Some((code - 55) as nat)
    } else {
        None
    }
}

/// Bytes in lower-case hexadecimal, two digits each, high digit first.
pub open spec fn hex_lower(bytes: Seq<u8>) -> Seq<char> {
    Seq::new(
        2 * bytes.len(),
        |i: int|
            if i % 2 == 0 {
                hex_digit((bytes[i / 2] / 16) as nat)
            } else {
                hex_digit((bytes[i / 2] % 16) as nat)
            },
    )
}

/// Whether `s` is the hexadecimal form of an identifier: twenty-four
/// hexadecimal digits of either case.
pub open spec fn is_hex_id(s: Seq<char>) -> bool {
    &&& s.len() == 2 * OBJECT_ID_BYTES
    &&& forall|i: int| 0 <= i < s.len() ==> (#[trigger] hex_value(s[i])) is Some
}

/// The bytes that the hexadecimal form `s` stands for.
pub open spec fn unhex(s: Seq<char>) -> Seq<u8>
    recommends
        is_hex_id(s),
{
    Seq::new(
        OBJECT_ID_BYTES as nat,
        |i: int| (16 * hex_value(s[2 * i])->0 + hex_value(s[2 * i + 1])->0) as u8,
    )
}

/// The identifier of a stored entity. Two identifiers are equal when their
/// bytes are.
#[derive(Debug, Clone, Copy)]
pub struct ObjectId {
    pub bytes: [u8; 12],
}

impl PartialEq for ObjectId {
    fn eq(&self, other: &Self) -> (same: bool) {
        let mut i: usize = 0;
        while i < 12
            invariant
                i <= 12,
                forall|j: int| 0 <= j < i ==> self.bytes@[j] == other.bytes@[j],
            decreases 12 - i,
        {
            if self.bytes[i] != other.bytes[i] {
                return false;
            }
            i += 1;
        }
        assert(self.bytes@ =~= other.bytes@);
        true
    }
}

impl PartialEqSpecImpl for ObjectId {
    open spec fn obeys_eq_spec() -> bool {
        true
    }

    open spec fn eq_spec(&self, other: &Self) -> bool {
        self@ == other@
    }
}

impl Eq for ObjectId {

}

impl View for ObjectId {
    type V = Seq<u8>;

    open spec fn view(&self) -> Seq<u8> {
        self.bytes@
    }
}

/// `bson::oid::ObjectId::to_hex`: the twelve bytes in lower-case hexadecimal,
/// as the `hex` crate's `encode` writes them.
#[verifier::external_body]
fn bson_to_hex(bytes: [u8; 12]) -> (hex: String)
    ensures
        hex@ == hex_lower(bytes@),
{
    bson::oid::ObjectId::from_bytes(bytes).to_hex()
}

/// `bson::oid::ObjectId::parse_str`: succeeds exactly on twenty-four
/// hexadecimal digits of either case, and then yields the bytes they spell.
/// Its error is dropped here.
#[verifier::external_body]
fn bson_parse_str(s: &str) -> (r: Option<[u8; 12]>)
    ensures
        r matches Some(bytes) ==> is_hex_id(s@) && bytes@ == unhex(s@),
        r is None ==> !is_hex_id(s@),
{
    bson::oid::ObjectId::parse_str(s).ok().map(|id| id.bytes())
}

impl ObjectId {
    pub fn from_bytes(bytes: [u8; 12]) -> (id: Self)
        ensures
            id@ == bytes@,
    {
        ObjectId { bytes }
    }

    pub fn bytes(&self) -> (bytes: [u8; 12])
        ensures
            bytes@ == self@,
    {
        self.bytes
    }

    /// The identifier in its canonical written form.
    pub fn to_hex(&self) -> (hex: String)
        ensures
            hex@ == hex_lower(self@),
    {
        bson_to_hex(self.bytes)
    }

    /// Reads an identifier from its written form. Anything but twenty-four
    /// hexadecimal digits is refused, and the refusal quotes what was given.
    pub fn parse_str(s: &str) -> (r: Result<Self, Error>)
        ensures
            is_hex_id(s@) ==> (r matches Ok(id) && id@ == unhex(s@)),
            !is_hex_id(s@) ==> (r matches Err(Error::ParseObjectID(given)) && given@ == s@),
    {
        match bson_parse_str(s) {
            Some(bytes) => Ok(ObjectId { bytes }),
            None => Err(Error::ParseObjectID(s.to_owned())),
        }
    }
}

/// Writing an identifier and reading it back gives the same identifier.
pub proof fn lemma_hex_round_trip(bytes: Seq<u8>)
    requires
        bytes.len() == OBJECT_ID_BYTES,
    ensures
        is_hex_id(hex_lower(bytes)),
        unhex(hex_lower(bytes)) == bytes,
{
    let s = hex_lower(bytes);
    assert forall|n: nat| n < 16 implies hex_value(#[trigger] hex_digit(n)) == Some(n) by {}
    assert forall|i: int| 0 <= i < s.len() implies (#[trigger] hex_value(s[i])) is Some by {
        let b = bytes[i / 2];
        assert((b / 16) < 16 && (b % 16) < 16);
    }
    assert forall|i: int| 0 <= i < OBJECT_ID_BYTES implies #[trigger] unhex(s)[i] == bytes[i] by {
        let b = bytes[i];
        assert((2 * i) / 2 == i && (2 * i + 1) / 2 == i);
        assert((2 * i) % 2 == 0 && (2 * i + 1) % 2 == 1);
        assert(s[2 * i] == hex_digit((b / 16) as nat));
        assert(s[2 * i + 1] == hex_digit((b % 16) as nat));
        assert(16 * (b / 16) + b % 16 == b);
    }
    assert(unhex(s) =~= bytes);
}

} // verus!
