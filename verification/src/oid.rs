use vstd::prelude::*;

verus! {

/// Value of one hexadecimal digit (either case); 0 for any other character.
pub open spec fn hex_digit_value(c: char) -> nat {
    let n = c as u32;
    if 48 <= n <= 57 {
        (n - 48) as nat
    } else if 97 <= n <= 102 {
        (n - 87) as nat
    } else if 65 <= n <= 70 {
        (n - 55) as nat
    } else {
        0
    }
}

pub open spec fn is_hex_digit(c: char) -> bool {
    let n = c as u32;
    (48 <= n <= 57) || (97 <= n <= 102) || (65 <= n <= 70)
}

pub open spec fn is_lower_hex_digit(c: char) -> bool {
    let n = c as u32;
    (48 <= n <= 57) || (97 <= n <= 102)
}

/// The number that a string of hexadecimal digits denotes, most significant digit first.
pub open spec fn hex_value(s: Seq<char>) -> nat
    decreases s.len(),
{
    if s.len() == 0 {
        0
    } else {
        hex_value(s.drop_last()) * 16 + hex_digit_value(s.last())
    }
}

/// A string that names an object id: exactly 24 hexadecimal digits.
pub open spec fn is_object_id_hex(s: Seq<char>) -> bool {
    &&& s.len() == 24
    &&& forall|i: int| 0 <= i < s.len() ==> is_hex_digit(#[trigger] s[i])
}

/// The 12-byte identifier of a stored document: `hi` holds the first eight bytes and
/// `lo` the last four, both big-endian.
#[derive(Clone, Copy, Debug, PartialEq, Eq, Hash, Structural)]
pub struct ObjectId {
    pub hi: u64,
    pub lo: u32,
}

impl ObjectId {
    /// The identifier read as one 96-bit number.
    pub open spec fn value(self) -> nat {
        (self.hi as nat) * 0x1_0000_0000 + (self.lo as nat)
    }

    /// A fresh identifier (current time, process id and counter).
    pub fn new() -> (id: ObjectId) {
        generate_object_id()
    }

    /// Parses 24 hexadecimal digits (either case); any other text is refused with
    /// the parser's own description of the fault.
    pub fn parse_str(s: &str) -> (r: Result<ObjectId, String>)
        ensures
            r is Ok <==> is_object_id_hex(s@),
            r matches Ok(id) ==> id.value() == hex_value(s@),
            r matches Err(t) ==> t@ == object_id_parse_error(s@),
    {
        parse_object_id(s)
    }

    /// The 24 lower-case hexadecimal digits of the identifier.
    pub fn to_hex(&self) -> (r: String)
        ensures
            is_lower_object_id_hex(r@),
            hex_value(r@) == self.value(),
    {
        object_id_to_hex(self)
    }
}

pub open spec fn is_lower_object_id_hex(s: Seq<char>) -> bool {
    &&& s.len() == 24
    &&& forall|i: int| 0 <= i < s.len() ==> is_lower_hex_digit(#[trigger] s[i])
}

/// A byte that hex decoding accepts: an ASCII hexadecimal digit of either case.
pub open spec fn is_hex_byte(b: u8) -> bool {
    (48 <= b <= 57) || (97 <= b <= 102) || (65 <= b <= 70)
}

/// `i` is the index of the first byte that is not a hexadecimal digit.
pub open spec fn is_first_non_hex(b: Seq<u8>, i: int) -> bool {
    &&& 0 <= i < b.len()
    &&& !is_hex_byte(b[i])
    &&& forall|j: int| 0 <= j < i ==> is_hex_byte(#[trigger] b[j])
}

/// The text of the error that bson gives for a string it cannot parse as an object id. hex
/// decoding of the string's bytes refuses an odd length first, then the first byte that is not
/// a hexadecimal digit (shown as the character of that byte value, with its byte index); an
/// even-length all-hex string of other than 24 bytes is refused for its length.
pub open spec fn object_id_parse_error(s: Seq<char>) -> Seq<char> {
    let b = vstd::utf8::encode_utf8(s);
    if b.len() % 2 == 0 && exists|i: int| is_first_non_hex(b, i) {
        let i = choose|i: int| is_first_non_hex(b, i);
        "invalid character '"@ + seq![b[i] as char] + "' was found at index "@
            + crate::utils::jwt::decimal(i as nat) + " in the provided hex string: \""@ + s + "\""@
    } else {
        "provided hex string representation must be exactly 12 bytes, instead got: \""@ + s
            + "\", length "@ + crate::utils::jwt::decimal(b.len())
    }
}

/// Calls `bson::oid::ObjectId::new`, which reads the clock, a per-process random value and
/// a counter; nothing is promised of the result.
#[verifier::external_body]
fn generate_object_id() -> (id: ObjectId) {
    let b = mongodb::bson::oid::ObjectId::new().bytes();
    ObjectId {
        hi: u64::from_be_bytes([b[0], b[1], b[2], b[3], b[4], b[5], b[6], b[7]]),
        lo: u32::from_be_bytes([b[8], b[9], b[10], b[11]]),
    }
}

/// Calls `bson::oid::ObjectId::parse_str`, which hex-decodes the bytes of the string
/// (`hex::decode`, both cases accepted) and succeeds exactly when it gets 12 bytes, that is
/// for 24 hexadecimal digits; the bytes, read big-endian, are the number the digits denote.
/// On failure it gives the error's display text, `object_id_parse_error` (bson's `Display`
/// of `InvalidHexStringCharacter` / `InvalidHexStringLength`, from hex's `decode`).
#[verifier::external_body]
fn parse_object_id(s: &str) -> (r: Result<ObjectId, String>)
    ensures
        r is Ok <==> is_object_id_hex(s@),
        r matches Ok(id) ==> id.value() == hex_value(s@),
        r matches Err(t) ==> t@ == object_id_parse_error(s@),
{
    match mongodb::bson::oid::ObjectId::parse_str(s) {
        Ok(o) => {
            let b = o.bytes();
            Ok(ObjectId {
                hi: u64::from_be_bytes([b[0], b[1], b[2], b[3], b[4], b[5], b[6], b[7]]),
                lo: u32::from_be_bytes([b[8], b[9], b[10], b[11]]),
            })
        },
        Err(e) => Err(e.to_string()),
    }
}

/// Calls `bson::oid::ObjectId::to_hex` (`hex::encode` of the 12 bytes), which writes two
/// lower-case digits per byte, most significant first: 24 digits denoting the identifier.
#[verifier::external_body]
fn object_id_to_hex(id: &ObjectId) -> (r: String)
    ensures
        is_lower_object_id_hex(r@),
        hex_value(r@) == id.value(),
{
    let hi = id.hi.to_be_bytes();
    let lo = id.lo.to_be_bytes();
    mongodb::bson::oid::ObjectId::from_bytes(
        [hi[0], hi[1], hi[2], hi[3], hi[4], hi[5], hi[6], hi[7], lo[0], lo[1], lo[2], lo[3]],
    ).to_hex()
}

/// Two identifiers that denote the same number are the same identifier.
pub proof fn lemma_value_injective(a: ObjectId, b: ObjectId)
    requires
        a.value() == b.value(),
    ensures
        a == b,
{
    let (ah, al, bh, bl) = (a.hi as int, a.lo as int, b.hi as int, b.lo as int);
    assert(ah == bh && al == bl) by (nonlinear_arith)
        requires
            ah * 0x1_0000_0000 + al == bh * 0x1_0000_0000 + bl,
            0 <= al < 0x1_0000_0000,
            0 <= bl < 0x1_0000_0000,
    {
        if ah < bh {
            assert(ah * 0x1_0000_0000 + 0x1_0000_0000 <= bh * 0x1_0000_0000);
        } else if ah > bh {
            assert(bh * 0x1_0000_0000 + 0x1_0000_0000 <= ah * 0x1_0000_0000);
        }
    }
}

/// Reading back the hex text of an identifier gives the same identifier: the text that
/// `to_hex` writes is accepted by `parse_str`, and whatever it parses to is the identifier.
pub proof fn to_hex_then_parse(id: ObjectId, text: Seq<char>, parsed: ObjectId)
    requires
        is_lower_object_id_hex(text),
        hex_value(text) == id.value(),
        parsed.value() == hex_value(text),
    ensures
        is_object_id_hex(text),
        parsed == id,
{
    assert forall|i: int| 0 <= i < text.len() implies is_hex_digit(#[trigger] text[i]) by {
        assert(is_lower_hex_digit(text[i]));
    }
    lemma_value_injective(parsed, id);
}

} // verus!
