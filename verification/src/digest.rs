//! Content digests, their printable forms, and identifiers derived from them.
//!
//! Identifiers are 128-bit values. Digest inputs are built as explicit byte
//! messages, so that every contract names the exact bytes that were hashed.

use sha2::Digest;
use vstd::prelude::*;
use vstd::utf8::encode_utf8;

verus! {

/// A 128-bit identifier; zero is the nil identifier.
pub type Uuid = u128;

/// The SHA-256 digest of a message.
pub uninterp spec fn sha256_digest(message: Seq<u8>) -> Seq<u8>;

/// What parsing a textual identifier gives.
pub uninterp spec fn parsed_uuid(text: Seq<char>) -> Option<u128>;

/// Big-endian value of a byte string.
pub open spec fn big_endian_value(bytes: Seq<u8>) -> nat
    decreases bytes.len(),
{
    if bytes.len() == 0 {
        0
    } else {
        big_endian_value(bytes.drop_last()) * 256 + bytes.last() as nat
    }
}

/// Big-endian representation of `value` in `width` bytes.
pub open spec fn big_endian_bytes(value: nat, width: nat) -> Seq<u8>
    decreases width,
{
    if width == 0 {
        Seq::empty()
    } else {
        big_endian_bytes(value / 256, (width - 1) as nat).push((value % 256) as u8)
    }
}

/// Lowercase hexadecimal digit.
pub open spec fn hex_digit(value: int) -> char {
    if value < 10 {
        (48 + value) as char
    } else {
        (87 + value) as char
    }
}

/// Lowercase hexadecimal text of a byte string, two digits for each byte.
pub open spec fn hex_text(bytes: Seq<u8>) -> Seq<char> {
    Seq::new(
        2 * bytes.len(),
        |i: int|
            if i % 2 == 0 {
                hex_digit(bytes[i / 2] as int / 16)
            } else {
                hex_digit(bytes[i / 2] as int % 16)
            },
    )
}

/// Hyphenated lowercase text of an identifier: hexadecimal groups of eight,
/// four, four, four, and twelve digits.
pub open spec fn uuid_text(id: u128) -> Seq<char> {
    let digits = hex_text(big_endian_bytes(id as nat, 16));
    digits.subrange(0, 8) + seq!['-'] + digits.subrange(8, 12) + seq!['-'] + digits.subrange(
        12,
        16,
    ) + seq!['-'] + digits.subrange(16, 20) + seq!['-'] + digits.subrange(20, 32)
}

/// SHA-256 (`sha2::Sha256::digest`). The result is named as a function of the
/// message and is 32 bytes long.
#[verifier::external_body]
pub(crate) fn sha256(message: &[u8]) -> (digest: Vec<u8>)
    ensures
        digest@ == sha256_digest(message@),
        digest@.len() == 32,
{
    sha2::Sha256::digest(message).to_vec()
}

/// Lowercase hexadecimal encoding (`hex::encode`): two digits for each byte,
/// high half first.
#[verifier::external_body]
pub(crate) fn hex_encode(bytes: &[u8]) -> (text: String)
    ensures
        text@ == hex_text(bytes@),
{
    hex::encode(bytes)
}

/// Identifier with the given bytes (`uuid::Uuid::from_bytes`), most
/// significant byte first.
#[verifier::external_body]
pub(crate) fn uuid_from_bytes(bytes: [u8; 16]) -> (id: Uuid)
    ensures
        id == big_endian_value(bytes@),
{
    uuid::Uuid::from_bytes(bytes).as_u128()
}

/// The identifier's sixteen bytes (`uuid::Uuid::into_bytes`), most significant
/// byte first.
#[verifier::external_body]
pub(crate) fn uuid_bytes(id: Uuid) -> (bytes: [u8; 16])
    ensures
        bytes@ == big_endian_bytes(id as nat, 16),
{
    uuid::Uuid::from_u128(id).into_bytes()
}

/// The identifier's hyphenated lowercase text (`uuid::Uuid` as `Display`).
#[verifier::external_body]
pub(crate) fn uuid_to_string(id: Uuid) -> (text: String)
    ensures
        text@ == uuid_text(id),
{
    uuid::Uuid::from_u128(id).to_string()
}

/// Parses a textual identifier (`uuid::Uuid::parse_str`). The result is named
/// as a function of the text; the accepted spellings are not stated.
#[verifier::external_body]
pub(crate) fn uuid_parse(text: &str) -> (id: Option<Uuid>)
    ensures
        id == parsed_uuid(text@),
{
    match uuid::Uuid::parse_str(text) {
        Ok(id) => Some(id.as_u128()),
        Err(_) => None,
    }
}

/// The SHA-256 digest of `message`, as lowercase hexadecimal text.
pub fn sha256_hex(message: &[u8]) -> (text: String)
    ensures
        text@ == hex_text(sha256_digest(message@)),
        text@.len() == 64,
{
    let digest = sha256(message);
    hex_encode(digest.as_slice())
}

/// Identifier made of the first sixteen bytes of a digest.
pub open spec fn digest_uuid(digest: Seq<u8>) -> nat {
    big_endian_value(digest.subrange(0, 16))
}

/// The first sixteen bytes of a digest.
pub fn digest_prefix(digest: &Vec<u8>) -> (bytes: [u8; 16])
    requires
        digest@.len() >= 16,
    ensures
        bytes@ == digest@.subrange(0, 16),
{
    let mut bytes: [u8; 16] = [0;16];
    let mut i: usize = 0;
    while i < 16
        invariant
            i <= 16,
            digest@.len() >= 16,
            forall|k: int| 0 <= k < i ==> bytes@[k] == digest@[k],
        decreases 16 - i,
    {
        bytes[i] = digest[i];
        i += 1;
    }
    assert(bytes@ =~= digest@.subrange(0, 16));
    bytes
}

/// Appends the UTF-8 bytes of `text` to a message.
pub fn push_text(message: &mut Vec<u8>, text: &str)
    ensures
        final(message)@ == old(message)@ + encode_utf8(text@),
{
    push_bytes(message, text.as_bytes());
}

/// Appends bytes to a message.
pub fn push_bytes(message: &mut Vec<u8>, bytes: &[u8])
    ensures
        final(message)@ == old(message)@ + bytes@,
{
    let ghost before = message@;
    let mut i: usize = 0;
    while i < bytes.len()
        invariant
            i <= bytes@.len(),
            message@ == before + bytes@.subrange(0, i as int),
        decreases bytes@.len() - i,
    {
        message.push(bytes[i]);
        proof {
            assert(bytes@.subrange(0, i as int + 1) =~= bytes@.subrange(0, i as int).push(
                bytes@[i as int],
            ));
        }
        i += 1;
    }
    assert(bytes@.subrange(0, i as int) =~= bytes@);
}

/// Appends an unsigned 64-bit number, most significant byte first.
pub fn push_u64(message: &mut Vec<u8>, value: u64)
    ensures
        final(message)@ == old(message)@ + big_endian_bytes(value as nat, 8),
{
    let bytes = big_endian(value, 8);
    push_bytes(message, bytes.as_slice());
}

fn big_endian(value: u64, width: u8) -> (bytes: Vec<u8>)
    ensures
        bytes@ == big_endian_bytes(value as nat, width as nat),
    decreases width,
{
    if width == 0 {
        Vec::new()
    } else {
        let mut bytes = big_endian(value / 256, width - 1);
        bytes.push((value % 256) as u8);
        bytes
    }
}

/// Representing a value and reading it back gives the value, where the width
/// is large enough to hold it.
pub proof fn big_endian_round_trip(value: nat, width: nat)
    requires
        value < vstd::arithmetic::power::pow(256, width),
    ensures
        big_endian_bytes(value, width).len() == width,
        big_endian_value(big_endian_bytes(value, width)) == value,
    decreases width,
{
    reveal(vstd::arithmetic::power::pow);
    if width > 0 {
        let rest = (width - 1) as nat;
        let scale = vstd::arithmetic::power::pow(256, rest);
        assert(vstd::arithmetic::power::pow(256, width) == 256 * scale);
        assert(value / 256 < scale);
        big_endian_round_trip(value / 256, rest);
        let head = big_endian_bytes(value / 256, rest);
        assert(big_endian_bytes(value, width).drop_last() =~= head);
    }
}

/// A big-endian representation has the requested width.
pub proof fn lemma_big_endian_width(value: nat, width: nat)
    ensures
        big_endian_bytes(value, width).len() == width,
    decreases width,
{
    if width > 0 {
        lemma_big_endian_width(value / 256, (width - 1) as nat);
    }
}

proof fn lemma_byte_powers()
    ensures
        vstd::arithmetic::power::pow(256, 8) == 0x1_0000_0000_0000_0000,
        vstd::arithmetic::power::pow(256, 16) == 0x1_0000_0000_0000_0000_0000_0000_0000_0000,
{
    reveal_with_fuel(vstd::arithmetic::power::pow, 9);
    vstd::arithmetic::power::lemma_pow_adds(256, 8, 8);
    assert(0x1_0000_0000_0000_0000int * 0x1_0000_0000_0000_0000int
        == 0x1_0000_0000_0000_0000_0000_0000_0000_0000int) by (nonlinear_arith);
}

/// Two 64-bit numbers with the same eight bytes are equal.
pub proof fn lemma_u64_bytes_injective(left: nat, right: nat)
    requires
        left <= u64::MAX,
        right <= u64::MAX,
        big_endian_bytes(left, 8) == big_endian_bytes(right, 8),
    ensures
        left == right,
{
    lemma_byte_powers();
    big_endian_round_trip(left, 8);
    big_endian_round_trip(right, 8);
}

/// Two 128-bit numbers with the same sixteen bytes are equal.
pub proof fn lemma_u128_bytes_injective(left: nat, right: nat)
    requires
        left <= u128::MAX,
        right <= u128::MAX,
        big_endian_bytes(left, 16) == big_endian_bytes(right, 16),
    ensures
        left == right,
{
    lemma_byte_powers();
    big_endian_round_trip(left, 16);
    big_endian_round_trip(right, 16);
}

proof fn lemma_hex_digit_injective(left: int, right: int)
    requires
        0 <= left < 16,
        0 <= right < 16,
        hex_digit(left) == hex_digit(right),
    ensures
        left == right,
{
    assert(hex_digit(left) as int == if left < 10 {
        48 + left
    } else {
        87 + left
    });
    assert(hex_digit(right) as int == if right < 10 {
        48 + right
    } else {
        87 + right
    });
}

/// Byte strings with the same hexadecimal text are equal.
pub proof fn hex_text_injective(left: Seq<u8>, right: Seq<u8>)
    requires
        hex_text(left) == hex_text(right),
    ensures
        left == right,
{
    assert(hex_text(left).len() == 2 * left.len());
    assert(hex_text(right).len() == 2 * right.len());
    assert forall|i: int| 0 <= i < left.len() implies left[i] == right[i] by {
        let high = 2 * i;
        let low = 2 * i + 1;
        assert(high / 2 == i && high % 2 == 0 && low / 2 == i && low % 2 == 1);
        assert(hex_text(left)[high] == hex_digit(left[i] as int / 16));
        assert(hex_text(right)[high] == hex_digit(right[i] as int / 16));
        assert(hex_text(left)[low] == hex_digit(left[i] as int % 16));
        assert(hex_text(right)[low] == hex_digit(right[i] as int % 16));
        lemma_hex_digit_injective(left[i] as int / 16, right[i] as int / 16);
        lemma_hex_digit_injective(left[i] as int % 16, right[i] as int % 16);
    }
    assert(left =~= right);
}

/// Different identifiers have different texts.
pub proof fn uuid_text_injective(left: u128, right: u128)
    requires
        uuid_text(left) == uuid_text(right),
    ensures
        left == right,
{
    let a = hex_text(big_endian_bytes(left as nat, 16));
    let b = hex_text(big_endian_bytes(right as nat, 16));
    lemma_byte_powers();
    big_endian_round_trip(left as nat, 16);
    big_endian_round_trip(right as nat, 16);
    let ta = uuid_text(left);
    let tb = uuid_text(right);
    assert(ta.len() == 36 && tb.len() == 36);
    assert forall|i: int| 0 <= i < 32 implies a[i] == b[i] by {
        let j = if i < 8 {
            i
        } else if i < 12 {
            i + 1
        } else if i < 16 {
            i + 2
        } else if i < 20 {
            i + 3
        } else {
            i + 4
        };
        assert(ta[j] == a[i]);
        assert(tb[j] == b[i]);
    }
    assert(a =~= b);
    hex_text_injective(
        big_endian_bytes(left as nat, 16),
        big_endian_bytes(right as nat, 16),
    );
}

/// Hexadecimal text has two digits for each byte, the high half first, out of
/// the ten numerals and the letters `a` to `f`.
pub proof fn hexadecimal_digits_are_lowercase(bytes: Seq<u8>, i: int)
    requires
        0 <= i < bytes.len(),
    ensures
        hex_text(bytes).len() == 2 * bytes.len(),
        hex_text(bytes)[2 * i] == "0123456789abcdef"@[bytes[i] as int / 16],
        hex_text(bytes)[2 * i + 1] == "0123456789abcdef"@[bytes[i] as int % 16],
{
    reveal_strlit("0123456789abcdef");
    assert((2 * i) / 2 == i && (2 * i + 1) / 2 == i);
}

/// An identifier's text is 36 characters long, with hyphens behind the eighth,
/// twelfth, sixteenth, and twentieth digit.
pub proof fn identifier_texts_are_hyphenated(id: u128)
    ensures
        uuid_text(id).len() == 36,
        uuid_text(id)[8] == '-' && uuid_text(id)[13] == '-',
        uuid_text(id)[18] == '-' && uuid_text(id)[23] == '-',
{
    lemma_big_endian_width(id as nat, 16);
}

} // verus!
