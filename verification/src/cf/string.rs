//! The Core Foundation string objects: immutable strings built from host
//! text or from explicitly encoded bytes, and the bounded mutable string.
//!
//! The byte constructors keep the native behavior of validating their
//! input and answering absence for bytes the encoding refuses: under the
//! UTF-8 encoding any well-formed UTF-8 sequence decodes, and under the
//! ASCII encoding exactly the bytes below 128 do.

use vstd::prelude::*;

use crate::cf::Allocator;

verus! {

/// A platform string encoding, carried as its fixed numeric code.
#[derive(Clone, Copy, PartialEq, Eq, Structural, Debug)]
pub struct Encoding {
    /// The platform-defined numeric code.
    pub raw: u32,
}

/// The fixed code of the ASCII encoding.
pub open spec fn spec_ascii_encoding() -> Encoding {
    Encoding { raw: 0x0600 }
}

/// The fixed code of the UTF-8 encoding.
pub open spec fn spec_utf8_encoding() -> Encoding {
    Encoding { raw: 0x08000100 }
}

impl Encoding {
    pub fn ascii() -> (r: Encoding)
        ensures
            r == spec_ascii_encoding(),
    {
        Encoding { raw: 0x0600 }
    }

    pub fn utf8() -> (r: Encoding)
        ensures
            r == spec_utf8_encoding(),
    {
        Encoding { raw: 0x08000100 }
    }
}

/// Option flags for string comparison, carried as their fixed bits.
#[derive(Clone, Copy, PartialEq, Eq, Structural, Debug)]
pub struct CompareFlags {
    /// The platform-defined bit mask.
    pub raw: u64,
}

impl CompareFlags {
    pub fn none() -> (r: CompareFlags)
        ensures
            r.raw == 0,
    {
        CompareFlags { raw: 0 }
    }

    pub fn case_insensitive() -> (r: CompareFlags)
        ensures
            r.raw == 1,
    {
        CompareFlags { raw: 1 }
    }

    pub fn backwards() -> (r: CompareFlags)
        ensures
            r.raw == 4,
    {
        CompareFlags { raw: 4 }
    }

    pub fn anchored() -> (r: CompareFlags)
        ensures
            r.raw == 8,
    {
        CompareFlags { raw: 8 }
    }

    pub fn non_literal() -> (r: CompareFlags)
        ensures
            r.raw == 16,
    {
        CompareFlags { raw: 16 }
    }

    pub fn localized() -> (r: CompareFlags)
        ensures
            r.raw == 32,
    {
        CompareFlags { raw: 32 }
    }

    pub fn numerically() -> (r: CompareFlags)
        ensures
            r.raw == 64,
    {
        CompareFlags { raw: 64 }
    }

    pub fn diacritic_insensitive() -> (r: CompareFlags)
        ensures
            r.raw == 128,
    {
        CompareFlags { raw: 128 }
    }

    pub fn width_insensitive() -> (r: CompareFlags)
        ensures
            r.raw == 256,
    {
        CompareFlags { raw: 256 }
    }

    pub fn forced_ordering() -> (r: CompareFlags)
        ensures
            r.raw == 512,
    {
        CompareFlags { raw: 512 }
    }
}

/// Whether a byte belongs to the subset the ASCII encoding decodes.
pub open spec fn byte_is_plain(b: u8) -> bool {
    b < 128
}

/// Whether every byte of a sequence is in the ASCII subset.
pub open spec fn bytes_are_plain(b: Seq<u8>) -> bool {
    forall|i: int| 0 <= i < b.len() ==> byte_is_plain(#[trigger] b[i])
}

/// The characters an ASCII byte sequence decodes to.
pub open spec fn decoded_chars(b: Seq<u8>) -> Seq<char> {
    b.map_values(|x: u8| x as char)
}

/// Whether a character belongs to the subset the ASCII encoding carries.
pub open spec fn char_is_plain(c: char) -> bool {
    (c as u32) < 128
}

/// Whether every character of a sequence is in the ASCII subset.
pub open spec fn chars_are_plain(s: Seq<char>) -> bool {
    forall|i: int| 0 <= i < s.len() ==> char_is_plain(#[trigger] s[i])
}

/// The bytes an ASCII character sequence encodes to.
pub open spec fn encoded_bytes(s: Seq<char>) -> Seq<u8> {
    s.map_values(|c: char| (c as u32) as u8)
}

/// Under the ASCII encoding, decoding the encoding of a sequence gives
/// the sequence back.
pub proof fn lemma_encode_decode_round_trip(s: Seq<char>)
    requires
        chars_are_plain(s),
    ensures
        bytes_are_plain(encoded_bytes(s)),
        decoded_chars(encoded_bytes(s)) == s,
{
    assert forall|i: int| 0 <= i < encoded_bytes(s).len() implies byte_is_plain(
        #[trigger] encoded_bytes(s)[i],
    ) by {
        assert(char_is_plain(s[i]));
    }
    assert forall|i: int| 0 <= i < s.len() implies #[trigger] decoded_chars(encoded_bytes(s))[i]
        == s[i] by {
        let c = s[i];
        let u: u32 = c as u32;
        vstd::utf8::char_u32_cast(c, u);
        let byte: u8 = u as u8;
        assert(byte as u32 == u);
        let c2 = byte as char;
        assert(c2 as u32 == u);
        vstd::utf8::char_u32_cast(c2, u);
    }
    assert(decoded_chars(encoded_bytes(s)) =~= s);
}

/// Under the ASCII encoding, encoding the decoding of a byte sequence
/// gives the bytes back.
pub proof fn lemma_decode_encode_round_trip(b: Seq<u8>)
    requires
        bytes_are_plain(b),
    ensures
        chars_are_plain(decoded_chars(b)),
        encoded_bytes(decoded_chars(b)) == b,
{
    assert forall|i: int| 0 <= i < decoded_chars(b).len() implies char_is_plain(
        #[trigger] decoded_chars(b)[i],
    ) by {
        assert(byte_is_plain(b[i]));
        assert((b[i] as char) as u32 == b[i] as u32);
    }
    assert(encoded_bytes(decoded_chars(b)) =~= b);
}

/// The position of the first zero byte, or the length when there is none.
pub open spec fn nul_pos(b: Seq<u8>) -> int
    decreases b.len(),
{
    if b.len() == 0 {
        0
    } else if b[0] == 0 {
        0
    } else {
        1 + nul_pos(b.drop_first())
    }
}

/// The first zero byte, when present, is where `nul_pos` says.
proof fn lemma_nul_pos_found(b: Seq<u8>, i: int)
    requires
        0 <= i < b.len(),
        b[i] == 0,
        forall|j: int| 0 <= j < i ==> b[j] != 0,
    ensures
        nul_pos(b) == i,
        0 <= nul_pos(b) < b.len(),
        b[nul_pos(b)] == 0,
        forall|j: int| 0 <= j < nul_pos(b) ==> b[j] != 0,
    decreases i,
{
    if i > 0 {
        lemma_nul_pos_found(b.drop_first(), i - 1);
    }
}

/// Without a zero byte, `nul_pos` is the length.
proof fn lemma_nul_pos_missing(b: Seq<u8>)
    requires
        forall|j: int| 0 <= j < b.len() ==> b[j] != 0,
    ensures
        nul_pos(b) == b.len(),
    decreases b.len(),
{
    if b.len() > 0 {
        lemma_nul_pos_missing(b.drop_first());
    }
}

/// Whether a zero-terminated byte sequence is a C string the UTF-8
/// constructors accept: it has a terminator, and the bytes before it are
/// well-formed UTF-8 — which the caller's C string type guarantees.
pub open spec fn cstring_ok(b: Seq<u8>) -> bool {
    nul_pos(b) < b.len() && vstd::utf8::valid_utf8(b.take(nul_pos(b)))
}

/// Whether one character sequence starts with another.
pub open spec fn spec_has_prefix(s: Seq<char>, p: Seq<char>) -> bool {
    p.len() <= s.len() && s.take(p.len() as int) == p
}

/// Whether one character sequence ends with another.
pub open spec fn spec_has_suffix(s: Seq<char>, p: Seq<char>) -> bool {
    p.len() <= s.len() && s.skip(s.len() - p.len()) == p
}

/// Decodes an ASCII byte prefix, or reports the refused byte by absence.
fn decode_plain(bytes: &[u8], n: usize) -> (r: Option<Vec<char>>)
    requires
        n <= bytes@.len(),
    ensures
        r is Some <==> bytes_are_plain(bytes@.take(n as int)),
        r is Some ==> r->Some_0@ == decoded_chars(bytes@.take(n as int)),
{
    let mut chars: Vec<char> = Vec::new();
    let mut i: usize = 0;
    while i < n
        invariant
            n <= bytes@.len(),
            i <= n,
            chars@ == decoded_chars(bytes@.take(i as int)),
            bytes_are_plain(bytes@.take(i as int)),
        decreases n - i,
    {
        let b = bytes[i];
        if b >= 128 {
            proof {
                assert(bytes@.take(n as int)[i as int] == bytes@[i as int]);
                assert(!bytes_are_plain(bytes@.take(n as int)));
            }
            return None;
        }
        chars.push(b as char);
        proof {
            assert(bytes@.take(i + 1).drop_last() =~= bytes@.take(i as int));
            assert(decoded_chars(bytes@.take(i + 1)) =~= decoded_chars(bytes@.take(i as int)).push(
                bytes@[i as int] as char,
            ));
            assert(forall|j: int|
                0 <= j < i + 1 ==> byte_is_plain(#[trigger] bytes@.take(i + 1)[j]));
        }
        i = i + 1;
    }
    proof {
        assert(bytes@.take(n as int) =~= bytes@.take(n as int));
    }
    Some(chars)
}

/// Relies on the host library's `char::from_u32`: its documentation
/// promises the character with the given value for every value outside
/// the surrogate range and at most the largest code point, and absence
/// otherwise.
pub assume_specification[ char::from_u32 ](i: u32) -> (r: Option<char>)
    ensures
        r is Some <==> (i < 0xD800 || (0xDFFF < i && i <= 0x10FFFF)),
        r matches Some(c) ==> c as u32 == i,
;

/// Decodes a UTF-8 byte prefix, or reports the first ill-formed scalar
/// by absence.
fn decode_utf8_prefix(bytes: &[u8], n: usize) -> (r: Option<Vec<char>>)
    requires
        n <= bytes@.len(),
    ensures
        r is Some <==> vstd::utf8::valid_utf8(bytes@.take(n as int)),
        r is Some ==> r->Some_0@ == vstd::utf8::decode_utf8(bytes@.take(n as int)),
{
    let ghost all = bytes@.take(n as int);
    let mut chars: Vec<char> = Vec::new();
    let mut i: usize = 0;
    proof {
        assert(all.skip(0) =~= all);
        if vstd::utf8::valid_utf8(all) {
            assert(Seq::<char>::empty() + vstd::utf8::decode_utf8(all) =~= vstd::utf8::decode_utf8(
                all,
            ));
        }
    }
    while i < n
        invariant
            n <= bytes@.len(),
            i <= n,
            all == bytes@.take(n as int),
            vstd::utf8::valid_utf8(all) <==> vstd::utf8::valid_utf8(all.skip(i as int)),
            vstd::utf8::valid_utf8(all) ==> vstd::utf8::decode_utf8(all) == chars@
                + vstd::utf8::decode_utf8(all.skip(i as int)),
        decreases n - i,
    {
        let ghost rest = all.skip(i as int);
        proof {
            assert(rest.len() == n - i);
            assert(rest[0] == bytes@[i as int]);
        }
        let b0 = bytes[i];
        let width: usize;
        let scalar: u32;
        if b0 <= 0x7f {
            width = 1;
            scalar = b0 as u32;
            proof {
                assert((b0 & 0x7F) as u32 == b0 as u32) by (bit_vector)
                    requires
                        b0 <= 0x7f,
                ;
                assert(vstd::utf8::decode_first_codepoint(rest) == scalar);
            }
        } else if b0 < 0xc0 || b0 > 0xf7 {
            proof {
                assert(!vstd::utf8::valid_leading_and_continuation_bytes_first_codepoint(rest));
                assert(!vstd::utf8::valid_utf8(rest));
            }
            return None;
        } else if b0 <= 0xdf {
            if n - i < 2 {
                proof {
                    assert(!vstd::utf8::valid_leading_and_continuation_bytes_first_codepoint(
                        rest,
                    ));
                    assert(!vstd::utf8::valid_utf8(rest));
                }
                return None;
            }
            proof {
                assert(rest[1] == bytes@[i + 1]);
            }
            let b1 = bytes[i + 1];
            if b1 < 0x80 || b1 > 0xbf {
                proof {
                    assert(!vstd::utf8::valid_leading_and_continuation_bytes_first_codepoint(
                        rest,
                    ));
                    assert(!vstd::utf8::valid_utf8(rest));
                }
                return None;
            }
            width = 2;
            scalar = (((b0 & 0x1F) as u32) << 6) | ((b1 & 0x3f) as u32);
            proof {
                assert(vstd::utf8::decode_first_codepoint(rest) == scalar);
                assert(scalar <= 0x7ff) by (bit_vector)
                    requires
                        scalar == (((b0 & 0x1F) as u32) << 6) | ((b1 & 0x3f) as u32),
                ;
            }
            if scalar < 0x80 {
                proof {
                    assert(!vstd::utf8::valid_first_scalar(rest));
                    assert(!vstd::utf8::valid_utf8(rest));
                }
                return None;
            }
        } else if b0 <= 0xef {
            if n - i < 3 {
                proof {
                    assert(!vstd::utf8::valid_leading_and_continuation_bytes_first_codepoint(
                        rest,
                    ));
                    assert(!vstd::utf8::valid_utf8(rest));
                }
                return None;
            }
            proof {
                assert(rest[1] == bytes@[i + 1]);
                assert(rest[2] == bytes@[i + 2]);
            }
            let b1 = bytes[i + 1];
            let b2 = bytes[i + 2];
            if b1 < 0x80 || b1 > 0xbf || b2 < 0x80 || b2 > 0xbf {
                proof {
                    assert(!vstd::utf8::valid_leading_and_continuation_bytes_first_codepoint(
                        rest,
                    ));
                    assert(!vstd::utf8::valid_utf8(rest));
                }
                return None;
            }
            width = 3;
            scalar = (((b0 & 0x0F) as u32) << 12) | (((b1 & 0x3f) as u32) << 6) | ((b2
                & 0x3f) as u32);
            proof {
                assert(vstd::utf8::decode_first_codepoint(rest) == scalar);
                assert(scalar <= 0xffff) by (bit_vector)
                    requires
                        scalar == (((b0 & 0x0F) as u32) << 12) | (((b1 & 0x3f) as u32) << 6) | ((
                        b2 & 0x3f) as u32),
                ;
            }
            if scalar < 0x800 || (0xD800 <= scalar && scalar <= 0xDFFF) {
                proof {
                    assert(!vstd::utf8::valid_first_scalar(rest));
                    assert(!vstd::utf8::valid_utf8(rest));
                }
                return None;
            }
        } else {
            if n - i < 4 {
                proof {
                    assert(!vstd::utf8::valid_leading_and_continuation_bytes_first_codepoint(
                        rest,
                    ));
                    assert(!vstd::utf8::valid_utf8(rest));
                }
                return None;
            }
            proof {
                assert(rest[1] == bytes@[i + 1]);
                assert(rest[2] == bytes@[i + 2]);
                assert(rest[3] == bytes@[i + 3]);
            }
            let b1 = bytes[i + 1];
            let b2 = bytes[i + 2];
            let b3 = bytes[i + 3];
            if b1 < 0x80 || b1 > 0xbf || b2 < 0x80 || b2 > 0xbf || b3 < 0x80 || b3 > 0xbf {
                proof {
                    assert(!vstd::utf8::valid_leading_and_continuation_bytes_first_codepoint(
                        rest,
                    ));
                    assert(!vstd::utf8::valid_utf8(rest));
                }
                return None;
            }
            width = 4;
            scalar = (((b0 & 0x07) as u32) << 18) | (((b1 & 0x3f) as u32) << 12) | (((b2
                & 0x3f) as u32) << 6) | ((b3 & 0x3f) as u32);
            proof {
                assert(vstd::utf8::decode_first_codepoint(rest) == scalar);
            }
            if scalar < 0x10000 || scalar > 0x10FFFF {
                proof {
                    assert(!vstd::utf8::valid_first_scalar(rest));
                    assert(!vstd::utf8::valid_utf8(rest));
                }
                return None;
            }
        }
        proof {
            assert(vstd::utf8::valid_first_scalar(rest));
            assert(vstd::utf8::length_of_first_scalar(rest) == width);
            assert(vstd::utf8::decode_first_scalar(rest) == scalar);
        }
        let c = match char::from_u32(scalar) {
            Some(c) => c,
            None => unreached(),
        };
        proof {
            vstd::utf8::char_u32_cast(c, scalar);
            assert(c == vstd::utf8::decode_first_scalar(rest) as char);
            assert(vstd::utf8::pop_first_scalar(rest) =~= all.skip(i + width));
            assert(vstd::utf8::valid_utf8(rest) <==> vstd::utf8::valid_utf8(
                all.skip(i + width),
            ));
            if vstd::utf8::valid_utf8(rest) {
                assert(vstd::utf8::decode_utf8(rest) == seq![c] + vstd::utf8::decode_utf8(
                    all.skip(i + width),
                ));
                assert(chars@.push(c) + vstd::utf8::decode_utf8(all.skip(i + width)) =~= chars@
                    + vstd::utf8::decode_utf8(rest));
            }
        }
        chars.push(c);
        i = i + width;
    }
    proof {
        assert(all.skip(n as int) =~= Seq::<u8>::empty());
        assert(vstd::utf8::valid_utf8(all.skip(n as int)));
        if vstd::utf8::valid_utf8(all) {
            assert(vstd::utf8::decode_utf8(all.skip(n as int)) =~= Seq::<char>::empty());
            assert(chars@ + vstd::utf8::decode_utf8(all.skip(n as int)) =~= chars@);
        }
    }
    Some(chars)
}

/// What a byte sequence holds under an encoding: its decoded characters,
/// or nothing when the encoding refuses it.
pub open spec fn spec_decoded(encoding: Encoding, b: Seq<u8>) -> Option<Seq<char>> {
    if encoding == spec_ascii_encoding() {
        if bytes_are_plain(b) {
            Some(decoded_chars(b))
        } else {
            None
        }
    } else if encoding == spec_utf8_encoding() {
        if vstd::utf8::valid_utf8(b) {
            Some(vstd::utf8::decode_utf8(b))
        } else {
            None
        }
    } else {
        None
    }
}

/// What a character sequence encodes to under an encoding: its bytes, or
/// nothing when the encoding cannot carry it.
pub open spec fn spec_encoded(encoding: Encoding, s: Seq<char>) -> Option<Seq<u8>> {
    if encoding == spec_ascii_encoding() {
        if chars_are_plain(s) {
            Some(encoded_bytes(s))
        } else {
            None
        }
    } else if encoding == spec_utf8_encoding() {
        Some(vstd::utf8::encode_utf8(s))
    } else {
        None
    }
}

/// Encoding one more character appends that character's scalar encoding.
proof fn lemma_encode_utf8_push(s: Seq<char>, c: char)
    ensures
        vstd::utf8::encode_utf8(s.push(c)) == vstd::utf8::encode_utf8(s)
            + vstd::utf8::encode_scalar(c as u32),
    decreases s.len(),
{
    if s.len() == 0 {
        let pc = s.push(c);
        assert(pc.len() == 1);
        assert(pc[0] == c);
        assert(pc.drop_first() =~= Seq::<char>::empty());
        assert(vstd::utf8::encode_utf8(pc.drop_first()) == Seq::<u8>::empty());
        assert(vstd::utf8::encode_utf8(pc) == vstd::utf8::encode_scalar(pc[0] as u32)
            + vstd::utf8::encode_utf8(pc.drop_first()));
        assert(vstd::utf8::encode_utf8(s) == Seq::<u8>::empty());
        assert(vstd::utf8::encode_utf8(s.push(c)) =~= vstd::utf8::encode_utf8(s)
            + vstd::utf8::encode_scalar(c as u32));
    } else {
        assert(s.push(c)[0] == s[0]);
        assert(s.push(c).drop_first() =~= s.drop_first().push(c));
        lemma_encode_utf8_push(s.drop_first(), c);
        assert(vstd::utf8::encode_utf8(s.push(c)) =~= vstd::utf8::encode_utf8(s)
            + vstd::utf8::encode_scalar(c as u32));
    }
}

/// Every character sequence's UTF-8 encoding is well formed and decodes
/// back to the same characters.
pub proof fn lemma_utf8_round_trip(s: Seq<char>)
    ensures
        vstd::utf8::valid_utf8(vstd::utf8::encode_utf8(s)),
        vstd::utf8::decode_utf8(vstd::utf8::encode_utf8(s)) == s,
{
    vstd::utf8::encode_utf8_valid_utf8(s);
    vstd::utf8::encode_utf8_decode_utf8(s);
}

/// Encodes characters as UTF-8 bytes; every character encodes.
fn encode_utf8_chars(chars: &Vec<char>) -> (r: Vec<u8>)
    ensures
        r@ == vstd::utf8::encode_utf8(chars@),
{
    let n = chars.len();
    let mut bytes: Vec<u8> = Vec::new();
    let mut i: usize = 0;
    proof {
        assert(chars@.take(0) =~= Seq::<char>::empty());
        assert(vstd::utf8::encode_utf8(chars@.take(0)) =~= Seq::<u8>::empty());
    }
    while i < n
        invariant
            n == chars@.len(),
            i <= n,
            bytes@ == vstd::utf8::encode_utf8(chars@.take(i as int)),
        decreases n - i,
    {
        let ghost prev = bytes@;
        let c = chars[i];
        let u = c as u32;
        proof {
            vstd::utf8::char_is_scalar(c);
        }
        if u <= 0x7F {
            bytes.push((u & 0x7F) as u8);
        } else if u <= 0x7FF {
            bytes.push(0xC0 | ((u >> 6) & 0x1F) as u8);
            bytes.push(0x80 | (u & 0x3F) as u8);
        } else if u <= 0xFFFF {
            bytes.push(0xE0 | ((u >> 12) & 0x0F) as u8);
            bytes.push(0x80 | ((u >> 6) & 0x3F) as u8);
            bytes.push(0x80 | (u & 0x3F) as u8);
        } else {
            bytes.push(0xF0 | ((u >> 18) & 0x7) as u8);
            bytes.push(0x80 | ((u >> 12) & 0x3F) as u8);
            bytes.push(0x80 | ((u >> 6) & 0x3F) as u8);
            bytes.push(0x80 | (u & 0x3F) as u8);
        }
        proof {
            assert(bytes@ =~= prev + vstd::utf8::encode_scalar(u));
            lemma_encode_utf8_push(chars@.take(i as int), c);
            assert(chars@.take(i as int).push(c) =~= chars@.take(i + 1));
        }
        i = i + 1;
    }
    proof {
        assert(chars@.take(n as int) =~= chars@);
    }
    bytes
}

/// An immutable native string; its view is its character sequence.
#[derive(Debug)]
pub struct Str {
    chars: Vec<char>,
}

impl View for Str {
    type V = Seq<char>;

    closed spec fn view(&self) -> Seq<char> {
        self.chars@
    }
}

impl Str {
    /// The fixed type identifier of the string class.
    pub fn type_id() -> (r: u64)
        ensures
            r == 7,
    {
        7
    }

    /// Builds a string holding the given host text.
    pub fn from_str(text: &str) -> (r: Str)
        ensures
            r@ == text@,
    {
        let n = text.unicode_len();
        let mut chars: Vec<char> = Vec::new();
        let mut i: usize = 0;
        while i < n
            invariant
                n == text@.len(),
                i <= n,
                chars@ == text@.take(i as int),
            decreases n - i,
        {
            let c = text.get_char(i);
            chars.push(c);
            proof {
                assert(text@.take(i + 1) =~= text@.take(i as int).push(text@[i as int]));
            }
            i = i + 1;
        }
        proof {
            assert(text@.take(n as int) =~= text@);
        }
        Str { chars }
    }

    /// Builds a string over the caller's text without copying it on the
    /// native side; observably the same string as [`Str::from_str`].
    pub fn from_str_no_copy(text: &str) -> (r: Str)
        ensures
            r@ == text@,
    {
        Self::from_str(text)
    }

    /// Builds a string from a zero-terminated UTF-8 byte sequence, which
    /// the caller's C string type guarantees well formed.
    pub fn from_cstr(bytes_with_null: &[u8]) -> (r: Str)
        requires
            cstring_ok(bytes_with_null@),
        ensures
            r@ == vstd::utf8::decode_utf8(bytes_with_null@.take(nul_pos(bytes_with_null@))),
    {
        let r = Self::create_with_cstring(None, bytes_with_null, Encoding::utf8());
        r.unwrap()
    }

    /// The no-copy variant of [`Str::from_cstr`]; observably the same.
    pub fn from_cstr_no_copy(bytes_with_null: &[u8]) -> (r: Str)
        requires
            cstring_ok(bytes_with_null@),
        ensures
            r@ == vstd::utf8::decode_utf8(bytes_with_null@.take(nul_pos(bytes_with_null@))),
    {
        let r = Self::create_with_cstring_no_copy(None, bytes_with_null, Encoding::utf8(), None);
        r.unwrap()
    }

    /// The number of characters held.
    pub fn get_length(&self) -> (n: usize)
        ensures
            n == self@.len(),
    {
        self.chars.len()
    }

    /// The character at a position. An index beyond the last character is
    /// outside the native contract, so the model requires it in bounds.
    pub fn get_character_at_index(&self, idx: usize) -> (c: char)
        requires
            idx < self@.len(),
        ensures
            c == self@[idx as int],
    {
        self.chars[idx]
    }

    /// Whether this string holds the same characters as another, the
    /// native object-equality test for strings.
    pub fn equal(&self, other: &Str) -> (r: bool)
        ensures
            r == (self@ == other@),
    {
        let n = self.chars.len();
        if n != other.chars.len() {
            proof {
                assert(self@.len() != other@.len());
            }
            return false;
        }
        let mut i: usize = 0;
        while i < n
            invariant
                n == self@.len(),
                n == other@.len(),
                i <= n,
                forall|j: int| 0 <= j < i ==> self@[j] == other@[j],
            decreases n - i,
        {
            if self.chars[i] != other.chars[i] {
                return false;
            }
            i = i + 1;
        }
        proof {
            assert(self@ =~= other@);
        }
        true
    }

    /// Whether this string starts with the given one.
    pub fn has_prefix(&self, prefix: &Str) -> (r: bool)
        ensures
            r == spec_has_prefix(self@, prefix@),
    {
        let pl = prefix.chars.len();
        if pl > self.chars.len() {
            return false;
        }
        let mut i: usize = 0;
        while i < pl
            invariant
                pl == prefix@.len(),
                pl <= self@.len(),
                i <= pl,
                forall|j: int| 0 <= j < i ==> self@[j] == prefix@[j],
            decreases pl - i,
        {
            if self.chars[i] != prefix.chars[i] {
                proof {
                    if spec_has_prefix(self@, prefix@) {
                        assert(self@.take(pl as int)[i as int] == prefix@[i as int]);
                    }
                }
                return false;
            }
            i = i + 1;
        }
        proof {
            assert(self@.take(pl as int) =~= prefix@);
        }
        true
    }

    /// Whether this string ends with the given one.
    pub fn has_suffix(&self, suffix: &Str) -> (r: bool)
        ensures
            r == spec_has_suffix(self@, suffix@),
    {
        let pl = suffix.chars.len();
        let n = self.chars.len();
        if pl > n {
            return false;
        }
        let k = n - pl;
        let mut i: usize = 0;
        while i < pl
            invariant
                pl == suffix@.len(),
                n == self@.len(),
                pl <= n,
                k == n - pl,
                i <= pl,
                forall|j: int| 0 <= j < i ==> self@[k + j] == suffix@[j],
            decreases pl - i,
        {
            if self.chars[k + i] != suffix.chars[i] {
                proof {
                    if spec_has_suffix(self@, suffix@) {
                        assert(self@.skip(k as int)[i as int] == suffix@[i as int]);
                    }
                }
                return false;
            }
            i = i + 1;
        }
        proof {
            assert(self@.skip(k as int) =~= suffix@);
        }
        true
    }

    /// An equal copy. Allocation does not fail in the model, so a copy of
    /// a valid string is never absent.
    pub fn create_copy(&self, alloc: Option<&Allocator>) -> (r: Option<Str>)
        ensures
            r is Some,
            r->Some_0@ == self@,
    {
        let _ = alloc;
        let mut chars: Vec<char> = Vec::new();
        let n = self.chars.len();
        let mut i: usize = 0;
        while i < n
            invariant
                n == self@.len(),
                i <= n,
                chars@ == self@.take(i as int),
            decreases n - i,
        {
            chars.push(self.chars[i]);
            proof {
                assert(self@.take(i + 1) =~= self@.take(i as int).push(self@[i as int]));
            }
            i = i + 1;
        }
        proof {
            assert(self@.take(n as int) =~= self@);
        }
        Some(Str { chars })
    }

    /// An equal copy under the default allocator.
    pub fn copy(&self) -> (r: Option<Str>)
        ensures
            r is Some,
            r->Some_0@ == self@,
    {
        self.create_copy(None)
    }

    /// Builds a string by decoding `num_bytes` bytes in an encoding. The
    /// result is absent exactly when the count overruns the buffer or the
    /// encoding refuses the bytes: under UTF-8 any well-formed sequence
    /// decodes, under ASCII exactly the bytes below 128 do, and other
    /// encodings are outside the model.
    pub fn create_with_bytes(
        alloc: Option<&Allocator>,
        bytes: &[u8],
        num_bytes: usize,
        encoding: Encoding,
        is_external_representation: bool,
    ) -> (r: Option<Str>)
        ensures
            r is Some <==> num_bytes <= bytes@.len() && spec_decoded(
                encoding,
                bytes@.take(num_bytes as int),
            ) is Some,
            r is Some ==> Some(r->Some_0@) == spec_decoded(
                encoding,
                bytes@.take(num_bytes as int),
            ),
    {
        let _ = alloc;
        let _ = is_external_representation;
        if num_bytes > bytes.len() {
            return None;
        }
        if encoding == Encoding::ascii() {
            match decode_plain(bytes, num_bytes) {
                Some(chars) => Some(Str { chars }),
                None => None,
            }
        } else if encoding == Encoding::utf8() {
            match decode_utf8_prefix(bytes, num_bytes) {
                Some(chars) => Some(Str { chars }),
                None => None,
            }
        } else {
            None
        }
    }

    /// The no-copy variant of [`Str::create_with_bytes`]: the native side
    /// would borrow the caller's bytes and hand them to the given
    /// deallocator, leaving the bytes' lifetime to the caller unchecked;
    /// observably the same string.
    pub fn create_with_bytes_no_copy(
        alloc: Option<&Allocator>,
        bytes: &[u8],
        num_bytes: usize,
        encoding: Encoding,
        is_external_representation: bool,
        contents_deallocator: Option<&Allocator>,
    ) -> (r: Option<Str>)
        ensures
            r is Some <==> num_bytes <= bytes@.len() && spec_decoded(
                encoding,
                bytes@.take(num_bytes as int),
            ) is Some,
            r is Some ==> Some(r->Some_0@) == spec_decoded(
                encoding,
                bytes@.take(num_bytes as int),
            ),
    {
        let _ = contents_deallocator;
        Self::create_with_bytes(alloc, bytes, num_bytes, encoding, is_external_representation)
    }

    /// Builds a string from a zero-terminated byte sequence. The result is
    /// absent exactly when no terminator is present or the encoding
    /// refuses the bytes before it.
    pub fn create_with_cstring(
        alloc: Option<&Allocator>,
        bytes_with_null: &[u8],
        encoding: Encoding,
    ) -> (r: Option<Str>)
        ensures
            r is Some <==> nul_pos(bytes_with_null@) < bytes_with_null@.len() && spec_decoded(
                encoding,
                bytes_with_null@.take(nul_pos(bytes_with_null@)),
            ) is Some,
            r is Some ==> Some(r->Some_0@) == spec_decoded(
                encoding,
                bytes_with_null@.take(nul_pos(bytes_with_null@)),
            ),
    {
        let n = bytes_with_null.len();
        let mut i: usize = 0;
        while i < n
            invariant
                n == bytes_with_null@.len(),
                i <= n,
                forall|j: int| 0 <= j < i ==> bytes_with_null@[j] != 0,
            decreases n - i,
        {
            if bytes_with_null[i] == 0 {
                proof {
                    lemma_nul_pos_found(bytes_with_null@, i as int);
                }
                return match Self::create_with_bytes(alloc, bytes_with_null, i, encoding, false) {
                    Some(s) => Some(s),
                    None => None,
                };
            }
            i = i + 1;
        }
        proof {
            lemma_nul_pos_missing(bytes_with_null@);
        }
        None
    }

    /// The no-copy variant of [`Str::create_with_cstring`]; observably the
    /// same string.
    pub fn create_with_cstring_no_copy(
        alloc: Option<&Allocator>,
        bytes_with_null: &[u8],
        encoding: Encoding,
        contents_deallocator: Option<&Allocator>,
    ) -> (r: Option<Str>)
        ensures
            r is Some <==> nul_pos(bytes_with_null@) < bytes_with_null@.len() && spec_decoded(
                encoding,
                bytes_with_null@.take(nul_pos(bytes_with_null@)),
            ) is Some,
            r is Some ==> Some(r->Some_0@) == spec_decoded(
                encoding,
                bytes_with_null@.take(nul_pos(bytes_with_null@)),
            ),
    {
        let _ = contents_deallocator;
        Self::create_with_cstring(alloc, bytes_with_null, encoding)
    }

    /// A mutable copy, bounded by `max_length` unless that is zero. The
    /// result is absent exactly when the contents would not fit the bound.
    pub fn create_mutable_copy(&self, alloc: Option<&Allocator>, max_length: usize) -> (r: Option<
        MutableString,
    >)
        ensures
            r is Some <==> max_length == 0 || self@.len() <= max_length,
            r is Some ==> r->Some_0@ == self@ && r->Some_0.max_len() == max_length,
    {
        if max_length > 0 && self.chars.len() > max_length {
            return None;
        }
        let copied = self.create_copy(alloc);
        match copied {
            Some(s) => Some(MutableString { chars: s.chars, max_length }),
            None => None,
        }
    }

    /// A mutable copy under the default allocator.
    pub fn mutable_copy(&self, max_length: usize) -> (r: Option<MutableString>)
        ensures
            r is Some <==> max_length == 0 || self@.len() <= max_length,
            r is Some ==> r->Some_0@ == self@ && r->Some_0.max_len() == max_length,
    {
        self.create_mutable_copy(None, max_length)
    }

    /// Encodes the characters into bytes of an encoding, the reverse of
    /// the byte constructors: under UTF-8 every string encodes, under
    /// ASCII exactly the strings of characters below 128 do, and other
    /// encodings are outside the model.
    pub fn get_bytes(&self, encoding: Encoding) -> (r: Option<Vec<u8>>)
        ensures
            r is Some <==> spec_encoded(encoding, self@) is Some,
            r is Some ==> Some(r->Some_0@) == spec_encoded(encoding, self@),
    {
        if encoding == Encoding::utf8() {
            return Some(encode_utf8_chars(&self.chars));
        }
        if !(encoding == Encoding::ascii()) {
            return None;
        }
        let n = self.chars.len();
        let mut bytes: Vec<u8> = Vec::new();
        let mut i: usize = 0;
        while i < n
            invariant
                encoding == spec_ascii_encoding(),
                n == self@.len(),
                i <= n,
                bytes@ == encoded_bytes(self@.take(i as int)),
                chars_are_plain(self@.take(i as int)),
            decreases n - i,
        {
            let c = self.chars[i];
            if c as u32 >= 128 {
                proof {
                    assert(!char_is_plain(self@[i as int]));
                    assert(!chars_are_plain(self@));
                }
                return None;
            }
            let code = c as u32;
            bytes.push(code as u8);
            proof {
                assert(self@.take(i + 1).drop_last() =~= self@.take(i as int));
                assert(encoded_bytes(self@.take(i + 1)) =~= encoded_bytes(
                    self@.take(i as int),
                ).push((self@[i as int] as u32) as u8));
                assert(forall|j: int|
                    0 <= j < i + 1 ==> char_is_plain(#[trigger] self@.take(i + 1)[j]));
            }
            i = i + 1;
        }
        proof {
            assert(self@.take(n as int) =~= self@);
        }
        Some(bytes)
    }

    /// The characters held, for hosts that need the text back.
    pub fn chars(&self) -> (r: &Vec<char>)
        ensures
            r@ == self@,
    {
        &self.chars
    }
}

/// Whether a character is one the whitespace trim removes.
pub open spec fn is_trim_whitespace(c: char) -> bool {
    c == ' ' || c == '\t' || c == '\n' || c == '\r'
}

/// A sequence with its leading whitespace removed.
pub open spec fn trim_ws_front(s: Seq<char>) -> Seq<char>
    decreases s.len(),
{
    if s.len() > 0 && is_trim_whitespace(s[0]) {
        trim_ws_front(s.drop_first())
    } else {
        s
    }
}

/// A sequence with its trailing whitespace removed.
pub open spec fn trim_ws_back(s: Seq<char>) -> Seq<char>
    decreases s.len(),
{
    if s.len() > 0 && is_trim_whitespace(s.last()) {
        trim_ws_back(s.drop_last())
    } else {
        s
    }
}

/// Skipping a fully whitespace prefix is exactly the front trim.
proof fn lemma_trim_ws_front(s: Seq<char>, k: int)
    requires
        0 <= k <= s.len(),
        forall|j: int| 0 <= j < k ==> is_trim_whitespace(#[trigger] s[j]),
        k < s.len() ==> !is_trim_whitespace(s[k]),
    ensures
        trim_ws_front(s) == s.skip(k),
    decreases k,
{
    if k == 0 {
        assert(s.skip(0) =~= s);
    } else {
        lemma_trim_ws_front(s.drop_first(), k - 1);
        assert(s.drop_first().skip(k - 1) =~= s.skip(k));
    }
}

/// Dropping a fully whitespace suffix is exactly the back trim.
proof fn lemma_trim_ws_back(s: Seq<char>, k: int)
    requires
        0 <= k <= s.len(),
        forall|j: int| k <= j < s.len() ==> is_trim_whitespace(#[trigger] s[j]),
        k > 0 ==> !is_trim_whitespace(s[k - 1]),
    ensures
        trim_ws_back(s) == s.take(k),
    decreases s.len() - k,
{
    if k == s.len() {
        assert(s.take(k) =~= s);
    } else {
        lemma_trim_ws_back(s.drop_last(), k);
        assert(s.drop_last().take(k) =~= s.take(k));
    }
}

/// A sequence with every leading occurrence of a nonempty pattern
/// removed.
pub open spec fn trim_front(s: Seq<char>, t: Seq<char>) -> Seq<char>
    decreases s.len(),
{
    if t.len() > 0 && s.len() >= t.len() && s.take(t.len() as int) == t {
        trim_front(s.skip(t.len() as int), t)
    } else {
        s
    }
}

/// A sequence with every trailing occurrence of a nonempty pattern
/// removed.
pub open spec fn trim_back(s: Seq<char>, t: Seq<char>) -> Seq<char>
    decreases s.len(),
{
    if t.len() > 0 && s.len() >= t.len() && s.skip(s.len() - t.len()) == t {
        trim_back(s.take(s.len() - t.len()), t)
    } else {
        s
    }
}

/// A mutable native string, bounded at creation: a `max_length` of zero
/// means unbounded, otherwise the contents never exceed it.
#[derive(Debug)]
pub struct MutableString {
    chars: Vec<char>,
    max_length: usize,
}

impl View for MutableString {
    type V = Seq<char>;

    closed spec fn view(&self) -> Seq<char> {
        self.chars@
    }
}

impl MutableString {
    /// The bound the string was created with.
    pub closed spec fn max_len(self) -> usize {
        self.max_length
    }

    /// The bound holds of the contents.
    pub open spec fn wf(self) -> bool {
        self.max_len() == 0 || self@.len() <= self.max_len()
    }

    /// An empty mutable string with the given bound. Allocation does not
    /// fail in the model, so the result is never absent.
    pub fn create(alloc: Option<&Allocator>, max_length: usize) -> (r: Option<MutableString>)
        ensures
            r is Some,
            r->Some_0@ == Seq::<char>::empty(),
            r->Some_0.max_len() == max_length,
    {
        let _ = alloc;
        Some(MutableString { chars: Vec::new(), max_length })
    }

    /// The number of characters held.
    pub fn get_length(&self) -> (n: usize)
        ensures
            n == self@.len(),
    {
        self.chars.len()
    }

    /// An immutable view of the current contents.
    pub fn as_str(&self) -> (r: Str)
        ensures
            r@ == self@,
    {
        let mut chars: Vec<char> = Vec::new();
        let n = self.chars.len();
        let mut i: usize = 0;
        while i < n
            invariant
                n == self@.len(),
                i <= n,
                chars@ == self@.take(i as int),
            decreases n - i,
        {
            chars.push(self.chars[i]);
            proof {
                assert(self@.take(i + 1) =~= self@.take(i as int).push(self@[i as int]));
            }
            i = i + 1;
        }
        proof {
            assert(self@.take(n as int) =~= self@);
        }
        Str { chars }
    }

    /// Appends another string. Exceeding a nonzero bound is outside the
    /// native contract, so the model requires the result to fit.
    pub fn append(&mut self, appended_string: &Str)
        requires
            old(self).max_len() == 0 || old(self)@.len() + appended_string@.len() <= old(
                self,
            ).max_len(),
        ensures
            final(self)@ == old(self)@ + appended_string@,
            final(self).max_len() == old(self).max_len(),
    {
        let n = appended_string.chars.len();
        let mut i: usize = 0;
        while i < n
            invariant
                n == appended_string@.len(),
                i <= n,
                self.chars@ == old(self).chars@ + appended_string@.take(i as int),
                self.max_length == old(self).max_length,
            decreases n - i,
        {
            self.chars.push(appended_string.chars[i]);
            proof {
                assert(old(self).chars@ + appended_string@.take(i + 1) =~= (old(self).chars@
                    + appended_string@.take(i as int)).push(appended_string@[i as int]));
            }
            i = i + 1;
        }
        proof {
            assert(appended_string@.take(n as int) =~= appended_string@);
        }
    }

    /// Removes whitespace from both ends.
    pub fn trim_whitespace(&mut self)
        ensures
            final(self)@ == trim_ws_back(trim_ws_front(old(self)@)),
            final(self).max_len() == old(self).max_len(),
    {
        let n = self.chars.len();
        let mut start: usize = 0;
        while start < n && Self::char_is_trim_whitespace(self.chars[start])
            invariant
                n == self@.len(),
                start <= n,
                forall|j: int| 0 <= j < start ==> is_trim_whitespace(#[trigger] self@[j]),
            decreases n - start,
        {
            start = start + 1;
        }
        proof {
            lemma_trim_ws_front(self@, start as int);
        }
        let ghost fronted = self@.skip(start as int);
        let mut end: usize = n;
        while end > start && Self::char_is_trim_whitespace(self.chars[end - 1])
            invariant
                n == self@.len(),
                start <= end <= n,
                forall|j: int| end <= j < n ==> is_trim_whitespace(#[trigger] self@[j]),
            decreases end,
        {
            end = end - 1;
        }
        proof {
            assert(forall|j: int|
                end - start <= j < fronted.len() ==> is_trim_whitespace(#[trigger] fronted[j]));
            lemma_trim_ws_back(fronted, end - start);
        }
        let mut chars: Vec<char> = Vec::new();
        let mut i: usize = start;
        while i < end
            invariant
                n == self@.len(),
                start <= i <= end <= n,
                chars@ == self@.subrange(start as int, i as int),
            decreases end - i,
        {
            chars.push(self.chars[i]);
            proof {
                assert(self@.subrange(start as int, i + 1) =~= self@.subrange(
                    start as int,
                    i as int,
                ).push(self@[i as int]));
            }
            i = i + 1;
        }
        proof {
            assert(chars@ =~= fronted.take(end - start));
        }
        self.chars = chars;
    }

    /// Whether the pattern occurs at a position of the contents.
    fn segment_matches(&self, at: usize, t: &Str) -> (r: bool)
        requires
            at + t@.len() <= self@.len(),
        ensures
            r == (self@.subrange(at as int, at + t@.len()) == t@),
    {
        let n = self.chars.len();
        let tl = t.chars.len();
        let mut i: usize = 0;
        while i < tl
            invariant
                n == self@.len(),
                tl == t@.len(),
                at + tl <= n,
                i <= tl,
                forall|j: int| 0 <= j < i ==> self@[at + j] == t@[j],
            decreases tl - i,
        {
            if self.chars[at + i] != t.chars[i] {
                proof {
                    if self@.subrange(at as int, at + t@.len()) == t@ {
                        assert(self@.subrange(at as int, at + t@.len())[i as int] == t@[i as int]);
                    }
                }
                return false;
            }
            i = i + 1;
        }
        proof {
            assert(self@.subrange(at as int, at + t@.len()) =~= t@);
        }
        true
    }

    /// Removes repeated occurrences of a string from both ends.
    pub fn trim(&mut self, trim_string: &Str)
        ensures
            final(self)@ == trim_back(trim_front(old(self)@, trim_string@), trim_string@),
            final(self).max_len() == old(self).max_len(),
    {
        let tl = trim_string.chars.len();
        let n = self.chars.len();
        let mut start: usize = 0;
        proof {
            assert(self@.skip(0) =~= self@);
        }
        loop
            invariant_except_break
                tl == trim_string@.len(),
                n == self@.len(),
                start <= n,
                trim_front(old(self)@, trim_string@) == trim_front(
                    self@.skip(start as int),
                    trim_string@,
                ),
                self@ == old(self)@,
                self.max_length == old(self).max_length,
            ensures
                tl == trim_string@.len(),
                n == self@.len(),
                start <= n,
                self@ == old(self)@,
                self.max_length == old(self).max_length,
                trim_front(old(self)@, trim_string@) == self@.skip(start as int),
            decreases n - start,
        {
            if tl == 0 || n - start < tl || !self.segment_matches(start, trim_string) {
                proof {
                    if tl > 0 && n - start >= tl {
                        assert(self@.skip(start as int).take(tl as int) =~= self@.subrange(
                            start as int,
                            start + tl,
                        ));
                    }
                    assert(trim_front(self@.skip(start as int), trim_string@) == self@.skip(
                        start as int,
                    ));
                }
                break;
            }
            proof {
                assert(self@.skip(start as int).take(tl as int) =~= self@.subrange(
                    start as int,
                    start + tl,
                ));
                assert(self@.skip(start as int).skip(tl as int) =~= self@.skip(start + tl));
            }
            start = start + tl;
        }
        let ghost fronted = self@.skip(start as int);
        let mut end: usize = n;
        loop
            invariant_except_break
                tl == trim_string@.len(),
                n == self@.len(),
                start <= end <= n,
                fronted == self@.skip(start as int),
                trim_back(fronted, trim_string@) == trim_back(
                    self@.subrange(start as int, end as int),
                    trim_string@,
                ),
                self@ == old(self)@,
                self.max_length == old(self).max_length,
            ensures
                n == self@.len(),
                start <= end <= n,
                self@ == old(self)@,
                self.max_length == old(self).max_length,
                trim_back(fronted, trim_string@) == self@.subrange(start as int, end as int),
            decreases end,
        {
            if tl == 0 || end - start < tl || !self.segment_matches(end - tl, trim_string) {
                proof {
                    let sub = self@.subrange(start as int, end as int);
                    if tl > 0 && sub.len() >= tl {
                        assert(sub.skip(sub.len() - tl) =~= self@.subrange(
                            (end - tl) as int,
                            end - tl + tl,
                        ));
                    }
                    assert(trim_back(sub, trim_string@) == sub);
                }
                break;
            }
            proof {
                let sub = self@.subrange(start as int, end as int);
                assert(sub.skip(sub.len() - tl) =~= self@.subrange(
                    (end - tl) as int,
                    end - tl + tl,
                ));
                assert(sub.take(sub.len() - tl) =~= self@.subrange(start as int, (end - tl) as int));
            }
            end = end - tl;
        }
        let mut chars: Vec<char> = Vec::new();
        let mut i: usize = start;
        while i < end
            invariant
                n == self@.len(),
                start <= i <= end <= n,
                chars@ == self@.subrange(start as int, i as int),
            decreases end - i,
        {
            chars.push(self.chars[i]);
            proof {
                assert(self@.subrange(start as int, i + 1) =~= self@.subrange(
                    start as int,
                    i as int,
                ).push(self@[i as int]));
            }
            i = i + 1;
        }
        self.chars = chars;
    }

    /// The executable face of [`is_trim_whitespace`].
    fn char_is_trim_whitespace(c: char) -> (r: bool)
        ensures
            r == is_trim_whitespace(c),
    {
        c == ' ' || c == '\t' || c == '\n' || c == '\r'
    }
}

impl PartialEq for Str {
    /// Two strings are equal exactly when they hold the same characters.
    fn eq(&self, other: &Str) -> (r: bool) {
        self.equal(other)
    }
}

impl vstd::std_specs::cmp::PartialEqSpecImpl for Str {
    open spec fn obeys_eq_spec() -> bool {
        true
    }

    open spec fn eq_spec(&self, other: &Str) -> bool {
        self@ == other@
    }
}

} // verus!
