//! Null-terminated text as the native side expects it.

use vstd::prelude::*;
use vstd::slice::slice_subrange;
use vstd::string::StringSliceAdditionalSpecFns;
use vstd::utf8::{
    char_is_scalar, char_u32_cast, decode_utf8, encode_scalar, encode_utf8,
    encode_utf8_decode_utf8, encode_utf8_valid_utf8, has_width_1_encoding, is_scalar,
    last_continuation_byte, leading_byte_width_1, leading_byte_width_2, leading_byte_width_3,
    leading_byte_width_4, second_last_continuation_byte, third_last_continuation_byte,
    valid_utf8,
};

use crate::error::RtcError;

verus! {

/// The bytes of a null-terminated buffer that holds `chars`, without the
/// terminator: `None` where the UTF-8 encoding of `chars` has a null byte in
/// it, since the terminator would then cut the text short.
pub open spec fn marshal(chars: Seq<char>) -> Option<Seq<u8>> {
    marshal_bytes(encode_utf8(chars))
}

/// As [`marshal`], for text that is already given as bytes.
pub open spec fn marshal_bytes(bytes: Seq<u8>) -> Option<Seq<u8>> {
    if bytes.contains(0u8) {
        None
    } else {
        Some(bytes)
    }
}

/// The text that the content bytes of a buffer stand for: `None` where they
/// are not valid UTF-8.
pub open spec fn unmarshal(bytes: Seq<u8>) -> Option<Seq<char>> {
    if valid_utf8(bytes) {
        Some(decode_utf8(bytes))
    } else {
        None
    }
}

/// Whether `bytes` is a well-formed native string: it ends in a null byte and
/// holds no other.
pub open spec fn is_terminated(bytes: Seq<u8>) -> bool {
    &&& bytes.len() > 0
    &&& bytes.last() == 0u8
    &&& !bytes.drop_last().contains(0u8)
}

/// An owned, null-terminated byte buffer.
///
/// Its view is the content, that is the bytes before the terminator. The
/// content never holds a null byte.
#[derive(Debug)]
pub struct NativeText {
    bytes: Vec<u8>,
}

impl View for NativeText {
    type V = Seq<u8>;

    closed spec fn view(&self) -> Seq<u8> {
        self.bytes@.drop_last()
    }
}

impl NativeText {
    #[verifier::type_invariant]
    spec fn well_formed(self) -> bool {
        is_terminated(self.bytes@)
    }

    /// The bytes as the native side reads them: the content, then the
    /// terminator.
    pub open spec fn terminated(&self) -> Seq<u8> {
        self@.push(0u8)
    }

    /// Copies `bytes` into a fresh buffer and terminates it. Fails if `bytes`
    /// holds a null byte.
    pub fn from_bytes(bytes: &[u8]) -> (r: Result<NativeText, RtcError>)
        ensures
            match r {
                Ok(t) => marshal_bytes(bytes@) == Some(t@),
                Err(e) => e == RtcError::InvalidText && marshal_bytes(bytes@) is None,
            },
    {
        let mut buffer: Vec<u8> = Vec::new();
        let mut i: usize = 0;
        while i < bytes.len()
            invariant
                i <= bytes@.len(),
                buffer@ == bytes@.take(i as int),
                forall|k: int| 0 <= k < i ==> bytes@[k] != 0u8,
            decreases bytes@.len() - i,
        {
            let b: u8 = bytes[i];
            if b == 0 {
                return Err(RtcError::InvalidText);
            }
            buffer.push(b);
            assert(buffer@ =~= bytes@.take(i + 1));
            i = i + 1;
        }
        assert(buffer@ =~= bytes@);
        buffer.push(0);
        assert(buffer@.drop_last() =~= bytes@);
        Ok(NativeText { bytes: buffer })
    }

    /// Encodes `text` as UTF-8 and terminates it. Fails if `text` holds a null
    /// character, whose encoding is the null byte.
    pub fn new(text: &str) -> (r: Result<NativeText, RtcError>)
        ensures
            match r {
                Ok(t) => marshal(text@) == Some(t@),
                Err(e) => e == RtcError::InvalidText && marshal(text@) is None,
            },
    {
        NativeText::from_bytes(text.as_bytes())
    }

    /// The number of content bytes.
    pub fn len(&self) -> (n: usize)
        ensures
            n == self@.len(),
    {
        proof {
            use_type_invariant(self);
        }
        self.bytes.len() - 1
    }

    /// The content, without the terminator.
    pub fn as_bytes(&self) -> (r: &[u8])
        ensures
            r@ == self@,
            !r@.contains(0u8),
    {
        proof {
            use_type_invariant(self);
        }
        let n = self.bytes.len() - 1;
        let r = slice_subrange(self.bytes.as_slice(), 0, n);
        assert(r@ =~= self.bytes@.drop_last());
        r
    }

    /// Reads the content as text. Fails if it is not valid UTF-8.
    pub fn to_str(&self) -> (r: Result<&str, RtcError>)
        ensures
            match r {
                Ok(s) => unmarshal(self@) == Some(s@),
                Err(e) => e == RtcError::Utf8DecodingFailed && unmarshal(self@) is None,
            },
    {
        match utf8_checked(self.as_bytes()) {
            Some(s) => {
                proof {
                    encode_utf8_decode_utf8(s@);
                }
                Ok(s)
            },
            None => Err(RtcError::Utf8DecodingFailed),
        }
    }

    /// The whole buffer: the content, then the terminator.
    pub fn as_bytes_with_nul(&self) -> (r: &[u8])
        ensures
            r@ == self.terminated(),
            is_terminated(r@),
    {
        proof {
            use_type_invariant(self);
            assert(self.bytes@ =~= self.bytes@.drop_last().push(0u8));
        }
        self.bytes.as_slice()
    }
}

impl Clone for NativeText {
    fn clone(&self) -> (r: Self)
        ensures
            r@ == self@,
    {
        proof {
            use_type_invariant(self);
        }
        let bytes = self.bytes.clone();
        assert(bytes@ == self.bytes@) by {
            assert(bytes@ =~= self.bytes@);
        }
        NativeText { bytes }
    }
}

/// `std::str::from_utf8`. The standard library documents that it returns the
/// given bytes as a string slice if they are valid UTF-8 and an error
/// otherwise; the contract says that, with the error dropped.
#[verifier::external_body]
fn utf8_checked(bytes: &[u8]) -> (r: Option<&str>)
    ensures
        r is Some <==> valid_utf8(bytes@),
        r matches Some(s) ==> s.spec_bytes() == bytes@,
{
    match std::str::from_utf8(bytes) {
        Ok(s) => Some(s),
        Err(_) => None,
    }
}

proof fn lemma_encoded_bytes(scalar: u32)
    by (bit_vector)
    ensures
        has_width_1_encoding(scalar) ==> (leading_byte_width_1(scalar) == 0u8 <==> scalar == 0),
        leading_byte_width_2(scalar) != 0u8,
        leading_byte_width_3(scalar) != 0u8,
        leading_byte_width_4(scalar) != 0u8,
        last_continuation_byte(scalar) != 0u8,
        second_last_continuation_byte(scalar) != 0u8,
        third_last_continuation_byte(scalar) != 0u8,
{
}

proof fn lemma_scalar_has_nul_byte(scalar: u32)
    requires
        is_scalar(scalar),
    ensures
        encode_scalar(scalar).contains(0u8) <==> scalar == 0,
{
    lemma_encoded_bytes(scalar);
    let bytes = encode_scalar(scalar);
    if scalar == 0 {
        assert(bytes[0] == 0u8);
    }
}

/// The UTF-8 encoding of a text holds a null byte exactly when the text holds
/// the null character: no other character has a zero byte in its encoding.
pub proof fn lemma_nul_byte_iff_nul_char(chars: Seq<char>)
    ensures
        encode_utf8(chars).contains(0u8) <==> chars.contains('\0'),
    decreases chars.len(),
{
    if chars.len() == 0 {
    } else {
        let head = encode_scalar(chars[0] as u32);
        let rest = chars.drop_first();
        let tail = encode_utf8(rest);
        lemma_nul_byte_iff_nul_char(rest);
        char_is_scalar(chars[0]);
        lemma_scalar_has_nul_byte(chars[0] as u32);
        assert(chars[0] as u32 == 0 <==> chars[0] == '\0') by {
            char_u32_cast(chars[0], chars[0] as u32);
            char_u32_cast('\0', 0u32);
        }
        assert(encode_utf8(chars) == head + tail);
        if head.contains(0u8) {
            let k = choose|k: int| 0 <= k < head.len() && head[k] == 0u8;
            assert((head + tail)[k] == 0u8);
            assert(chars[0] == '\0');
        }
        if tail.contains(0u8) {
            let k = choose|k: int| 0 <= k < tail.len() && tail[k] == 0u8;
            assert((head + tail)[head.len() + k] == 0u8);
            let j = choose|j: int| 0 <= j < rest.len() && rest[j] == '\0';
            assert(chars[j + 1] == '\0');
        }
        if (head + tail).contains(0u8) {
            let k = choose|k: int| 0 <= k < (head + tail).len() && (head + tail)[k] == 0u8;
            if k < head.len() {
                assert(head[k] == 0u8);
            } else {
                assert(tail[k - head.len()] == 0u8);
            }
        }
        if chars.contains('\0') {
            let j = choose|j: int| 0 <= j < chars.len() && chars[j] == '\0';
            if j == 0 {
                assert(chars[0] as u32 == 0);
            } else {
                assert(rest[j - 1] == '\0');
            }
        }
    }
}

/// Marshalling succeeds exactly on text without a null character, and text
/// that was marshalled reads back unchanged: the buffer is terminated, holds
/// valid UTF-8 before the terminator, and decodes to the characters that went
/// in.
pub proof fn lemma_marshal_round_trip(chars: Seq<char>)
    ensures
        marshal(chars) is Some <==> !chars.contains('\0'),
        marshal(chars) matches Some(bytes) ==> {
            &&& is_terminated(bytes.push(0u8))
            &&& unmarshal(bytes) == Some(chars)
        },
{
    lemma_nul_byte_iff_nul_char(chars);
    encode_utf8_valid_utf8(chars);
    encode_utf8_decode_utf8(chars);
    let bytes = encode_utf8(chars);
    assert(bytes.push(0u8).drop_last() =~= bytes);
}

} // verus!
