//! Text that crosses the JNI boundary: NUL-terminated UTF-8 going in,
//! UTF-8 bytes coming back.

use vstd::prelude::*;
use vstd::string::StringSliceAdditionalSpecFns;
use vstd::utf8::decode_utf8;
use vstd::utf8::encode_utf8;
use vstd::utf8::valid_utf8;
use vstd::utf8::encode_scalar;
use vstd::utf8::is_scalar;

verus! {

/// Whether bytes can stand inside a C string: none of them is NUL.
pub open spec fn nul_free(bytes: Seq<u8>) -> bool {
    !bytes.contains(0u8)
}

/// The bytes of the C string that holds `bytes`: them, then one NUL.
pub open spec fn c_string_of(bytes: Seq<u8>) -> Seq<u8> {
    bytes.push(0u8)
}

/// The text that UTF-8 bytes stand for, or the empty text when they are not
/// valid UTF-8.
pub open spec fn text_or_empty(bytes: Seq<u8>) -> Seq<char> {
    if valid_utf8(bytes) {
        decode_utf8(bytes)
    } else {
        Seq::empty()
    }
}

/// Bytes are NUL-free exactly when none of them is 0.
pub proof fn lemma_nul_free_meaning(bytes: Seq<u8>)
    ensures
        nul_free(bytes) <==> (forall|i: int| 0 <= i < bytes.len() ==> bytes[i] != 0u8),
{
    if !nul_free(bytes) {
        let i = choose|i: int| 0 <= i < bytes.len() && bytes[i] == 0u8;
        assert(bytes[i] == 0u8);
    } else {
        assert forall|i: int| 0 <= i < bytes.len() implies bytes[i] != 0u8 by {
            if bytes[i] == 0u8 {
                assert(bytes.contains(0u8));
            }
        }
    }
}

/// A C string of some bytes is those bytes, in order, and then one 0.
pub proof fn lemma_c_string_layout(bytes: Seq<u8>)
    ensures
        c_string_of(bytes).len() == bytes.len() + 1,
        c_string_of(bytes).last() == 0u8,
        forall|i: int| 0 <= i < bytes.len() ==> c_string_of(bytes)[i] == bytes[i],
{
}

/// Valid UTF-8 bytes are the encoding of the text read from them; any other
/// bytes read as the empty text.
pub proof fn lemma_text_or_empty_meaning(bytes: Seq<u8>)
    ensures
        valid_utf8(bytes) ==> encode_utf8(text_or_empty(bytes)) == bytes,
        !valid_utf8(bytes) ==> text_or_empty(bytes).len() == 0,
{
    if valid_utf8(bytes) {
        vstd::utf8::decode_utf8_encode_utf8(bytes);
    }
}

/// The UTF-8 bytes of one scalar hold a 0 exactly when the scalar is 0.
proof fn lemma_scalar_bytes_zero(s: u32)
    requires
        is_scalar(s),
    ensures
        forall|i: int|
            0 <= i < encode_scalar(s).len() ==> (#[trigger] encode_scalar(s)[i] == 0u8 <==> s == 0),
{
    if 0 <= s <= 0x7F {
        assert((s & 0x7F) as u8 == 0u8 <==> s == 0u32) by (bit_vector)
            requires
                s <= 0x7Fu32,
        ;
    } else if 0x80 <= s <= 0x7FF {
        assert(0xC0u8 | (((s >> 6u32) & 0x1Fu32) as u8) != 0u8) by (bit_vector);
        assert(0x80u8 | ((s & 0x3Fu32) as u8) != 0u8) by (bit_vector);
    } else if 0x800 <= s <= 0xFFFF && !(0xD800 <= s <= 0xDFFF) {
        assert(0xE0u8 | (((s >> 12u32) & 0x0Fu32) as u8) != 0u8) by (bit_vector);
        assert(0x80u8 | (((s >> 6u32) & 0x3Fu32) as u8) != 0u8) by (bit_vector);
        assert(0x80u8 | ((s & 0x3Fu32) as u8) != 0u8) by (bit_vector);
    } else {
        assert(0xF0u8 | (((s >> 18u32) & 0x7u32) as u8) != 0u8) by (bit_vector);
        assert(0x80u8 | (((s >> 12u32) & 0x3Fu32) as u8) != 0u8) by (bit_vector);
        assert(0x80u8 | (((s >> 6u32) & 0x3Fu32) as u8) != 0u8) by (bit_vector);
        assert(0x80u8 | ((s & 0x3Fu32) as u8) != 0u8) by (bit_vector);
    }
}

/// The UTF-8 encoding of a text holds a 0 byte exactly when the text holds
/// the character NUL.
pub proof fn lemma_encoding_holds_nul(chars: Seq<char>)
    ensures
        (exists|i: int| 0 <= i < encode_utf8(chars).len() && encode_utf8(chars)[i] == 0u8)
            <==> (exists|j: int| 0 <= j < chars.len() && chars[j] == '\0'),
    decreases chars.len(),
{
    if chars.len() > 0 {
        let c = chars[0];
        let a = encode_scalar(c as u32);
        let rest = chars.drop_first();
        let b = encode_utf8(rest);
        let e = encode_utf8(chars);
        assert(e == a + b);
        vstd::utf8::char_is_scalar(c);
        lemma_scalar_bytes_zero(c as u32);
        lemma_encoding_holds_nul(rest);
        assert((c as u32 == 0) <==> c == '\0') by {
            if c as u32 == 0 {
                vstd::utf8::char_u32_cast(c, 0u32);
            }
        }
        assert(a.len() >= 1) by {
            assert(a.len() >= 1);
        }
        if exists|i: int| 0 <= i < e.len() && e[i] == 0u8 {
            let i = choose|i: int| 0 <= i < e.len() && e[i] == 0u8;
            if i < a.len() {
                assert(a[i] == 0u8);
                assert(chars[0] == '\0');
            } else {
                assert(b[i - a.len()] == 0u8);
                let j = choose|j: int| 0 <= j < rest.len() && rest[j] == '\0';
                assert(chars[j + 1] == '\0');
            }
        }
        if exists|j: int| 0 <= j < chars.len() && chars[j] == '\0' {
            let j = choose|j: int| 0 <= j < chars.len() && chars[j] == '\0';
            if j == 0 {
                assert(a[0] == 0u8);
                assert(e[0] == 0u8);
            } else {
                assert(rest[j - 1] == '\0');
                let i = choose|i: int| 0 <= i < b.len() && b[i] == 0u8;
                assert(e[i + a.len()] == 0u8);
            }
        }
    }
}

/// A text can be handed to the VM as a C string exactly when it holds no
/// character NUL.
pub proof fn lemma_c_ok_iff_no_nul_char(chars: Seq<char>)
    ensures
        nul_free(encode_utf8(chars)) <==> (forall|j: int| 0 <= j < chars.len() ==> chars[j] != '\0'),
{
    lemma_encoding_holds_nul(chars);
    lemma_nul_free_meaning(encode_utf8(chars));
}

/// Whether `s` can be handed to the VM as a C string: its UTF-8 encoding
/// holds no NUL byte.
pub fn c_compatible(s: &str) -> (r: bool)
    ensures
        r == nul_free(s.spec_bytes()),
        r <==> (forall|i: int| 0 <= i < s.spec_bytes().len() ==> s.spec_bytes()[i] != 0u8),
        r <==> (forall|j: int| 0 <= j < s@.len() ==> s@[j] != '\0'),
{
    proof {
        lemma_nul_free_meaning(s.spec_bytes());
        lemma_c_ok_iff_no_nul_char(s@);
        assert(s.spec_bytes() == encode_utf8(s@));
    }
    let bytes = s.as_bytes();
    let n = bytes.len();
    let mut i: usize = 0;
    while i < n
        invariant
            n == bytes@.len(),
            bytes@ == s.spec_bytes(),
            0 <= i <= n,
            forall|j: int| 0 <= j < i ==> bytes@[j] != 0u8,
        decreases n - i,
    {
        if bytes[i] == 0 {
            assert(bytes@[i as int] == 0u8);
            proof {
                lemma_nul_free_meaning(s.spec_bytes());
                lemma_c_ok_iff_no_nul_char(s@);
                assert(s.spec_bytes() == encode_utf8(s@));
            }
            return false;
        }
        i += 1;
    }
    assert forall|j: int| 0 <= j < bytes@.len() implies bytes@[j] != 0u8 by {}
    true
}

/// The NUL-terminated UTF-8 bytes of `s`, as the VM reads a C string.
pub fn to_c_bytes(s: &str) -> (r: Vec<u8>)
    requires
        nul_free(s.spec_bytes()),
    ensures
        r@ == c_string_of(s.spec_bytes()),
{
    let bytes = s.as_bytes();
    let n = bytes.len();
    let mut out: Vec<u8> = Vec::new();
    let mut i: usize = 0;
    while i < n
        invariant
            n == bytes@.len(),
            bytes@ == s.spec_bytes(),
            0 <= i <= n,
            out@ == bytes@.take(i as int),
        decreases n - i,
    {
        out.push(bytes[i]);
        i += 1;
        assert(out@ =~= bytes@.take(i as int));
    }
    assert(out@ =~= bytes@);
    out.push(0u8);
    out
}

/// Calls `String::from_utf8` of std, which succeeds exactly on valid UTF-8
/// bytes and then holds the text that they encode; its error is dropped.
#[verifier::external_body]
fn string_from_utf8(bytes: Vec<u8>) -> (r: Option<String>)
    ensures
        r is Some <==> valid_utf8(bytes@),
        r matches Some(s) ==> s@ == decode_utf8(bytes@),
{
    match String::from_utf8(bytes) {
        Ok(s) => Some(s),
        Err(_) => None,
    }
}

/// The text of UTF-8 bytes that came back from the VM, or the empty string
/// when they are not valid UTF-8.
pub fn utf8_or_empty(bytes: Vec<u8>) -> (r: String)
    ensures
        r@ == text_or_empty(bytes@),
{
    match string_from_utf8(bytes) {
        Some(s) => s,
        None => String::new(),
    }
}

/// A string written as a C string and read back, up to its NUL, as UTF-8 is
/// the string itself.
pub proof fn lemma_c_string_round_trip(s: Seq<char>)
    ensures
        text_or_empty(c_string_of(encode_utf8(s)).drop_last()) == s,
{
    let b = encode_utf8(s);
    assert(c_string_of(b).drop_last() =~= b);
    vstd::utf8::encode_utf8_valid_utf8(s);
    vstd::utf8::encode_utf8_decode_utf8(s);
}

} // verus!
