//! Java strings and the UTF-8 characters that the VM lends out for them.

use vstd::prelude::*;
use crate::env::JavaEnv;
use crate::object::JObject;
use crate::object::JavaString;
use crate::object::RefType;
use crate::status::jboolean_value;
use crate::text::text_or_empty;
use crate::text::utf8_or_empty;

verus! {

/// The modified UTF-8 characters of a Java string, as `GetStringUTFChars`
/// lends them out.
pub struct JavaStringChars {
    s: JavaString,
    is_copy: bool,
    chars: usize,
}

impl JavaStringChars {
    /// The string whose characters these are.
    pub closed spec fn string_of(&self) -> JavaString {
        self.s
    }

    /// Whether the VM made a copy of the characters.
    pub closed spec fn is_copy_of(&self) -> bool {
        self.is_copy
    }

    /// The address of the characters.
    pub closed spec fn chars_of(&self) -> usize {
        self.chars
    }

    /// The string whose characters these are.
    pub fn string(&self) -> (r: &JavaString)
        ensures
            *r == self.string_of(),
    {
        &self.s
    }

    /// The address of the characters.
    pub fn chars_ptr(&self) -> (r: usize)
        ensures
            r == self.chars_of(),
    {
        self.chars
    }

    /// Whether `ReleaseStringUTFChars` must be called when these characters
    /// are dropped: exactly when the VM made a copy.
    pub fn needs_release(&self) -> (r: bool)
        ensures
            r == self.is_copy_of(),
    {
        self.is_copy
    }

    /// The text of the characters, read up to their NUL terminator into
    /// `bytes`; the empty string when they are not valid UTF-8.
    pub fn to_str(&self, bytes: Vec<u8>) -> (r: String)
        ensures
            r@ == text_or_empty(bytes@),
    {
        utf8_or_empty(bytes)
    }
}

impl JavaString {
    /// The string that `NewStringUTF` returned, as a local reference.
    pub fn new(env: JavaEnv, created: usize) -> (r: JavaString)
        ensures
            r.env_of() == env,
            r.obj_of() == created,
            r.ref_type_of() == RefType::Local,
    {
        <JavaString as JObject>::from(&env, created)
    }

    /// The characters that `GetStringUTFChars` lent out at `chars_ptr`,
    /// with the `isCopy` flag it set; they keep the further reference
    /// `copy_ptr` to this string that `inc_ref` names.
    pub fn chars(&self, copy_ptr: usize, chars_ptr: usize, is_copy: u8) -> (r: JavaStringChars)
        ensures
            r.string_of().env_of() == self.env_of(),
            r.string_of().obj_of() == copy_ptr,
            r.string_of().ref_type_of() == self.ref_type_of(),
            r.chars_of() == chars_ptr,
            r.is_copy_of() == jboolean_value(is_copy),
    {
        JavaStringChars { s: self.with_ref(copy_ptr), is_copy: is_copy != 0, chars: chars_ptr }
    }

    /// The text of this string, from the bytes of its UTF-8 characters up to
    /// their NUL terminator; the empty string when they are not valid UTF-8.
    pub fn to_str(&self, bytes: Vec<u8>) -> (r: String)
        ensures
            r@ == text_or_empty(bytes@),
    {
        utf8_or_empty(bytes)
    }

    /// The text of a region that `GetStringUTFRegion` wrote into `buffer`:
    /// its first `length` bytes read as UTF-8, or the empty string when they
    /// are not valid UTF-8.
    pub fn region(&self, buffer: &[u8], length: usize) -> (r: String)
        requires
            length <= buffer@.len(),
        ensures
            r@ == text_or_empty(buffer@.take(length as int)),
    {
        let mut bytes: Vec<u8> = Vec::new();
        let mut i: usize = 0;
        while i < length
            invariant
                length <= buffer@.len(),
                0 <= i <= length,
                bytes@ == buffer@.take(i as int),
            decreases length - i,
        {
            bytes.push(buffer[i]);
            i += 1;
            assert(bytes@ =~= buffer@.take(i as int));
        }
        utf8_or_empty(bytes)
    }
}

} // verus!
