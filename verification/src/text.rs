//! Text that crosses the boundary: a view of bytes that may or may not be
//! well-formed UTF-8.
//!
//! The model of a text is the sequence of its bytes. What it says, where it
//! says anything, is the sequence of characters that those bytes encode.

use cxx::CxxString;
use core::str::Utf8Error;
use vstd::prelude::*;
use vstd::slice::slice_to_vec;
use vstd::string::*;
use vstd::utf8::*;

verus! {

/// `cxx::CxxString`, a string of the foreign side. It is only ever held by
/// reference, and nothing of its inside is known here.
#[verifier::external_type_specification]
#[verifier::external_body]
pub struct ExCxxString(cxx::CxxString);

/// `core::str::Utf8Error`, with which the two readers below fail. Nothing of
/// its inside is known here.
#[verifier::external_type_specification]
#[verifier::external_body]
pub struct ExUtf8Error(core::str::Utf8Error);

/// The bytes that a foreign string holds.
pub uninterp spec fn foreign_bytes(s: &CxxString) -> Seq<u8>;

/// `cxx::CxxString::as_bytes` hands out the bytes that the string holds.
pub assume_specification<'a>[ CxxString::as_bytes ](s: &'a CxxString) -> (r: &'a [u8])
    ensures
        r@ == foreign_bytes(s),
;

/// `cxx::CxxString::to_str` validates the string's bytes as UTF-8: it
/// succeeds exactly when they are well formed, and then hands out those very
/// bytes as a string slice.
pub assume_specification<'a>[ CxxString::to_str ](s: &'a CxxString) -> (r: Result<
    &'a str,
    Utf8Error,
>)
    ensures
        r is Ok <==> valid_utf8(foreign_bytes(s)),
        r matches Ok(t) ==> t.spec_bytes() == foreign_bytes(s),
;

/// `core::str::from_utf8` succeeds exactly when the bytes are well-formed
/// UTF-8, and then hands out those very bytes as a string slice.
pub assume_specification<'a>[ core::str::from_utf8 ](bytes: &'a [u8]) -> (r: Result<
    &'a str,
    Utf8Error,
>)
    ensures
        r is Ok <==> valid_utf8(bytes@),
        r matches Ok(t) ==> t.spec_bytes() == bytes@,
;

/// The characters that `bytes` encode, where they are well-formed UTF-8.
pub open spec fn text_of(bytes: Seq<u8>) -> Option<Seq<char>> {
    if valid_utf8(bytes) {
        Some(decode_utf8(bytes))
    } else {
        None
    }
}

/// The characters that `bytes` encode, or `fallback` where they are not
/// well-formed UTF-8.
pub open spec fn text_or(bytes: Seq<u8>, fallback: Seq<char>) -> Seq<char> {
    match text_of(bytes) {
        Some(text) => text,
        None => fallback,
    }
}

/// The length of a text in bytes, which is the length of its UTF-8 form.
pub open spec fn byte_len(chars: Seq<char>) -> nat {
    encode_utf8(chars).len()
}

/// The one way in which reading a text view fails: its bytes are not
/// well-formed UTF-8.
#[derive(Clone, Copy, Debug, PartialEq, Eq, Structural)]
pub struct InvalidEncoding;

/// A read-only text value received across the boundary.
pub enum TextView<'a> {
    /// A view into a string that the foreign side owns. The foreign side has
    /// to keep the string alive and unchanged for `'a`: nothing on this side
    /// can check that it does.
    Foreign(&'a CxxString),
    /// Bytes that were copied when they crossed the boundary.
    Copied(Vec<u8>),
}

impl<'a> View for TextView<'a> {
    type V = Seq<u8>;

    /// The bytes under the view.
    open spec fn view(&self) -> Seq<u8> {
        match self {
            TextView::Foreign(s) => foreign_bytes(*s),
            TextView::Copied(v) => v@,
        }
    }
}

impl<'a> TextView<'a> {
    /// A text that holds the bytes of `s`.
    pub fn from_str(s: &str) -> (r: TextView<'a>)
        ensures
            r@ == s.spec_bytes(),
            text_of(r@) == Some(s@),
            r is Copied,
    {
        broadcast use encode_utf8_valid_utf8, encode_utf8_decode_utf8;

        TextView::Copied(s.as_bytes_vec())
    }

    /// A text that holds the given bytes.
    pub fn from_bytes(bytes: Vec<u8>) -> (r: TextView<'a>)
        ensures
            r@ == bytes@,
            r is Copied,
    {
        TextView::Copied(bytes)
    }

    /// A view into a string of the foreign side.
    pub fn from_foreign(s: &'a CxxString) -> (r: TextView<'a>)
        ensures
            r@ == foreign_bytes(s),
            r is Foreign,
    {
        TextView::Foreign(s)
    }

    /// A text of the same bytes that depends on no foreign string.
    pub fn to_copied(&self) -> (r: TextView<'static>)
        ensures
            r@ == self@,
            r is Copied,
    {
        match self {
            TextView::Foreign(s) => TextView::Copied(slice_to_vec(s.as_bytes())),
            TextView::Copied(v) => TextView::Copied(slice_to_vec(v.as_slice())),
        }
    }

    /// Reads the text as a string slice, which fails exactly when the bytes
    /// are not well-formed UTF-8.
    pub fn to_str(&self) -> (r: Result<&str, InvalidEncoding>)
        ensures
            r is Ok <==> text_of(self@) is Some,
            r matches Ok(t) ==> Some(t@) == text_of(self@) && t.spec_bytes() == self@,
    {
        broadcast use encode_utf8_decode_utf8;

        let decoded = match self {
            TextView::Foreign(s) => s.to_str(),
            TextView::Copied(v) => core::str::from_utf8(v.as_slice()),
        };
        match decoded {
            Ok(t) => Ok(t),
            Err(_) => Err(InvalidEncoding),
        }
    }

    /// Reads the text as a string slice, and hands out `fallback` in its
    /// place where the bytes are not well-formed UTF-8.
    pub fn to_str_or<'b>(&'b self, fallback: &'b str) -> (r: &'b str)
        ensures
            r@ == text_or(self@, fallback@),
    {
        match self.to_str() {
            Ok(t) => t,
            Err(_) => fallback,
        }
    }
}

/// Only the empty text takes no bytes.
pub proof fn lemma_byte_len_zero(chars: Seq<char>)
    ensures
        byte_len(chars) == 0 <==> chars.len() == 0,
{
}

/// The length of `s` in bytes.
pub fn byte_length(s: &str) -> (n: usize)
    ensures
        n == byte_len(s@),
{
    s.as_bytes().len()
}

/// In well-formed UTF-8 an ASCII byte stands for itself and for nothing
/// else: it occurs among the bytes exactly when its character occurs in the
/// decoded text.
pub proof fn lemma_ascii_byte_occurs(bytes: Seq<u8>, b: u8)
    requires
        valid_utf8(bytes),
        b <= 0x7f,
    ensures
        bytes.contains(b) <==> decode_utf8(bytes).contains(b as char),
    decreases bytes.len(),
{
    if bytes.len() > 0 {
        let k = length_of_first_scalar(bytes);
        let rest = pop_first_scalar(bytes);
        let first = decode_first_scalar(bytes);
        let chars = decode_utf8(bytes);
        let tail = decode_utf8(rest);
        assert(valid_first_scalar(bytes) && valid_utf8(rest));
        lemma_ascii_byte_occurs(rest, b);
        assert(chars =~= seq![first as char] + tail);
        let b0: u8 = bytes[0];
        assert(b0 <= 0x7f ==> b0 & 0x7f == b0) by (bit_vector);
        // The first scalar is `b` exactly when one of its bytes is.
        let in_head = exists|i: int| 0 <= i < k && bytes[i] == b;
        if is_leading_byte_width_1(b0) {
            assert(k == 1 && first == b0 as u32);
            if b0 == b {
                assert(0 <= 0 < k && bytes[0] == b);
            }
            assert(in_head <==> (first as char) == (b as char));
        } else {
            assert(forall|i: int| 0 <= i < k ==> bytes[i] >= 0x80);
            assert(!in_head);
            // A scalar that takes several bytes is no ASCII character.
            decode_utf8_first_scalar(bytes);
            assert(take_first_scalar(bytes).len() == k);
            assert((first as char) != (b as char));
        }
        if bytes.contains(b) {
            let i = choose|i: int| 0 <= i < bytes.len() && bytes[i] == b;
            if i < k {
                assert(chars[0] == b as char);
            } else {
                assert(rest[i - k] == b);
                let j = choose|j: int| 0 <= j < tail.len() && tail[j] == b as char;
                assert(chars[j + 1] == b as char);
            }
        }
        if chars.contains(b as char) {
            let j = choose|j: int| 0 <= j < chars.len() && chars[j] == b as char;
            if j == 0 {
                let i = choose|i: int| 0 <= i < k && bytes[i] == b;
                assert(bytes[i] == b);
            } else {
                assert(tail[j - 1] == b as char);
                let i = choose|i: int| 0 <= i < rest.len() && rest[i] == b;
                assert(bytes[i + k] == b);
            }
        }
    }
}

/// Whether the byte `b` occurs in the UTF-8 form of `s`. For an ASCII byte
/// that is whether its character occurs in `s`.
pub fn contains_byte(s: &str, b: u8) -> (r: bool)
    ensures
        r == s.spec_bytes().contains(b),
        b <= 0x7f ==> r == s@.contains(b as char),
{
    broadcast use encode_utf8_valid_utf8, encode_utf8_decode_utf8;
    proof {
        if b <= 0x7f {
            lemma_ascii_byte_occurs(s.spec_bytes(), b);
        }
    }
    let bytes = s.as_bytes();
    let mut i: usize = 0;
    while i < bytes.len()
        invariant
            i <= bytes.len(),
            bytes@ == s.spec_bytes(),
            b <= 0x7f ==> (bytes@.contains(b) <==> s@.contains(b as char)),
            forall|j: int| 0 <= j < i ==> bytes@[j] != b,
        decreases bytes.len() - i,
    {
        if bytes[i] == b {
            return true;
        }
        i += 1;
    }
    false
}

/// Whether two string slices hold the same characters.
pub fn same_text(a: &str, b: &str) -> (r: bool)
    ensures
        r == (a@ == b@),
{
    broadcast use encode_utf8_decode_utf8;
    let x = a.as_bytes();
    let y = b.as_bytes();
    if x.len() != y.len() {
        return false;
    }
    let mut i: usize = 0;
    while i < x.len()
        invariant
            i <= x.len(),
            x.len() == y.len(),
            x@ == a.spec_bytes(),
            y@ == b.spec_bytes(),
            forall|j: int| 0 <= j < i ==> x@[j] == y@[j],
        decreases x.len() - i,
    {
        if x[i] != y[i] {
            return false;
        }
        i += 1;
    }
    assert(x@ =~= y@);
    assert(decode_utf8(a.spec_bytes()) == decode_utf8(b.spec_bytes()));
    true
}

} // verus!

