//! Text that crosses the C boundary: a pointer that may be NULL, seen as
//! `Option<&[u8]>`, and a length in bytes.
use vstd::prelude::*;
use vstd::slice::slice_subrange;
use vstd::string::*;
use vstd::utf8::*;

verus! {

/// The error of `std::str::from_utf8`; nothing here looks inside it.
#[verifier::external_type_specification]
#[verifier::external_body]
pub struct ExUtf8Error(std::str::Utf8Error);

/// `std::str::from_utf8` accepts exactly the well-formed UTF-8 sequences, and
/// the string that it returns is made of the very bytes that it was given.
pub assume_specification[ std::str::from_utf8 ](v: &[u8]) -> (res: Result<
    &str,
    std::str::Utf8Error,
>)
    ensures
        res is Ok <==> valid_utf8(v@),
        res matches Ok(s) ==> s.spec_bytes() == v@,
;

/// The bytes behind `raw` hold a C string: NULL, or something that a NUL byte
/// ends.
pub open spec fn is_c_string(raw: Option<&[u8]>) -> bool {
    raw matches Some(bytes) ==> bytes@.contains(0u8)
}

/// `raw` is NULL or has at least `length` bytes to read.
pub open spec fn is_readable(raw: Option<&[u8]>, length: int) -> bool {
    raw matches Some(bytes) ==> length <= bytes@.len()
}

/// How many bytes of `bytes` stand before the first NUL.
pub open spec fn nul_position(bytes: Seq<u8>) -> nat
    decreases bytes.len(),
{
    if bytes.len() == 0 || bytes[0] == 0 {
        0
    } else {
        1 + nul_position(bytes.drop_first())
    }
}

/// What `strlen` counts; a NULL pointer has length zero.
pub open spec fn c_length(raw: Option<&[u8]>) -> nat {
    match raw {
        Some(bytes) => nul_position(bytes@),
        None => 0,
    }
}

/// The text in the first `length` bytes behind `raw`: none for NULL, and none
/// where the bytes are not UTF-8.
pub open spec fn c_text(raw: Option<&[u8]>, length: int) -> Option<Seq<char>> {
    match raw {
        Some(bytes) => if valid_utf8(bytes@.take(length)) {
            Some(decode_utf8(bytes@.take(length)))
        } else {
            None
        },
        None => None,
    }
}

/// The first NUL of a sequence that has one lies inside it, and no byte before
/// it is NUL.
pub proof fn lemma_nul_position(bytes: Seq<u8>)
    ensures
        nul_position(bytes) <= bytes.len(),
        bytes.contains(0u8) ==> nul_position(bytes) < bytes.len() && bytes[nul_position(
            bytes,
        ) as int] == 0,
        forall|i: int| 0 <= i < nul_position(bytes) ==> bytes[i] != 0,
    decreases bytes.len(),
{
    if bytes.len() != 0 && bytes[0] != 0 {
        let rest = bytes.drop_first();
        lemma_nul_position(rest);
        if bytes.contains(0u8) {
            let i = choose|i: int| 0 <= i < bytes.len() && bytes[i] == 0;
            assert(rest[i - 1] == 0);
        }
        assert forall|i: int| 0 <= i < nul_position(bytes) implies bytes[i] != 0 by {
            if i > 0 {
                assert(rest[i - 1] != 0);
            }
        }
    }
}

/// The length of a C string, not counting the NUL that ends it. NULL has
/// length zero.
pub fn strlen(raw: Option<&[u8]>) -> (length: usize)
    requires
        is_c_string(raw),
    ensures
        length == c_length(raw),
        is_readable(raw, length as int),
        raw is None ==> length == 0,
        raw matches Some(bytes) ==> {
            &&& length < bytes@.len()
            &&& bytes@[length as int] == 0
            &&& forall|i: int| 0 <= i < length ==> bytes@[i] != 0
        },
{
    match raw {
        None => 0,
        Some(bytes) => {
            let mut i: usize = 0;
            proof {
                lemma_nul_position(bytes@);
            }
            while bytes[i] != 0
                invariant
                    i <= nul_position(bytes@) < bytes@.len(),
                    bytes@[nul_position(bytes@) as int] == 0,
                    forall|j: int| 0 <= j < i ==> bytes@[j] != 0,
                decreases nul_position(bytes@) - i,
            {
                i = i + 1;
            }
            i
        },
    }
}

/// The text in the first `length` bytes behind a pointer, or `None` where the
/// pointer is NULL or the bytes are not UTF-8.
pub fn ptr_to_cstr_n<'a>(raw: Option<&'a [u8]>, length: usize) -> (text: Option<&'a str>)
    requires
        is_readable(raw, length as int),
    ensures
        text is Some <==> c_text(raw, length as int) is Some,
        text matches Some(s) ==> s@ == c_text(raw, length as int)->0,
        text is Some <==> raw is Some && valid_utf8(raw->0@.take(length as int)),
        text matches Some(s) ==> encode_utf8(s@) == raw->0@.take(length as int),
{
    match raw {
        None => None,
        Some(bytes) => {
            let head = slice_subrange(bytes, 0, length);
            assert(head@ == bytes@.take(length as int));
            match std::str::from_utf8(head) {
                Ok(s) => {
                    proof {
                        encode_utf8_decode_utf8(s@);
                    }
                    Some(s)
                },
                Err(_) => None,
            }
        },
    }
}

} // verus!
