//! Conversions between C strings and Rust strings.
//!
//! A C string argument is modelled as `Option<&[u8]>`: `None` stands for a
//! NULL pointer and `Some(bytes)` for the bytes before the terminating NUL.
use vstd::prelude::*;
use vstd::string::StringSliceAdditionalSpecFns;
use vstd::utf8::*;

verus! {

broadcast use vstd::utf8::group_utf8_lib;

/// No byte of `s` is NUL.
pub open spec fn nul_free(s: Seq<u8>) -> bool {
    forall|i: int| 0 <= i < s.len() ==> s[i] != 0u8
}

/// `prefix` is what a C reader sees of `s`: everything before the first NUL
/// byte of `s`, or all of `s` when it holds none.
pub open spec fn is_c_visible_prefix(prefix: Seq<u8>, s: Seq<u8>) -> bool {
    &&& prefix.len() <= s.len()
    &&& prefix == s.take(prefix.len() as int)
    &&& nul_free(prefix)
    &&& (prefix.len() == s.len() || s[prefix.len() as int] == 0u8)
}

/// The text that a C string holding `bytes` denotes, when it is UTF-8.
pub open spec fn c_text(bytes: Seq<u8>) -> Option<Seq<char>> {
    if valid_utf8(bytes) {
        Some(decode_utf8(bytes))
    } else {
        None
    }
}

/// The text of a possibly NULL C string argument: `None` for NULL and for
/// bytes that are not UTF-8.
pub open spec fn c_arg_text(arg: Option<&[u8]>) -> Option<Seq<char>> {
    match arg {
        Some(bytes) => c_text(bytes@),
        None => None,
    }
}

/// Wraps `std::str::from_utf8`. As its documentation states, the call
/// succeeds exactly on valid UTF-8, and the string slice it returns consists
/// of the very bytes it was given.
#[verifier::external_body]
fn str_from_utf8(bytes: &[u8]) -> (r: Option<&str>)
    ensures
        r is Some <==> valid_utf8(bytes@),
        r matches Some(s) ==> s.spec_bytes() == bytes@,
{
    match std::str::from_utf8(bytes) {
        Ok(s) => Some(s),
        Err(_) => None,
    }
}

/// The bytes of a C copy of `value`.
///
/// A C string ends at its first NUL, so the copy holds the bytes of `value`
/// up to (not including) its first NUL byte; a value without NUL is copied
/// whole. The result never contains NUL, so the host can always terminate it.
pub fn string_into_c(value: &str) -> (r: Vec<u8>)
    ensures
        is_c_visible_prefix(r@, value.spec_bytes()),
        nul_free(value.spec_bytes()) ==> r@ == value.spec_bytes(),
        r@.len() <= value.spec_bytes().len(),
        forall|i: int| 0 <= i < r@.len() ==> r@[i] == value.spec_bytes()[i] && r@[i] != 0u8,
        r@.len() < value.spec_bytes().len() ==> value.spec_bytes()[r@.len() as int] == 0u8,
        (forall|i: int| 0 <= i < value.spec_bytes().len() ==> value.spec_bytes()[i] != 0u8) ==> r@
            == value.spec_bytes(),
{
    let bytes = value.as_bytes();
    let mut out: Vec<u8> = Vec::new();
    let mut i: usize = 0;
    while i < bytes.len() && bytes[i] != 0u8
        invariant
            i <= bytes@.len(),
            out@ == bytes@.take(i as int),
            nul_free(out@),
        decreases bytes@.len() - i,
    {
        out.push(bytes[i]);
        i = i + 1;
    }
    assert(out@ == bytes@.take(i as int));
    out
}

/// Converts a possibly NULL C string argument to an owned string.
///
/// Returns `None` for NULL and for bytes that are not valid UTF-8, and the
/// decoded text otherwise.
pub fn cstr_to_option_string(arg: Option<&[u8]>) -> (r: Option<String>)
    ensures
        r is Some <==> c_arg_text(arg) is Some,
        r matches Some(s) ==> s@ == c_arg_text(arg).unwrap(),        arg is None ==> r is None,
        arg is Some && !valid_utf8(arg.unwrap()@) ==> r is None,
        arg is Some && valid_utf8(arg.unwrap()@) ==> (r matches Some(s) && s@ == decode_utf8(arg.unwrap()@)),
{
    match arg {
        None => None,
        Some(bytes) => match str_from_utf8(bytes) {
            None => None,
            Some(s) => {
                proof {
                    assert(decode_utf8(encode_utf8(s@)) == s@);
                }
                Some(s.to_owned())
            },
        },
    }
}

/// Only byte 0 ends a C string: what C sees of `s` agrees with `s` byte by
/// byte, stops at a 0 byte and nowhere else, and is all of `s` when `s` holds
/// no 0 byte. In particular any other byte, such as a newline, is kept.
pub proof fn lemma_c_visible_prefix_stops_only_at_nul(prefix: Seq<u8>, s: Seq<u8>)
    requires
        is_c_visible_prefix(prefix, s),
    ensures
        prefix.len() <= s.len(),
        forall|i: int| 0 <= i < prefix.len() ==> prefix[i] == s[i] && s[i] != 0u8,
        prefix.len() < s.len() ==> s[prefix.len() as int] == 0u8,
        (forall|i: int| 0 <= i < s.len() ==> s[i] != 0u8) ==> prefix == s,
        forall|i: int| 0 <= i < s.len() && s[i] != 0u8 && (forall|j: int| 0 <= j < i ==> s[j] != 0u8)
            ==> i < prefix.len(),
{
    assert forall|i: int| 0 <= i < prefix.len() implies prefix[i] == s[i] && s[i] != 0u8 by {
        assert(prefix[i] == s.take(prefix.len() as int)[i]);
    }
    if forall|i: int| 0 <= i < s.len() ==> s[i] != 0u8 {
        if prefix.len() < s.len() {
            assert(s[prefix.len() as int] != 0u8);
        }
        assert(prefix =~= s);
    }
    assert forall|i: int| 0 <= i < s.len() && s[i] != 0u8 && (forall|j: int| 0 <= j < i ==> s[j] != 0u8)
        implies i < prefix.len() by {
        if i >= prefix.len() {
            if prefix.len() < s.len() {
                if prefix.len() < i {
                    assert(s[prefix.len() as int] != 0u8);
                }
            }
        }
    }
}

/// A string survives the trip through C: the text that C reads back from
/// the bytes of a string without NUL is that string.
pub proof fn lemma_c_roundtrip(text: Seq<char>)
    requires
        nul_free(encode_utf8(text)),
    ensures
        c_text(encode_utf8(text)) == Some(text),
{
    assert(valid_utf8(encode_utf8(text)));
    assert(decode_utf8(encode_utf8(text)) == text);
}

/// A C array of `len` string pointers is readable as text: it is empty, or it
/// is present and every one of its entries is a non-NULL UTF-8 string.
pub open spec fn c_array_valid(items: Option<Vec<Option<Vec<u8>>>>, len: usize) -> bool {
    len == 0 || (items matches Some(v) && forall|i: int|
        0 <= i < v@.len() ==> (#[trigger] v@[i] matches Some(b) && valid_utf8(b@)))
}

/// The text of entry `i` of a readable C string array.
pub open spec fn c_array_entry(items: Option<Vec<Option<Vec<u8>>>>, i: int) -> Seq<char> {
    decode_utf8(items.unwrap()@[i].unwrap()@)
}

/// Converts a C array of `len` string pointers to owned strings.
///
/// `items` is `None` for a NULL array; otherwise it holds the `len` entries,
/// each `None` for a NULL pointer. An empty array is accepted even when the
/// pointer is NULL. Any NULL pointer or non-UTF-8 entry makes the whole
/// conversion fail with `None`.
pub fn cstr_array_to_vec(items: &Option<Vec<Option<Vec<u8>>>>, len: usize) -> (r: Option<Vec<String>>)
    requires
        *items matches Some(v) ==> v@.len() == len,
    ensures
        r is Some <==> c_array_valid(*items, len),
        r matches Some(out) ==> {
            &&& out@.len() == len
            &&& forall|i: int| 0 <= i < len ==> (#[trigger] out@[i])@ == c_array_entry(*items, i)
        },        r matches Some(out) ==> forall|i: int|
            0 <= i < len ==> (#[trigger] out@[i])@ == decode_utf8(items.unwrap()@[i].unwrap()@),
        len == 0 ==> r is Some,
        len > 0 && items is None ==> r is None,
        forall|i: int| 0 <= i < len && items is Some && items.unwrap()@[i] is None ==> r is None,
        forall|i: int|
            0 <= i < len && items is Some && items.unwrap()@[i] is Some && !valid_utf8(
                items.unwrap()@[i].unwrap()@,
            ) ==> r is None,
{
    if len == 0 {
        return Some(Vec::new());
    }
    let v = match items {
        None => return None,
        Some(v) => v,
    };
    let mut out: Vec<String> = Vec::new();
    let mut i: usize = 0;
    while i < len
        invariant
            v@.len() == len,
            *items == Some(*v),
            i <= len,
            out@.len() == i,
            forall|j: int| 0 <= j < i ==> (#[trigger] v@[j] matches Some(b) && valid_utf8(b@)),
            forall|j: int| 0 <= j < i ==> (#[trigger] out@[j])@ == c_array_entry(*items, j),
        decreases len - i,
    {
        match &v[i] {
            None => {
                assert(!(v@[i as int] matches Some(b) && valid_utf8(b@)));
                return None;
            },
            Some(bytes) => match str_from_utf8(bytes.as_slice()) {
                None => {
                    assert(!(v@[i as int] matches Some(b) && valid_utf8(b@)));
                    return None;
                },
                Some(s) => {
                    proof {
                        assert(decode_utf8(encode_utf8(s@)) == s@);
                    }
                    out.push(s.to_owned());
                },
            },
        }
        i = i + 1;
    }
    Some(out)
}

} // verus!
