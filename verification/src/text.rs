//! Text at the boundary: a C string is held as the bytes in front of its
//! terminator, and a null pointer as `None`.

use vstd::prelude::*;
use vstd::string::*;
use vstd::utf8::*;

verus! {

/// The bytes behind a pointer to a C string.
pub open spec fn c_bytes(bytes: Option<&[u8]>) -> Option<Seq<u8>> {
    match bytes {
        Some(b) => Some(b@),
        None => None,
    }
}

/// The text that a C string holds: its bytes decoded as UTF-8. A null pointer
/// and bytes that are not UTF-8 hold none.
pub open spec fn c_text(bytes: Option<Seq<u8>>) -> Option<Seq<char>> {
    match bytes {
        Some(b) => if valid_utf8(b) {
            Some(decode_utf8(b))
        } else {
            None
        },
        None => None,
    }
}

/// The C string that holds a text: its UTF-8 bytes. A text with a NUL inside
/// has none, since the NUL would end the string early.
pub open spec fn c_string(text: Seq<char>) -> Option<Seq<u8>> {
    if encode_utf8(text).contains(0u8) {
        None
    } else {
        Some(encode_utf8(text))
    }
}

/// The text of a C string that can itself be handed on as a C string: the
/// pointer is not null, the bytes are UTF-8, and none of them is zero.
pub open spec fn c_name(bytes: Option<&[u8]>) -> Option<Seq<char>> {
    match c_text(c_bytes(bytes)) {
        Some(text) => if c_string(text) is Some {
            Some(text)
        } else {
            None
        },
        None => None,
    }
}

/// `std::str::from_utf8`: succeeds exactly on valid UTF-8, and the string it
/// then returns is made of the given bytes.
#[verifier::external_body]
fn from_utf8<'a>(bytes: &'a [u8]) -> (r: Option<&'a str>)
    ensures
        r is Some <==> valid_utf8(bytes@),
        r matches Some(s) ==> s.spec_bytes() == bytes@,
{
    match std::str::from_utf8(bytes) {
        Ok(s) => Some(s),
        Err(_) => None,
    }
}

/// Reads a C string as text.
pub fn read_c_text<'a>(bytes: Option<&'a [u8]>) -> (r: Option<&'a str>)
    ensures
        match r {
            Some(s) => c_text(c_bytes(bytes)) == Some(s@),
            None => c_text(c_bytes(bytes)) is None,
        },
{
    match bytes {
        None => None,
        Some(b) => {
            let r = from_utf8(b);
            proof {
                if let Some(s) = r {
                    encode_utf8_decode_utf8(s@);
                }
            }
            r
        },
    }
}

/// Writes a text as a C string: `None`, the null pointer, if the text has a
/// NUL inside.
pub fn as_c_string(s: String) -> (r: Option<Vec<u8>>)
    ensures
        match r {
            Some(bytes) => c_string(s@) == Some(bytes@),
            None => c_string(s@) is None,
        },
{
    let bytes = s.as_str().as_bytes_vec();
    let mut i: usize = 0;
    while i < bytes.len()
        invariant
            i <= bytes.len(),
            bytes@ == encode_utf8(s@),
            forall|j: int| 0 <= j < i ==> bytes@[j] != 0u8,
        decreases bytes.len() - i,
    {
        if bytes[i] == 0 {
            return None;
        }
        i += 1;
    }
    Some(bytes)
}

/// Whether two strings hold the same text.
pub fn text_eq(a: &str, b: &str) -> (r: bool)
    ensures
        r == (a@ == b@),
{
    let x = a.as_bytes();
    let y = b.as_bytes();
    proof {
        encode_utf8_decode_utf8(a@);
        encode_utf8_decode_utf8(b@);
    }
    if x.len() != y.len() {
        return false;
    }
    let mut i: usize = 0;
    while i < x.len()
        invariant
            i <= x.len(),
            x@.len() == y@.len(),
            x@ == encode_utf8(a@),
            y@ == encode_utf8(b@),
            forall|j: int| 0 <= j < i ==> x@[j] == y@[j],
        decreases x.len() - i,
    {
        if x[i] != y[i] {
            return false;
        }
        i += 1;
    }
    assert(x@ =~= y@);
    true
}

/// The bytes of two texts put together are the bytes of the first and then
/// the bytes of the second.
pub proof fn lemma_encode_concat(a: Seq<char>, b: Seq<char>)
    ensures
        encode_utf8(a + b) == encode_utf8(a) + encode_utf8(b),
    decreases a.len(),
{
    if a.len() == 0 {
        assert(a + b =~= b);
        assert(encode_utf8(a) + encode_utf8(b) =~= encode_utf8(b));
    } else {
        assert((a + b).drop_first() =~= a.drop_first() + b);
        lemma_encode_concat(a.drop_first(), b);
        assert(encode_utf8(a + b) =~= encode_utf8(a) + encode_utf8(b));
    }
}

/// Two texts put together have a C string exactly if each of them has one:
/// a NUL inside either is a NUL inside the whole.
pub proof fn lemma_c_string_concat(a: Seq<char>, b: Seq<char>)
    ensures
        c_string(a + b) is Some <==> c_string(a) is Some && c_string(b) is Some,
{
    lemma_encode_concat(a, b);
    let x = encode_utf8(a);
    let y = encode_utf8(b);
    if x.contains(0u8) {
        let i = choose|i: int| 0 <= i < x.len() && x[i] == 0u8;
        assert((x + y)[i] == 0u8);
    }
    if y.contains(0u8) {
        let i = choose|i: int| 0 <= i < y.len() && y[i] == 0u8;
        assert((x + y)[x.len() + i] == 0u8);
    }
    if (x + y).contains(0u8) {
        let i = choose|i: int| 0 <= i < (x + y).len() && (x + y)[i] == 0u8;
        if i < x.len() {
            assert(x[i] == 0u8);
        } else {
            assert(y[i - x.len()] == 0u8);
        }
    }
}

/// A text without a NUL survives being written as a C string and read back.
pub proof fn lemma_c_string_round_trip(text: Seq<char>)
    requires
        c_string(text) is Some,
    ensures
        c_text(c_string(text)) == Some(text),
{
    encode_utf8_valid_utf8(text);
    encode_utf8_decode_utf8(text);
}

} // verus!
