//! Conversion between host text and NUL-terminated byte sequences.
//! Each byte stands for one character: text outside 7-bit ASCII is not meant to cross.

use vstd::prelude::*;
use crate::text::push_char;
use vstd::string::StringSliceAdditionalSpecFns;

verus! {

/// `s` is the text that the NUL-terminated byte sequence `b` holds: the bytes before
/// the first zero byte, each read as one character.
pub open spec fn holds_cstr(b: Seq<u8>, s: Seq<char>) -> bool {
    &&& s.len() < b.len()
    &&& b[s.len() as int] == 0
    &&& forall|i: int| 0 <= i < s.len() ==> b[i] != 0 && #[trigger] s[i] == b[i] as char
}

/// Whether the byte sequence holds a terminating zero byte.
pub open spec fn has_nul(b: Seq<u8>) -> bool {
    exists|i: int| 0 <= i < b.len() && b[i] == 0
}

/// The bytes that encode `s`, followed by a zero byte.
pub open spec fn cstr_bytes(s: &str) -> Seq<u8> {
    s.spec_bytes().push(0)
}

/// Whether text is 7-bit clean and holds no NUL character, so that it survives
/// encoding and decoding unchanged.
pub open spec fn is_plain_ascii(s: Seq<char>) -> bool {
    forall|i: int| 0 <= i < s.len() ==> '\u{1}' <= #[trigger] s[i] <= '\u{7f}'
}

/// Reads the text of a NUL-terminated byte sequence.
pub fn from_cstr(str_in: &[u8]) -> (r: String)
    requires
        has_nul(str_in@),
    ensures
        holds_cstr(str_in@, r@),
{
    let mut str_out = String::new();
    let mut pos: usize = 0;
    while str_in[pos] != 0
        invariant
            pos < str_in@.len(),
            has_nul(str_in@),
            str_out@.len() == pos,
            forall|i: int| 0 <= i < pos ==> #[trigger] str_in@[i] != 0,
            forall|i: int| 0 <= i < pos ==> #[trigger] str_out@[i] == str_in@[i] as char,
        decreases str_in@.len() - pos,
    {
        let ghost before = str_out@;
        push_char(&mut str_out, str_in[pos] as char);
        assert(forall|i: int| 0 <= i < pos ==> str_out@[i] == before[i]);
        pos = pos + 1;
        if pos >= str_in.len() {
            proof {
                let k = choose|k: int| 0 <= k < str_in@.len() && str_in@[k] == 0;
                assert(str_in@[k] != 0);
            }
        }
    }
    str_out
}

/// Encodes text as its bytes followed by a terminating zero byte.
pub fn to_cstr(str_in: &str) -> (r: Vec<u8>)
    ensures
        r@ == cstr_bytes(str_in),
{
    let bytes = str_in.as_bytes();
    let mut v: Vec<u8> = Vec::new();
    let mut pos: usize = 0;
    while pos < bytes.len()
        invariant
            pos <= bytes@.len(),
            bytes@ == str_in.spec_bytes(),
            v@ == bytes@.subrange(0, pos as int),
        decreases bytes@.len() - pos,
    {
        v.push(bytes[pos]);
        pos = pos + 1;
        assert(v@ =~= bytes@.subrange(0, pos as int));
    }
    v.push(0);
    assert(v@ =~= cstr_bytes(str_in));
    v
}

/// A NUL-terminated byte sequence holds at most one text.
pub proof fn lemma_cstr_text_unique(b: Seq<u8>, s: Seq<char>, t: Seq<char>)
    requires
        holds_cstr(b, s),
        holds_cstr(b, t),
    ensures
        s == t,
{
    if s.len() < t.len() {
        assert(t[s.len() as int] == b[s.len() as int] as char);
    } else if t.len() < s.len() {
        assert(s[t.len() as int] == b[t.len() as int] as char);
    }
    assert(s =~= t);
}

/// Encoding 7-bit text that holds no NUL character and reading the bytes back gives the
/// text again, the empty text included.
pub proof fn lemma_cstr_round_trip(s: &str)
    requires
        is_plain_ascii(s@),
    ensures
        has_nul(cstr_bytes(s)),
        holds_cstr(cstr_bytes(s), s@),
        forall|t: Seq<char>| holds_cstr(cstr_bytes(s), t) ==> t == s@,
{
    assert(vstd::utf8::is_ascii_chars(s@));
    vstd::string::is_ascii_spec_bytes(s);
    let b = cstr_bytes(s);
    assert(b[s@.len() as int] == 0);
    assert forall|i: int| 0 <= i < s@.len() implies b[i] != 0 && #[trigger] s@[i] == b[i] as char by {
        assert(b[i] == s@[i] as u8);
    }
    assert forall|t: Seq<char>| holds_cstr(b, t) implies t == s@ by {
        lemma_cstr_text_unique(b, s@, t);
    }
}

} // verus!
