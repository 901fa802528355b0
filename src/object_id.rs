use vstd::prelude::*;
use crate::address::{is_hex_char, is_hex_digit};

verus! {

/// The text form of a record identifier: 24 hexadecimal digits, in either case.
pub open spec fn is_object_id_text(s: Seq<char>) -> bool {
    s.len() == 24 && forall|i: int| 0 <= i < s.len() ==> is_hex_char(#[trigger] s[i])
}

/// A hexadecimal digit with its letter, if any, in lowercase.
pub open spec fn hex_char_lower(c: char) -> char {
    if c == 'A' {
        'a'
    } else if c == 'B' {
        'b'
    } else if c == 'C' {
        'c'
    } else if c == 'D' {
        'd'
    } else if c == 'E' {
        'e'
    } else if c == 'F' {
        'f'
    } else {
        c
    }
}

/// A lowercase hexadecimal digit.
pub open spec fn is_lower_hex_char(c: char) -> bool {
    ('0' <= c && c <= '9') || ('a' <= c && c <= 'f')
}

/// The key under which an identifier text is stored: the same digits, in
/// lowercase. Two texts that differ only in case name the same record.
pub open spec fn object_id_key(s: Seq<char>) -> Seq<char> {
    s.map_values(|c: char| hex_char_lower(c))
}

/// Relies on `String::push`: the character is appended at the end.
#[verifier::external_body]
pub(crate) fn push_char(s: &mut String, c: char)
    ensures
        final(s)@ == old(s)@.push(c),
{
    s.push(c)
}

fn lower_hex_digit(c: char) -> (r: char)
    ensures
        r == hex_char_lower(c),
{
    if c == 'A' {
        'a'
    } else if c == 'B' {
        'b'
    } else if c == 'C' {
        'c'
    } else if c == 'D' {
        'd'
    } else if c == 'E' {
        'e'
    } else if c == 'F' {
        'f'
    } else {
        c
    }
}

/// Reads an identifier text: `None` unless it is 24 hexadecimal digits,
/// else its storage key.
pub fn parse_object_id(s: &str) -> (r: Option<String>)
    ensures
        r is Some <==> is_object_id_text(s@),
        r matches Some(k) ==> k@ == object_id_key(s@),
{
    let n = s.unicode_len();
    if n != 24 {
        return None;
    }
    let mut key = String::new();
    let mut i: usize = 0;
    while i < n
        invariant
            n == s@.len(),
            n == 24,
            i <= n,
            forall|j: int| 0 <= j < i ==> is_hex_char(#[trigger] s@[j]),
            key@ == s@.subrange(0, i as int).map_values(|c: char| hex_char_lower(c)),
        decreases n - i,
    {
        let c = s.get_char(i);
        if !is_hex_digit(c) {
            return None;
        }
        push_char(&mut key, lower_hex_digit(c));
        proof {
            assert(s@.subrange(0, i + 1) =~= s@.subrange(0, i as int).push(c));
            assert(s@.subrange(0, i + 1).map_values(|c: char| hex_char_lower(c)) =~= s@.subrange(
                0,
                i as int,
            ).map_values(|c: char| hex_char_lower(c)).push(hex_char_lower(c)));
        }
        i = i + 1;
    }
    assert(s@.subrange(0, n as int) =~= s@);
    Some(key)
}

/// Relies on bson's `ObjectId::new` (reached through mongodb) for a new
/// identifier from the clock, a per-process random value and a counter, and on
/// `ObjectId::to_hex`, which writes its 12 bytes as 24 lowercase hexadecimal
/// digits.
#[verifier::external_body]
pub(crate) fn new_object_id() -> (r: String)
    ensures
        r@.len() == 24,
        forall|i: int| 0 <= i < r@.len() ==> is_lower_hex_char(#[trigger] r@[i]),
{
    mongodb::bson::oid::ObjectId::new().to_hex()
}

/// A lowercase identifier text is its own storage key.
pub proof fn lemma_lower_id_is_key(s: Seq<char>)
    requires
        s.len() == 24,
        forall|i: int| 0 <= i < s.len() ==> is_lower_hex_char(#[trigger] s[i]),
    ensures
        is_object_id_text(s),
        object_id_key(s) == s,
{
    assert(object_id_key(s) =~= s);
}

} // verus!
