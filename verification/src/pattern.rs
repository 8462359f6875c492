//! The syntax of the text fields of a descriptor.
//!
//! Every text field (a vertex's name and type, an edge's label, an actor's
//! user name) is a run of ASCII letters and digits, at least three of them and
//! at most as many as its column holds: the language of
//! `^[a-zA-Z0-9]{3,255}$`.

use vstd::prelude::*;
use vstd::string::*;

verus! {

/// The fewest characters that a text field may hold.
pub const MIN_LENGTH: usize = 3;

/// The most characters that a vertex's name may hold.
pub const MAX_NAME_LENGTH: usize = 255;

/// The most characters that a vertex's type may hold.
pub const MAX_TYPE_LENGTH: usize = 255;

/// The most characters that an edge's label may hold.
pub const MAX_EDGE_LABEL_LENGTH: usize = 255;

/// The most characters that a user name may hold.
pub const MAX_USERNAME_LENGTH: usize = 255;

/// An ASCII letter or digit.
pub open spec fn alphanumeric(c: char) -> bool {
    ('a' <= c && c <= 'z') || ('A' <= c && c <= 'Z') || ('0' <= c && c <= '9')
}

/// A run of letters and digits, from three up to `max` of them.
pub open spec fn word(s: Seq<char>, max: int) -> bool {
    &&& MIN_LENGTH <= s.len() <= max
    &&& forall|i: int| 0 <= i < s.len() ==> alphanumeric(#[trigger] s[i])
}

/// What a vertex's name must look like.
pub open spec fn name_like(s: Seq<char>) -> bool {
    word(s, MAX_NAME_LENGTH as int)
}

/// What a vertex's type must look like.
pub open spec fn type_like(s: Seq<char>) -> bool {
    word(s, MAX_TYPE_LENGTH as int)
}

/// What an edge's label must look like.
pub open spec fn edge_label_like(s: Seq<char>) -> bool {
    word(s, MAX_EDGE_LABEL_LENGTH as int)
}

/// What a user name must look like.
pub open spec fn username_like(s: Seq<char>) -> bool {
    word(s, MAX_USERNAME_LENGTH as int)
}

/// The byte of an ASCII letter or digit.
fn is_alphanumeric_byte(b: u8) -> (r: bool)
    ensures
        r == alphanumeric(b as char),
{
    (0x61 <= b && b <= 0x7a) || (0x41 <= b && b <= 0x5a) || (0x30 <= b && b <= 0x39)
}

/// Whether `s` is a run of three to `max` letters and digits.
pub fn is_word(s: &str, max: usize) -> (r: bool)
    ensures
        r == word(s@, max as int),
{
    if !s.is_ascii() {
        proof {
            let i = choose|i: int| 0 <= i < s@.len() && !('\0' <= #[trigger] s@[i] <= '\u{7f}');
            assert(!alphanumeric(s@[i]));
        }
        return false;
    }
    proof {
        is_ascii_spec_bytes(s);
    }
    let bytes = s.as_bytes();
    let n = bytes.len();
    if n < MIN_LENGTH || n > max {
        return false;
    }
    let mut i: usize = 0;
    while i < n
        invariant
            n == bytes@.len(),
            n == s@.len(),
            i <= n,
            is_ascii(s),
            forall|k: int| 0 <= k < n ==> bytes@[k] == #[trigger] s@[k] as u8,
            forall|k: int| 0 <= k < i ==> alphanumeric(#[trigger] s@[k]),
        decreases n - i,
    {
        let b = bytes[i];
        assert(b == s@[i as int] as u8);
        assert('\0' <= s@[i as int] <= '\u{7f}');
        assert(b as char == s@[i as int]);
        if !is_alphanumeric_byte(b) {
            return false;
        }
        i += 1;
    }
    true
}

/// Whether `s` may be a vertex's name.
pub fn is_name_like(s: &str) -> (r: bool)
    ensures
        r == name_like(s@),
{
    is_word(s, MAX_NAME_LENGTH)
}

/// Whether `s` may be a vertex's type.
pub fn is_type_like(s: &str) -> (r: bool)
    ensures
        r == type_like(s@),
{
    is_word(s, MAX_TYPE_LENGTH)
}

/// Whether `s` may be an edge's label.
pub fn is_edge_label_like(s: &str) -> (r: bool)
    ensures
        r == edge_label_like(s@),
{
    is_word(s, MAX_EDGE_LABEL_LENGTH)
}

/// Whether `s` may be a user name.
pub fn is_username_like(s: &str) -> (r: bool)
    ensures
        r == username_like(s@),
{
    is_word(s, MAX_USERNAME_LENGTH)
}

/// An accepted text fits its column, which holds 255 characters, and is
/// plain ASCII, so that it takes as many bytes as it has characters.
pub proof fn lemma_word_fits_column(s: Seq<char>, max: int)
    requires
        word(s, max),
        max <= 255,
    ensures
        3 <= s.len() <= 255,
        vstd::utf8::is_ascii_chars(s),
{
    assert forall|i: int| 0 <= i < s.len() implies '\0' <= #[trigger] s[i] <= '\u{7f}' by {
        assert(alphanumeric(s[i]));
    }
}

} // verus!
