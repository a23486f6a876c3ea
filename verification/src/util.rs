//! Small helpers: name validation and file ranges.
use vstd::prelude::*;

use crate::text::{
    chars_of, is_ascii_alphabetic, is_ascii_alphanumeric, spec_is_ascii_alphabetic,
    spec_is_ascii_alphanumeric, spec_split_whitespace, split_whitespace, strings_view,
    to_owned_string,
};

verus! {

/// `c` may stand in a name: an ASCII letter, digit or dash.
pub open spec fn spec_is_alphanum_or_dash(c: char) -> bool {
    spec_is_ascii_alphanumeric(c) || c == '-'
}

/// A valid name: at most `maxsize` characters, beginning with an ASCII
/// letter, and made of ASCII letters, digits and dashes.
pub open spec fn spec_is_valid_name(name: Seq<char>, maxsize: nat) -> bool {
    &&& name.len() <= maxsize
    &&& spec_is_first_char_alphabetic(name)
    &&& forall|i: int| 0 <= i < name.len() ==> spec_is_alphanum_or_dash(#[trigger] name[i])
}

/// `s` begins with an ASCII letter.
pub open spec fn spec_is_first_char_alphabetic(s: Seq<char>) -> bool {
    s.len() > 0 && spec_is_ascii_alphabetic(s[0])
}

fn is_alphanum_or_dash(c: char) -> (r: bool)
    ensures
        r == spec_is_alphanum_or_dash(c),
{
    is_ascii_alphanumeric(c) || c == '-'
}

/// Whether `name` is a valid name of at most `maxsize` characters.
pub fn is_valid_name(name: &str, maxsize: usize) -> (r: bool)
    ensures
        r == spec_is_valid_name(name@, maxsize as nat),
{
    let v = chars_of(name);
    if v.len() > maxsize || !is_first_char_alphabetic(name) {
        return false;
    }
    let mut i: usize = 0;
    while i < v.len()
        invariant
            i <= v@.len(),
            v@ == name@,
            forall|j: int| 0 <= j < i ==> spec_is_alphanum_or_dash(#[trigger] v@[j]),
        decreases v@.len() - i,
    {
        if !is_alphanum_or_dash(v[i]) {
            return false;
        }
        i += 1;
    }
    true
}

/// Whether `s` begins with an ASCII letter.
pub fn is_first_char_alphabetic(s: &str) -> (r: bool)
    ensures
        r == spec_is_first_char_alphabetic(s@),
{
    let v = chars_of(s);
    v.len() > 0 && is_ascii_alphabetic(v[0])
}

/// The first word of a program's output.
pub open spec fn spec_first_word(s: Seq<char>) -> Seq<char> {
    spec_split_whitespace(s)[0]
}

/// The first word of the output of a checksum program: the checksum.
pub fn first_word(s: &str) -> (r: String)
    requires
        spec_split_whitespace(s@).len() > 0,
    ensures
        r@ == spec_first_word(s@),
{
    let v = split_whitespace(s);
    assert(strings_view(v@)[0] == v@[0]@);
    to_owned_string(v[0].as_str())
}

/// A part of a file to read.
#[derive(Debug, Clone, Copy, PartialEq, Eq, Structural)]
pub enum FileRange {
    /// The whole file.
    All,
    /// Everything from an offset on.
    Offset(usize),
    /// `len` bytes from `offset` on.
    Range { offset: usize, len: usize },
}

impl FileRange {
    /// Where reading starts.
    pub fn offset(&self) -> (r: usize)
        ensures
            r == match *self {
                FileRange::All => 0,
                FileRange::Offset(n) => n,
                FileRange::Range { offset, len } => offset,
            },
    {
        match *self {
            FileRange::All => 0,
            FileRange::Offset(n) => n,
            FileRange::Range { offset, .. } => offset,
        }
    }

    /// How many bytes are read, when limited.
    pub fn limit(&self) -> (r: Option<usize>)
        ensures
            r == match *self {
                FileRange::Range { offset, len } => Some(len),
                _ => None::<usize>,
            },
    {
        match *self {
            FileRange::Range { len, .. } => Some(len),
            _ => None,
        }
    }
}

} // verus!
