//! Character and string utilities shared by the parsers of the library.
//!
//! Strings are modelled by their sequence of characters (`s@`). Every
//! operation here states its result over that model.
use vstd::prelude::*;

verus! {

// ---------------------------------------------------------------------------
// Character classes
// ---------------------------------------------------------------------------

/// Unicode `White_Space` property, as used by `char::is_whitespace`.
pub open spec fn spec_is_whitespace(c: char) -> bool {
    let u = c as u32;
    ||| 0x09 <= u <= 0x0D
    ||| u == 0x20
    ||| u == 0x85
    ||| u == 0xA0
    ||| u == 0x1680
    ||| 0x2000 <= u <= 0x200A
    ||| u == 0x2028
    ||| u == 0x2029
    ||| u == 0x202F
    ||| u == 0x205F
    ||| u == 0x3000
}

/// Returns `true` for the characters with the Unicode `White_Space` property.
#[verifier::when_used_as_spec(spec_is_whitespace)]
pub fn is_whitespace(c: char) -> (r: bool)
    ensures
        r == spec_is_whitespace(c),
{
    let u = c as u32;
    (0x09 <= u && u <= 0x0D) || u == 0x20 || u == 0x85 || u == 0xA0 || u == 0x1680 || (0x2000
        <= u && u <= 0x200A) || u == 0x2028 || u == 0x2029 || u == 0x202F || u == 0x205F || u
        == 0x3000
}

pub open spec fn spec_is_ascii(c: char) -> bool {
    (c as u32) <= 0x7F
}

/// Returns `true` for characters in the 7-bit ASCII range.
#[verifier::when_used_as_spec(spec_is_ascii)]
pub fn is_ascii(c: char) -> (r: bool)
    ensures
        r == spec_is_ascii(c),
{
    (c as u32) <= 0x7F
}

pub open spec fn spec_is_ascii_digit(c: char) -> bool {
    '0' <= c <= '9'
}

/// Returns `true` for `'0'..='9'`.
#[verifier::when_used_as_spec(spec_is_ascii_digit)]
pub fn is_ascii_digit(c: char) -> (r: bool)
    ensures
        r == spec_is_ascii_digit(c),
{
    '0' <= c && c <= '9'
}

pub open spec fn spec_is_ascii_alphabetic(c: char) -> bool {
    ('a' <= c <= 'z') || ('A' <= c <= 'Z')
}

/// Returns `true` for ASCII letters.
#[verifier::when_used_as_spec(spec_is_ascii_alphabetic)]
pub fn is_ascii_alphabetic(c: char) -> (r: bool)
    ensures
        r == spec_is_ascii_alphabetic(c),
{
    ('a' <= c && c <= 'z') || ('A' <= c && c <= 'Z')
}

pub open spec fn spec_is_ascii_alphanumeric(c: char) -> bool {
    spec_is_ascii_alphabetic(c) || spec_is_ascii_digit(c)
}

/// Returns `true` for ASCII letters and digits.
#[verifier::when_used_as_spec(spec_is_ascii_alphanumeric)]
pub fn is_ascii_alphanumeric(c: char) -> (r: bool)
    ensures
        r == spec_is_ascii_alphanumeric(c),
{
    is_ascii_alphabetic(c) || is_ascii_digit(c)
}

/// Value of a hexadecimal digit (either case); meaningless for other characters.
pub open spec fn hex_digit_value(c: char) -> nat {
    if '0' <= c <= '9' {
        (c as u32 - '0' as u32) as nat
    } else if 'a' <= c <= 'f' {
        (c as u32 - 'a' as u32 + 10) as nat
    } else {
        (c as u32 - 'A' as u32 + 10) as nat
    }
}

pub open spec fn is_hex_digit(c: char) -> bool {
    ('0' <= c <= '9') || ('a' <= c <= 'f') || ('A' <= c <= 'F')
}

/// Lower-case hexadecimal digit for `d < 16`.
pub open spec fn hex_char(d: nat) -> char {
    if d < 10 {
        ((d + '0' as u32) as u32) as char
    } else {
        ((d - 10 + 'a' as u32) as u32) as char
    }
}

/// The lower-case digit of a value below 16 is a hexadecimal digit, not a
/// space, `'/'`, `'+'` or `'r'`, and has that value.
pub proof fn lemma_hex_char(n: nat)
    requires
        n < 16,
    ensures
        is_hex_digit(hex_char(n)),
        hex_digit_value(hex_char(n)) == n,
        hex_char(n) != ' ' && hex_char(n) != '\t' && hex_char(n) != '\r' && hex_char(n) != '\n',
        hex_char(n) != '/' && hex_char(n) != '+' && hex_char(n) != 'r',
{
}

/// Decimal digit for `d < 10`.
pub open spec fn digit_char(d: nat) -> char {
    ((d + '0' as u32) as u32) as char
}

// ---------------------------------------------------------------------------
// Conversions between strings and character vectors
// ---------------------------------------------------------------------------

/// The characters of `s`, in order.
pub fn chars_of(s: &str) -> (v: Vec<char>)
    ensures
        v@ == s@,
{
    let mut v: Vec<char> = Vec::new();
    for c in it: s.chars()
        invariant
            v@ == it.seq().take(it.index() as int),
            it.seq() == s@,
    {
        v.push(c);
    }
    v
}

/// `String::push`: appends the character `c` to `s`.
#[verifier::external_body]
pub(crate) fn push_char(s: &mut String, c: char)
    ensures
        final(s)@ == old(s)@.push(c),
{
    s.push(c);
}

/// `String::push_str`: appends the characters of `t` to `s`.
#[verifier::external_body]
pub(crate) fn push_str(s: &mut String, t: &str)
    ensures
        final(s)@ == old(s)@ + t@,
{
    s.push_str(t);
}

/// A new `String` holding the characters `v[from..to]`.
pub fn string_from_range(v: &Vec<char>, from: usize, to: usize) -> (s: String)
    requires
        from <= to <= v.len(),
    ensures
        s@ == v@.subrange(from as int, to as int),
{
    let mut s = String::new();
    let mut i = from;
    while i < to
        invariant
            from <= i <= to <= v.len(),
            s@ == v@.subrange(from as int, i as int),
        decreases to - i,
    {
        push_char(&mut s, v[i]);
        assert(v@.subrange(from as int, i + 1) == v@.subrange(from as int, i as int).push(v@[i as int]));
        i += 1;
    }
    s
}

/// A new `String` holding the characters of `v`.
pub fn string_from_chars(v: &Vec<char>) -> (s: String)
    ensures
        s@ == v@,
{
    let s = string_from_range(v, 0, v.len());
    assert(v@.subrange(0, v@.len() as int) == v@);
    s
}

/// An owned copy of `s`.
pub fn to_owned_string(s: &str) -> (r: String)
    ensures
        r@ == s@,
{
    s.to_owned()
}

/// `a@ == b@`, decided character by character.
pub fn str_eq(a: &str, b: &str) -> (r: bool)
    ensures
        r == (a@ == b@),
{
    let va = chars_of(a);
    let vb = chars_of(b);
    chars_eq(&va, &vb)
}

/// `a@ == b@` for character vectors.
pub fn chars_eq(va: &Vec<char>, vb: &Vec<char>) -> (r: bool)
    ensures
        r == (va@ == vb@),
{
    if va.len() != vb.len() {
        return false;
    }
    let mut i: usize = 0;
    while i < va.len()
        invariant
            va.len() == vb.len(),
            i <= va.len(),
            forall|j: int| 0 <= j < i ==> va@[j] == vb@[j],
        decreases va.len() - i,
    {
        if va[i] != vb[i] {
            return false;
        }
        i += 1;
    }
    assert(va@ =~= vb@);
    true
}

// ---------------------------------------------------------------------------
// Prefixes, suffixes, searching
// ---------------------------------------------------------------------------

pub open spec fn spec_starts_with(s: Seq<char>, prefix: Seq<char>) -> bool {
    prefix.len() <= s.len() && s.subrange(0, prefix.len() as int) == prefix
}

pub open spec fn spec_ends_with(s: Seq<char>, suffix: Seq<char>) -> bool {
    suffix.len() <= s.len() && s.subrange(s.len() - suffix.len(), s.len() as int) == suffix
}

/// `true` when `prefix` is a prefix of `s`.
pub fn starts_with(s: &str, prefix: &str) -> (r: bool)
    ensures
        r == spec_starts_with(s@, prefix@),
{
    let vs = chars_of(s);
    let vp = chars_of(prefix);
    chars_starts_with(&vs, &vp)
}

/// `true` when `prefix` is a prefix of `s`.
pub fn chars_starts_with(vs: &Vec<char>, vp: &Vec<char>) -> (r: bool)
    ensures
        r == spec_starts_with(vs@, vp@),
{
    if vp.len() > vs.len() {
        return false;
    }
    let mut i: usize = 0;
    while i < vp.len()
        invariant
            vp.len() <= vs.len(),
            i <= vp.len(),
            forall|j: int| 0 <= j < i ==> vs@[j] == vp@[j],
        decreases vp.len() - i,
    {
        if vs[i] != vp[i] {
            assert(vs@.subrange(0, vp@.len() as int)[i as int] != vp@[i as int]);
            return false;
        }
        i += 1;
    }
    assert(vs@.subrange(0, vp@.len() as int) =~= vp@);
    true
}

/// `true` when `suffix` is a suffix of `s`.
pub fn chars_ends_with(vs: &Vec<char>, vp: &Vec<char>) -> (r: bool)
    ensures
        r == spec_ends_with(vs@, vp@),
{
    if vp.len() > vs.len() {
        return false;
    }
    let off = vs.len() - vp.len();
    let mut i: usize = 0;
    while i < vp.len()
        invariant
            vp.len() <= vs.len(),
            off == vs.len() - vp.len(),
            i <= vp.len(),
            forall|j: int| 0 <= j < i ==> vs@[off + j] == vp@[j],
        decreases vp.len() - i,
    {
        if vs[off + i] != vp[i] {
            assert(vs@.subrange(off as int, vs@.len() as int)[i as int] != vp@[i as int]);
            return false;
        }
        i += 1;
    }
    assert(vs@.subrange(off as int, vs@.len() as int) =~= vp@);
    true
}

/// `true` when `suffix` is a suffix of `s`.
pub fn ends_with(s: &str, suffix: &str) -> (r: bool)
    ensures
        r == spec_ends_with(s@, suffix@),
{
    let vs = chars_of(s);
    let vp = chars_of(suffix);
    chars_ends_with(&vs, &vp)
}

/// Index of the first occurrence of `c` in `s`, if any.
pub open spec fn spec_find_char(s: Seq<char>, c: char) -> Option<int> {
    if exists|i: int| 0 <= i < s.len() && s[i] == c {
        Some(choose|i: int| 0 <= i < s.len() && s[i] == c && forall|j: int| 0 <= j < i ==> s[j] != c)
    } else {
        None
    }
}

/// Position of the first `c` in `v`.
pub fn find_char(v: &Vec<char>, c: char) -> (r: Option<usize>)
    ensures
        match r {
            Some(i) => i < v@.len() && v@[i as int] == c && forall|j: int| 0 <= j < i ==> v@[j] != c,
            None => forall|j: int| 0 <= j < v@.len() ==> v@[j] != c,
        },
        r matches Some(i) ==> spec_find_char(v@, c) == Some(i as int),
        r is None ==> spec_find_char(v@, c) is None,
{
    let mut i: usize = 0;
    while i < v.len()
        invariant
            i <= v.len(),
            forall|j: int| 0 <= j < i ==> v@[j] != c,
        decreases v.len() - i,
    {
        if v[i] == c {
            proof {
                let k = choose|k: int| 0 <= k < v@.len() && v@[k] == c && forall|j: int| 0 <= j < k ==> v@[j] != c;
                assert(0 <= k < v@.len() && v@[k] == c && forall|j: int| 0 <= j < k ==> v@[j] != c);
                if k < i {
                } else if k > i {
                    assert(v@[i as int] != c);
                }
            }
            return Some(i);
        }
        i += 1;
    }
    None
}

/// `true` when `c` occurs in `s`.
pub fn contains_char(s: &str, c: char) -> (r: bool)
    ensures
        r == s@.contains(c),
{
    let v = chars_of(s);
    match find_char(&v, c) {
        Some(i) => true,
        None => false,
    }
}

// ---------------------------------------------------------------------------
// Trimming
// ---------------------------------------------------------------------------

/// `s` without its leading whitespace.
pub open spec fn spec_trim_start(s: Seq<char>) -> Seq<char>
    decreases s.len(),
{
    if s.len() > 0 && spec_is_whitespace(s[0]) {
        spec_trim_start(s.drop_first())
    } else {
        s
    }
}

/// `s` without its trailing whitespace.
pub open spec fn spec_trim_end(s: Seq<char>) -> Seq<char>
    decreases s.len(),
{
    if s.len() > 0 && spec_is_whitespace(s.last()) {
        spec_trim_end(s.drop_last())
    } else {
        s
    }
}

/// `s` without leading and trailing whitespace (`str::trim`).
pub open spec fn spec_trim(s: Seq<char>) -> Seq<char> {
    spec_trim_end(spec_trim_start(s))
}

/// Index of the first non-whitespace character at or after `from`.
fn skip_whitespace(v: &Vec<char>, from: usize) -> (i: usize)
    requires
        from <= v.len(),
    ensures
        from <= i <= v.len(),
        spec_trim_start(v@.skip(from as int)) == v@.skip(i as int),
        forall|j: int| from <= j < i ==> spec_is_whitespace(v@[j]),
        i < v.len() ==> !spec_is_whitespace(v@[i as int]),
{
    let mut i = from;
    while i < v.len() && is_whitespace(v[i])
        invariant
            from <= i <= v.len(),
            spec_trim_start(v@.skip(from as int)) == spec_trim_start(v@.skip(i as int)),
            forall|j: int| from <= j < i ==> spec_is_whitespace(v@[j]),
        decreases v.len() - i,
    {
        assert(v@.skip(i as int).drop_first() =~= v@.skip(i + 1));
        i += 1;
    }
    i
}

/// The bounds `[start, end)` of `spec_trim(v@)` inside `v`.
pub fn trim_bounds(v: &Vec<char>) -> (r: (usize, usize))
    ensures
        r.0 <= r.1 <= v.len(),
        v@.subrange(r.0 as int, r.1 as int) == spec_trim(v@),
{
    let start = skip_whitespace(v, 0);
    assert(v@.skip(0) =~= v@);
    let mut end = v.len();
    while end > start && is_whitespace(v[end - 1])
        invariant
            start <= end <= v.len(),
            spec_trim_end(v@.skip(start as int)) == spec_trim_end(v@.subrange(start as int, end as int)),
        decreases end,
    {
        assert(v@.subrange(start as int, end as int).drop_last() =~= v@.subrange(start as int, end - 1));
        end -= 1;
    }
    proof {
        if end == v.len() {
            assert(v@.subrange(start as int, end as int) =~= v@.skip(start as int));
        }
        assert(v@.skip(start as int) =~= v@.subrange(start as int, v.len() as int));
    }
    (start, end)
}

/// `str::trim`: `s` without leading and trailing whitespace.
pub fn trim(s: &str) -> (r: String)
    ensures
        r@ == spec_trim(s@),
{
    let v = chars_of(s);
    let (a, b) = trim_bounds(&v);
    string_from_range(&v, a, b)
}

/// `s` with every leading `c` removed (`str::trim_start_matches` with a character).
pub open spec fn spec_trim_start_char(s: Seq<char>, c: char) -> Seq<char>
    decreases s.len(),
{
    if s.len() > 0 && s[0] == c {
        spec_trim_start_char(s.drop_first(), c)
    } else {
        s
    }
}

/// Index of the first character at or after `from` that differs from `c`.
pub fn skip_char(v: &Vec<char>, from: usize, c: char) -> (i: usize)
    requires
        from <= v.len(),
    ensures
        from <= i <= v.len(),
        spec_trim_start_char(v@.skip(from as int), c) == v@.skip(i as int),
{
    let mut i = from;
    while i < v.len() && v[i] == c
        invariant
            from <= i <= v.len(),
            spec_trim_start_char(v@.skip(from as int), c) == spec_trim_start_char(v@.skip(i as int), c),
        decreases v.len() - i,
    {
        assert(v@.skip(i as int).drop_first() =~= v@.skip(i + 1));
        i += 1;
    }
    i
}

// ---------------------------------------------------------------------------
// Splitting
// ---------------------------------------------------------------------------

/// Left fold behind `split_whitespace`: the words completed so far and the
/// word under construction.
pub open spec fn ws_fold(s: Seq<char>) -> (Seq<Seq<char>>, Seq<char>)
    decreases s.len(),
{
    if s.len() == 0 {
        (seq![], seq![])
    } else {
        let (words, cur) = ws_fold(s.drop_last());
        let c = s.last();
        if spec_is_whitespace(c) {
            if cur.len() > 0 {
                (words.push(cur), seq![])
            } else {
                (words, cur)
            }
        } else {
            (words, cur.push(c))
        }
    }
}

/// The maximal runs of non-whitespace characters of `s` (`str::split_whitespace`).
pub open spec fn spec_split_whitespace(s: Seq<char>) -> Seq<Seq<char>> {
    let (words, cur) = ws_fold(s);
    if cur.len() > 0 {
        words.push(cur)
    } else {
        words
    }
}

/// The views of a vector of strings.
pub open spec fn strings_view(v: Seq<String>) -> Seq<Seq<char>> {
    v.map_values(|s: String| s@)
}

/// `str::split_whitespace`, collected.
pub fn split_whitespace(s: &str) -> (r: Vec<String>)
    ensures
        strings_view(r@) == spec_split_whitespace(s@),
{
    let v = chars_of(s);
    let mut words: Vec<String> = Vec::new();
    let mut cur = String::new();
    let mut i: usize = 0;
    while i < v.len()
        invariant
            i <= v.len(),
            v@ == s@,
            (strings_view(words@), cur@) == ws_fold(v@.take(i as int)),
        decreases v.len() - i,
    {
        let c = v[i];
        assert(v@.take(i + 1).drop_last() =~= v@.take(i as int));
        if is_whitespace(c) {
            if !cur.as_str().is_empty() {
                let ghost before = words@;
                let w = cur;
                cur = String::new();
                words.push(w);
                assert(strings_view(words@) =~= strings_view(before).push(w@));
            }
        } else {
            push_char(&mut cur, c);
        }
        i += 1;
    }
    assert(v@.take(v@.len() as int) =~= v@);
    if !cur.as_str().is_empty() {
        let ghost before = words@;
        words.push(cur);
        assert(strings_view(words@) =~= strings_view(before).push(cur@));
    }
    words
}

/// Left fold behind `split`: the pieces completed so far and the piece under construction.
pub open spec fn split_fold(s: Seq<char>, sep: char) -> (Seq<Seq<char>>, Seq<char>)
    decreases s.len(),
{
    if s.len() == 0 {
        (seq![], seq![])
    } else {
        let (pieces, cur) = split_fold(s.drop_last(), sep);
        let c = s.last();
        if c == sep {
            (pieces.push(cur), seq![])
        } else {
            (pieces, cur.push(c))
        }
    }
}

/// The pieces of `s` between occurrences of `sep` (`str::split` with a character).
pub open spec fn spec_split(s: Seq<char>, sep: char) -> Seq<Seq<char>> {
    let (pieces, cur) = split_fold(s, sep);
    pieces.push(cur)
}

/// `str::split` with a character separator, collected.
pub fn split_char(s: &str, sep: char) -> (r: Vec<String>)
    ensures
        strings_view(r@) == spec_split(s@, sep),
{
    let v = chars_of(s);
    let mut pieces: Vec<String> = Vec::new();
    let mut cur = String::new();
    let mut i: usize = 0;
    while i < v.len()
        invariant
            i <= v.len(),
            v@ == s@,
            (strings_view(pieces@), cur@) == split_fold(v@.take(i as int), sep),
        decreases v.len() - i,
    {
        let c = v[i];
        assert(v@.take(i + 1).drop_last() =~= v@.take(i as int));
        if c == sep {
            let ghost before = pieces@;
            let w = cur;
            cur = String::new();
            pieces.push(w);
            assert(strings_view(pieces@) =~= strings_view(before).push(w@));
        } else {
            push_char(&mut cur, c);
        }
        i += 1;
    }
    assert(v@.take(v@.len() as int) =~= v@);
    let ghost before = pieces@;
    pieces.push(cur);
    assert(strings_view(pieces@) =~= strings_view(before).push(cur@));
    pieces
}

/// `str::splitn(2, sep)`: the text before the first `sep` and, if `sep`
/// occurs, the text after it.
pub open spec fn spec_split_once(s: Seq<char>, sep: char) -> (Seq<char>, Option<Seq<char>>) {
    match spec_find_char(s, sep) {
        Some(i) => (s.take(i), Some(s.skip(i + 1))),
        None => (s, None),
    }
}

/// `str::splitn(2, sep)`, as a pair.
pub fn split_once(s: &str, sep: char) -> (r: (String, Option<String>))
    ensures
        r.0@ == spec_split_once(s@, sep).0,
        match r.1 {
            Some(t) => spec_split_once(s@, sep).1 == Some(t@),
            None => spec_split_once(s@, sep).1 is None,
        },
{
    let v = chars_of(s);
    match find_char(&v, sep) {
        Some(i) => {
            let a = string_from_range(&v, 0, i);
            let b = string_from_range(&v, i + 1, v.len());
            assert(v@.take(i as int) =~= v@.subrange(0, i as int));
            assert(v@.skip(i + 1) =~= v@.subrange(i + 1, v@.len() as int));
            (a, Some(b))
        },
        None => {
            let a = string_from_chars(&v);
            (a, None)
        },
    }
}

// ---------------------------------------------------------------------------
// Lines
// ---------------------------------------------------------------------------

/// `line` without one trailing `'\r'`.
pub open spec fn strip_cr(line: Seq<char>) -> Seq<char> {
    if line.len() > 0 && line.last() == '\r' {
        line.drop_last()
    } else {
        line
    }
}

/// `str::lines`: the text between `'\n'` characters with a `'\r'` before
/// each `'\n'` removed; a final line ending adds no empty line.
pub open spec fn spec_lines(s: Seq<char>) -> Seq<Seq<char>> {
    let (pieces, last) = split_fold(s, '\n');
    let ended = pieces.map_values(|p: Seq<char>| strip_cr(p));
    if last.len() > 0 {
        ended.push(last)
    } else {
        ended
    }
}

/// `str::lines`, collected.
pub fn lines(s: &str) -> (r: Vec<String>)
    ensures
        strings_view(r@) == spec_lines(s@),
{
    let v = chars_of(s);
    let mut out: Vec<String> = Vec::new();
    let mut cur = String::new();
    let mut i: usize = 0;
    while i < v.len()
        invariant
            i <= v.len(),
            v@ == s@,
            strings_view(out@) == split_fold(v@.take(i as int), '\n').0.map_values(
                |p: Seq<char>| strip_cr(p),
            ),
            cur@ == split_fold(v@.take(i as int), '\n').1,
        decreases v.len() - i,
    {
        let c = v[i];
        assert(v@.take(i + 1).drop_last() =~= v@.take(i as int));
        if c == '\n' {
            let ghost before = out@;
            let ghost piece = cur@;
            let stripped = strip_trailing_cr(&cur);
            cur = String::new();
            out.push(stripped);
            assert(strings_view(out@) =~= strings_view(before).push(strip_cr(piece)));
            assert(split_fold(v@.take(i + 1), '\n').0.map_values(|p: Seq<char>| strip_cr(p))
                =~= split_fold(v@.take(i as int), '\n').0.map_values(|p: Seq<char>| strip_cr(p)).push(strip_cr(piece)));
        } else {
            push_char(&mut cur, c);
        }
        i += 1;
    }
    assert(v@.take(v@.len() as int) =~= v@);
    if !cur.as_str().is_empty() {
        let ghost before = out@;
        out.push(cur);
        assert(strings_view(out@) =~= strings_view(before).push(cur@));
    }
    out
}

/// `s` without one trailing `'\r'`.
fn strip_trailing_cr(s: &String) -> (r: String)
    ensures
        r@ == strip_cr(s@),
{
    let v = chars_of(s.as_str());
    if v.len() > 0 && v[v.len() - 1] == '\r' {
        let r = string_from_range(&v, 0, v.len() - 1);
        assert(v@.subrange(0, v@.len() - 1) =~= v@.drop_last());
        r
    } else {
        string_from_chars(&v)
    }
}

// ---------------------------------------------------------------------------
// Numbers
// ---------------------------------------------------------------------------

/// `c` is a digit of the given radix (10 or 16).
pub open spec fn is_radix_digit(c: char, radix: nat) -> bool {
    if radix == 16 {
        is_hex_digit(c)
    } else {
        spec_is_ascii_digit(c)
    }
}

/// The number written by the digits `s` in base `radix`.
pub open spec fn digits_value(s: Seq<char>, radix: nat) -> nat
    decreases s.len(),
{
    if s.len() == 0 {
        0
    } else {
        digits_value(s.drop_last(), radix) * radix + hex_digit_value(s.last())
    }
}

/// All characters of `s` are digits of `radix`.
pub open spec fn all_radix_digits(s: Seq<char>, radix: nat) -> bool {
    forall|i: int| 0 <= i < s.len() ==> is_radix_digit(#[trigger] s[i], radix)
}

/// The digits of an unsigned number: `s` without one leading `'+'`.
pub open spec fn unsigned_digits(s: Seq<char>) -> Seq<char> {
    if s.len() > 0 && s[0] == '+' {
        s.drop_first()
    } else {
        s
    }
}

/// Parsing of an unsigned number no larger than `max` in base `radix`, as
/// `str::parse` (radix 10) and `from_str_radix` (radix 16) do it: an optional
/// `'+'`, then at least one digit and nothing else.
pub open spec fn spec_parse_unsigned(s: Seq<char>, radix: nat, max: nat) -> Option<nat> {
    let d = unsigned_digits(s);
    if d.len() > 0 && all_radix_digits(d, radix) && digits_value(d, radix) <= max {
        Some(digits_value(d, radix))
    } else {
        None
    }
}

proof fn lemma_digits_value_prefix(s: Seq<char>, k: int, radix: nat)
    requires
        0 <= k <= s.len(),
        radix == 10 || radix == 16,
    ensures
        digits_value(s.take(k), radix) <= digits_value(s, radix),
    decreases s.len(),
{
    if k < s.len() {
        assert(s.drop_last().take(k) =~= s.take(k));
        lemma_digits_value_prefix(s.drop_last(), k, radix);
    } else {
        assert(s.take(k) =~= s);
    }
}

/// Parses `s` as an unsigned number in base `radix` (10 or 16) that is at most `max`.
pub fn parse_unsigned(s: &str, radix: u64, max: u64) -> (r: Option<u64>)
    requires
        radix == 10 || radix == 16,
    ensures
        match r {
            Some(n) => spec_parse_unsigned(s@, radix as nat, max as nat) == Some(n as nat),
            None => spec_parse_unsigned(s@, radix as nat, max as nat) is None,
        },
{
    let v = chars_of(s);
    let mut start: usize = 0;
    if v.len() > 0 && v[0] == '+' {
        start = 1;
    }
    let ghost d = unsigned_digits(v@);
    assert(d =~= v@.skip(start as int));
    if start == v.len() {
        return None;
    }
    let mut acc: u64 = 0;
    let mut i = start;
    while i < v.len()
        invariant
            start <= i <= v.len(),
            d == v@.skip(start as int),
            d == unsigned_digits(s@),
            v@ == s@,
            radix == 10 || radix == 16,
            acc <= max,
            acc as nat == digits_value(v@.subrange(start as int, i as int), radix as nat),
            forall|j: int| start <= j < i ==> is_radix_digit(#[trigger] v@[j], radix as nat),
        decreases v.len() - i,
    {
        let c = v[i];
        let ok = if radix == 16 {
            ('0' <= c && c <= '9') || ('a' <= c && c <= 'f') || ('A' <= c && c <= 'F')
        } else {
            '0' <= c && c <= '9'
        };
        if !ok {
            assert(!is_radix_digit(d[i - start], radix as nat));
            return None;
        }
        let dv: u64 = if '0' <= c && c <= '9' {
            (c as u32 - '0' as u32) as u64
        } else if 'a' <= c && c <= 'f' {
            (c as u32 - 'a' as u32 + 10) as u64
        } else {
            (c as u32 - 'A' as u32 + 10) as u64
        };
        assert(acc as int * radix as int <= 0xffff_ffff_ffff_ffff * 16) by (nonlinear_arith)
            requires
                acc <= 0xffff_ffff_ffff_ffffu64,
                radix <= 16,
        ;
        let next: u128 = acc as u128 * radix as u128 + dv as u128;
        assert(v@.subrange(start as int, i + 1).drop_last() =~= v@.subrange(start as int, i as int));
        if next > max as u128 {
            proof {
                assert(d.take(i + 1 - start) =~= v@.subrange(start as int, i + 1));
                if all_radix_digits(d, radix as nat) {
                    lemma_digits_value_prefix(d, i + 1 - start, radix as nat);
                }
            }
            return None;
        }
        acc = next as u64;
        i += 1;
    }
    assert(v@.subrange(start as int, v@.len() as int) =~= d);
    Some(acc)
}

/// Decimal digit character for `d < 10`.
fn digit_to_char(d: u64) -> (c: char)
    requires
        d < 16,
    ensures
        c == hex_char(d as nat),
{
    if d < 10 {
        ((d as u8) + 48u8) as char
    } else {
        ((d as u8) + 87u8) as char
    }
}

/// Decimal representation of `n`, without leading zeros.
pub open spec fn decimal(n: nat) -> Seq<char>
    decreases n,
{
    if n < 10 {
        seq![hex_char(n)]
    } else {
        decimal(n / 10).push(hex_char(n % 10))
    }
}

/// Lower-case hexadecimal representation of `n`, without leading zeros.
pub open spec fn hexadecimal(n: nat) -> Seq<char>
    decreases n,
{
    if n < 16 {
        seq![hex_char(n)]
    } else {
        hexadecimal(n / 16).push(hex_char(n % 16))
    }
}

/// `s` padded on the left with `'0'` up to `width` characters.
pub open spec fn zero_pad(s: Seq<char>, width: nat) -> Seq<char> {
    if s.len() >= width {
        s
    } else {
        Seq::new((width - s.len()) as nat, |i: int| '0') + s
    }
}

/// `n.to_string()`: the decimal representation of `n`.
pub fn decimal_string(n: u64) -> (s: String)
    ensures
        s@ == decimal(n as nat),
    decreases n,
{
    if n < 10 {
        let mut s = String::new();
        push_char(&mut s, digit_to_char(n));
        assert(s@ =~= seq![hex_char(n as nat)]);
        s
    } else {
        let mut s = decimal_string(n / 10);
        push_char(&mut s, digit_to_char(n % 10));
        s
    }
}

/// Lower-case hexadecimal representation of `n`, without leading zeros.
pub fn hex_string(n: u64) -> (s: String)
    ensures
        s@ == hexadecimal(n as nat),
    decreases n,
{
    if n < 16 {
        let mut s = String::new();
        push_char(&mut s, digit_to_char(n));
        assert(s@ =~= seq![hex_char(n as nat)]);
        s
    } else {
        let mut s = hex_string(n / 16);
        push_char(&mut s, digit_to_char(n % 16));
        s
    }
}

/// `format!("{:0w$x}", n)`: lower-case hexadecimal padded with zeros to `width`.
pub fn hex_string_padded(n: u64, width: usize) -> (s: String)
    ensures
        s@ == zero_pad(hexadecimal(n as nat), width as nat),
{
    let h = hex_string(n);
    let hv = chars_of(h.as_str());
    if hv.len() >= width {
        return h;
    }
    let mut s = String::new();
    let mut k: usize = 0;
    let pad = width - hv.len();
    while k < pad
        invariant
            k <= pad,
            s@ == Seq::new(k as nat, |i: int| '0'),
        decreases pad - k,
    {
        push_char(&mut s, '0');
        assert(s@ =~= Seq::new((k + 1) as nat, |i: int| '0'));
        k += 1;
    }
    push_str(&mut s, h.as_str());
    s
}

// ---------------------------------------------------------------------------
// Facts about splitting and about decimal text
// ---------------------------------------------------------------------------

/// Appending text free of `sep` extends the piece under construction.
pub proof fn lemma_split_fold_append(s: Seq<char>, t: Seq<char>, sep: char)
    requires
        !t.contains(sep),
    ensures
        split_fold(s + t, sep) == (split_fold(s, sep).0, split_fold(s, sep).1 + t),
    decreases t.len(),
{
    if t.len() == 0 {
        assert(s + t =~= s);
        assert(split_fold(s, sep).1 + t =~= split_fold(s, sep).1);
    } else {
        let t0 = t.drop_last();
        assert(!t0.contains(sep)) by {
            if t0.contains(sep) {
                let i = choose|i: int| 0 <= i < t0.len() && t0[i] == sep;
                assert(t[i] == sep);
            }
        }
        lemma_split_fold_append(s, t0, sep);
        assert((s + t).drop_last() =~= s + t0);
        assert(t.last() != sep) by {
            assert(t[t.len() - 1] == t.last());
        }
        assert(split_fold(s, sep).1 + t =~= (split_fold(s, sep).1 + t0).push(t.last()));
    }
}

/// Three pieces free of `sep`, joined by `sep`, split back into the pieces.
pub proof fn lemma_split_three(a: Seq<char>, b: Seq<char>, c: Seq<char>, sep: char)
    requires
        !a.contains(sep),
        !b.contains(sep),
        !c.contains(sep),
    ensures
        spec_split(a + seq![sep] + b + seq![sep] + c, sep) == seq![a, b, c],
{
    lemma_split_fold_plain(a, sep);
    lemma_split_fold_sep(a, sep);
    assert(a.push(sep) =~= a + seq![sep]);
    lemma_split_fold_append(a + seq![sep], b, sep);
    lemma_split_fold_sep(a + seq![sep] + b, sep);
    assert((a + seq![sep] + b).push(sep) =~= a + seq![sep] + b + seq![sep]);
    assert(Seq::<char>::empty() + b =~= b);
    lemma_split_fold_append(a + seq![sep] + b + seq![sep], c, sep);
    assert(Seq::<char>::empty() + c =~= c);
    assert(seq![a].push(b).push(c) =~= seq![a, b, c]);
}

/// A piece free of `sep` after a separator is one more piece.
pub proof fn lemma_split_push(a: Seq<char>, b: Seq<char>, sep: char)
    requires
        !b.contains(sep),
    ensures
        spec_split(a.push(sep) + b, sep) == spec_split(a, sep).push(b),
{
    lemma_split_fold_sep(a, sep);
    lemma_split_fold_append(a.push(sep), b, sep);
    assert(Seq::<char>::empty() + b =~= b);
}

/// A separator closes the piece under construction.
pub proof fn lemma_split_fold_sep(s: Seq<char>, sep: char)
    ensures
        split_fold(s.push(sep), sep) == (split_fold(s, sep).0.push(split_fold(s, sep).1), Seq::<char>::empty()),
{
    assert(s.push(sep).drop_last() =~= s);
}

/// Text free of `sep` is a single piece.
pub proof fn lemma_split_fold_plain(t: Seq<char>, sep: char)
    requires
        !t.contains(sep),
    ensures
        split_fold(t, sep) == (Seq::<Seq<char>>::empty(), t),
{
    lemma_split_fold_append(Seq::empty(), t, sep);
    assert(Seq::<char>::empty() + t =~= t);
    assert(Seq::<char>::empty() + t =~= t);
}

/// `name`, `sep` and `rest`, with no `sep` in `name`, split once at that `sep`.
pub proof fn lemma_split_once_at(name: Seq<char>, rest: Seq<char>, sep: char)
    requires
        !name.contains(sep),
    ensures
        spec_split_once(name + seq![sep] + rest, sep) == (name, Some(rest)),
{
    let s = name + seq![sep] + rest;
    assert(s[name.len() as int] == sep);
    assert forall|j: int| 0 <= j < name.len() implies s[j] != sep by {
        assert(s[j] == name[j]);
        if name[j] == sep {
            assert(name.contains(sep));
        }
    }
    let i = choose|i: int| 0 <= i < s.len() && s[i] == sep && forall|j: int| 0 <= j < i ==> s[j] != sep;
    if i < name.len() {
        assert(s[i] == name[i]);
        assert(name.contains(sep));
    }
    if i > name.len() {
        assert(s[name.len() as int] != sep);
    }
    assert(i == name.len());
    assert(s.take(i) =~= name);
    assert(s.skip(i + 1) =~= rest);
}

/// The decimal text of `n`: digits only, the value `n`, at most three
/// digits below 1000, and no leading zero.
pub proof fn lemma_decimal(n: nat)
    ensures
        all_radix_digits(decimal(n), 10),
        digits_value(decimal(n), 10) == n,
        decimal(n).len() >= 1,
        n < 10 ==> decimal(n).len() == 1,
        n < 100 ==> decimal(n).len() <= 2,
        n < 1000 ==> decimal(n).len() <= 3,
        n >= 10 ==> decimal(n)[0] != '0',
        !decimal(n).contains('.'),
        !decimal(n).contains(':'),
    decreases n,
{
    if n < 10 {
        let c = hex_char(n);
        assert(decimal(n) =~= seq![c]);
        assert('0' <= c <= '9');
        assert(hex_digit_value(c) == n);
        assert(seq![c].drop_last() =~= Seq::<char>::empty());
        assert(digits_value(seq![c], 10) == digits_value(Seq::<char>::empty(), 10) * 10 + n);
        if decimal(n).contains('.') {
            assert(decimal(n)[0] == '.');
        }
        if decimal(n).contains(':') {
            assert(decimal(n)[0] == ':');
        }
    } else {
        lemma_decimal(n / 10);
        let d = decimal(n / 10);
        let c = hex_char(n % 10);
        assert(decimal(n) == d.push(c));
        assert('0' <= c <= '9');
        assert(hex_digit_value(c) == n % 10);
        assert(d.push(c).drop_last() =~= d);
        assert(digits_value(d.push(c), 10) == n / 10 * 10 + n % 10);
        assert forall|i: int| 0 <= i < d.push(c).len() implies is_radix_digit(#[trigger] d.push(c)[i], 10) by {
            if i < d.len() {
                assert(d.push(c)[i] == d[i]);
            }
        }
        if n / 10 < 10 {
            assert(d[0] == hex_char(n / 10));
        }
        assert(d.push(c)[0] == d[0]);
        if decimal(n).contains('.') {
            let i = choose|i: int| 0 <= i < d.push(c).len() && d.push(c)[i] == '.';
            if i < d.len() {
                assert(d[i] == '.');
                assert(d.contains('.'));
            }
        }
        if decimal(n).contains(':') {
            let i = choose|i: int| 0 <= i < d.push(c).len() && d.push(c)[i] == ':';
            if i < d.len() {
                assert(d[i] == ':');
                assert(d.contains(':'));
            }
        }
    }
}

// ---------------------------------------------------------------------------
// Patterns: repeated trimming, searching and replacing
// ---------------------------------------------------------------------------

/// `true` when `vp` occurs in `vs` at position `i`.
pub fn chars_match_at(vs: &Vec<char>, i: usize, vp: &Vec<char>) -> (r: bool)
    requires
        i <= vs@.len(),
    ensures
        r == spec_starts_with(vs@.skip(i as int), vp@),
{
    if vp.len() > vs.len() - i {
        return false;
    }
    let mut j: usize = 0;
    while j < vp.len()
        invariant
            i <= vs@.len(),
            vp.len() <= vs.len() - i,
            j <= vp.len(),
            forall|k: int| 0 <= k < j ==> vs@[i + k] == vp@[k],
        decreases vp.len() - j,
    {
        if vs[i + j] != vp[j] {
            assert(vs@.skip(i as int).subrange(0, vp@.len() as int)[j as int] != vp@[j as int]);
            return false;
        }
        j += 1;
    }
    assert(vs@.skip(i as int).subrange(0, vp@.len() as int) =~= vp@);
    true
}

/// `str::trim_start_matches` with a string pattern: `s` without all
/// leading repetitions of `p`.
pub open spec fn spec_trim_start_matches(s: Seq<char>, p: Seq<char>) -> Seq<char>
    decreases s.len(),
{
    if p.len() > 0 && spec_starts_with(s, p) {
        spec_trim_start_matches(s.skip(p.len() as int), p)
    } else {
        s
    }
}

/// `str::trim_end_matches` with a string pattern: `s` without all
/// trailing repetitions of `p`.
pub open spec fn spec_trim_end_matches(s: Seq<char>, p: Seq<char>) -> Seq<char>
    decreases s.len(),
{
    if p.len() > 0 && spec_ends_with(s, p) {
        spec_trim_end_matches(s.take(s.len() - p.len()), p)
    } else {
        s
    }
}

/// `s` without all leading repetitions of `p`.
pub fn trim_start_matches(s: &str, p: &str) -> (r: String)
    ensures
        r@ == spec_trim_start_matches(s@, p@),
{
    let vs = chars_of(s);
    let vp = chars_of(p);
    let mut i: usize = 0;
    assert(vs@.skip(0) =~= vs@);
    if vp.len() > 0 {
        loop
            invariant
                i <= vs@.len(),
                vp@.len() > 0,
                vs@ == s@,
                vp@ == p@,
                spec_trim_start_matches(vs@.skip(i as int), vp@) == spec_trim_start_matches(s@, p@),
            ensures
                i <= vs@.len(),
                !spec_starts_with(vs@.skip(i as int), vp@),
                spec_trim_start_matches(vs@.skip(i as int), vp@) == spec_trim_start_matches(s@, p@),
            decreases vs@.len() - i,
        {
            let m = chars_match_at(&vs, i, &vp);
            if !m {
                break;
            }
            assert(vs@.skip(i as int).len() == vs@.len() - i);
            assert(i + vp.len() <= vs.len());
            assert(vs@.skip(i as int).skip(vp@.len() as int) =~= vs@.skip(i + vp@.len()));
            i = i + vp.len();
        }
    }
    let r = string_from_range(&vs, i, vs.len());
    assert(vs@.subrange(i as int, vs@.len() as int) =~= vs@.skip(i as int));
    if vp.len() == 0 {
        assert(vs@.skip(0) =~= vs@);
    }
    r
}

/// `s` without all trailing repetitions of `p`.
pub fn trim_end_matches(s: &str, p: &str) -> (r: String)
    ensures
        r@ == spec_trim_end_matches(s@, p@),
{
    let vs = chars_of(s);
    let vp = chars_of(p);
    let mut end: usize = vs.len();
    assert(vs@.take(vs@.len() as int) =~= vs@);
    if vp.len() > 0 {
        while vp.len() <= end && chars_match_at(&vs, end - vp.len(), &vp)
            invariant
                end <= vs@.len(),
                vp@.len() > 0,
                vs@ == s@,
                vp@ == p@,
                spec_trim_end_matches(vs@.take(end as int), vp@) == spec_trim_end_matches(s@, p@),
            decreases end,
        {
            let ghost t = vs@.take(end as int);
            assert(t.subrange(t.len() - vp@.len(), t.len() as int) =~= vs@.skip(end - vp@.len()).subrange(0, vp@.len() as int));
            assert(t.take(t.len() - vp@.len()) =~= vs@.take(end - vp@.len()));
            end = end - vp.len();
        }
        let ghost t = vs@.take(end as int);
        if vp.len() <= end {
            assert(t.subrange(t.len() - vp@.len(), t.len() as int) =~= vs@.skip(end - vp@.len()).subrange(0, vp@.len() as int));
        }
    }
    let r = string_from_range(&vs, 0, end);
    assert(vs@.subrange(0, end as int) =~= vs@.take(end as int));
    if vp.len() == 0 {
        assert(vs@.take(vs@.len() as int) =~= vs@);
    }
    r
}

/// The first position at or after `i` where `p` occurs in `s`.
pub open spec fn spec_find_str_from(s: Seq<char>, p: Seq<char>, i: int) -> Option<int>
    decreases s.len() + 1 - i,
{
    if i < 0 || i > s.len() {
        None
    } else if spec_starts_with(s.skip(i), p) {
        Some(i)
    } else {
        spec_find_str_from(s, p, i + 1)
    }
}

/// `str::find` with a string pattern: the first position of `p` in `s`.
pub open spec fn spec_find_str(s: Seq<char>, p: Seq<char>) -> Option<int> {
    spec_find_str_from(s, p, 0)
}

/// The first position of `p` in `v`.
pub fn find_str(v: &Vec<char>, p: &Vec<char>) -> (r: Option<usize>)
    ensures
        match r {
            Some(i) => spec_find_str(v@, p@) == Some(i as int),
            None => spec_find_str(v@, p@) is None,
        },
{
    let mut i: usize = 0;
    loop
        invariant
            i <= v@.len(),
            spec_find_str_from(v@, p@, i as int) == spec_find_str(v@, p@),
        decreases v@.len() - i,
    {
        if chars_match_at(v, i, p) {
            return Some(i);
        }
        if i == v.len() {
            assert(spec_find_str_from(v@, p@, i + 1) is None);
            return None;
        }
        i += 1;
    }
}

/// `str::replace` with a non-empty string pattern: every occurrence of
/// `p`, scanning from the left without overlap, replaced by `rep`.
pub open spec fn spec_replace(s: Seq<char>, p: Seq<char>, rep: Seq<char>) -> Seq<char>
    decreases s.len(),
{
    if s.len() == 0 {
        Seq::empty()
    } else if p.len() > 0 && spec_starts_with(s, p) {
        rep + spec_replace(s.skip(p.len() as int), p, rep)
    } else {
        seq![s[0]] + spec_replace(s.skip(1), p, rep)
    }
}

/// Replaces every occurrence of the non-empty pattern `p` in `s` with `rep`.
pub fn replace_all(s: &str, p: &str, rep: &str) -> (r: String)
    ensures
        r@ == spec_replace(s@, p@, rep@),
{
    let vs = chars_of(s);
    let vp = chars_of(p);
    let mut out = String::new();
    let mut i: usize = 0;
    assert(vs@.skip(0) =~= vs@);
    assert(out@ + spec_replace(s@, p@, rep@) =~= spec_replace(s@, p@, rep@));
    while i < vs.len()
        invariant
            i <= vs@.len(),
            vs@ == s@,
            vp@ == p@,
            out@ + spec_replace(vs@.skip(i as int), p@, rep@) == spec_replace(s@, p@, rep@),
        decreases vs@.len() - i,
    {
        let ghost t = vs@.skip(i as int);
        if vp.len() > 0 && chars_match_at(&vs, i, &vp) {
            assert(t.skip(vp@.len() as int) =~= vs@.skip(i + vp@.len()));
            assert(out@ + rep@ + spec_replace(t.skip(vp@.len() as int), p@, rep@) =~= out@ + (rep@
                + spec_replace(t.skip(vp@.len() as int), p@, rep@)));
            push_str(&mut out, rep);
            i = i + vp.len();
        } else {
            assert(t.skip(1) =~= vs@.skip(i + 1));
            assert(t[0] == vs@[i as int]);
            assert(out@.push(vs@[i as int]) + spec_replace(t.skip(1), p@, rep@) =~= out@ + (seq![t[0]]
                + spec_replace(t.skip(1), p@, rep@)));
            push_char(&mut out, vs[i]);
            i = i + 1;
        }
    }
    assert(vs@.skip(i as int) =~= Seq::<char>::empty());
    assert(out@ + Seq::<char>::empty() =~= out@);
    out
}

/// Trimming a pattern never lengthens the text, and trimming a pattern
/// that is there shortens it by at least the pattern.
pub proof fn lemma_trim_start_matches_len(s: Seq<char>, p: Seq<char>)
    ensures
        spec_trim_start_matches(s, p).len() <= s.len(),
        p.len() > 0 && spec_starts_with(s, p) ==> spec_trim_start_matches(s, p).len() <= s.len() - p.len(),
    decreases s.len(),
{
    if p.len() > 0 && spec_starts_with(s, p) {
        lemma_trim_start_matches_len(s.skip(p.len() as int), p);
    }
}

/// A position found by `spec_find_str` lies within the text, and the
/// pattern occurs there.
pub proof fn lemma_find_str_bound(s: Seq<char>, p: Seq<char>)
    ensures
        spec_find_str(s, p) matches Some(i) ==> 0 <= i <= s.len() && spec_starts_with(s.skip(i), p),
{
    lemma_find_str_from_bound(s, p, 0);
}

proof fn lemma_find_str_from_bound(s: Seq<char>, p: Seq<char>, k: int)
    ensures
        spec_find_str_from(s, p, k) matches Some(i) ==> k <= i <= s.len() && spec_starts_with(s.skip(i), p),
    decreases s.len() + 1 - k,
{
    if 0 <= k <= s.len() && !spec_starts_with(s.skip(k), p) {
        lemma_find_str_from_bound(s, p, k + 1);
    }
}

/// Splitting always gives at least one piece.
pub proof fn lemma_split_nonempty(s: Seq<char>, sep: char)
    ensures
        spec_split(s, sep).len() >= 1,
{
}

} // verus!
