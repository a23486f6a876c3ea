//! Variables of the os-release file (`/etc/os-release`).
use vstd::prelude::*;

use crate::error::Error;
use crate::strmap::StrMap;
use crate::text::{
    chars_of, lines, parse_unsigned, spec_lines, spec_parse_unsigned, spec_split_once, spec_trim,
    split_once, string_from_range, strings_view, to_owned_string, trim,
};

verus! {

/// `s` without one pair of matching surrounding quotes; `None` when a
/// leading quote has no matching closing quote.
pub open spec fn spec_remove_quotes(s: Seq<char>) -> Option<Seq<char>> {
    if s.len() > 0 && (s[0] == '\'' || s[0] == '"') {
        if s.len() >= 2 && s.last() == s[0] {
            Some(s.subrange(1, s.len() - 1))
        } else {
            None
        }
    } else {
        Some(s)
    }
}

/// A `KEY=value` line: the trimmed key and the trimmed, unquoted value.
pub open spec fn spec_parse_line(line: Seq<char>) -> Option<(Seq<char>, Seq<char>)> {
    let (k, rest) = spec_split_once(line, '=');
    match spec_remove_quotes(spec_trim(rest.unwrap())) {
        Some(v) => Some((spec_trim(k), v)),
        None => None,
    }
}

/// Every line holds an `'='`.
pub open spec fn lines_have_equals(lines: Seq<Seq<char>>) -> bool {
    forall|i: int| 0 <= i < lines.len() ==> (#[trigger] lines[i]).contains('=')
}

/// The variables defined by `lines`, or `None` if one of them is malformed.
pub open spec fn spec_load_lines(lines: Seq<Seq<char>>) -> Option<Map<Seq<char>, Seq<char>>>
    decreases lines.len(),
{
    if lines.len() == 0 {
        Some(Map::empty())
    } else {
        match spec_load_lines(lines.drop_last()) {
            None => None,
            Some(m) => match spec_parse_line(lines.last()) {
                None => None,
                Some((k, v)) => Some(m.insert(k, v)),
            },
        }
    }
}

/// Key / value variables of an os-release file.
pub struct OsRelease {
    vars: StrMap<String>,
}

impl View for OsRelease {
    type V = Map<Seq<char>, Seq<char>>;

    closed spec fn view(&self) -> Map<Seq<char>, Seq<char>> {
        self.vars@
    }
}

impl OsRelease {
    /// Parses the contents of an os-release file. A line without `'='` is
    /// not accepted.
    #[verifier::rlimit(50)]
    pub fn load_file(content: &str) -> (r: Result<OsRelease, Error>)
        requires
            lines_have_equals(spec_lines(content@)),
        ensures
            match r {
                Ok(osr) => spec_load_lines(spec_lines(content@)) == Some(osr@),
                Err(e) => spec_load_lines(spec_lines(content@)) is None && e == Error::UnmatchedQuote,
            },
    {
        let ls = lines(content);
        let ghost lv = strings_view(ls@);
        let mut vars: StrMap<String> = StrMap::new();
        let mut i: usize = 0;
        while i < ls.len()
            invariant
                i <= ls@.len(),
                lv == strings_view(ls@),
                lv == spec_lines(content@),
                lines_have_equals(lv),
                spec_load_lines(lv.take(i as int)) == Some(vars@),
            decreases ls@.len() - i,
        {
            assert(lv.take(i + 1).drop_last() =~= lv.take(i as int));
            assert(lv[i as int] == ls@[i as int]@);
            let (k, v) = match Self::parse_line(ls[i].as_str()) {
                Ok(kv) => kv,
                Err(e) => {
                    proof {
                        lemma_load_lines_none_extends(lv, i as int + 1);
                    }
                    return Err(e);
                },
            };
            vars.insert(k, v);
            i += 1;
        }
        assert(lv.take(ls@.len() as int) =~= lv);
        Ok(OsRelease { vars })
    }

    /// Splits a `KEY=value` line.
    fn parse_line(line: &str) -> (r: Result<(String, String), Error>)
        requires
            line@.contains('='),
        ensures
            match r {
                Ok((k, v)) => spec_parse_line(line@) == Some((k@, v@)),
                Err(e) => spec_parse_line(line@) is None && e == Error::UnmatchedQuote,
            },
    {
        let (k, rest) = split_once(line, '=');
        let rest = match rest {
            Some(r) => r,
            None => {
                proof {
                    let j = choose|j: int| 0 <= j < line@.len() && line@[j] == '=';
                    assert(exists|j: int| 0 <= j < line@.len() && line@[j] == '=');
                }
                return Err(Error::BadLine);
            },
        };
        let key = trim(k.as_str());
        let val = Self::remove_quotes(trim(rest.as_str()).as_str())?;
        Ok((key, val))
    }

    /// Removes one pair of matching surrounding quotes.
    fn remove_quotes(s: &str) -> (r: Result<String, Error>)
        ensures
            match r {
                Ok(v) => spec_remove_quotes(s@) == Some(v@),
                Err(e) => spec_remove_quotes(s@) is None && e == Error::UnmatchedQuote,
            },
    {
        let v = chars_of(s);
        if v.len() > 0 && (v[0] == '\'' || v[0] == '"') {
            if v.len() < 2 || v[v.len() - 1] != v[0] {
                return Err(Error::UnmatchedQuote);
            }
            return Ok(string_from_range(&v, 1, v.len() - 1));
        }
        Ok(to_owned_string(s))
    }

    /// The value of `key`, if defined.
    pub fn get_value(&self, key: &str) -> (r: Option<&str>)
        ensures
            match r {
                Some(v) => self@.contains_key(key@) && self@[key@] == v@,
                None => !self@.contains_key(key@),
            },
    {
        match self.vars.get(key) {
            Some(v) => Some(v.as_str()),
            None => None,
        }
    }

    /// The value of `key` as a number, if defined and a valid `usize`.
    pub fn get_int_value(&self, key: &str) -> (r: Option<usize>)
        ensures
            match r {
                Some(n) => self@.contains_key(key@) && spec_parse_unsigned(
                    self@[key@],
                    10,
                    usize::MAX as nat,
                ) == Some(n as nat),
                None => !self@.contains_key(key@) || spec_parse_unsigned(
                    self@[key@],
                    10,
                    usize::MAX as nat,
                ) is None,
            },
    {
        match self.get_value(key) {
            Some(s) => match parse_unsigned(s, 10, usize::MAX as u64) {
                Some(n) => Some(n as usize),
                None => None,
            },
            None => None,
        }
    }

    /// The value of CITADEL_CHANNEL.
    pub fn citadel_channel(&self) -> (r: Option<&str>)
        ensures
            match r {
                Some(v) => self@.contains_key("CITADEL_CHANNEL"@) && self@["CITADEL_CHANNEL"@] == v@,
                None => !self@.contains_key("CITADEL_CHANNEL"@),
            },
    {
        self.get_value("CITADEL_CHANNEL")
    }

    /// The value of CITADEL_IMAGE_PUBKEY.
    pub fn citadel_image_pubkey(&self) -> (r: Option<&str>)
        ensures
            match r {
                Some(v) => self@.contains_key("CITADEL_IMAGE_PUBKEY"@) && self@["CITADEL_IMAGE_PUBKEY"@]
                    == v@,
                None => !self@.contains_key("CITADEL_IMAGE_PUBKEY"@),
            },
    {
        self.get_value("CITADEL_IMAGE_PUBKEY")
    }

    /// The value of CITADEL_ROOTFS_VERSION as a number.
    pub fn citadel_rootfs_version(&self) -> (r: Option<usize>)
        ensures
            match r {
                Some(n) => self@.contains_key("CITADEL_ROOTFS_VERSION"@) && spec_parse_unsigned(
                    self@["CITADEL_ROOTFS_VERSION"@],
                    10,
                    usize::MAX as nat,
                ) == Some(n as nat),
                None => !self@.contains_key("CITADEL_ROOTFS_VERSION"@) || spec_parse_unsigned(
                    self@["CITADEL_ROOTFS_VERSION"@],
                    10,
                    usize::MAX as nat,
                ) is None,
            },
    {
        self.get_int_value("CITADEL_ROOTFS_VERSION")
    }
}

proof fn lemma_load_lines_none_extends(lines: Seq<Seq<char>>, k: int)
    requires
        0 <= k <= lines.len(),
        spec_load_lines(lines.take(k)) is None,
    ensures
        spec_load_lines(lines) is None,
    decreases lines.len() - k,
{
    if k < lines.len() {
        assert(lines.take(k + 1).drop_last() =~= lines.take(k));
        lemma_load_lines_none_extends(lines, k + 1);
    } else {
        assert(lines.take(k) =~= lines);
    }
}

} // verus!
