//! ANSI control sequences: building the sequences that set terminal
//! colours and titles, and reading a terminal's answers to colour queries.
use vstd::prelude::*;

use crate::error::Error;
use crate::terminal::color::{spec_color_text, spec_parse_color, Color};
use crate::text::{
    chars_of, decimal, decimal_string, find_str, lemma_find_str_bound,
    lemma_trim_start_matches_len, parse_unsigned, push_char, push_str, spec_find_str,
    spec_parse_unsigned, spec_split, spec_starts_with, spec_trim_end_matches,
    spec_trim_start_matches, split_char, starts_with, string_from_range, strings_view,
    trim_end_matches, trim_start_matches,
};

verus! {

/// The escape character.
pub const ESC: char = '\x1B';

/// Introduces a control sequence after `ESC`.
pub const CSI: char = '[';

/// Introduces an operating system command after `ESC`.
pub const OSC: char = ']';

/// Ends an operating system command after `ESC`.
pub const ST: char = '\\';

/// `ESC ]` then the decimal text of `n`.
pub open spec fn osc_text(n: nat) -> Seq<char> {
    seq![ESC, OSC] + decimal(n)
}

/// `ESC [`.
pub open spec fn csi_text() -> Seq<char> {
    seq![ESC, CSI]
}

/// The string terminator, `ESC \`.
pub open spec fn st_text() -> Seq<char> {
    seq![ESC, ST]
}

/// A control sequence under construction.
pub struct AnsiControl(String);

impl View for AnsiControl {
    type V = Seq<char>;

    closed spec fn view(&self) -> Seq<char> {
        self.0@
    }
}

impl Default for AnsiControl {
    /// The empty sequence.
    fn default() -> (r: AnsiControl)
        ensures
            r@ == Seq::<char>::empty(),
    {
        AnsiControl(String::new())
    }
}

impl AnsiControl {
    /// An operating system command with number `n`: `ESC ] n`.
    pub fn osc(n: u32) -> (r: AnsiControl)
        ensures
            r@ == osc_text(n as nat),
    {
        let r = Self::default().push(ESC).push(OSC).num(n);
        assert(seq![ESC, OSC] =~= Seq::<char>::empty().push(ESC).push(OSC));
        r
    }

    /// A control sequence introducer: `ESC [`.
    pub fn csi() -> (r: AnsiControl)
        ensures
            r@ == csi_text(),
    {
        let r = Self::default().push(ESC).push(CSI);
        assert(seq![ESC, CSI] =~= Seq::<char>::empty().push(ESC).push(CSI));
        r
    }

    /// Bold text on.
    pub fn bold() -> (r: AnsiControl)
        ensures
            r@ == csi_text() + "1m"@,
    {
        Self::csi().push_str("1m")
    }

    /// Bold text off.
    pub fn unbold() -> (r: AnsiControl)
        ensures
            r@ == csi_text() + "22m"@,
    {
        Self::csi().push_str("22m")
    }

    /// Clears the screen.
    pub fn clear() -> (r: AnsiControl)
        ensures
            r@ == csi_text() + "2J"@,
    {
        Self::csi().push_str("2J")
    }

    /// Moves the cursor to column `x`, row `y`.
    pub fn goto(x: u16, y: u16) -> (r: AnsiControl)
        ensures
            r@ == csi_text() + decimal(x as nat) + seq![';'] + decimal(y as nat) + seq!['H'],
    {
        let xs = decimal_string(x as u64);
        let ys = decimal_string(y as u64);
        let r = Self::csi().push_str(xs.as_str()).push(';').push_str(ys.as_str()).push('H');
        assert(r@ =~= csi_text() + decimal(x as nat) + seq![';'] + decimal(y as nat) + seq!['H']);
        r
    }

    /// Sets the window title: `ESC ] 0 ; title ESC \`.
    pub fn set_window_title(title: &str) -> (r: AnsiControl)
        ensures
            r@ == osc_text(0) + seq![';'] + title@ + st_text(),
    {
        let r = Self::osc(0).sep().push_str(title).st();
        assert(r@ =~= osc_text(0) + seq![';'] + title@ + st_text());
        r
    }

    /// Saves the window title on the terminal's stack.
    pub fn window_title_push_stack() -> (r: AnsiControl)
        ensures
            r@ == csi_text() + "22;2t"@,
    {
        Self::csi().push_str("22;2t")
    }

    /// Restores the window title from the terminal's stack.
    pub fn window_title_pop_stack() -> (r: AnsiControl)
        ensures
            r@ == csi_text() + "23;2t"@,
    {
        Self::csi().push_str("23;2t")
    }

    /// Appends the parameter separator `;`.
    pub fn sep(self) -> (r: AnsiControl)
        ensures
            r@ == self@.push(';'),
    {
        self.push(';')
    }

    /// Appends the text of a colour.
    pub fn color(self, color: Color) -> (r: AnsiControl)
        ensures
            r@ == self@ + spec_color_text(color),
    {
        let t = color.to_string();
        self.push_str(t.as_str())
    }

    /// Appends the decimal text of `n`.
    pub fn num(self, n: u32) -> (r: AnsiControl)
        ensures
            r@ == self@ + decimal(n as nat),
    {
        let t = decimal_string(n as u64);
        self.push_str(t.as_str())
    }

    /// Appends the string terminator `ESC \`.
    pub fn st(self) -> (r: AnsiControl)
        ensures
            r@ == self@ + st_text(),
    {
        let r = self.push(ESC).push(ST);
        assert(r@ =~= self@ + st_text());
        r
    }

    /// Appends `s`.
    pub fn push_str(self, s: &str) -> (r: AnsiControl)
        ensures
            r@ == self@ + s@,
    {
        let mut t = self.0;
        push_str(&mut t, s);
        AnsiControl(t)
    }

    /// Appends `c`.
    pub fn push(self, c: char) -> (r: AnsiControl)
        ensures
            r@ == self@.push(c),
    {
        let mut t = self.0;
        push_char(&mut t, c);
        AnsiControl(t)
    }

    /// The UTF-8 bytes of the sequence.
    pub fn as_bytes(&self) -> (r: &[u8])
        ensures
            r@ == vstd::utf8::encode_utf8(self@),
    {
        self.0.as_str().as_bytes()
    }

    /// The sequence as text.
    pub fn as_str(&self) -> (r: &str)
        ensures
            r@ == self@,
    {
        self.0.as_str()
    }
}

// ---------------------------------------------------------------------------
// Reading colour answers
// ---------------------------------------------------------------------------

/// What `parse_idx_color_pair` reads: a palette index and a colour
/// separated by `;`.
pub open spec fn spec_parse_idx_color_pair(s: Seq<char>) -> Result<(u32, Color), Error> {
    let v = spec_split(s, ';');
    if v.len() != 2 {
        Err(Error::BadColor)
    } else {
        match spec_parse_unsigned(v[0], 10, u32::MAX as nat) {
            None => Err(Error::BadNumber),
            Some(idx) => match spec_parse_color(v[1]) {
                Ok(c) => Ok((idx as u32, c)),
                Err(e) => Err(e),
            },
        }
    }
}

/// The beginning of each entry of a palette answer: `ESC ] 4 ;`.
pub open spec fn color_prefix() -> Seq<char> {
    osc_text(4).push(';')
}

/// What `parse_color_response` reads: entries `ESC ] 4 ; idx ; colour ESC \`
/// one after another, for as long as the text begins with an entry.
pub open spec fn spec_parse_color_response(s: Seq<char>) -> Result<Seq<(u32, Color)>, Error>
    decreases s.len(),
{
    if spec_starts_with(s, color_prefix()) {
        let t = spec_trim_start_matches(s, color_prefix());
        match spec_find_str(t, st_text()) {
            None => Err(Error::BadColor),
            Some(i) => match spec_parse_idx_color_pair(t.take(i)) {
                Err(e) => Err(e),
                Ok(pair) => {
                    let rest = spec_trim_start_matches(t.skip(i), st_text());
                    proof {
                        lemma_color_response_decreases(s);
                    }
                    match spec_parse_color_response(rest) {
                        Ok(more) => Ok(seq![pair] + more),
                        Err(e) => Err(e),
                    }
                },
            },
        }
    } else {
        Ok(Seq::empty())
    }
}

/// An entry of a palette answer shortens the text still to read.
pub proof fn lemma_color_response_decreases(s: Seq<char>)
    requires
        spec_starts_with(s, color_prefix()),
    ensures
        ({
            let t = spec_trim_start_matches(s, color_prefix());
            spec_find_str(t, st_text()) matches Some(i) ==> spec_trim_start_matches(t.skip(i), st_text()).len() < s.len()
        }),
{
    let t = spec_trim_start_matches(s, color_prefix());
    assert(color_prefix().len() > 0);
    lemma_trim_start_matches_len(s, color_prefix());
    lemma_find_str_bound(t, st_text());
    if let Some(i) = spec_find_str(t, st_text()) {
        lemma_trim_start_matches_len(t.skip(i), st_text());
    }
}

/// `Ok(prefix + rest)` for a successful rest, the error otherwise.
pub open spec fn prepend_pairs(prefix: Seq<(u32, Color)>, rest: Result<Seq<(u32, Color)>, Error>) -> Result<Seq<(u32, Color)>, Error> {
    match rest {
        Ok(m) => Ok(prefix + m),
        Err(e) => Err(e),
    }
}

/// Reads a palette index and a colour separated by `;`.
pub fn parse_idx_color_pair(s: &str) -> (r: Result<(u32, Color), Error>)
    ensures
        r == spec_parse_idx_color_pair(s@),
{
    let v = split_char(s, ';');
    if v.len() != 2 {
        return Err(Error::BadColor);
    }
    assert(strings_view(v@)[0] == v@[0]@);
    assert(strings_view(v@)[1] == v@[1]@);
    let idx = match parse_unsigned(v[0].as_str(), 10, 0xffff_ffff) {
        Some(n) => n as u32,
        None => return Err(Error::BadNumber),
    };
    match Color::parse(v[1].as_str()) {
        Ok(c) => Ok((idx, c)),
        Err(e) => Err(e),
    }
}

/// Reads a terminal's answer to a palette query: the index and colour of
/// each entry, in order.
pub fn parse_color_response(s: &str) -> (r: Result<Vec<(u32, Color)>, Error>)
    ensures
        match spec_parse_color_response(s@) {
            Ok(m) => r matches Ok(v) && v@ == m,
            Err(e) => r matches Err(f) && f == e,
        },
{
    let prefix = AnsiControl::osc(4).sep();
    let suffix = AnsiControl::default().st();
    assert(suffix@ =~= st_text());
    let sv = chars_of(suffix.as_str());
    let mut res: Vec<(u32, Color)> = Vec::new();
    let mut ptr = s.to_owned();
    assert(prepend_pairs(res@, spec_parse_color_response(ptr@)) =~= spec_parse_color_response(s@)) by {
        assert(Seq::<(u32, Color)>::empty() + Seq::<(u32, Color)>::empty() =~= Seq::<(u32, Color)>::empty());
        match spec_parse_color_response(s@) {
            Ok(m) => assert(Seq::<(u32, Color)>::empty() + m =~= m),
            Err(_) => {},
        }
    }
    while starts_with(ptr.as_str(), prefix.as_str())
        invariant
            prefix@ == color_prefix(),
            suffix@ == st_text(),
            sv@ == st_text(),
            prepend_pairs(res@, spec_parse_color_response(ptr@)) == spec_parse_color_response(s@),
        decreases ptr@.len(),
    {
        let t = trim_start_matches(ptr.as_str(), prefix.as_str());
        let tv = chars_of(t.as_str());
        let offset = match find_str(&tv, &sv) {
            Some(idx) => idx,
            None => return Err(Error::BadColor),
        };
        proof {
            lemma_find_str_bound(tv@, sv@);
            lemma_color_response_decreases(ptr@);
        }
        let elem = string_from_range(&tv, 0, offset);
        assert(elem@ =~= t@.take(offset as int));
        let pair = match parse_idx_color_pair(elem.as_str()) {
            Ok(p) => p,
            Err(e) => return Err(e),
        };
        let after = string_from_range(&tv, offset, tv.len());
        assert(after@ =~= t@.skip(offset as int));
        let next = trim_start_matches(after.as_str(), suffix.as_str());
        let ghost before = res@;
        res.push(pair);
        proof {
            match spec_parse_color_response(next@) {
                Ok(m) => {
                    assert(before + (seq![pair] + m) =~= res@ + m);
                },
                Err(_) => {},
            }
        }
        ptr = next;
    }
    assert(spec_parse_color_response(ptr@) == Ok::<Seq<(u32, Color)>, Error>(Seq::empty()));
    assert(res@ + Seq::<(u32, Color)>::empty() =~= res@);
    Ok(res)
}

// ---------------------------------------------------------------------------
// Palette codes and answers
// ---------------------------------------------------------------------------

/// The sequence that sets palette entry `idx`: `ESC ] 4 ; idx ; colour ESC \`.
pub fn palette_color_code(idx: u32, color: Color) -> (r: AnsiControl)
    ensures
        r@ == color_prefix() + decimal(idx as nat) + seq![';'] + spec_color_text(color) + st_text(),
{
    let r = AnsiControl::osc(4).sep().num(idx).sep().color(color).st();
    assert(r@ =~= color_prefix() + decimal(idx as nat) + seq![';'] + spec_color_text(color) + st_text());
    r
}

/// The sequence that sets the colour of command `code` (10 for the
/// foreground, 11 for the background): `ESC ] code ; colour ESC \`.
pub fn palette_var_code(code: u32, color: Color) -> (r: AnsiControl)
    ensures
        r@ == osc_text(code as nat).push(';') + spec_color_text(color) + st_text(),
{
    AnsiControl::osc(code).sep().color(color).st()
}

/// The query for the colour of command `code`: `ESC ] code ; ? ESC \`.
pub fn palette_var_query(code: u32) -> (r: AnsiControl)
    ensures
        r@ == osc_text(code as nat).push(';').push('?') + st_text(),
{
    AnsiControl::osc(code).sep().push('?').st()
}

/// What a terminal's answer to the query for command `code` reads as: the
/// colour between `ESC ] code ;` and the final `ESC \`.
pub open spec fn spec_parse_var_response(response: Seq<char>, code: nat) -> Result<Color, Error> {
    spec_parse_color(
        spec_trim_end_matches(spec_trim_start_matches(response, osc_text(code).push(';')), st_text()),
    )
}

/// Reads a terminal's answer to the query for the colour of command `code`.
pub fn parse_var_response(response: &str, code: u32) -> (r: Result<Color, Error>)
    ensures
        r == spec_parse_var_response(response@, code as nat),
{
    let prefix = AnsiControl::osc(code).sep();
    let suffix = AnsiControl::default().st();
    assert(suffix@ =~= st_text());
    let t = trim_start_matches(response, prefix.as_str());
    let t = trim_end_matches(t.as_str(), suffix.as_str());
    Color::parse(t.as_str())
}

/// The query for palette entries `idxs`: `ESC ] 4` then `; idx ; ?` for
/// each index, then `ESC \`.
pub fn palette_colors_query(idxs: &Vec<u32>) -> (r: AnsiControl)
    ensures
        r@ == osc_text(4) + query_entries(idxs@) + st_text(),
{
    let mut ansi = AnsiControl::osc(4);
    let mut i: usize = 0;
    while i < idxs.len()
        invariant
            i <= idxs@.len(),
            ansi@ == osc_text(4) + query_entries(idxs@.take(i as int)),
        decreases idxs@.len() - i,
    {
        let ghost before = ansi@;
        ansi = ansi.sep().num(idxs[i]).sep().push('?');
        assert(idxs@.take(i + 1).drop_last() =~= idxs@.take(i as int));
        assert(ansi@ =~= osc_text(4) + query_entries(idxs@.take(i + 1)));
        i += 1;
    }
    assert(idxs@.take(idxs@.len() as int) =~= idxs@);
    ansi.st()
}

/// `; idx ; ?` for each index.
pub open spec fn query_entries(idxs: Seq<u32>) -> Seq<char>
    decreases idxs.len(),
{
    if idxs.len() == 0 {
        Seq::empty()
    } else {
        query_entries(idxs.drop_last()) + seq![';'] + decimal(idxs.last() as nat) + seq![';', '?']
    }
}

/// The indexes of an answer agree with the indexes asked for, as far as
/// both go.
pub open spec fn indexes_agree(parsed: Seq<(u32, Color)>, idxs: Seq<u32>) -> bool {
    forall|i: int| 0 <= i < parsed.len() && i < idxs.len() ==> #[trigger] parsed[i].0 == idxs[i]
}

/// The colours of a parsed palette answer, refused when an index differs
/// from the one asked for.
pub fn check_palette_colors(parsed: &Vec<(u32, Color)>, idxs: &Vec<u32>) -> (r: Result<Vec<Color>, Error>)
    ensures
        indexes_agree(parsed@, idxs@) ==> (r matches Ok(v) && v@ == parsed@.map_values(
            |p: (u32, Color)| p.1,
        )),
        !indexes_agree(parsed@, idxs@) ==> r == Err::<Vec<Color>, Error>(Error::ColorIndex),
{
    let mut i: usize = 0;
    while i < parsed.len() && i < idxs.len()
        invariant
            i <= parsed@.len(),
            forall|j: int| 0 <= j < i && j < idxs@.len() ==> #[trigger] parsed@[j].0 == idxs@[j],
        decreases parsed@.len() - i,
    {
        if parsed[i].0 != idxs[i] {
            return Err(Error::ColorIndex);
        }
        i += 1;
    }
    let mut out: Vec<Color> = Vec::new();
    let mut k: usize = 0;
    while k < parsed.len()
        invariant
            k <= parsed@.len(),
            out@ == parsed@.take(k as int).map_values(|p: (u32, Color)| p.1),
        decreases parsed@.len() - k,
    {
        out.push(parsed[k].1);
        assert(parsed@.take(k + 1).map_values(|p: (u32, Color)| p.1) =~= parsed@.take(k as int).map_values(
            |p: (u32, Color)| p.1,
        ).push(parsed@[k as int].1));
        k += 1;
    }
    assert(parsed@.take(parsed@.len() as int) =~= parsed@);
    Ok(out)
}

} // verus!
