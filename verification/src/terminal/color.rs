//! Colours as terminals report and accept them: `rgb:rr/gg/bb`, with two
//! or four hexadecimal digits per channel.
use vstd::prelude::*;

use crate::error::Error;
use crate::text::{
    all_radix_digits, digits_value, hex_char, hex_digit_value, hex_string_padded, hexadecimal,
    lemma_hex_char, lemma_split_three,
    parse_unsigned, push_char, push_str, spec_parse_unsigned, spec_split, spec_starts_with,
    spec_trim_start_matches, split_char, split_fold, starts_with, strings_view,
    trim_start_matches, unsigned_digits, zero_pad,
};

verus! {

/// A colour as three 16-bit channels: red, green and blue.
#[derive(Debug, Clone, Copy, PartialEq, Eq, Structural)]
pub struct Color(pub u16, pub u16, pub u16);

/// Reading one channel: hexadecimal digits with an optional `+`, at most 0xFFFF.
pub open spec fn spec_channel(s: Seq<char>) -> Option<u16> {
    match spec_parse_unsigned(s, 16, 0xffff) {
        Some(n) => Some(n as u16),
        None => None,
    }
}

/// What `Color::parse` reads from `s`: `rgb:` (repeated any number of
/// times) then three channels separated by `/`.
pub open spec fn spec_parse_color(s: Seq<char>) -> Result<Color, Error> {
    if spec_starts_with(s, "rgb:"@) {
        let parts = spec_split(spec_trim_start_matches(s, "rgb:"@), '/');
        if parts.len() == 3 {
            match (spec_channel(parts[0]), spec_channel(parts[1]), spec_channel(parts[2])) {
                (Some(r), Some(g), Some(b)) => Ok(Color(r, g, b)),
                _ => Err(Error::BadColor),
            }
        } else {
            Err(Error::BadColor)
        }
    } else {
        Err(Error::BadColor)
    }
}

/// Digits per channel in the text of `c`: four when a channel exceeds 0xFF.
pub open spec fn channel_width(c: Color) -> nat {
    if c.0 > 0xff || c.1 > 0xff || c.2 > 0xff {
        4
    } else {
        2
    }
}

/// The text of a colour: `rgb:` then the channels in lower-case
/// hexadecimal, zero padded to the channel width, separated by `/`.
pub open spec fn spec_color_text(c: Color) -> Seq<char> {
    let w = channel_width(c);
    "rgb:"@ + zero_pad(hexadecimal(c.0 as nat), w) + seq!['/'] + zero_pad(hexadecimal(c.1 as nat), w)
        + seq!['/'] + zero_pad(hexadecimal(c.2 as nat), w)
}

impl Color {
    /// The colour with the given channels.
    pub fn new(r: u16, g: u16, b: u16) -> (c: Color)
        ensures
            c == Color(r, g, b),
    {
        Color(r, g, b)
    }

    /// Reads a colour written `rgb:r/g/b`, each channel in hexadecimal.
    pub fn parse(s: &str) -> (r: Result<Color, Error>)
        ensures
            r == spec_parse_color(s@),
    {
        if starts_with(s, "rgb:") {
            let rest = trim_start_matches(s, "rgb:");
            let parts = split_char(rest.as_str(), '/');
            if parts.len() == 3 {
                assert(strings_view(parts@)[0] == parts@[0]@);
                assert(strings_view(parts@)[1] == parts@[1]@);
                assert(strings_view(parts@)[2] == parts@[2]@);
                let r = parse_unsigned(parts[0].as_str(), 16, 0xffff);
                let g = parse_unsigned(parts[1].as_str(), 16, 0xffff);
                let b = parse_unsigned(parts[2].as_str(), 16, 0xffff);
                match (r, g, b) {
                    (Some(r), Some(g), Some(b)) => {
                        return Ok(Color(r as u16, g as u16, b as u16));
                    },
                    _ => {},
                }
            }
        }
        Err(Error::BadColor)
    }

    /// The three channels.
    pub fn rgb(self) -> (r: (u16, u16, u16))
        ensures
            r == (self.0, self.1, self.2),
    {
        (self.0, self.1, self.2)
    }

    /// The text of the colour, `rgb:rr/gg/bb` (or four digits per channel
    /// when a channel exceeds 0xFF).
    pub fn to_string(&self) -> (s: String)
        ensures
            s@ == spec_color_text(*self),
    {
        let w: usize = if self.0 > 0xff || self.1 > 0xff || self.2 > 0xff {
            4
        } else {
            2
        };
        let mut s = String::new();
        push_str(&mut s, "rgb:");
        let t = hex_string_padded(self.0 as u64, w);
        push_str(&mut s, t.as_str());
        push_char(&mut s, '/');
        let t = hex_string_padded(self.1 as u64, w);
        push_str(&mut s, t.as_str());
        push_char(&mut s, '/');
        let t = hex_string_padded(self.2 as u64, w);
        push_str(&mut s, t.as_str());
        assert(Seq::<char>::empty() + "rgb:"@ =~= "rgb:"@);
        s
    }
}

impl Default for Color {
    /// Black: all channels zero.
    fn default() -> (c: Color)
        ensures
            c == Color(0, 0, 0),
    {
        Color(0, 0, 0)
    }
}

/// Number of palette entries a terminal palette holds.
pub const PALETTE_SIZE: usize = 22;

/// The colours of a terminal: background, foreground and palette.
#[derive(Clone, Copy)]
pub struct TerminalPalette {
    bg: Color,
    fg: Color,
    palette: [Color; 22],
}

impl TerminalPalette {
    /// The background colour.
    pub closed spec fn spec_background(&self) -> Color {
        self.bg
    }

    /// The foreground colour.
    pub closed spec fn spec_foreground(&self) -> Color {
        self.fg
    }

    /// The palette colours.
    pub closed spec fn spec_palette(&self) -> Seq<Color> {
        self.palette@
    }

    /// Every palette has `PALETTE_SIZE` entries.
    pub proof fn lemma_palette_len(&self)
        ensures
            self.spec_palette().len() == PALETTE_SIZE,
    {
    }

    /// Sets the background colour.
    pub fn set_background(&mut self, color: Color)
        ensures
            final(self).spec_background() == color,
            final(self).spec_foreground() == old(self).spec_foreground(),
            final(self).spec_palette() == old(self).spec_palette(),
    {
        self.bg = color;
    }

    /// Sets the foreground colour.
    pub fn set_foreground(&mut self, color: Color)
        ensures
            final(self).spec_foreground() == color,
            final(self).spec_background() == old(self).spec_background(),
            final(self).spec_palette() == old(self).spec_palette(),
    {
        self.fg = color;
    }

    /// Sets palette entry `idx`.
    pub fn set_palette_color(&mut self, idx: usize, color: Color)
        requires
            idx < PALETTE_SIZE,
        ensures
            final(self).spec_palette() == old(self).spec_palette().update(idx as int, color),
            final(self).spec_background() == old(self).spec_background(),
            final(self).spec_foreground() == old(self).spec_foreground(),
    {
        self.palette[idx] = color;
    }

    /// Palette entry `idx`.
    pub fn palette_color(&self, idx: usize) -> (c: Color)
        requires
            idx < PALETTE_SIZE,
        ensures
            c == self.spec_palette()[idx as int],
    {
        self.palette[idx]
    }

    /// The background colour.
    pub fn background(&self) -> (c: Color)
        ensures
            c == self.spec_background(),
    {
        self.bg
    }

    /// The foreground colour.
    pub fn foreground(&self) -> (c: Color)
        ensures
            c == self.spec_foreground(),
    {
        self.fg
    }
}

impl Default for TerminalPalette {
    /// All colours black.
    fn default() -> (p: TerminalPalette)
        ensures
            p.spec_background() == Color(0, 0, 0),
            p.spec_foreground() == Color(0, 0, 0),
            p.spec_palette() == Seq::new(22, |i: int| Color(0, 0, 0)),
    {
        let black = Color(0, 0, 0);
        let p = TerminalPalette { bg: black, fg: black, palette: [black; 22] };
        assert(p.palette@ =~= Seq::new(22, |i: int| Color(0, 0, 0)));
        p
    }
}

proof fn lemma_hexadecimal(n: nat)
    ensures
        all_radix_digits(hexadecimal(n), 16),
        digits_value(hexadecimal(n), 16) == n,
        hexadecimal(n).len() >= 1,
        forall|i: int| 0 <= i < hexadecimal(n).len() ==> #[trigger] hexadecimal(n)[i] != '/'
            && hexadecimal(n)[i] != '+' && hexadecimal(n)[i] != 'r',
    decreases n,
{
    if n < 16 {
        lemma_hex_char(n);
        assert(hexadecimal(n) =~= seq![hex_char(n)]);
        assert(hexadecimal(n).drop_last() =~= Seq::<char>::empty());
        assert(digits_value(Seq::<char>::empty(), 16) == 0);
        assert(digits_value(hexadecimal(n), 16) == digits_value(hexadecimal(n).drop_last(), 16) * 16
            + hex_digit_value(hexadecimal(n).last()));
    } else {
        lemma_hexadecimal(n / 16);
        lemma_hex_char(n % 16);
        let h = hexadecimal(n);
        assert(h.drop_last() =~= hexadecimal(n / 16));
        assert(h.last() == hex_char(n % 16));
        assert(digits_value(h, 16) == digits_value(h.drop_last(), 16) * 16 + hex_digit_value(h.last()));
        assert(n == (n / 16) * 16 + n % 16);
        assert forall|i: int| 0 <= i < h.len() implies #[trigger] h[i] != '/' && h[i] != '+' && h[i]
            != 'r' && crate::text::is_radix_digit(h[i], 16) by {
            if i < h.len() - 1 {
                assert(h[i] == hexadecimal(n / 16)[i]);
            }
        }
    }
}

proof fn lemma_zeros_value(z: Seq<char>)
    requires
        forall|i: int| 0 <= i < z.len() ==> #[trigger] z[i] == '0',
    ensures
        digits_value(z, 16) == 0,
    decreases z.len(),
{
    if z.len() > 0 {
        lemma_zeros_value(z.drop_last());
        assert(z.last() == '0');
    }
}

proof fn lemma_leading_zeros(z: Seq<char>, s: Seq<char>)
    requires
        forall|i: int| 0 <= i < z.len() ==> #[trigger] z[i] == '0',
    ensures
        digits_value(z + s, 16) == digits_value(s, 16),
    decreases s.len(),
{
    if s.len() == 0 {
        assert(z + s =~= z);
        lemma_zeros_value(z);
    } else {
        lemma_leading_zeros(z, s.drop_last());
        assert((z + s).drop_last() =~= z + s.drop_last());
        assert((z + s).last() == s.last());
    }
}

/// The text of one channel: hexadecimal digits, at least one, free of `/`,
/// `+` and `r`, reading back as the channel.
proof fn lemma_channel_text(n: u16, w: nat)
    ensures
        zero_pad(hexadecimal(n as nat), w).len() >= 1,
        !zero_pad(hexadecimal(n as nat), w).contains('/'),
        zero_pad(hexadecimal(n as nat), w)[0] != '+',
        zero_pad(hexadecimal(n as nat), w)[0] != 'r',
        spec_channel(zero_pad(hexadecimal(n as nat), w)) == Some(n),
{
    let h = hexadecimal(n as nat);
    lemma_hexadecimal(n as nat);
    let t = zero_pad(h, w);
    if h.len() >= w {
        assert(t == h);
    } else {
        let z = Seq::new((w - h.len()) as nat, |i: int| '0');
        assert(t == z + h);
        lemma_leading_zeros(z, h);
        assert forall|i: int| 0 <= i < t.len() implies crate::text::is_radix_digit(#[trigger] t[i], 16)
            && t[i] != '/' && t[i] != '+' && t[i] != 'r' by {
            if i < z.len() {
                assert(t[i] == '0');
            } else {
                assert(t[i] == h[i - z.len()]);
            }
        }
    }
    assert(!t.contains('/')) by {
        if t.contains('/') {
            let i = choose|i: int| 0 <= i < t.len() && t[i] == '/';
            if h.len() < w {
                let z = Seq::new((w - h.len()) as nat, |i: int| '0');
                if i >= z.len() {
                    assert(t[i] == h[i - z.len()]);
                }
            }
        }
    }
    assert(unsigned_digits(t) == t);
}

/// Law: the text of a colour reads back as that colour.
pub proof fn law_color_text_roundtrip(c: Color)
    ensures
        spec_parse_color(spec_color_text(c)) == Ok::<Color, Error>(c),
{
    let w = channel_width(c);
    let a = zero_pad(hexadecimal(c.0 as nat), w);
    let b = zero_pad(hexadecimal(c.1 as nat), w);
    let d = zero_pad(hexadecimal(c.2 as nat), w);
    lemma_channel_text(c.0, w);
    lemma_channel_text(c.1, w);
    lemma_channel_text(c.2, w);
    let body = a + seq!['/'] + b + seq!['/'] + d;
    let text = spec_color_text(c);
    reveal_strlit("rgb:");
    assert(text =~= "rgb:"@ + body);
    assert(spec_starts_with(text, "rgb:"@)) by {
        assert(text.subrange(0, 4) =~= "rgb:"@);
    }
    assert(text.skip(4) =~= body);
    assert(!spec_starts_with(body, "rgb:"@)) by {
        assert(body[0] == a[0]);
        if spec_starts_with(body, "rgb:"@) {
            assert(body.subrange(0, 4)[0] == 'r');
        }
    }
    assert(spec_trim_start_matches(body, "rgb:"@) == body);
    assert(spec_trim_start_matches(text, "rgb:"@) == body);
    lemma_split_three(a, b, d, '/');
}

/// Law: `set_palette_color(idx, c)` makes entry `idx` the colour `c` and
/// leaves every other entry, the background and the foreground as they were.
pub proof fn law_set_palette_color(p: TerminalPalette, q: TerminalPalette, idx: int, c: Color)
    requires
        0 <= idx < PALETTE_SIZE,
        q.spec_palette() == p.spec_palette().update(idx, c),
        q.spec_background() == p.spec_background(),
        q.spec_foreground() == p.spec_foreground(),
    ensures
        q.spec_palette()[idx] == c,
        forall|j: int| 0 <= j < PALETTE_SIZE && j != idx ==> q.spec_palette()[j] == p.spec_palette()[j],
        q.spec_palette().len() == PALETTE_SIZE,
{
    p.lemma_palette_len();
}

} // verus!
