//! The base16 shell script: a shell template that sets a terminal's
//! palette, filled in with the colours of a scheme.
use vstd::prelude::*;

use crate::terminal::base16::{Base16Scheme, Base16View};
use crate::terminal::color::Color;
use crate::terminal::base16::spec_term_map;
use crate::text::{digit_char, hex_string_padded, hexadecimal, push_char, push_str, replace_all, spec_replace, to_owned_string, zero_pad};

verus! {

/// The shell script template; each `$colorNN` tag stands for a colour.
pub const TEMPLATE: &'static str = r##"
if [ -n "$TMUX" ]; then
  # Tell tmux to pass the escape sequences through
  # (Source: http://permalink.gmane.org/gmane.comp.terminal-emulators.tmux.user/1324)
  put_template() { printf '\033Ptmux;\033\033]4;%d;rgb:%s\033\033\\\033\\' $@; }
  put_template_var() { printf '\033Ptmux;\033\033]%d;rgb:%s\033\033\\\033\\' $@; }
  put_template_custom() { printf '\033Ptmux;\033\033]%s%s\033\033\\\033\\' $@; }
elif [ "${TERM%%[-.]*}" = "screen" ]; then
  # GNU screen (screen, screen-256color, screen-256color-bce)
  put_template() { printf '\033P\033]4;%d;rgb:%s\007\033\\' $@; }
  put_template_var() { printf '\033P\033]%d;rgb:%s\007\033\\' $@; }
  put_template_custom() { printf '\033P\033]%s%s\007\033\\' $@; }
elif [ "${TERM%%-*}" = "linux" ]; then
  put_template() { [ $1 -lt 16 ] && printf "\e]P%x%s" $1 $(echo $2 | sed 's/\///g'); }
  put_template_var() { true; }
  put_template_custom() { true; }
else
  put_template() { printf '\033]4;%d;rgb:%s\033\\' $@; }
  put_template_var() { printf '\033]%d;rgb:%s\033\\' $@; }
  put_template_custom() { printf '\033]%s%s\033\\' $@; }
fi

# 16 color space
put_template 0  $color00
put_template 1  $color01
put_template 2  $color02
put_template 3  $color03
put_template 4  $color04
put_template 5  $color05
put_template 6  $color06
put_template 7  $color07
put_template 8  $color08
put_template 9  $color09
put_template 10 $color10
put_template 11 $color11
put_template 12 $color12
put_template 13 $color13
put_template 14 $color14
put_template 15 $color15

# 256 color space
put_template 16 $color16
put_template 17 $color17
put_template 18 $color18
put_template 19 $color19
put_template 20 $color20
put_template 21 $color21

put_template_var 10 $color_foreground
put_template_var 11 $color_background
put_template_custom 12 ";7" # cursor (reverse video)

# clean up
unset -f put_template
unset -f put_template_var
unset -f put_template_custom
"##;

/// The tags of the template and the base colour each stands for, in the
/// order they are filled in.
pub open spec fn shell_tags() -> Seq<(Seq<char>, int)> {
    seq![
        ("$color_foreground"@, 5),
        ("$color_background"@, 0),
        ("$color00"@, 0),
        ("$color01"@, 8),
        ("$color02"@, 11),
        ("$color03"@, 10),
        ("$color04"@, 13),
        ("$color05"@, 14),
        ("$color06"@, 12),
        ("$color07"@, 5),
        ("$color08"@, 3),
        ("$color09"@, 8),
        ("$color10"@, 11),
        ("$color11"@, 10),
        ("$color12"@, 13),
        ("$color13"@, 14),
        ("$color14"@, 12),
        ("$color15"@, 7),
        ("$color16"@, 9),
        ("$color17"@, 15),
        ("$color18"@, 1),
        ("$color19"@, 2),
        ("$color20"@, 4),
        ("$color21"@, 6),
    ]
}

/// A colour as the template wants it: `rr/gg/bb` in lower-case
/// hexadecimal, at least two digits each.
pub open spec fn color_str_text(c: Color) -> Seq<char> {
    zero_pad(hexadecimal(c.0 as nat), 2) + seq!['/'] + zero_pad(hexadecimal(c.1 as nat), 2) + seq!['/']
        + zero_pad(hexadecimal(c.2 as nat), 2)
}

/// `out` with each tag of `tags` replaced, in order, by its colour.
pub open spec fn apply_tags(out: Seq<char>, tags: Seq<(Seq<char>, int)>, colors: Seq<Color>) -> Seq<char>
    decreases tags.len(),
{
    if tags.len() == 0 {
        out
    } else {
        apply_tags(spec_replace(out, tags[0].0, color_str_text(colors[tags[0].1])), tags.drop_first(), colors)
    }
}

/// The script for a scheme: the template with every tag filled in.
pub open spec fn spec_shell_script(v: Base16View) -> Seq<char> {
    apply_tags(TEMPLATE@, shell_tags(), v.colors)
}

/// Fills the shell template with the colours of a scheme.
pub struct Base16Shell {
    scheme: Base16Scheme,
    output: String,
}

impl Base16Shell {
    /// The script for `scheme`.
    pub fn script(scheme: &Base16Scheme) -> (r: String)
        ensures
            r@ == spec_shell_script(scheme@),
    {
        Base16Shell::new(scheme.copy()).build()
    }

    /// A shell template to fill with the colours of `scheme`.
    pub fn new(scheme: Base16Scheme) -> (r: Base16Shell)
        ensures
            r.scheme_view() == scheme@,
            r.output_view() == TEMPLATE@,
    {
        Base16Shell { scheme, output: to_owned_string(TEMPLATE) }
    }

    /// The scheme whose colours fill the template.
    pub closed spec fn scheme_view(&self) -> Base16View {
        self.scheme@
    }

    /// The text so far.
    pub closed spec fn output_view(&self) -> Seq<char> {
        self.output@
    }

    /// The template with every tag filled in.
    pub fn build(self) -> (r: String)
        requires
            self.scheme_view().colors.len() == 16,
        ensures
            r@ == apply_tags(self.output_view(), shell_tags(), self.scheme_view().colors),
    {
        let tags: Vec<(&str, usize)> = vec![
            ("$color_foreground", 5),
            ("$color_background", 0),
            ("$color00", 0),
            ("$color01", 8),
            ("$color02", 11),
            ("$color03", 10),
            ("$color04", 13),
            ("$color05", 14),
            ("$color06", 12),
            ("$color07", 5),
            ("$color08", 3),
            ("$color09", 8),
            ("$color10", 11),
            ("$color11", 10),
            ("$color12", 13),
            ("$color13", 14),
            ("$color14", 12),
            ("$color15", 7),
            ("$color16", 9),
            ("$color17", 15),
            ("$color18", 1),
            ("$color19", 2),
            ("$color20", 4),
            ("$color21", 6),
        ];
        assert(tags@.map_values(|t: (&str, usize)| (t.0@, t.1 as int)) =~= shell_tags());
        let ghost colors = self.scheme@.colors;
        let ghost goal = apply_tags(self.output@, shell_tags(), colors);
        let mut shell = self;
        let mut i: usize = 0;
        assert(shell_tags().skip(0) =~= shell_tags());
        while i < tags.len()
            invariant
                i <= tags@.len(),
                tags@.map_values(|t: (&str, usize)| (t.0@, t.1 as int)) == shell_tags(),
                shell.scheme@.colors == colors,
                colors.len() == 16,
                apply_tags(shell.output@, shell_tags().skip(i as int), colors) == goal,
            decreases tags@.len() - i,
        {
            let (tag, idx) = tags[i];
            assert(shell_tags()[i as int] == (tag@, idx as int));
            assert(shell_tags().skip(i as int).drop_first() =~= shell_tags().skip(i + 1));
            shell = shell.color(tag, idx);
            i += 1;
        }
        assert(shell_tags().skip(tags@.len() as int) =~= Seq::<(Seq<char>, int)>::empty());
        shell.output
    }

    fn color_str(&self, idx: usize) -> (r: String)
        requires
            idx < 16,
            self.scheme@.colors.len() == 16,
        ensures
            r@ == color_str_text(self.scheme@.colors[idx as int]),
    {
        let (r, g, b) = self.scheme.color(idx).rgb();
        let mut s = hex_string_padded(r as u64, 2);
        push_char(&mut s, '/');
        let t = hex_string_padded(g as u64, 2);
        push_str(&mut s, t.as_str());
        push_char(&mut s, '/');
        let t = hex_string_padded(b as u64, 2);
        push_str(&mut s, t.as_str());
        s
    }

    fn color(self, tag: &str, idx: usize) -> (r: Base16Shell)
        requires
            idx < 16,
            self.scheme@.colors.len() == 16,
        ensures
            r.scheme@ == self.scheme@,
            r.output@ == spec_replace(self.output@, tag@, color_str_text(self.scheme@.colors[idx as int])),
    {
        let c = self.color_str(idx);
        let output = replace_all(self.output.as_str(), tag, c.as_str());
        Base16Shell { scheme: self.scheme, output }
    }
}

/// The two decimal digits of `i < 100`.
pub open spec fn two_digits(i: int) -> Seq<char> {
    seq![digit_char((i / 10) as nat), digit_char((i % 10) as nat)]
}

/// Law: the base16 shell script sets each terminal palette entry to the
/// colour `terminal_palette_color` gives it: the tag `$colorNN` of entry
/// `NN` stands for base colour `spec_term_map()[NN]`, and the foreground and
/// background tags for `terminal_foreground` (base05) and
/// `terminal_background` (base00). So palette entry 2 (green) is base0B
/// and entry 4 (blue) is base0D.
pub proof fn law_palette_matches_shell_script()
    ensures
        shell_tags().len() == 2 + spec_term_map().len(),
        forall|i: int|
            0 <= i < spec_term_map().len() ==> (#[trigger] shell_tags()[i + 2]).0 == "$color"@ + two_digits(i)
                && shell_tags()[i + 2].1 == spec_term_map()[i],
        shell_tags()[0].1 == 5,
        shell_tags()[1].1 == 0,
        spec_term_map()[2] == 0x0B,
        spec_term_map()[4] == 0x0D,
{
    reveal_strlit("$color");
    reveal_strlit("$color00");
    reveal_strlit("$color01");
    reveal_strlit("$color02");
    reveal_strlit("$color03");
    reveal_strlit("$color04");
    reveal_strlit("$color05");
    reveal_strlit("$color06");
    reveal_strlit("$color07");
    reveal_strlit("$color08");
    reveal_strlit("$color09");
    reveal_strlit("$color10");
    reveal_strlit("$color11");
    reveal_strlit("$color12");
    reveal_strlit("$color13");
    reveal_strlit("$color14");
    reveal_strlit("$color15");
    reveal_strlit("$color16");
    reveal_strlit("$color17");
    reveal_strlit("$color18");
    reveal_strlit("$color19");
    reveal_strlit("$color20");
    reveal_strlit("$color21");
    assert forall|i: int|
        0 <= i < spec_term_map().len() implies (#[trigger] shell_tags()[i + 2]).0 == "$color"@ + two_digits(i)
            && shell_tags()[i + 2].1 == spec_term_map()[i] by {
        assert(digit_char(0) == '0' && digit_char(1) == '1' && digit_char(2) == '2' && digit_char(3) == '3'
            && digit_char(4) == '4' && digit_char(5) == '5' && digit_char(6) == '6' && digit_char(7) == '7'
            && digit_char(8) == '8' && digit_char(9) == '9');
        assert(shell_tags()[i + 2].0 =~= "$color"@ + two_digits(i));
    }
}

} // verus!
