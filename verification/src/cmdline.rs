//! The kernel command line, parsed into a map of variables.
//!
//! A variable is either a flag (`name`) or carries a value (`name=value`,
//! `name="quoted value"`).
use vstd::prelude::*;

use crate::strmap::StrMap;
use crate::text::{
    chars_of, is_ascii, is_ascii_alphanumeric, is_whitespace, push_char, spec_is_ascii,
    spec_is_ascii_alphanumeric, spec_is_whitespace, spec_split_once, split_once, to_owned_string,
};

verus! {

/// Model of the parser state between two characters.
pub enum SpecState {
    /// Between options.
    Whitespace,
    /// Inside an option name.
    Name(Seq<char>),
    /// Inside an unquoted value.
    Value(Seq<char>, Seq<char>),
    /// After a leading dash.
    InDash,
    /// Inside a quoted value.
    InQuoted(Seq<char>, Seq<char>),
    /// After the closing quote of a value.
    QuotedEnd(Seq<char>, Seq<char>),
    /// Inside a malformed option, up to the next whitespace.
    Bad,
}

/// Model of the variables: name to optional value.
pub type VarMap = Map<Seq<char>, Option<Seq<char>>>;

/// One step of the parser on character `c`.
pub open spec fn step(st: SpecState, vars: VarMap, c: char) -> (SpecState, VarMap) {
    match st {
        SpecState::Whitespace => {
            if spec_is_whitespace(c) {
                (SpecState::Whitespace, vars)
            } else if spec_is_ascii_alphanumeric(c) {
                (SpecState::Name(seq![c]), vars)
            } else {
                (SpecState::Bad, vars)
            }
        },
        SpecState::Name(name) => {
            if c == '_' || c == '-' {
                (SpecState::Name(name.push('-')), vars)
            } else if c == '=' {
                (SpecState::Value(name, seq![]), vars)
            } else if spec_is_whitespace(c) {
                (SpecState::Whitespace, vars.insert(name, None))
            } else if spec_is_ascii_alphanumeric(c) || c == '.' {
                (SpecState::Name(name.push(c)), vars)
            } else {
                (SpecState::Bad, vars)
            }
        },
        SpecState::Value(name, value) => {
            if c == '"' && value.len() == 0 {
                (SpecState::InQuoted(name, value), vars)
            } else if spec_is_whitespace(c) {
                (SpecState::Whitespace, vars.insert(name, Some(value)))
            } else if spec_is_ascii(c) {
                (SpecState::Value(name, value.push(c)), vars)
            } else {
                (SpecState::Bad, vars)
            }
        },
        SpecState::InDash => {
            if spec_is_whitespace(c) {
                (SpecState::Whitespace, vars)
            } else if c == '-' {
                (SpecState::InDash, vars)
            } else {
                (SpecState::Bad, vars)
            }
        },
        SpecState::InQuoted(name, value) => {
            if c == '"' {
                (SpecState::QuotedEnd(name, value), vars)
            } else {
                (SpecState::InQuoted(name, value.push(c)), vars)
            }
        },
        SpecState::QuotedEnd(name, value) => {
            if spec_is_whitespace(c) {
                (SpecState::Whitespace, vars.insert(name, Some(value)))
            } else {
                (SpecState::Bad, vars)
            }
        },
        SpecState::Bad => {
            if spec_is_whitespace(c) {
                (SpecState::Whitespace, vars)
            } else {
                (SpecState::Bad, vars)
            }
        },
    }
}

/// The parser run over `s`, from the initial state.
pub open spec fn run(s: Seq<char>) -> (SpecState, VarMap)
    decreases s.len(),
{
    if s.len() == 0 {
        (SpecState::Whitespace, Map::empty())
    } else {
        let (st, vars) = run(s.drop_last());
        step(st, vars, s.last())
    }
}

/// The variables of the command line `s`: the parser run over `s` followed
/// by one space, so that the last option is completed.
pub open spec fn spec_parse_cmdline(s: Seq<char>) -> VarMap {
    run(s.push(' ')).1
}

/// Parser state between two characters.
enum ParseState {
    Whitespace,
    Name(String),
    Value(String, String),
    InDash,
    InQuoted(String, String),
    QuotedEnd(String, String),
    Bad,
}

impl View for ParseState {
    type V = SpecState;

    closed spec fn view(&self) -> SpecState {
        match self {
            ParseState::Whitespace => SpecState::Whitespace,
            ParseState::Name(n) => SpecState::Name(n@),
            ParseState::Value(n, v) => SpecState::Value(n@, v@),
            ParseState::InDash => SpecState::InDash,
            ParseState::InQuoted(n, v) => SpecState::InQuoted(n@, v@),
            ParseState::QuotedEnd(n, v) => SpecState::QuotedEnd(n@, v@),
            ParseState::Bad => SpecState::Bad,
        }
    }
}

/// Parser for the kernel command line.
struct CommandLineParser {
    cmdline: String,
    varmap: StrMap<Option<String>>,
    pos: usize,
}

impl CommandLineParser {
    /// A parser for `cmdline`.
    fn new(cmdline: String) -> (p: Self)
        ensures
            p.cmdline@ == cmdline@,
            p.varmap@ == VarMap::empty(),
    {
        CommandLineParser { cmdline, varmap: StrMap::new(), pos: 0 }
    }

    /// Runs the parser over the whole command line and returns the variables.
    fn parse(self) -> (vars: StrMap<Option<String>>)
        requires
            self.varmap@ == VarMap::empty(),
        ensures
            vars@ == spec_parse_cmdline(self.cmdline@),
    {
        let mut this = self;
        let v = chars_of(this.cmdline.as_str());
        let ghost s = this.cmdline@;
        let mut state = ParseState::Whitespace;
        let mut i: usize = 0;
        while i < v.len()
            invariant
                i <= v.len(),
                v@ == s,
                (state@, this.varmap@) == run(v@.take(i as int)),
            decreases v.len() - i,
        {
            assert(v@.take(i + 1).drop_last() =~= v@.take(i as int));
            state = this.step(state, v[i]);
            if this.pos < usize::MAX {
                this.pos = this.pos + 1;
            }
            i += 1;
        }
        assert(v@.take(v@.len() as int) =~= s);
        assert(s.push(' ').drop_last() =~= s);
        let _ = this.step(state, ' ');
        this.varmap
    }

    /// Advances the parser by one character.
    fn step(&mut self, state: ParseState, c: char) -> (next: ParseState)
        ensures
            (next@, final(self).varmap@) == step(state@, old(self).varmap@, c),
    {
        match state {
            ParseState::Whitespace => self.parse_whitespace(c),
            ParseState::Name(name) => self.parse_name(c, name),
            ParseState::Value(name, value) => self.parse_value(c, name, value),
            ParseState::InDash => self.parse_in_dash(c),
            ParseState::InQuoted(name, value) => self.parse_in_quoted(c, name, value),
            ParseState::QuotedEnd(name, value) => self.parse_quoted_end(c, name, value),
            ParseState::Bad => self.parse_bad(c),
        }
    }

    fn parse_whitespace(&mut self, c: char) -> (next: ParseState)
        ensures
            (next@, final(self).varmap@) == step(SpecState::Whitespace, old(self).varmap@, c),
    {
        if is_whitespace(c) {
            ParseState::Whitespace
        } else if is_ascii_alphanumeric(c) {
            let mut name = String::new();
            push_char(&mut name, c);
            assert(name@ =~= seq![c]);
            ParseState::Name(name)
        } else {
            self.unexpected_char(c)
        }
    }

    fn parse_name(&mut self, c: char, name: String) -> (next: ParseState)
        ensures
            (next@, final(self).varmap@) == step(SpecState::Name(name@), old(self).varmap@, c),
    {
        let mut name = name;
        if c == '_' || c == '-' {
            push_char(&mut name, '-');
            ParseState::Name(name)
        } else if c == '=' {
            ParseState::Value(name, String::new())
        } else if is_whitespace(c) {
            self.varmap.insert(name, None);
            ParseState::Whitespace
        } else if is_ascii_alphanumeric(c) || c == '.' {
            push_char(&mut name, c);
            ParseState::Name(name)
        } else {
            self.unexpected_char(c)
        }
    }

    fn parse_value(&mut self, c: char, name: String, value: String) -> (next: ParseState)
        ensures
            (next@, final(self).varmap@) == step(
                SpecState::Value(name@, value@),
                old(self).varmap@,
                c,
            ),
    {
        let mut value = value;
        if c == '"' && value.as_str().is_empty() {
            ParseState::InQuoted(name, value)
        } else if is_whitespace(c) {
            self.varmap.insert(name, Some(value));
            ParseState::Whitespace
        } else if is_ascii(c) {
            push_char(&mut value, c);
            ParseState::Value(name, value)
        } else {
            self.unexpected_char(c)
        }
    }

    fn parse_in_dash(&mut self, c: char) -> (next: ParseState)
        ensures
            (next@, final(self).varmap@) == step(SpecState::InDash, old(self).varmap@, c),
    {
        // Only a double dash is expected, but any number of dashes is accepted.
        if is_whitespace(c) {
            ParseState::Whitespace
        } else if c == '-' {
            ParseState::InDash
        } else {
            self.unexpected_char(c)
        }
    }

    fn parse_in_quoted(&mut self, c: char, name: String, value: String) -> (next: ParseState)
        ensures
            (next@, final(self).varmap@) == step(
                SpecState::InQuoted(name@, value@),
                old(self).varmap@,
                c,
            ),
    {
        let mut value = value;
        if c == '"' {
            ParseState::QuotedEnd(name, value)
        } else {
            push_char(&mut value, c);
            ParseState::InQuoted(name, value)
        }
    }

    fn parse_quoted_end(&mut self, c: char, name: String, value: String) -> (next: ParseState)
        ensures
            (next@, final(self).varmap@) == step(
                SpecState::QuotedEnd(name@, value@),
                old(self).varmap@,
                c,
            ),
    {
        if is_whitespace(c) {
            self.varmap.insert(name, Some(value));
            return ParseState::Whitespace;
        }
        self.unexpected_char(c)
    }

    fn parse_bad(&mut self, c: char) -> (next: ParseState)
        ensures
            (next@, final(self).varmap@) == step(SpecState::Bad, old(self).varmap@, c),
    {
        if is_whitespace(c) {
            ParseState::Whitespace
        } else {
            ParseState::Bad
        }
    }

    /// A character that cannot start or continue an option: the parser skips
    /// to the next whitespace.
    fn unexpected_char(&self, c: char) -> (next: ParseState)
        ensures
            next == ParseState::Bad,
    {
        ParseState::Bad
    }
}

/// Kernel command line parsed into a map of variables. The value is optional
/// since some variables are flags and have no value.
pub struct CommandLine {
    varmap: StrMap<Option<String>>,
}

impl View for CommandLine {
    type V = VarMap;

    closed spec fn view(&self) -> VarMap {
        self.varmap@
    }
}

/// The value of `name` in `vars`, if it is present with a value.
pub open spec fn spec_value(vars: VarMap, name: Seq<char>) -> Option<Seq<char>> {
    if vars.contains_key(name) {
        vars[name]
    } else {
        None
    }
}

/// The name part of a `name:pubkey` channel value.
pub open spec fn spec_channel_name(vars: VarMap) -> Option<Seq<char>> {
    match spec_value(vars, "citadel.channel"@) {
        Some(ch) => Some(spec_split_once(ch, ':').0),
        None => None,
    }
}

/// The public key part of a `name:pubkey` channel value.
pub open spec fn spec_channel_pubkey(vars: VarMap) -> Option<Seq<char>> {
    match spec_value(vars, "citadel.channel"@) {
        Some(ch) => spec_split_once(ch, ':').1,
        None => None,
    }
}

impl CommandLine {
    /// A command line without any variable.
    pub fn new() -> (cl: Self)
        ensures
            cl@ == VarMap::empty(),
    {
        CommandLine { varmap: StrMap::new() }
    }

    /// Parses the text of a kernel command line (the contents of `/proc/cmdline`).
    pub fn parse(cmdline: &str) -> (cl: Self)
        ensures
            cl@ == spec_parse_cmdline(cmdline@),
    {
        let p = CommandLineParser::new(to_owned_string(cmdline));
        CommandLine { varmap: p.parse() }
    }

    /// Returns true if the variable `name` is present on the kernel command line.
    pub fn var_exists(&self, name: &str) -> (r: bool)
        ensures
            r == self@.contains_key(name@),
    {
        self.varmap.contains_key(name)
    }

    /// Return a value for the variable `name` if a value is present on the kernel
    /// command line for this variable. Returns `None` if the variable does not exist
    /// or if it is present but does not have a value.
    pub fn get_value(&self, name: &str) -> (r: Option<&str>)
        ensures
            match r {
                Some(v) => spec_value(self@, name@) == Some(v@),
                None => spec_value(self@, name@) is None,
            },
    {
        match self.varmap.get(name) {
            Some(val) => match val {
                Some(v) => Some(v.as_str()),
                None => None,
            },
            None => None,
        }
    }

    /// Return `true` if variable citadel.noverity is present on kernel command line.
    pub fn noverity(&self) -> (r: bool)
        ensures
            r == self@.contains_key("citadel.noverity"@),
    {
        self.var_exists("citadel.noverity")
    }

    /// Return `true` if variable citadel.nosignatures is present on kernel command line.
    pub fn nosignatures(&self) -> (r: bool)
        ensures
            r == self@.contains_key("citadel.nosignatures"@),
    {
        self.var_exists("citadel.nosignatures")
    }

    /// Return `true` if variable citadel.install is present on kernel command line.
    pub fn install_mode(&self) -> (r: bool)
        ensures
            r == self@.contains_key("citadel.install"@),
    {
        self.var_exists("citadel.install")
    }

    /// Return `true` if variable citadel.live is present on kernel command line.
    pub fn live_mode(&self) -> (r: bool)
        ensures
            r == self@.contains_key("citadel.live"@),
    {
        self.var_exists("citadel.live")
    }

    /// Return `true` if variable citadel.recovery is present on kernel command line.
    pub fn recovery_mode(&self) -> (r: bool)
        ensures
            r == self@.contains_key("citadel.recovery"@),
    {
        self.var_exists("citadel.recovery")
    }

    /// Return `true` if variable citadel.overlay is present on kernel command line.
    pub fn overlay(&self) -> (r: bool)
        ensures
            r == self@.contains_key("citadel.overlay"@),
    {
        self.var_exists("citadel.overlay")
    }

    /// Return `true` if sealed realmfs images are enabled on kernel command line.
    pub fn sealed(&self) -> (r: bool)
        ensures
            r == self@.contains_key("citadel.sealed"@),
    {
        self.var_exists("citadel.sealed")
    }

    /// The value of citadel.channel, if present.
    pub fn channel(&self) -> (r: Option<&str>)
        ensures
            match r {
                Some(v) => spec_value(self@, "citadel.channel"@) == Some(v@),
                None => spec_value(self@, "citadel.channel"@) is None,
            },
    {
        self.get_value("citadel.channel")
    }

    fn _channel(&self) -> (r: Option<(String, Option<String>)>)
        ensures
            match r {
                Some((name, pubkey)) => {
                    &&& spec_channel_name(self@) == Some(name@)
                    &&& match pubkey {
                        Some(k) => spec_channel_pubkey(self@) == Some(k@),
                        None => spec_channel_pubkey(self@) is None,
                    }
                },
                None => spec_channel_name(self@) is None && spec_channel_pubkey(self@) is None,
            },
    {
        match self.channel() {
            Some(channel) => {
                let (name, pubkey) = split_once(channel, ':');
                Some((name, pubkey))
            },
            None => None,
        }
    }

    /// The channel name of a `citadel.channel=name[:pubkey]` variable.
    pub fn channel_name(&self) -> (r: Option<String>)
        ensures
            match r {
                Some(n) => spec_channel_name(self@) == Some(n@),
                None => spec_channel_name(self@) is None,
            },
    {
        match self._channel() {
            Some((name, _)) => Some(name),
            None => None,
        }
    }

    /// The hex encoded public key of a `citadel.channel=name:pubkey` variable.
    pub fn channel_pubkey(&self) -> (r: Option<String>)
        ensures
            match r {
                Some(k) => spec_channel_pubkey(self@) == Some(k@),
                None => spec_channel_pubkey(self@) is None,
            },
    {
        match self._channel() {
            Some((_, pubkey)) => pubkey,
            None => None,
        }
    }

    /// Return `true` if variable citadel.verbose is present on kernel command line.
    pub fn verbose(&self) -> (r: bool)
        ensures
            r == self@.contains_key("citadel.verbose"@),
    {
        self.var_exists("citadel.verbose")
    }

    /// Return `true` if variable citadel.debug is present on kernel command line.
    pub fn debug(&self) -> (r: bool)
        ensures
            r == self@.contains_key("citadel.debug"@),
    {
        self.var_exists("citadel.debug")
    }
}

/// The parser run over `s` from state `st` with variables `vars`.
pub open spec fn run_from(st: SpecState, vars: VarMap, s: Seq<char>) -> (SpecState, VarMap)
    decreases s.len(),
{
    if s.len() == 0 {
        (st, vars)
    } else {
        let (st2, vars2) = step(st, vars, s[0]);
        run_from(st2, vars2, s.drop_first())
    }
}

/// A character that an option name may hold after its first one and keep as it is.
pub open spec fn is_name_char(c: char) -> bool {
    spec_is_ascii_alphanumeric(c) || c == '.' || c == '-'
}

/// `name` is an option name that the parser records unchanged.
pub open spec fn is_plain_name(name: Seq<char>) -> bool {
    &&& name.len() > 0
    &&& spec_is_ascii_alphanumeric(name[0])
    &&& forall|i: int| 0 <= i < name.len() ==> is_name_char(#[trigger] name[i])
}

/// `value` is an unquoted value that the parser records unchanged.
pub open spec fn is_plain_value(value: Seq<char>) -> bool {
    &&& value.len() > 0 ==> value[0] != '"'
    &&& forall|i: int|
        0 <= i < value.len() ==> spec_is_ascii(#[trigger] value[i]) && !spec_is_whitespace(value[i])
}

proof fn lemma_run_from_push(st: SpecState, vars: VarMap, s: Seq<char>, c: char)
    ensures
        run_from(st, vars, s.push(c)) == ({
            let (st2, vars2) = run_from(st, vars, s);
            step(st2, vars2, c)
        }),
    decreases s.len(),
{
    if s.len() == 0 {
        lemma_run_from_one(st, vars, c);
        assert(s.push(c) =~= seq![c]);
    } else {
        let (st1, vars1) = step(st, vars, s[0]);
        assert(s.push(c).drop_first() =~= s.drop_first().push(c));
        assert(s.push(c)[0] == s[0]);
        lemma_run_from_push(st1, vars1, s.drop_first(), c);
    }
}

proof fn lemma_run_from_one(st: SpecState, vars: VarMap, c: char)
    ensures
        run_from(st, vars, seq![c]) == step(st, vars, c),
{
    assert(seq![c].drop_first() =~= Seq::<char>::empty());
    reveal_with_fuel(run_from, 2);
}

proof fn lemma_run_concat(a: Seq<char>, b: Seq<char>)
    ensures
        run(a + b) == run_from(run(a).0, run(a).1, b),
    decreases b.len(),
{
    if b.len() == 0 {
        assert(a + b =~= a);
    } else {
        let b0 = b.drop_last();
        assert((a + b).drop_last() =~= a + b0);
        assert((a + b).last() == b.last());
        lemma_run_concat(a, b0);
        assert(b0.push(b.last()) =~= b);
        lemma_run_from_push(run(a).0, run(a).1, b0, b.last());
    }
}

proof fn lemma_run_from_concat(st: SpecState, vars: VarMap, a: Seq<char>, b: Seq<char>)
    ensures
        run_from(st, vars, a + b) == ({
            let (st2, vars2) = run_from(st, vars, a);
            run_from(st2, vars2, b)
        }),
    decreases a.len(),
{
    if a.len() > 0 {
        let (st1, vars1) = step(st, vars, a[0]);
        assert((a + b).drop_first() =~= a.drop_first() + b);
        assert((a + b)[0] == a[0]);
        lemma_run_from_concat(st1, vars1, a.drop_first(), b);
    }
}

proof fn lemma_name_chars(prefix: Seq<char>, vars: VarMap, rest: Seq<char>)
    requires
        forall|i: int| 0 <= i < rest.len() ==> is_name_char(#[trigger] rest[i]),
    ensures
        run_from(SpecState::Name(prefix), vars, rest) == (SpecState::Name(prefix + rest), vars),
    decreases rest.len(),
{
    if rest.len() == 0 {
        assert(prefix + rest =~= prefix);
    } else {
        let c = rest[0];
        assert(is_name_char(rest[0]));
        assert(!spec_is_whitespace(c));
        assert(c != '=');
        assert(step(SpecState::Name(prefix), vars, c) == (SpecState::Name(prefix.push(c)), vars));
        assert forall|i: int| 0 <= i < rest.drop_first().len() implies is_name_char(
            #[trigger] rest.drop_first()[i],
        ) by {
            assert(rest.drop_first()[i] == rest[i + 1]);
        }
        lemma_name_chars(prefix.push(c), vars, rest.drop_first());
        assert(prefix.push(c) + rest.drop_first() =~= prefix + rest);
    }
}

proof fn lemma_value_chars(name: Seq<char>, prefix: Seq<char>, vars: VarMap, rest: Seq<char>)
    requires
        prefix.len() == 0 && rest.len() > 0 ==> rest[0] != '"',
        forall|i: int|
            0 <= i < rest.len() ==> spec_is_ascii(#[trigger] rest[i]) && !spec_is_whitespace(rest[i]),
    ensures
        run_from(SpecState::Value(name, prefix), vars, rest) == (
            SpecState::Value(name, prefix + rest),
            vars,
        ),
    decreases rest.len(),
{
    if rest.len() == 0 {
        assert(prefix + rest =~= prefix);
    } else {
        let c = rest[0];
        assert(spec_is_ascii(rest[0]) && !spec_is_whitespace(rest[0]));
        assert(step(SpecState::Value(name, prefix), vars, c) == (
            SpecState::Value(name, prefix.push(c)),
            vars,
        ));
        assert forall|i: int| 0 <= i < rest.drop_first().len() implies spec_is_ascii(
            #[trigger] rest.drop_first()[i],
        ) && !spec_is_whitespace(rest.drop_first()[i]) by {
            assert(rest.drop_first()[i] == rest[i + 1]);
        }
        lemma_value_chars(name, prefix.push(c), vars, rest.drop_first());
        assert(prefix.push(c) + rest.drop_first() =~= prefix + rest);
    }
}

proof fn lemma_name_phase(vars: VarMap, name: Seq<char>)
    requires
        is_plain_name(name),
    ensures
        run_from(SpecState::Whitespace, vars, name) == (SpecState::Name(name), vars),
{
    let c = name[0];
    assert(!spec_is_whitespace(c));
    assert(step(SpecState::Whitespace, vars, c) == (SpecState::Name(seq![c]), vars));
    let rest = name.drop_first();
    assert forall|i: int| 0 <= i < rest.len() implies is_name_char(#[trigger] rest[i]) by {
        assert(rest[i] == name[i + 1]);
    }
    lemma_name_chars(seq![c], vars, rest);
    assert(seq![c] + rest =~= name);
}

proof fn lemma_space_leaves_quotes(s: Seq<char>)
    requires
        !(run(s).0 is InQuoted),
    ensures
        run(s.push(' ')).0 is Whitespace,
{
    assert(s.push(' ').drop_last() =~= s);
    assert(spec_is_whitespace(' '));
}

/// A command line that ends outside a quoted value, followed by a space and
/// `name=value`, holds the variables of the first line and `name` with
/// `value`: an option given last on the line sets its value, whatever the
/// line held before.
pub proof fn law_value_option_appended(s: Seq<char>, name: Seq<char>, value: Seq<char>)
    requires
        !(run(s).0 is InQuoted),
        is_plain_name(name),
        is_plain_value(value),
    ensures
        spec_parse_cmdline(s + seq![' '] + name + seq!['='] + value) == spec_parse_cmdline(s).insert(
            name,
            Some(value),
        ),
        spec_value(spec_parse_cmdline(s + seq![' '] + name + seq!['='] + value), name) == Some(value),
{
    let t = s.push(' ');
    let line = s + seq![' '] + name + seq!['='] + value;
    let tail = name + seq!['='] + value + seq![' '];
    assert(line.push(' ') =~= t + tail);
    lemma_space_leaves_quotes(s);
    lemma_run_concat(t, tail);
    let vars = run(t).1;
    assert(spec_parse_cmdline(s) == vars) by {
        assert(t.drop_last() =~= s);
    }
    lemma_run_from_concat(SpecState::Whitespace, vars, name, seq!['='] + value + seq![' ']);
    assert(tail =~= name + (seq!['='] + value + seq![' ']));
    lemma_name_phase(vars, name);
    let after_eq = value + seq![' '];
    assert(seq!['='] + value + seq![' '] =~= seq!['='] + after_eq);
    lemma_run_from_concat(SpecState::Name(name), vars, seq!['='], after_eq);
    lemma_run_from_one(SpecState::Name(name), vars, '=');
    assert(run_from(SpecState::Name(name), vars, seq!['=']) == (
        SpecState::Value(name, Seq::<char>::empty()),
        vars,
    ));
    lemma_run_from_concat(SpecState::Value(name, Seq::<char>::empty()), vars, value, seq![' ']);
    lemma_value_chars(name, Seq::<char>::empty(), vars, value);
    assert(Seq::<char>::empty() + value =~= value);
    assert(spec_is_whitespace(' '));
    lemma_run_from_one(SpecState::Value(name, value), vars, ' ');
    assert(run_from(SpecState::Value(name, value), vars, seq![' ']) == (
        SpecState::Whitespace,
        vars.insert(name, Some(value)),
    ));
}

/// A command line that ends outside a quoted value, followed by a space and
/// the flag `name`, holds the variables of the first line and `name` without a
/// value: the flag is present and `get_value` gives nothing for it.
pub proof fn law_flag_appended(s: Seq<char>, name: Seq<char>)
    requires
        !(run(s).0 is InQuoted),
        is_plain_name(name),
    ensures
        spec_parse_cmdline(s + seq![' '] + name) == spec_parse_cmdline(s).insert(name, None),
        spec_parse_cmdline(s + seq![' '] + name).contains_key(name),
        spec_value(spec_parse_cmdline(s + seq![' '] + name), name) is None,
{
    let t = s.push(' ');
    let line = s + seq![' '] + name;
    let tail = name + seq![' '];
    assert(line.push(' ') =~= t + tail);
    lemma_space_leaves_quotes(s);
    lemma_run_concat(t, tail);
    let vars = run(t).1;
    assert(spec_parse_cmdline(s) == vars) by {
        assert(t.drop_last() =~= s);
    }
    lemma_run_from_concat(SpecState::Whitespace, vars, name, seq![' ']);
    lemma_name_phase(vars, name);
    assert(spec_is_whitespace(' '));
    lemma_run_from_one(SpecState::Name(name), vars, ' ');
}

} // verus!
