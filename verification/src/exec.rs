//! Running external commands: their arguments, where they are looked for,
//! and how their exit status is judged.
use vstd::prelude::*;

use crate::error::Error;
use crate::path::{join, spec_join};
use crate::text::{spec_split, spec_split_whitespace, split_char, split_whitespace, strings_view};

verus! {

/// The arguments of a command given as one line: its words.
pub fn command_args(args: &str) -> (r: Vec<String>)
    ensures
        strings_view(r@) == spec_split_whitespace(args@),
{
    split_whitespace(args)
}

/// The places a command named `filename` is looked for: each entry of the
/// `PATH` value, split at `:`, with the name joined to it.
pub fn search_path_candidates(path_var: &str, filename: &str) -> (r: Vec<String>)
    ensures
        strings_view(r@) == spec_split(path_var@, ':').map_values(|d: Seq<char>| spec_join(d, filename@)),
{
    let dirs = split_char(path_var, ':');
    let ghost ds = strings_view(dirs@);
    let mut out: Vec<String> = Vec::new();
    let mut i: usize = 0;
    while i < dirs.len()
        invariant
            i <= dirs@.len(),
            ds == strings_view(dirs@),
            ds == spec_split(path_var@, ':'),
            strings_view(out@) == ds.take(i as int).map_values(|d: Seq<char>| spec_join(d, filename@)),
        decreases dirs@.len() - i,
    {
        let p = join(dirs[i].as_str(), filename);
        let ghost before = strings_view(out@);
        out.push(p);
        assert(ds[i as int] == dirs@[i as int]@);
        assert(strings_view(out@) =~= before.push(p@));
        assert(ds.take(i + 1).map_values(|d: Seq<char>| spec_join(d, filename@)) =~= ds.take(i as int).map_values(
            |d: Seq<char>| spec_join(d, filename@),
        ).push(spec_join(ds[i as int], filename@)));
        i += 1;
    }
    assert(ds.take(dirs@.len() as int) =~= ds);
    out
}

/// How a command ended.
#[derive(Debug, Clone, Copy, PartialEq, Eq, Structural)]
pub enum CommandFailure {
    /// It exited with this code.
    ExitCode(i32),
    /// It was ended by a signal.
    NoExitCode,
}

/// Judges a command's exit status: success, or how it failed.
pub fn check_cmd_status(success: bool, code: Option<i32>) -> (r: Result<(), CommandFailure>)
    ensures
        success ==> r is Ok,
        !success ==> match code {
            Some(c) => r == Err::<(), CommandFailure>(CommandFailure::ExitCode(c)),
            None => r == Err::<(), CommandFailure>(CommandFailure::NoExitCode),
        },
{
    if !success {
        match code {
            Some(c) => return Err(CommandFailure::ExitCode(c)),
            None => return Err(CommandFailure::NoExitCode),
        }
    }
    Ok(())
}

} // verus!
