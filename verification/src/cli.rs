//! The options of a run, as the command line gives them.

use std::path::PathBuf;
use vstd::prelude::*;

verus! {

/// `std::path::PathBuf`. A path is carried through as it is: nothing here
/// looks inside one.
#[verifier::external_type_specification]
#[verifier::external_body]
pub struct ExPathBuf(PathBuf);

/// `Clone::clone` of the standard library on a `PathBuf`: the copy is the
/// same path.
pub assume_specification[ <PathBuf as Clone>::clone ](path: &PathBuf) -> (copy: PathBuf)
    ensures
        copy == *path,
;

/// The path that `Path::join` of the standard library makes of the
/// directory `dir` and the name `name`: the name adjoined to the directory,
/// or the name alone where it is an absolute path.
pub uninterp spec fn joined_path(dir: PathBuf, name: Seq<char>) -> PathBuf;

/// Calls `Path::join` on a directory and a name. All that is claimed of the
/// result is that it is what `Path::join` makes of these two, and of nothing
/// else.
#[verifier::external_body]
fn join(dir: &PathBuf, name: &str) -> (path: PathBuf)
    ensures
        path == joined_path(*dir, name@),
{
    dir.join(name)
}

/// The arguments of the command line.
#[derive(Debug)]
pub struct Cli {
    /// Path to the directory that holds the file.
    pub path: PathBuf,
    /// Name of the file to check, or a glob pattern.
    pub file_name: String,
    /// Enable verbose output.
    pub verbose: bool,
    /// Fix violations where that is possible.
    pub fix: bool,
    /// Show what a fix would do, without writing.
    pub dry_run: bool,
}

/// The options of a run.
#[derive(Debug, Clone)]
pub struct Config {
    pub path: PathBuf,
    pub filename: String,
    pub verbose: bool,
    pub fix: bool,
    pub dry_run: bool,
}

/// Whether `c` is one of the characters that make a name a glob pattern.
pub open spec fn is_glob_char(c: char) -> bool {
    c == '*' || c == '?' || c == '['
}

/// Whether `name` is a glob pattern rather than the name of one file.
pub open spec fn is_glob_pattern(name: Seq<char>) -> bool {
    exists|i: int| 0 <= i < name.len() && is_glob_char(#[trigger] name[i])
}

impl Config {
    /// The options that the arguments ask for: each field is taken over.
    pub fn from_cli(cli: Cli) -> (config: Self)
        ensures
            config.path == cli.path,
            config.filename == cli.file_name,
            config.verbose == cli.verbose,
            config.fix == cli.fix,
            config.dry_run == cli.dry_run,
    {
        Self {
            path: cli.path,
            filename: cli.file_name,
            verbose: cli.verbose,
            fix: cli.fix,
            dry_run: cli.dry_run,
        }
    }

    /// The file to check: the file name, joined to the directory.
    pub fn file_path(&self) -> (path: PathBuf)
        ensures
            path == joined_path(self.path, self.filename@),
    {
        join(&self.path, self.filename.as_str())
    }

    /// Whether the file name stands for many files: it does if it holds
    /// `*`, `?` or `[`.
    pub fn names_pattern(&self) -> (pattern: bool)
        ensures
            pattern == is_glob_pattern(self.filename@),
    {
        let name = self.filename.as_str();
        for ch in chars: name.chars()
            invariant
                chars.seq() == name@,
                name@ == self.filename@,
                forall|i: int| 0 <= i < chars.index() ==> !is_glob_char(#[trigger] name@[i]),
        {
            if ch == '*' || ch == '?' || ch == '[' {
                assert(is_glob_char(name@[chars.index() as int]));
                return true;
            }
        }
        false
    }
}

} // verus!
