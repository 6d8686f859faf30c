//! The options of one run, parsed from `<query> <path> [flags]`.
//!
//! Each flag argument may hold several letters and any number of dashes
//! (`-sx`, `-s -x`, `sx`). Whether the path names an existing directory is
//! left to the caller, which owns the file system.

use vstd::prelude::*;
use crate::matcher::{MatchConfig, folded};

verus! {

/// Why the arguments do not describe a run.
pub enum ConfigError {
    /// Fewer than two arguments: the query and the path are both needed.
    MissingArguments,
    /// The query is empty.
    EmptyQuery,
    /// This flag argument holds a letter that names no flag.
    UnknownFlag(String),
}

/// Characters a flag argument may hold: dashes and the flag letters.
pub open spec fn is_flag_char(c: char) -> bool {
    c == '-' || c == 's' || c == 'e' || c == 'x' || c == 'c' || c == 'y' || c == 'v' || c == 'l'
        || c == 'L' || c == 'o' || c == 'm'
}

/// A flag argument made of dashes and flag letters only.
pub open spec fn flag_ok(f: Seq<char>) -> bool {
    forall|j: int| 0 <= j < f.len() ==> is_flag_char(#[trigger] f[j])
}

/// Argument `i` is the first flag argument that is not well formed.
pub open spec fn first_bad_flag(args: Seq<String>, i: int) -> bool {
    &&& 2 <= i < args.len()
    &&& !flag_ok(args[i]@)
    &&& forall|k: int| 2 <= k < i ==> flag_ok(#[trigger] args[k]@)
}

/// Some flag argument holds the letter `c`.
pub open spec fn flag_given(args: Seq<String>, c: char) -> bool {
    exists|i: int, j: int| 2 <= i < args.len() && 0 <= j < args[i]@.len() && #[trigger] args[i]@[j] == c
}

/// The options of one run.
pub struct Options {
    /// The directory to scan.
    pub path: String,
    /// The query, as it was given.
    pub query: String,
    /// Match the query at the start of the base name.
    pub start: bool,
    /// Match the query at the end of the base name.
    pub end: bool,
    /// Match the query against the extension.
    pub ext: bool,
    /// Ignore case when matching.
    pub case_insensitive: bool,
    /// Delete without asking.
    pub no_ask: bool,
    /// Report progress in detail.
    pub verbose: bool,
    /// Everything after the first `.` of a filename is its extension.
    pub multi_ext: bool,
    /// Keep a log.
    pub logging: bool,
    /// Overwrite the log instead of appending to it.
    pub overwrite_logs: bool,
    /// Keep a detailed log.
    pub verbose_logging: bool,
}

/// Whether `s` holds the character `c`.
fn holds_char(s: &str, c: char) -> (r: bool)
    ensures
        r == exists|j: int| 0 <= j < s@.len() && s@[j] == c,
{
    let n = s.unicode_len();
    let mut j: usize = 0;
    while j < n
        invariant
            n == s@.len(),
            j <= n,
            forall|k: int| 0 <= k < j ==> s@[k] != c,
        decreases n - j,
    {
        if s.get_char(j) == c {
            return true;
        }
        j = j + 1;
    }
    false
}

/// Whether a flag argument holds only dashes and flag letters.
fn flag_well_formed(s: &str) -> (r: bool)
    ensures
        r == flag_ok(s@),
{
    let n = s.unicode_len();
    let mut j: usize = 0;
    while j < n
        invariant
            n == s@.len(),
            j <= n,
            forall|k: int| 0 <= k < j ==> is_flag_char(#[trigger] s@[k]),
        decreases n - j,
    {
        let c = s.get_char(j);
        if !(c == '-' || c == 's' || c == 'e' || c == 'x' || c == 'c' || c == 'y' || c == 'v'
            || c == 'l' || c == 'L' || c == 'o' || c == 'm') {
            return false;
        }
        j = j + 1;
    }
    true
}

/// Whether some flag argument of `args` holds the letter `c`.
fn given(args: &Vec<String>, c: char) -> (r: bool)
    ensures
        r == flag_given(args@, c),
{
    let mut i: usize = 2;
    while i < args.len()
        invariant
            2 <= i,
            forall|k: int, j: int|
                2 <= k < i && 0 <= j < args@[k]@.len() ==> #[trigger] args@[k]@[j] != c,
        decreases args.len() - i,
    {
        if holds_char(args[i].as_str(), c) {
            return true;
        }
        i = i + 1;
    }
    false
}

/// The first flag argument of `args` that is not well formed, if any.
fn find_bad_flag(args: &Vec<String>) -> (r: Option<usize>)
    ensures
        r matches Some(i) ==> first_bad_flag(args@, i as int),
        r is None ==> forall|k: int| 2 <= k < args@.len() ==> flag_ok(#[trigger] args@[k]@),
{
    let mut i: usize = 2;
    while i < args.len()
        invariant
            2 <= i,
            forall|k: int| 2 <= k < i && k < args@.len() ==> flag_ok(#[trigger] args@[k]@),
        decreases args.len() - i,
    {
        if !flag_well_formed(args[i].as_str()) {
            return Some(i);
        }
        i = i + 1;
    }
    None
}

impl Options {
    /// Parses `<query> <path> [flags]`. The letters are `s` (start), `e`
    /// (end), `x` (extension), `c` (ignore case), `y` (do not ask), `v`
    /// (verbose), `m` (multi-part extensions), `l` (log), `L` (detailed log)
    /// and `o` (overwrite the log).
    pub fn new(args: Vec<String>) -> (r: Result<Options, ConfigError>)
        ensures
            (args@.len() < 2) <==> r matches Err(ConfigError::MissingArguments),
            (args@.len() >= 2 && args@[0]@.len() == 0) <==> r matches Err(
                ConfigError::EmptyQuery,
            ),
            r matches Err(ConfigError::UnknownFlag(f)) ==> exists|i: int|
                first_bad_flag(args@, i) && f@ == #[trigger] args@[i]@,
            (r is Ok || r matches Err(ConfigError::UnknownFlag(_))) ==> args@.len() >= 2
                && args@[0]@.len() > 0,
            r is Ok <==> (args@.len() >= 2 && args@[0]@.len() > 0 && forall|k: int|
                2 <= k < args@.len() ==> flag_ok(#[trigger] args@[k]@)),
            r matches Ok(o) ==> {
                &&& o.query@ == args@[0]@
                &&& o.path@ == args@[1]@
                &&& o.start == flag_given(args@, 's')
                &&& o.end == flag_given(args@, 'e')
                &&& o.ext == flag_given(args@, 'x')
                &&& o.case_insensitive == flag_given(args@, 'c')
                &&& o.no_ask == flag_given(args@, 'y')
                &&& o.verbose == flag_given(args@, 'v')
                &&& o.multi_ext == flag_given(args@, 'm')
                &&& o.logging == flag_given(args@, 'l')
                &&& o.verbose_logging == flag_given(args@, 'L')
                &&& o.overwrite_logs == flag_given(args@, 'o')
            },
    {
        if args.len() < 2 {
            return Err(ConfigError::MissingArguments);
        }
        if args[0].as_str().unicode_len() == 0 {
            return Err(ConfigError::EmptyQuery);
        }
        match find_bad_flag(&args) {
            Some(i) => {
                return Err(ConfigError::UnknownFlag(args[i].clone()));
            },
            None => {},
        }
        Ok(Options {
            start: given(&args, 's'),
            end: given(&args, 'e'),
            ext: given(&args, 'x'),
            case_insensitive: given(&args, 'c'),
            no_ask: given(&args, 'y'),
            verbose: given(&args, 'v'),
            multi_ext: given(&args, 'm'),
            logging: given(&args, 'l'),
            verbose_logging: given(&args, 'L'),
            overwrite_logs: given(&args, 'o'),
            path: args[1].clone(),
            query: args[0].clone(),
        })
    }

    /// The directory to scan.
    pub fn path(&self) -> (r: &str)
        ensures
            r@ == self.path@,
    {
        self.path.as_str()
    }

    /// The query, as it was given.
    pub fn query(&self) -> (r: &str)
        ensures
            r@ == self.query@,
    {
        self.query.as_str()
    }

    /// The matching rules these options describe, with the query folded
    /// once when case is to be ignored.
    pub fn match_config(&self) -> (c: MatchConfig)
        ensures
            c.query@ == folded(self.case_insensitive, self.query@),
            c.start == self.start,
            c.end == self.end,
            c.extension == self.ext,
            c.case_insensitive == self.case_insensitive,
            c.multi_ext == self.multi_ext,
    {
        MatchConfig::new(
            self.query.as_str(),
            self.start,
            self.end,
            self.ext,
            self.case_insensitive,
            self.multi_ext,
        )
    }
}

} // verus!
