//! Deciding whether a filename matches a query.
//!
//! Start and end mode look at the base name, not the whole filename: the
//! extension is split off first, by the configured extension policy.

use vstd::prelude::*;
use crate::name::{base_of, ext_of, decompose};
use crate::text::{lower_of, lowercase, has_prefix, has_suffix, same_text};

verus! {

/// The matching rules of one run. When `case_insensitive` is set, `query`
/// is held already in lowercase (see [`MatchConfig::new`]).
pub struct MatchConfig {
    pub query: String,
    pub start: bool,
    pub end: bool,
    pub extension: bool,
    pub case_insensitive: bool,
    pub multi_ext: bool,
}

/// The query with one leading `.` removed, if it has one.
pub open spec fn strip_dot(q: Seq<char>) -> Seq<char> {
    if q.len() > 0 && q[0] == '.' {
        q.drop_first()
    } else {
        q
    }
}

/// Extension mode: the query, without a leading `.`, is the extension.
pub open spec fn ext_matches(ext: Seq<char>, q: Seq<char>) -> bool {
    strip_dot(q) == ext
}

/// Whether a filename (already case-folded where the rules ask for it)
/// matches query `q` in any of the enabled modes.
pub open spec fn spec_matches(
    q: Seq<char>,
    start: bool,
    end: bool,
    extension: bool,
    multi_ext: bool,
    name: Seq<char>,
) -> bool {
    ||| (start && q.is_prefix_of(base_of(name, multi_ext)))
    ||| (end && q.is_suffix_of(base_of(name, multi_ext)))
    ||| (extension && ext_matches(ext_of(name, multi_ext), q))
}

/// The filename as the matcher sees it: lowercased in case-insensitive mode.
pub open spec fn folded(case_insensitive: bool, name: Seq<char>) -> Seq<char> {
    if case_insensitive {
        lower_of(name)
    } else {
        name
    }
}

impl MatchConfig {
    /// Whether the file named `name`, as it reads on disk, matches these rules.
    pub open spec fn accepts(&self, name: Seq<char>) -> bool {
        spec_matches(
            self.query@,
            self.start,
            self.end,
            self.extension,
            self.multi_ext,
            folded(self.case_insensitive, name),
        )
    }

    /// Builds the rules; in case-insensitive mode the query is lowercased
    /// once here, so that every comparison uses the same folded copy.
    pub fn new(
        query: &str,
        start: bool,
        end: bool,
        extension: bool,
        case_insensitive: bool,
        multi_ext: bool,
    ) -> (c: MatchConfig)
        ensures
            c.query@ == folded(case_insensitive, query@),
            c.start == start,
            c.end == end,
            c.extension == extension,
            c.case_insensitive == case_insensitive,
            c.multi_ext == multi_ext,
    {
        let query = if case_insensitive {
            lowercase(query)
        } else {
            String::from_str(query)
        };
        MatchConfig { query, start, end, extension, case_insensitive, multi_ext }
    }

    /// Matches a filename that has already been case-folded as the rules
    /// ask; the modes are tried in turn and the first that matches decides.
    pub fn name_matches(&self, folded_name: &str) -> (r: bool)
        ensures
            r == spec_matches(
                self.query@,
                self.start,
                self.end,
                self.extension,
                self.multi_ext,
                folded_name@,
            ),
    {
        let d = decompose(folded_name, self.multi_ext);
        let q = self.query.as_str();
        if self.end && has_suffix(d.base.as_str(), q) {
            return true;
        }
        if self.start && has_prefix(d.base.as_str(), q) {
            return true;
        }
        if self.extension {
            let n = q.unicode_len();
            let stripped = if n > 0 && q.get_char(0) == '.' {
                q.substring_char(1, n)
            } else {
                q
            };
            assert(stripped@ =~= strip_dot(q@));
            return same_text(stripped, d.extension.as_str());
        }
        false
    }

    /// Whether the file named `name` matches: the name is lowercased first
    /// in case-insensitive mode.
    pub fn file_matches(&self, name: &str) -> (r: bool)
        ensures
            r == self.accepts(name@),
    {
        if self.case_insensitive {
            let lower = lowercase(name);
            self.name_matches(lower.as_str())
        } else {
            self.name_matches(name)
        }
    }
}

/// In extension mode a query with a leading `.` and the same query without
/// it match the same filenames (`.txt` and `txt`). The query without the dot
/// must not itself begin with a `.`, or it would lose that one instead.
pub proof fn lemma_leading_dot_ignored(
    q: Seq<char>,
    start: bool,
    end: bool,
    multi_ext: bool,
    name: Seq<char>,
)
    requires
        !start,
        !end,
        !(q.len() > 0 && q[0] == '.'),
    ensures
        spec_matches(seq!['.'] + q, start, end, true, multi_ext, name)
            == spec_matches(q, start, end, true, multi_ext, name),
{
    let dq = seq!['.'] + q;
    assert(dq[0] == '.');
    assert(dq.drop_first() =~= q);
}

} // verus!
