//! The decisions of a depth-first, pre-order walk over a directory tree.
//!
//! The walker holds the entries still to be handled; whoever drives it does
//! the listing and the deleting. Each call of [`Walker::step`] takes the next
//! entry and says what to do with it. After an [`Step::Enter`], the driver
//! lists that directory and hands its entries to [`Walker::listed`]; when the
//! listing fails it reports the failure and hands nothing, and the walk goes
//! on with the entries that were already pending.

use vstd::prelude::*;
use crate::matcher::MatchConfig;

verus! {

/// What the metadata query made of a directory entry.
#[derive(PartialEq, Eq, Structural, Clone, Copy, Debug)]
pub enum EntryKind {
    File,
    Directory,
    /// Neither file nor directory (a device, a socket, ...).
    Other,
    /// The metadata query failed.
    Unknown,
}

/// One entry of a directory listing: its full path, its final path
/// segment, and its kind.
pub struct Entry {
    pub path: String,
    pub name: String,
    pub kind: EntryKind,
}

/// What the driver is to do next.
pub enum Step {
    /// Report entering this directory, then list it.
    Enter(String),
    /// This file matches: pass it through the deletion gate.
    Matched(String),
    /// This file does not match.
    NotMatched(String),
    /// Neither file nor directory: report it as skipped.
    Skipped(String),
    /// Its metadata could not be read: report it and go on.
    Unresolved(String),
    /// Nothing is left to handle.
    Done,
}

/// What the walk does with entry `e`.
pub open spec fn step_for(rules: MatchConfig, e: Entry) -> Step {
    match e.kind {
        EntryKind::Directory => Step::Enter(e.path),
        EntryKind::File => if rules.accepts(e.name@) {
            Step::Matched(e.path)
        } else {
            Step::NotMatched(e.path)
        },
        EntryKind::Other => Step::Skipped(e.path),
        EntryKind::Unknown => Step::Unresolved(e.path),
    }
}

/// The pending entries after a listing of `es`: they go on top, so that the
/// first entry listed is the next one handled, before the older ones.
pub open spec fn after_listing(pending: Seq<Entry>, es: Seq<Entry>) -> Seq<Entry> {
    pending + Seq::new(es.len(), |i: int| es[es.len() - 1 - i])
}

/// A walk in progress.
pub struct Walker {
    rules: MatchConfig,
    /// Entries still to be handled; the last one is handled next.
    tasks: Vec<Entry>,
}

impl Walker {
    /// The entries still to be handled; the last one is handled next.
    pub closed spec fn pending(&self) -> Seq<Entry> {
        self.tasks@
    }

    /// The matching rules of this walk.
    pub closed spec fn rules(&self) -> MatchConfig {
        self.rules
    }

    /// A walk whose only pending entry is the directory `root`.
    pub fn new(root: String, rules: MatchConfig) -> (w: Walker)
        ensures
            w.rules() == rules,
            w.pending().len() == 1,
            w.pending()[0].path == root,
            w.pending()[0].kind == EntryKind::Directory,
    {
        let name = root.clone();
        let mut tasks: Vec<Entry> = Vec::new();
        tasks.push(Entry { path: root, name, kind: EntryKind::Directory });
        Walker { rules, tasks }
    }

    /// The matching rules of this walk.
    pub fn match_config(&self) -> (r: &MatchConfig)
        ensures
            *r == self.rules(),
    {
        &self.rules
    }

    /// Takes the next pending entry and says what to do with it; `Done`
    /// once nothing is pending.
    pub fn step(&mut self) -> (s: Step)
        ensures
            final(self).rules() == old(self).rules(),
            old(self).pending().len() == 0 ==> s == Step::Done && final(self).pending()
                == old(self).pending(),
            old(self).pending().len() > 0 ==> s == step_for(old(self).rules(), old(self).pending().last())
                && final(self).pending() == old(self).pending().drop_last(),
    {
        match self.tasks.pop() {
            None => Step::Done,
            Some(e) => {
                let Entry { path, name, kind } = e;
                match kind {
                    EntryKind::Directory => Step::Enter(path),
                    EntryKind::File => {
                        if self.rules.file_matches(name.as_str()) {
                            Step::Matched(path)
                        } else {
                            Step::NotMatched(path)
                        }
                    },
                    EntryKind::Other => Step::Skipped(path),
                    EntryKind::Unknown => Step::Unresolved(path),
                }
            },
        }
    }

    /// Hands over the entries of the directory last entered, in listing
    /// order: they are handled next, in that order, before the entries that
    /// were pending already.
    pub fn listed(&mut self, entries: Vec<Entry>)
        ensures
            final(self).rules() == old(self).rules(),
            final(self).pending() == after_listing(old(self).pending(), entries@),
    {
        let ghost old_tasks = self.tasks@;
        let ghost old_rules = self.rules;
        let ghost es = entries@;
        let mut entries = entries;
        while entries.len() > 0
            invariant
                self.rules == old_rules,
                entries@.len() <= es.len(),
                entries@ == es.subrange(0, entries@.len() as int),
                self.tasks@ == old_tasks + Seq::new(
                    (es.len() - entries@.len()) as nat,
                    |i: int| es[es.len() - 1 - i],
                ),
            decreases entries.len(),
        {
            let e = entries.pop().unwrap();
            assert(e == es[entries@.len() as int]);
            assert(entries@ =~= es.subrange(0, entries@.len() as int));
            self.tasks.push(e);
            assert(self.tasks@ =~= old_tasks + Seq::new(
                (es.len() - entries@.len()) as nat,
                |i: int| es[es.len() - 1 - i],
            ));
        }
        assert(self.tasks@ =~= after_listing(old_tasks, es));
    }

    /// Whether nothing is left to handle.
    pub fn is_done(&self) -> (r: bool)
        ensures
            r == (self.pending().len() == 0),
    {
        self.tasks.len() == 0
    }
}

/// A directory that cannot be listed stops nothing else: once it has been
/// entered, the entries pending beside it are still pending, in order, and
/// the next step handles the one listed after it.
pub proof fn lemma_unlisted_directory_keeps_siblings(rules: MatchConfig, pending: Seq<Entry>)
    requires
        pending.len() >= 2,
        pending.last().kind == EntryKind::Directory,
    ensures
        step_for(rules, pending.last()) == Step::Enter(pending.last().path),
        forall|i: int| 0 <= i < pending.len() - 1 ==> #[trigger] pending.drop_last()[i] == pending[i],
        step_for(rules, pending.drop_last().last()) == step_for(rules, pending[pending.len() - 2]),
{
}

/// A directory that can be listed keeps its siblings too: its entries come
/// first, and the entries pending beside it stay below them, in order.
pub proof fn lemma_listed_directory_keeps_siblings(pending: Seq<Entry>, es: Seq<Entry>)
    ensures
        after_listing(pending, es).len() == pending.len() + es.len(),
        forall|i: int| 0 <= i < pending.len() ==> #[trigger] after_listing(pending, es)[i] == pending[i],
        es.len() > 0 ==> after_listing(pending, es).last() == es[0],
{
}

} // verus!
