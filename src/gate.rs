//! The confirmation step before each deletion.

use vstd::prelude::*;
use crate::text::{lower_of, trim_of, lowercase, trim};

verus! {

/// What happens to a matched file before anything is removed.
#[derive(PartialEq, Eq, Structural, Clone, Copy, Debug)]
pub enum GateAction {
    /// Remove the file at once, without asking.
    Delete,
    /// Ask on the prompt channel and go by the answer.
    Ask,
}

/// An answer, trimmed and lowercased, that agrees to the deletion.
pub open spec fn is_yes_spec(folded: Seq<char>) -> bool {
    folded == seq!['y']
}

/// Whether a reply line agrees to the deletion.
pub open spec fn confirms_spec(answer: Seq<char>) -> bool {
    is_yes_spec(lower_of(trim_of(answer)))
}

/// In auto-confirm mode a match is deleted without a prompt; otherwise the
/// user is asked.
pub fn gate_action(auto_confirm: bool) -> (a: GateAction)
    ensures
        auto_confirm <==> a == GateAction::Delete,
        !auto_confirm <==> a == GateAction::Ask,
{
    if auto_confirm {
        GateAction::Delete
    } else {
        GateAction::Ask
    }
}

/// Whether an answer that has already been trimmed and lowercased is `y`.
pub fn is_yes(folded: &str) -> (r: bool)
    ensures
        r == is_yes_spec(folded@),
{
    if folded.unicode_len() != 1 {
        return false;
    }
    let c = folded.get_char(0);
    assert(c == 'y' ==> folded@ =~= seq!['y']);
    c == 'y'
}

/// Whether a reply line agrees to the deletion: it is trimmed and
/// lowercased, and only `y` agrees.
pub fn confirms(answer: &str) -> (r: bool)
    ensures
        r == confirms_spec(answer@),
{
    let t = trim(answer);
    let l = lowercase(t);
    is_yes(l.as_str())
}

/// The outcome of a prompt: `None` when no line could be read, which
/// declines like any answer other than `y`.
pub fn answer_deletes(answer: Option<&str>) -> (r: bool)
    ensures
        r == match answer {
            Some(s) => confirms_spec(s@),
            None => false,
        },
{
    match answer {
        Some(s) => confirms(s),
        None => false,
    }
}

} // verus!
