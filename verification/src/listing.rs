//! Assembling the process table from what the host read.
//!
//! On a system that publishes its processes as numbered directories, each
//! holding the command name in a small file, the host lists the entries and
//! reads the files; the rules are here. An entry is a process when its name
//! is a decimal number. A command name is the file's contents without the
//! newline that ends them. A process that was gone before its name could be
//! read is no longer part of the table. Any other failed read fails the whole
//! table: the process that could not be read might be the one looked for, so
//! a table that lacks it would report an absence nobody observed.

use crate::sampler::{query_view, table_names};
use vstd::prelude::*;
use vstd::string::StringExecFns;

verus! {

/// What a [`CommRead`] says, over character sequences.
pub enum CommReadView {
    Contents { text: Seq<char> },
    Gone,
    Failed { reason: Seq<char> },
}

/// What reading the command name of one process gave.
#[derive(Debug, Clone, PartialEq, Eq)]
pub enum CommRead {
    /// The contents of the file.
    Contents { text: String },
    /// The process exited before its name could be read.
    Gone,
    /// The name could not be read, for the given reason.
    Failed { reason: String },
}

impl View for CommRead {
    type V = CommReadView;

    open spec fn view(&self) -> CommReadView {
        match self {
            CommRead::Contents { text } => CommReadView::Contents { text: text@ },
            CommRead::Gone => CommReadView::Gone,
            CommRead::Failed { reason } => CommReadView::Failed { reason: reason@ },
        }
    }
}

/// The reads of a listing, each by its view.
pub open spec fn reads_view(reads: Seq<CommRead>) -> Seq<CommReadView> {
    Seq::new(reads.len(), |i: int| reads[i]@)
}

/// A directory entry stands for a process when its name is a decimal number:
/// one digit or more, and nothing else.
pub open spec fn is_pid(entry: Seq<char>) -> bool {
    &&& entry.len() > 0
    &&& forall|i: int| 0 <= i < entry.len() ==> '0' <= #[trigger] entry[i] <= '9'
}

/// The command name in the contents of a name file: the contents without
/// their final newline, if they end in one.
pub open spec fn command_of(text: Seq<char>) -> Seq<char> {
    if text.len() > 0 && text.last() == '\n' {
        text.drop_last()
    } else {
        text
    }
}

/// The command names that `reads` hold, in order; reads that gave no
/// contents contribute nothing.
pub open spec fn names_read(reads: Seq<CommReadView>) -> Seq<Seq<char>>
    decreases reads.len(),
{
    if reads.len() == 0 {
        Seq::empty()
    } else {
        let earlier = names_read(reads.drop_last());
        match reads.last() {
            CommReadView::Contents { text } => earlier.push(command_of(text)),
            _ => earlier,
        }
    }
}

/// The position of the first failed read, or the number of reads if none
/// failed.
pub open spec fn first_failure(reads: Seq<CommReadView>) -> int
    decreases reads.len(),
{
    if reads.len() == 0 {
        0
    } else if reads.first() is Failed {
        0
    } else {
        1 + first_failure(reads.drop_first())
    }
}

/// The process table that `reads` amount to: the reason of the first failed
/// read if there is one, and the command names otherwise.
pub open spec fn table_of(reads: Seq<CommReadView>) -> Result<Seq<Seq<char>>, Seq<char>> {
    let at = first_failure(reads);
    if at < reads.len() {
        Err(reads[at]->reason)
    } else {
        Ok(names_read(reads))
    }
}

/// Where the first failure lies: within the reads or just past them, with
/// no failed read before it, and on a failed read if within.
pub proof fn lemma_first_failure(reads: Seq<CommReadView>)
    ensures
        0 <= first_failure(reads) <= reads.len(),
        forall|i: int| 0 <= i < first_failure(reads) ==> !(#[trigger] reads[i] is Failed),
        first_failure(reads) < reads.len() ==> reads[first_failure(reads)] is Failed,
    decreases reads.len(),
{
    if reads.len() > 0 && !(reads.first() is Failed) {
        let rest = reads.drop_first();
        lemma_first_failure(rest);
        assert forall|i: int| 0 <= i < first_failure(reads) implies !(#[trigger] reads[i]
            is Failed) by {
            if i > 0 {
                assert(reads[i] == rest[i - 1]);
            }
        }
        if first_failure(reads) < reads.len() {
            assert(reads[first_failure(reads)] == rest[first_failure(rest)]);
        }
    }
}

/// A table comes only from a listing in which every read was answered: it is
/// produced exactly when no read failed. One unreadable process is enough to
/// make the state of every process unknown.
pub proof fn lemma_table_needs_every_read(reads: Seq<CommReadView>)
    ensures
        table_of(reads) is Ok <==> forall|i: int|
            0 <= i < reads.len() ==> !(#[trigger] reads[i] is Failed),
        table_of(reads) is Ok ==> table_of(reads)->Ok_0 == names_read(reads),
{
    lemma_first_failure(reads);
}

/// Every name in a table was read: it is the command name of some read that
/// gave contents. Names are neither made up nor altered beyond the final
/// newline.
pub proof fn lemma_names_were_read(reads: Seq<CommReadView>, at: int)
    requires
        0 <= at < names_read(reads).len(),
    ensures
        exists|i: int|
            0 <= i < reads.len() && (#[trigger] reads[i]) is Contents && names_read(reads)[at]
                == command_of(reads[i]->text),
    decreases reads.len(),
{
    let earlier = reads.drop_last();
    let last = reads.len() - 1;
    if reads.last() is Contents && at == names_read(earlier).len() {
        assert(reads[last] is Contents && names_read(reads)[at] == command_of(reads[last]->text));
    } else {
        lemma_names_were_read(earlier, at);
        let i = choose|i: int|
            0 <= i < earlier.len() && (#[trigger] earlier[i]) is Contents && names_read(
                earlier,
            )[at] == command_of(earlier[i]->text);
        assert(reads[i] == earlier[i]);
    }
}

/// Whether a directory entry stands for a process.
pub fn is_process_entry(entry: &str) -> (yes: bool)
    ensures
        yes == is_pid(entry@),
{
    let len: usize = entry.unicode_len();
    if len == 0 {
        return false;
    }
    let mut i: usize = 0;
    while i < len
        invariant
            len == entry@.len(),
            i <= len,
            forall|j: int| 0 <= j < i ==> '0' <= #[trigger] entry@[j] <= '9',
        decreases len - i,
    {
        let c: char = entry.get_char(i);
        if c < '0' || c > '9' {
            return false;
        }
        i = i + 1;
    }
    true
}

/// The command name that the contents of a name file hold.
pub fn command_name(text: &str) -> (name: String)
    ensures
        name@ == command_of(text@),
{
    let len: usize = text.unicode_len();
    if len > 0 && text.get_char(len - 1) == '\n' {
        let kept = text.substring_char(0, len - 1);
        assert(kept@ == text@.drop_last());
        String::from_str(kept)
    } else {
        String::from_str(text)
    }
}

/// Makes the process table out of the reads of one listing, in the order of
/// the reads: `Ok` with the command names if no read failed, `Err` with the
/// reason of the first failed read if one did.
pub fn assemble(reads: &Vec<CommRead>) -> (table: Result<Vec<String>, String>)
    ensures
        query_view(table) == table_of(reads_view(reads@)),
{
    let ghost views = reads_view(reads@);
    let mut names: Vec<String> = Vec::new();
    let mut i: usize = 0;
    proof {
        lemma_first_failure(views);
    }
    while i < reads.len()
        invariant
            i <= reads.len(),
            views == reads_view(reads@),
            first_failure(views) >= i,
            table_names(names@) == names_read(views.take(i as int)),
        decreases reads.len() - i,
    {
        proof {
            lemma_first_failure(views);
            assert(views.take(i + 1).drop_last() == views.take(i as int));
            assert(views.take(i + 1).last() == reads@[i as int]@);
        }
        match &reads[i] {
            CommRead::Contents { text } => {
                let ghost before = table_names(names@);
                names.push(command_name(text.as_str()));
                assert(table_names(names@) == before.push(command_of(text@)));
            },
            CommRead::Gone => {},
            CommRead::Failed { reason } => {
                assert(views[i as int] is Failed);
                return Err(reason.clone());
            },
        }
        i = i + 1;
    }
    proof {
        lemma_first_failure(views);
        assert(views.take(i as int) == views);
    }
    Ok(names)
}

} // verus!
