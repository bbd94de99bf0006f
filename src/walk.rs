use vstd::prelude::*;
use crate::flags::Flags;
use crate::records::{format_total_record, total_record};
use crate::scan::string_opt_view;

verus! {

/// What a path turned out to be when it was looked at.
#[derive(Clone, Copy, Debug, PartialEq, Eq, Structural)]
pub enum PathKind {
    Directory,
    File,
}

/// What the search does with a path.
#[derive(Clone, Copy, Debug, PartialEq, Eq, Structural)]
pub enum Visit {
    /// List the directory and visit its entries; nothing is shown for it.
    Descend,
    /// Read the file line by line.
    Scan,
    /// Report that the path cannot be searched; it counts for nothing.
    Reject,
}

pub open spec fn visit_for(kind: PathKind, flags: Flags) -> Visit {
    match kind {
        PathKind::Directory => if flags.recursive {
            Visit::Descend
        } else {
            Visit::Reject
        },
        PathKind::File => Visit::Scan,
    }
}

/// Decides what to do with a path of the given kind: directories are walked
/// only in recursive mode and are an error otherwise; files are read.
pub fn plan(kind: PathKind, flags: &Flags) -> (r: Visit)
    ensures
        r == visit_for(kind, *flags),
{
    match kind {
        PathKind::Directory => if flags.recursive {
            Visit::Descend
        } else {
            Visit::Reject
        },
        PathKind::File => Visit::Scan,
    }
}

/// `a + b`, or the largest count that can be held where that is larger.
pub open spec fn capped_sum(a: nat, b: nat) -> nat {
    if a + b <= usize::MAX {
        a + b
    } else {
        usize::MAX as nat
    }
}

/// Adds a count to a running total, stopping at the largest representable
/// count.
pub fn add_counts(total: usize, n: usize) -> (r: usize)
    ensures
        r == capped_sum(total as nat, n as nat),
{
    if total <= usize::MAX - n {
        total + n
    } else {
        usize::MAX
    }
}

/// The views of a sequence of strings, in order.
pub open spec fn views(s: Seq<String>) -> Seq<Seq<char>> {
    Seq::new(s.len(), |i: int| s[i]@)
}

/// The paths held on a stack, in the order they come off it.
pub open spec fn upcoming(stack: Seq<String>) -> Seq<Seq<char>> {
    Seq::new(stack.len(), |i: int| stack[stack.len() - 1 - i]@)
}

/// Puts `items` on `stack` so that they come off it first, in their order.
fn push_all(stack: &mut Vec<String>, items: Vec<String>)
    ensures
        upcoming(final(stack)@) == views(items@) + upcoming(old(stack)@),
{
    let ghost all = items@;
    let ghost below = stack@;
    let mut items = items;
    while items.len() > 0
        invariant
            items@.len() <= all.len(),
            items@ == all.subrange(0, items@.len() as int),
            upcoming(stack@) == views(all.subrange(items@.len() as int, all.len() as int))
                + upcoming(below),
        decreases items.len(),
    {
        let ghost k = items@.len() - 1;
        let ghost prev = stack@;
        let x = items.pop().unwrap();
        assert(x == all[k]);
        stack.push(x);
        assert(upcoming(stack@) =~= seq![x@] + upcoming(prev));
        assert(views(all.subrange(k, all.len() as int)) =~= seq![x@] + views(
            all.subrange(k + 1, all.len() as int),
        ));
        assert(upcoming(stack@) =~= views(all.subrange(k, all.len() as int)) + upcoming(below));
    }
    assert(all.subrange(0, all.len() as int) =~= all);
}

/// A depth-first walk over the paths of a search. It hands out the paths to
/// visit one at a time, takes the entries of each directory that is
/// descended into, and sums the counts of the files that were read.
pub struct Walk {
    pending: Vec<String>,
    total: usize,
    count: bool,
}

impl Walk {
    /// The paths still to visit, in the order they will be handed out.
    pub closed spec fn queue(&self) -> Seq<Seq<char>> {
        upcoming(self.pending@)
    }

    /// The sum of the counts of the files read so far.
    pub closed spec fn total_view(&self) -> nat {
        self.total as nat
    }

    /// Whether the run shows a total at its end.
    pub closed spec fn shows_total(&self) -> bool {
        self.count
    }

    /// A walk that visits `paths` in order, with a total of zero.
    pub fn new(paths: Vec<String>, flags: &Flags) -> (r: Walk)
        ensures
            r.queue() == views(paths@),
            r.total_view() == 0,
            r.shows_total() == flags.count,
    {
        let mut pending: Vec<String> = Vec::new();
        push_all(&mut pending, paths);
        assert(upcoming(Seq::<String>::empty()) =~= Seq::<Seq<char>>::empty());
        assert(views(paths@) + Seq::<Seq<char>>::empty() =~= views(paths@));
        Walk { pending, total: 0, count: flags.count }
    }

    /// The next path to visit, or `None` once the walk is over.
    pub fn next_path(&mut self) -> (r: Option<String>)
        ensures
            final(self).total_view() == old(self).total_view(),
            final(self).shows_total() == old(self).shows_total(),
            old(self).queue().len() == 0 ==> r is None && final(self).queue() == old(
                self,
            ).queue(),
            old(self).queue().len() > 0 ==> r is Some && r->0@ == old(self).queue()[0]
                && final(self).queue() == old(self).queue().drop_first(),
    {
        let ghost before = self.pending@;
        let r = self.pending.pop();
        proof {
            if before.len() > 0 {
                assert(upcoming(self.pending@) =~= upcoming(before).drop_first());
            }
        }
        r
    }

    /// Takes the entries of the directory just handed out; they are visited
    /// next, in the order given, before the paths that were waiting.
    pub fn descend(&mut self, entries: Vec<String>)
        ensures
            final(self).queue() == views(entries@) + old(self).queue(),
            final(self).total_view() == old(self).total_view(),
            final(self).shows_total() == old(self).shows_total(),
    {
        push_all(&mut self.pending, entries);
    }

    /// Adds the count of a file that was read.
    pub fn add(&mut self, n: usize)
        ensures
            final(self).total_view() == capped_sum(old(self).total_view(), n as nat),
            final(self).queue() == old(self).queue(),
            final(self).shows_total() == old(self).shows_total(),
    {
        self.total = add_counts(self.total, n);
    }

    /// The sum of the counts of the files read so far.
    pub fn total(&self) -> (r: usize)
        ensures
            r == self.total_view(),
    {
        self.total
    }

    /// What is shown at the end of the run: the total in counting mode, else
    /// nothing.
    pub fn summary(&self) -> (r: Option<String>)
        ensures
            string_opt_view(r) == if self.shows_total() {
                Some(total_record(self.total_view()))
            } else {
                None
            },
    {
        if self.count {
            Some(format_total_record(self.total))
        } else {
            None
        }
    }
}

} // verus!
