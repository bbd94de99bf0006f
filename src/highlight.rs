use vstd::prelude::*;
use vstd::string::{StrSliceExecFns, StringExecFns};
use crate::flags::Flags;
use crate::text::{chars_of, occurs_at};

verus! {

/// Opens a highlighted span: the terminal's red foreground.
pub open spec fn mark_open() -> Seq<char> {
    seq!['\x1b', '[', '3', '1', 'm']
}

/// Closes a highlighted span: back to the terminal's default attributes.
pub open spec fn mark_close() -> Seq<char> {
    seq!['\x1b', '[', '0', 'm']
}

/// `l` with each occurrence of `p` wrapped in the markers, scanning from the
/// left and resuming after each occurrence, so occurrences never overlap.
/// An empty pattern has no occurrences.
pub open spec fn marked(l: Seq<char>, p: Seq<char>) -> Seq<char>
    decreases l.len(),
{
    if p.len() == 0 || l.len() < p.len() {
        l
    } else if l.take(p.len() as int) == p {
        mark_open() + p + mark_close() + marked(l.skip(p.len() as int), p)
    } else {
        seq![l[0]] + marked(l.skip(1), p)
    }
}

/// What a line looks like on output: marked when color is on, else as it is.
pub open spec fn displayed(line: Seq<char>, pattern: Seq<char>, flags: Flags) -> Seq<char> {
    if flags.color {
        marked(line, pattern)
    } else {
        line
    }
}

/// The line as it is shown, with every occurrence of the pattern marked when
/// color is on.
pub fn highlight(line: &str, pattern: &str, flags: &Flags) -> (r: String)
    ensures
        r@ == displayed(line@, pattern@, *flags),
{
    if !flags.color {
        return String::from_str(line);
    }
    let l = chars_of(line);
    let p = chars_of(pattern);
    let n = l.len();
    let m = p.len();
    if m == 0 {
        return String::from_str(line);
    }
    proof {
        assert(l@.subrange(0, n as int) =~= l@);
        assert(l@.subrange(0, 0) =~= Seq::<char>::empty());
    }
    let mut out = String::new();
    let mut i: usize = 0;
    let mut last: usize = 0;
    while m <= n - i
        invariant
            l@ == line@,
            p@ == pattern@,
            n == l.len(),
            m == p.len(),
            m > 0,
            last <= i <= n,
            out@ + marked(l@.subrange(last as int, n as int), p@) == marked(l@, p@),
            marked(l@.subrange(last as int, n as int), p@) == l@.subrange(last as int, i as int)
                + marked(l@.subrange(i as int, n as int), p@),
        decreases n - i,
    {
        let ghost rest = l@.subrange(i as int, n as int);
        assert(rest.take(m as int) =~= l@.subrange(i as int, i + m));
        if occurs_at(&l, &p, i) {
            let ghost before = out@;
            let ghost start = last;
            let ghost at = i;
            let ghost next = l@.subrange(i + m, n as int);
            assert(rest.skip(m as int) =~= next);
            assert(marked(rest, p@) == mark_open() + p@ + mark_close() + marked(next, p@));
            proof {
                reveal_strlit("\x1b[31m");
                reveal_strlit("\x1b[0m");
                assert("\x1b[31m"@ =~= mark_open());
                assert("\x1b[0m"@ =~= mark_close());
            }
            let seg = line.substring_char(last, i);
            out.append(seg);
            out.append("\x1b[31m");
            out.append(pattern);
            out.append("\x1b[0m");
            assert(out@ =~= before + l@.subrange(last as int, i as int) + mark_open() + p@
                + mark_close());
            i = i + m;
            last = i;
            assert(l@.subrange(last as int, last as int) =~= Seq::<char>::empty());
            assert(out@ + marked(next, p@) =~= before + (l@.subrange(start as int, at as int)
                + marked(rest, p@)));
        } else {
            assert(rest.skip(1) =~= l@.subrange(i + 1, n as int));
            assert(l@.subrange(last as int, i as int) + seq![l@[i as int]] =~= l@.subrange(
                last as int,
                i + 1,
            ));
            i = i + 1;
            assert(l@.subrange(last as int, i - 1) + marked(l@.subrange(i - 1, n as int), p@)
                =~= l@.subrange(last as int, i as int) + marked(
                l@.subrange(i as int, n as int),
                p@,
            ));
        }
    }
    assert(l@.subrange(last as int, i as int) + l@.subrange(i as int, n as int) =~= l@.subrange(
        last as int,
        n as int,
    ));
    let seg = line.substring_char(last, n);
    out.append(seg);
    out
}

} // verus!
