use vstd::prelude::*;
use vstd::string::StringExecFns;
use crate::flags::Flags;
use crate::highlight::{displayed, highlight};
use crate::matcher::{is_match, line_matches};
use crate::records::{count_record, format_count_record, format_line_record, line_record};

verus! {

/// How many of `lines` are selected by `pattern` under `flags`.
pub open spec fn match_count(lines: Seq<Seq<char>>, pattern: Seq<char>, flags: Flags) -> nat
    decreases lines.len(),
{
    if lines.len() == 0 {
        0
    } else {
        match_count(lines.drop_last(), pattern, flags) + if line_matches(
            lines.last(),
            pattern,
            flags,
        ) {
            1nat
        } else {
            0nat
        }
    }
}

/// What is shown for the line at 1-based position `index` of the file at
/// `path`: its record when it is selected and counting is off, else nothing.
pub open spec fn line_output(
    path: Seq<char>,
    index: nat,
    line: Seq<char>,
    pattern: Seq<char>,
    flags: Flags,
) -> Option<Seq<char>> {
    if line_matches(line, pattern, flags) && !flags.count {
        Some(line_record(path, index, displayed(line, pattern, flags), flags.line_number))
    } else {
        None
    }
}

/// The records shown, in order, while the lines of a file are read.
pub open spec fn line_outputs(
    path: Seq<char>,
    lines: Seq<Seq<char>>,
    pattern: Seq<char>,
    flags: Flags,
) -> Seq<Seq<char>>
    decreases lines.len(),
{
    if lines.len() == 0 {
        Seq::empty()
    } else {
        line_outputs(path, lines.drop_last(), pattern, flags) + match line_output(
            path,
            lines.len(),
            lines.last(),
            pattern,
            flags,
        ) {
            Some(r) => seq![r],
            None => Seq::empty(),
        }
    }
}

/// What is shown once a file's lines are exhausted: its summary in counting
/// mode, else nothing.
pub open spec fn summary_output(
    path: Seq<char>,
    lines: Seq<Seq<char>>,
    pattern: Seq<char>,
    flags: Flags,
) -> Option<Seq<char>> {
    if flags.count {
        Some(count_record(path, match_count(lines, pattern, flags)))
    } else {
        None
    }
}

/// Everything shown for a file with these lines.
pub open spec fn file_output(
    path: Seq<char>,
    lines: Seq<Seq<char>>,
    pattern: Seq<char>,
    flags: Flags,
) -> Seq<Seq<char>> {
    line_outputs(path, lines, pattern, flags) + match summary_output(path, lines, pattern, flags) {
        Some(r) => seq![r],
        None => Seq::empty(),
    }
}

pub open spec fn string_opt_view(o: Option<String>) -> Option<Seq<char>> {
    match o {
        Some(s) => Some(s@),
        None => None,
    }
}

/// The search of one file, fed its lines one at a time so that the file is
/// streamed rather than held whole.
pub struct FileScan {
    path: String,
    pattern: String,
    flags: Flags,
    line_no: usize,
    count: usize,
    seen: Ghost<Seq<Seq<char>>>,
}

impl FileScan {
    pub closed spec fn path_view(&self) -> Seq<char> {
        self.path@
    }

    pub closed spec fn pattern_view(&self) -> Seq<char> {
        self.pattern@
    }

    pub closed spec fn flags_view(&self) -> Flags {
        self.flags
    }

    /// The lines read so far, in order.
    pub closed spec fn lines(&self) -> Seq<Seq<char>> {
        self.seen@
    }

    pub closed spec fn wf(&self) -> bool {
        &&& self.line_no == self.seen@.len()
        &&& self.count == match_count(self.seen@, self.pattern@, self.flags)
    }

    /// A search of the file at `path` that has read no line yet.
    pub fn new(path: &str, pattern: &str, flags: &Flags) -> (r: FileScan)
        ensures
            r.wf(),
            r.path_view() == path@,
            r.pattern_view() == pattern@,
            r.flags_view() == *flags,
            r.lines() == Seq::<Seq<char>>::empty(),
    {
        FileScan {
            path: String::from_str(path),
            pattern: String::from_str(pattern),
            flags: *flags,
            line_no: 0,
            count: 0,
            seen: Ghost(Seq::empty()),
        }
    }

    /// How many lines have been read so far.
    pub fn lines_read(&self) -> (r: usize)
        requires
            self.wf(),
        ensures
            r == self.lines().len(),
    {
        self.line_no
    }

    /// How many of the lines read so far are selected.
    pub fn match_count(&self) -> (r: usize)
        requires
            self.wf(),
        ensures
            r == match_count(self.lines(), self.pattern_view(), self.flags_view()),
    {
        self.count
    }

    /// Takes the next line of the file and returns what is shown for it.
    pub fn scan_line(&mut self, line: &str) -> (r: Option<String>)
        requires
            old(self).wf(),
            old(self).lines().len() < usize::MAX,
        ensures
            final(self).wf(),
            final(self).path_view() == old(self).path_view(),
            final(self).pattern_view() == old(self).pattern_view(),
            final(self).flags_view() == old(self).flags_view(),
            final(self).lines() == old(self).lines().push(line@),
            string_opt_view(r) == line_output(
                old(self).path_view(),
                final(self).lines().len(),
                line@,
                old(self).pattern_view(),
                old(self).flags_view(),
            ),
    {
        let ghost before = self.seen@;
        self.line_no = self.line_no + 1;
        self.seen = Ghost(before.push(line@));
        assert(self.seen@.drop_last() =~= before);
        let selected = is_match(line, self.pattern.as_str(), &self.flags);
        if selected {
            proof {
                assert(match_count(before, self.pattern@, self.flags) <= before.len()) by {
                    lemma_count_bounded(before, self.pattern@, self.flags);
                }
            }
            self.count = self.count + 1;
            if !self.flags.count {
                let text = highlight(line, self.pattern.as_str(), &self.flags);
                let rec = format_line_record(
                    self.path.as_str(),
                    self.line_no,
                    text.as_str(),
                    self.flags.line_number,
                );
                return Some(rec);
            }
        }
        None
    }

    /// What is shown once the file's lines are exhausted.
    pub fn finish(&self) -> (r: Option<String>)
        requires
            self.wf(),
        ensures
            string_opt_view(r) == summary_output(
                self.path_view(),
                self.lines(),
                self.pattern_view(),
                self.flags_view(),
            ),
    {
        if self.flags.count {
            Some(format_count_record(self.path.as_str(), self.count))
        } else {
            None
        }
    }
}

/// No more lines are selected than there are lines.
pub proof fn lemma_count_bounded(lines: Seq<Seq<char>>, pattern: Seq<char>, flags: Flags)
    ensures
        match_count(lines, pattern, flags) <= lines.len(),
    decreases lines.len(),
{
    if lines.len() > 0 {
        lemma_count_bounded(lines.drop_last(), pattern, flags);
    }
}

/// A search is repeatable: the same file contents, pattern and options give
/// the same records, in the same order, and the same count.
pub proof fn lemma_scan_repeatable(
    path: Seq<char>,
    first: Seq<Seq<char>>,
    second: Seq<Seq<char>>,
    pattern: Seq<char>,
    flags: Flags,
)
    requires
        first == second,
    ensures
        file_output(path, first, pattern, flags) == file_output(path, second, pattern, flags),
        match_count(first, pattern, flags) == match_count(second, pattern, flags),
{
}

/// In counting mode no line is shown: a file's whole output is its summary.
pub proof fn lemma_count_mode_shows_summary_only(
    path: Seq<char>,
    lines: Seq<Seq<char>>,
    pattern: Seq<char>,
    flags: Flags,
)
    requires
        flags.count,
    ensures
        file_output(path, lines, pattern, flags) == seq![
            count_record(path, match_count(lines, pattern, flags)),
        ],
{
    lemma_count_mode_no_lines(path, lines, pattern, flags);
    assert(file_output(path, lines, pattern, flags) =~= seq![
        count_record(path, match_count(lines, pattern, flags)),
    ]);
}

proof fn lemma_count_mode_no_lines(
    path: Seq<char>,
    lines: Seq<Seq<char>>,
    pattern: Seq<char>,
    flags: Flags,
)
    requires
        flags.count,
    ensures
        line_outputs(path, lines, pattern, flags) == Seq::<Seq<char>>::empty(),
    decreases lines.len(),
{
    if lines.len() > 0 {
        lemma_count_mode_no_lines(path, lines.drop_last(), pattern, flags);
        assert(line_outputs(path, lines, pattern, flags) =~= Seq::<Seq<char>>::empty());
    }
}

/// Every line of a file is counted either with inversion or without it,
/// never both.
pub proof fn lemma_inverted_counts_complement(
    lines: Seq<Seq<char>>,
    pattern: Seq<char>,
    flags: Flags,
)
    ensures
        match_count(lines, pattern, Flags { invert_match: true, ..flags }) + match_count(
            lines,
            pattern,
            Flags { invert_match: false, ..flags },
        ) == lines.len(),
    decreases lines.len(),
{
    if lines.len() > 0 {
        lemma_inverted_counts_complement(lines.drop_last(), pattern, flags);
        crate::matcher::lemma_inversion_negates(lines.last(), pattern, flags);
    }
}

} // verus!
