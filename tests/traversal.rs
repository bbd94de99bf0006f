use rgrep::{add_counts, plan, FileScan, Flags, PathKind, Visit, Walk};

const LINES: [&str; 3] = ["foo bar", "baz", "foofoo"];

/// Reads the given lines through a scanner; returns every record shown and
/// the file's count.
fn scan_all(path: &str, lines: &[&str], pattern: &str, flags: &Flags) -> (Vec<String>, usize) {
    let mut scan = FileScan::new(path, pattern, flags);
    let mut out = Vec::new();
    for line in lines {
        if let Some(r) = scan.scan_line(line) {
            out.push(r);
        }
    }
    if let Some(r) = scan.finish() {
        out.push(r);
    }
    (out, scan.match_count())
}

#[test]
fn default_flags_show_selected_lines() {
    let (out, n) = scan_all("f.txt", &LINES, "foo", &Flags::new());
    assert_eq!(out, vec!["f.txt: foo bar", "f.txt: foofoo"]);
    assert_eq!(n, 2);
}

#[test]
fn inverted_shows_unselected_line() {
    let mut f = Flags::new();
    f.invert_match = true;
    let (out, n) = scan_all("f.txt", &LINES, "foo", &f);
    assert_eq!(out, vec!["f.txt: baz"]);
    assert_eq!(n, 1);
}

#[test]
fn counting_shows_summary_only() {
    let mut f = Flags::new();
    f.count = true;
    let (out, n) = scan_all("f.txt", &LINES, "foo", &f);
    assert_eq!(out, vec!["f.txt: match count 2"]);
    assert_eq!(n, 2);
    f.invert_match = true;
    let (out, n) = scan_all("f.txt", &LINES, "foo", &f);
    assert_eq!(out, vec!["f.txt: match count 1"]);
    assert_eq!(n, 1);
}

#[test]
fn inverted_and_plain_counts_cover_all_lines() {
    let mut f = Flags::new();
    let (_, plain) = scan_all("f.txt", &LINES, "foo", &f);
    f.invert_match = true;
    let (_, inverted) = scan_all("f.txt", &LINES, "foo", &f);
    assert_eq!(plain + inverted, LINES.len());
}

#[test]
fn line_numbers_follow_file_positions() {
    let mut f = Flags::new();
    f.line_number = true;
    let (out, _) = scan_all("f.txt", &LINES, "foo", &f);
    assert_eq!(out, vec!["f.txt:1: foo bar", "f.txt:3: foofoo"]);
}

#[test]
fn numbered_and_colored_record() {
    let mut f = Flags::new();
    f.line_number = true;
    f.color = true;
    let (out, _) = scan_all("f.txt", &["xfoox"], "foo", &f);
    assert_eq!(out, vec!["f.txt:1: x\x1b[31mfoo\x1b[0mx"]);
}

#[test]
fn count_mode_counts_lines_not_occurrences() {
    let mut f = Flags::new();
    f.count = true;
    let (out, n) = scan_all("f.txt", &["foofoofoo"], "foo", &f);
    assert_eq!(n, 1);
    assert_eq!(out, vec!["f.txt: match count 1"]);
}

#[test]
fn empty_file() {
    let mut f = Flags::new();
    let (out, n) = scan_all("e.txt", &[], "foo", &f);
    assert!(out.is_empty());
    assert_eq!(n, 0);
    f.count = true;
    let (out, _) = scan_all("e.txt", &[], "foo", &f);
    assert_eq!(out, vec!["e.txt: match count 0"]);
}

#[test]
fn scanner_tracks_lines_read() {
    let mut scan = FileScan::new("f.txt", "foo", &Flags::new());
    assert_eq!(scan.lines_read(), 0);
    scan.scan_line("foo");
    scan.scan_line("bar");
    assert_eq!(scan.lines_read(), 2);
    assert_eq!(scan.match_count(), 1);
}

#[test]
fn repeated_search_is_identical() {
    for &count in &[false, true] {
        let mut f = Flags::new();
        f.count = count;
        f.line_number = true;
        let first = scan_all("f.txt", &LINES, "foo", &f);
        let second = scan_all("f.txt", &LINES, "foo", &f);
        assert_eq!(first, second);
    }
}

#[test]
fn plan_by_kind_and_mode() {
    let mut f = Flags::new();
    assert_eq!(plan(PathKind::File, &f), Visit::Scan);
    assert_eq!(plan(PathKind::Directory, &f), Visit::Reject);
    f.recursive = true;
    assert_eq!(plan(PathKind::File, &f), Visit::Scan);
    assert_eq!(plan(PathKind::Directory, &f), Visit::Descend);
}

#[test]
fn add_counts_stops_at_largest() {
    assert_eq!(add_counts(2, 3), 5);
    assert_eq!(add_counts(0, 0), 0);
    assert_eq!(add_counts(usize::MAX - 1, 5), usize::MAX);
}

#[test]
fn walk_visits_entries_depth_first_in_order() {
    let mut w = Walk::new(vec!["a".to_string(), "z".to_string()], &Flags::new());
    assert_eq!(w.next_path().as_deref(), Some("a"));
    w.descend(vec!["a/1".to_string(), "a/2".to_string()]);
    assert_eq!(w.next_path().as_deref(), Some("a/1"));
    w.descend(vec!["a/1/x".to_string()]);
    assert_eq!(w.next_path().as_deref(), Some("a/1/x"));
    assert_eq!(w.next_path().as_deref(), Some("a/2"));
    assert_eq!(w.next_path().as_deref(), Some("z"));
    assert_eq!(w.next_path(), None);
    assert_eq!(w.next_path(), None);
}

#[test]
fn directory_total_is_sum_of_its_files() {
    let mut f = Flags::new();
    f.recursive = true;
    f.count = true;
    let mut w = Walk::new(vec!["dir".to_string()], &f);
    let mut shown: Vec<String> = Vec::new();
    let mut files = vec![
        ("dir/f1", vec!["foo", "foo", "x"]),
        ("dir/f2", vec!["foo", "a foo", "foofoo"]),
    ]
    .into_iter();
    while let Some(path) = w.next_path() {
        if path == "dir" {
            assert_eq!(plan(PathKind::Directory, &f), Visit::Descend);
            w.descend(vec!["dir/f1".to_string(), "dir/f2".to_string()]);
        } else {
            let (name, lines) = files.next().unwrap();
            assert_eq!(path, name);
            assert_eq!(plan(PathKind::File, &f), Visit::Scan);
            let (out, n) = scan_all(&path, &lines, "foo", &f);
            shown.extend(out);
            w.add(n);
        }
    }
    assert_eq!(w.total(), 5);
    assert_eq!(shown, vec!["dir/f1: match count 2", "dir/f2: match count 3"]);
    assert_eq!(w.summary().as_deref(), Some("Total Match Count :5"));
}

#[test]
fn unreadable_path_is_skipped_and_rest_counted() {
    let mut f = Flags::new();
    f.count = true;
    let paths = vec!["one".to_string(), "missing".to_string(), "three".to_string()];
    let mut w = Walk::new(paths, &f);
    let mut diagnostics: Vec<String> = Vec::new();
    let mut visited = 0;
    while let Some(path) = w.next_path() {
        visited += 1;
        if path == "missing" {
            diagnostics.push(rgrep::format_diagnostic(&path, "No such file or directory"));
        } else {
            let (_, n) = scan_all(&path, &LINES, "foo", &f);
            w.add(n);
        }
    }
    assert_eq!(visited, 3);
    assert_eq!(diagnostics, vec!["Error processing file missing: No such file or directory"]);
    assert_eq!(w.total(), 4);
    assert_eq!(w.summary().as_deref(), Some("Total Match Count :4"));
}

#[test]
fn summary_absent_without_counting() {
    let mut w = Walk::new(vec!["f".to_string()], &Flags::new());
    w.next_path();
    w.add(2);
    assert_eq!(w.total(), 2);
    assert_eq!(w.summary(), None);
}
