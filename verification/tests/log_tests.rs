use zdownload::{append_log, update_log_smart};

#[test]
fn append_adds_line_break() {
    assert_eq!(append_log("", "hello"), "hello\n");
    assert_eq!(append_log("first\n", "second"), "first\nsecond\n");
}

#[test]
fn append_keeps_text_as_given() {
    assert_eq!(append_log("a\n", "  spaced  "), "a\n  spaced  \n");
}

#[test]
fn progress_line_is_trimmed_and_appended() {
    let log = update_log_smart("start\n", "  [download]  10.0% of 5.00MiB  ");
    assert_eq!(log, "start\n[download]  10.0% of 5.00MiB\n");
}

#[test]
fn progress_line_replaces_previous_progress_line() {
    let log = update_log_smart("start\n", "[download]  10.0% of 5.00MiB");
    let log = update_log_smart(&log, "[download]  20.0% of 5.00MiB");
    assert_eq!(log, "start\n[download]  20.0% of 5.00MiB\n");
    let log = update_log_smart(&log, "[download]  30.0% of 5.00MiB");
    assert_eq!(log, "start\n[download]  30.0% of 5.00MiB\n");
}

#[test]
fn final_line_is_appended() {
    let log = "start\n[download]  90.0% of 5.00MiB\n";
    let log = update_log_smart(log, "[download] 100% of 5.00MiB in 00:01");
    assert_eq!(log, "start\n[download]  90.0% of 5.00MiB\n[download] 100% of 5.00MiB in 00:01\n");
}

#[test]
fn percent_line_replaces_download_line() {
    let log = update_log_smart("a\n[download] 1%\n", "frag 3%");
    assert_eq!(log, "a\nfrag 3%\n");
}

#[test]
fn percent_line_after_other_line_is_appended() {
    let log = update_log_smart("a\n[info] x\n", "frag 3%");
    assert_eq!(log, "a\n[info] x\nfrag 3%\n");
}

#[test]
fn other_line_is_appended() {
    let log = update_log_smart("a\n[download] 5%\n", "[Merger] Merging formats");
    assert_eq!(log, "a\n[download] 5%\n[Merger] Merging formats\n");
}

#[test]
fn download_line_replaces_finished_download_line() {
    let log = update_log_smart("a\n[download] 100% of 1MiB\n", "[download]   2.0% of 9MiB");
    assert_eq!(log, "a\n[download]   2.0% of 9MiB\n");
}

#[test]
fn progress_on_empty_log() {
    assert_eq!(update_log_smart("", "[download] 1%"), "[download] 1%\n");
}

#[test]
fn progress_on_log_without_line_break() {
    assert_eq!(update_log_smart("abc", "[download] 1%"), "abc[download] 1%\n");
}

#[test]
fn trailing_blank_lines_are_looked_past() {
    let log = update_log_smart("a\n[download] 1%\n\n", "[download] 2%");
    assert_eq!(log, "a\n[download] 2%\n");
}

#[test]
fn unicode_whitespace_is_trimmed() {
    let log = update_log_smart("a\n", "\u{3000}[download] 5%\u{a0}\r");
    assert_eq!(log, "a\n[download] 5%\n");
}

#[test]
fn blank_line_appends_empty_line() {
    assert_eq!(update_log_smart("a\n", "   "), "a\n\n");
}

#[test]
fn collapse_law_on_values() {
    let log = "🚀 Zdownload v1 -x\nTask begins\n";
    let once = update_log_smart(log, "[download]   3.1% of 2MiB");
    let twice = update_log_smart(&once, "[download]   7.5% of 2MiB");
    assert_eq!(twice, update_log_smart(log, "[download]   7.5% of 2MiB"));
}
