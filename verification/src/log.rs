//! The download log: plain appending, and the progress-aware update that keeps
//! a single live `[download]` progress line at the bottom of the log.
use vstd::prelude::*;
use vstd::string::*;
use crate::text::{
    chars_of, contains_in, contains_seq, has_prefix, has_prefix_in, is_ws, last_index_in,
    last_index_of, lemma_last_index_of, lemma_trim_end_shape, lemma_trim_end_ws_suffix,
    lemma_trim_fixed, lemma_trim_shape, trim, trim_end, trim_end_in, trim_in, trim_start,
};

verus! {

/// The log after `text` is written to it as a line of its own.
pub open spec fn appended(log: Seq<char>, text: Seq<char>) -> Seq<char> {
    log + text + seq!['\n']
}

/// A (trimmed) output line that reports progress and is not the final one.
pub open spec fn is_progress_line(t: Seq<char>) -> bool {
    (has_prefix(t, "[download]"@) || contains_seq(t, "%"@)) && !contains_seq(t, "100%"@)
}

/// The log with its last line dropped when that line (after trimming) is a
/// `[download]` line; the last line is found in the log with trailing
/// whitespace ignored.
pub open spec fn without_progress_tail(log: Seq<char>) -> Seq<char> {
    match last_index_of(trim_end(log), '\n') {
        Some(pos) => if has_prefix(trim(log.subrange(pos + 1, log.len() as int)), "[download]"@) {
            log.subrange(0, pos + 1)
        } else {
            log
        },
        None => log,
    }
}

/// The log after one line of downloader output: the trimmed line is appended;
/// a progress line first replaces a trailing `[download]` line.
pub open spec fn updated(log: Seq<char>, line: Seq<char>) -> Seq<char> {
    let t = trim(line);
    let base = if is_progress_line(t) {
        without_progress_tail(log)
    } else {
        log
    };
    appended(base, t)
}

proof fn lemma_newline_literal()
    ensures
        "\n"@ == seq!['\n'],
{
    reveal_strlit("\n");
}

/// Appends `text` and a line break to the log `old`, and returns the new log.
pub fn append_log(old: &str, text: &str) -> (r: String)
    ensures
        r@ == appended(old@, text@),
{
    let mut r = old.to_owned();
    r.append(text);
    r.append("\n");
    proof {
        lemma_newline_literal();
    }
    r
}

/// The log after one line of downloader output, as `updated` describes.
pub fn update_log_smart(log: &str, new_line: &str) -> (r: String)
    ensures
        r@ == updated(log@, new_line@),
{
    let lv = chars_of(log);
    let nv = chars_of(new_line);
    assert(lv@.subrange(0, lv@.len() as int) =~= lv@);
    assert(nv@.subrange(0, nv@.len() as int) =~= nv@);
    let (a, b) = trim_in(&nv, 0, nv.len());
    let dl = chars_of("[download]");
    let pct = chars_of("%");
    let full = chars_of("100%");
    let progress = (has_prefix_in(&nv, a, b, &dl) || contains_in(&nv, a, b, &pct)) && !contains_in(
        &nv,
        a,
        b,
        &full,
    );
    let mut cut: usize = lv.len();
    if progress {
        let e: usize = trim_end_in(&lv, 0, lv.len());
        match last_index_in(&lv, e, '\n') {
            Some(pos) => {
                let (c, d) = trim_in(&lv, pos + 1, lv.len());
                if has_prefix_in(&lv, c, d, &dl) {
                    cut = pos + 1;
                }
            },
            None => {},
        }
    }
    let mut r = log.substring_char(0, cut).to_owned();
    r.append(new_line.substring_char(a, b));
    r.append("\n");
    proof {
        lemma_newline_literal();
        assert(log@.subrange(0, log@.len() as int) =~= log@);
    }
    r
}

/// Writing a line never loses what the log held before it: the new log is the
/// old one, then the text, then one line break.
pub proof fn law_append_keeps_log(log: Seq<char>, text: Seq<char>)
    ensures
        has_prefix(appended(log, text), log),
        appended(log, text).len() == log.len() + text.len() + 1,
        appended(log, text).subrange(log.len() as int, (log.len() + text.len()) as int) == text,
        appended(log, text).last() == '\n',
{
    assert(appended(log, text).subrange(0, log.len() as int) =~= log);
    assert(appended(log, text).subrange(log.len() as int, (log.len() + text.len()) as int) =~= text);
}

/// A line that is not a progress report (such as the final `100%` line) is
/// appended to the log as it stands, trimmed.
pub proof fn law_plain_line_appended(log: Seq<char>, line: Seq<char>)
    requires
        !is_progress_line(trim(line)),
    ensures
        updated(log, line) == appended(log, trim(line)),
{
}

/// An update keeps the log up to some point `k` and then writes the trimmed
/// line; what it drops is at most the last line of the log (the text after its
/// last line break, trailing whitespace aside).
pub proof fn law_update_replaces_at_most_last_line(log: Seq<char>, line: Seq<char>) -> (k: int)
    ensures
        0 <= k <= log.len(),
        updated(log, line) == appended(log.subrange(0, k), trim(line)),
        k < log.len() ==> log[k - 1] == '\n' && forall|j: int|
            k <= j < trim_end(log).len() ==> log[j] != '\n',
{
    lemma_trim_end_shape(log);
    lemma_last_index_of(trim_end(log), '\n');
    assert(log.subrange(0, log.len() as int) =~= log);
    if is_progress_line(trim(line)) {
        match last_index_of(trim_end(log), '\n') {
            Some(pos) => {
                if has_prefix(trim(log.subrange(pos + 1, log.len() as int)), "[download]"@) {
                    assert(trim_end(log)[pos] == log[pos]);
                    assert forall|j: int| pos + 1 <= j < trim_end(log).len() implies log[j]
                        != '\n' by {
                        assert(trim_end(log)[j] == log[j]);
                    }
                    pos + 1
                } else {
                    log.len() as int
                }
            },
            None => log.len() as int,
        }
    } else {
        log.len() as int
    }
}

/// The log with its progress tail dropped still ends with a line break when
/// the log does.
proof fn lemma_base_ends_with_newline(log: Seq<char>)
    requires
        log.len() > 0,
        log.last() == '\n',
    ensures
        without_progress_tail(log).len() > 0,
        without_progress_tail(log).last() == '\n',
{
    lemma_trim_end_shape(log);
    lemma_last_index_of(trim_end(log), '\n');
    match last_index_of(trim_end(log), '\n') {
        Some(pos) => {
            assert(trim_end(log)[pos] == log[pos]);
        },
        None => {},
    }
}

/// In `x + t`, where `x` ends with `c` and `t` holds no `c`, the last `c` is
/// the one that ends `x`.
proof fn lemma_last_index_after(x: Seq<char>, t: Seq<char>, c: char)
    requires
        x.len() > 0,
        x.last() == c,
        forall|k: int| 0 <= k < t.len() ==> t[k] != c,
    ensures
        last_index_of(x + t, c) == Some(x.len() - 1),
    decreases t.len(),
{
    if t.len() == 0 {
        assert(x + t =~= x);
    } else {
        assert((x + t).drop_last() =~= x + t.drop_last());
        assert((x + t).last() == t[t.len() - 1]);
        lemma_last_index_after(x, t.drop_last(), c);
    }
}

/// A log whose last line is a trimmed single `[download]` line `t`, after an
/// earlier line break, loses that line to the progress-tail rule.
proof fn lemma_download_tail_dropped(x: Seq<char>, t: Seq<char>)
    requires
        x.len() > 0,
        x.last() == '\n',
        forall|k: int| 0 <= k < t.len() ==> t[k] != '\n',
        trim(t) == t,
        has_prefix(t, "[download]"@),
    ensures
        without_progress_tail(x + t + seq!['\n']) == x,
{
    reveal_strlit("[download]");
    let (a, b) = lemma_trim_shape(t);
    assert(t.len() >= 10);
    assert(a == 0 && b == t.len());
    assert(t[0] == t.subrange(a, b)[0]);
    assert(t.last() == t.subrange(a, b)[b - a - 1]);
    let l1 = x + t + seq!['\n'];
    assert(is_ws('\n'));
    lemma_trim_end_ws_suffix(x + t, seq!['\n']);
    assert((x + t).last() == t.last());
    assert(trim_end(l1) == x + t);
    lemma_last_index_after(x, t, '\n');
    let tail = l1.subrange(x.len() as int, l1.len() as int);
    assert(tail =~= t + seq!['\n']);
    lemma_trim_fixed(t);
    lemma_trim_end_ws_suffix(t, seq!['\n']);
    assert(trim_start(tail) == tail);
    assert(trim(tail) == t);
    assert(l1.subrange(0, x.len() as int) =~= x);
}

/// A progress report replaces a trailing `[download]` line: when the log is
/// some text ending in a line break followed by one trimmed `[download]` line,
/// any output line that, trimmed, starts with `[download]` or contains `%` and
/// does not contain `100%` (whatever else it holds, an ETA for instance)
/// leaves the text before that line, the trimmed output line and a line break.
pub proof fn law_progress_line_replaces_download_line(
    before: Seq<char>,
    last: Seq<char>,
    line: Seq<char>,
)
    requires
        before.len() > 0,
        before.last() == '\n',
        forall|k: int| 0 <= k < last.len() ==> last[k] != '\n',
        trim(last) == last,
        has_prefix(last, "[download]"@),
        has_prefix(trim(line), "[download]"@) || contains_seq(trim(line), "%"@),
        !contains_seq(trim(line), "100%"@),
    ensures
        updated(before + last + seq!['\n'], line) == before + trim(line) + seq!['\n'],
{
    lemma_download_tail_dropped(before, last);
}

/// A line after a last line that is not a `[download]` line is appended: when
/// the log is some text ending in a line break followed by one trimmed line
/// that does not start with `[download]`, every output line, progress or not,
/// is written after it, trimmed.
pub proof fn law_line_after_other_line_appended(
    before: Seq<char>,
    last: Seq<char>,
    line: Seq<char>,
)
    requires
        before.len() > 0,
        before.last() == '\n',
        last.len() > 0,
        forall|k: int| 0 <= k < last.len() ==> last[k] != '\n',
        trim(last) == last,
        !has_prefix(last, "[download]"@),
    ensures
        updated(before + last + seq!['\n'], line) == before + last + seq!['\n'] + trim(line)
            + seq!['\n'],
{
    let (a, b) = lemma_trim_shape(last);
    assert(a == 0 && b == last.len());
    assert(last[0] == last.subrange(a, b)[0]);
    assert(last.last() == last.subrange(a, b)[b - a - 1]);
    let l1 = before + last + seq!['\n'];
    assert(is_ws('\n'));
    lemma_trim_end_ws_suffix(before + last, seq!['\n']);
    assert((before + last).last() == last.last());
    assert(trim_end(l1) == before + last);
    lemma_last_index_after(before, last, '\n');
    let tail = l1.subrange(before.len() as int, l1.len() as int);
    assert(tail =~= last + seq!['\n']);
    lemma_trim_fixed(last);
    lemma_trim_end_ws_suffix(last, seq!['\n']);
    assert(trim_start(tail) == tail);
    assert(trim(tail) == last);
    assert(without_progress_tail(l1) == l1);
}

/// Two progress reports in a row leave a single progress line: a `[download]`
/// progress line written to a log that ends with a line break is replaced by
/// the next progress report, so the log reads as if only that report had been
/// written.
pub proof fn law_progress_lines_collapse(log: Seq<char>, first: Seq<char>, second: Seq<char>)
    requires
        log.len() > 0,
        log.last() == '\n',
        forall|k: int| 0 <= k < first.len() ==> first[k] != '\n',
        is_progress_line(trim(first)),
        has_prefix(trim(first), "[download]"@),
        is_progress_line(trim(second)),
    ensures
        updated(updated(log, first), second) == updated(log, second),
{
    let t1 = trim(first);
    let (a, b) = lemma_trim_shape(first);
    assert forall|k: int| 0 <= k < t1.len() implies t1[k] != '\n' by {
        assert(t1[k] == first[a + k]);
    }
    lemma_trim_fixed(t1);
    let x = without_progress_tail(log);
    lemma_base_ends_with_newline(log);
    assert(updated(log, first) == x + t1 + seq!['\n']);
    lemma_download_tail_dropped(x, t1);
}

} // verus!
