//! The rules of the desktop window variant: its texts, which engine output it
//! forwards to the log, and when the log watch stops.
use vstd::prelude::*;
use vstd::string::*;
use crate::command::views;
use crate::text::{contains, contains_seq, is_ws, lemma_trim_empty, occurs_at, trim, trimmed};

verus! {

/// A message that ends a download: it carries a success, failure or stop mark.
pub open spec fn is_terminal(msg: Seq<char>) -> bool {
    contains_seq(msg, "✅"@) || contains_seq(msg, "❌"@) || contains_seq(msg, "🛑"@)
}

/// A message ends the log watch exactly when one of its characters is one of
/// the marks ✅, ❌ or 🛑; any other message, such as a `[download]` progress
/// or completion line, keeps the watch running.
pub proof fn law_terminal_marks(msg: Seq<char>)
    ensures
        is_terminal(msg) <==> exists|i: int|
            0 <= i < msg.len() && (msg[i] == '✅' || msg[i] == '❌' || msg[i] == '🛑'),
{
    reveal_strlit("✅");
    reveal_strlit("❌");
    reveal_strlit("🛑");
    if is_terminal(msg) {
        if contains_seq(msg, "✅"@) {
            let i = choose|i: int| occurs_at(msg, "✅"@, i);
            assert(msg.subrange(i, i + 1)[0] == msg[i]);
        } else if contains_seq(msg, "❌"@) {
            let i = choose|i: int| occurs_at(msg, "❌"@, i);
            assert(msg.subrange(i, i + 1)[0] == msg[i]);
        } else {
            let i = choose|i: int| occurs_at(msg, "🛑"@, i);
            assert(msg.subrange(i, i + 1)[0] == msg[i]);
        }
    }
    if exists|i: int| 0 <= i < msg.len() && (msg[i] == '✅' || msg[i] == '❌' || msg[i] == '🛑') {
        let i = choose|i: int|
            0 <= i < msg.len() && (msg[i] == '✅' || msg[i] == '❌' || msg[i] == '🛑');
        if msg[i] == '✅' {
            assert(msg.subrange(i, i + 1) =~= "✅"@);
            assert(occurs_at(msg, "✅"@, i));
        } else if msg[i] == '❌' {
            assert(msg.subrange(i, i + 1) =~= "❌"@);
            assert(occurs_at(msg, "❌"@, i));
        } else {
            assert(msg.subrange(i, i + 1) =~= "🛑"@);
            assert(occurs_at(msg, "🛑"@, i));
        }
    }
}

/// Whether the log watch stops (and the download button is enabled again)
/// after `msg`.
pub fn is_terminal_message(msg: &str) -> (r: bool)
    ensures
        r == is_terminal(msg@),
{
    contains(msg, "✅") || contains(msg, "❌") || contains(msg, "🛑")
}

/// Engine output lines that are blank once trimmed are not forwarded.
pub open spec fn is_forwarded(line: Seq<char>) -> bool {
    trim(line).len() > 0
}

/// An engine output line is forwarded exactly when it holds a character that
/// is not whitespace.
pub proof fn law_forwarded_lines(line: Seq<char>)
    ensures
        is_forwarded(line) <==> exists|i: int| 0 <= i < line.len() && !is_ws(line[i]),
{
    lemma_trim_empty(line);
}

/// Whether a line of engine output is forwarded to the log.
pub fn forwards_line(line: &str) -> (r: bool)
    ensures
        r == is_forwarded(line@),
{
    let t = trimmed(line);
    !t.as_str().is_empty()
}

/// The texts of the desktop window.
#[derive(Debug, Clone, Copy, PartialEq, Eq, Structural)]
pub enum WindowNote {
    /// The label of the cancel button.
    CancelLabel,
    /// The hint shown while no cookies file is chosen.
    CookieHint,
    /// The address field is empty.
    EmptyUrl,
    /// A download is being prepared.
    Preparing,
    /// The cookies path was removed from the task.
    CookiesRemoved,
    /// The engine is missing and is being fetched.
    FetchingEngine,
}

/// The text of a window note.
pub open spec fn window_note_text(note: WindowNote) -> Seq<char> {
    match note {
        WindowNote::CancelLabel => "取消下载"@,
        WindowNote::CookieHint => "请选择 .txt 格式的 cookies 文件"@,
        WindowNote::EmptyUrl => "错误: URL 不能为空。"@,
        WindowNote::Preparing => "--- 准备下载 ---"@,
        WindowNote::CookiesRemoved => "Cookie 路径已从当前任务中移除。"@,
        WindowNote::FetchingEngine => "组件不存在，正在下载 yt-dlp..."@,
    }
}

impl WindowNote {
    /// The text of this note.
    pub fn text(self) -> (r: &'static str)
        ensures
            r@ == window_note_text(self),
    {
        match self {
            WindowNote::CancelLabel => "取消下载",
            WindowNote::CookieHint => "请选择 .txt 格式的 cookies 文件",
            WindowNote::EmptyUrl => "错误: URL 不能为空。",
            WindowNote::Preparing => "--- 准备下载 ---",
            WindowNote::CookiesRemoved => "Cookie 路径已从当前任务中移除。",
            WindowNote::FetchingEngine => "组件不存在，正在下载 yt-dlp...",
        }
    }
}

/// The line written when the default cookies file is found at start.
pub fn auto_loaded_line(path: &str) -> (r: String)
    ensures
        r@ == "已自动加载默认 Cookies: "@ + path@,
{
    let mut r = "已自动加载默认 Cookies: ".to_owned();
    r.append(path);
    r
}

/// The arguments of the `curl` call that fetches the engine into `target`:
/// follow redirects, fetch the latest Linux release, write to `target`.
pub open spec fn fetch_args_of(target: Seq<char>) -> Seq<Seq<char>> {
    seq!["-L"@, "https://github.com/yt-dlp/yt-dlp/releases/latest/download/yt-dlp"@, "-o"@, target]
}

/// Builds the arguments of the `curl` call that fetches the engine.
pub fn fetch_args(target: &str) -> (r: Vec<String>)
    ensures
        views(r@) == fetch_args_of(target@),
{
    let mut r: Vec<String> = Vec::new();
    r.push("-L".to_owned());
    r.push("https://github.com/yt-dlp/yt-dlp/releases/latest/download/yt-dlp".to_owned());
    r.push("-o".to_owned());
    r.push(target.to_owned());
    assert(views(r@) =~= fetch_args_of(target@));
    r
}

/// How the background download of the window variant ended.
#[derive(Debug, Clone, Copy, PartialEq, Eq, Structural)]
pub enum WorkerOutcome {
    /// The missing engine could not be fetched.
    EngineFetchFailed,
    /// The engine process could not be started.
    SpawnFailed,
    /// The engine ran and exited, successfully or not.
    Exited { success: bool },
}

/// The last message of a background download.
pub open spec fn outcome_text(o: WorkerOutcome) -> Seq<char> {
    match o {
        WorkerOutcome::EngineFetchFailed => "❌ 无法下载组件。"@,
        WorkerOutcome::SpawnFailed => "❌ 无法启动下载进程。"@,
        WorkerOutcome::Exited { success } => if success {
            "✅ 任务已成功完成！"@
        } else {
            "❌ 下载已停止或出错。"@
        },
    }
}

/// The last message a background download sends.
pub fn outcome_message(o: WorkerOutcome) -> (r: &'static str)
    ensures
        r@ == outcome_text(o),
{
    match o {
        WorkerOutcome::EngineFetchFailed => "❌ 无法下载组件。",
        WorkerOutcome::SpawnFailed => "❌ 无法启动下载进程。",
        WorkerOutcome::Exited { success } => if success {
            "✅ 任务已成功完成！"
        } else {
            "❌ 下载已停止或出错。"
        },
    }
}

/// What a click on the cancel button found and did.
#[derive(Debug, Clone, PartialEq, Eq)]
pub enum CancelOutcome {
    /// No download was running.
    NoTask,
    /// The running engine process was told to stop.
    Stopped,
    /// Stopping the engine process failed, with this error text.
    KillFailed(String),
}

/// The log line for a cancel outcome; the error text of a failed stop is
/// shown in brackets.
pub open spec fn cancel_text(o: CancelOutcome) -> Seq<char> {
    match o {
        CancelOutcome::NoTask => "提示: 当前没有正在运行的任务。"@,
        CancelOutcome::Stopped => "🛑 正在停止下载任务..."@,
        CancelOutcome::KillFailed(e) => "错误: 无法杀死进程 ("@ + e@ + ")"@,
    }
}

/// The log line written after a click on the cancel button.
pub fn cancel_message(o: &CancelOutcome) -> (r: String)
    ensures
        r@ == cancel_text(*o),
{
    match o {
        CancelOutcome::NoTask => "提示: 当前没有正在运行的任务。".to_owned(),
        CancelOutcome::Stopped => "🛑 正在停止下载任务...".to_owned(),
        CancelOutcome::KillFailed(e) => {
            let mut r = "错误: 无法杀死进程 (".to_owned();
            r.append(e.as_str());
            r.append(")");
            r
        },
    }
}

/// Every last message of a background download stops the log watch, so the
/// download button is always enabled again.
pub proof fn law_outcome_ends_watch(o: WorkerOutcome)
    ensures
        is_terminal(outcome_text(o)),
{
    reveal_strlit("✅");
    reveal_strlit("❌");
    reveal_strlit("❌ 无法下载组件。");
    reveal_strlit("❌ 无法启动下载进程。");
    reveal_strlit("✅ 任务已成功完成！");
    reveal_strlit("❌ 下载已停止或出错。");
    let s = outcome_text(o);
    match o {
        WorkerOutcome::Exited { success } => {
            if success {
                assert(s.subrange(0, 1) =~= "✅"@);
                assert(occurs_at(s, "✅"@, 0));
            } else {
                assert(s.subrange(0, 1) =~= "❌"@);
                assert(occurs_at(s, "❌"@, 0));
            }
        },
        _ => {
            assert(s.subrange(0, 1) =~= "❌"@);
            assert(occurs_at(s, "❌"@, 0));
        },
    }
}

/// The stop notice of a cancel ends the log watch as well.
pub proof fn law_stop_notice_ends_watch()
    ensures
        is_terminal(cancel_text(CancelOutcome::Stopped)),
{
    reveal_strlit("🛑");
    reveal_strlit("🛑 正在停止下载任务...");
    let s = cancel_text(CancelOutcome::Stopped);
    assert(s.subrange(0, 1) =~= "🛑"@);
    assert(occurs_at(s, "🛑"@, 0));
}

/// The notice that the engine is being fetched does not end the log watch.
pub proof fn law_fetch_notice_keeps_watch()
    ensures
        !is_terminal(window_note_text(WindowNote::FetchingEngine)),
{
    reveal_strlit("✅");
    reveal_strlit("❌");
    reveal_strlit("🛑");
    reveal_strlit("组件不存在，正在下载 yt-dlp...");
    let s = window_note_text(WindowNote::FetchingEngine);
    assert forall|i: int| !occurs_at(s, "✅"@, i) by {
        if occurs_at(s, "✅"@, i) {
            assert(s.subrange(i, i + 1)[0] == s[i]);
        }
    }
    assert forall|i: int| !occurs_at(s, "❌"@, i) by {
        if occurs_at(s, "❌"@, i) {
            assert(s.subrange(i, i + 1)[0] == s[i]);
        }
    }
    assert forall|i: int| !occurs_at(s, "🛑"@, i) by {
        if occurs_at(s, "🛑"@, i) {
            assert(s.subrange(i, i + 1)[0] == s[i]);
        }
    }
}

} // verus!
