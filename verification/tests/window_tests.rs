use zdownload::window::{
    auto_loaded_line, cancel_message, forwards_line, is_terminal_message, outcome_message,
    CancelOutcome, WindowNote, WorkerOutcome,
};

#[test]
fn terminal_marks() {
    assert!(is_terminal_message("✅ 任务已成功完成！"));
    assert!(is_terminal_message("x ❌ y"));
    assert!(is_terminal_message("🛑"));
    assert!(!is_terminal_message("[download] 50%"));
    assert!(!is_terminal_message(WindowNote::FetchingEngine.text()));
}

#[test]
fn forwarding() {
    assert!(forwards_line(" [download] 1% "));
    assert!(!forwards_line(""));
    assert!(!forwards_line(" \t\r"));
}

#[test]
fn outcomes_are_terminal() {
    for o in [
        WorkerOutcome::EngineFetchFailed,
        WorkerOutcome::SpawnFailed,
        WorkerOutcome::Exited { success: true },
        WorkerOutcome::Exited { success: false },
    ] {
        assert!(is_terminal_message(outcome_message(o)));
    }
    assert_eq!(outcome_message(WorkerOutcome::Exited { success: true }), "✅ 任务已成功完成！");
    assert_eq!(outcome_message(WorkerOutcome::Exited { success: false }), "❌ 下载已停止或出错。");
    assert_eq!(outcome_message(WorkerOutcome::SpawnFailed), "❌ 无法启动下载进程。");
    assert_eq!(outcome_message(WorkerOutcome::EngineFetchFailed), "❌ 无法下载组件。");
}

#[test]
fn cancel_messages() {
    assert_eq!(cancel_message(&CancelOutcome::NoTask), "提示: 当前没有正在运行的任务。");
    assert_eq!(cancel_message(&CancelOutcome::Stopped), "🛑 正在停止下载任务...");
    assert_eq!(
        cancel_message(&CancelOutcome::KillFailed("No such process".to_string())),
        "错误: 无法杀死进程 (No such process)"
    );
}

#[test]
fn window_texts() {
    assert_eq!(WindowNote::CookieHint.text(), "请选择 .txt 格式的 cookies 文件");
    assert_eq!(WindowNote::EmptyUrl.text(), "错误: URL 不能为空。");
    assert_eq!(auto_loaded_line("/c/cookies.txt"), "已自动加载默认 Cookies: /c/cookies.txt");
}

#[test]
fn engine_fetch_arguments() {
    assert_eq!(
        zdownload::window::fetch_args("/data/zdownload/yt-dlp"),
        vec![
            "-L",
            "https://github.com/yt-dlp/yt-dlp/releases/latest/download/yt-dlp",
            "-o",
            "/data/zdownload/yt-dlp",
        ]
    );
}
