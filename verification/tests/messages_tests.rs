use zdownload::messages::{
    cookies_loaded_line, default_cookies_line, is_chinese_locale, no_cookie_file, welcome_line,
    Note,
};

#[test]
fn locales() {
    assert!(is_chinese_locale("zh-CN"));
    assert!(is_chinese_locale("zh-TW"));
    assert!(is_chinese_locale("zh"));
    assert!(!is_chinese_locale("en-US"));
    assert!(!is_chinese_locale(""));
}

#[test]
fn notes_in_both_languages() {
    assert_eq!(Note::EmptyUrl.text(true), "⚠️ 提示: 视频链接不能为空。");
    assert_eq!(Note::EmptyUrl.text(false), "⚠️ Note: Video links cannot be empty.");
    assert_eq!(Note::TaskCompleted.text(false), "✅ Task completed");
    assert_eq!(Note::TaskCancelled.text(true), "🛑 任务已取消。");
    assert_eq!(no_cookie_file(), "未选择文件");
}

#[test]
fn composed_lines() {
    assert_eq!(welcome_line("1.2.0", false), "🚀 Zdownload v1.2.0 -Cross-platform Video Downloader");
    assert_eq!(welcome_line("1.2.0", true), "🚀 Zdownload v1.2.0 -跨平台视频下载工具");
    assert_eq!(
        default_cookies_line("/c/cookies.txt", false),
        "✅Default cookies loaded successfully! -> /c/cookies.txt"
    );
    assert_eq!(cookies_loaded_line("/k.txt", true), "✅ 已加载: /k.txt");
}
