use zdownload::command::{
    cookie_applies, download_args, engine_binary_name, engine_release_url, output_template,
    quality_format, window_args,
};

#[test]
fn quality_menu() {
    assert_eq!(quality_format(0), ("bestvideo[height<=2160]+bestaudio/best", false));
    assert_eq!(quality_format(1), ("bestvideo[height<=1080]+bestaudio/best", false));
    assert_eq!(quality_format(2), ("bestvideo[height<=720]+bestaudio/best", false));
    assert_eq!(quality_format(3), ("bestvideo[height<=480]+bestaudio/best", false));
    assert_eq!(quality_format(4), ("bestaudio/best", true));
    assert_eq!(quality_format(-1), ("bestaudio/best", true));
}

#[test]
fn engine_names() {
    assert_eq!(engine_binary_name(true), "yt-dlp.exe");
    assert_eq!(engine_binary_name(false), "yt-dlp");
    assert_eq!(
        engine_release_url(true),
        "https://github.com/yt-dlp/yt-dlp/releases/latest/download/yt-dlp.exe"
    );
    assert_eq!(
        engine_release_url(false),
        "https://github.com/yt-dlp/yt-dlp/releases/latest/download/yt-dlp"
    );
}

#[test]
fn template() {
    assert_eq!(output_template("/home/u/Downloads"), "/home/u/Downloads/%(title)s.%(ext)s");
}

#[test]
fn cookies_rule() {
    assert!(cookie_applies("/c/cookies.txt", "未选择文件", "No file selected"));
    assert!(!cookie_applies("", "未选择文件", "No file selected"));
    assert!(!cookie_applies("未选择文件", "未选择文件", "No file selected"));
    assert!(!cookie_applies("No file selected", "未选择文件", "No file selected"));
}

#[test]
fn video_args_with_cookies() {
    let args = download_args("/d", "bestvideo[height<=720]+bestaudio/best", false, "https://v/1", "/c.txt", "未选择文件", "None");
    assert_eq!(
        args,
        vec![
            "--newline", "--progress", "-f", "bestvideo[height<=720]+bestaudio/best", "-o",
            "/d/%(title)s.%(ext)s", "https://v/1", "--cookies", "/c.txt",
        ]
    );
}

#[test]
fn audio_args_without_cookies() {
    let args = download_args("/d", "bestaudio/best", true, "https://v/1", "未选择文件", "未选择文件", "None");
    assert_eq!(
        args,
        vec![
            "--newline", "--progress", "-f", "bestaudio/best", "-o", "/d/%(title)s.%(ext)s",
            "--extract-audio", "--audio-format", "mp3", "https://v/1",
        ]
    );
}

#[test]
fn window_args_rules() {
    let hint = "请选择 .txt 格式的 cookies 文件";
    assert_eq!(
        window_args("/d", "https://v/2", hint, hint),
        vec!["--newline", "--progress", "-o", "/d/%(title)s.%(ext)s", "https://v/2"]
    );
    assert_eq!(
        window_args("/d", "https://v/2", "", hint),
        vec!["--newline", "--progress", "-o", "/d/%(title)s.%(ext)s", "https://v/2"]
    );
    assert_eq!(
        window_args("/d", "https://v/2", "/k.txt", hint),
        vec!["--newline", "--progress", "-o", "/d/%(title)s.%(ext)s", "https://v/2", "--cookies", "/k.txt"]
    );
}
