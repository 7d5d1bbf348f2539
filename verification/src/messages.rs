//! The user's language, and the lines the downloader writes to its log.
use vstd::prelude::*;
use vstd::string::*;
use crate::text::{has_prefix, starts_with};

verus! {

/// A locale such as `zh-CN` or `zh-TW` selects the Chinese texts.
pub open spec fn is_chinese(locale: Seq<char>) -> bool {
    has_prefix(locale, "zh-CN"@) || has_prefix(locale, "zh"@)
}

/// Every locale that begins with `zh` (`zh-CN`, `zh-TW`, `zh-Hans-CN`,
/// `zh-HK`, ...) selects Chinese, and no other locale does.
pub proof fn law_chinese_locales(locale: Seq<char>)
    ensures
        is_chinese(locale) <==> (locale.len() >= 2 && locale[0] == 'z' && locale[1] == 'h'),
{
    reveal_strlit("zh");
    reveal_strlit("zh-CN");
    if locale.len() >= 2 && locale[0] == 'z' && locale[1] == 'h' {
        assert(locale.subrange(0, 2) =~= "zh"@);
    }
    if has_prefix(locale, "zh"@) {
        assert(locale.subrange(0, 2)[0] == locale[0]);
        assert(locale.subrange(0, 2)[1] == locale[1]);
    }
    if has_prefix(locale, "zh-CN"@) {
        assert(locale.subrange(0, 5)[0] == locale[0]);
        assert(locale.subrange(0, 5)[1] == locale[1]);
    }
}

/// Whether the system locale (such as `zh-CN` or `en-US`) asks for Chinese.
pub fn is_chinese_locale(locale: &str) -> (r: bool)
    ensures
        r == is_chinese(locale@),
{
    starts_with(locale, "zh-CN") || starts_with(locale, "zh")
}

/// The texts that the downloader shows in the user's language.
#[derive(Debug, Clone, Copy, PartialEq, Eq, Structural)]
pub enum Note {
    /// The subtitle of the welcome line.
    Welcome,
    /// The cookies file of the configuration directory was found.
    DefaultCookiesLoaded,
    /// A cookies file was picked.
    CookiesLoaded,
    /// The cookies path was cleared.
    CookiesCleared,
    /// The address field is empty.
    EmptyUrl,
    /// The address field holds no web URL.
    InvalidUrl,
    /// A download starts.
    TaskBegins,
    /// A download ended without being cancelled.
    TaskCompleted,
    /// A running download is being stopped.
    ForceStopping,
    /// A running download was stopped.
    TaskCancelled,
}

/// The text of `note`, in Chinese or in English.
pub open spec fn note_text(note: Note, chinese: bool) -> Seq<char> {
    match note {
        Note::Welcome => if chinese {
            "跨平台视频下载工具"@
        } else {
            "Cross-platform Video Downloader"@
        },
        Note::DefaultCookiesLoaded => if chinese {
            "加载默认的Cookies成功!"@
        } else {
            "Default cookies loaded successfully!"@
        },
        Note::CookiesLoaded => if chinese {
            "已加载"@
        } else {
            "Loaded."@
        },
        Note::CookiesCleared => if chinese {
            "✅已清空cookies路径~"@
        } else {
            "✅Cookie path has been cleared"@
        },
        Note::EmptyUrl => if chinese {
            "⚠️ 提示: 视频链接不能为空。"@
        } else {
            "⚠️ Note: Video links cannot be empty."@
        },
        Note::InvalidUrl => if chinese {
            "❌ 错误: 输入的链接格式非法。"@
        } else {
            "❌ Error: The entered link format is invalid."@
        },
        Note::TaskBegins => if chinese {
            "--- 任务开始 ---"@
        } else {
            "Task begins"@
        },
        Note::TaskCompleted => if chinese {
            "✅ 任务结束。"@
        } else {
            "✅ Task completed"@
        },
        Note::ForceStopping => if chinese {
            "⏳正在强制停止..."@
        } else {
            "⏳Force stopping..."@
        },
        Note::TaskCancelled => if chinese {
            "🛑 任务已取消。"@
        } else {
            "🛑 Task cancelled."@
        },
    }
}

impl Note {
    /// The text of this note, in Chinese when `chinese` holds, else in English.
    pub fn text(self, chinese: bool) -> (r: &'static str)
        ensures
            r@ == note_text(self, chinese),
    {
        match self {
            Note::Welcome => if chinese {
                "跨平台视频下载工具"
            } else {
                "Cross-platform Video Downloader"
            },
            Note::DefaultCookiesLoaded => if chinese {
                "加载默认的Cookies成功!"
            } else {
                "Default cookies loaded successfully!"
            },
            Note::CookiesLoaded => if chinese {
                "已加载"
            } else {
                "Loaded."
            },
            Note::CookiesCleared => if chinese {
                "✅已清空cookies路径~"
            } else {
                "✅Cookie path has been cleared"
            },
            Note::EmptyUrl => if chinese {
                "⚠️ 提示: 视频链接不能为空。"
            } else {
                "⚠️ Note: Video links cannot be empty."
            },
            Note::InvalidUrl => if chinese {
                "❌ 错误: 输入的链接格式非法。"
            } else {
                "❌ Error: The entered link format is invalid."
            },
            Note::TaskBegins => if chinese {
                "--- 任务开始 ---"
            } else {
                "Task begins"
            },
            Note::TaskCompleted => if chinese {
                "✅ 任务结束。"
            } else {
                "✅ Task completed"
            },
            Note::ForceStopping => if chinese {
                "⏳正在强制停止..."
            } else {
                "⏳Force stopping..."
            },
            Note::TaskCancelled => if chinese {
                "🛑 任务已取消。"
            } else {
                "🛑 Task cancelled."
            },
        }
    }
}

/// The text shown in the cookies field when no file is chosen.
pub fn no_cookie_file() -> (r: &'static str)
    ensures
        r@ == "未选择文件"@,
{
    "未选择文件"
}

/// The welcome line: `🚀 Zdownload v<version> -<subtitle>`.
pub fn welcome_line(version: &str, chinese: bool) -> (r: String)
    ensures
        r@ == "🚀 Zdownload v"@ + version@ + " -"@ + note_text(Note::Welcome, chinese),
{
    let mut r = "🚀 Zdownload v".to_owned();
    r.append(version);
    r.append(" -");
    r.append(Note::Welcome.text(chinese));
    r
}

/// The line written when the cookies file of the configuration directory is
/// found: `✅<note> -> <path>`.
pub fn default_cookies_line(path: &str, chinese: bool) -> (r: String)
    ensures
        r@ == "✅"@ + note_text(Note::DefaultCookiesLoaded, chinese) + " -> "@ + path@,
{
    let mut r = "✅".to_owned();
    r.append(Note::DefaultCookiesLoaded.text(chinese));
    r.append(" -> ");
    r.append(path);
    r
}

/// The line written when a cookies file is picked: `✅ <note>: <path>`.
pub fn cookies_loaded_line(path: &str, chinese: bool) -> (r: String)
    ensures
        r@ == "✅ "@ + note_text(Note::CookiesLoaded, chinese) + ": "@ + path@,
{
    let mut r = "✅ ".to_owned();
    r.append(Note::CookiesLoaded.text(chinese));
    r.append(": ");
    r.append(path);
    r
}

} // verus!
