//! The `yt-dlp` engine: where it comes from, and the arguments a download
//! passes to it.
use vstd::prelude::*;
use vstd::string::*;
use crate::text::same_text;

verus! {

/// The view of each string in `v`.
pub open spec fn views(v: Seq<String>) -> Seq<Seq<char>> {
    v.map_values(|s: String| s@)
}

/// Appends a copy of `s` to `v`.
fn push_text(v: &mut Vec<String>, s: &str)
    ensures
        views(final(v)@) == views(old(v)@).push(s@),
{
    v.push(s.to_owned());
    assert(views(v@) =~= views(old(v)@).push(s@));
}

/// The `-f` format selector for each entry of the quality menu: 2160p, 1080p,
/// 720p, 480p, and audio only for any other entry.
pub open spec fn format_selector(idx: i32) -> Seq<char> {
    if idx == 0 {
        "bestvideo[height<=2160]+bestaudio/best"@
    } else if idx == 1 {
        "bestvideo[height<=1080]+bestaudio/best"@
    } else if idx == 2 {
        "bestvideo[height<=720]+bestaudio/best"@
    } else if idx == 3 {
        "bestvideo[height<=480]+bestaudio/best"@
    } else {
        "bestaudio/best"@
    }
}

/// The menu entries past the four video qualities download audio only.
pub open spec fn is_audio_only(idx: i32) -> bool {
    !(0 <= idx && idx <= 3)
}

/// Entries 0 to 3 of the quality menu pick video of at most 2160, 1080, 720
/// and 480 lines; every other entry, negative ones included, picks the best
/// audio alone.
pub proof fn law_quality_menu(idx: i32)
    ensures
        is_audio_only(idx) <==> (idx < 0 || idx > 3),
        (idx < 0 || idx > 3) ==> format_selector(idx) == "bestaudio/best"@,
        idx == 0 ==> format_selector(idx) == "bestvideo[height<=2160]+bestaudio/best"@,
        idx == 1 ==> format_selector(idx) == "bestvideo[height<=1080]+bestaudio/best"@,
        idx == 2 ==> format_selector(idx) == "bestvideo[height<=720]+bestaudio/best"@,
        idx == 3 ==> format_selector(idx) == "bestvideo[height<=480]+bestaudio/best"@,
{
}

/// The format selector of a quality menu entry, and whether it downloads audio
/// only.
pub fn quality_format(idx: i32) -> (r: (&'static str, bool))
    ensures
        r.0@ == format_selector(idx),
        r.1 == is_audio_only(idx),
{
    if idx == 0 {
        ("bestvideo[height<=2160]+bestaudio/best", false)
    } else if idx == 1 {
        ("bestvideo[height<=1080]+bestaudio/best", false)
    } else if idx == 2 {
        ("bestvideo[height<=720]+bestaudio/best", false)
    } else if idx == 3 {
        ("bestvideo[height<=480]+bestaudio/best", false)
    } else {
        ("bestaudio/best", true)
    }
}

/// The name of the engine's executable on Windows or elsewhere.
pub fn engine_binary_name(windows: bool) -> (r: &'static str)
    ensures
        r@ == (if windows {
            "yt-dlp.exe"@
        } else {
            "yt-dlp"@
        }),
{
    if windows {
        "yt-dlp.exe"
    } else {
        "yt-dlp"
    }
}

/// Where the latest release of the engine is fetched from.
pub fn engine_release_url(windows: bool) -> (r: &'static str)
    ensures
        r@ == (if windows {
            "https://github.com/yt-dlp/yt-dlp/releases/latest/download/yt-dlp.exe"@
        } else {
            "https://github.com/yt-dlp/yt-dlp/releases/latest/download/yt-dlp"@
        }),
{
    if windows {
        "https://github.com/yt-dlp/yt-dlp/releases/latest/download/yt-dlp.exe"
    } else {
        "https://github.com/yt-dlp/yt-dlp/releases/latest/download/yt-dlp"
    }
}

/// The engine's output template: files go to `dir`, named by title and
/// extension.
pub open spec fn output_template_of(dir: Seq<char>) -> Seq<char> {
    dir + "/%(title)s.%(ext)s"@
}

/// The output template for downloads into `dir`.
pub fn output_template(dir: &str) -> (r: String)
    ensures
        r@ == output_template_of(dir@),
{
    let mut r = dir.to_owned();
    r.append("/%(title)s.%(ext)s");
    r
}

/// A cookies path is handed to the engine unless it is empty or one of the
/// two placeholder texts of the cookies field.
pub open spec fn cookie_is_used(cookie: Seq<char>, placeholder_cn: Seq<char>, placeholder_en: Seq<char>) -> bool {
    cookie.len() > 0 && cookie != placeholder_cn && cookie != placeholder_en
}

/// Whether the cookies field holds a path to hand to the engine.
pub fn cookie_applies(cookie: &str, placeholder_cn: &str, placeholder_en: &str) -> (r: bool)
    ensures
        r == cookie_is_used(cookie@, placeholder_cn@, placeholder_en@),
{
    !cookie.is_empty() && !same_text(cookie, placeholder_cn) && !same_text(cookie, placeholder_en)
}

/// The engine's arguments for a download: progress on separate lines, the
/// format, the output template, audio extraction to mp3 for audio-only
/// downloads, the address, then the cookies file where one applies.
pub open spec fn download_args_of(
    dir: Seq<char>,
    format: Seq<char>,
    audio_only: bool,
    url: Seq<char>,
    cookie: Seq<char>,
    placeholder_cn: Seq<char>,
    placeholder_en: Seq<char>,
) -> Seq<Seq<char>> {
    let base = seq!["--newline"@, "--progress"@, "-f"@, format, "-o"@, output_template_of(dir)];
    let with_audio = if audio_only {
        base + seq!["--extract-audio"@, "--audio-format"@, "mp3"@]
    } else {
        base
    };
    let with_url = with_audio.push(url);
    if cookie_is_used(cookie, placeholder_cn, placeholder_en) {
        with_url + seq!["--cookies"@, cookie]
    } else {
        with_url
    }
}

/// Builds the engine's arguments for a download, as `download_args_of` says.
pub fn download_args(
    dir: &str,
    format: &str,
    audio_only: bool,
    url: &str,
    cookie: &str,
    placeholder_cn: &str,
    placeholder_en: &str,
) -> (r: Vec<String>)
    ensures
        views(r@) == download_args_of(
            dir@,
            format@,
            audio_only,
            url@,
            cookie@,
            placeholder_cn@,
            placeholder_en@,
        ),
{
    let mut r: Vec<String> = Vec::new();
    assert(views(r@) =~= Seq::<Seq<char>>::empty());
    push_text(&mut r, "--newline");
    push_text(&mut r, "--progress");
    push_text(&mut r, "-f");
    push_text(&mut r, format);
    push_text(&mut r, "-o");
    let template = output_template(dir);
    push_text(&mut r, template.as_str());
    if audio_only {
        push_text(&mut r, "--extract-audio");
        push_text(&mut r, "--audio-format");
        push_text(&mut r, "mp3");
    }
    push_text(&mut r, url);
    if cookie_applies(cookie, placeholder_cn, placeholder_en) {
        push_text(&mut r, "--cookies");
        push_text(&mut r, cookie);
    }
    proof {
        let base = seq![
            "--newline"@,
            "--progress"@,
            "-f"@,
            format@,
            "-o"@,
            output_template_of(dir@),
        ];
        assert(audio_only ==> base + seq!["--extract-audio"@, "--audio-format"@, "mp3"@]
            =~= base.push("--extract-audio"@).push("--audio-format"@).push("mp3"@));
        let with_audio = if audio_only {
            base + seq!["--extract-audio"@, "--audio-format"@, "mp3"@]
        } else {
            base
        };
        assert(with_audio.push(url@) + seq!["--cookies"@, cookie@] =~= with_audio.push(
            url@,
        ).push("--cookies"@).push(cookie@));
    }
    r
}

/// Whether the cookies pair is passed depends on the cookies field alone: for
/// every format and either audio choice, the arguments end with `--cookies`
/// and the cookie path exactly when the path is non-empty and differs from
/// both placeholders, and otherwise end with the address; the three audio
/// flags add three arguments, and the address always comes right before the
/// cookies pair.
pub proof fn law_download_args_cookies(
    dir: Seq<char>,
    format: Seq<char>,
    audio_only: bool,
    url: Seq<char>,
    cookie: Seq<char>,
    placeholder_cn: Seq<char>,
    placeholder_en: Seq<char>,
)
    ensures
        ({
            let a = download_args_of(
                dir,
                format,
                audio_only,
                url,
                cookie,
                placeholder_cn,
                placeholder_en,
            );
            let used = cookie.len() > 0 && cookie != placeholder_cn && cookie != placeholder_en;
            &&& a.len() == 7 + (if audio_only {
                3int
            } else {
                0int
            }) + (if used {
                2int
            } else {
                0int
            })
            &&& used ==> a[a.len() - 3] == url && a[a.len() - 2] == "--cookies"@ && a[a.len() - 1]
                == cookie
            &&& !used ==> a[a.len() - 1] == url
            &&& a[0] == "--newline"@ && a[1] == "--progress"@ && a[2] == "-f"@ && a[3] == format
                && a[4] == "-o"@ && a[5] == dir + "/%(title)s.%(ext)s"@
            &&& audio_only ==> a[6] == "--extract-audio"@ && a[7] == "--audio-format"@ && a[8]
                == "mp3"@
        }),
{
}

/// The engine's arguments in the desktop window variant: progress on separate
/// lines, the output template, the address, then the cookies file where the
/// cookies row shows a path rather than its hint.
pub open spec fn window_args_of(dir: Seq<char>, url: Seq<char>, subtitle: Seq<char>, hint: Seq<char>) -> Seq<Seq<char>> {
    let base = seq!["--newline"@, "--progress"@, "-o"@, output_template_of(dir), url];
    if subtitle.len() > 0 && subtitle != hint {
        base + seq!["--cookies"@, subtitle]
    } else {
        base
    }
}

/// In the window variant the cookies pair follows the address exactly when
/// the cookies row shows a non-empty text other than its hint; otherwise the
/// address is the last argument.
pub proof fn law_window_args_cookies(dir: Seq<char>, url: Seq<char>, subtitle: Seq<char>, hint: Seq<char>)
    ensures
        ({
            let a = window_args_of(dir, url, subtitle, hint);
            let used = subtitle.len() > 0 && subtitle != hint;
            &&& a.len() == 5 + (if used {
                2int
            } else {
                0int
            })
            &&& a[0] == "--newline"@ && a[1] == "--progress"@ && a[2] == "-o"@ && a[3] == dir
                + "/%(title)s.%(ext)s"@ && a[4] == url
            &&& used ==> a[5] == "--cookies"@ && a[6] == subtitle
        }),
{
}

/// Builds the engine's arguments of the desktop window variant.
pub fn window_args(dir: &str, url: &str, subtitle: &str, hint: &str) -> (r: Vec<String>)
    ensures
        views(r@) == window_args_of(dir@, url@, subtitle@, hint@),
{
    let mut r: Vec<String> = Vec::new();
    assert(views(r@) =~= Seq::<Seq<char>>::empty());
    push_text(&mut r, "--newline");
    push_text(&mut r, "--progress");
    push_text(&mut r, "-o");
    let template = output_template(dir);
    push_text(&mut r, template.as_str());
    push_text(&mut r, url);
    if !subtitle.is_empty() && !same_text(subtitle, hint) {
        push_text(&mut r, "--cookies");
        push_text(&mut r, subtitle);
    }
    proof {
        let base = seq!["--newline"@, "--progress"@, "-o"@, output_template_of(dir@), url@];
        assert(base + seq!["--cookies"@, subtitle@] =~= base.push("--cookies"@).push(subtitle@));
    }
    r
}

} // verus!
