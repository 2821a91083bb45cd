//! The `yt-dlp` command lines and what their output and exit status mean.
use crate::download_task::error::DownloadTaskError;
use crate::download_task::model::{DownloadSelection, YtDlpVersion};
use crate::download_task::parser::{postprocess_template, starts_with};
use crate::text::{chars_of, decimal, push_chars, push_decimal, push_str, string_of, trim, trim_str};
use std::path::PathBuf;
use std::time::Duration;
use vstd::prelude::*;

verus! {

/// The most characters of standard error kept for a failure report.
pub const MAX_STDERR_CHARS: usize = 4096;

/// Whether the vector of strings `r` holds the texts `s`.
pub open spec fn holds_texts(r: Seq<String>, s: Seq<Seq<char>>) -> bool {
    r.len() == s.len() && forall|i: int| 0 <= i < r.len() ==> (#[trigger] r[i])@ == s[i]
}

/// Fails with "executable not found" unless the path names a file.
pub fn ensure_executable(path: &PathBuf) -> (r: Result<(), DownloadTaskError>)
    ensures
        r matches Err(e) ==> (e matches DownloadTaskError::ExecutableNotFound(p) && crate::paths::path_text(p)
            == crate::paths::path_text(*path)),
{
    if crate::paths::path_is_file(crate::paths::buf_path(path)) {
        Ok(())
    } else {
        Err(DownloadTaskError::ExecutableNotFound(crate::paths::copy_path_buf(path)))
    }
}

/// How a `yt-dlp` process ended: it exited (successfully or not, with its exit
/// code when it has one), it was cancelled, it ran past its time-out, or
/// watching it failed.
pub enum ProcessEnd {
    Exited { success: bool, code: Option<i32> },
    Cancelled,
    TimedOut,
    Failed(DownloadTaskError),
}

/// What a metadata run gives once the process has ended: a cancellation, a
/// time-out (of `timeout`) or a failure to watch it as such; an exit that did
/// not succeed as a process failure with its code and standard error; otherwise
/// the standard output.
pub fn metadata_result(end: ProcessEnd, timeout: Duration, stdout: String, stderr: String) -> (r: Result<
    String,
    DownloadTaskError,
>)
    ensures
        end is Cancelled ==> r matches Err(DownloadTaskError::Cancelled),
        end is TimedOut ==> r == Err::<String, DownloadTaskError>(DownloadTaskError::Timeout(timeout)),
        end matches ProcessEnd::Failed(e) ==> r == Err::<String, DownloadTaskError>(e),
        end matches ProcessEnd::Exited { success, code } ==> (if success {
            r == Ok::<String, DownloadTaskError>(stdout)
        } else {
            r matches Err(DownloadTaskError::ProcessFailed { status, stderr: e }) && status == code && e@
                == stderr@
        }),
{
    match end {
        ProcessEnd::Cancelled => Err(DownloadTaskError::Cancelled),
        ProcessEnd::TimedOut => Err(DownloadTaskError::Timeout(timeout)),
        ProcessEnd::Failed(error) => Err(error),
        ProcessEnd::Exited { success, code } => if success {
            Ok(stdout)
        } else {
            Err(DownloadTaskError::ProcessFailed { status: code, stderr })
        },
    }
}

/// What a download run gives once the process has ended and its remaining
/// output was read: a cancellation, a time-out (of `timeout`) or a failure to
/// watch it as such; after an exit, the first error met reading the remaining
/// output, then an exit that did not succeed as a download failure with its code
/// and the kept standard error; otherwise the output path the process printed,
/// if any.
pub fn download_result(
    end: ProcessEnd,
    drain_error: Option<DownloadTaskError>,
    timeout: Duration,
    stderr_summary: String,
    output_path: Option<String>,
) -> (r: Result<Option<String>, DownloadTaskError>)
    ensures
        end is Cancelled ==> r matches Err(DownloadTaskError::Cancelled),
        end is TimedOut ==> r == Err::<Option<String>, DownloadTaskError>(DownloadTaskError::Timeout(timeout)),
        end matches ProcessEnd::Failed(e) ==> r == Err::<Option<String>, DownloadTaskError>(e),
        end matches ProcessEnd::Exited { success, code } ==> match drain_error {
            Some(e) => r == Err::<Option<String>, DownloadTaskError>(e),
            None => if success {
                r == Ok::<Option<String>, DownloadTaskError>(output_path)
            } else {
                r matches Err(DownloadTaskError::DownloadProcessFailed { status, stderr: e }) && status == code
                    && e@ == stderr_summary@
            },
        },
{
    match end {
        ProcessEnd::Cancelled => Err(DownloadTaskError::Cancelled),
        ProcessEnd::TimedOut => Err(DownloadTaskError::Timeout(timeout)),
        ProcessEnd::Failed(error) => Err(error),
        ProcessEnd::Exited { success, code } => match drain_error {
            Some(error) => Err(error),
            None => if success {
                Ok(output_path)
            } else {
                Err(DownloadTaskError::DownloadProcessFailed { status: code, stderr: stderr_summary })
            },
        },
    }
}

/// What `yt-dlp --version` answered: its trimmed output when it succeeded and
/// printed something, otherwise why not.
pub fn version_from_output(success: bool, code: Option<i32>, stdout: &str, stderr: String) -> (r: Result<
    YtDlpVersion,
    DownloadTaskError,
>)
    ensures
        !success ==> (r matches Err(DownloadTaskError::VersionCommandFailed { status, stderr: e }) && status
            == code && e@ == stderr@),
        success && trim(stdout@).len() == 0 ==> r matches Err(DownloadTaskError::VersionOutputEmpty),
        success && trim(stdout@).len() > 0 ==> (r matches Ok(v) && v.value@ == trim(stdout@)),
{
    if !success {
        return Err(DownloadTaskError::VersionCommandFailed { status: code, stderr });
    }
    let value = trim_str(stdout);
    if value.as_str().unicode_len() == 0 {
        return Err(DownloadTaskError::VersionOutputEmpty);
    }
    Ok(YtDlpVersion { value })
}

/// What standard error holds after `line` is added to `s`: the lines joined by
/// newlines, cut at the limit.
pub open spec fn spec_append_stderr(s: Seq<char>, line: Seq<char>) -> Seq<char> {
    if s.len() >= MAX_STDERR_CHARS {
        s
    } else {
        let joined = if s.len() > 0 {
            s.push('\n')
        } else {
            s
        };
        let room = MAX_STDERR_CHARS - joined.len();
        joined + line.take(if line.len() <= room {
            line.len() as int
        } else {
            room as int
        })
    }
}

/// Adds a line of standard error to the summary kept for a failure report: lines
/// are joined by newlines and the summary stops at the character limit.
pub fn append_stderr(stderr: &mut String, line: &str)
    ensures
        final(stderr)@ == spec_append_stderr(old(stderr)@, line@),
        old(stderr)@.len() <= MAX_STDERR_CHARS ==> final(stderr)@.len() <= MAX_STDERR_CHARS,
{
    let current = stderr.as_str().unicode_len();
    if current >= MAX_STDERR_CHARS {
        return;
    }
    let mut used = current;
    if current > 0 {
        crate::text::push_char(stderr, '\n');
        used = used + 1;
    }
    let room = MAX_STDERR_CHARS - used;
    let chars = chars_of(line);
    let take = if chars.len() <= room {
        chars.len()
    } else {
        room
    };
    let mut part: Vec<char> = Vec::new();
    let mut i: usize = 0;
    while i < take
        invariant
            take <= chars@.len(),
            i <= take,
            part@ == chars@.take(i as int),
        decreases take - i,
    {
        part.push(chars[i]);
        assert(chars@.take(i as int).push(chars@[i as int]) =~= chars@.take(i + 1));
        i = i + 1;
    }
    push_chars(stderr, part.as_slice());
}

/// Whether a line of output is one of the lines the download templates print.
pub open spec fn is_download_output(line: Seq<char>) -> bool {
    starts_with(line, "download:"@) || starts_with(line, "postprocess:"@) || starts_with(line, "after_move:"@)
}

/// Whether a line of output is one of the lines the download templates print.
pub fn is_download_output_line(line: &str) -> (r: bool)
    ensures
        r == is_download_output(line@),
{
    let chars = chars_of(line);
    crate::download_task::parser::has_prefix(chars.as_slice(), "download:")
        || crate::download_task::parser::has_prefix(chars.as_slice(), "postprocess:")
        || crate::download_task::parser::has_prefix(chars.as_slice(), "after_move:")
}

/// The arguments of the metadata command.
pub open spec fn spec_metadata_arguments(proxy: Option<Seq<char>>, url: Seq<char>) -> Seq<Seq<char>> {
    seq![
        "--encoding"@,
        "utf-8"@,
        "--dump-single-json"@,
        "--skip-download"@,
        "--no-warnings"@,
        "--no-playlist"@,
    ] + (match proxy {
        Some(p) => seq!["--proxy"@, p],
        None => Seq::<Seq<char>>::empty(),
    }) + seq!["--"@, url]
}

/// Appends a string holding `t` to `args`.
pub(crate) fn push_arg(args: &mut Vec<String>, t: &str)
    ensures
        final(args)@.len() == old(args)@.len() + 1,
        forall|i: int| 0 <= i < old(args)@.len() ==> #[trigger] final(args)@[i] == old(args)@[i],
        final(args)@[old(args)@.len() as int]@ == t@,
{
    args.push(string_of(t));
}

/// The arguments of the command that reads the metadata of `url` as one JSON
/// document, through `proxy` when there is one.
pub fn metadata_arguments(proxy: Option<&str>, url: &str) -> (r: Vec<String>)
    ensures
        holds_texts(
            r@,
            spec_metadata_arguments(
                match proxy {
                    Some(p) => Some(p@),
                    None => None,
                },
                url@,
            ),
        ),
{
    let mut args: Vec<String> = Vec::new();
    push_arg(&mut args, "--encoding");
    push_arg(&mut args, "utf-8");
    push_arg(&mut args, "--dump-single-json");
    push_arg(&mut args, "--skip-download");
    push_arg(&mut args, "--no-warnings");
    push_arg(&mut args, "--no-playlist");
    match proxy {
        Some(p) => {
            push_arg(&mut args, "--proxy");
            push_arg(&mut args, p);
        },
        None => {},
    }
    push_arg(&mut args, "--");
    push_arg(&mut args, url);
    let ghost expected = spec_metadata_arguments(
        match proxy {
            Some(p) => Some(p@),
            None => None,
        },
        url@,
    );
    assert(holds_texts(args@, expected)) by {
        assert(args@.len() == expected.len());
        assert forall|i: int| 0 <= i < args@.len() implies (#[trigger] args@[i])@ == expected[i] by {}
    }
    args
}

/// A flag followed by a value, when there is a value.
pub open spec fn optional_pair(flag: Seq<char>, value: Option<Seq<char>>) -> Seq<Seq<char>> {
    match value {
        Some(v) => seq![flag, v],
        None => Seq::<Seq<char>>::empty(),
    }
}

/// A flag followed by a count, when there is a count.
pub open spec fn optional_count(flag: Seq<char>, value: Option<u32>) -> Seq<Seq<char>> {
    match value {
        Some(n) => seq![flag, decimal(n as nat)],
        None => Seq::<Seq<char>>::empty(),
    }
}

/// The view of an optional string.
pub open spec fn opt_text(o: Option<String>) -> Option<Seq<char>> {
    match o {
        Some(s) => Some(s@),
        None => None,
    }
}

/// The view of an optional string slice.
pub open spec fn opt_str(o: Option<&str>) -> Option<Seq<char>> {
    match o {
        Some(s) => Some(s@),
        None => None,
    }
}

/// The arguments of the download command that come before the proxy: the
/// encoding, progress and print templates, the directories, the output
/// template, and the merge container.
pub open spec fn download_head(d: DownloadSelection, progress_template: Seq<char>) -> Seq<Seq<char>> {
    seq![
        "--encoding"@,
        "utf-8"@,
        "--check-formats"@,
        "--newline"@,
        "--progress"@,
        "--progress-delta"@,
        "0.5"@,
        "--progress-template"@,
        progress_template,
        "--progress-template"@,
        "postprocess:postprocess:%(postprocessor_key)s"@,
        "--print"@,
        "after_move:after_move:%(filepath)s"@,
        "--no-simulate"@,
        "--paths"@,
        "home:"@ + d.target_directory@,
        "--paths"@,
        "temp:"@ + d.temporary_directory@,
        "--output"@,
        d.output_template@,
        "--continue"@,
        "--no-overwrites"@,
        "--part"@,
        "--merge-output-format"@,
        d.merge_output_format@,
    ]
}

/// The arguments of the download command that come after the FFmpeg location:
/// the download options, the format selection and the URL.
pub open spec fn download_tail(d: DownloadSelection) -> Seq<Seq<char>> {
    optional_pair("--limit-rate"@, opt_text(d.options.rate_limit)) + optional_count(
        "--retries"@,
        d.options.retries,
    ) + optional_count("--fragment-retries"@, d.options.fragment_retries) + optional_count(
        "--file-access-retries"@,
        d.options.file_access_retries,
    ) + optional_count("--concurrent-fragments"@, d.options.concurrent_fragments) + seq![
        "-f"@,
        d.selected_video_format_id@ + "+"@ + d.selected_audio_format_id@,
        "--"@,
        d.source_url@,
    ]
}

/// The arguments of the download command.
pub open spec fn spec_download_arguments(
    d: DownloadSelection,
    progress_template: Seq<char>,
    proxy: Option<Seq<char>>,
    ffmpeg: Option<Seq<char>>,
) -> Seq<Seq<char>> {
    download_head(d, progress_template) + optional_pair("--proxy"@, proxy) + optional_pair(
        "--ffmpeg-location"@,
        ffmpeg,
    ) + download_tail(d)
}

/// Law: the FFmpeg location is passed whatever the proxy: with an FFmpeg path
/// `p`, the arguments are those without one with `--ffmpeg-location` and `p`
/// inserted right after the merge container and the proxy pair (if any); the
/// flag is followed by `p` there.
pub proof fn law_ffmpeg_location_whatever_the_proxy(
    d: DownloadSelection,
    template: Seq<char>,
    proxy: Option<Seq<char>>,
    p: Seq<char>,
)
    ensures
        ({
            let without = spec_download_arguments(d, template, proxy, None);
            let with = spec_download_arguments(d, template, proxy, Some(p));
            let k: int = 25 + optional_pair("--proxy"@, proxy).len() as int;
            &&& with == without.take(k) + seq!["--ffmpeg-location"@, p] + without.skip(k)
            &&& with[k] == "--ffmpeg-location"@
            &&& with[k + 1] == p
            &&& with[23] == "--merge-output-format"@
            &&& with[24] == d.merge_output_format@
        }),
{
    let without = spec_download_arguments(d, template, proxy, None);
    let with = spec_download_arguments(d, template, proxy, Some(p));
    let head = download_head(d, template);
    let a = head + optional_pair("--proxy"@, proxy);
    let rest = download_tail(d);
    let k: int = 25 + optional_pair("--proxy"@, proxy).len() as int;
    assert(head.len() == 25);
    assert(a.len() == k);
    assert(without =~= a + rest);
    assert(with =~= a + seq!["--ffmpeg-location"@, p] + rest);
    assert(without.take(k) =~= a);
    assert(without.skip(k) =~= rest);
    assert(with[23] == head[23]);
    assert(with[24] == head[24]);
}

/// Law: the proxy is passed whatever the FFmpeg location: with a proxy `x`, the
/// arguments are those without one with `--proxy` and `x` inserted right after
/// the merge container.
pub proof fn law_proxy_whatever_the_ffmpeg_location(
    d: DownloadSelection,
    template: Seq<char>,
    ffmpeg: Option<Seq<char>>,
    x: Seq<char>,
)
    ensures
        spec_download_arguments(d, template, Some(x), ffmpeg) == spec_download_arguments(
            d,
            template,
            None,
            ffmpeg,
        ).take(25) + seq!["--proxy"@, x] + spec_download_arguments(d, template, None, ffmpeg).skip(25),
{
    let without = spec_download_arguments(d, template, None, ffmpeg);
    let head = download_head(d, template);
    let rest = optional_pair("--ffmpeg-location"@, ffmpeg) + download_tail(d);
    assert(head.len() == 25);
    assert(without =~= head + rest);
    assert(spec_download_arguments(d, template, Some(x), ffmpeg) =~= head + seq!["--proxy"@, x] + rest);
    assert(without.take(25) =~= head);
    assert(without.skip(25) =~= rest);
}

/// Appends a string holding `a` followed by `b` to `args`.
pub(crate) fn push_joined(args: &mut Vec<String>, a: &str, b: &str)
    ensures
        final(args)@.len() == old(args)@.len() + 1,
        forall|i: int| 0 <= i < old(args)@.len() ==> #[trigger] final(args)@[i] == old(args)@[i],
        final(args)@[old(args)@.len() as int]@ == a@ + b@,
{
    let mut t = string_of(a);
    push_str(&mut t, b);
    args.push(t);
}

/// Appends a flag and a count, when there is a count.
pub(crate) fn push_count(args: &mut Vec<String>, flag: &str, value: Option<u32>)
    ensures
        final(args)@.len() == old(args)@.len() + optional_count(flag@, value).len(),
        forall|i: int| 0 <= i < old(args)@.len() ==> #[trigger] final(args)@[i] == old(args)@[i],
        forall|i: int|
            0 <= i < optional_count(flag@, value).len() ==> (#[trigger] final(args)@[old(args)@.len() + i])@
                == optional_count(flag@, value)[i],
{
    match value {
        Some(n) => {
            push_arg(args, flag);
            let mut t = String::new();
            push_decimal(&mut t, n as u64);
            assert(t@ == decimal(n as nat)) by {
                assert(Seq::<char>::empty() + decimal(n as u64 as nat) =~= decimal(n as nat));
            }
            args.push(t);
        },
        None => {},
    }
}

/// Appends a flag and a value, when there is a value.
pub(crate) fn push_pair(args: &mut Vec<String>, flag: &str, value: Option<&str>)
    ensures
        final(args)@.len() == old(args)@.len() + optional_pair(flag@, opt_str(value)).len(),
        forall|i: int| 0 <= i < old(args)@.len() ==> #[trigger] final(args)@[i] == old(args)@[i],
        forall|i: int|
            0 <= i < optional_pair(flag@, opt_str(value)).len() ==> (#[trigger] final(args)@[old(args)@.len()
                + i])@ == optional_pair(flag@, opt_str(value))[i],
{
    match value {
        Some(v) => {
            push_arg(args, flag);
            push_arg(args, v);
        },
        None => {},
    }
}

pub(crate) proof fn lemma_holds_concat(r: Seq<String>, n: int, a: Seq<Seq<char>>, b: Seq<Seq<char>>)
    requires
        n == a.len(),
        r.len() == a.len() + b.len(),
        forall|i: int| 0 <= i < n ==> (#[trigger] r[i])@ == a[i],
        forall|i: int| 0 <= i < b.len() ==> (#[trigger] r[n + i])@ == b[i],
    ensures
        holds_texts(r, a + b),
{
    assert forall|i: int| 0 <= i < r.len() implies (#[trigger] r[i])@ == (a + b)[i] by {
        if i >= n {
            assert(r[n + (i - n)] == r[i]);
        }
    }
}

/// The arguments of the command that downloads the selected video and audio
/// formats of `d` and merges them, printing one progress line per update.
#[verifier::rlimit(60)]
pub fn download_arguments(d: &DownloadSelection, proxy: Option<&str>, ffmpeg: Option<&str>) -> (r: Vec<String>)
    ensures
        holds_texts(
            r@,
            spec_download_arguments(
                *d,
                "download:download:%(progress.status)s\t%(info.format_id)s\t%(progress.downloaded_bytes)s\t%(progress.total_bytes)s\t%(progress.total_bytes_estimate)s\t%(progress.speed)s\t%(progress.elapsed)s\t%(progress.eta)s\t%(progress._percent_str)s"@,
                opt_str(proxy),
                opt_str(ffmpeg),
            ),
        ),
{
    let template = crate::download_task::parser::progress_template();
    let mut args: Vec<String> = Vec::new();
    push_arg(&mut args, "--encoding");
    push_arg(&mut args, "utf-8");
    push_arg(&mut args, "--check-formats");
    push_arg(&mut args, "--newline");
    push_arg(&mut args, "--progress");
    push_arg(&mut args, "--progress-delta");
    push_arg(&mut args, "0.5");
    push_arg(&mut args, "--progress-template");
    push_arg(&mut args, template.as_str());
    push_arg(&mut args, "--progress-template");
    push_arg(&mut args, postprocess_template());
    push_arg(&mut args, "--print");
    push_arg(&mut args, "after_move:after_move:%(filepath)s");
    push_arg(&mut args, "--no-simulate");
    push_arg(&mut args, "--paths");
    push_joined(&mut args, "home:", d.target_directory.as_str());
    push_arg(&mut args, "--paths");
    push_joined(&mut args, "temp:", d.temporary_directory.as_str());
    push_arg(&mut args, "--output");
    push_arg(&mut args, d.output_template.as_str());
    push_arg(&mut args, "--continue");
    push_arg(&mut args, "--no-overwrites");
    push_arg(&mut args, "--part");
    push_arg(&mut args, "--merge-output-format");
    push_arg(&mut args, d.merge_output_format.as_str());
    let ghost acc = download_head(*d, template@);
    assert(holds_texts(args@, acc));
    let ghost n0 = args@.len() as int;
    push_pair(&mut args, "--proxy", proxy);
    proof {
        lemma_holds_concat(args@, n0, acc, optional_pair("--proxy"@, opt_str(proxy)));
    }
    let ghost acc = acc + optional_pair("--proxy"@, opt_str(proxy));
    let ghost n0 = args@.len() as int;
    push_pair(&mut args, "--ffmpeg-location", ffmpeg);
    proof {
        lemma_holds_concat(args@, n0, acc, optional_pair("--ffmpeg-location"@, opt_str(ffmpeg)));
    }
    let ghost acc = acc + optional_pair("--ffmpeg-location"@, opt_str(ffmpeg));
    let ghost n0 = args@.len() as int;
    let rate = match &d.options.rate_limit {
        Some(v) => Some(v.as_str()),
        None => None,
    };
    assert(opt_str(rate) == opt_text(d.options.rate_limit));
    push_pair(&mut args, "--limit-rate", rate);
    proof {
        lemma_holds_concat(args@, n0, acc, optional_pair("--limit-rate"@, opt_str(rate)));
    }
    let ghost acc = acc + optional_pair("--limit-rate"@, opt_str(rate));
    let ghost n0 = args@.len() as int;
    push_count(&mut args, "--retries", d.options.retries);
    proof {
        lemma_holds_concat(args@, n0, acc, optional_count("--retries"@, d.options.retries));
    }
    let ghost acc = acc + optional_count("--retries"@, d.options.retries);
    let ghost n0 = args@.len() as int;
    push_count(&mut args, "--fragment-retries", d.options.fragment_retries);
    proof {
        lemma_holds_concat(args@, n0, acc, optional_count("--fragment-retries"@, d.options.fragment_retries));
    }
    let ghost acc = acc + optional_count("--fragment-retries"@, d.options.fragment_retries);
    let ghost n0 = args@.len() as int;
    push_count(&mut args, "--file-access-retries", d.options.file_access_retries);
    proof {
        lemma_holds_concat(
            args@,
            n0,
            acc,
            optional_count("--file-access-retries"@, d.options.file_access_retries),
        );
    }
    let ghost acc = acc + optional_count("--file-access-retries"@, d.options.file_access_retries);
    let ghost n0 = args@.len() as int;
    push_count(&mut args, "--concurrent-fragments", d.options.concurrent_fragments);
    proof {
        lemma_holds_concat(
            args@,
            n0,
            acc,
            optional_count("--concurrent-fragments"@, d.options.concurrent_fragments),
        );
    }
    let ghost acc = acc + optional_count("--concurrent-fragments"@, d.options.concurrent_fragments);
    let ghost n0 = args@.len() as int;
    push_arg(&mut args, "-f");
    let mut selection = string_of(d.selected_video_format_id.as_str());
    push_str(&mut selection, "+");
    push_str(&mut selection, d.selected_audio_format_id.as_str());
    args.push(selection);
    push_arg(&mut args, "--");
    push_arg(&mut args, d.source_url.as_str());
    let ghost tail = seq![
        "-f"@,
        d.selected_video_format_id@ + "+"@ + d.selected_audio_format_id@,
        "--"@,
        d.source_url@,
    ];
    proof {
        lemma_holds_concat(args@, n0, acc, tail);
        let head = download_head(*d, template@) + optional_pair("--proxy"@, opt_str(proxy)) + optional_pair(
            "--ffmpeg-location"@,
            opt_str(ffmpeg),
        );
        assert(acc + tail =~= head + download_tail(*d));
    }
    args
}

/// Why a download selection may not start, if it may not: a field is empty or
/// blank, or the merge container is not `mp4` or `mkv`.
pub open spec fn spec_selection_check(d: DownloadSelection) -> Result<(), Seq<char>> {
    if trim(d.source_url@).len() == 0 || trim(d.selected_video_format_id@).len() == 0 || trim(
        d.selected_audio_format_id@,
    ).len() == 0 || trim(d.output_template@).len() == 0 || trim(d.merge_output_format@).len() == 0 {
        Err("下载请求包含空字段"@)
    } else if d.merge_output_format@ != "mp4"@ && d.merge_output_format@ != "mkv"@ {
        Err("合并容器只能是 mp4 或 mkv"@)
    } else {
        Ok(())
    }
}

} // verus!
