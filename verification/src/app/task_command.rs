//! The `yt-dlp` command a task can be copied as, quoted for PowerShell.
use crate::download_task::model::DownloadSelection;
use crate::download_task::process::{
    holds_texts, lemma_holds_concat, opt_str, opt_text, optional_count, optional_pair, push_arg, push_count,
    push_joined, push_pair,
};
use crate::text::{chars_of, is_blank, push_char, push_str, string_of, trim};
use vstd::prelude::*;

verus! {

/// `s` with every single quote doubled, as PowerShell escapes it inside single
/// quotes.
pub open spec fn ps_escape(s: Seq<char>) -> Seq<char>
    decreases s.len(),
{
    if s.len() == 0 {
        Seq::<char>::empty()
    } else if s.last() == '\'' {
        ps_escape(s.drop_last()) + seq!['\'', '\'']
    } else {
        ps_escape(s.drop_last()).push(s.last())
    }
}

/// `s` as one single-quoted PowerShell argument.
pub open spec fn ps_quote(s: Seq<char>) -> Seq<char> {
    seq!['\''] + ps_escape(s) + seq!['\'']
}

/// `yt-dlp` followed by each argument, quoted, separated by spaces.
pub open spec fn command_line(args: Seq<Seq<char>>) -> Seq<char>
    decreases args.len(),
{
    if args.len() == 0 {
        "yt-dlp"@
    } else {
        command_line(args.drop_last()) + seq![' '] + ps_quote(args.last())
    }
}

/// A proxy given for the command: a blank one counts as none.
pub open spec fn kept_proxy(proxy: Option<Seq<char>>) -> Option<Seq<char>> {
    match proxy {
        Some(p) => if trim(p).len() == 0 {
            None
        } else {
            Some(p)
        },
        None => None,
    }
}

/// An FFmpeg location given for the command: an empty one counts as none.
pub open spec fn kept_location(path: Option<Seq<char>>) -> Option<Seq<char>> {
    match path {
        Some(p) => if p.len() == 0 {
            None
        } else {
            Some(p)
        },
        None => None,
    }
}

/// The arguments of the copied download command.
pub open spec fn spec_command_arguments(
    d: DownloadSelection,
    ffmpeg: Option<Seq<char>>,
    proxy: Option<Seq<char>>,
) -> Seq<Seq<char>> {
    seq![
        "-f"@,
        d.selected_video_format_id@ + "+"@ + d.selected_audio_format_id@,
        "--merge-output-format"@,
        d.merge_output_format@,
        "--no-overwrites"@,
        "-P"@,
        "home:"@ + d.target_directory@,
        "-P"@,
        "temp:"@ + d.temporary_directory@,
        "-o"@,
        d.output_template@,
    ] + optional_pair("--proxy"@, kept_proxy(proxy)) + optional_pair("--ffmpeg-location"@, kept_location(ffmpeg))
        + optional_pair("--limit-rate"@, opt_text(d.options.rate_limit)) + optional_count(
        "--retries"@,
        d.options.retries,
    ) + optional_count("--fragment-retries"@, d.options.fragment_retries) + optional_count(
        "--file-access-retries"@,
        d.options.file_access_retries,
    ) + optional_count("--concurrent-fragments"@, d.options.concurrent_fragments) + seq![d.source_url@]
}

/// Appends `value` as one single-quoted PowerShell argument.
fn push_quoted(out: &mut String, value: &str)
    ensures
        final(out)@ == old(out)@ + ps_quote(value@),
{
    let cs = chars_of(value);
    push_char(out, '\'');
    let ghost start = out@;
    let mut i: usize = 0;
    assert(cs@.subrange(0, 0) =~= Seq::<char>::empty());
    while i < cs.len()
        invariant
            cs@ == value@,
            i <= cs@.len(),
            out@ == start + ps_escape(cs@.subrange(0, i as int)),
        decreases cs.len() - i,
    {
        let c = cs[i];
        assert(cs@.subrange(0, i + 1).drop_last() =~= cs@.subrange(0, i as int));
        assert(cs@.subrange(0, i + 1).last() == c);
        if c == '\'' {
            push_char(out, '\'');
            push_char(out, '\'');
            assert(start + ps_escape(cs@.subrange(0, i + 1)) =~= start + ps_escape(cs@.subrange(0, i as int))
                + seq!['\'', '\'']);
        } else {
            push_char(out, c);
            assert(start + ps_escape(cs@.subrange(0, i + 1)) =~= (start + ps_escape(
                cs@.subrange(0, i as int),
            )).push(c));
        }
        i = i + 1;
    }
    assert(cs@.subrange(0, cs@.len() as int) =~= cs@);
    push_char(out, '\'');
    assert(old(out)@ + ps_quote(value@) =~= (start + ps_escape(value@)).push('\''));
}

/// A single argument quoted for PowerShell: wrapped in single quotes, with every
/// single quote inside doubled.
pub fn powershell_argument(value: &str) -> (r: String)
    ensures
        r@ == ps_quote(value@),
{
    let mut out = String::new();
    push_quoted(&mut out, value);
    assert(Seq::<char>::empty() + ps_quote(value@) =~= ps_quote(value@));
    out
}

/// The command that downloads a task again, as a PowerShell line that can be
/// copied: `yt-dlp` with the selected formats, the merge container, no
/// overwrites, the target and temporary directories, the output template, the
/// proxy (unless blank), the FFmpeg location (unless empty), the download
/// options that are set, and the source URL, each argument quoted.
pub fn format_yt_dlp_download_command(request: &DownloadSelection, ffmpeg_path: Option<&str>, proxy: Option<&str>) -> (r:
    String)
    ensures
        r@ == command_line(spec_command_arguments(*request, opt_str(ffmpeg_path), opt_str(proxy))),
{
    let mut args: Vec<String> = Vec::new();
    push_arg(&mut args, "-f");
    let mut selection = string_of(request.selected_video_format_id.as_str());
    push_str(&mut selection, "+");
    push_str(&mut selection, request.selected_audio_format_id.as_str());
    args.push(selection);
    push_arg(&mut args, "--merge-output-format");
    push_arg(&mut args, request.merge_output_format.as_str());
    push_arg(&mut args, "--no-overwrites");
    push_arg(&mut args, "-P");
    push_joined(&mut args, "home:", request.target_directory.as_str());
    push_arg(&mut args, "-P");
    push_joined(&mut args, "temp:", request.temporary_directory.as_str());
    push_arg(&mut args, "-o");
    push_arg(&mut args, request.output_template.as_str());
    let ghost acc = seq![
        "-f"@,
        request.selected_video_format_id@ + "+"@ + request.selected_audio_format_id@,
        "--merge-output-format"@,
        request.merge_output_format@,
        "--no-overwrites"@,
        "-P"@,
        "home:"@ + request.target_directory@,
        "-P"@,
        "temp:"@ + request.temporary_directory@,
        "-o"@,
        request.output_template@,
    ];
    assert(holds_texts(args@, acc));
    let kept = match proxy {
        Some(p) => if is_blank(p) {
            None
        } else {
            Some(p)
        },
        None => None,
    };
    assert(opt_str(kept) == kept_proxy(opt_str(proxy)));
    let ghost n0 = args@.len() as int;
    push_pair(&mut args, "--proxy", kept);
    proof {
        lemma_holds_concat(args@, n0, acc, optional_pair("--proxy"@, opt_str(kept)));
    }
    let ghost acc = acc + optional_pair("--proxy"@, opt_str(kept));
    let location = match ffmpeg_path {
        Some(p) => if p.unicode_len() == 0 {
            None
        } else {
            Some(p)
        },
        None => None,
    };
    assert(opt_str(location) == kept_location(opt_str(ffmpeg_path)));
    let ghost n0 = args@.len() as int;
    push_pair(&mut args, "--ffmpeg-location", location);
    proof {
        lemma_holds_concat(args@, n0, acc, optional_pair("--ffmpeg-location"@, opt_str(location)));
    }
    let ghost acc = acc + optional_pair("--ffmpeg-location"@, opt_str(location));
    let rate = match &request.options.rate_limit {
        Some(v) => Some(v.as_str()),
        None => None,
    };
    assert(opt_str(rate) == opt_text(request.options.rate_limit));
    let ghost n0 = args@.len() as int;
    push_pair(&mut args, "--limit-rate", rate);
    proof {
        lemma_holds_concat(args@, n0, acc, optional_pair("--limit-rate"@, opt_str(rate)));
    }
    let ghost acc = acc + optional_pair("--limit-rate"@, opt_str(rate));
    let ghost n0 = args@.len() as int;
    push_count(&mut args, "--retries", request.options.retries);
    proof {
        lemma_holds_concat(args@, n0, acc, optional_count("--retries"@, request.options.retries));
    }
    let ghost acc = acc + optional_count("--retries"@, request.options.retries);
    let ghost n0 = args@.len() as int;
    push_count(&mut args, "--fragment-retries", request.options.fragment_retries);
    proof {
        lemma_holds_concat(args@, n0, acc, optional_count("--fragment-retries"@, request.options.fragment_retries));
    }
    let ghost acc = acc + optional_count("--fragment-retries"@, request.options.fragment_retries);
    let ghost n0 = args@.len() as int;
    push_count(&mut args, "--file-access-retries", request.options.file_access_retries);
    proof {
        lemma_holds_concat(
            args@,
            n0,
            acc,
            optional_count("--file-access-retries"@, request.options.file_access_retries),
        );
    }
    let ghost acc = acc + optional_count("--file-access-retries"@, request.options.file_access_retries);
    let ghost n0 = args@.len() as int;
    push_count(&mut args, "--concurrent-fragments", request.options.concurrent_fragments);
    proof {
        lemma_holds_concat(
            args@,
            n0,
            acc,
            optional_count("--concurrent-fragments"@, request.options.concurrent_fragments),
        );
    }
    let ghost acc = acc + optional_count("--concurrent-fragments"@, request.options.concurrent_fragments);
    let ghost n0 = args@.len() as int;
    push_arg(&mut args, request.source_url.as_str());
    proof {
        lemma_holds_concat(args@, n0, acc, seq![request.source_url@]);
        assert(acc + seq![request.source_url@] =~= spec_command_arguments(
            *request,
            opt_str(ffmpeg_path),
            opt_str(proxy),
        ));
    }
    let ghost all = acc + seq![request.source_url@];
    let mut out = string_of("yt-dlp");
    let mut i: usize = 0;
    assert(all.take(0) =~= Seq::<Seq<char>>::empty());
    while i < args.len()
        invariant
            holds_texts(args@, all),
            i <= args@.len(),
            out@ == command_line(all.take(i as int)),
        decreases args.len() - i,
    {
        assert(all.take(i + 1).drop_last() =~= all.take(i as int));
        assert(all.take(i + 1).last() == all[i as int]);
        assert(args@[i as int]@ == all[i as int]);
        push_char(&mut out, ' ');
        push_quoted(&mut out, args[i].as_str());
        assert(command_line(all.take(i + 1)) =~= command_line(all.take(i as int)) + seq![' '] + ps_quote(
            all[i as int],
        ));
        i = i + 1;
    }
    assert(all.take(all.len() as int) =~= all);
    out
}

} // verus!
