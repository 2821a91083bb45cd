//! Reading the lines that `yt-dlp` prints while it downloads.
//!
//! The download command is run with a progress template that prints
//! `download:` and nine tab-separated fields per update, `postprocess:` when the
//! streams are merged and `after_move:` with the final path. The numeric fields
//! that `yt-dlp` prints as decimals (percentage, speed, elapsed time, remaining
//! time) are read elsewhere; this module reads the rest and puts them together.
use crate::download_task::error::DownloadTaskError;
use crate::download_task::model::{DownloadMediaType, DownloadStreamStatus, StreamProgress};
use crate::text::{chars_eq, chars_of, decimal, push_decimal, push_str, string_from_chars, string_of, trim, trim_chars};
use vstd::prelude::*;

verus! {

/// A `download:` line split into its nine fields, with the stream it belongs to.
pub struct ProgressLine {
    /// The format id of the stream (the second field, trimmed).
    pub format_id: String,
    pub media_type: DownloadMediaType,
    pub status: DownloadStreamStatus,
    /// The nine fields as printed.
    pub fields: Vec<String>,
}

/// What one line of download output says.
pub enum DownloadLine {
    Progress(ProgressLine),
    Merging,
    OutputPath(String),
}

/// Whether `s` begins with `p`.
pub open spec fn starts_with(s: Seq<char>, p: Seq<char>) -> bool {
    p.len() <= s.len() && s.subrange(0, p.len() as int) =~= p
}

/// `s` split at every tab, as `str::split('\t')` splits it.
pub open spec fn split_tab(s: Seq<char>) -> Seq<Seq<char>>
    decreases s.len(),
{
    if s.len() == 0 {
        seq![Seq::<char>::empty()]
    } else if s.last() == '\t' {
        split_tab(s.drop_last()).push(Seq::<char>::empty())
    } else {
        let r = split_tab(s.drop_last());
        r.update(r.len() - 1, r.last().push(s.last()))
    }
}

/// A trimmed line that announces the merge of the streams.
pub open spec fn is_merging_line(t: Seq<char>) -> bool {
    starts_with(t, "postprocess:"@)
}

/// A trimmed line that gives the final path.
pub open spec fn is_output_line(t: Seq<char>) -> bool {
    !is_merging_line(t) && starts_with(t, "after_move:"@)
}

/// The fields of a progress line.
pub open spec fn line_fields(t: Seq<char>) -> Seq<Seq<char>> {
    split_tab(t.skip("download:"@.len() as int))
}

/// The status a progress line names, if it names a known one.
pub open spec fn spec_stream_status(f: Seq<char>) -> Option<DownloadStreamStatus> {
    if f == "downloading"@ {
        Some(DownloadStreamStatus::Downloading)
    } else if f == "finished"@ {
        Some(DownloadStreamStatus::Finished)
    } else {
        None
    }
}

/// The decimal digits `0` to `9`.
pub open spec fn is_digit(c: char) -> bool {
    '0' <= c && c <= '9'
}

/// Whether every character of `s` is a decimal digit.
pub open spec fn all_digits(s: Seq<char>) -> bool {
    forall|i: int| 0 <= i < s.len() ==> is_digit(#[trigger] s[i])
}

/// The number a string of decimal digits denotes.
pub open spec fn digits_value(s: Seq<char>) -> int
    decreases s.len(),
{
    if s.len() == 0 {
        0
    } else {
        10 * digits_value(s.drop_last()) + (s.last() as int - '0' as int)
    }
}

/// The integer written `s`: an optional `+` or `-` and at least one digit, as
/// `i64::from_str` reads it before the range check.
pub open spec fn int_text(s: Seq<char>) -> Option<int> {
    if s.len() > 0 && (s[0] == '+' || s[0] == '-') {
        let d = s.drop_first();
        if d.len() > 0 && all_digits(d) {
            Some(if s[0] == '-' { -digits_value(d) } else { digits_value(d) })
        } else {
            None
        }
    } else if s.len() > 0 && all_digits(s) {
        Some(digits_value(s))
    } else {
        None
    }
}

/// The `i64` written `s`, as `i64::from_str` reads it.
pub open spec fn i64_text(s: Seq<char>) -> Option<i64> {
    match int_text(s) {
        Some(v) => if i64::MIN <= v && v <= i64::MAX {
            Some(v as i64)
        } else {
            None
        },
        None => None,
    }
}

/// The words that stand for a missing number.
pub open spec fn is_missing_number(t: Seq<char>) -> bool {
    t == ""@ || t == "NA"@ || t == "N/A"@ || t == "none"@ || t == "None"@
}

/// What an integer field gives: nothing for a missing number, the number, or the
/// message of a parse error.
pub open spec fn number_field(f: Seq<char>) -> Result<Option<i64>, Seq<char>> {
    let t = trim(f);
    if is_missing_number(t) {
        Ok(None)
    } else {
        match i64_text(t) {
            Some(v) => Ok(Some(v)),
            None => Err("无效数值："@ + f),
        }
    }
}

/// Whether `r` is the outcome `m` describes, with a progress-parse error for a message.
pub open spec fn is_number_outcome(
    r: Result<Option<i64>, DownloadTaskError>,
    m: Result<Option<i64>, Seq<char>>,
) -> bool {
    match (r, m) {
        (Ok(x), Ok(y)) => x == y,
        (Err(DownloadTaskError::ProgressParse(x)), Err(y)) => x@ == y,
        _ => false,
    }
}

proof fn lemma_digits_value_nonneg(s: Seq<char>)
    requires
        all_digits(s),
    ensures
        digits_value(s) >= 0,
    decreases s.len(),
{
    if s.len() > 0 {
        lemma_digits_value_nonneg(s.drop_last());
    }
}

proof fn lemma_digits_prefix_le(s: Seq<char>, k: int)
    requires
        all_digits(s),
        0 <= k <= s.len(),
    ensures
        digits_value(s.subrange(0, k)) <= digits_value(s),
    decreases s.len(),
{
    if k < s.len() {
        assert(s.drop_last().subrange(0, k) =~= s.subrange(0, k));
        lemma_digits_prefix_le(s.drop_last(), k);
        lemma_digits_value_nonneg(s.drop_last());
    } else {
        assert(s.subrange(0, k) =~= s);
    }
}

/// Whether `s` begins with `p`.
pub fn has_prefix(s: &[char], p: &str) -> (r: bool)
    ensures
        r == starts_with(s@, p@),
{
    let pc = chars_of(p);
    if pc.len() > s.len() {
        return false;
    }
    let mut i: usize = 0;
    while i < pc.len()
        invariant
            pc@ == p@,
            pc.len() <= s.len(),
            i <= pc.len(),
            forall|j: int| 0 <= j < i ==> s@[j] == pc@[j],
        decreases pc.len() - i,
    {
        if s[i] != pc[i] {
            assert(s@.subrange(0, pc@.len() as int)[i as int] != p@[i as int]);
            return false;
        }
        i = i + 1;
    }
    assert(s@.subrange(0, pc@.len() as int) =~= p@);
    true
}

/// The characters of `s` from position `k` on.
fn chars_from(s: &[char], k: usize) -> (r: Vec<char>)
    requires
        k <= s@.len(),
    ensures
        r@ == s@.skip(k as int),
{
    let mut r: Vec<char> = Vec::new();
    let mut i = k;
    while i < s.len()
        invariant
            k <= i <= s@.len(),
            r@ == s@.subrange(k as int, i as int),
        decreases s.len() - i,
    {
        r.push(s[i]);
        assert(s@.subrange(k as int, i as int).push(s@[i as int]) =~= s@.subrange(k as int, i + 1));
        i = i + 1;
    }
    r
}

/// Whether the vectors `r` hold the sequences `f`.
pub open spec fn holds_fields(r: Seq<Vec<char>>, f: Seq<Seq<char>>) -> bool {
    r.len() == f.len() && forall|j: int| 0 <= j < r.len() ==> (#[trigger] r[j])@ == f[j]
}

proof fn lemma_split_tab_nonempty(s: Seq<char>)
    ensures
        split_tab(s).len() >= 1,
    decreases s.len(),
{
    if s.len() > 0 {
        lemma_split_tab_nonempty(s.drop_last());
    }
}

/// `s` split at every tab.
pub fn split_tabs(s: &[char]) -> (r: Vec<Vec<char>>)
    ensures
        holds_fields(r@, split_tab(s@)),
{
    let mut done: Vec<Vec<char>> = Vec::new();
    let mut cur: Vec<char> = Vec::new();
    let mut i: usize = 0;
    assert(s@.subrange(0, 0) =~= Seq::<char>::empty());
    while i < s.len()
        invariant
            i <= s@.len(),
            holds_fields(done@.push(cur), split_tab(s@.subrange(0, i as int))),
        decreases s.len() - i,
    {
        let c = s[i];
        let ghost before = s@.subrange(0, i as int);
        let ghost fb = split_tab(before);
        assert(s@.subrange(0, i + 1).drop_last() =~= before);
        assert(s@.subrange(0, i + 1).last() == c);
        proof {
            lemma_split_tab_nonempty(before);
        }
        assert(cur@ == fb.last()) by {
            assert(done@.push(cur)[fb.len() - 1] == cur);
        }
        if c == '\t' {
            let ghost prev = done@.push(cur);
            let finished = cur;
            done.push(finished);
            cur = Vec::new();
            assert(holds_fields(done@.push(cur), fb.push(Seq::<char>::empty()))) by {
                assert forall|j: int| 0 <= j < done@.push(cur).len() implies (#[trigger] done@.push(
                    cur,
                )[j])@ == fb.push(Seq::<char>::empty())[j] by {
                    if j < fb.len() {
                        assert(done@.push(cur)[j] == prev[j]);
                    }
                }
            }
        } else {
            let ghost prev = done@.push(cur);
            let ghost old_cur = cur@;
            cur.push(c);
            assert(cur@ == old_cur.push(c));
            assert(holds_fields(done@.push(cur), fb.update(fb.len() - 1, fb.last().push(c)))) by {
                assert forall|j: int| 0 <= j < done@.push(cur).len() implies (#[trigger] done@.push(
                    cur,
                )[j])@ == fb.update(fb.len() - 1, fb.last().push(c))[j] by {
                    if j < fb.len() - 1 {
                        assert(done@.push(cur)[j] == prev[j]);
                    } else {
                        assert(done@.push(cur)[j] == cur);
                    }
                }
            }
        }
        i = i + 1;
    }
    assert(s@.subrange(0, s@.len() as int) =~= s@);
    done.push(cur);
    done
}

/// The `i64` written `s`, as `i64::from_str` reads it.
pub fn parse_i64_chars(s: &[char]) -> (r: Option<i64>)
    ensures
        r == i64_text(s@),
{
    let n = s.len();
    if n == 0 {
        return None;
    }
    let signed = s[0] == '+' || s[0] == '-';
    let negative = s[0] == '-';
    let start: usize = if signed { 1 } else { 0 };
    if start == n {
        return None;
    }
    let ghost d = s@.subrange(start as int, n as int);
    assert(signed ==> d =~= s@.drop_first());
    assert(!signed ==> d =~= s@);
    assert(negative ==> signed);
    assert(int_text(s@) == (if all_digits(d) {
        Some(if negative { -digits_value(d) } else { digits_value(d) })
    } else {
        None::<int>
    }));
    let mut acc: u64 = 0;
    let mut i: usize = start;
    while i < n
        invariant
            n == s@.len(),
            start <= i <= n,
            start < n,
            d == s@.subrange(start as int, n as int),
            int_text(s@) == (if all_digits(d) {
                Some(if negative { -digits_value(d) } else { digits_value(d) })
            } else {
                None::<int>
            }),
            acc == digits_value(s@.subrange(start as int, i as int)),
            all_digits(s@.subrange(start as int, i as int)),
        decreases n - i,
    {
        let c = s[i];
        if !('0' <= c && c <= '9') {
            assert(d[i - start] == c);
            assert(!all_digits(d));
            return None;
        }
        let digit: u64 = ((c as u32) - ('0' as u32)) as u64;
        let ghost next = s@.subrange(start as int, i + 1);
        assert(next.drop_last() =~= s@.subrange(start as int, i as int));
        assert(next.last() == c);
        assert(all_digits(next));
        match acc.checked_mul(10) {
            Some(m) => {
                match m.checked_add(digit) {
                    Some(a) => {
                        acc = a;
                    },
                    None => {
                        proof {
                            assert(d.subrange(0, i + 1 - start) =~= next);
                            if all_digits(d) {
                                lemma_digits_prefix_le(d, i + 1 - start);
                            }
                        }
                        return None;
                    },
                }
            },
            None => {
                proof {
                    assert(d.subrange(0, i + 1 - start) =~= next);
                    lemma_digits_value_nonneg(s@.subrange(start as int, i as int));
                    if all_digits(d) {
                        lemma_digits_prefix_le(d, i + 1 - start);
                    }
                }
                return None;
            },
        }
        i = i + 1;
    }
    assert(s@.subrange(start as int, n as int) =~= d);
    if negative {
        if acc <= 9223372036854775808u64 {
            if acc == 9223372036854775808u64 {
                Some(i64::MIN)
            } else {
                Some(0i64 - (acc as i64))
            }
        } else {
            None
        }
    } else if acc <= 9223372036854775807u64 {
        Some(acc as i64)
    } else {
        None
    }
}

/// The `u64` written `s`: an optional `+` and at least one digit, within range,
/// as `u64::from_str` reads it.
pub open spec fn u64_text(s: Seq<char>) -> Option<u64> {
    let d = if s.len() > 0 && s[0] == '+' {
        s.drop_first()
    } else {
        s
    };
    if d.len() > 0 && all_digits(d) && digits_value(d) <= u64::MAX {
        Some(digits_value(d) as u64)
    } else {
        None
    }
}

/// The `u64` written `s`, as `u64::from_str` reads it.
pub fn parse_u64_chars(s: &[char]) -> (r: Option<u64>)
    ensures
        r == u64_text(s@),
{
    let n = s.len();
    let start: usize = if n > 0 && s[0] == '+' { 1 } else { 0 };
    let ghost d = s@.subrange(start as int, n as int);
    assert(start == 1 ==> d =~= s@.drop_first());
    assert(start == 0 ==> d =~= s@);
    if start == n {
        return None;
    }
    let mut acc: u64 = 0;
    let mut i: usize = start;
    while i < n
        invariant
            n == s@.len(),
            start <= i <= n,
            start < n,
            d == s@.subrange(start as int, n as int),
            u64_text(s@) == (if all_digits(d) && digits_value(d) <= u64::MAX {
                Some(digits_value(d) as u64)
            } else {
                None::<u64>
            }),
            acc == digits_value(s@.subrange(start as int, i as int)),
            all_digits(s@.subrange(start as int, i as int)),
        decreases n - i,
    {
        let c = s[i];
        if !('0' <= c && c <= '9') {
            assert(d[i - start] == c);
            assert(!all_digits(d));
            return None;
        }
        let digit: u64 = ((c as u32) - ('0' as u32)) as u64;
        let ghost next = s@.subrange(start as int, i + 1);
        assert(next.drop_last() =~= s@.subrange(start as int, i as int));
        assert(next.last() == c);
        assert(all_digits(next));
        match acc.checked_mul(10) {
            Some(m) => {
                match m.checked_add(digit) {
                    Some(a) => {
                        acc = a;
                    },
                    None => {
                        proof {
                            assert(d.subrange(0, i + 1 - start) =~= next);
                            if all_digits(d) {
                                lemma_digits_prefix_le(d, i + 1 - start);
                            }
                        }
                        return None;
                    },
                }
            },
            None => {
                proof {
                    assert(d.subrange(0, i + 1 - start) =~= next);
                    lemma_digits_value_nonneg(s@.subrange(start as int, i as int));
                    if all_digits(d) {
                        lemma_digits_prefix_le(d, i + 1 - start);
                    }
                }
                return None;
            },
        }
        i = i + 1;
    }
    assert(s@.subrange(start as int, n as int) =~= d);
    Some(acc)
}

/// Whether a trimmed field is one of the words that stand for a missing number.
fn is_missing_word(t: &[char]) -> (r: bool)
    ensures
        r == is_missing_number(t@),
{
    let a = chars_of("");
    let b = chars_of("NA");
    let c = chars_of("N/A");
    let d = chars_of("none");
    let e = chars_of("None");
    chars_eq(t, a.as_slice()) || chars_eq(t, b.as_slice()) || chars_eq(t, c.as_slice()) || chars_eq(
        t,
        d.as_slice(),
    ) || chars_eq(t, e.as_slice())
}

/// A progress-parse error whose message is `prefix` followed by `value`.
fn parse_error(prefix: &str, value: &[char]) -> (e: DownloadTaskError)
    ensures
        e matches DownloadTaskError::ProgressParse(m) && m@ == prefix@ + value@,
{
    let mut m = string_of(prefix);
    crate::text::push_chars(&mut m, value);
    DownloadTaskError::ProgressParse(m)
}

/// An integer field: nothing for `NA`, `N/A`, `none`, `None` or an empty field,
/// otherwise the `i64` it holds.
pub fn parse_i64(value: &str) -> (r: Result<Option<i64>, DownloadTaskError>)
    ensures
        is_number_outcome(r, number_field(value@)),
{
    let raw = chars_of(value);
    let t = trim_chars(raw.as_slice());
    if is_missing_word(t.as_slice()) {
        return Ok(None);
    }
    match parse_i64_chars(t.as_slice()) {
        Some(v) => Ok(Some(v)),
        None => Err(parse_error("无效数值：", raw.as_slice())),
    }
}

/// The status a progress line names.
fn stream_status(f: &[char]) -> (r: Option<DownloadStreamStatus>)
    ensures
        r == spec_stream_status(f@),
{
    let downloading = chars_of("downloading");
    let finished = chars_of("finished");
    if chars_eq(f, downloading.as_slice()) {
        Some(DownloadStreamStatus::Downloading)
    } else if chars_eq(f, finished.as_slice()) {
        Some(DownloadStreamStatus::Finished)
    } else {
        None
    }
}

/// Whether `r` is a progress-parse error with message `m`.
pub open spec fn is_parse_error<T>(r: Result<T, DownloadTaskError>, m: Seq<char>) -> bool {
    r matches Err(DownloadTaskError::ProgressParse(x)) && x@ == m
}

/// Whether `r` is what a trimmed line `t` of download output says, given the
/// format ids `v` of the video and `a` of the audio stream.
pub open spec fn is_line_outcome(
    r: Result<DownloadLine, DownloadTaskError>,
    t: Seq<char>,
    v: Seq<char>,
    a: Seq<char>,
) -> bool {
    let fields = line_fields(t);
    if is_merging_line(t) {
        r matches Ok(DownloadLine::Merging)
    } else if is_output_line(t) {
        r matches Ok(DownloadLine::OutputPath(p)) && p@ == t.skip("after_move:"@.len() as int)
    } else if !starts_with(t, "download:"@) {
        is_parse_error(r, "未知进度行："@ + t)
    } else if fields.len() != 9 {
        is_parse_error(r, "字段数量为 "@ + decimal(fields.len()) + "，预期为 9"@)
    } else if trim(fields[1]) != v && trim(fields[1]) != a {
        is_parse_error(r, "未知格式 ID："@ + trim(fields[1]))
    } else if spec_stream_status(fields[0]) is None {
        is_parse_error(r, "未知状态："@ + fields[0])
    } else {
        r matches Ok(DownloadLine::Progress(p)) && p.format_id@ == trim(fields[1]) && p.media_type == (
        if trim(fields[1]) == v {
            DownloadMediaType::Video
        } else {
            DownloadMediaType::Audio
        }) && Some(p.status) == spec_stream_status(fields[0]) && p.fields.len() == 9 && (forall|i: int|
            0 <= i < 9 ==> (#[trigger] p.fields@[i])@ == fields[i])
    }
}

/// Reads one line of download output: a merge notice, the final path, or a
/// progress update of the video or the audio stream.
pub fn split_download_line(line: &str, video_format_id: &str, audio_format_id: &str) -> (r: Result<
    DownloadLine,
    DownloadTaskError,
>)
    ensures
        is_line_outcome(r, trim(line@), video_format_id@, audio_format_id@),
{
    let raw = chars_of(line);
    let t = trim_chars(raw.as_slice());
    if has_prefix(t.as_slice(), "postprocess:") {
        return Ok(DownloadLine::Merging);
    }
    if has_prefix(t.as_slice(), "after_move:") {
        let k = chars_of("after_move:").len();
        let path = chars_from(t.as_slice(), k);
        return Ok(DownloadLine::OutputPath(string_from_chars(path.as_slice())));
    }
    if !has_prefix(t.as_slice(), "download:") {
        return Err(parse_error("未知进度行：", t.as_slice()));
    }
    let k = chars_of("download:").len();
    let rest = chars_from(t.as_slice(), k);
    let parts = split_tabs(rest.as_slice());
    assert(holds_fields(parts@, line_fields(t@)));
    if parts.len() != 9 {
        let mut m = string_of("字段数量为 ");
        push_decimal(&mut m, parts.len() as u64);
        push_str(&mut m, "，预期为 9");
        return Err(DownloadTaskError::ProgressParse(m));
    }
    assert(parts@[1]@ == line_fields(t@)[1]);
    assert(parts@[0]@ == line_fields(t@)[0]);
    let format_id = trim_chars(parts[1].as_slice());
    let video = chars_of(video_format_id);
    let audio = chars_of(audio_format_id);
    let media_type = if chars_eq(format_id.as_slice(), video.as_slice()) {
        DownloadMediaType::Video
    } else if chars_eq(format_id.as_slice(), audio.as_slice()) {
        DownloadMediaType::Audio
    } else {
        return Err(parse_error("未知格式 ID：", format_id.as_slice()));
    };
    let status = match stream_status(parts[0].as_slice()) {
        Some(status) => status,
        None => {
            return Err(parse_error("未知状态：", parts[0].as_slice()));
        },
    };
    let mut fields: Vec<String> = Vec::new();
    let mut i: usize = 0;
    while i < parts.len()
        invariant
            i <= parts@.len(),
            fields@.len() == i,
            forall|j: int| 0 <= j < i ==> (#[trigger] fields@[j])@ == parts@[j]@,
        decreases parts.len() - i,
    {
        let f = string_from_chars(parts[i].as_slice());
        fields.push(f);
        i = i + 1;
    }
    assert forall|j: int| 0 <= j < 9 implies (#[trigger] fields@[j])@ == line_fields(t@)[j] by {
        assert(parts@[j]@ == line_fields(t@)[j]);
    }
    Ok(
        DownloadLine::Progress(
            ProgressLine {
                format_id: string_from_chars(format_id.as_slice()),
                media_type,
                status,
                fields,
            },
        ),
    )
}

/// The value of a number field that was read, or no value.
pub open spec fn field_value(m: Result<Option<i64>, Seq<char>>) -> Option<i64> {
    match m {
        Ok(v) => v,
        Err(_) => None,
    }
}

/// Whether `r` is the progress of the stream that the progress line `line`
/// reports, given what its decimal fields were read as: the percentage (field 9),
/// the speed (field 6), the elapsed (field 7) and the remaining time (field 8).
/// The first field that cannot be read decides the error, in the order
/// percentage, downloaded bytes, total bytes, estimated total, speed, elapsed
/// time, remaining time.
pub open spec fn is_progress_outcome(
    r: Result<StreamProgress, DownloadTaskError>,
    line: ProgressLine,
    percent: Result<Option<u8>, DownloadTaskError>,
    speed: Result<Option<i64>, DownloadTaskError>,
    elapsed: Result<Option<i64>, DownloadTaskError>,
    eta: Result<Option<i64>, DownloadTaskError>,
) -> bool {
    let downloaded = number_field(line.fields@[2]@);
    let total = number_field(line.fields@[3]@);
    let estimate = number_field(line.fields@[4]@);
    if percent is Err {
        r == Err::<StreamProgress, DownloadTaskError>(percent->Err_0)
    } else if downloaded is Err {
        is_parse_error(r, downloaded->Err_0)
    } else if total is Err {
        is_parse_error(r, total->Err_0)
    } else if estimate is Err {
        is_parse_error(r, estimate->Err_0)
    } else if speed is Err {
        r == Err::<StreamProgress, DownloadTaskError>(speed->Err_0)
    } else if elapsed is Err {
        r == Err::<StreamProgress, DownloadTaskError>(elapsed->Err_0)
    } else if eta is Err {
        r == Err::<StreamProgress, DownloadTaskError>(eta->Err_0)
    } else {
        r matches Ok(p) && p.stream_key@ == line.format_id@ && (p.format_id matches Some(f) && f@
            == line.format_id@) && p.media_type == line.media_type && p.status == line.status
            && p.downloaded_bytes == (match field_value(downloaded) {
            Some(v) => v,
            None => 0,
        }) && p.total_bytes == field_value(total) && p.total_bytes_estimate == field_value(estimate)
            && p.speed_bytes_per_second == speed->Ok_0 && p.elapsed_seconds == elapsed->Ok_0
            && p.eta_seconds == eta->Ok_0 && p.percent == percent->Ok_0 && p.started_at is None
            && p.finished_at is None
    }
}

/// The progress of the stream that a progress line reports, from the line and
/// what its decimal fields were read as.
pub fn progress_from_fields(
    line: ProgressLine,
    percent: Result<Option<u8>, DownloadTaskError>,
    speed: Result<Option<i64>, DownloadTaskError>,
    elapsed: Result<Option<i64>, DownloadTaskError>,
    eta: Result<Option<i64>, DownloadTaskError>,
) -> (r: Result<StreamProgress, DownloadTaskError>)
    requires
        line.fields.len() == 9,
    ensures
        is_progress_outcome(r, line, percent, speed, elapsed, eta),
{
    let percent = match percent {
        Ok(value) => value,
        Err(error) => {
            return Err(error);
        },
    };
    let downloaded = match parse_i64(line.fields[2].as_str()) {
        Ok(value) => value,
        Err(error) => {
            return Err(error);
        },
    };
    let total = match parse_i64(line.fields[3].as_str()) {
        Ok(value) => value,
        Err(error) => {
            return Err(error);
        },
    };
    let estimate = match parse_i64(line.fields[4].as_str()) {
        Ok(value) => value,
        Err(error) => {
            return Err(error);
        },
    };
    let speed = match speed {
        Ok(value) => value,
        Err(error) => {
            return Err(error);
        },
    };
    let elapsed = match elapsed {
        Ok(value) => value,
        Err(error) => {
            return Err(error);
        },
    };
    let eta = match eta {
        Ok(value) => value,
        Err(error) => {
            return Err(error);
        },
    };
    let key = line.format_id.clone();
    Ok(
        StreamProgress {
            stream_key: key,
            format_id: Some(line.format_id),
            media_type: line.media_type,
            status: line.status,
            downloaded_bytes: match downloaded {
                Some(value) => value,
                None => 0,
            },
            total_bytes: total,
            total_bytes_estimate: estimate,
            speed_bytes_per_second: speed,
            elapsed_seconds: elapsed,
            eta_seconds: eta,
            percent,
            started_at: None,
            finished_at: None,
        },
    )
}

/// The output template that makes `yt-dlp` print one progress line per update.
pub fn progress_template() -> (r: String)
    ensures
        r@ == "download:download:%(progress.status)s\t%(info.format_id)s\t%(progress.downloaded_bytes)s\t%(progress.total_bytes)s\t%(progress.total_bytes_estimate)s\t%(progress.speed)s\t%(progress.elapsed)s\t%(progress.eta)s\t%(progress._percent_str)s"@,
{
    string_of(
        "download:download:%(progress.status)s\t%(info.format_id)s\t%(progress.downloaded_bytes)s\t%(progress.total_bytes)s\t%(progress.total_bytes_estimate)s\t%(progress.speed)s\t%(progress.elapsed)s\t%(progress.eta)s\t%(progress._percent_str)s",
    )
}

/// The output template that makes `yt-dlp` announce each post-processing step.
pub fn postprocess_template() -> (r: &'static str)
    ensures
        r@ == "postprocess:postprocess:%(postprocessor_key)s"@,
{
    "postprocess:postprocess:%(postprocessor_key)s"
}

/// The error of a metadata field that has the wrong form.
pub fn invalid_field(field: &'static str, message: &str) -> (e: DownloadTaskError)
    ensures
        e matches DownloadTaskError::InvalidField { field: f, message: m } && f@ == field@ && m@ == message@,
{
    DownloadTaskError::InvalidField { field, message: string_of(message) }
}

} // verus!
