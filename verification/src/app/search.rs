//! The search page: its result table's sort state, its download path, and what a
//! failed search is reported as.
use crate::app::task_order::lex_order;
use crate::app::tasks::compare_lexicographic;
use crate::download_task::error::DownloadTaskError;
use crate::download_task::parser::{parse_u64_chars, u64_text};
use crate::download_task::persistence::{names_codec, FormatFacts};
use crate::paths::{path_exists, path_is_dir, str_path};
use crate::text::{is_blank, trim, ascii_lower_seq, chars_of, has_surrounding_ws, lower_chars, spec_has_surrounding_ws, str_eq, string_from_chars, string_of};
use std::cmp::Ordering;
use vstd::prelude::*;

verus! {

/// What is wrong with the download path of the search page.
#[derive(Debug, Clone, Copy, PartialEq, Eq, Structural)]
pub enum SearchPathError {
    LeadingOrTrailingWhitespace,
    MissingDirectory,
    NotADirectory,
}

/// What a failed search is reported as.
#[derive(Debug, Clone, Copy, PartialEq, Eq, Structural)]
pub enum SearchFailure {
    ConfigurationMissing,
    YtDlpPathMissing,
    InvalidPath,
    Process,
    Metadata,
    TimedOut,
    Cancelled,
    Unexpected,
}

/// A column of the search result table.
#[derive(Debug, Clone, Copy, PartialEq, Eq, Structural)]
pub enum SortColumn {
    FormatId,
    FormatNote,
    Extension,
    Resolution,
    Bitrate,
    FileSize,
    VideoCodec,
    AudioCodec,
}

/// The sort direction of the search result table; `Reset` shows rows as loaded.
#[derive(Debug, Clone, Copy, PartialEq, Eq, Structural)]
pub enum SortDirection {
    Reset,
    Ascending,
    Descending,
}

/// The position of a column in the table.
pub open spec fn search_column_index(c: SortColumn) -> i32 {
    match c {
        SortColumn::FormatId => 0,
        SortColumn::FormatNote => 1,
        SortColumn::Extension => 2,
        SortColumn::Resolution => 3,
        SortColumn::Bitrate => 4,
        SortColumn::FileSize => 5,
        SortColumn::VideoCodec => 6,
        SortColumn::AudioCodec => 7,
    }
}

impl SortColumn {
    /// The column at a position of the table, if there is one.
    pub fn from_index(index: i32) -> (r: Option<Self>)
        ensures
            r matches Some(c) ==> search_column_index(c) == index,
            r is None <==> (index < 0 || index > 7),
    {
        match index {
            0 => Some(SortColumn::FormatId),
            1 => Some(SortColumn::FormatNote),
            2 => Some(SortColumn::Extension),
            3 => Some(SortColumn::Resolution),
            4 => Some(SortColumn::Bitrate),
            5 => Some(SortColumn::FileSize),
            6 => Some(SortColumn::VideoCodec),
            7 => Some(SortColumn::AudioCodec),
            _ => None,
        }
    }

    /// The position of the column in the table.
    pub fn index(self) -> (r: i32)
        ensures
            r == search_column_index(self),
    {
        match self {
            SortColumn::FormatId => 0,
            SortColumn::FormatNote => 1,
            SortColumn::Extension => 2,
            SortColumn::Resolution => 3,
            SortColumn::Bitrate => 4,
            SortColumn::FileSize => 5,
            SortColumn::VideoCodec => 6,
            SortColumn::AudioCodec => 7,
        }
    }
}

impl SortDirection {
    /// The number the interface uses for the direction.
    pub fn index(self) -> (r: i32)
        ensures
            self == SortDirection::Reset ==> r == 0,
            self == SortDirection::Ascending ==> r == 1,
            self == SortDirection::Descending ==> r == 2,
    {
        match self {
            SortDirection::Reset => 0,
            SortDirection::Ascending => 1,
            SortDirection::Descending => 2,
        }
    }
}

/// The sort state after a click on a column header.
pub open spec fn spec_next_sort(current: Option<SortColumn>, direction: SortDirection, clicked: SortColumn) -> (
    Option<SortColumn>,
    SortDirection,
) {
    if current != Some(clicked) {
        (Some(clicked), SortDirection::Ascending)
    } else {
        match direction {
            SortDirection::Reset => (Some(clicked), SortDirection::Ascending),
            SortDirection::Ascending => (Some(clicked), SortDirection::Descending),
            SortDirection::Descending => (None, SortDirection::Reset),
        }
    }
}

/// The sort state after a click on a column header: a new column sorts
/// ascending; clicking the sorted column again sorts descending, and a third
/// click returns to the loaded order.
pub fn next_sort_state(current_column: Option<SortColumn>, current_direction: SortDirection, clicked: SortColumn) -> (r: (
    Option<SortColumn>,
    SortDirection,
))
    ensures
        r == spec_next_sort(current_column, current_direction, clicked),
{
    if current_column != Some(clicked) {
        return (Some(clicked), SortDirection::Ascending);
    }
    match current_direction {
        SortDirection::Reset => (Some(clicked), SortDirection::Ascending),
        SortDirection::Ascending => (Some(clicked), SortDirection::Descending),
        SortDirection::Descending => (None, SortDirection::Reset),
    }
}

/// Three clicks on the same column header, starting from any state that does not
/// already sort it, go ascending, descending, and back to the loaded order; a
/// fourth click starts over.
pub proof fn law_three_clicks_cycle(current: Option<SortColumn>, direction: SortDirection, clicked: SortColumn)
    requires
        current != Some(clicked),
    ensures
        ({
            let s1 = spec_next_sort(current, direction, clicked);
            let s2 = spec_next_sort(s1.0, s1.1, clicked);
            let s3 = spec_next_sort(s2.0, s2.1, clicked);
            let s4 = spec_next_sort(s3.0, s3.1, clicked);
            &&& s1 == (Some(clicked), SortDirection::Ascending)
            &&& s2 == (Some(clicked), SortDirection::Descending)
            &&& s3 == (None::<SortColumn>, SortDirection::Reset)
            &&& s4 == s1
        }),
{
}

/// A row of the search result table, as text.
#[derive(Debug, Clone, PartialEq, Eq)]
pub struct SearchResultRow {
    pub format_id: String,
    pub format_note: String,
    pub extension: String,
    pub resolution: String,
    pub bitrate: String,
    pub file_size: String,
    pub video_codec: String,
    pub audio_codec: String,
}

/// What a search request does before `yt-dlp` runs.
#[derive(Debug, Clone, Copy, PartialEq, Eq, Structural)]
pub enum SearchStart {
    /// Nothing: a search is running, or the URL is blank.
    Ignore,
    /// The search fails at once for this reason.
    Fail(SearchFailure),
    /// The search runs.
    Run,
}

/// Decides a search request: ignored while a search runs or when the URL is
/// blank; without a configuration (`yt_dlp_path` is `None`) or with a blank
/// `yt-dlp` path it fails with the matching reason; otherwise it runs.
pub fn search_start(busy: bool, url: &str, yt_dlp_path: Option<&str>) -> (r: SearchStart)
    ensures
        r == (if busy || trim(url@).len() == 0 {
            SearchStart::Ignore
        } else {
            match yt_dlp_path {
                None => SearchStart::Fail(SearchFailure::ConfigurationMissing),
                Some(p) => if trim(p@).len() == 0 {
                    SearchStart::Fail(SearchFailure::YtDlpPathMissing)
                } else {
                    SearchStart::Run
                },
            }
        }),
{
    if busy || is_blank(url) {
        return SearchStart::Ignore;
    }
    match yt_dlp_path {
        None => SearchStart::Fail(SearchFailure::ConfigurationMissing),
        Some(path) => if is_blank(path) {
            SearchStart::Fail(SearchFailure::YtDlpPathMissing)
        } else {
            SearchStart::Run
        },
    }
}

/// What a non-empty download path of the search page written without
/// surrounding whitespace is found to be, from what the disk answered: nothing
/// there is a missing directory, something other than a directory is not a
/// directory.
pub fn download_path_found(exists: bool, is_dir: bool) -> (r: Result<(), SearchPathError>)
    ensures
        r == (if !exists {
            Err::<(), SearchPathError>(SearchPathError::MissingDirectory)
        } else if !is_dir {
            Err::<(), SearchPathError>(SearchPathError::NotADirectory)
        } else {
            Ok::<(), SearchPathError>(())
        }),
{
    if !exists {
        Err(SearchPathError::MissingDirectory)
    } else if !is_dir {
        Err(SearchPathError::NotADirectory)
    } else {
        Ok(())
    }
}

/// Checks the download path of the search page: empty is allowed (the default
/// directory is used); otherwise no surrounding whitespace, and an existing
/// directory.
pub fn validate_download_path(value: &str) -> (r: Result<(), SearchPathError>)
    ensures
        value@.len() == 0 ==> r is Ok,
        value@.len() > 0 && spec_has_surrounding_ws(value@) ==> r == Err::<(), SearchPathError>(
            SearchPathError::LeadingOrTrailingWhitespace,
        ),
        value@.len() > 0 && !spec_has_surrounding_ws(value@) ==> (r is Ok || r == Err::<(), SearchPathError>(
            SearchPathError::MissingDirectory,
        ) || r == Err::<(), SearchPathError>(SearchPathError::NotADirectory)),
{
    if value.unicode_len() == 0 {
        return Ok(());
    }
    if has_surrounding_ws(value) {
        return Err(SearchPathError::LeadingOrTrailingWhitespace);
    }
    let exists = path_exists(str_path(value));
    let is_dir = exists && path_is_dir(str_path(value));
    download_path_found(exists, is_dir)
}

/// A download can start when a format is selected and the path is given and valid.
pub fn can_download(path: &str, selected_index: Option<usize>, path_error: Option<SearchPathError>) -> (r: bool)
    ensures
        r == (selected_index is Some && path@.len() > 0 && path_error is None),
{
    selected_index.is_some() && path.unicode_len() > 0 && path_error.is_none()
}

/// What a failed search is reported as.
pub open spec fn spec_classify(e: DownloadTaskError) -> SearchFailure {
    match e {
        DownloadTaskError::ExecutableNotFound(_) => SearchFailure::YtDlpPathMissing,
        DownloadTaskError::Timeout(_) => SearchFailure::TimedOut,
        DownloadTaskError::Cancelled => SearchFailure::Cancelled,
        DownloadTaskError::ProcessFailed { .. } | DownloadTaskError::Spawn(_) | DownloadTaskError::Io(_)
        | DownloadTaskError::VersionCommandFailed { .. } | DownloadTaskError::VersionOutputEmpty
        | DownloadTaskError::DownloadProcessFailed { .. } => SearchFailure::Process,
        DownloadTaskError::InvalidJson(_) | DownloadTaskError::MissingField(_)
        | DownloadTaskError::InvalidField { .. } => SearchFailure::Metadata,
        _ => SearchFailure::Unexpected,
    }
}

/// What a failed search is reported as: a missing executable, a time-out, a
/// cancellation, a process failure, unreadable metadata, or anything else.
pub fn classify_failure(error: &DownloadTaskError) -> (r: SearchFailure)
    ensures
        r == spec_classify(*error),
{
    match error {
        DownloadTaskError::ExecutableNotFound(_) => SearchFailure::YtDlpPathMissing,
        DownloadTaskError::Timeout(_) => SearchFailure::TimedOut,
        DownloadTaskError::Cancelled => SearchFailure::Cancelled,
        DownloadTaskError::ProcessFailed { .. } | DownloadTaskError::Spawn(_) | DownloadTaskError::Io(_)
        | DownloadTaskError::VersionCommandFailed { .. } | DownloadTaskError::VersionOutputEmpty => SearchFailure::Process,
        DownloadTaskError::InvalidJson(_) | DownloadTaskError::MissingField(_) | DownloadTaskError::InvalidField {
            ..
        } => SearchFailure::Metadata,
        DownloadTaskError::InvalidDownloadRequest(_) | DownloadTaskError::ProgressParse(_)
        | DownloadTaskError::Storage(_) | DownloadTaskError::OutputPathMissing => SearchFailure::Unexpected,
        DownloadTaskError::DownloadProcessFailed { .. } => SearchFailure::Process,
        DownloadTaskError::Poisoned | DownloadTaskError::WorkerPanicked => SearchFailure::Unexpected,
    }
}

/// An optional text shown as the text, or as nothing.
pub fn display_optional(value: &Option<String>) -> (r: String)
    ensures
        value matches Some(v) ==> r@ == v@,
        value is None ==> r@.len() == 0,
{
    match value {
        Some(v) => string_of(v.as_str()),
        None => String::new(),
    }
}

/// The text of an optional cell, empty when missing.
pub open spec fn cell_text(v: Option<&str>) -> Seq<char> {
    match v {
        Some(s) => s@,
        None => Seq::<char>::empty(),
    }
}

/// Compares two cells as text, ignoring ASCII case; a missing cell is empty.
pub fn compare_text(left: Option<&str>, right: Option<&str>) -> (r: Ordering)
    ensures
        r == lex_order(ascii_lower_seq(cell_text(left)), ascii_lower_seq(cell_text(right))),
{
    let l = match left {
        Some(s) => chars_of(s),
        None => Vec::new(),
    };
    let r = match right {
        Some(s) => chars_of(s),
        None => Vec::new(),
    };
    let ll = string_from_chars(lower_chars(l.as_slice()).as_slice());
    let rl = string_from_chars(lower_chars(r.as_slice()).as_slice());
    compare_lexicographic(ll.as_str(), rl.as_str())
}

/// The number a cell holds, when it is written as a `u64`.
pub open spec fn cell_number(v: Option<&str>) -> Option<u64> {
    match v {
        Some(s) => u64_text(s@),
        None => None,
    }
}

fn read_number(v: Option<&str>) -> (r: Option<u64>)
    ensures
        r == cell_number(v),
{
    match v {
        Some(s) => {
            let cs = chars_of(s);
            parse_u64_chars(cs.as_slice())
        },
        None => None,
    }
}

/// The order of two numbers.
pub open spec fn order_u64(a: u64, b: u64) -> Ordering {
    if a < b {
        Ordering::Less
    } else if a == b {
        Ordering::Equal
    } else {
        Ordering::Greater
    }
}

/// Compares two cells as numbers when both are written as `u64`, and otherwise
/// as text ignoring ASCII case.
pub fn compare_text_or_number(left: Option<&str>, right: Option<&str>) -> (r: Ordering)
    ensures
        r == (match (cell_number(left), cell_number(right)) {
            (Some(a), Some(b)) => order_u64(a, b),
            _ => lex_order(ascii_lower_seq(cell_text(left)), ascii_lower_seq(cell_text(right))),
        }),
{
    match (read_number(left), read_number(right)) {
        (Some(a), Some(b)) => if a < b {
            Ordering::Less
        } else if a == b {
            Ordering::Equal
        } else {
            Ordering::Greater
        },
        _ => compare_text(left, right),
    }
}

/// A format with a video stream and no audio stream, of known height.
pub open spec fn is_video_only(f: FormatFacts) -> bool {
    f.format_id is Some && f.height is Some && names_codec(f.video_codec) && !names_codec(f.audio_codec)
}

/// A format with an audio stream and no video stream.
pub open spec fn is_audio_only(f: FormatFacts) -> bool {
    f.format_id is Some && !names_codec(f.video_codec) && names_codec(f.audio_codec)
}

/// A format in the `m4a` container.
pub open spec fn is_m4a(f: FormatFacts) -> bool {
    f.extension matches Some(e) && e@ == "m4a"@
}

/// An audio-only format, and an `m4a` one when `m4a` is asked for.
pub open spec fn audio_candidate(f: FormatFacts, m4a: bool) -> bool {
    is_audio_only(f) && (!m4a || is_m4a(f))
}

/// The first audio candidate of `s`.
pub open spec fn first_audio(s: Seq<FormatFacts>, m4a: bool) -> Option<int>
    decreases s.len(),
{
    if s.len() == 0 {
        None
    } else {
        match first_audio(s.drop_last(), m4a) {
            Some(i) => Some(i),
            None => if audio_candidate(s.last(), m4a) {
                Some(s.len() - 1)
            } else {
                None
            },
        }
    }
}

/// The audio format a download takes: the first audio-only `m4a` format, or else
/// the first audio-only format.
pub open spec fn chosen_audio(s: Seq<FormatFacts>) -> Option<int> {
    match first_audio(s, true) {
        Some(i) => Some(i),
        None => first_audio(s, false),
    }
}

proof fn lemma_first_audio(s: Seq<FormatFacts>, m4a: bool, k: int)
    requires
        0 <= k <= s.len(),
        forall|j: int| 0 <= j < k ==> !audio_candidate(#[trigger] s[j], m4a),
    ensures
        first_audio(s.take(k), m4a) is None,
    decreases k,
{
    if k > 0 {
        assert(s.take(k).drop_last() =~= s.take(k - 1));
        lemma_first_audio(s, m4a, k - 1);
    }
}

proof fn lemma_first_audio_found(s: Seq<FormatFacts>, m4a: bool, k: int)
    requires
        0 <= k < s.len(),
        first_audio(s.take(k), m4a) is None,
        audio_candidate(s[k], m4a),
    ensures
        first_audio(s, m4a) == Some(k),
    decreases s.len(),
{
    if k < s.len() - 1 {
        assert(s.drop_last().take(k) =~= s.take(k));
        lemma_first_audio_found(s.drop_last(), m4a, k);
    } else {
        assert(s.drop_last() =~= s.take(k));
    }
}

proof fn lemma_first_audio_in_range(s: Seq<FormatFacts>, m4a: bool)
    ensures
        first_audio(s, m4a) matches Some(i) ==> 0 <= i < s.len() && audio_candidate(s[i], m4a),
    decreases s.len(),
{
    if s.len() > 0 {
        lemma_first_audio_in_range(s.drop_last(), m4a);
    }
}

fn is_candidate(f: &FormatFacts, m4a: bool) -> (r: bool)
    ensures
        r == audio_candidate(*f, m4a),
{
    let video = match &f.video_codec {
        Some(c) => c.as_str().unicode_len() > 0 && !str_eq(c.as_str(), "none"),
        None => false,
    };
    let audio = match &f.audio_codec {
        Some(c) => c.as_str().unicode_len() > 0 && !str_eq(c.as_str(), "none"),
        None => false,
    };
    let container = match &f.extension {
        Some(e) => str_eq(e.as_str(), "m4a"),
        None => false,
    };
    f.format_id.is_some() && !video && audio && (!m4a || container)
}

fn find_audio(formats: &[FormatFacts], m4a: bool) -> (r: Option<usize>)
    ensures
        match first_audio(formats@, m4a) {
            Some(i) => r == Some(i as usize),
            None => r is None,
        },
{
    let mut i: usize = 0;
    while i < formats.len()
        invariant
            i <= formats@.len(),
            forall|j: int| 0 <= j < i ==> !audio_candidate(#[trigger] formats@[j], m4a),
        decreases formats.len() - i,
    {
        if is_candidate(&formats[i], m4a) {
            proof {
                lemma_first_audio(formats@, m4a, i as int);
                lemma_first_audio_found(formats@, m4a, i as int);
            }
            return Some(i);
        }
        i = i + 1;
    }
    proof {
        lemma_first_audio(formats@, m4a, formats@.len() as int);
        assert(formats@.take(formats@.len() as int) =~= formats@);
    }
    None
}

/// The format id of a format, as text.
pub open spec fn format_id_text(f: FormatFacts) -> Seq<char> {
    match f.format_id {
        Some(x) => x@,
        None => Seq::<char>::empty(),
    }
}

/// The video and audio format ids a download of the selected row takes: the
/// selected format must be video only, and the audio is the first audio-only
/// `m4a` format, or else the first audio-only format.
pub fn selected_download_streams(formats: &[FormatFacts], selected_index: Option<usize>) -> (r: Option<(String, String)>)
    ensures
        (match selected_index {
            Some(i) => i < formats@.len() && is_video_only(formats@[i as int]) && chosen_audio(formats@) is Some,
            None => false,
        }) ==> (r matches Some(p) && p.0@ == format_id_text(formats@[selected_index->Some_0 as int]) && p.1@
            == format_id_text(formats@[chosen_audio(formats@)->Some_0])),
        !(match selected_index {
            Some(i) => i < formats@.len() && is_video_only(formats@[i as int]) && chosen_audio(formats@) is Some,
            None => false,
        }) ==> r is None,
{
    let index = match selected_index {
        Some(i) => i,
        None => {
            return None;
        },
    };
    if index >= formats.len() {
        return None;
    }
    let f = &formats[index];
    let video_codec = match &f.video_codec {
        Some(c) => c.as_str().unicode_len() > 0 && !str_eq(c.as_str(), "none"),
        None => false,
    };
    let audio_codec = match &f.audio_codec {
        Some(c) => c.as_str().unicode_len() > 0 && !str_eq(c.as_str(), "none"),
        None => false,
    };
    if !(f.height.is_some() && video_codec && !audio_codec) {
        return None;
    }
    let video_id = match &f.format_id {
        Some(x) => string_of(x.as_str()),
        None => {
            return None;
        },
    };
    proof {
        lemma_first_audio_in_range(formats@, true);
        lemma_first_audio_in_range(formats@, false);
    }
    let audio_index = match find_audio(formats, true) {
        Some(a) => a,
        None => match find_audio(formats, false) {
            Some(a) => a,
            None => {
                return None;
            },
        },
    };
    let audio_id = match &formats[audio_index].format_id {
        Some(x) => string_of(x.as_str()),
        None => {
            return None;
        },
    };
    Some((video_id, audio_id))
}

} // verus!
