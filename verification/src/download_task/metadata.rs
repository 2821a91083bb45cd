//! The video metadata `yt-dlp` prints as JSON: the JSON text is read by
//! `serde_json`, and the fields the pages show and a download needs are taken
//! from it here. Numbers that are used as floating-point values (durations,
//! frame rates and bitrates) are kept as the text `serde_json` prints for them.
use crate::download_task::error::DownloadTaskError;
use crate::download_task::parser::{invalid_field, parse_u64_chars, u64_text};
use crate::text::{chars_of, str_eq, string_of};
use vstd::prelude::*;

verus! {

/// A JSON value. A number is kept as the text `serde_json` prints for it; an
/// object keeps its members in the order `serde_json` holds them.
#[derive(Debug)]
pub enum JsonValue {
    Null,
    Bool(bool),
    Number(String),
    Text(String),
    Array(Vec<JsonValue>),
    Object(Vec<(String, JsonValue)>),
}

#[verifier::external_type_specification]
#[verifier::external_body]
pub struct ExSerdeValue(serde_json::Value);

/// What `serde_json::from_slice` reads from the bytes `b`: the JSON value, or the
/// text of its error.
pub uninterp spec fn parsed_json(b: Seq<u8>) -> Result<JsonValue, Seq<char>>;

/// The JSON value a `serde_json::Value` holds, each number as the text its
/// `Display` prints.
pub uninterp spec fn json_of_value(v: serde_json::Value) -> JsonValue;

/// `serde_json::from_slice` into a `serde_json::Value`; an error is handed back
/// as the text its `Display` prints.
#[verifier::external_body]
fn read_json(bytes: &[u8]) -> (r: Result<serde_json::Value, String>)
    ensures
        match r {
            Ok(v) => parsed_json(bytes@) == Ok::<JsonValue, Seq<char>>(json_of_value(v)),
            Err(e) => parsed_json(bytes@) == Err::<JsonValue, Seq<char>>(e@),
        },
{
    match serde_json::from_slice::<serde_json::Value>(bytes) {
        Ok(value) => Ok(value),
        Err(error) => Err(error.to_string()),
    }
}

/// The `serde_json::Value` as a [`JsonValue`], variant for variant; a number
/// becomes the text `Number`'s `Display` prints.
#[verifier::external_body]
fn json_value(v: &serde_json::Value) -> (r: JsonValue)
    ensures
        r == json_of_value(*v),
{
    match v {
        serde_json::Value::Null => JsonValue::Null,
        serde_json::Value::Bool(b) => JsonValue::Bool(*b),
        serde_json::Value::Number(n) => JsonValue::Number(n.to_string()),
        serde_json::Value::String(s) => JsonValue::Text(s.clone()),
        serde_json::Value::Array(items) => JsonValue::Array(items.iter().map(json_value).collect()),
        serde_json::Value::Object(map) => JsonValue::Object(
            map.iter().map(|(key, item)| (key.clone(), json_value(item))).collect(),
        ),
    }
}

/// Reads JSON text: the value, or the text of `serde_json`'s error.
pub fn parse_json(bytes: &[u8]) -> (r: Result<JsonValue, String>)
    ensures
        match (r, parsed_json(bytes@)) {
            (Ok(v), Ok(w)) => v == w,
            (Err(e), Err(m)) => e@ == m,
            _ => false,
        },
{
    match read_json(bytes) {
        Ok(value) => Ok(json_value(&value)),
        Err(message) => Err(message),
    }
}

/// One media format of a video, as its metadata gives it. `fps` and the three
/// bitrates are the number texts of the metadata.
#[derive(Debug, Clone)]
pub struct FormatEntry {
    pub format_id: Option<String>,
    pub format_note: Option<String>,
    pub extension: Option<String>,
    pub resolution: Option<String>,
    pub width: Option<u64>,
    pub height: Option<u64>,
    pub fps: Option<String>,
    pub filesize: Option<u64>,
    pub filesize_approx: Option<u64>,
    pub bitrate: Option<String>,
    pub video_codec: Option<String>,
    pub audio_codec: Option<String>,
    pub audio_bitrate: Option<String>,
    pub video_bitrate: Option<String>,
    pub protocol: Option<String>,
    pub url: Option<String>,
}

/// The metadata of one video. `duration` is the number text of the metadata.
#[derive(Debug, Clone)]
pub struct VideoFacts {
    pub id: String,
    pub title: String,
    pub webpage_url: Option<String>,
    pub original_url: Option<String>,
    pub uploader: Option<String>,
    pub channel: Option<String>,
    pub duration: Option<String>,
    pub thumbnail_url: Option<String>,
    pub description: Option<String>,
    pub upload_date: Option<String>,
    pub formats: Vec<FormatEntry>,
}

/// Why metadata is refused: the top level is not an object, a required field is
/// missing, or a field has the wrong form (with the message given for it).
#[derive(Debug, Clone, Copy)]
pub enum FieldProblem {
    NotAnObject,
    Missing(&'static str),
    Invalid(&'static str, &'static str),
}

/// The message of a top level that is not an object.
pub const NOT_AN_OBJECT: &'static str = "顶层 JSON 必须是对象";

/// Whether `e` is the error that reports `p`.
pub open spec fn reports(e: DownloadTaskError, p: FieldProblem) -> bool {
    match p {
        FieldProblem::NotAnObject => e matches DownloadTaskError::InvalidJson(m) && m@ == NOT_AN_OBJECT@,
        FieldProblem::Missing(f) => e matches DownloadTaskError::MissingField(g) && g@ == f@,
        FieldProblem::Invalid(f, m) => e matches DownloadTaskError::InvalidField { field, message } && field@
            == f@ && message@ == m@,
    }
}

/// The value of the first member of `fields` named `name`.
pub open spec fn member(fields: Seq<(String, JsonValue)>, name: Seq<char>) -> Option<JsonValue>
    decreases fields.len(),
{
    if fields.len() == 0 {
        None
    } else if fields[0].0@ == name {
        Some(fields[0].1)
    } else {
        member(fields.drop_first(), name)
    }
}

/// A required text field: present as a non-empty string.
pub open spec fn required_text_problem(fields: Seq<(String, JsonValue)>, name: &'static str) -> Option<
    FieldProblem,
> {
    match member(fields, name@) {
        None => Some(FieldProblem::Missing(name)),
        Some(JsonValue::Text(t)) => if t@.len() > 0 {
            None
        } else {
            Some(FieldProblem::Invalid(name, "必须是非空字符串"))
        },
        Some(_) => Some(FieldProblem::Invalid(name, "必须是非空字符串")),
    }
}

/// An optional text field: absent, null or a string.
pub open spec fn text_problem(fields: Seq<(String, JsonValue)>, name: &'static str) -> Option<FieldProblem> {
    match member(fields, name@) {
        None => None,
        Some(JsonValue::Null) => None,
        Some(JsonValue::Text(_)) => None,
        Some(_) => Some(FieldProblem::Invalid(name, "必须是字符串或 null")),
    }
}

/// An optional number field: absent, null or a number.
pub open spec fn number_problem(fields: Seq<(String, JsonValue)>, name: &'static str) -> Option<FieldProblem> {
    match member(fields, name@) {
        None => None,
        Some(JsonValue::Null) => None,
        Some(JsonValue::Number(_)) => None,
        Some(_) => Some(FieldProblem::Invalid(name, "必须是数字或 null")),
    }
}

/// An optional integer field: absent, null or a number written as a
/// non-negative integer that fits in `u64`.
pub open spec fn integer_problem(fields: Seq<(String, JsonValue)>, name: &'static str) -> Option<FieldProblem> {
    match member(fields, name@) {
        None => None,
        Some(JsonValue::Null) => None,
        Some(JsonValue::Number(t)) => if u64_text(t@) is Some {
            None
        } else {
            Some(FieldProblem::Invalid(name, "必须是非负整数或 null"))
        },
        Some(_) => Some(FieldProblem::Invalid(name, "必须是非负整数或 null")),
    }
}

/// The text of a text field, when it holds one.
pub open spec fn text_of(fields: Seq<(String, JsonValue)>, name: Seq<char>) -> Option<Seq<char>> {
    match member(fields, name) {
        Some(JsonValue::Text(t)) => Some(t@),
        _ => None,
    }
}

/// The number text of a number field, when it holds one.
pub open spec fn number_of(fields: Seq<(String, JsonValue)>, name: Seq<char>) -> Option<Seq<char>> {
    match member(fields, name) {
        Some(JsonValue::Number(t)) => Some(t@),
        _ => None,
    }
}

/// The integer of an integer field, when it holds one.
pub open spec fn integer_of(fields: Seq<(String, JsonValue)>, name: Seq<char>) -> Option<u64> {
    match member(fields, name) {
        Some(JsonValue::Number(t)) => u64_text(t@),
        _ => None,
    }
}

/// The text of an optional string.
pub open spec fn opt_text(o: Option<String>) -> Option<Seq<char>> {
    match o {
        Some(s) => Some(s@),
        None => None,
    }
}

/// The first of two problems, if any.
pub open spec fn either(a: Option<FieldProblem>, b: Option<FieldProblem>) -> Option<FieldProblem> {
    if a is Some {
        a
    } else {
        b
    }
}

/// The members of an object, or nothing for any other value.
pub open spec fn members(v: JsonValue) -> Seq<(String, JsonValue)> {
    match v {
        JsonValue::Object(fields) => fields@,
        _ => Seq::empty(),
    }
}

/// Why a format entry is refused, checking its fields in order.
pub open spec fn format_problem(v: JsonValue) -> Option<FieldProblem> {
    match v {
        JsonValue::Object(f) => {
            let fields = f@;
            either(text_problem(fields, "format_id"), either(text_problem(fields, "format_note"), either(text_problem(fields, "ext"), either(text_problem(fields, "resolution"), either(integer_problem(fields, "width"), either(integer_problem(fields, "height"), either(number_problem(fields, "fps"), either(integer_problem(fields, "filesize"), either(integer_problem(fields, "filesize_approx"), either(number_problem(fields, "tbr"), either(text_problem(fields, "vcodec"), either(text_problem(fields, "acodec"), either(number_problem(fields, "abr"), either(number_problem(fields, "vbr"), either(text_problem(fields, "protocol"), text_problem(fields, "url"))))))))))))))))
        },
        _ => Some(FieldProblem::Invalid("formats", "数组元素必须是对象")),
    }
}

/// Whether the entry `e` is what the format object with `fields` gives.
pub open spec fn format_matches(e: FormatEntry, fields: Seq<(String, JsonValue)>) -> bool {
    &&& opt_text(e.format_id) == text_of(fields, "format_id"@)
    &&& opt_text(e.format_note) == text_of(fields, "format_note"@)
    &&& opt_text(e.extension) == text_of(fields, "ext"@)
    &&& opt_text(e.resolution) == text_of(fields, "resolution"@)
    &&& e.width == integer_of(fields, "width"@)
    &&& e.height == integer_of(fields, "height"@)
    &&& opt_text(e.fps) == number_of(fields, "fps"@)
    &&& e.filesize == integer_of(fields, "filesize"@)
    &&& e.filesize_approx == integer_of(fields, "filesize_approx"@)
    &&& opt_text(e.bitrate) == number_of(fields, "tbr"@)
    &&& opt_text(e.video_codec) == text_of(fields, "vcodec"@)
    &&& opt_text(e.audio_codec) == text_of(fields, "acodec"@)
    &&& opt_text(e.audio_bitrate) == number_of(fields, "abr"@)
    &&& opt_text(e.video_bitrate) == number_of(fields, "vbr"@)
    &&& opt_text(e.protocol) == text_of(fields, "protocol"@)
    &&& opt_text(e.url) == text_of(fields, "url"@)
}

/// The first problem among the format entries `items`, in order.
pub open spec fn formats_problem(items: Seq<JsonValue>) -> Option<FieldProblem>
    decreases items.len(),
{
    if items.len() == 0 {
        None
    } else if format_problem(items[0]) is Some {
        format_problem(items[0])
    } else {
        formats_problem(items.drop_first())
    }
}

/// Why the `formats` member is refused: when present it must be an array of
/// format objects; an absent member is an empty list.
pub open spec fn formats_member_problem(fields: Seq<(String, JsonValue)>) -> Option<FieldProblem> {
    match member(fields, "formats"@) {
        None => None,
        Some(JsonValue::Array(items)) => formats_problem(items@),
        Some(_) => Some(FieldProblem::Invalid("formats", "必须是数组")),
    }
}

/// The format entries of the `formats` member (none when it is absent).
pub open spec fn format_items(fields: Seq<(String, JsonValue)>) -> Seq<JsonValue> {
    match member(fields, "formats"@) {
        Some(JsonValue::Array(items)) => items@,
        _ => Seq::empty(),
    }
}

/// Why the metadata `v` is refused: the top level must be an object; then its
/// fields are checked in order: `id` and `title` are required non-empty
/// strings, the other texts optional strings, `duration` an optional number,
/// and `formats` an optional array of format objects.
pub open spec fn video_problem(v: JsonValue) -> Option<FieldProblem> {
    match v {
        JsonValue::Object(f) => {
            let fields = f@;
            either(required_text_problem(fields, "id"), either(required_text_problem(fields, "title"), either(text_problem(fields, "webpage_url"), either(text_problem(fields, "original_url"), either(text_problem(fields, "uploader"), either(text_problem(fields, "channel"), either(number_problem(fields, "duration"), either(text_problem(fields, "thumbnail"), either(text_problem(fields, "description"), either(text_problem(fields, "upload_date"), formats_member_problem(fields)))))))))))
        },
        _ => Some(FieldProblem::NotAnObject),
    }
}

/// Whether `facts` is what the metadata object with `fields` gives.
pub open spec fn video_matches(facts: VideoFacts, fields: Seq<(String, JsonValue)>) -> bool {
    &&& Some(facts.id@) == text_of(fields, "id"@)
    &&& Some(facts.title@) == text_of(fields, "title"@)
    &&& opt_text(facts.webpage_url) == text_of(fields, "webpage_url"@)
    &&& opt_text(facts.original_url) == text_of(fields, "original_url"@)
    &&& opt_text(facts.uploader) == text_of(fields, "uploader"@)
    &&& opt_text(facts.channel) == text_of(fields, "channel"@)
    &&& opt_text(facts.duration) == number_of(fields, "duration"@)
    &&& opt_text(facts.thumbnail_url) == text_of(fields, "thumbnail"@)
    &&& opt_text(facts.description) == text_of(fields, "description"@)
    &&& opt_text(facts.upload_date) == text_of(fields, "upload_date"@)
    &&& facts.formats@.len() == format_items(fields).len()
    &&& forall|i: int|
        0 <= i < facts.formats@.len() ==> format_matches(
            #[trigger] facts.formats@[i],
            members(format_items(fields)[i]),
        )
}

/// What reading the metadata `v` gives: its problem when it has one, otherwise
/// the facts it holds.
pub open spec fn facts_outcome(v: JsonValue, r: Result<VideoFacts, DownloadTaskError>) -> bool {
    match video_problem(v) {
        Some(p) => r matches Err(e) && reports(e, p),
        None => r matches Ok(f) && video_matches(f, members(v)),
    }
}

/// Law: each field of a format entry is the member of the format object with
/// that field's JSON name (`ext` for the extension, `tbr`, `abr` and `vbr` for
/// the bitrates, `vcodec` and `acodec` for the codecs): a string member gives its
/// text, a number member its text (or, for the sizes and dimensions, the integer
/// it writes), and an absent or null member nothing.
pub proof fn law_format_fields_by_name(v: JsonValue, f: FormatEntry)
    requires
        format_problem(v) is None,
        format_matches(f, members(v)),
    ensures
        member(members(v), "format_id"@) is None ==> f.format_id is None,
        member(members(v), "format_id"@) == Some(JsonValue::Null) ==> f.format_id is None,
        member(members(v), "format_id"@) matches Some(JsonValue::Text(t)) ==> f.format_id is Some && f.format_id->Some_0@ == t@,
        member(members(v), "format_note"@) is None ==> f.format_note is None,
        member(members(v), "format_note"@) == Some(JsonValue::Null) ==> f.format_note is None,
        member(members(v), "format_note"@) matches Some(JsonValue::Text(t)) ==> f.format_note is Some && f.format_note->Some_0@ == t@,
        member(members(v), "ext"@) is None ==> f.extension is None,
        member(members(v), "ext"@) == Some(JsonValue::Null) ==> f.extension is None,
        member(members(v), "ext"@) matches Some(JsonValue::Text(t)) ==> f.extension is Some && f.extension->Some_0@ == t@,
        member(members(v), "resolution"@) is None ==> f.resolution is None,
        member(members(v), "resolution"@) == Some(JsonValue::Null) ==> f.resolution is None,
        member(members(v), "resolution"@) matches Some(JsonValue::Text(t)) ==> f.resolution is Some && f.resolution->Some_0@ == t@,
        member(members(v), "width"@) is None ==> f.width is None,
        member(members(v), "width"@) == Some(JsonValue::Null) ==> f.width is None,
        member(members(v), "width"@) matches Some(JsonValue::Number(t)) ==> f.width == u64_text(t@) && f.width is Some,
        member(members(v), "height"@) is None ==> f.height is None,
        member(members(v), "height"@) == Some(JsonValue::Null) ==> f.height is None,
        member(members(v), "height"@) matches Some(JsonValue::Number(t)) ==> f.height == u64_text(t@) && f.height is Some,
        member(members(v), "fps"@) is None ==> f.fps is None,
        member(members(v), "fps"@) == Some(JsonValue::Null) ==> f.fps is None,
        member(members(v), "fps"@) matches Some(JsonValue::Number(t)) ==> f.fps is Some && f.fps->Some_0@ == t@,
        member(members(v), "filesize"@) is None ==> f.filesize is None,
        member(members(v), "filesize"@) == Some(JsonValue::Null) ==> f.filesize is None,
        member(members(v), "filesize"@) matches Some(JsonValue::Number(t)) ==> f.filesize == u64_text(t@) && f.filesize is Some,
        member(members(v), "filesize_approx"@) is None ==> f.filesize_approx is None,
        member(members(v), "filesize_approx"@) == Some(JsonValue::Null) ==> f.filesize_approx is None,
        member(members(v), "filesize_approx"@) matches Some(JsonValue::Number(t)) ==> f.filesize_approx == u64_text(t@) && f.filesize_approx is Some,
        member(members(v), "tbr"@) is None ==> f.bitrate is None,
        member(members(v), "tbr"@) == Some(JsonValue::Null) ==> f.bitrate is None,
        member(members(v), "tbr"@) matches Some(JsonValue::Number(t)) ==> f.bitrate is Some && f.bitrate->Some_0@ == t@,
        member(members(v), "vcodec"@) is None ==> f.video_codec is None,
        member(members(v), "vcodec"@) == Some(JsonValue::Null) ==> f.video_codec is None,
        member(members(v), "vcodec"@) matches Some(JsonValue::Text(t)) ==> f.video_codec is Some && f.video_codec->Some_0@ == t@,
        member(members(v), "acodec"@) is None ==> f.audio_codec is None,
        member(members(v), "acodec"@) == Some(JsonValue::Null) ==> f.audio_codec is None,
        member(members(v), "acodec"@) matches Some(JsonValue::Text(t)) ==> f.audio_codec is Some && f.audio_codec->Some_0@ == t@,
        member(members(v), "abr"@) is None ==> f.audio_bitrate is None,
        member(members(v), "abr"@) == Some(JsonValue::Null) ==> f.audio_bitrate is None,
        member(members(v), "abr"@) matches Some(JsonValue::Number(t)) ==> f.audio_bitrate is Some && f.audio_bitrate->Some_0@ == t@,
        member(members(v), "vbr"@) is None ==> f.video_bitrate is None,
        member(members(v), "vbr"@) == Some(JsonValue::Null) ==> f.video_bitrate is None,
        member(members(v), "vbr"@) matches Some(JsonValue::Number(t)) ==> f.video_bitrate is Some && f.video_bitrate->Some_0@ == t@,
        member(members(v), "protocol"@) is None ==> f.protocol is None,
        member(members(v), "protocol"@) == Some(JsonValue::Null) ==> f.protocol is None,
        member(members(v), "protocol"@) matches Some(JsonValue::Text(t)) ==> f.protocol is Some && f.protocol->Some_0@ == t@,
        member(members(v), "url"@) is None ==> f.url is None,
        member(members(v), "url"@) == Some(JsonValue::Null) ==> f.url is None,
        member(members(v), "url"@) matches Some(JsonValue::Text(t)) ==> f.url is Some && f.url->Some_0@ == t@,
{
}

/// Law: each field of the video facts is the member of the metadata object with
/// that field's JSON name (`thumbnail` for the thumbnail address): `id` and
/// `title` are the texts of those members, the others a string member's text,
/// `duration` a number member's text, and an absent or null member nothing; the
/// formats are the entries of the `formats` array, one for each, in order.
pub proof fn law_video_fields_by_name(v: JsonValue, f: VideoFacts)
    requires
        video_problem(v) is None,
        video_matches(f, members(v)),
    ensures
        member(members(v), "id"@) matches Some(JsonValue::Text(t)) && f.id@ == t@,
        member(members(v), "title"@) matches Some(JsonValue::Text(t)) && f.title@ == t@,
        member(members(v), "webpage_url"@) is None ==> f.webpage_url is None,
        member(members(v), "webpage_url"@) == Some(JsonValue::Null) ==> f.webpage_url is None,
        member(members(v), "webpage_url"@) matches Some(JsonValue::Text(t)) ==> f.webpage_url is Some && f.webpage_url->Some_0@ == t@,
        member(members(v), "original_url"@) is None ==> f.original_url is None,
        member(members(v), "original_url"@) == Some(JsonValue::Null) ==> f.original_url is None,
        member(members(v), "original_url"@) matches Some(JsonValue::Text(t)) ==> f.original_url is Some && f.original_url->Some_0@ == t@,
        member(members(v), "uploader"@) is None ==> f.uploader is None,
        member(members(v), "uploader"@) == Some(JsonValue::Null) ==> f.uploader is None,
        member(members(v), "uploader"@) matches Some(JsonValue::Text(t)) ==> f.uploader is Some && f.uploader->Some_0@ == t@,
        member(members(v), "channel"@) is None ==> f.channel is None,
        member(members(v), "channel"@) == Some(JsonValue::Null) ==> f.channel is None,
        member(members(v), "channel"@) matches Some(JsonValue::Text(t)) ==> f.channel is Some && f.channel->Some_0@ == t@,
        member(members(v), "duration"@) is None ==> f.duration is None,
        member(members(v), "duration"@) == Some(JsonValue::Null) ==> f.duration is None,
        member(members(v), "duration"@) matches Some(JsonValue::Number(t)) ==> f.duration is Some && f.duration->Some_0@ == t@,
        member(members(v), "thumbnail"@) is None ==> f.thumbnail_url is None,
        member(members(v), "thumbnail"@) == Some(JsonValue::Null) ==> f.thumbnail_url is None,
        member(members(v), "thumbnail"@) matches Some(JsonValue::Text(t)) ==> f.thumbnail_url is Some && f.thumbnail_url->Some_0@ == t@,
        member(members(v), "description"@) is None ==> f.description is None,
        member(members(v), "description"@) == Some(JsonValue::Null) ==> f.description is None,
        member(members(v), "description"@) matches Some(JsonValue::Text(t)) ==> f.description is Some && f.description->Some_0@ == t@,
        member(members(v), "upload_date"@) is None ==> f.upload_date is None,
        member(members(v), "upload_date"@) == Some(JsonValue::Null) ==> f.upload_date is None,
        member(members(v), "upload_date"@) matches Some(JsonValue::Text(t)) ==> f.upload_date is Some && f.upload_date->Some_0@ == t@,
        member(members(v), "formats"@) is None ==> f.formats@.len() == 0,
        member(members(v), "formats"@) matches Some(JsonValue::Array(items)) ==> f.formats@.len() == items@.len()
            && forall|i: int| 0 <= i < items@.len() ==> format_matches(#[trigger] f.formats@[i], members(items@[i])),
{
}

/// The position of the first member named `name`.
fn find_member(fields: &Vec<(String, JsonValue)>, name: &str) -> (r: Option<usize>)
    ensures
        match r {
            Some(i) => i < fields@.len() && member(fields@, name@) == Some(fields@[i as int].1),
            None => member(fields@, name@) is None,
        },
{
    let mut i: usize = 0;
    assert(fields@.subrange(0, fields@.len() as int) =~= fields@);
    while i < fields.len()
        invariant
            i <= fields@.len(),
            member(fields@.subrange(i as int, fields@.len() as int), name@) == member(fields@, name@),
        decreases fields@.len() - i,
    {
        let ghost rest = fields@.subrange(i as int, fields@.len() as int);
        if str_eq(fields[i].0.as_str(), name) {
            assert(rest[0] == fields@[i as int]);
            return Some(i);
        }
        assert(rest.drop_first() =~= fields@.subrange(i + 1, fields@.len() as int));
        i = i + 1;
    }
    assert(fields@.subrange(i as int, fields@.len() as int) =~= Seq::<(String, JsonValue)>::empty());
    None
}

/// A required text field.
fn required_text(fields: &Vec<(String, JsonValue)>, name: &'static str) -> (r: Result<String, DownloadTaskError>)
    ensures
        match required_text_problem(fields@, name) {
            Some(p) => r matches Err(e) && reports(e, p),
            None => r matches Ok(t) && Some(t@) == text_of(fields@, name@),
        },
{
    match find_member(fields, name) {
        None => Err(DownloadTaskError::MissingField(name)),
        Some(i) => match &fields[i].1 {
            JsonValue::Text(t) => if t.as_str().unicode_len() > 0 {
                Ok(string_of(t.as_str()))
            } else {
                Err(invalid_field(name, "必须是非空字符串"))
            },
            _ => Err(invalid_field(name, "必须是非空字符串")),
        },
    }
}

/// An optional text field.
fn optional_text(fields: &Vec<(String, JsonValue)>, name: &'static str) -> (r: Result<
    Option<String>,
    DownloadTaskError,
>)
    ensures
        match text_problem(fields@, name) {
            Some(p) => r matches Err(e) && reports(e, p),
            None => r matches Ok(o) && opt_text(o) == text_of(fields@, name@),
        },
{
    match find_member(fields, name) {
        None => Ok(None),
        Some(i) => match &fields[i].1 {
            JsonValue::Null => Ok(None),
            JsonValue::Text(t) => Ok(Some(string_of(t.as_str()))),
            _ => Err(invalid_field(name, "必须是字符串或 null")),
        },
    }
}

/// An optional number field, as its text.
fn optional_number(fields: &Vec<(String, JsonValue)>, name: &'static str) -> (r: Result<
    Option<String>,
    DownloadTaskError,
>)
    ensures
        match number_problem(fields@, name) {
            Some(p) => r matches Err(e) && reports(e, p),
            None => r matches Ok(o) && opt_text(o) == number_of(fields@, name@),
        },
{
    match find_member(fields, name) {
        None => Ok(None),
        Some(i) => match &fields[i].1 {
            JsonValue::Null => Ok(None),
            JsonValue::Number(t) => Ok(Some(string_of(t.as_str()))),
            _ => Err(invalid_field(name, "必须是数字或 null")),
        },
    }
}

/// An optional non-negative integer field.
fn optional_integer(fields: &Vec<(String, JsonValue)>, name: &'static str) -> (r: Result<
    Option<u64>,
    DownloadTaskError,
>)
    ensures
        match integer_problem(fields@, name) {
            Some(p) => r matches Err(e) && reports(e, p),
            None => r matches Ok(o) && o == integer_of(fields@, name@),
        },
{
    match find_member(fields, name) {
        None => Ok(None),
        Some(i) => match &fields[i].1 {
            JsonValue::Null => Ok(None),
            JsonValue::Number(t) => {
                let cs = chars_of(t.as_str());
                match parse_u64_chars(cs.as_slice()) {
                    Some(n) => Ok(Some(n)),
                    None => Err(invalid_field(name, "必须是非负整数或 null")),
                }
            },
            _ => Err(invalid_field(name, "必须是非负整数或 null")),
        },
    }
}

/// One format entry: an object whose fields are checked in order.
pub fn format_entry(v: &JsonValue) -> (r: Result<FormatEntry, DownloadTaskError>)
    ensures
        match format_problem(*v) {
            Some(p) => r matches Err(e) && reports(e, p),
            None => r matches Ok(f) && format_matches(f, members(*v)),
        },
{
    let fields = match v {
        JsonValue::Object(fields) => fields,
        _ => {
            return Err(invalid_field("formats", "数组元素必须是对象"));
        },
    };
    let format_id = match optional_text(fields, "format_id") { Ok(x) => x, Err(e) => { return Err(e); } };
    let format_note = match optional_text(fields, "format_note") { Ok(x) => x, Err(e) => { return Err(e); } };
    let extension = match optional_text(fields, "ext") { Ok(x) => x, Err(e) => { return Err(e); } };
    let resolution = match optional_text(fields, "resolution") { Ok(x) => x, Err(e) => { return Err(e); } };
    let width = match optional_integer(fields, "width") { Ok(x) => x, Err(e) => { return Err(e); } };
    let height = match optional_integer(fields, "height") { Ok(x) => x, Err(e) => { return Err(e); } };
    let fps = match optional_number(fields, "fps") { Ok(x) => x, Err(e) => { return Err(e); } };
    let filesize = match optional_integer(fields, "filesize") { Ok(x) => x, Err(e) => { return Err(e); } };
    let filesize_approx = match optional_integer(fields, "filesize_approx") { Ok(x) => x, Err(e) => { return Err(e); } };
    let bitrate = match optional_number(fields, "tbr") { Ok(x) => x, Err(e) => { return Err(e); } };
    let video_codec = match optional_text(fields, "vcodec") { Ok(x) => x, Err(e) => { return Err(e); } };
    let audio_codec = match optional_text(fields, "acodec") { Ok(x) => x, Err(e) => { return Err(e); } };
    let audio_bitrate = match optional_number(fields, "abr") { Ok(x) => x, Err(e) => { return Err(e); } };
    let video_bitrate = match optional_number(fields, "vbr") { Ok(x) => x, Err(e) => { return Err(e); } };
    let protocol = match optional_text(fields, "protocol") { Ok(x) => x, Err(e) => { return Err(e); } };
    let url = match optional_text(fields, "url") { Ok(x) => x, Err(e) => { return Err(e); } };
    Ok(
        FormatEntry {
            format_id,
            format_note,
            extension,
            resolution,
            width,
            height,
            fps,
            filesize,
            filesize_approx,
            bitrate,
            video_codec,
            audio_codec,
            audio_bitrate,
            video_bitrate,
            protocol,
            url,
        },
    )
}

/// The format entries of an array, in order; the first refused entry refuses
/// them all.
fn format_entries(items: &Vec<JsonValue>) -> (r: Result<Vec<FormatEntry>, DownloadTaskError>)
    ensures
        match formats_problem(items@) {
            Some(p) => r matches Err(e) && reports(e, p),
            None => r matches Ok(list) && list@.len() == items@.len() && forall|j: int|
                0 <= j < list@.len() ==> format_matches(#[trigger] list@[j], members(items@[j])),
        },
{
    let mut list: Vec<FormatEntry> = Vec::new();
    let mut i: usize = 0;
    assert(items@.subrange(0, items@.len() as int) =~= items@);
    while i < items.len()
        invariant
            i <= items@.len(),
            formats_problem(items@.subrange(i as int, items@.len() as int)) == formats_problem(items@),
            list@.len() == i,
            forall|j: int| 0 <= j < i ==> format_matches(#[trigger] list@[j], members(items@[j])),
        decreases items@.len() - i,
    {
        let ghost rest = items@.subrange(i as int, items@.len() as int);
        assert(rest[0] == items@[i as int]);
        assert(rest.drop_first() =~= items@.subrange(i + 1, items@.len() as int));
        match format_entry(&items[i]) {
            Ok(entry) => {
                list.push(entry);
            },
            Err(e) => {
                return Err(e);
            },
        }
        i = i + 1;
    }
    assert(items@.subrange(i as int, items@.len() as int) =~= Seq::<JsonValue>::empty());
    Ok(list)
}

/// The facts of video metadata: the top level must be an object; `id` and
/// `title` are required non-empty strings; the other texts are optional
/// strings, `duration` an optional number, and `formats` an optional array of
/// format objects (absent, it is an empty list). The first field refused, in
/// that order, is the error.
pub fn video_facts_from_json(v: &JsonValue) -> (r: Result<VideoFacts, DownloadTaskError>)
    ensures
        facts_outcome(*v, r),
{
    let fields = match v {
        JsonValue::Object(fields) => fields,
        _ => {
            return Err(DownloadTaskError::InvalidJson(string_of(NOT_AN_OBJECT)));
        },
    };
    let id = match required_text(fields, "id") { Ok(x) => x, Err(e) => { return Err(e); } };
    let title = match required_text(fields, "title") { Ok(x) => x, Err(e) => { return Err(e); } };
    let webpage_url = match optional_text(fields, "webpage_url") { Ok(x) => x, Err(e) => { return Err(e); } };
    let original_url = match optional_text(fields, "original_url") { Ok(x) => x, Err(e) => { return Err(e); } };
    let uploader = match optional_text(fields, "uploader") { Ok(x) => x, Err(e) => { return Err(e); } };
    let channel = match optional_text(fields, "channel") { Ok(x) => x, Err(e) => { return Err(e); } };
    let duration = match optional_number(fields, "duration") { Ok(x) => x, Err(e) => { return Err(e); } };
    let thumbnail_url = match optional_text(fields, "thumbnail") { Ok(x) => x, Err(e) => { return Err(e); } };
    let description = match optional_text(fields, "description") { Ok(x) => x, Err(e) => { return Err(e); } };
    let upload_date = match optional_text(fields, "upload_date") { Ok(x) => x, Err(e) => { return Err(e); } };
    let formats = match find_member(fields, "formats") {
        None => Vec::new(),
        Some(i) => match &fields[i].1 {
            JsonValue::Array(items) => match format_entries(items) {
                Ok(list) => list,
                Err(e) => {
                    return Err(e);
                },
            },
            _ => {
                return Err(invalid_field("formats", "必须是数组"));
            },
        },
    };
    Ok(
        VideoFacts {
            id,
            title,
            webpage_url,
            original_url,
            uploader,
            channel,
            duration,
            thumbnail_url,
            description,
            upload_date,
            formats,
        },
    )
}

/// Reads the metadata `yt-dlp` prints: text that is not JSON is refused with
/// `serde_json`'s message; otherwise the facts of the JSON value (see
/// [`video_facts_from_json`]).
pub fn parse_video_info(output: &[u8]) -> (r: Result<VideoFacts, DownloadTaskError>)
    ensures
        match parsed_json(output@) {
            Err(m) => r matches Err(DownloadTaskError::InvalidJson(x)) && x@ == m,
            Ok(v) => facts_outcome(v, r),
        },
{
    match parse_json(output) {
        Ok(value) => video_facts_from_json(&value),
        Err(message) => Err(DownloadTaskError::InvalidJson(message)),
    }
}

} // verus!
