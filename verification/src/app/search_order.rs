//! How the search result table orders the formats of a video.
//!
//! A column compares one field of two formats. A format that lacks the field
//! goes last in either direction; the others are ordered by the field, reversed
//! when descending. Ties keep the formats in the order yt-dlp listed them.
use crate::app::search::{
    cell_number, cell_text, compare_text, compare_text_or_number, order_u64, SearchResultRow, SortColumn,
    SortDirection,
};
use crate::app::task_order::{
    consistent, flip, lemma_consistent_combinators, lemma_int_consistent, lemma_lex_consistent, lex_order,
    order_int, row_at, then, TaskSortDirection,
};
use crate::app::tasks::{identity_indices, identity_rows, listed, pos};
use crate::download_task::parser::u64_text;
use crate::text::{ascii_lower_seq, string_of};
use std::cmp::Ordering;
use vstd::prelude::*;

verus! {

/// What the search table sorts a format by. The bitrate, a float in the
/// metadata, stands here as its rank among the finite bitrates of the video
/// (equal bitrates share a rank); a missing or non-finite bitrate has none.
#[derive(Debug, Clone)]
pub struct SortableFormat {
    pub format_id: Option<String>,
    pub format_note: Option<String>,
    pub extension: Option<String>,
    pub resolution: Option<String>,
    pub width: Option<u64>,
    pub height: Option<u64>,
    pub bitrate_rank: Option<u64>,
    pub filesize: Option<u64>,
    pub filesize_approx: Option<u64>,
    pub video_codec: Option<String>,
    pub audio_codec: Option<String>,
}

/// The text of an optional field; a missing field is empty.
pub open spec fn field_text(v: Option<String>) -> Seq<char> {
    match v {
        Some(s) => s@,
        None => Seq::<char>::empty(),
    }
}

/// Two fields compared as text, ignoring ASCII case.
pub open spec fn text_order(a: Option<String>, b: Option<String>) -> Ordering {
    lex_order(ascii_lower_seq(field_text(a)), ascii_lower_seq(field_text(b)))
}

/// The number a field holds, when it is written as a `u64`.
pub open spec fn field_number(v: Option<String>) -> Option<u64> {
    match v {
        Some(s) => u64_text(s@),
        None => None,
    }
}

/// Two format ids compared as numbers when both are numbers, else as text.
pub open spec fn id_order(a: Option<String>, b: Option<String>) -> Ordering {
    match (field_number(a), field_number(b)) {
        (Some(x), Some(y)) => order_u64(x, y),
        _ => text_order(a, b),
    }
}

/// Two optional numbers as `Option`'s order has them: `None` first.
pub open spec fn opt_u64_order(a: Option<u64>, b: Option<u64>) -> Ordering {
    match (a, b) {
        (None, None) => Ordering::Equal,
        (None, Some(_)) => Ordering::Less,
        (Some(_), None) => Ordering::Greater,
        (Some(x), Some(y)) => order_u64(x, y),
    }
}

/// The file size of a format: the exact one, else the estimate.
pub open spec fn size_of(f: SortableFormat) -> Option<u64> {
    match f.filesize {
        Some(s) => Some(s),
        None => f.filesize_approx,
    }
}

/// Whether a format lacks what the column shows.
pub open spec fn missing(f: SortableFormat, c: SortColumn) -> bool {
    match c {
        SortColumn::FormatId => f.format_id is None,
        SortColumn::FormatNote => f.format_note is None,
        SortColumn::Extension => f.extension is None,
        SortColumn::Resolution => f.height is None && f.width is None && f.resolution is None,
        SortColumn::Bitrate => f.bitrate_rank is None,
        SortColumn::FileSize => size_of(f) is None,
        SortColumn::VideoCodec => f.video_codec is None,
        SortColumn::AudioCodec => f.audio_codec is None,
    }
}

/// How the column orders two formats that both have its field.
pub open spec fn present_order(l: SortableFormat, r: SortableFormat, c: SortColumn) -> Ordering {
    match c {
        SortColumn::FormatId => id_order(l.format_id, r.format_id),
        SortColumn::FormatNote => text_order(l.format_note, r.format_note),
        SortColumn::Extension => text_order(l.extension, r.extension),
        SortColumn::Resolution => then(
            opt_u64_order(l.height, r.height),
            then(opt_u64_order(l.width, r.width), text_order(l.resolution, r.resolution)),
        ),
        SortColumn::Bitrate => opt_u64_order(l.bitrate_rank, r.bitrate_rank),
        SortColumn::FileSize => opt_u64_order(size_of(l), size_of(r)),
        SortColumn::VideoCodec => text_order(l.video_codec, r.video_codec),
        SortColumn::AudioCodec => text_order(l.audio_codec, r.audio_codec),
    }
}

/// Missing values last, both missing equal, present ones by `inner`.
pub open spec fn missing_last(ma: bool, mb: bool, inner: Ordering) -> Ordering {
    if ma && mb {
        Ordering::Equal
    } else if ma {
        Ordering::Greater
    } else if mb {
        Ordering::Less
    } else {
        inner
    }
}

/// How the column orders two formats, ascending.
pub open spec fn value_order(l: SortableFormat, r: SortableFormat, c: SortColumn) -> Ordering {
    missing_last(missing(l, c), missing(r, c), present_order(l, r, c))
}

/// A descending sort reverses the order; the others keep it.
pub open spec fn directed_by(d: SortDirection, o: Ordering) -> Ordering {
    if d == SortDirection::Descending {
        flip(o)
    } else {
        o
    }
}

/// How the column orders two formats in the direction: present values directed,
/// missing ones last either way.
pub open spec fn sort_value_order(l: SortableFormat, r: SortableFormat, c: SortColumn, d: SortDirection) -> Ordering {
    missing_last(missing(l, c), missing(r, c), directed_by(d, present_order(l, r, c)))
}

/// How the formats at positions `i` and `j` compare: by the column in the
/// direction, then by position.
pub open spec fn result_order(keys: Seq<SortableFormat>, i: int, j: int, c: SortColumn, d: SortDirection) -> Ordering {
    then(sort_value_order(keys[i], keys[j], c, d), order_int(i, j))
}

/// Every present format id reads as a number, or none does.
pub open spec fn uniform_ids(keys: Seq<SortableFormat>) -> bool {
    ||| forall|i: int| 0 <= i < keys.len() && #[trigger] keys[i].format_id is Some ==> field_number(keys[i].format_id) is Some
    ||| forall|i: int| 0 <= i < keys.len() ==> field_number(#[trigger] keys[i].format_id) is None
}

/// The column orders `keys` totally: every column but the format id does, and
/// the format id does when its values are all numbers or all text.
pub open spec fn column_is_total(keys: Seq<SortableFormat>, c: SortColumn) -> bool {
    c != SortColumn::FormatId || uniform_ids(keys)
}

proof fn lemma_u64_consistent(a: u64, b: u64, e: u64)
    ensures
        consistent(order_u64(a, b), order_u64(b, a), order_u64(b, e), order_u64(e, b), order_u64(a, e), order_u64(e, a)),
{
}

proof fn lemma_opt_u64_consistent(a: Option<u64>, b: Option<u64>, e: Option<u64>)
    ensures
        consistent(
            opt_u64_order(a, b),
            opt_u64_order(b, a),
            opt_u64_order(b, e),
            opt_u64_order(e, b),
            opt_u64_order(a, e),
            opt_u64_order(e, a),
        ),
{
}

proof fn lemma_text_consistent(a: Option<String>, b: Option<String>, e: Option<String>)
    ensures
        consistent(text_order(a, b), text_order(b, a), text_order(b, e), text_order(e, b), text_order(a, e), text_order(e, a)),
{
    lemma_lex_consistent(ascii_lower_seq(field_text(a)), ascii_lower_seq(field_text(b)), ascii_lower_seq(field_text(e)));
}

/// Two format ids compare oppositely in the two directions.
proof fn lemma_id_antisymmetric(a: Option<String>, b: Option<String>)
    ensures
        id_order(a, b) == flip(id_order(b, a)),
{
    lemma_text_consistent(a, b, b);
}

/// The format ids of three formats that are all numbers, or all text, compare
/// as a total order.
proof fn lemma_id_consistent(a: Option<String>, b: Option<String>, e: Option<String>)
    requires
        (field_number(a) is Some && field_number(b) is Some && field_number(e) is Some) || (field_number(a) is None
            && field_number(b) is None && field_number(e) is None),
    ensures
        consistent(id_order(a, b), id_order(b, a), id_order(b, e), id_order(e, b), id_order(a, e), id_order(e, a)),
{
    if field_number(a) is Some {
        lemma_u64_consistent(field_number(a)->Some_0, field_number(b)->Some_0, field_number(e)->Some_0);
    } else {
        lemma_text_consistent(a, b, e);
    }
}

/// Present values of a column compare oppositely in the two directions.
proof fn lemma_present_antisymmetric(x: SortableFormat, y: SortableFormat, c: SortColumn)
    ensures
        present_order(x, y, c) == flip(present_order(y, x, c)),
{
    match c {
        SortColumn::FormatId => lemma_id_antisymmetric(x.format_id, y.format_id),
        _ => lemma_present_consistent(x, y, y, c),
    }
}

/// Resolutions compare by height, then width, then text, as a total order.
#[verifier::rlimit(40)]
proof fn lemma_resolution_consistent(x: SortableFormat, y: SortableFormat, z: SortableFormat)
    ensures
        consistent(
            present_order(x, y, SortColumn::Resolution),
            present_order(y, x, SortColumn::Resolution),
            present_order(y, z, SortColumn::Resolution),
            present_order(z, y, SortColumn::Resolution),
            present_order(x, z, SortColumn::Resolution),
            present_order(z, x, SortColumn::Resolution),
        ),
{
        let d = TaskSortDirection::Ascending;
        lemma_opt_u64_consistent(x.height, y.height, z.height);
        lemma_opt_u64_consistent(x.width, y.width, z.width);
        lemma_text_consistent(x.resolution, y.resolution, z.resolution);
        lemma_consistent_combinators(
            d,
            opt_u64_order(x.width, y.width),
            opt_u64_order(y.width, x.width),
            opt_u64_order(y.width, z.width),
            opt_u64_order(z.width, y.width),
            opt_u64_order(x.width, z.width),
            opt_u64_order(z.width, x.width),
            text_order(x.resolution, y.resolution),
            text_order(y.resolution, x.resolution),
            text_order(y.resolution, z.resolution),
            text_order(z.resolution, y.resolution),
            text_order(x.resolution, z.resolution),
            text_order(z.resolution, x.resolution),
        );
        lemma_consistent_combinators(
            d,
            opt_u64_order(x.height, y.height),
            opt_u64_order(y.height, x.height),
            opt_u64_order(y.height, z.height),
            opt_u64_order(z.height, y.height),
            opt_u64_order(x.height, z.height),
            opt_u64_order(z.height, x.height),
            then(opt_u64_order(x.width, y.width), text_order(x.resolution, y.resolution)),
            then(opt_u64_order(y.width, x.width), text_order(y.resolution, x.resolution)),
            then(opt_u64_order(y.width, z.width), text_order(y.resolution, z.resolution)),
            then(opt_u64_order(z.width, y.width), text_order(z.resolution, y.resolution)),
            then(opt_u64_order(x.width, z.width), text_order(x.resolution, z.resolution)),
            then(opt_u64_order(z.width, x.width), text_order(z.resolution, x.resolution)),
        );
}

/// Present values of a column other than the format id compare as a total order.
proof fn lemma_present_consistent(x: SortableFormat, y: SortableFormat, z: SortableFormat, c: SortColumn)
    requires
        c != SortColumn::FormatId,
    ensures
        consistent(
            present_order(x, y, c),
            present_order(y, x, c),
            present_order(y, z, c),
            present_order(z, y, c),
            present_order(x, z, c),
            present_order(z, x, c),
        ),
{
    match c {
        SortColumn::FormatId => {},
        SortColumn::FormatNote => lemma_text_consistent(x.format_note, y.format_note, z.format_note),
        SortColumn::Extension => lemma_text_consistent(x.extension, y.extension, z.extension),
        SortColumn::VideoCodec => lemma_text_consistent(x.video_codec, y.video_codec, z.video_codec),
        SortColumn::AudioCodec => lemma_text_consistent(x.audio_codec, y.audio_codec, z.audio_codec),
        SortColumn::Bitrate => lemma_opt_u64_consistent(x.bitrate_rank, y.bitrate_rank, z.bitrate_rank),
        SortColumn::FileSize => lemma_opt_u64_consistent(size_of(x), size_of(y), size_of(z)),
        SortColumn::Resolution => lemma_resolution_consistent(x, y, z),
    }
}

/// Putting missing values last keeps an order consistent.
proof fn lemma_missing_last_consistent(
    ma: bool,
    mb: bool,
    mc: bool,
    ab: Ordering,
    ba: Ordering,
    bc: Ordering,
    cb: Ordering,
    ac: Ordering,
    ca: Ordering,
)
    requires
        !ma && !mb ==> ab == flip(ba),
        !mb && !mc ==> bc == flip(cb),
        !ma && !mc ==> ac == flip(ca),
        !ma && !mb && !mc ==> consistent(ab, ba, bc, cb, ac, ca),
    ensures
        consistent(
            missing_last(ma, mb, ab),
            missing_last(mb, ma, ba),
            missing_last(mb, mc, bc),
            missing_last(mc, mb, cb),
            missing_last(ma, mc, ac),
            missing_last(mc, ma, ca),
        ),
{
}

/// The properties of a strict order that sorting relies on, for one triple of
/// positions: the order is antisymmetric and only a position equals itself;
/// where the column is total, it is also transitive.
pub proof fn lemma_result_order_properties(
    keys: Seq<SortableFormat>,
    i: int,
    j: int,
    k: int,
    c: SortColumn,
    d: SortDirection,
)
    requires
        0 <= i < keys.len(),
        0 <= j < keys.len(),
        0 <= k < keys.len(),
    ensures
        result_order(keys, i, j, c, d) == flip(result_order(keys, j, i, c, d)),
        result_order(keys, i, j, c, d) == Ordering::Equal ==> i == j,
        column_is_total(keys, c) ==> (result_order(keys, i, j, c, d) == Ordering::Less && result_order(
            keys,
            j,
            k,
            c,
            d,
        ) == Ordering::Less ==> result_order(keys, i, k, c, d) == Ordering::Less),
{
    let (x, y, z) = (keys[i], keys[j], keys[k]);
    let td = if d == SortDirection::Descending {
        TaskSortDirection::Descending
    } else {
        TaskSortDirection::Ascending
    };
    lemma_present_antisymmetric(x, y, c);
    lemma_present_antisymmetric(y, z, c);
    lemma_present_antisymmetric(x, z, c);
    let total = column_is_total(keys, c);
    if total {
        if c == SortColumn::FormatId {
            let all_numbers = forall|m: int|
                0 <= m < keys.len() && #[trigger] keys[m].format_id is Some ==> field_number(keys[m].format_id)
                    is Some;
            if !missing(x, c) && !missing(y, c) && !missing(z, c) {
                if all_numbers {
                    assert(keys[i].format_id is Some && keys[j].format_id is Some && keys[k].format_id is Some);
                } else {
                    assert(field_number(keys[i].format_id) is None);
                    assert(field_number(keys[j].format_id) is None);
                    assert(field_number(keys[k].format_id) is None);
                }
                lemma_id_consistent(x.format_id, y.format_id, z.format_id);
            }
        } else {
            lemma_present_consistent(x, y, z, c);
        }
    }
    lemma_int_consistent(i, j, k);
    if total {
        if !missing(x, c) && !missing(y, c) && !missing(z, c) {
            let o = Ordering::Equal;
            lemma_consistent_combinators(
                td,
                present_order(x, y, c),
                present_order(y, x, c),
                present_order(y, z, c),
                present_order(z, y, c),
                present_order(x, z, c),
                present_order(z, x, c),
                o,
                o,
                o,
                o,
                o,
                o,
            );
        }
        lemma_missing_last_consistent(
            missing(x, c),
            missing(y, c),
            missing(z, c),
            directed_by(d, present_order(x, y, c)),
            directed_by(d, present_order(y, x, c)),
            directed_by(d, present_order(y, z, c)),
            directed_by(d, present_order(z, y, c)),
            directed_by(d, present_order(x, z, c)),
            directed_by(d, present_order(z, x, c)),
        );
        lemma_consistent_combinators(
            td,
            sort_value_order(x, y, c, d),
            sort_value_order(y, x, c, d),
            sort_value_order(y, z, c, d),
            sort_value_order(z, y, c, d),
            sort_value_order(x, z, c, d),
            sort_value_order(z, x, c, d),
            order_int(i, j),
            order_int(j, i),
            order_int(j, k),
            order_int(k, j),
            order_int(i, k),
            order_int(k, i),
        );
    }
}

/// The field as an optional string slice.
fn field_str(v: &Option<String>) -> (r: Option<&str>)
    ensures
        cell_text(r) == field_text(*v),
        cell_number(r) == field_number(*v),
{
    match v {
        Some(s) => Some(s.as_str()),
        None => None,
    }
}

/// `Option`'s order on two optional numbers.
fn compare_opt_u64(a: Option<u64>, b: Option<u64>) -> (r: Ordering)
    ensures
        r == opt_u64_order(a, b),
{
    match (a, b) {
        (None, None) => Ordering::Equal,
        (None, Some(_)) => Ordering::Less,
        (Some(_), None) => Ordering::Greater,
        (Some(x), Some(y)) => if x < y {
            Ordering::Less
        } else if x == y {
            Ordering::Equal
        } else {
            Ordering::Greater
        },
    }
}

fn size_value(f: &SortableFormat) -> (r: Option<u64>)
    ensures
        r == size_of(*f),
{
    match f.filesize {
        Some(s) => Some(s),
        None => f.filesize_approx,
    }
}

/// Whether the format lacks what the column shows.
pub fn is_missing(f: &SortableFormat, c: SortColumn) -> (r: bool)
    ensures
        r == missing(*f, c),
{
    match c {
        SortColumn::FormatId => f.format_id.is_none(),
        SortColumn::FormatNote => f.format_note.is_none(),
        SortColumn::Extension => f.extension.is_none(),
        SortColumn::Resolution => f.height.is_none() && f.width.is_none() && f.resolution.is_none(),
        SortColumn::Bitrate => f.bitrate_rank.is_none(),
        SortColumn::FileSize => size_value(f).is_none(),
        SortColumn::VideoCodec => f.video_codec.is_none(),
        SortColumn::AudioCodec => f.audio_codec.is_none(),
    }
}

fn compare_text_fields(a: &Option<String>, b: &Option<String>) -> (r: Ordering)
    ensures
        r == text_order(*a, *b),
{
    compare_text(field_str(a), field_str(b))
}

fn then_order(first: Ordering, second: Ordering) -> (r: Ordering)
    ensures
        r == then(first, second),
{
    match first {
        Ordering::Equal => second,
        _ => first,
    }
}

/// Compares two formats by the column, ascending, with missing values last.
pub fn compare_formats(left: &SortableFormat, right: &SortableFormat, column: SortColumn) -> (r: Ordering)
    ensures
        r == value_order(*left, *right, column),
{
    let left_missing = is_missing(left, column);
    let right_missing = is_missing(right, column);
    if left_missing && right_missing {
        return Ordering::Equal;
    }
    if left_missing {
        return Ordering::Greater;
    }
    if right_missing {
        return Ordering::Less;
    }
    match column {
        SortColumn::FormatId => compare_text_or_number(field_str(&left.format_id), field_str(&right.format_id)),
        SortColumn::FormatNote => compare_text_fields(&left.format_note, &right.format_note),
        SortColumn::Extension => compare_text_fields(&left.extension, &right.extension),
        SortColumn::Resolution => {
            let by_height = compare_opt_u64(left.height, right.height);
            let by_width = compare_opt_u64(left.width, right.width);
            let by_text = compare_text_fields(&left.resolution, &right.resolution);
            then_order(by_height, then_order(by_width, by_text))
        },
        SortColumn::Bitrate => compare_opt_u64(left.bitrate_rank, right.bitrate_rank),
        SortColumn::FileSize => compare_opt_u64(size_value(left), size_value(right)),
        SortColumn::VideoCodec => compare_text_fields(&left.video_codec, &right.video_codec),
        SortColumn::AudioCodec => compare_text_fields(&left.audio_codec, &right.audio_codec),
    }
}

fn reverse_order(o: Ordering) -> (r: Ordering)
    ensures
        r == flip(o),
{
    match o {
        Ordering::Less => Ordering::Greater,
        Ordering::Equal => Ordering::Equal,
        Ordering::Greater => Ordering::Less,
    }
}

/// Compares the formats at positions `i` and `j`: by the column (reversed for a
/// descending sort unless one of them lacks the value), then by position.
fn compare_positions(keys: &[SortableFormat], i: usize, j: usize, column: SortColumn, direction: SortDirection) -> (r:
    Ordering)
    requires
        i < keys@.len(),
        j < keys@.len(),
    ensures
        r == result_order(keys@, pos(i), pos(j), column, direction),
{
    let value = compare_formats(&keys[i], &keys[j], column);
    match value {
        Ordering::Equal => {
            if i < j {
                Ordering::Less
            } else if i == j {
                Ordering::Equal
            } else {
                Ordering::Greater
            }
        },
        _ => {
            if direction == SortDirection::Descending {
                if is_missing(&keys[i], column) || is_missing(&keys[j], column) {
                    value
                } else {
                    reverse_order(value)
                }
            } else {
                value
            }
        },
    }
}

fn is_greater(o: Ordering) -> (r: bool)
    ensures
        r == (o == Ordering::Greater),
{
    match o {
        Ordering::Greater => true,
        _ => false,
    }
}

/// Whether the position at `a` in `r` comes before the one after it.
pub open spec fn ordered_at(keys: Seq<SortableFormat>, r: Seq<usize>, a: int, c: SortColumn, d: SortDirection) -> bool {
    result_order(keys, row_at(r, a), row_at(r, a + 1), c, d) == Ordering::Less
}

/// Whether each position of `r` comes before the next one.
pub open spec fn adjacent_ordered(keys: Seq<SortableFormat>, r: Seq<usize>, c: SortColumn, d: SortDirection) -> bool {
    forall|a: int| 0 <= a && a + 1 < r.len() ==> #[trigger] ordered_at(keys, r, a, c, d)
}

/// Whether every position of `r` comes before every later one.
pub open spec fn fully_ordered(keys: Seq<SortableFormat>, r: Seq<usize>, c: SortColumn, d: SortDirection) -> bool {
    forall|a: int, b: int|
        0 <= a < b < r.len() ==> result_order(keys, #[trigger] row_at(r, a), #[trigger] row_at(r, b), c, d)
            == Ordering::Less
}

/// Inserting position `k` after the last position that does not come after it,
/// and before those that do, keeps each position before the next.
proof fn lemma_insert_adjacent(keys: Seq<SortableFormat>, old_r: Seq<usize>, p: usize, k: usize, c: SortColumn, d: SortDirection)
    requires
        p <= old_r.len(),
        k < keys.len(),
        forall|a: int| 0 <= a < old_r.len() ==> #[trigger] old_r[a] < k,
        adjacent_ordered(keys, old_r, c, d),
        p > 0 ==> result_order(keys, row_at(old_r, p - 1), pos(k), c, d) != Ordering::Greater,
        forall|q: int| p <= q < old_r.len() ==> result_order(keys, #[trigger] row_at(old_r, q), pos(k), c, d)
            == Ordering::Greater,
    ensures
        adjacent_ordered(keys, old_r.insert(pos(p), k), c, d),
{
    let r = old_r.insert(pos(p), k);
    if p > 0 {
        assert(old_r[p - 1] < k);
        lemma_result_order_properties(keys, row_at(old_r, p - 1), pos(k), pos(k), c, d);
    }
    if p < old_r.len() {
        assert(old_r[pos(p)] < k);
        lemma_result_order_properties(keys, row_at(old_r, pos(p)), pos(k), pos(k), c, d);
    }
    assert forall|a: int| 0 <= a && a + 1 < r.len() implies #[trigger] ordered_at(keys, r, a, c, d) by {
        if a + 1 < p {
            assert(ordered_at(keys, old_r, a, c, d));
            assert(row_at(r, a) == row_at(old_r, a));
            assert(row_at(r, a + 1) == row_at(old_r, a + 1));
        } else if a + 1 == p {
            assert(row_at(r, a) == row_at(old_r, a));
            assert(row_at(r, a + 1) == k);
        } else if a == p {
            assert(row_at(r, a) == k);
            assert(row_at(r, a + 1) == row_at(old_r, a));
        } else {
            assert(ordered_at(keys, old_r, a - 1, c, d));
            assert(row_at(r, a) == row_at(old_r, a - 1));
            assert(row_at(r, a + 1) == row_at(old_r, a));
        }
    }
}

/// The same insertion keeps a fully ordered list fully ordered, where the column
/// orders the formats totally.
#[verifier::rlimit(40)]
proof fn lemma_insert_full(keys: Seq<SortableFormat>, old_r: Seq<usize>, p: usize, k: usize, c: SortColumn, d: SortDirection)
    requires
        p <= old_r.len(),
        k < keys.len(),
        column_is_total(keys, c),
        forall|a: int| 0 <= a < old_r.len() ==> #[trigger] old_r[a] < k,
        fully_ordered(keys, old_r, c, d),
        p > 0 ==> result_order(keys, row_at(old_r, p - 1), pos(k), c, d) != Ordering::Greater,
        forall|q: int| p <= q < old_r.len() ==> result_order(keys, #[trigger] row_at(old_r, q), pos(k), c, d)
            == Ordering::Greater,
    ensures
        fully_ordered(keys, old_r.insert(pos(p), k), c, d),
{
    let r = old_r.insert(pos(p), k);
    if p > 0 {
        assert(old_r[p - 1] < k);
        lemma_result_order_properties(keys, row_at(old_r, p - 1), pos(k), pos(k), c, d);
    }
    assert forall|a: int, b: int|
        0 <= a < b < r.len() implies result_order(keys, #[trigger] row_at(r, a), #[trigger] row_at(r, b), c, d)
            == Ordering::Less by {
        if b < p {
            assert(row_at(r, a) == row_at(old_r, a));
            assert(row_at(r, b) == row_at(old_r, b));
        } else if a > p {
            assert(row_at(r, a) == row_at(old_r, a - 1));
            assert(row_at(r, b) == row_at(old_r, b - 1));
        } else if a < p && b > p {
            assert(row_at(r, a) == row_at(old_r, a));
            assert(row_at(r, b) == row_at(old_r, b - 1));
        } else if a < p && b == p {
            assert(row_at(r, b) == k);
            assert(row_at(r, a) == row_at(old_r, a));
            let last = row_at(old_r, p - 1);
            assert(old_r[a] < k);
            assert(old_r[p - 1] < k);
            if a < p - 1 {
                assert(result_order(keys, row_at(old_r, a), last, c, d) == Ordering::Less);
            }
            lemma_result_order_properties(keys, row_at(old_r, a), last, pos(k), c, d);
        } else {
            assert(a == p);
            assert(row_at(r, a) == k);
            assert(row_at(r, b) == row_at(old_r, b - 1));
            assert(old_r[b - 1] < k);
            assert(result_order(keys, row_at(old_r, b - 1), pos(k), c, d) == Ordering::Greater);
            lemma_result_order_properties(keys, pos(k), row_at(old_r, b - 1), pos(k), c, d);
        }
    }
}

/// The positions of the formats in display order. Without a column, or with the
/// `Reset` direction, the listed order is kept. Otherwise each position occurs
/// once and each comes before the next in the column's order (missing values
/// last, ties by position); where the column orders the formats totally, the
/// whole list is in that order.
pub fn sorted_result_indices(keys: &[SortableFormat], column: Option<SortColumn>, direction: SortDirection) -> (r:
    Vec<usize>)
    ensures
        (column is None || direction == SortDirection::Reset) ==> identity_rows(r@, keys@.len()),
        forall|v: int| 0 <= v < keys@.len() ==> #[trigger] listed(r@, v),
        r@.len() == keys@.len(),
        forall|a: int| 0 <= a < r@.len() ==> #[trigger] r@[a] < keys@.len(),
        column matches Some(c) ==> (direction != SortDirection::Reset ==> adjacent_ordered(keys@, r@, c, direction)),
        column matches Some(c) ==> (direction != SortDirection::Reset && column_is_total(keys@, c) ==> fully_ordered(
            keys@,
            r@,
            c,
            direction,
        )),
{
    let n = keys.len();
    let c = match column {
        Some(c) => {
            if direction == SortDirection::Reset {
                let r = identity_indices(n);
                proof {
                    assert forall|a: int| 0 <= a < r@.len() implies #[trigger] r@[a] < keys@.len() by {
                        assert(row_at(r@, a) == a);
                    }
                }
                return r;
            }
            c
        },
        None => {
            let r = identity_indices(n);
            proof {
                assert forall|a: int| 0 <= a < r@.len() implies #[trigger] r@[a] < keys@.len() by {
                    assert(row_at(r@, a) == a);
                }
            }
            return r;
        },
    };
    let ghost total = column_is_total(keys@, c);
    let mut r: Vec<usize> = Vec::new();
    let mut k: usize = 0;
    while k < n
        invariant
            n == keys@.len(),
            total == column_is_total(keys@, c),
            k <= n,
            r@.len() == k,
            forall|a: int| 0 <= a < r@.len() ==> #[trigger] r@[a] < k,
            forall|v: int| 0 <= v < k ==> #[trigger] listed(r@, v),
            adjacent_ordered(keys@, r@, c, direction),
            total ==> fully_ordered(keys@, r@, c, direction),
        decreases n - k,
    {
        let mut p: usize = r.len();
        while p > 0 && is_greater(compare_positions(keys, r[p - 1], k, c, direction))
            invariant
                n == keys@.len(),
                k < n,
                p <= r@.len(),
                forall|a: int| 0 <= a < r@.len() ==> #[trigger] r@[a] < k,
                forall|q: int|
                    p <= q < r@.len() ==> result_order(keys@, #[trigger] row_at(r@, q), pos(k), c, direction)
                        == Ordering::Greater,
            decreases p,
        {
            p = p - 1;
        }
        let ghost old_r = r@;
        proof {
            if p > 0 {
                assert(old_r[p - 1] < k);
            }
        }
        r.insert(p, k);
        proof {
            assert(r@ == old_r.insert(pos(p), k));
            lemma_insert_adjacent(keys@, old_r, p, k, c, direction);
            if total {
                lemma_insert_full(keys@, old_r, p, k, c, direction);
            }
            assert forall|v: int| 0 <= v < k + 1 implies #[trigger] listed(r@, v) by {
                if v == k {
                    assert(r@[pos(p)] == v);
                } else {
                    assert(listed(old_r, v));
                    let a = choose|a: int| 0 <= a < old_r.len() && old_r[a] == v;
                    if a < p {
                        assert(r@[a] == v);
                    } else {
                        assert(r@[a + 1] == v);
                    }
                }
            }
        }
        k = k + 1;
    }
    r
}

/// Law: where the column orders the formats totally (any column but the format
/// id, and the format id when its values are all numbers or all text), the
/// search table's order is a strict total order on the positions of the formats.
pub proof fn law_result_order_strict_total(
    keys: Seq<SortableFormat>,
    i: int,
    j: int,
    k: int,
    c: SortColumn,
    d: SortDirection,
)
    requires
        0 <= i < keys.len(),
        0 <= j < keys.len(),
        0 <= k < keys.len(),
        column_is_total(keys, c),
    ensures
        result_order(keys, i, i, c, d) == Ordering::Equal,
        i != j ==> (result_order(keys, i, j, c, d) == Ordering::Less) != (result_order(keys, j, i, c, d)
            == Ordering::Less),
        result_order(keys, i, j, c, d) == Ordering::Less && result_order(keys, j, k, c, d) == Ordering::Less
            ==> result_order(keys, i, k, c, d) == Ordering::Less,
{
    lemma_result_order_properties(keys, i, j, k, c, d);
    lemma_result_order_properties(keys, i, i, i, c, d);
}

/// Law: a descending sort reverses the ascending order of two formats that both
/// have the column's value and differ in it, and a format without the value
/// comes after one with it in either direction.
pub proof fn law_descending_reverses_present_values(
    keys: Seq<SortableFormat>,
    i: int,
    j: int,
    c: SortColumn,
    d: SortDirection,
)
    requires
        0 <= i < keys.len(),
        0 <= j < keys.len(),
    ensures
        !missing(keys[i], c) && !missing(keys[j], c) && value_order(keys[i], keys[j], c) != Ordering::Equal
            ==> result_order(keys, i, j, c, SortDirection::Descending) == flip(
            result_order(keys, i, j, c, SortDirection::Ascending),
        ),
        missing(keys[i], c) && !missing(keys[j], c) ==> result_order(keys, i, j, c, d) == Ordering::Greater,
{
}

/// Two rows with the same texts.
pub open spec fn same_row(a: SearchResultRow, b: SearchResultRow) -> bool {
    &&& a.format_id@ == b.format_id@
    &&& a.format_note@ == b.format_note@
    &&& a.extension@ == b.extension@
    &&& a.resolution@ == b.resolution@
    &&& a.bitrate@ == b.bitrate@
    &&& a.file_size@ == b.file_size@
    &&& a.video_codec@ == b.video_codec@
    &&& a.audio_codec@ == b.audio_codec@
}

/// The positions of `order` that name one of `n` rows, in order.
pub open spec fn kept_positions(order: Seq<usize>, n: nat) -> Seq<usize>
    decreases order.len(),
{
    if order.len() == 0 {
        Seq::<usize>::empty()
    } else {
        let rest = kept_positions(order.drop_last(), n);
        if order.last() < n {
            rest.push(order.last())
        } else {
            rest
        }
    }
}

fn copy_row(row: &SearchResultRow) -> (c: SearchResultRow)
    ensures
        same_row(c, *row),
{
    SearchResultRow {
        format_id: string_of(row.format_id.as_str()),
        format_note: string_of(row.format_note.as_str()),
        extension: string_of(row.extension.as_str()),
        resolution: string_of(row.resolution.as_str()),
        bitrate: string_of(row.bitrate.as_str()),
        file_size: string_of(row.file_size.as_str()),
        video_codec: string_of(row.video_codec.as_str()),
        audio_codec: string_of(row.audio_codec.as_str()),
    }
}

/// The rows at the positions of `order`, in that order; positions past the last
/// row are skipped.
pub fn result_rows_in_order(rows: &[SearchResultRow], order: &[usize]) -> (r: Vec<SearchResultRow>)
    ensures
        r@.len() == kept_positions(order@, rows@.len()).len(),
        forall|m: int|
            0 <= m < r@.len() ==> same_row(#[trigger] r@[m], rows@[kept_positions(order@, rows@.len())[m] as int]),
{
    let mut r: Vec<SearchResultRow> = Vec::new();
    let mut i: usize = 0;
    while i < order.len()
        invariant
            i <= order@.len(),
            r@.len() == kept_positions(order@.take(i as int), rows@.len()).len(),
            forall|m: int|
                0 <= m < r@.len() ==> same_row(
                    #[trigger] r@[m],
                    rows@[kept_positions(order@.take(i as int), rows@.len())[m] as int],
                ),
        decreases order@.len() - i,
    {
        let ghost before = r@;
        assert(order@.take(i + 1).drop_last() =~= order@.take(i as int));
        let index = order[i];
        if index < rows.len() {
            r.push(copy_row(&rows[index]));
        }
        i = i + 1;
    }
    assert(order@.take(order@.len() as int) =~= order@);
    r
}

} // verus!
