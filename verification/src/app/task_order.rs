//! How the task table orders its rows.
//!
//! Each column compares one field of two tasks; ties fall back to the task id and
//! then to the row's position, so that two different rows never compare equal.
use crate::storage::download::{DownloadTask, DownloadTaskStatus};
use crate::text::trim;
use std::cmp::Ordering;
use vstd::prelude::*;

verus! {

/// A column of the task table that rows can be sorted by.
#[derive(Debug, Clone, Copy, PartialEq, Eq, Structural)]
pub enum TaskSortColumn {
    Title,
    Status,
    Progress,
    Size,
    Speed,
    Eta,
    UpdatedAt,
    TargetPath,
}

/// The sort state of the task table; `Reset` shows rows in their loaded order.
#[derive(Debug, Clone, Copy, PartialEq, Eq, Structural)]
pub enum TaskSortDirection {
    Reset,
    Ascending,
    Descending,
}

pub open spec fn flip(o: Ordering) -> Ordering {
    match o {
        Ordering::Less => Ordering::Greater,
        Ordering::Equal => Ordering::Equal,
        Ordering::Greater => Ordering::Less,
    }
}

/// `a.then_with(|| b)`.
pub open spec fn then(a: Ordering, b: Ordering) -> Ordering {
    if a == Ordering::Equal {
        b
    } else {
        a
    }
}

/// A descending sort reverses the order of a column; the others keep it.
pub open spec fn directed(d: TaskSortDirection, o: Ordering) -> Ordering {
    if d == TaskSortDirection::Descending {
        flip(o)
    } else {
        o
    }
}

pub open spec fn order_int(a: int, b: int) -> Ordering {
    if a < b {
        Ordering::Less
    } else if a == b {
        Ordering::Equal
    } else {
        Ordering::Greater
    }
}

pub open spec fn order_i64(a: i64, b: i64) -> Ordering {
    if a < b {
        Ordering::Less
    } else if a == b {
        Ordering::Equal
    } else {
        Ordering::Greater
    }
}

pub open spec fn order_u8(a: u8, b: u8) -> Ordering {
    if a < b {
        Ordering::Less
    } else if a == b {
        Ordering::Equal
    } else {
        Ordering::Greater
    }
}

/// Whether `x` has a smaller code point than `y`.
pub open spec fn char_below(x: char, y: char) -> bool {
    (x as u32) < (y as u32)
}

/// Two characters with neither code point below the other are the same character.
pub proof fn lemma_same_code_same_char(x: char, y: char)
    requires
        !char_below(x, y),
        !char_below(y, x),
    ensures
        x == y,
{
    assert((x as u32) == (y as u32));
}

/// Lexicographic order of two strings by code point, a proper prefix first.
pub open spec fn lex_order(a: Seq<char>, b: Seq<char>) -> Ordering
    decreases a.len(),
{
    if a.len() == 0 {
        if b.len() == 0 {
            Ordering::Equal
        } else {
            Ordering::Less
        }
    } else if b.len() == 0 {
        Ordering::Greater
    } else if char_below(a[0], b[0]) {
        Ordering::Less
    } else if char_below(b[0], a[0]) {
        Ordering::Greater
    } else {
        lex_order(a.drop_first(), b.drop_first())
    }
}

/// Present values first, ordered (and directed) among themselves; missing ones last.
pub open spec fn opt_order_i64(a: Option<i64>, b: Option<i64>, d: TaskSortDirection) -> Ordering {
    match (a, b) {
        (Some(x), Some(y)) => directed(d, order_i64(x, y)),
        (Some(_), None) => Ordering::Less,
        (None, Some(_)) => Ordering::Greater,
        (None, None) => Ordering::Equal,
    }
}

pub open spec fn opt_order_u8(a: Option<u8>, b: Option<u8>, d: TaskSortDirection) -> Ordering {
    match (a, b) {
        (Some(x), Some(y)) => directed(d, order_u8(x, y)),
        (Some(_), None) => Ordering::Less,
        (None, Some(_)) => Ordering::Greater,
        (None, None) => Ordering::Equal,
    }
}

/// The text shown as a task's title: its title unless blank, else its source URL.
pub open spec fn title_of(t: DownloadTask) -> Seq<char> {
    match t.title {
        Some(x) => if trim(x@).len() > 0 {
            x@
        } else {
            t.source_url@
        },
        None => t.source_url@,
    }
}

/// The position of each status in the status column's order.
pub open spec fn status_rank_of(s: DownloadTaskStatus) -> u8 {
    match s {
        DownloadTaskStatus::Pending => 0,
        DownloadTaskStatus::Preparing => 1,
        DownloadTaskStatus::Downloading => 2,
        DownloadTaskStatus::Paused => 3,
        DownloadTaskStatus::Merging => 4,
        DownloadTaskStatus::Completed => 5,
        DownloadTaskStatus::Cancelled => 6,
        DownloadTaskStatus::Failed => 7,
    }
}

/// How one column orders two tasks.
pub open spec fn column_order(
    l: DownloadTask,
    r: DownloadTask,
    c: TaskSortColumn,
    d: TaskSortDirection,
) -> Ordering {
    match c {
        TaskSortColumn::Title => directed(d, lex_order(title_of(l), title_of(r))),
        TaskSortColumn::Status => directed(
            d,
            order_u8(status_rank_of(l.status), status_rank_of(r.status)),
        ),
        TaskSortColumn::Progress => opt_order_u8(l.progress_percent, r.progress_percent, d),
        TaskSortColumn::Size => directed(d, order_i64(l.downloaded_bytes, r.downloaded_bytes)),
        TaskSortColumn::Speed => opt_order_i64(
            l.speed_bytes_per_second,
            r.speed_bytes_per_second,
            d,
        ),
        TaskSortColumn::Eta => opt_order_i64(l.eta_seconds, r.eta_seconds, d),
        TaskSortColumn::UpdatedAt => directed(d, order_i64(l.updated_at, r.updated_at)),
        TaskSortColumn::TargetPath => directed(d, lex_order(l.target_path@, r.target_path@)),
    }
}

/// How the rows at positions `i` and `j` of `tasks` compare: by the column, then
/// by task id, then by position.
pub open spec fn row_order(
    tasks: Seq<DownloadTask>,
    i: int,
    j: int,
    c: TaskSortColumn,
    d: TaskSortDirection,
) -> Ordering {
    then(column_order(tasks[i], tasks[j], c, d), then(order_i64(tasks[i].id, tasks[j].id), order_int(i, j)))
}

/// The position stored at `a` in `r`.
pub open spec fn row_at(r: Seq<usize>, a: int) -> int {
    r[a] as int
}

/// Whether `r` lists the positions `0..n` exactly once each, in increasing
/// row order.
pub open spec fn sorted_rows(
    tasks: Seq<DownloadTask>,
    r: Seq<usize>,
    c: TaskSortColumn,
    d: TaskSortDirection,
) -> bool {
    &&& r.len() == tasks.len()
    &&& forall|a: int| 0 <= a < r.len() ==> #[trigger] r[a] < tasks.len()
    &&& forall|a: int, b: int|
        0 <= a < b < r.len() ==> row_order(tasks, #[trigger] row_at(r, a), #[trigger] row_at(r, b), c, d)
            == Ordering::Less
}

/// The order properties of one comparison, read off its three pairwise results
/// (`ab`, `bc`, `ac`) and their reverses (`ba`, `cb`, `ca`).
pub open spec fn consistent(
    ab: Ordering,
    ba: Ordering,
    bc: Ordering,
    cb: Ordering,
    ac: Ordering,
    ca: Ordering,
) -> bool {
    &&& ab == flip(ba)
    &&& bc == flip(cb)
    &&& ac == flip(ca)
    &&& (ab != Ordering::Greater && bc != Ordering::Greater ==> ac != Ordering::Greater)
    &&& ((ab == Ordering::Less && bc != Ordering::Greater) || (ab != Ordering::Greater && bc
        == Ordering::Less) ==> ac == Ordering::Less)
    &&& (cb != Ordering::Greater && ba != Ordering::Greater ==> ca != Ordering::Greater)
    &&& ((cb == Ordering::Less && ba != Ordering::Greater) || (cb != Ordering::Greater && ba
        == Ordering::Less) ==> ca == Ordering::Less)
}

/// Consistency survives reversal and chaining with `then`.
pub proof fn lemma_consistent_combinators(
    d: TaskSortDirection,
    ab: Ordering,
    ba: Ordering,
    bc: Ordering,
    cb: Ordering,
    ac: Ordering,
    ca: Ordering,
    ab2: Ordering,
    ba2: Ordering,
    bc2: Ordering,
    cb2: Ordering,
    ac2: Ordering,
    ca2: Ordering,
)
    requires
        consistent(ab, ba, bc, cb, ac, ca),
        consistent(ab2, ba2, bc2, cb2, ac2, ca2),
    ensures
        consistent(
            directed(d, ab),
            directed(d, ba),
            directed(d, bc),
            directed(d, cb),
            directed(d, ac),
            directed(d, ca),
        ),
        consistent(
            then(ab, ab2),
            then(ba, ba2),
            then(bc, bc2),
            then(cb, cb2),
            then(ac, ac2),
            then(ca, ca2),
        ),
{
}

pub proof fn lemma_lex_antisymmetric(a: Seq<char>, b: Seq<char>)
    ensures
        lex_order(a, b) == flip(lex_order(b, a)),
        lex_order(a, b) == Ordering::Equal ==> a == b,
    decreases a.len(),
{
    if a.len() > 0 && b.len() > 0 && !char_below(a[0], b[0]) && !char_below(b[0], a[0]) {
        lemma_lex_antisymmetric(a.drop_first(), b.drop_first());
        if lex_order(a, b) == Ordering::Equal {
            lemma_same_code_same_char(a[0], b[0]);
            assert(a =~= seq![a[0]] + a.drop_first());
            assert(b =~= seq![b[0]] + b.drop_first());
        }
    }
    if a.len() == 0 && b.len() == 0 {
        assert(a =~= b);
    }
}

pub proof fn lemma_lex_transitive(a: Seq<char>, b: Seq<char>, c: Seq<char>)
    requires
        lex_order(a, b) != Ordering::Greater,
        lex_order(b, c) != Ordering::Greater,
    ensures
        lex_order(a, c) != Ordering::Greater,
        lex_order(a, b) == Ordering::Less || lex_order(b, c) == Ordering::Less ==> lex_order(a, c)
            == Ordering::Less,
    decreases a.len(),
{
    lemma_lex_antisymmetric(a, b);
    lemma_lex_antisymmetric(b, c);
    if a.len() > 0 && b.len() > 0 && c.len() > 0 {
        if !char_below(a[0], b[0]) && !char_below(b[0], a[0]) && !char_below(b[0], c[0])
            && !char_below(c[0], b[0]) {
            lemma_lex_transitive(a.drop_first(), b.drop_first(), c.drop_first());
        }
    }
}

pub proof fn lemma_lex_consistent(a: Seq<char>, b: Seq<char>, c: Seq<char>)
    ensures
        consistent(
            lex_order(a, b),
            lex_order(b, a),
            lex_order(b, c),
            lex_order(c, b),
            lex_order(a, c),
            lex_order(c, a),
        ),
{
    lemma_lex_antisymmetric(a, b);
    lemma_lex_antisymmetric(b, c);
    lemma_lex_antisymmetric(a, c);
    if lex_order(a, b) != Ordering::Greater && lex_order(b, c) != Ordering::Greater {
        lemma_lex_transitive(a, b, c);
    }
    if lex_order(c, b) != Ordering::Greater && lex_order(b, a) != Ordering::Greater {
        lemma_lex_transitive(c, b, a);
    }
}

pub proof fn lemma_i64_consistent(a: i64, b: i64, c: i64)
    ensures
        consistent(
            order_i64(a, b),
            order_i64(b, a),
            order_i64(b, c),
            order_i64(c, b),
            order_i64(a, c),
            order_i64(c, a),
        ),
{
}

pub proof fn lemma_u8_consistent(a: u8, b: u8, c: u8)
    ensures
        consistent(
            order_u8(a, b),
            order_u8(b, a),
            order_u8(b, c),
            order_u8(c, b),
            order_u8(a, c),
            order_u8(c, a),
        ),
{
}

pub proof fn lemma_int_consistent(a: int, b: int, c: int)
    ensures
        consistent(
            order_int(a, b),
            order_int(b, a),
            order_int(b, c),
            order_int(c, b),
            order_int(a, c),
            order_int(c, a),
        ),
{
}

pub proof fn lemma_opt_i64_consistent(a: Option<i64>, b: Option<i64>, c: Option<i64>, d: TaskSortDirection)
    ensures
        consistent(
            opt_order_i64(a, b, d),
            opt_order_i64(b, a, d),
            opt_order_i64(b, c, d),
            opt_order_i64(c, b, d),
            opt_order_i64(a, c, d),
            opt_order_i64(c, a, d),
        ),
{
}

pub proof fn lemma_opt_u8_consistent(a: Option<u8>, b: Option<u8>, c: Option<u8>, d: TaskSortDirection)
    ensures
        consistent(
            opt_order_u8(a, b, d),
            opt_order_u8(b, a, d),
            opt_order_u8(b, c, d),
            opt_order_u8(c, b, d),
            opt_order_u8(a, c, d),
            opt_order_u8(c, a, d),
        ),
{
}

pub proof fn lemma_column_consistent(
    x: DownloadTask,
    y: DownloadTask,
    z: DownloadTask,
    c: TaskSortColumn,
    d: TaskSortDirection,
)
    ensures
        consistent(
            column_order(x, y, c, d),
            column_order(y, x, c, d),
            column_order(y, z, c, d),
            column_order(z, y, c, d),
            column_order(x, z, c, d),
            column_order(z, x, c, d),
        ),
{
    let o = Ordering::Equal;
    match c {
        TaskSortColumn::Title => {
            let (a, b, e) = (title_of(x), title_of(y), title_of(z));
            lemma_lex_consistent(a, b, e);
            lemma_consistent_combinators(d, lex_order(a, b), lex_order(b, a), lex_order(b, e), lex_order(e, b), lex_order(a, e), lex_order(e, a), o, o, o, o, o, o);
        },
        TaskSortColumn::TargetPath => {
            let (a, b, e) = (x.target_path@, y.target_path@, z.target_path@);
            lemma_lex_consistent(a, b, e);
            lemma_consistent_combinators(d, lex_order(a, b), lex_order(b, a), lex_order(b, e), lex_order(e, b), lex_order(a, e), lex_order(e, a), o, o, o, o, o, o);
        },
        TaskSortColumn::Status => {
            let (a, b, e) = (status_rank_of(x.status), status_rank_of(y.status), status_rank_of(z.status));
            lemma_u8_consistent(a, b, e);
            lemma_consistent_combinators(d, order_u8(a, b), order_u8(b, a), order_u8(b, e), order_u8(e, b), order_u8(a, e), order_u8(e, a), o, o, o, o, o, o);
        },
        TaskSortColumn::Size => {
            let (a, b, e) = (x.downloaded_bytes, y.downloaded_bytes, z.downloaded_bytes);
            lemma_i64_consistent(a, b, e);
            lemma_consistent_combinators(d, order_i64(a, b), order_i64(b, a), order_i64(b, e), order_i64(e, b), order_i64(a, e), order_i64(e, a), o, o, o, o, o, o);
        },
        TaskSortColumn::UpdatedAt => {
            let (a, b, e) = (x.updated_at, y.updated_at, z.updated_at);
            lemma_i64_consistent(a, b, e);
            lemma_consistent_combinators(d, order_i64(a, b), order_i64(b, a), order_i64(b, e), order_i64(e, b), order_i64(a, e), order_i64(e, a), o, o, o, o, o, o);
        },
        TaskSortColumn::Progress => {
            lemma_opt_u8_consistent(x.progress_percent, y.progress_percent, z.progress_percent, d);
        },
        TaskSortColumn::Speed => {
            lemma_opt_i64_consistent(x.speed_bytes_per_second, y.speed_bytes_per_second, z.speed_bytes_per_second, d);
        },
        TaskSortColumn::Eta => {
            lemma_opt_i64_consistent(x.eta_seconds, y.eta_seconds, z.eta_seconds, d);
        },
    }
}

/// The properties of a strict order that the sort relies on, for one triple of rows.
pub proof fn lemma_row_order_properties(
    tasks: Seq<DownloadTask>,
    i: int,
    j: int,
    k: int,
    c: TaskSortColumn,
    d: TaskSortDirection,
)
    requires
        0 <= i < tasks.len(),
        0 <= j < tasks.len(),
        0 <= k < tasks.len(),
    ensures
        row_order(tasks, i, j, c, d) == flip(row_order(tasks, j, i, c, d)),
        row_order(tasks, i, j, c, d) == Ordering::Equal ==> i == j,
        row_order(tasks, i, j, c, d) == Ordering::Less && row_order(tasks, j, k, c, d)
            == Ordering::Less ==> row_order(tasks, i, k, c, d) == Ordering::Less,
{
    let (x, y, z) = (tasks[i], tasks[j], tasks[k]);
    lemma_column_consistent(x, y, z, c, d);
    lemma_i64_consistent(x.id, y.id, z.id);
    lemma_int_consistent(i, j, k);
    lemma_consistent_combinators(
        d,
        order_i64(x.id, y.id),
        order_i64(y.id, x.id),
        order_i64(y.id, z.id),
        order_i64(z.id, y.id),
        order_i64(x.id, z.id),
        order_i64(z.id, x.id),
        order_int(i, j),
        order_int(j, i),
        order_int(j, k),
        order_int(k, j),
        order_int(i, k),
        order_int(k, i),
    );
    lemma_consistent_combinators(
        d,
        column_order(x, y, c, d),
        column_order(y, x, c, d),
        column_order(y, z, c, d),
        column_order(z, y, c, d),
        column_order(x, z, c, d),
        column_order(z, x, c, d),
        then(order_i64(x.id, y.id), order_int(i, j)),
        then(order_i64(y.id, x.id), order_int(j, i)),
        then(order_i64(y.id, z.id), order_int(j, k)),
        then(order_i64(z.id, y.id), order_int(k, j)),
        then(order_i64(x.id, z.id), order_int(i, k)),
        then(order_i64(z.id, x.id), order_int(k, i)),
    );
}

/// Law: the row order is a strict total order on the positions of `tasks`.
pub proof fn law_row_order_is_strict_total(
    tasks: Seq<DownloadTask>,
    i: int,
    j: int,
    k: int,
    c: TaskSortColumn,
    d: TaskSortDirection,
)
    requires
        0 <= i < tasks.len(),
        0 <= j < tasks.len(),
        0 <= k < tasks.len(),
    ensures
        row_order(tasks, i, i, c, d) == Ordering::Equal,
        i != j ==> (row_order(tasks, i, j, c, d) == Ordering::Less) != (row_order(
            tasks,
            j,
            i,
            c,
            d,
        ) == Ordering::Less),
        row_order(tasks, i, j, c, d) == Ordering::Less && row_order(tasks, j, k, c, d)
            == Ordering::Less ==> row_order(tasks, i, k, c, d) == Ordering::Less,
{
    lemma_row_order_properties(tasks, i, j, k, c, d);
    lemma_row_order_properties(tasks, i, i, i, c, d);
}

/// Law: an ascending sort orders each column by its value (titles and target
/// paths by their characters, statuses by their place in the status order, sizes
/// and update times as numbers, and present progress, speed and remaining time
/// as numbers before missing ones), and a descending sort reverses that order
/// for every column wherever both rows have the value.
pub proof fn law_descending_reverses_each_column(l: DownloadTask, r: DownloadTask, c: TaskSortColumn)
    ensures
        column_order(l, r, TaskSortColumn::Title, TaskSortDirection::Ascending) == lex_order(title_of(l), title_of(r)),
        column_order(l, r, TaskSortColumn::TargetPath, TaskSortDirection::Ascending) == lex_order(
            l.target_path@,
            r.target_path@,
        ),
        column_order(l, r, TaskSortColumn::Status, TaskSortDirection::Ascending) == order_u8(
            status_rank_of(l.status),
            status_rank_of(r.status),
        ),
        column_order(l, r, TaskSortColumn::Size, TaskSortDirection::Ascending) == order_i64(
            l.downloaded_bytes,
            r.downloaded_bytes,
        ),
        column_order(l, r, TaskSortColumn::UpdatedAt, TaskSortDirection::Ascending) == order_i64(
            l.updated_at,
            r.updated_at,
        ),
        l.progress_percent is Some && r.progress_percent is Some ==> column_order(
            l,
            r,
            TaskSortColumn::Progress,
            TaskSortDirection::Ascending,
        ) == order_u8(l.progress_percent->Some_0, r.progress_percent->Some_0),
        l.speed_bytes_per_second is Some && r.speed_bytes_per_second is Some ==> column_order(
            l,
            r,
            TaskSortColumn::Speed,
            TaskSortDirection::Ascending,
        ) == order_i64(l.speed_bytes_per_second->Some_0, r.speed_bytes_per_second->Some_0),
        l.eta_seconds is Some && r.eta_seconds is Some ==> column_order(
            l,
            r,
            TaskSortColumn::Eta,
            TaskSortDirection::Ascending,
        ) == order_i64(l.eta_seconds->Some_0, r.eta_seconds->Some_0),
        (c == TaskSortColumn::Progress ==> l.progress_percent is Some && r.progress_percent is Some) && (c
            == TaskSortColumn::Speed ==> l.speed_bytes_per_second is Some && r.speed_bytes_per_second is Some) && (c
            == TaskSortColumn::Eta ==> l.eta_seconds is Some && r.eta_seconds is Some) ==> column_order(
            l,
            r,
            c,
            TaskSortDirection::Descending,
        ) == flip(column_order(l, r, c, TaskSortDirection::Ascending)),
{
}

} // verus!
