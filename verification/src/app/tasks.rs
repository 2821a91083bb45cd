//! The rows of the download task table: their titles, their order and whether
//! any task is still running.
use crate::app::task_order::{
    column_order, directed, lex_order, char_below, opt_order_i64, opt_order_u8, order_i64, order_u8,
    row_at, row_order, sorted_rows, status_rank_of, title_of, lemma_row_order_properties,
    law_row_order_is_strict_total,
    TaskSortColumn, TaskSortDirection,
};
use crate::storage::download::{terminal, DownloadTask, DownloadTaskStatus};
use crate::text::{chars_of, is_blank, suffix};
use std::cmp::Ordering;
use vstd::prelude::*;

verus! {

/// The column at each index of the table header.
pub open spec fn task_column_index(c: TaskSortColumn) -> i32 {
    match c {
        TaskSortColumn::Title => 0,
        TaskSortColumn::Status => 1,
        TaskSortColumn::Progress => 2,
        TaskSortColumn::Size => 3,
        TaskSortColumn::Speed => 4,
        TaskSortColumn::Eta => 5,
        TaskSortColumn::UpdatedAt => 6,
        TaskSortColumn::TargetPath => 7,
    }
}

pub open spec fn task_direction_index(d: TaskSortDirection) -> i32 {
    match d {
        TaskSortDirection::Reset => 0,
        TaskSortDirection::Ascending => 1,
        TaskSortDirection::Descending => 2,
    }
}

impl TaskSortColumn {
    /// Every column, in header order.
    pub const ALL: [TaskSortColumn; 8] = [
        TaskSortColumn::Title,
        TaskSortColumn::Status,
        TaskSortColumn::Progress,
        TaskSortColumn::Size,
        TaskSortColumn::Speed,
        TaskSortColumn::Eta,
        TaskSortColumn::UpdatedAt,
        TaskSortColumn::TargetPath,
    ];

    pub fn from_index(index: i32) -> (r: Option<Self>)
        ensures
            r matches Some(c) ==> task_column_index(c) == index,
            r is None <==> !(0 <= index && index <= 7),
    {
        match index {
            0 => Some(Self::Title),
            1 => Some(Self::Status),
            2 => Some(Self::Progress),
            3 => Some(Self::Size),
            4 => Some(Self::Speed),
            5 => Some(Self::Eta),
            6 => Some(Self::UpdatedAt),
            7 => Some(Self::TargetPath),
            _ => None,
        }
    }

    pub fn index(self) -> (r: i32)
        ensures
            r == task_column_index(self),
    {
        match self {
            Self::Title => 0,
            Self::Status => 1,
            Self::Progress => 2,
            Self::Size => 3,
            Self::Speed => 4,
            Self::Eta => 5,
            Self::UpdatedAt => 6,
            Self::TargetPath => 7,
        }
    }
}

impl TaskSortDirection {
    pub fn from_index(index: i32) -> (r: Option<Self>)
        ensures
            r matches Some(d) ==> task_direction_index(d) == index,
            r is None <==> !(0 <= index && index <= 2),
    {
        match index {
            0 => Some(Self::Reset),
            1 => Some(Self::Ascending),
            2 => Some(Self::Descending),
            _ => None,
        }
    }

    pub fn index(self) -> (r: i32)
        ensures
            r == task_direction_index(self),
    {
        match self {
            Self::Reset => 0,
            Self::Ascending => 1,
            Self::Descending => 2,
        }
    }

    /// Reverses `ordering` for a descending sort.
    pub fn apply(self, ordering: Ordering) -> (r: Ordering)
        ensures
            r == directed(self, ordering),
    {
        match self {
            Self::Descending => match ordering {
                Ordering::Less => Ordering::Greater,
                Ordering::Equal => Ordering::Equal,
                Ordering::Greater => Ordering::Less,
            },
            _ => ordering,
        }
    }
}

/// Law: the header indices of columns and directions are distinct and read back.
pub proof fn law_task_sort_indices(a: TaskSortColumn, b: TaskSortColumn, d: TaskSortDirection, e: TaskSortDirection)
    ensures
        0 <= task_column_index(a) <= 7,
        task_column_index(a) == task_column_index(b) ==> a == b,
        0 <= task_direction_index(d) <= 2,
        task_direction_index(d) == task_direction_index(e) ==> d == e,
{
}

/// The title shown for a task: its title unless blank, else its source URL.
pub fn task_title(task: &DownloadTask) -> (r: &str)
    ensures
        r@ == title_of(*task),
{
    match &task.title {
        Some(title) => {
            if is_blank(title.as_str()) {
                task.source_url.as_str()
            } else {
                title.as_str()
            }
        },
        None => task.source_url.as_str(),
    }
}

/// Whether `x` has a smaller code point than `y`.
fn code_below(x: char, y: char) -> (r: bool)
    ensures
        r == char_below(x, y),
{
    (x as u32) < (y as u32)
}

/// Compares two strings character by character, a proper prefix first.
pub fn compare_lexicographic(left: &str, right: &str) -> (r: Ordering)
    ensures
        r == lex_order(left@, right@),
{
    let a = chars_of(left);
    let b = chars_of(right);
    let mut i: usize = 0;
    assert(suffix(a@, 0) =~= a@);
    assert(suffix(b@, 0) =~= b@);
    while i < a.len() && i < b.len()
        invariant
            a@ == left@,
            b@ == right@,
            i <= a@.len(),
            i <= b@.len(),
            lex_order(a@, b@) == lex_order(
                suffix(a@, pos(i)),
                suffix(b@, pos(i)),
            ),
        decreases a.len() - i,
    {
        let x = a[i];
        let y = b[i];
        if code_below(x, y) {
            return Ordering::Less;
        }
        if code_below(y, x) {
            return Ordering::Greater;
        }
        assert(suffix(a@, pos(i)).drop_first() =~= suffix(a@, i + 1));
        assert(suffix(b@, pos(i)).drop_first() =~= suffix(b@, i + 1));
        i = i + 1;
    }
    if i < a.len() {
        Ordering::Greater
    } else if i < b.len() {
        Ordering::Less
    } else {
        Ordering::Equal
    }
}

/// The position of a status in the status column's order.
pub fn status_rank(status: DownloadTaskStatus) -> (r: u8)
    ensures
        r == status_rank_of(status),
{
    match status {
        DownloadTaskStatus::Pending => 0,
        DownloadTaskStatus::Preparing => 1,
        DownloadTaskStatus::Downloading => 2,
        DownloadTaskStatus::Paused => 3,
        DownloadTaskStatus::Merging => 4,
        DownloadTaskStatus::Completed => 5,
        DownloadTaskStatus::Cancelled => 6,
        DownloadTaskStatus::Failed => 7,
    }
}

/// The value the size column compares: the downloaded bytes.
pub fn task_size_value(task: &DownloadTask) -> (r: i64)
    ensures
        r == task.downloaded_bytes,
{
    task.downloaded_bytes
}

fn compare_i64(a: i64, b: i64) -> (r: Ordering)
    ensures
        r == order_i64(a, b),
{
    if a < b {
        Ordering::Less
    } else if a == b {
        Ordering::Equal
    } else {
        Ordering::Greater
    }
}

fn compare_u8(a: u8, b: u8) -> (r: Ordering)
    ensures
        r == order_u8(a, b),
{
    if a < b {
        Ordering::Less
    } else if a == b {
        Ordering::Equal
    } else {
        Ordering::Greater
    }
}

/// Present values first, in the sort direction; missing values last in either direction.
pub fn compare_optional(left: Option<i64>, right: Option<i64>, direction: TaskSortDirection) -> (r:
    Ordering)
    ensures
        r == opt_order_i64(left, right, direction),
{
    match (left, right) {
        (Some(l), Some(r)) => direction.apply(compare_i64(l, r)),
        (Some(_), None) => Ordering::Less,
        (None, Some(_)) => Ordering::Greater,
        (None, None) => Ordering::Equal,
    }
}

/// `compare_optional` for percentages.
pub fn compare_optional_percent(
    left: Option<u8>,
    right: Option<u8>,
    direction: TaskSortDirection,
) -> (r: Ordering)
    ensures
        r == opt_order_u8(left, right, direction),
{
    match (left, right) {
        (Some(l), Some(r)) => direction.apply(compare_u8(l, r)),
        (Some(_), None) => Ordering::Less,
        (None, Some(_)) => Ordering::Greater,
        (None, None) => Ordering::Equal,
    }
}

/// How one column orders two tasks.
pub fn compare_tasks(
    left: &DownloadTask,
    right: &DownloadTask,
    column: TaskSortColumn,
    direction: TaskSortDirection,
) -> (r: Ordering)
    ensures
        r == column_order(*left, *right, column, direction),
{
    match column {
        TaskSortColumn::Title => direction.apply(
            compare_lexicographic(task_title(left), task_title(right)),
        ),
        TaskSortColumn::Status => direction.apply(
            compare_u8(status_rank(left.status), status_rank(right.status)),
        ),
        TaskSortColumn::Progress => compare_optional_percent(
            left.progress_percent,
            right.progress_percent,
            direction,
        ),
        TaskSortColumn::Size => direction.apply(
            compare_i64(task_size_value(left), task_size_value(right)),
        ),
        TaskSortColumn::Speed => compare_optional(
            left.speed_bytes_per_second,
            right.speed_bytes_per_second,
            direction,
        ),
        TaskSortColumn::Eta => compare_optional(left.eta_seconds, right.eta_seconds, direction),
        TaskSortColumn::UpdatedAt => direction.apply(
            compare_i64(left.updated_at, right.updated_at),
        ),
        TaskSortColumn::TargetPath => direction.apply(
            compare_lexicographic(left.target_path.as_str(), right.target_path.as_str()),
        ),
    }
}

/// The position `i` as a mathematical integer.
pub open spec fn pos(i: usize) -> int {
    i as int
}

/// Whether the position `v` occurs in `r`.
pub open spec fn listed(r: Seq<usize>, v: int) -> bool {
    exists|a: int| 0 <= a < r.len() && r[a] == v
}

/// Whether `r` is `0, 1, ..., n - 1`.
pub open spec fn identity_rows(r: Seq<usize>, n: nat) -> bool {
    &&& r.len() == n
    &&& forall|a: int| 0 <= a < r.len() ==> #[trigger] row_at(r, a) == a
}

/// Compares the rows at positions `i` and `j`: by the column, then by task id,
/// then by position.
fn compare_rows(
    tasks: &[DownloadTask],
    i: usize,
    j: usize,
    column: TaskSortColumn,
    direction: TaskSortDirection,
) -> (r: Ordering)
    requires
        i < tasks@.len(),
        j < tasks@.len(),
    ensures
        r == row_order(tasks@, pos(i), pos(j), column, direction),
{
    let by_column = compare_tasks(&tasks[i], &tasks[j], column, direction);
    match by_column {
        Ordering::Equal => {
            let by_id = compare_i64(tasks[i].id, tasks[j].id);
            match by_id {
                Ordering::Equal => {
                    if i < j {
                        Ordering::Less
                    } else if i == j {
                        Ordering::Equal
                    } else {
                        Ordering::Greater
                    }
                },
                _ => by_id,
            }
        },
        _ => by_column,
    }
}

fn is_greater(o: Ordering) -> (r: bool)
    ensures
        r == (o == Ordering::Greater),
{
    match o {
        Ordering::Greater => true,
        _ => false,
    }
}

/// The positions of `tasks` in display order. Without a column, or with the
/// `Reset` direction, the loaded order is kept; otherwise rows are sorted by the
/// column in the given direction, ties broken by task id and then by position.
pub fn sorted_task_indices(
    tasks: &[DownloadTask],
    column: Option<TaskSortColumn>,
    direction: TaskSortDirection,
) -> (r: Vec<usize>)
    ensures
        (column is None || direction == TaskSortDirection::Reset) ==> identity_rows(
            r@,
            tasks@.len(),
        ),
        column matches Some(c) ==> (direction != TaskSortDirection::Reset ==> sorted_rows(
            tasks@,
            r@,
            c,
            direction,
        )),
        forall|v: int| 0 <= v < tasks@.len() ==> #[trigger] listed(r@, v),
{
    let n = tasks.len();
    let c = match column {
        Some(c) => {
            if direction == TaskSortDirection::Reset {
                return identity_indices(n);
            }
            c
        },
        None => {
            return identity_indices(n);
        },
    };
    let mut r: Vec<usize> = Vec::new();
    let mut k: usize = 0;
    while k < n
        invariant
            n == tasks@.len(),
            k <= n,
            r@.len() == k,
            forall|a: int| 0 <= a < r@.len() ==> #[trigger] r@[a] < k,
            forall|v: int| 0 <= v < k ==> #[trigger] listed(r@, v),
            forall|a: int, b: int|
                0 <= a < b < r@.len() ==> row_order(
                    tasks@,
                    #[trigger] row_at(r@, a),
                    #[trigger] row_at(r@, b),
                    c,
                    direction,
                ) == Ordering::Less,
        decreases n - k,
    {
        let mut p: usize = r.len();
        while p > 0 && is_greater(compare_rows(tasks, r[p - 1], k, c, direction))
            invariant
                n == tasks@.len(),
                k < n,
                p <= r@.len(),
                forall|a: int| 0 <= a < r@.len() ==> #[trigger] r@[a] < k,
                forall|q: int|
                    p <= q < r@.len() ==> row_order(tasks@, #[trigger] row_at(r@, q), pos(k), c, direction)
                        == Ordering::Greater,
            decreases p,
        {
            p = p - 1;
        }
        let ghost old_r = r@;
        proof {
            if p > 0 {
                let last = row_at(old_r, p - 1);
                assert(old_r[p - 1] < k);
                lemma_row_order_properties(tasks@, last, pos(k), pos(k), c, direction);
            }
        }
        r.insert(p, k);
        proof {
            assert(r@ == old_r.insert(pos(p), k));
            assert forall|a: int, b: int|
                0 <= a < b < r@.len() implies row_order(
                    tasks@,
                    #[trigger] row_at(r@, a),
                    #[trigger] row_at(r@, b),
                    c,
                    direction,
                ) == Ordering::Less by {
                if b < p {
                    assert(row_at(r@, a) == row_at(old_r, a));
                    assert(row_at(r@, b) == row_at(old_r, b));
                } else if a > p {
                    assert(row_at(r@, a) == row_at(old_r, a - 1));
                    assert(row_at(r@, b) == row_at(old_r, b - 1));
                } else if a < p && b > p {
                    assert(row_at(r@, a) == row_at(old_r, a));
                    assert(row_at(r@, b) == row_at(old_r, b - 1));
                } else if a < p && b == p {
                    assert(row_at(r@, b) == k);
                    assert(row_at(r@, a) == row_at(old_r, a));
                    let last = row_at(old_r, p - 1);
                    assert(old_r[a] < k);
                    assert(old_r[p - 1] < k);
                    if a < p - 1 {
                        assert(row_order(tasks@, row_at(old_r, a), last, c, direction) == Ordering::Less);
                    }
                    lemma_row_order_properties(tasks@, row_at(old_r, a), last, pos(k), c, direction);
                } else {
                    assert(a == p);
                    assert(row_at(r@, a) == k);
                    assert(row_at(r@, b) == row_at(old_r, b - 1));
                    assert(old_r[b - 1] < k);
                    assert(row_order(tasks@, row_at(old_r, b - 1), pos(k), c, direction) == Ordering::Greater);
                    lemma_row_order_properties(tasks@, pos(k), row_at(old_r, b - 1), pos(k), c, direction);
                }
            }
            assert forall|v: int| 0 <= v < k + 1 implies #[trigger] listed(r@, v) by {
                if v == k {
                    assert(r@[pos(p)] == v);
                } else {
                    assert(listed(old_r, v));
                    let a = choose|a: int| 0 <= a < old_r.len() && old_r[a] == v;
                    if a < p {
                        assert(r@[a] == v);
                    } else {
                        assert(r@[a + 1] == v);
                    }
                }
            }
        }
        k = k + 1;
    }
    r
}

/// `0, 1, ..., n - 1`.
pub(crate) fn identity_indices(n: usize) -> (r: Vec<usize>)
    ensures
        identity_rows(r@, n as nat),
        forall|v: int| 0 <= v < n ==> #[trigger] listed(r@, v),
{
    let mut r: Vec<usize> = Vec::new();
    let mut i: usize = 0;
    while i < n
        invariant
            i <= n,
            r@.len() == i,
            forall|a: int| 0 <= a < r@.len() ==> #[trigger] row_at(r@, a) == a,
        decreases n - i,
    {
        let ghost before = r@;
        r.push(i);
        assert forall|a: int| 0 <= a < r@.len() implies #[trigger] row_at(r@, a) == a by {
            if a < i {
                assert(row_at(before, a) == a);
            }
        }
        i = i + 1;
    }
    assert forall|v: int| 0 <= v < n implies #[trigger] listed(r@, v) by {
        assert(row_at(r@, v) == v);
    }
    r
}

/// Whether some task is neither finished nor paused.
pub open spec fn any_active(tasks: Seq<DownloadTask>) -> bool {
    exists|i: int|
        0 <= i < tasks.len() && !terminal(#[trigger] tasks[i].status) && tasks[i].status
            != DownloadTaskStatus::Paused
}

pub fn has_active_tasks(tasks: &[DownloadTask]) -> (r: bool)
    ensures
        r == any_active(tasks@),
{
    let mut i: usize = 0;
    while i < tasks.len()
        invariant
            i <= tasks@.len(),
            forall|j: int|
                0 <= j < i ==> terminal(#[trigger] tasks@[j].status) || tasks@[j].status
                    == DownloadTaskStatus::Paused,
        decreases tasks.len() - i,
    {
        if !tasks[i].status.is_terminal() && tasks[i].status != DownloadTaskStatus::Paused {
            return true;
        }
        i = i + 1;
    }
    false
}

/// Law: rows sorted by a column list every position of `tasks` exactly once;
/// each row comes no later in the column's order than any row after it; rows
/// equal in the column are ordered by task id and then by position; rows missing
/// a progress, speed or remaining time come after those that have one, in either
/// direction; and present values rise in an ascending sort and fall in a
/// descending one.
pub proof fn law_sorted_task_rows(
    tasks: Seq<DownloadTask>,
    r: Seq<usize>,
    c: TaskSortColumn,
    d: TaskSortDirection,
    a: int,
    b: int,
)
    requires
        sorted_rows(tasks, r, c, d),
        forall|v: int| 0 <= v < tasks.len() ==> #[trigger] listed(r, v),
        0 <= a < b < r.len(),
    ensures
        r.len() == tasks.len(),
        row_at(r, a) != row_at(r, b),
        column_order(tasks[row_at(r, a)], tasks[row_at(r, b)], c, d) != Ordering::Greater,
        column_order(tasks[row_at(r, a)], tasks[row_at(r, b)], c, d) == Ordering::Equal ==> tasks[row_at(
            r,
            a,
        )].id <= tasks[row_at(r, b)].id,
        column_order(tasks[row_at(r, a)], tasks[row_at(r, b)], c, d) == Ordering::Equal && tasks[row_at(
            r,
            a,
        )].id == tasks[row_at(r, b)].id ==> row_at(r, a) < row_at(r, b),
        c == TaskSortColumn::Progress && tasks[row_at(r, a)].progress_percent is None ==> tasks[row_at(
            r,
            b,
        )].progress_percent is None,
        c == TaskSortColumn::Speed && tasks[row_at(r, a)].speed_bytes_per_second is None ==> tasks[row_at(
            r,
            b,
        )].speed_bytes_per_second is None,
        c == TaskSortColumn::Eta && tasks[row_at(r, a)].eta_seconds is None ==> tasks[row_at(
            r,
            b,
        )].eta_seconds is None,
        c == TaskSortColumn::Progress && tasks[row_at(r, a)].progress_percent is Some && tasks[row_at(r, b)].progress_percent is Some ==> (d
            == TaskSortDirection::Descending ==> tasks[row_at(r, a)].progress_percent->0 >= tasks[row_at(r, b)].progress_percent->0)
            && (d != TaskSortDirection::Descending ==> tasks[row_at(r, a)].progress_percent->0 <= tasks[row_at(r, b)].progress_percent->0),
        c == TaskSortColumn::Speed && tasks[row_at(r, a)].speed_bytes_per_second is Some && tasks[row_at(r, b)].speed_bytes_per_second is Some ==> (d
            == TaskSortDirection::Descending ==> tasks[row_at(r, a)].speed_bytes_per_second->0 >= tasks[row_at(r, b)].speed_bytes_per_second->0)
            && (d != TaskSortDirection::Descending ==> tasks[row_at(r, a)].speed_bytes_per_second->0 <= tasks[row_at(r, b)].speed_bytes_per_second->0),
        c == TaskSortColumn::Eta && tasks[row_at(r, a)].eta_seconds is Some && tasks[row_at(r, b)].eta_seconds is Some ==> (d
            == TaskSortDirection::Descending ==> tasks[row_at(r, a)].eta_seconds->0 >= tasks[row_at(r, b)].eta_seconds->0)
            && (d != TaskSortDirection::Descending ==> tasks[row_at(r, a)].eta_seconds->0 <= tasks[row_at(r, b)].eta_seconds->0),
        c == TaskSortColumn::Title ==> (d == TaskSortDirection::Descending ==> lex_order(
            title_of(tasks[row_at(r, a)]),
            title_of(tasks[row_at(r, b)]),
        ) != Ordering::Less) && (d != TaskSortDirection::Descending ==> lex_order(
            title_of(tasks[row_at(r, a)]),
            title_of(tasks[row_at(r, b)]),
        ) != Ordering::Greater),
        c == TaskSortColumn::TargetPath ==> (d == TaskSortDirection::Descending ==> lex_order(
            tasks[row_at(r, a)].target_path@,
            tasks[row_at(r, b)].target_path@,
        ) != Ordering::Less) && (d != TaskSortDirection::Descending ==> lex_order(
            tasks[row_at(r, a)].target_path@,
            tasks[row_at(r, b)].target_path@,
        ) != Ordering::Greater),
        c == TaskSortColumn::Status ==> (d == TaskSortDirection::Descending ==> status_rank_of(
            tasks[row_at(r, a)].status,
        ) >= status_rank_of(tasks[row_at(r, b)].status)) && (d != TaskSortDirection::Descending
            ==> status_rank_of(tasks[row_at(r, a)].status) <= status_rank_of(tasks[row_at(r, b)].status)),
        c == TaskSortColumn::Size ==> (d == TaskSortDirection::Descending ==> tasks[row_at(
            r,
            a,
        )].downloaded_bytes >= tasks[row_at(r, b)].downloaded_bytes) && (d != TaskSortDirection::Descending
            ==> tasks[row_at(r, a)].downloaded_bytes <= tasks[row_at(r, b)].downloaded_bytes),
        c == TaskSortColumn::UpdatedAt ==> (d == TaskSortDirection::Descending ==> tasks[row_at(
            r,
            a,
        )].updated_at >= tasks[row_at(r, b)].updated_at) && (d != TaskSortDirection::Descending ==> tasks[row_at(
            r,
            a,
        )].updated_at <= tasks[row_at(r, b)].updated_at),
{
    let i = row_at(r, a);
    let j = row_at(r, b);
    assert(row_order(tasks, i, j, c, d) == Ordering::Less);
    assert(0 <= i < tasks.len() && 0 <= j < tasks.len());
    law_row_order_is_strict_total(tasks, i, j, i, c, d);
}

} // verus!
