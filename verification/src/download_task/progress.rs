//! Putting the progress of the streams of a download together.
use crate::download_task::model::{
    empty_progress, DownloadMediaType, DownloadProgress, DownloadStage, DownloadStreamStatus, StreamProgress,
};
use crate::storage::download::{
    DownloadProgress as StoredProgress, DownloadStreamMediaType, DownloadTaskStatus, DownloadTaskStream,
    DownloadTaskWithStreams,
};
use crate::text::str_eq;
use vstd::prelude::*;

verus! {

/// Whether `x` is a value of `i64`.
pub open spec fn fits_i64(x: int) -> bool {
    i64::MIN <= x && x <= i64::MAX
}

/// An optional `i64` as an optional integer.
pub open spec fn opt_int(o: Option<i64>) -> Option<int> {
    match o {
        Some(v) => Some(v as int),
        None => None,
    }
}

/// The bytes downloaded over all streams.
pub open spec fn downloaded_sum(s: Seq<StreamProgress>) -> int
    decreases s.len(),
{
    if s.len() == 0 {
        0
    } else {
        downloaded_sum(s.drop_last()) + s.last().downloaded_bytes
    }
}

/// The known total size of every stream added up, or nothing if one stream has no
/// known total (as `Option<i64>` sums).
pub open spec fn exact_total(s: Seq<StreamProgress>) -> Option<int>
    decreases s.len(),
{
    if s.len() == 0 {
        Some(0)
    } else {
        match (exact_total(s.drop_last()), s.last().total_bytes) {
            (Some(t), Some(v)) => Some(t + v),
            _ => None,
        }
    }
}

/// The size of a stream: its known total, or else its estimate.
pub open spec fn size_or_estimate(p: StreamProgress) -> Option<i64> {
    match p.total_bytes {
        Some(v) => Some(v),
        None => p.total_bytes_estimate,
    }
}

/// The sizes or estimates of every stream added up, or nothing if one stream has
/// neither.
pub open spec fn fallback_total(s: Seq<StreamProgress>) -> Option<int>
    decreases s.len(),
{
    if s.len() == 0 {
        Some(0)
    } else {
        match (fallback_total(s.drop_last()), size_or_estimate(s.last())) {
            (Some(t), Some(v)) => Some(t + v),
            _ => None,
        }
    }
}

/// A stream that is downloading and reports a speed.
pub open spec fn is_moving(p: StreamProgress) -> bool {
    p.status == DownloadStreamStatus::Downloading && p.speed_bytes_per_second is Some
}

/// The speeds of the moving streams added up.
pub open spec fn speed_sum(s: Seq<StreamProgress>) -> int
    decreases s.len(),
{
    if s.len() == 0 {
        0
    } else if is_moving(s.last()) {
        speed_sum(s.drop_last()) + s.last().speed_bytes_per_second->Some_0
    } else {
        speed_sum(s.drop_last())
    }
}

/// Whether some stream is moving.
pub open spec fn any_moving(s: Seq<StreamProgress>) -> bool
    decreases s.len(),
{
    s.len() > 0 && (any_moving(s.drop_last()) || is_moving(s.last()))
}

/// The largest elapsed time any stream reports.
pub open spec fn max_elapsed(s: Seq<StreamProgress>) -> Option<i64>
    decreases s.len(),
{
    if s.len() == 0 {
        None
    } else {
        match (max_elapsed(s.drop_last()), s.last().elapsed_seconds) {
            (None, e) => e,
            (Some(m), None) => Some(m),
            (Some(m), Some(e)) => Some(if e >= m { e } else { m }),
        }
    }
}

/// Law: the elapsed time put together from streams is the largest one they
/// report: no stream reports more, some stream reports exactly it, and there is
/// none only when no stream reports one.
pub proof fn law_elapsed_is_largest(s: Seq<StreamProgress>)
    ensures
        forall|i: int|
            0 <= i < s.len() && (#[trigger] s[i]).elapsed_seconds is Some ==> max_elapsed(s) is Some
                && max_elapsed(s)->Some_0 >= s[i].elapsed_seconds->Some_0,
        max_elapsed(s) is Some ==> exists|i: int|
            0 <= i < s.len() && (#[trigger] s[i]).elapsed_seconds == max_elapsed(s),
    decreases s.len(),
{
    if s.len() > 0 {
        let p = s.drop_last();
        law_elapsed_is_largest(p);
        assert forall|i: int|
            0 <= i < s.len() && (#[trigger] s[i]).elapsed_seconds is Some implies max_elapsed(s) is Some
                && max_elapsed(s)->Some_0 >= s[i].elapsed_seconds->Some_0 by {
            if i < s.len() - 1 {
                assert(s[i] == p[i]);
            }
        }
        if max_elapsed(s) is Some {
            let m = max_elapsed(s)->Some_0;
            if s.last().elapsed_seconds == Some(m) {
                assert(s[s.len() - 1].elapsed_seconds == Some(m));
            } else {
                assert(max_elapsed(p) == Some(m));
                let j = choose|j: int| 0 <= j < p.len() && (#[trigger] p[j]).elapsed_seconds == Some(m);
                assert(s[j] == p[j]);
            }
        }
    }
}

/// Law: the known total exists exactly when every stream has a known total.
pub proof fn law_total_known_iff_every_stream_known(s: Seq<StreamProgress>)
    ensures
        exact_total(s) is Some <==> forall|i: int| 0 <= i < s.len() ==> (#[trigger] s[i]).total_bytes is Some,
    decreases s.len(),
{
    if s.len() > 0 {
        let p = s.drop_last();
        law_total_known_iff_every_stream_known(p);
        if forall|i: int| 0 <= i < s.len() ==> (#[trigger] s[i]).total_bytes is Some {
            assert forall|i: int| 0 <= i < p.len() implies (#[trigger] p[i]).total_bytes is Some by {
                assert(p[i] == s[i]);
            }
            assert(s[s.len() - 1].total_bytes is Some);
        }
        if exact_total(s) is Some {
            assert forall|i: int| 0 <= i < s.len() implies (#[trigger] s[i]).total_bytes is Some by {
                if i < s.len() - 1 {
                    assert(p[i] == s[i]);
                }
            }
        }
    }
}

/// Law: the active stream is the first stream that is downloading: it is that
/// stream's key, no stream before it is downloading, and there is none only when
/// no stream is downloading.
pub proof fn law_active_is_first_downloading(s: Seq<StreamProgress>)
    ensures
        first_active(s) is Some ==> exists|i: int|
            0 <= i < s.len() && (#[trigger] s[i]).status == DownloadStreamStatus::Downloading
                && first_active(s) == Some(s[i].stream_key@) && forall|j: int|
                0 <= j < i ==> (#[trigger] s[j]).status != DownloadStreamStatus::Downloading,
        first_active(s) is None ==> forall|i: int|
            0 <= i < s.len() ==> (#[trigger] s[i]).status != DownloadStreamStatus::Downloading,
    decreases s.len(),
{
    if s.len() > 0 {
        let p = s.drop_last();
        law_active_is_first_downloading(p);
        if first_active(p) is Some {
            let i = choose|i: int|
                0 <= i < p.len() && (#[trigger] p[i]).status == DownloadStreamStatus::Downloading
                    && first_active(p) == Some(p[i].stream_key@) && forall|j: int|
                    0 <= j < i ==> (#[trigger] p[j]).status != DownloadStreamStatus::Downloading;
            assert(s[i] == p[i]);
            assert forall|j: int| 0 <= j < i implies (#[trigger] s[j]).status != DownloadStreamStatus::Downloading by {
                assert(s[j] == p[j]);
            }
        } else {
            assert forall|j: int| 0 <= j < s.len() - 1 implies (#[trigger] s[j]).status
                != DownloadStreamStatus::Downloading by {
                assert(s[j] == p[j]);
            }
            if first_active(s) is Some {
                let i = s.len() - 1;
                assert(s[i] == s.last());
            }
        }
    }
}

/// The key of the first stream that is downloading.
pub open spec fn first_active(s: Seq<StreamProgress>) -> Option<Seq<char>>
    decreases s.len(),
{
    if s.len() == 0 {
        None
    } else {
        match first_active(s.drop_last()) {
            Some(k) => Some(k),
            None => if s.last().status == DownloadStreamStatus::Downloading {
                Some(s.last().stream_key@)
            } else {
                None
            },
        }
    }
}

/// The size a progress snapshot goes by: the known total, or else the estimate.
pub open spec fn spec_total(s: Seq<StreamProgress>) -> Option<int> {
    match exact_total(s) {
        Some(t) => Some(t),
        None => fallback_total(s),
    }
}

/// The remaining time: the missing bytes over the summed speed, when the size is
/// larger than what was downloaded and the streams move.
pub open spec fn spec_eta(s: Seq<StreamProgress>) -> Option<int> {
    let d = downloaded_sum(s);
    match spec_total(s) {
        Some(t) => if t > d && any_moving(s) && speed_sum(s) > 0 {
            Some((t - d) / speed_sum(s))
        } else {
            None
        },
        None => None,
    }
}

/// Whether putting the streams `s` together stays within `i64`: every running sum
/// and the difference that the remaining time divides.
pub open spec fn aggregate_fits(s: Seq<StreamProgress>) -> bool {
    &&& forall|k: int|
        0 <= k <= s.len() ==> {
            &&& fits_i64(downloaded_sum(#[trigger] s.take(k)))
            &&& (exact_total(s.take(k)) matches Some(t) ==> fits_i64(t))
            &&& (fallback_total(s.take(k)) matches Some(t) ==> fits_i64(t))
            &&& fits_i64(speed_sum(s.take(k)))
        }
    &&& (spec_total(s) matches Some(t) ==> (t > downloaded_sum(s) && any_moving(s) && speed_sum(s) > 0
        ==> fits_i64(t - downloaded_sum(s))))
}

/// Whether `r` is the progress of download `task_id` put together from the
/// streams `s` at time `updated_at` (its percentage left unset).
pub open spec fn is_aggregate_of(r: DownloadProgress, task_id: i64, s: Seq<StreamProgress>, updated_at: i64) -> bool {
    &&& r.task_id == task_id
    &&& r.stage == DownloadStage::Downloading
    &&& r.downloaded_bytes == downloaded_sum(s)
    &&& opt_int(r.total_bytes) == exact_total(s)
    &&& opt_int(r.total_bytes_estimate) == (if exact_total(s) is None { fallback_total(s) } else { None })
    &&& r.total_is_estimate == (exact_total(s) is None && fallback_total(s) is Some)
    &&& r.speed_bytes_per_second == (if any_moving(s) { Some(speed_sum(s) as i64) } else { None })
    &&& r.elapsed_seconds == max_elapsed(s)
    &&& opt_int(r.eta_seconds) == spec_eta(s)
    &&& r.percent is None
    &&& (r.active_stream matches Some(k) ==> first_active(s) == Some(k@))
    &&& (r.active_stream is None ==> first_active(s) is None)
    &&& r.updated_at == updated_at
}

/// The progress of a download put together from the progress of its streams.
///
/// The downloaded bytes are summed; the total is the sum of the known totals, or,
/// when a stream has none, the sum of totals and estimates (then marked as an
/// estimate); the speed is the sum over the streams that are downloading; the
/// elapsed time is the largest reported; the remaining time divides the missing
/// bytes by the speed; the active stream is the first one still downloading.
/// The percentage is a floating-point rounding and is left to the caller: see
/// [`percent_basis`].
pub fn aggregate_progress(task_id: i64, streams: &[StreamProgress], updated_at: i64) -> (r: DownloadProgress)
    requires
        aggregate_fits(streams@),
    ensures
        is_aggregate_of(r, task_id, streams@, updated_at),
        forall|i: int|
            0 <= i < streams@.len() && (#[trigger] streams@[i]).elapsed_seconds is Some ==> r.elapsed_seconds is Some
                && r.elapsed_seconds->Some_0 >= streams@[i].elapsed_seconds->Some_0,
        r.elapsed_seconds is Some ==> exists|i: int|
            0 <= i < streams@.len() && (#[trigger] streams@[i]).elapsed_seconds == r.elapsed_seconds,
        r.total_bytes is Some <==> forall|i: int|
            0 <= i < streams@.len() ==> (#[trigger] streams@[i]).total_bytes is Some,
        r.active_stream is Some ==> exists|i: int|
            0 <= i < streams@.len() && (#[trigger] streams@[i]).status == DownloadStreamStatus::Downloading
                && r.active_stream->Some_0@ == streams@[i].stream_key@ && forall|j: int|
                0 <= j < i ==> (#[trigger] streams@[j]).status != DownloadStreamStatus::Downloading,
        r.active_stream is None ==> forall|i: int|
            0 <= i < streams@.len() ==> (#[trigger] streams@[i]).status != DownloadStreamStatus::Downloading,
{
    let ghost s = streams@;
    let mut downloaded: i64 = 0;
    let mut exact: Option<i64> = Some(0);
    let mut fallback: Option<i64> = Some(0);
    let mut speed: i64 = 0;
    let mut moving = false;
    let mut elapsed: Option<i64> = None;
    let mut active: Option<usize> = None;
    let mut i: usize = 0;
    assert(s.take(0) =~= Seq::<StreamProgress>::empty());
    while i < streams.len()
        invariant
            s == streams@,
            i <= s.len(),
            aggregate_fits(s),
            downloaded == downloaded_sum(s.take(i as int)),
            opt_int(exact) == exact_total(s.take(i as int)),
            opt_int(fallback) == fallback_total(s.take(i as int)),
            speed == speed_sum(s.take(i as int)),
            moving == any_moving(s.take(i as int)),
            elapsed == max_elapsed(s.take(i as int)),
            active matches Some(a) ==> a < i && s[a as int].status == DownloadStreamStatus::Downloading
                && first_active(s.take(i as int)) == Some(s[a as int].stream_key@),
            active is None ==> first_active(s.take(i as int)) is None,
        decreases s.len() - i,
    {
        let p = &streams[i];
        let ghost next = s.take(i + 1);
        assert(next.drop_last() =~= s.take(i as int));
        assert(next.last() == *p);
        assert(fits_i64(downloaded_sum(s.take(i + 1))));
        downloaded = downloaded + p.downloaded_bytes;
        exact = match (exact, p.total_bytes) {
            (Some(t), Some(v)) => {
                assert(exact_total(s.take(i + 1)) == Some(t + v));
                Some(t + v)
            },
            _ => None,
        };
        let size = match p.total_bytes {
            Some(v) => Some(v),
            None => p.total_bytes_estimate,
        };
        fallback = match (fallback, size) {
            (Some(t), Some(v)) => {
                assert(fallback_total(s.take(i + 1)) == Some(t + v));
                Some(t + v)
            },
            _ => None,
        };
        if p.status == DownloadStreamStatus::Downloading {
            match p.speed_bytes_per_second {
                Some(v) => {
                    assert(fits_i64(speed_sum(s.take(i + 1))));
                    speed = speed + v;
                    moving = true;
                },
                None => {},
            }
        }
        elapsed = match (elapsed, p.elapsed_seconds) {
            (None, e) => e,
            (Some(m), None) => Some(m),
            (Some(m), Some(e)) => Some(if e >= m { e } else { m }),
        };
        if active.is_none() && p.status == DownloadStreamStatus::Downloading {
            active = Some(i);
        }
        i = i + 1;
    }
    assert(s.take(s.len() as int) =~= s);
    proof {
        law_elapsed_is_largest(s);
        law_total_known_iff_every_stream_known(s);
        law_active_is_first_downloading(s);
    }
    let total_bytes = exact;
    let total_bytes_estimate = if total_bytes.is_none() {
        fallback
    } else {
        None
    };
    let total = match total_bytes {
        Some(t) => Some(t),
        None => total_bytes_estimate,
    };
    let speed_bytes_per_second = if moving {
        Some(speed)
    } else {
        None
    };
    let eta_seconds = match total {
        Some(t) => if t > downloaded {
            match speed_bytes_per_second {
                Some(sp) => if sp > 0 {
                    Some((t - downloaded) / sp)
                } else {
                    None
                },
                None => None,
            }
        } else {
            None
        },
        None => None,
    };
    let active_stream = match active {
        Some(a) => Some(streams[a].stream_key.clone()),
        None => None,
    };
    DownloadProgress {
        task_id,
        stage: DownloadStage::Downloading,
        downloaded_bytes: downloaded,
        total_bytes,
        total_bytes_estimate,
        speed_bytes_per_second,
        elapsed_seconds: elapsed,
        eta_seconds,
        percent: None,
        total_is_estimate: total_bytes_estimate.is_some(),
        active_stream,
        updated_at,
    }
}

/// The sum of two `i64`, when it is one.
fn add_i64(a: i64, b: i64) -> (r: Option<i64>)
    ensures
        r matches Some(v) ==> v == a + b,
        r is None ==> !fits_i64(a + b),
{
    a.checked_add(b)
}

/// The sum of two optional sizes, when both are there and the sum is an `i64`;
/// `Err` when it is not.
fn add_opt(total: Option<i64>, v: Option<i64>) -> (r: Result<Option<i64>, ()>)
    ensures
        r matches Ok(Some(x)) ==> (total matches Some(t) && v matches Some(w) && x == t + w),
        r matches Ok(None) ==> (total is None || v is None),
        r is Err ==> (total matches Some(t) && v matches Some(w) && !fits_i64(t + w)),
{
    match (total, v) {
        (Some(t), Some(w)) => match add_i64(t, w) {
            Some(x) => Ok(Some(x)),
            None => Err(()),
        },
        _ => Ok(None),
    }
}

/// Whether putting the streams together stays within `i64`, as
/// `aggregate_progress` needs.
pub fn aggregate_within_range(streams: &[StreamProgress]) -> (r: bool)
    ensures
        r == aggregate_fits(streams@),
{
    let ghost s = streams@;
    let mut downloaded: i64 = 0;
    let mut exact: Option<i64> = Some(0);
    let mut fallback: Option<i64> = Some(0);
    let mut speed: i64 = 0;
    let mut moving = false;
    let mut i: usize = 0;
    assert(s.take(0) =~= Seq::<StreamProgress>::empty());
    while i < streams.len()
        invariant
            s == streams@,
            i <= s.len(),
            downloaded == downloaded_sum(s.take(i as int)),
            opt_int(exact) == exact_total(s.take(i as int)),
            opt_int(fallback) == fallback_total(s.take(i as int)),
            speed == speed_sum(s.take(i as int)),
            moving == any_moving(s.take(i as int)),
            forall|k: int|
                0 <= k <= i ==> {
                    &&& fits_i64(downloaded_sum(#[trigger] s.take(k)))
                    &&& (exact_total(s.take(k)) matches Some(t) ==> fits_i64(t))
                    &&& (fallback_total(s.take(k)) matches Some(t) ==> fits_i64(t))
                    &&& fits_i64(speed_sum(s.take(k)))
                },
        decreases s.len() - i,
    {
        let p = &streams[i];
        let ghost next = s.take(i + 1);
        assert(next.drop_last() =~= s.take(i as int));
        assert(next.last() == *p);
        downloaded = match add_i64(downloaded, p.downloaded_bytes) {
            Some(v) => v,
            None => {
                return false;
            },
        };
        exact = match add_opt(exact, p.total_bytes) {
            Ok(v) => v,
            Err(()) => {
                return false;
            },
        };
        let size = match p.total_bytes {
            Some(v) => Some(v),
            None => p.total_bytes_estimate,
        };
        fallback = match add_opt(fallback, size) {
            Ok(v) => v,
            Err(()) => {
                return false;
            },
        };
        if p.status == DownloadStreamStatus::Downloading {
            match p.speed_bytes_per_second {
                Some(v) => {
                    speed = match add_i64(speed, v) {
                        Some(x) => x,
                        None => {
                            return false;
                        },
                    };
                    moving = true;
                },
                None => {},
            }
        }
        i = i + 1;
    }
    assert(s.take(s.len() as int) =~= s);
    let total = match exact {
        Some(t) => Some(t),
        None => fallback,
    };
    match total {
        Some(t) => {
            if t > downloaded && moving && speed > 0 {
                t.checked_sub(downloaded).is_some()
            } else {
                true
            }
        },
        None => true,
    }
}

/// What the percentage of a progress snapshot is computed from: the downloaded
/// bytes and the size (the total, or else the estimate), when the size is positive.
pub fn percent_basis(progress: &DownloadProgress) -> (r: Option<(i64, i64)>)
    ensures
        r == (match (match progress.total_bytes {
            Some(t) => Some(t),
            None => progress.total_bytes_estimate,
        }) {
            Some(t) => if t > 0 {
                Some((progress.downloaded_bytes, t))
            } else {
                None
            },
            None => None,
        }),
{
    let total = match progress.total_bytes {
        Some(t) => Some(t),
        None => progress.total_bytes_estimate,
    };
    match total {
        Some(t) => if t > 0 {
            Some((progress.downloaded_bytes, t))
        } else {
            None
        },
        None => None,
    }
}

/// The first stream of `s` whose key is `key`.
pub open spec fn first_with_key(s: Seq<StreamProgress>, key: Seq<char>) -> Option<int>
    decreases s.len(),
{
    if s.len() == 0 {
        None
    } else {
        match first_with_key(s.drop_last(), key) {
            Some(i) => Some(i),
            None => if s.last().stream_key@ == key {
                Some(s.len() - 1)
            } else {
                None
            },
        }
    }
}

proof fn lemma_first_with_key(s: Seq<StreamProgress>, key: Seq<char>)
    ensures
        first_with_key(s, key) matches Some(i) ==> 0 <= i < s.len() && s[i].stream_key@ == key && forall|
            j: int,
        | 0 <= j < i ==> (#[trigger] s[j]).stream_key@ != key,
        first_with_key(s, key) is None ==> forall|j: int|
            0 <= j < s.len() ==> (#[trigger] s[j]).stream_key@ != key,
    decreases s.len(),
{
    if s.len() > 0 {
        lemma_first_with_key(s.drop_last(), key);
        assert forall|j: int| 0 <= j < s.len() - 1 implies s.drop_last()[j] == s[j] by {}
    }
}

/// The start time a stream update gets: the one recorded for the stream, or now.
pub open spec fn spec_started_at(s: Seq<StreamProgress>, key: Seq<char>, now: i64) -> Option<i64> {
    match first_with_key(s, key) {
        Some(i) => match s[i].started_at {
            Some(t) => Some(t),
            None => Some(now),
        },
        None => Some(now),
    }
}

/// Whether `b` is `a` with other start and finish times.
pub open spec fn same_but_times(a: StreamProgress, b: StreamProgress) -> bool {
    &&& b.stream_key@ == a.stream_key@
    &&& b.format_id == a.format_id
    &&& b.media_type == a.media_type
    &&& b.status == a.status
    &&& b.downloaded_bytes == a.downloaded_bytes
    &&& b.total_bytes == a.total_bytes
    &&& b.total_bytes_estimate == a.total_bytes_estimate
    &&& b.speed_bytes_per_second == a.speed_bytes_per_second
    &&& b.elapsed_seconds == a.elapsed_seconds
    &&& b.eta_seconds == a.eta_seconds
    &&& b.percent == a.percent
}

/// A stream update with its times: the start time recorded for the stream in
/// `s` (or now, the first time it is seen), and now as finish time when it
/// finished.
pub open spec fn stamped(s: Seq<StreamProgress>, p: StreamProgress, now: i64) -> StreamProgress {
    StreamProgress {
        started_at: spec_started_at(s, p.stream_key@, now),
        finished_at: if p.status == DownloadStreamStatus::Finished {
            Some(now)
        } else {
            p.finished_at
        },
        ..p
    }
}

/// The streams after an update is recorded: the stamped update takes the place
/// of the stream with its key, or follows the others when the stream is new.
pub open spec fn recorded(s: Seq<StreamProgress>, p: StreamProgress, now: i64) -> Seq<StreamProgress> {
    match first_with_key(s, p.stream_key@) {
        Some(i) => s.update(i, stamped(s, p, now)),
        None => s.push(stamped(s, p, now)),
    }
}

/// Gives a stream update its times: the start time recorded for the stream (or
/// now, the first time it is seen), and now as finish time when it finished.
pub fn update_stream_timestamps(streams: &[StreamProgress], progress: &mut StreamProgress, now: i64)
    ensures
        *final(progress) == stamped(streams@, *old(progress), now),
        same_but_times(*old(progress), *final(progress)),
        final(progress).started_at == spec_started_at(streams@, old(progress).stream_key@, now),
        final(progress).finished_at == (if old(progress).status == DownloadStreamStatus::Finished {
            Some(now)
        } else {
            old(progress).finished_at
        }),
{
    let ghost s = streams@;
    let mut found: Option<usize> = None;
    let mut i: usize = 0;
    while i < streams.len()
        invariant
            s == streams@,
            i <= s.len(),
            found is None ==> first_with_key(s.take(i as int), progress.stream_key@) is None,
            found matches Some(f) ==> f < s.len() && first_with_key(s, progress.stream_key@) == Some(f as int),
        decreases s.len() - i,
    {
        assert(s.take(i + 1).drop_last() =~= s.take(i as int));
        if found.is_none() && str_eq(streams[i].stream_key.as_str(), progress.stream_key.as_str()) {
            proof {
                lemma_first_with_key(s.take(i + 1), progress.stream_key@);
                lemma_first_with_key(s, progress.stream_key@);
                let k = first_with_key(s, progress.stream_key@);
                if k != Some(i as int) {
                    assert(s.take(i + 1)[i as int] == s[i as int]);
                    assert forall|j: int| 0 <= j < i implies s[j].stream_key@ != progress.stream_key@ by {
                        assert(s.take(i as int)[j] == s[j]);
                        lemma_first_with_key(s.take(i as int), progress.stream_key@);
                    }
                }
            }
            found = Some(i);
        }
        i = i + 1;
    }
    proof {
        assert(s.take(s.len() as int) =~= s);
    }
    let started = match found {
        Some(f) => match streams[f].started_at {
            Some(t) => Some(t),
            None => Some(now),
        },
        None => Some(now),
    };
    progress.started_at = started;
    if progress.status == DownloadStreamStatus::Finished {
        progress.finished_at = Some(now);
    }
}

/// Whether no two streams of `s` share a key.
pub open spec fn keys_unique(s: Seq<StreamProgress>) -> bool {
    forall|i: int, j: int|
        0 <= i < j < s.len() ==> (#[trigger] s[i]).stream_key@ != (#[trigger] s[j]).stream_key@
}

/// Records a stream update among the streams seen so far: the update gets its
/// times, then takes the place of the stream with the same key, or is added
/// after the others when its stream is new. Returns where it stands.
pub fn record_stream_progress(streams: &mut Vec<StreamProgress>, progress: StreamProgress, now: i64) -> (idx:
    usize)
    ensures
        idx < final(streams)@.len(),
        same_but_times(progress, final(streams)@[idx as int]),
        final(streams)@[idx as int].started_at == spec_started_at(old(streams)@, progress.stream_key@, now),
        final(streams)@[idx as int].finished_at == (if progress.status == DownloadStreamStatus::Finished {
            Some(now)
        } else {
            progress.finished_at
        }),
        match first_with_key(old(streams)@, progress.stream_key@) {
            Some(i) => idx == i && final(streams)@.len() == old(streams)@.len(),
            None => idx == old(streams)@.len() && final(streams)@.len() == old(streams)@.len() + 1,
        },
        forall|j: int| 0 <= j < old(streams)@.len() && j != idx ==> #[trigger] final(streams)@[j] == old(
            streams,
        )@[j],
        first_with_key(final(streams)@, progress.stream_key@) == Some(idx as int),
        keys_unique(old(streams)@) ==> keys_unique(final(streams)@),
        final(streams)@ == recorded(old(streams)@, progress, now),
{
    let ghost orig = progress;
    let ghost s = streams@;
    let mut update = progress;
    update_stream_timestamps(streams.as_slice(), &mut update, now);
    let ghost key = update.stream_key@;
    proof {
        lemma_first_with_key(s, key);
    }
    let mut i: usize = 0;
    while i < streams.len()
        invariant
            s == streams@,
            key == update.stream_key@,
            key == orig.stream_key@,
            orig == progress,
            s == old(streams)@,
            same_but_times(orig, update),
            update == stamped(s, orig, now),
            update.started_at == spec_started_at(s, key, now),
            update.finished_at == (if orig.status == DownloadStreamStatus::Finished {
                Some(now)
            } else {
                orig.finished_at
            }),
            i <= s.len(),
            forall|j: int| 0 <= j < i ==> (#[trigger] s[j]).stream_key@ != key,
        decreases s.len() - i,
    {
        if str_eq(streams[i].stream_key.as_str(), update.stream_key.as_str()) {
            proof {
                lemma_first_with_key(s, key);
                if first_with_key(s, key) != Some(i as int) {
                    assert(first_with_key(s, key) is Some);
                }
            }
            streams.set(i, update);
            assert(streams@ =~= recorded(s, orig, now));
            proof {
                lemma_first_with_key(streams@, key);
                if first_with_key(streams@, key) != Some(i as int) {
                    assert(streams@[i as int].stream_key@ == key);
                }
            }
            return i;
        }
        i = i + 1;
    }
    let n = streams.len();
    streams.push(update);
    proof {
        lemma_first_with_key(streams@, key);
        assert forall|j: int| 0 <= j < n implies streams@[j].stream_key@ != key by {
            assert(streams@[j] == s[j]);
        }
        if first_with_key(streams@, key) != Some(n as int) {
            assert(streams@[n as int].stream_key@ == key);
        }
    }
    n
}

/// The progress of a download as it is written to storage.
pub fn stored_task_progress(progress: &DownloadProgress) -> (r: StoredProgress)
    ensures
        r.progress_percent == progress.percent,
        r.downloaded_bytes == progress.downloaded_bytes,
        r.total_bytes == progress.total_bytes,
        r.total_bytes_estimate == progress.total_bytes_estimate,
        r.speed_bytes_per_second == progress.speed_bytes_per_second,
        r.elapsed_seconds == progress.elapsed_seconds,
        r.eta_seconds == progress.eta_seconds,
        r.updated_at == progress.updated_at,
{
    StoredProgress {
        progress_percent: progress.percent,
        downloaded_bytes: progress.downloaded_bytes,
        total_bytes: progress.total_bytes,
        total_bytes_estimate: progress.total_bytes_estimate,
        speed_bytes_per_second: progress.speed_bytes_per_second,
        elapsed_seconds: progress.elapsed_seconds,
        eta_seconds: progress.eta_seconds,
        updated_at: progress.updated_at,
    }
}

/// The progress of one stream as it is written to storage, stamped `updated_at`.
pub fn stored_stream_progress(progress: &StreamProgress, updated_at: i64) -> (r: StoredProgress)
    ensures
        r.progress_percent == progress.percent,
        r.downloaded_bytes == progress.downloaded_bytes,
        r.total_bytes == progress.total_bytes,
        r.total_bytes_estimate == progress.total_bytes_estimate,
        r.speed_bytes_per_second == progress.speed_bytes_per_second,
        r.elapsed_seconds == progress.elapsed_seconds,
        r.eta_seconds == progress.eta_seconds,
        r.updated_at == updated_at,
{
    StoredProgress {
        progress_percent: progress.percent,
        downloaded_bytes: progress.downloaded_bytes,
        total_bytes: progress.total_bytes,
        total_bytes_estimate: progress.total_bytes_estimate,
        speed_bytes_per_second: progress.speed_bytes_per_second,
        elapsed_seconds: progress.elapsed_seconds,
        eta_seconds: progress.eta_seconds,
        updated_at,
    }
}

/// The media type of a stored stream as a download reports it.
pub open spec fn spec_media_type(m: DownloadStreamMediaType) -> DownloadMediaType {
    match m {
        DownloadStreamMediaType::Video => DownloadMediaType::Video,
        DownloadStreamMediaType::Audio => DownloadMediaType::Audio,
    }
}

/// Whether `p` is the progress of the stored stream `s`: a completed stream is
/// finished, any other is downloading; speed and times left are not kept.
pub open spec fn is_stream_from_stored(p: StreamProgress, s: DownloadTaskStream) -> bool {
    &&& p.stream_key@ == s.stream_key@
    &&& p.format_id == s.format_id
    &&& p.media_type == spec_media_type(s.media_type)
    &&& p.status == (if s.status == DownloadTaskStatus::Completed {
        DownloadStreamStatus::Finished
    } else {
        DownloadStreamStatus::Downloading
    })
    &&& p.downloaded_bytes == s.downloaded_bytes
    &&& p.total_bytes == s.total_bytes
    &&& p.total_bytes_estimate == s.total_bytes_estimate
    &&& p.speed_bytes_per_second is None
    &&& p.elapsed_seconds is None
    &&& p.eta_seconds is None
    &&& p.percent == s.progress_percent
    &&& p.started_at == s.started_at
    &&& p.finished_at == s.finished_at
}

fn stream_from_stored(stream: DownloadTaskStream) -> (p: StreamProgress)
    ensures
        is_stream_from_stored(p, stream),
{
    let ghost orig = stream;
    StreamProgress {
        stream_key: stream.stream_key,
        format_id: stream.format_id,
        media_type: match stream.media_type {
            DownloadStreamMediaType::Video => DownloadMediaType::Video,
            DownloadStreamMediaType::Audio => DownloadMediaType::Audio,
        },
        status: if stream.status == DownloadTaskStatus::Completed {
            DownloadStreamStatus::Finished
        } else {
            DownloadStreamStatus::Downloading
        },
        downloaded_bytes: stream.downloaded_bytes,
        total_bytes: stream.total_bytes,
        total_bytes_estimate: stream.total_bytes_estimate,
        speed_bytes_per_second: None,
        elapsed_seconds: None,
        eta_seconds: None,
        percent: stream.progress_percent,
        started_at: stream.started_at,
        finished_at: stream.finished_at,
    }
}

/// The progress a stored task resumes from, at stage `stage`: the task's stored
/// totals (an estimate when only the estimate is known) and its streams.
pub fn progress_from_stored(stored: DownloadTaskWithStreams, stage: DownloadStage) -> (r: (
    DownloadProgress,
    Vec<StreamProgress>,
))
    ensures
        r.0.task_id == stored.task.id,
        r.0.stage == stage,
        r.0.downloaded_bytes == stored.task.downloaded_bytes,
        r.0.total_bytes == stored.task.total_bytes,
        r.0.total_bytes_estimate == stored.task.total_bytes_estimate,
        r.0.speed_bytes_per_second is None,
        r.0.elapsed_seconds is None,
        r.0.eta_seconds is None,
        r.0.percent == stored.task.progress_percent,
        r.0.total_is_estimate == (stored.task.total_bytes is None && stored.task.total_bytes_estimate is Some),
        r.0.active_stream is None,
        r.0.updated_at == stored.task.updated_at,
        r.1@.len() == stored.streams@.len(),
        forall|i: int| 0 <= i < r.1@.len() ==> is_stream_from_stored(#[trigger] r.1@[i], stored.streams@[i]),
{
    let task = stored.task;
    let progress = DownloadProgress {
        task_id: task.id,
        stage,
        downloaded_bytes: task.downloaded_bytes,
        total_bytes: task.total_bytes,
        total_bytes_estimate: task.total_bytes_estimate,
        speed_bytes_per_second: None,
        elapsed_seconds: None,
        eta_seconds: None,
        percent: task.progress_percent,
        total_is_estimate: task.total_bytes.is_none() && task.total_bytes_estimate.is_some(),
        active_stream: None,
        updated_at: task.updated_at,
    };
    let ghost kept_streams = stored.streams@;
    let mut source = stored.streams;
    let mut reversed: Vec<StreamProgress> = Vec::new();
    while source.len() > 0
        invariant
            source@.len() + reversed@.len() == kept_streams.len(),
            source@ == kept_streams.take(source@.len() as int),
            forall|i: int|
                0 <= i < reversed@.len() ==> is_stream_from_stored(
                    #[trigger] reversed@[i],
                    kept_streams[kept_streams.len() - 1 - i],
                ),
        decreases source@.len(),
    {
        let ghost before = source@;
        let stream = source.pop().unwrap();
        assert(source@ == kept_streams.take(source@.len() as int)) by {
            assert(source@ =~= kept_streams.take(source@.len() as int));
        }
        assert(stream == kept_streams[source@.len() as int]) by {
            assert(before[before.len() - 1] == kept_streams.take(before.len() as int)[before.len() - 1]);
        }
        reversed.push(stream_from_stored(stream));
    }
    let mut streams: Vec<StreamProgress> = Vec::new();
    while reversed.len() > 0
        invariant
            reversed@.len() + streams@.len() == kept_streams.len(),
            forall|i: int|
                0 <= i < reversed@.len() ==> is_stream_from_stored(
                    #[trigger] reversed@[i],
                    kept_streams[kept_streams.len() - 1 - i],
                ),
            forall|i: int| 0 <= i < streams@.len() ==> is_stream_from_stored(#[trigger] streams@[i], kept_streams[i]),
        decreases reversed@.len(),
    {
        let ghost k = reversed@.len() - 1;
        let p = reversed.pop().unwrap();
        assert(is_stream_from_stored(p, kept_streams[kept_streams.len() - 1 - k]));
        streams.push(p);
    }
    (progress, streams)
}

/// The progress of a download entering stage `stage`: the last snapshot (or an
/// empty one when there is none) with the new stage and time and no active stream.
pub fn stage_progress(latest: Option<DownloadProgress>, task_id: i64, stage: DownloadStage, updated_at: i64) -> (r:
    DownloadProgress)
    ensures
        r.stage == stage,
        r.updated_at == updated_at,
        r.active_stream is None,
        latest is None ==> r.task_id == task_id && r.downloaded_bytes == 0 && r.total_bytes is None
            && r.total_bytes_estimate is None && r.speed_bytes_per_second is None && r.elapsed_seconds is None
            && r.eta_seconds is None && r.percent is None && !r.total_is_estimate,
        latest matches Some(l) ==> r.task_id == l.task_id && r.downloaded_bytes == l.downloaded_bytes
            && r.total_bytes == l.total_bytes && r.total_bytes_estimate == l.total_bytes_estimate
            && r.speed_bytes_per_second == l.speed_bytes_per_second && r.elapsed_seconds == l.elapsed_seconds
            && r.eta_seconds == l.eta_seconds && r.percent == l.percent && r.total_is_estimate
            == l.total_is_estimate,
{
    let mut progress = match latest {
        Some(l) => l,
        None => empty_progress(task_id, stage, updated_at),
    };
    progress.stage = stage;
    progress.updated_at = updated_at;
    progress.active_stream = None;
    progress
}

/// The progress of a download that completed: the last snapshot at the completed
/// stage, at a full percentage.
pub fn completed_progress(latest: Option<DownloadProgress>, task_id: i64, updated_at: i64) -> (r: DownloadProgress)
    ensures
        r.stage == DownloadStage::Completed,
        r.percent == Some(100u8),
        r.updated_at == updated_at,
        r.active_stream is None,
        latest is None ==> r.task_id == task_id && r.downloaded_bytes == 0,
        latest matches Some(l) ==> r.task_id == l.task_id && r.downloaded_bytes == l.downloaded_bytes
            && r.total_bytes == l.total_bytes && r.total_bytes_estimate == l.total_bytes_estimate,
{
    let mut progress = stage_progress(latest, task_id, DownloadStage::Completed, updated_at);
    progress.percent = Some(100);
    progress.active_stream = None;
    progress
}

} // verus!
