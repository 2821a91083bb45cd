//! A running download, step by step: each line of the process's output comes
//! in, and what is to be recorded and reported goes out. Storage writes, the
//! process itself and the floating-point percentage are the caller's part.
use crate::download_task::error::DownloadTaskError;
use crate::download_task::model::{empty_progress, DownloadProgress, DownloadStage, DownloadStreamStatus, StreamProgress};
use crate::download_task::outcome::final_output_path;
use crate::download_task::progress::{
    aggregate_fits, aggregate_progress, aggregate_within_range, completed_progress, is_aggregate_of, keys_unique, record_stream_progress, recorded,
    stage_progress, stamped,
};
use vstd::prelude::*;

verus! {

/// What one line of download output says.
#[derive(Debug, Clone, PartialEq, Eq)]
pub enum DownloadOutput {
    Progress(StreamProgress),
    Merging,
    OutputPath(String),
}

/// A running download: its task, the streams seen so far, the last progress
/// reported and the last output path the process printed.
pub struct DownloadRun {
    pub task_id: i64,
    pub streams: Vec<StreamProgress>,
    pub latest: Option<DownloadProgress>,
    pub output_path: Option<String>,
}

/// What a line of output asks for.
pub enum RunStep {
    /// Record and report the stream's progress and the download's; a write is
    /// due whatever the time since the last one when the stream finished.
    Progress { stream: StreamProgress, task: DownloadProgress, force_write: bool },
    /// Record that merging started.
    Merging,
    /// Nothing to record or report.
    Quiet,
}

/// How a run ends, once the process has.
pub enum RunEnd {
    /// Record the completed download with its file and final progress, then
    /// report them.
    Complete { output_path: String, progress: DownloadProgress },
    /// Record the cancellation, then report it.
    Cancel,
    /// Record the failure, then report it.
    Fail(DownloadTaskError),
}

fn copy_text(value: &Option<String>) -> (r: Option<String>)
    ensures
        r == *value,
{
    match value {
        Some(s) => Some(s.clone()),
        None => None,
    }
}

fn copy_stream(p: &StreamProgress) -> (c: StreamProgress)
    ensures
        c == *p,
{
    StreamProgress {
        stream_key: p.stream_key.clone(),
        format_id: copy_text(&p.format_id),
        media_type: p.media_type,
        status: p.status,
        downloaded_bytes: p.downloaded_bytes,
        total_bytes: p.total_bytes,
        total_bytes_estimate: p.total_bytes_estimate,
        speed_bytes_per_second: p.speed_bytes_per_second,
        elapsed_seconds: p.elapsed_seconds,
        eta_seconds: p.eta_seconds,
        percent: p.percent,
        started_at: p.started_at,
        finished_at: p.finished_at,
    }
}

/// A copy of a progress snapshot.
pub fn copy_progress(p: &DownloadProgress) -> (c: DownloadProgress)
    ensures
        c == *p,
{
    DownloadProgress {
        task_id: p.task_id,
        stage: p.stage,
        downloaded_bytes: p.downloaded_bytes,
        total_bytes: p.total_bytes,
        total_bytes_estimate: p.total_bytes_estimate,
        speed_bytes_per_second: p.speed_bytes_per_second,
        elapsed_seconds: p.elapsed_seconds,
        eta_seconds: p.eta_seconds,
        percent: p.percent,
        total_is_estimate: p.total_is_estimate,
        active_stream: copy_text(&p.active_stream),
        updated_at: p.updated_at,
    }
}

/// Whether putting the streams together after the output `output` stays within
/// `i64` (only a progress line changes the streams).
pub open spec fn output_fits(streams: Seq<StreamProgress>, output: DownloadOutput, now: i64) -> bool {
    match output {
        DownloadOutput::Progress(p) => aggregate_fits(recorded(streams, p, now)),
        _ => true,
    }
}

fn copy_streams(streams: &Vec<StreamProgress>) -> (r: Vec<StreamProgress>)
    ensures
        r@ == streams@,
{
    let mut r: Vec<StreamProgress> = Vec::new();
    let mut i: usize = 0;
    while i < streams.len()
        invariant
            i <= streams@.len(),
            r@ == streams@.take(i as int),
        decreases streams@.len() - i,
    {
        r.push(copy_stream(&streams[i]));
        assert(r@ =~= streams@.take(i + 1));
        i = i + 1;
    }
    assert(streams@.take(streams@.len() as int) =~= streams@);
    r
}

impl DownloadRun {
    /// A run of task `task_id` that started downloading at `now`: no stream yet,
    /// no output path, and the empty progress of the downloading stage.
    pub fn start(task_id: i64, now: i64) -> (run: Self)
        ensures
            run.task_id == task_id,
            run.streams@ == Seq::<StreamProgress>::empty(),
            run.output_path is None,
            keys_unique(run.streams@),
            run.latest matches Some(p) && p.task_id == task_id && p.stage == DownloadStage::Downloading
                && p.downloaded_bytes == 0 && p.total_bytes is None && p.percent is None && p.active_stream is None
                && p.updated_at == now,
    {
        DownloadRun {
            task_id,
            streams: Vec::new(),
            latest: Some(empty_progress(task_id, DownloadStage::Downloading, now)),
            output_path: None,
        }
    }

    /// Whether the streams, once `output` is taken at `now`, still add up within
    /// `i64`, as `on_output` needs.
    pub fn output_in_range(&self, output: &DownloadOutput, now: i64) -> (r: bool)
        ensures
            r == output_fits(self.streams@, *output, now),
    {
        match output {
            DownloadOutput::Progress(p) => {
                let mut streams = copy_streams(&self.streams);
                let _ = record_stream_progress(&mut streams, copy_stream(p), now);
                aggregate_within_range(streams.as_slice())
            },
            _ => true,
        }
    }

    /// Takes one line of output at time `now`. A stream update is stamped with
    /// its times and recorded among the streams, and the download's progress is
    /// put together from them (its percentage is the caller's to fill in before
    /// it calls `report`); the merge notice asks for merging to be recorded; an
    /// output path is kept as the last one printed.
    pub fn on_output(&mut self, output: DownloadOutput, now: i64) -> (step: RunStep)
        requires
            output_fits(old(self).streams@, output, now),
        ensures
            final(self).task_id == old(self).task_id,
            final(self).latest == old(self).latest,
            keys_unique(old(self).streams@) ==> keys_unique(final(self).streams@),
            match output {
                DownloadOutput::Progress(p) => {
                    &&& final(self).streams@ == recorded(old(self).streams@, p, now)
                    &&& final(self).output_path == old(self).output_path
                    &&& step matches RunStep::Progress { stream, task, force_write } && stream == stamped(
                        old(self).streams@,
                        p,
                        now,
                    ) && is_aggregate_of(task, old(self).task_id, final(self).streams@, now) && force_write == (
                    p.status == DownloadStreamStatus::Finished)
                },
                DownloadOutput::Merging => {
                    &&& step is Merging
                    &&& final(self).streams@ == old(self).streams@
                    &&& final(self).output_path == old(self).output_path
                },
                DownloadOutput::OutputPath(path) => {
                    &&& step is Quiet
                    &&& final(self).streams@ == old(self).streams@
                    &&& final(self).output_path == Some(path)
                },
            },
    {
        match output {
            DownloadOutput::Progress(progress) => {
                let finished = progress.status == DownloadStreamStatus::Finished;
                let index = record_stream_progress(&mut self.streams, progress, now);
                let stream = copy_stream(&self.streams[index]);
                let task = aggregate_progress(self.task_id, self.streams.as_slice(), now);
                RunStep::Progress { stream, task, force_write: finished }
            },
            DownloadOutput::Merging => RunStep::Merging,
            DownloadOutput::OutputPath(path) => {
                self.output_path = Some(path);
                RunStep::Quiet
            },
        }
    }

    /// Keeps `progress` as the last progress reported.
    pub fn report(&mut self, progress: DownloadProgress)
        ensures
            final(self).latest == Some(progress),
            final(self).task_id == old(self).task_id,
            final(self).streams == old(self).streams,
            final(self).output_path == old(self).output_path,
    {
        self.latest = Some(progress);
    }

    /// Takes how recording the merge went: the first time merging is recorded,
    /// the last progress moves to the merging stage at `now` and is returned to
    /// be reported; after that nothing changes.
    pub fn on_merging_recorded(&mut self, first_time: bool, now: i64) -> (r: Option<DownloadProgress>)
        ensures
            final(self).task_id == old(self).task_id,
            final(self).streams == old(self).streams,
            final(self).output_path == old(self).output_path,
            !first_time ==> r is None && final(self).latest == old(self).latest,
            first_time ==> (r matches Some(p) && final(self).latest == Some(p) && p.stage == DownloadStage::Merging
                && p.updated_at == now && p.active_stream is None && (old(self).latest matches Some(l) ==> p.task_id
                == l.task_id && p.downloaded_bytes == l.downloaded_bytes && p.total_bytes == l.total_bytes
                && p.percent == l.percent) && (old(self).latest is None ==> p.task_id == old(self).task_id
                && p.downloaded_bytes == 0)),
    {
        if !first_time {
            return None;
        }
        let latest = match &self.latest {
            Some(l) => Some(copy_progress(l)),
            None => None,
        };
        let progress = stage_progress(latest, self.task_id, DownloadStage::Merging, now);
        self.latest = Some(copy_progress(&progress));
        Some(progress)
    }

    /// How the run ends at `now`, given how the process ended. A process that
    /// succeeded completes the download with the path it reported, else the last
    /// one it printed, and the last progress at the completed stage and a full
    /// percentage; without a path it fails. A cancelled process cancels the
    /// download; any other failure fails it with that error.
    pub fn on_end(&self, result: Result<Option<String>, DownloadTaskError>, now: i64) -> (end: RunEnd)
        ensures
            result matches Ok(Some(p)) ==> (end matches RunEnd::Complete { output_path, progress } && output_path
                == p && progress.stage == DownloadStage::Completed && progress.percent == Some(100u8)
                && progress.updated_at == now && progress.active_stream is None),
            result matches Ok(None) ==> (self.output_path matches Some(p) ==> (end matches RunEnd::Complete {
                output_path,
                progress,
            } && output_path == p && progress.stage == DownloadStage::Completed && progress.percent == Some(
                100u8,
            ) && progress.updated_at == now && progress.active_stream is None)),
            result matches Ok(None) ==> (self.output_path is None ==> end matches RunEnd::Fail(
                DownloadTaskError::OutputPathMissing,
            )),
            result matches Err(DownloadTaskError::Cancelled) ==> end is Cancel,
            result matches Err(e) ==> (!(e is Cancelled) ==> end == RunEnd::Fail(e)),
            end matches RunEnd::Complete { progress, .. } ==> (self.latest matches Some(l) ==> progress.task_id
                == l.task_id && progress.downloaded_bytes == l.downloaded_bytes && progress.total_bytes
                == l.total_bytes && progress.total_bytes_estimate == l.total_bytes_estimate),
    {
        match result {
            Ok(reported) => {
                let printed = copy_text(&self.output_path);
                match final_output_path(reported, printed) {
                    Ok(output_path) => {
                        let latest = match &self.latest {
                            Some(l) => Some(copy_progress(l)),
                            None => None,
                        };
                        let progress = completed_progress(latest, self.task_id, now);
                        RunEnd::Complete { output_path, progress }
                    },
                    Err(error) => RunEnd::Fail(error),
                }
            },
            Err(DownloadTaskError::Cancelled) => RunEnd::Cancel,
            Err(error) => RunEnd::Fail(error),
        }
    }
}

} // verus!
