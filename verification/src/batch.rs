//! The worker loop closed over its surroundings: a batch is played job by
//! job against a script of what the cache, the renderer and the coordinator
//! answer, and what holds of the state the loop ends in is proved.

use vstd::prelude::*;
use crate::cache::gunzipped;
use crate::errors::JobErrorView;
use crate::errors::PollErrorView;
use crate::model::ConfigView;
use crate::model::WorkItemView;
use crate::render::frame_index_of;
use crate::render::render_command;
use crate::render::render_succeeded;
use crate::cache::genome_file;
use crate::upload::json_string;
use crate::upload::upload_accepted;
use crate::worker::abandon;
use crate::worker::after_job;
use crate::worker::backoff_delay;
use crate::worker::idle;
use crate::worker::transition;
use crate::protocol::ActionView;
use crate::protocol::EventView;
use crate::protocol::NoticeView;
use crate::protocol::Phase;
use crate::worker::WorkerView;
use crate::worker::BACKOFF_BASE_MS;
use crate::worker::BACKOFF_MAX_MS;

verus! {

/// What the surroundings answer while one job is processed.
pub struct JobScript {
    /// Whether the genome's cache file exists.
    pub present: bool,
    /// The payload of the download, or nothing where it fails.
    pub download: Option<Seq<u8>>,
    pub download_detail: Seq<char>,
    /// Whether the cache file can be written.
    pub stored: bool,
    pub store_detail: Seq<char>,
    pub launched: bool,
    pub exit_code: Option<i32>,
    pub output: Seq<char>,
    pub sent: bool,
    pub status: u16,
    pub body: Seq<char>,
}

/// The event that answers an action of a job.
pub open spec fn answer(script: JobScript, action: ActionView) -> EventView {
    match action {
        ActionView::Probe { .. } => EventView::GenomeProbed { present: script.present },
        ActionView::Download { .. } => match script.download {
            Some(payload) => EventView::GenomeDownloaded(payload),
            None => EventView::GenomeDownloadFailed(script.download_detail),
        },
        ActionView::Store(_) => if script.stored {
            EventView::GenomeStored
        } else {
            EventView::GenomeStoreFailed(script.store_detail)
        },
        ActionView::Render(_) => EventView::RenderExited {
            launched: script.launched,
            exit_code: script.exit_code,
            output: script.output,
        },
        ActionView::Upload(_) => EventView::UploadAnswered {
            sent: script.sent,
            status: script.status,
            body: script.body,
        },
        _ => EventView::Wake,
    }
}

/// Whether an action belongs to a job that has been begun.
pub open spec fn continues_job(action: ActionView) -> bool {
    action is Download || action is Store || action is Render || action is Upload
}

/// Answers actions from the script until the job is over, at most `limit`
/// times.
pub open spec fn play(w: WorkerView, action: ActionView, script: JobScript, limit: nat) -> WorkerView
    decreases limit,
{
    if limit == 0 || !continues_job(action) {
        w
    } else {
        let next = transition(w, answer(script, action));
        play(next.0, next.1.action, script, (limit - 1) as nat)
    }
}

/// The state after the current job was played against `script`. A job asks
/// for at most four things after the probe.
pub open spec fn play_job(w: WorkerView, script: JobScript) -> WorkerView {
    let probed = transition(w, EventView::GenomeProbed { present: script.present });
    play(probed.0, probed.1.action, script, 4)
}

/// The state after the rest of the batch was played, one script per job.
pub open spec fn play_batch(w: WorkerView, scripts: Seq<JobScript>) -> WorkerView
    decreases scripts.len(),
{
    if scripts.len() == 0 {
        w
    } else {
        play_batch(play_job(w, scripts[0]), scripts.drop_first())
    }
}

/// Whether every stage of a job succeeds: the genome is cached or can be
/// fetched, decoded and written, the frame position names a frame, the
/// renderer exits cleanly, the work item has a JSON form, and the
/// coordinator accepts the upload.
pub open spec fn goes_well(config: ConfigView, work: WorkItemView, script: JobScript) -> bool {
    &&& script.present || (!config.no_download && script.download is Some && gunzipped(
        script.download->0,
    ) is Some && script.stored)
    &&& work.renderable()
    &&& render_succeeded(script.launched, script.exit_code)
    &&& json_string(work.sequence) is Some
    &&& upload_accepted(script.sent, script.status)
}

/// How many of the jobs go well, each played against the script at its
/// position.
pub open spec fn jobs_going_well(
    config: ConfigView,
    jobs: Seq<WorkItemView>,
    scripts: Seq<JobScript>,
) -> nat
    decreases scripts.len(),
{
    if scripts.len() == 0 || jobs.len() == 0 {
        0
    } else {
        let first: nat = if goes_well(config, jobs[0], scripts[0]) {
            1
        } else {
            0
        };
        first + jobs_going_well(config, jobs.drop_first(), scripts.drop_first())
    }
}

/// Every step leads from a well-formed state to a well-formed state, keeps
/// the configuration, and never lowers the count of uploaded frames, which
/// it raises by one at most.
pub proof fn lemma_step_preserves(w: WorkerView, e: EventView)
    requires
        w.wf(),
    ensures
        transition(w, e).0.wf(),
        transition(w, e).0.config == w.config,
        w.uploaded <= transition(w, e).0.uploaded <= w.uploaded + 1,
{
}

/// A job is attempted once and then left behind, whatever comes of it: the
/// loop turns to the next job or, after the last, to idle, and the count of
/// uploaded frames rises exactly when every stage succeeded.
pub proof fn lemma_job_outcome(w: WorkerView, script: JobScript)
    requires
        w.wf(),
        w.phase == Phase::ProbeGenome,
    ensures
        play_job(w, script) == after_job(w, goes_well(w.config, w.job(), script)),
{
    reveal_with_fuel(play, 5);
}

/// Playing the rest of a batch ends in idle, with the count of uploaded
/// frames raised by the number of jobs that went well.
pub proof fn lemma_batch_outcome(w: WorkerView, scripts: Seq<JobScript>)
    requires
        w.wf(),
        w.phase == Phase::ProbeGenome,
        scripts.len() == w.queue.len() - w.next,
        w.uploaded + scripts.len() <= u64::MAX,
    ensures
        play_batch(w, scripts).phase == Phase::Idle,
        play_batch(w, scripts).wf(),
        play_batch(w, scripts).config == w.config,
        play_batch(w, scripts).uploaded == w.uploaded + jobs_going_well(
            w.config,
            w.queue.skip(w.next as int),
            scripts,
        ),
    decreases scripts.len(),
{
    let rest = w.queue.skip(w.next as int);
    let after = play_job(w, scripts[0]);
    let first: nat = if goes_well(w.config, w.job(), scripts[0]) {
        1
    } else {
        0
    };
    lemma_job_outcome(w, scripts[0]);
    assert(rest[0] == w.job());
    assert(rest.drop_first() =~= w.queue.skip(w.next as int + 1));
    assert(jobs_going_well(w.config, rest, scripts) == first + jobs_going_well(
        w.config,
        rest.drop_first(),
        scripts.drop_first(),
    ));
    assert(after.uploaded == w.uploaded + first);
    if w.next + 1 < w.queue.len() {
        lemma_batch_outcome(after, scripts.drop_first());
    } else {
        assert(scripts.drop_first().len() == 0);
        assert(play_batch(after, scripts.drop_first()) == after);
        assert(jobs_going_well(w.config, rest.drop_first(), scripts.drop_first()) == 0);
    }
}

/// Where all jobs but one go well, one fewer than all are counted.
pub proof fn lemma_all_but_one(
    config: ConfigView,
    jobs: Seq<WorkItemView>,
    scripts: Seq<JobScript>,
    k: int,
)
    requires
        jobs.len() == scripts.len(),
        0 <= k < jobs.len(),
        !goes_well(config, jobs[k], scripts[k]),
        forall|j: int| 0 <= j < jobs.len() && j != k ==> goes_well(config, jobs[j], scripts[j]),
    ensures
        jobs_going_well(config, jobs, scripts) == jobs.len() - 1,
    decreases jobs.len(),
{
    let jobs_rest = jobs.drop_first();
    let scripts_rest = scripts.drop_first();
    if k == 0 {
        lemma_all_go_well(config, jobs_rest, scripts_rest);
    } else {
        assert(jobs_rest[k - 1] == jobs[k]);
        assert(scripts_rest[k - 1] == scripts[k]);
        assert forall|j: int| 0 <= j < jobs_rest.len() && j != k - 1 implies goes_well(
            config,
            jobs_rest[j],
            scripts_rest[j],
        ) by {
            assert(jobs_rest[j] == jobs[j + 1]);
            assert(scripts_rest[j] == scripts[j + 1]);
        }
        lemma_all_but_one(config, jobs_rest, scripts_rest, k - 1);
    }
}

/// Where all jobs go well, all are counted.
pub proof fn lemma_all_go_well(config: ConfigView, jobs: Seq<WorkItemView>, scripts: Seq<JobScript>)
    requires
        jobs.len() == scripts.len(),
        forall|j: int| 0 <= j < jobs.len() ==> goes_well(config, jobs[j], scripts[j]),
    ensures
        jobs_going_well(config, jobs, scripts) == jobs.len(),
    decreases jobs.len(),
{
    if jobs.len() > 0 {
        let jobs_rest = jobs.drop_first();
        let scripts_rest = scripts.drop_first();
        assert forall|j: int| 0 <= j < jobs_rest.len() implies goes_well(
            config,
            jobs_rest[j],
            scripts_rest[j],
        ) by {
            assert(jobs_rest[j] == jobs[j + 1]);
            assert(scripts_rest[j] == scripts[j + 1]);
        }
        lemma_all_go_well(config, jobs_rest, scripts_rest);
    }
}

/// A batch in which exactly one job fails, at whatever stage, leaves the
/// loop idle again with one upload fewer than the batch has jobs: the
/// failure costs that one job and nothing else.
pub proof fn lemma_one_failure_costs_one_upload(
    w: WorkerView,
    items: Seq<WorkItemView>,
    scripts: Seq<JobScript>,
    k: int,
)
    requires
        w.wf(),
        w.phase == Phase::FetchWork,
        items.len() == scripts.len(),
        w.uploaded + items.len() <= u64::MAX,
        0 <= k < items.len(),
        !goes_well(w.config, items[k], scripts[k]),
        forall|j: int| 0 <= j < items.len() && j != k ==> goes_well(w.config, items[j], scripts[j]),
    ensures
        ({
            let begun = transition(w, EventView::WorkFetched(items)).0;
            let ended = play_batch(begun, scripts);
            &&& ended.phase == Phase::Idle
            &&& ended.uploaded == w.uploaded + items.len() - 1
        }),
{
    let begun = transition(w, EventView::WorkFetched(items)).0;
    assert(begun.queue.skip(0) =~= items);
    lemma_batch_outcome(begun, scripts);
    lemma_all_but_one(w.config, items, scripts, k);
}

/// After an idle iteration the delay is at least the base delay and at most
/// the longest delay.
pub proof fn lemma_backoff_bounds(streak: nat)
    requires
        streak >= 1,
    ensures
        BACKOFF_BASE_MS <= backoff_delay(streak) <= BACKOFF_MAX_MS,
    decreases streak,
{
    if streak > 1 {
        lemma_backoff_bounds((streak - 1) as nat);
    }
}

/// The delay never shrinks while idle iterations follow one another.
pub proof fn lemma_backoff_grows(streak: nat)
    requires
        streak >= 1,
    ensures
        backoff_delay(streak) <= backoff_delay(streak + 1),
{
    lemma_backoff_bounds(streak);
}

/// An empty work list is no error: the iteration ends with no job
/// processed and nothing on record, and the next poll waits for a delay
/// that is not zero.
pub proof fn lemma_empty_batch_waits(w: WorkerView)
    requires
        w.wf(),
        w.phase == Phase::FetchWork,
    ensures
        ({
            let next = transition(w, EventView::WorkFetched(Seq::empty()));
            &&& next.0.phase == Phase::Idle
            &&& next.0.uploaded == w.uploaded
            &&& next.1.notice == NoticeView::Nothing
            &&& next.1.action matches ActionView::Sleep { millis }
            &&& BACKOFF_BASE_MS <= millis <= BACKOFF_MAX_MS
        }),
{
    lemma_backoff_bounds(idle(w, false).idle_streak);
}

/// A failed poll never stops the loop: it goes back to idle with the
/// failure on record and polls again after a delay that is not zero.
pub proof fn lemma_poll_failure_waits(w: WorkerView, error: PollErrorView)
    requires
        w.wf(),
        w.phase == Phase::FetchSeason || w.phase == Phase::FetchWork,
    ensures
        ({
            let next = transition(w, EventView::PollFailed(error));
            &&& next.0.phase == Phase::Idle
            &&& next.0.uploaded == w.uploaded
            &&& next.1.notice == NoticeView::PollFailed(error)
            &&& next.1.action matches ActionView::Sleep { millis }
            &&& BACKOFF_BASE_MS <= millis <= BACKOFF_MAX_MS
        }),
{
    lemma_backoff_bounds(idle(w, false).idle_streak);
}

/// With fetching switched off, a job whose genome is not cached is
/// abandoned without any request, and the batch goes on.
pub proof fn lemma_cache_miss_without_download(w: WorkerView)
    requires
        w.wf(),
        w.phase == Phase::ProbeGenome,
        w.config.no_download,
    ensures
        transition(w, EventView::GenomeProbed { present: false }) == abandon(
            w,
            JobErrorView::CacheUnavailable,
        ),
        abandon(w, JobErrorView::CacheUnavailable).0.phase == Phase::ProbeGenome || abandon(
            w,
            JobErrorView::CacheUnavailable,
        ).0.phase == Phase::Idle,
{
}

/// Whenever the renderer is started, it is started for the frame position
/// of the current job less one.
pub proof fn lemma_rendered_frame_index(w: WorkerView, e: EventView)
    requires
        w.wf(),
        transition(w, e).1.action is Render,
    ensures
        w.job().renderable(),
        transition(w, e).1.action == ActionView::Render(
            render_command(genome_file(w.job().sequence), w.season->0, w.job()),
        ),
        frame_index_of(w.job()) == w.job().frame - 1,
        w.job().frame == 1 ==> frame_index_of(w.job()) == 0,
{
}

/// No job ends in silence: the step that leaves a job behind puts on record
/// either the failure that abandoned it or the upload that completed it,
/// and the count of uploaded frames rises only with the latter.
pub proof fn lemma_job_end_is_on_record(w: WorkerView, e: EventView)
    requires
        w.wf(),
        w.in_job(),
        transition(w, e).0.phase == Phase::Idle || transition(w, e).0.next != w.next,
    ensures
        transition(w, e).1.notice is JobFailed || transition(w, e).1.notice is FrameUploaded,
        transition(w, e).1.notice is JobFailed ==> transition(w, e).0.uploaded == w.uploaded,
        transition(w, e).0.uploaded > w.uploaded ==> transition(w, e).1.notice is FrameUploaded,
{
}

/// An event that does not answer what the machine asked for is turned
/// down, and a step that turns an event down changes nothing.
pub proof fn lemma_rejected_changes_nothing(w: WorkerView, e: EventView)
    requires
        transition(w, e).1.action is Rejected,
    ensures
        transition(w, e).0 == w,
        transition(w, e).1.notice == NoticeView::Nothing,
{
}

/// An event that the machine accepts in the phase it is in.
pub open spec fn awaited(w: WorkerView) -> EventView {
    match w.phase {
        Phase::Idle => EventView::Wake,
        Phase::FetchSeason => EventView::PollFailed(PollErrorView::Transport(Seq::empty())),
        Phase::FetchWork => EventView::WorkFetched(Seq::empty()),
        Phase::ProbeGenome => EventView::GenomeProbed { present: true },
        Phase::DownloadGenome => EventView::GenomeDownloadFailed(Seq::empty()),
        Phase::StoreGenome => EventView::GenomeStored,
        Phase::Render => EventView::RenderExited {
            launched: false,
            exit_code: None,
            output: Seq::empty(),
        },
        Phase::Upload => EventView::UploadAnswered { sent: false, status: 0, body: Seq::empty() },
    }
}

/// The loop has no last state: in every phase there is an event that the
/// machine accepts and answers with a new action.
pub proof fn lemma_no_terminal_state(w: WorkerView)
    requires
        w.wf(),
    ensures
        !(transition(w, awaited(w)).1.action is Rejected),
        exists|e: EventView| !(#[trigger] transition(w, e).1.action is Rejected),
{
    assert(!(transition(w, awaited(w)).1.action is Rejected));
}

} // verus!
