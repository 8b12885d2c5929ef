//! The worker loop as a state machine. The caller performs each action the
//! machine asks for and hands back what came of it as an event; the machine
//! decides what happens next. A failed poll sends the machine back to idle
//! with a delay, a failed job is abandoned and the batch goes on.

use vstd::prelude::*;
use vstd::string::StringExecFns;
use crate::cache::fill_cache;
use crate::cache::genome_file;
use crate::cache::genome_path;
use crate::cache::get_genome;
use crate::cache::GenomePlan;
use crate::cache::genome_plan;
use crate::cache::gunzipped;
use crate::cache::store_of;
use crate::cache::GenomePlanView;
use crate::coordinator::active_season_url;
use crate::coordinator::get_active_season;
use crate::coordinator::request_work;
use crate::coordinator::request_work_url;
use crate::coordinator::FetchView;
use crate::errors::JobError;
use crate::errors::JobErrorView;
use crate::errors::PollErrorView;
use crate::model::work_views;
use crate::model::Config;
use crate::model::ConfigView;
use crate::model::Season;
use crate::model::SeasonView;
use crate::model::WorkItem;
use crate::model::WorkItemView;
use crate::protocol::Action;
use crate::protocol::ActionView;
use crate::protocol::Event;
use crate::protocol::EventView;
use crate::protocol::Notice;
use crate::protocol::NoticeView;
use crate::protocol::Phase;
use crate::protocol::Step;
use crate::protocol::StepView;
use crate::render::frame_file;
use crate::render::render_command;
use crate::render::render_frame;
use crate::render::render_result;
use crate::render::render_succeeded;
use crate::upload::upload_frame;
use crate::upload::upload_of;
use crate::upload::upload_result;
use crate::upload::upload_outcome;

verus! {

/// Shortest delay after an iteration that processed no job, in milliseconds.
pub const BACKOFF_BASE_MS: u64 = 1000;

/// Longest delay between two polls, in milliseconds.
pub const BACKOFF_MAX_MS: u64 = 60000;

/// The state of the loop as the contracts see it.
pub struct WorkerView {
    pub config: ConfigView,
    pub phase: Phase,
    /// The season of the running iteration.
    pub season: Option<SeasonView>,
    /// The batch of the running iteration.
    pub queue: Seq<WorkItemView>,
    /// Position of the current job in the batch.
    pub next: nat,
    /// Frames uploaded since the worker started.
    pub uploaded: nat,
    /// Iterations in a row that processed no job.
    pub idle_streak: nat,
}

impl WorkerView {
    /// Whether a job is under way.
    pub open spec fn in_job(self) -> bool {
        self.phase == Phase::ProbeGenome || self.phase == Phase::DownloadGenome || self.phase
            == Phase::StoreGenome || self.phase == Phase::Render || self.phase == Phase::Upload
    }

    /// What holds of every state the machine can be in.
    pub open spec fn wf(self) -> bool {
        &&& self.next <= self.queue.len()
        &&& self.uploaded <= u64::MAX
        &&& self.idle_streak <= u32::MAX
        &&& self.phase == Phase::FetchWork ==> self.season is Some
        &&& self.in_job() ==> self.season is Some && self.next < self.queue.len()
        &&& self.phase == Phase::Render || self.phase == Phase::Upload
            ==> self.queue[self.next as int].renderable()
    }

    /// The job under way.
    pub open spec fn job(self) -> WorkItemView
        recommends
            self.in_job(),
            self.wf(),
    {
        self.queue[self.next as int]
    }
}

/// The delay before the next poll after `streak` iterations in a row that
/// processed no job: none after a busy iteration, then the base delay,
/// doubled with each further idle iteration up to the longest delay.
pub open spec fn backoff_delay(streak: nat) -> nat
    decreases streak,
{
    if streak == 0 {
        0
    } else if streak == 1 {
        BACKOFF_BASE_MS as nat
    } else {
        let before = backoff_delay((streak - 1) as nat);
        if before * 2 >= BACKOFF_MAX_MS {
            BACKOFF_MAX_MS as nat
        } else {
            before * 2
        }
    }
}

/// One more, unless the counter is full.
pub open spec fn bump(n: nat, limit: nat) -> nat {
    if n < limit {
        n + 1
    } else {
        n
    }
}

/// The state between two iterations. `busy` says whether the iteration that
/// ends here processed a job.
pub open spec fn idle(w: WorkerView, busy: bool) -> WorkerView {
    WorkerView {
        phase: Phase::Idle,
        season: None,
        queue: Seq::empty(),
        next: 0,
        idle_streak: if busy {
            0
        } else {
            bump(w.idle_streak, u32::MAX as nat)
        },
        ..w
    }
}

/// The delay that goes with `idle(w, busy)`.
pub open spec fn pause(w: WorkerView, busy: bool) -> ActionView {
    ActionView::Sleep { millis: backoff_delay(idle(w, busy).idle_streak) as u64 }
}

/// The state once the current job is over: the counter is raised if the
/// frame was uploaded, and the loop turns to the next job of the batch, or
/// to idle after the last.
pub open spec fn after_job(w: WorkerView, uploaded: bool) -> WorkerView {
    let counted = WorkerView {
        uploaded: if uploaded {
            bump(w.uploaded, u64::MAX as nat)
        } else {
            w.uploaded
        },
        ..w
    };
    if w.next + 1 < w.queue.len() {
        WorkerView { phase: Phase::ProbeGenome, next: w.next + 1, ..counted }
    } else {
        idle(counted, true)
    }
}

/// The action that goes with `after_job`.
pub open spec fn after_job_action(w: WorkerView) -> ActionView {
    if w.next + 1 < w.queue.len() {
        ActionView::Probe { path: genome_file(w.queue[w.next as int + 1].sequence) }
    } else {
        ActionView::Sleep { millis: 0 }
    }
}

/// The current job is abandoned because of `error`.
pub open spec fn abandon(w: WorkerView, error: JobErrorView) -> (WorkerView, StepView) {
    (
        after_job(w, false),
        StepView {
            action: after_job_action(w),
            notice: NoticeView::JobFailed {
                season: w.season->0.name,
                sequence: w.job().sequence,
                frame: w.job().frame,
                error,
            },
        },
    )
}

/// The current job's frame was uploaded.
pub open spec fn complete(w: WorkerView, answer: Seq<char>) -> (WorkerView, StepView) {
    (
        after_job(w, true),
        StepView {
            action: after_job_action(w),
            notice: NoticeView::FrameUploaded {
                season: w.season->0.name,
                sequence: w.job().sequence,
                frame: w.job().frame,
                answer,
            },
        },
    )
}

/// The error for a job whose frame position is 0.
pub open spec fn no_such_frame() -> JobErrorView {
    JobErrorView::Render("frame position 0 names no frame"@)
}

/// The current job's genome is in the cache: on to the renderer.
pub open spec fn to_render(w: WorkerView) -> (WorkerView, StepView) {
    if w.job().renderable() {
        (
            WorkerView { phase: Phase::Render, ..w },
            StepView {
                action: ActionView::Render(
                    render_command(genome_file(w.job().sequence), w.season->0, w.job()),
                ),
                notice: NoticeView::Nothing,
            },
        )
    } else {
        abandon(w, no_such_frame())
    }
}

/// The event is not an answer to what the machine asked for.
pub open spec fn rejected(w: WorkerView) -> (WorkerView, StepView) {
    (w, StepView { action: ActionView::Rejected, notice: NoticeView::Nothing })
}

/// A poll failed: back to idle, with a delay, and the failure on record.
pub open spec fn poll_failed(w: WorkerView, error: PollErrorView) -> (WorkerView, StepView) {
    (idle(w, false), StepView { action: pause(w, false), notice: NoticeView::PollFailed(error) })
}

/// The state after an event, and what the caller is asked to do.
pub open spec fn transition(w: WorkerView, e: EventView) -> (WorkerView, StepView) {
    match w.phase {
        Phase::Idle => match e {
            EventView::Wake => (
                WorkerView { phase: Phase::FetchSeason, ..w },
                StepView {
                    action: ActionView::PollSeason {
                        request: FetchView { url: active_season_url(w.config), gzip: true },
                        uploaded: w.uploaded as u64,
                    },
                    notice: NoticeView::Nothing,
                },
            ),
            _ => rejected(w),
        },
        Phase::FetchSeason => match e {
            EventView::SeasonFetched(season) => (
                WorkerView { phase: Phase::FetchWork, season: Some(season), ..w },
                StepView {
                    action: ActionView::PollWork {
                        request: FetchView { url: request_work_url(w.config), gzip: true },
                    },
                    notice: NoticeView::Nothing,
                },
            ),
            EventView::PollFailed(error) => poll_failed(w, error),
            _ => rejected(w),
        },
        Phase::FetchWork => match e {
            EventView::WorkFetched(items) => if items.len() == 0 {
                (
                    idle(w, false),
                    StepView { action: pause(w, false), notice: NoticeView::Nothing },
                )
            } else {
                (
                    WorkerView { phase: Phase::ProbeGenome, queue: items, next: 0, ..w },
                    StepView {
                        action: ActionView::Probe { path: genome_file(items[0].sequence) },
                        notice: NoticeView::Nothing,
                    },
                )
            },
            EventView::PollFailed(error) => poll_failed(w, error),
            _ => rejected(w),
        },
        Phase::ProbeGenome => match e {
            EventView::GenomeProbed { present } => match genome_plan(
                w.config,
                w.season->0,
                w.job(),
                present,
            ) {
                Ok(GenomePlanView::Cached(_)) => to_render(w),
                Ok(GenomePlanView::Download { request, target }) => (
                    WorkerView { phase: Phase::DownloadGenome, ..w },
                    StepView {
                        action: ActionView::Download { request },
                        notice: NoticeView::Nothing,
                    },
                ),
                Err(error) => abandon(w, error),
            },
            _ => rejected(w),
        },
        Phase::DownloadGenome => match e {
            EventView::GenomeDownloaded(payload) => match store_of(
                genome_file(w.job().sequence),
                gunzipped(payload),
            ) {
                Ok(store) => (
                    WorkerView { phase: Phase::StoreGenome, ..w },
                    StepView { action: ActionView::Store(store), notice: NoticeView::Nothing },
                ),
                Err(error) => abandon(w, error),
            },
            EventView::GenomeDownloadFailed(detail) => abandon(w, JobErrorView::Download(detail)),
            _ => rejected(w),
        },
        Phase::StoreGenome => match e {
            EventView::GenomeStored => to_render(w),
            EventView::GenomeStoreFailed(detail) => abandon(w, JobErrorView::Io(detail)),
            _ => rejected(w),
        },
        Phase::Render => match e {
            EventView::RenderExited { launched, exit_code, output } => if render_succeeded(
                launched,
                exit_code,
            ) {
                match upload_of(frame_file(w.season->0, w.job()), w.config, w.season->0, w.job()) {
                    Ok(form) => (
                        WorkerView { phase: Phase::Upload, ..w },
                        StepView { action: ActionView::Upload(form), notice: NoticeView::Nothing },
                    ),
                    Err(error) => abandon(w, error),
                }
            } else {
                abandon(w, JobErrorView::Render(output))
            },
            _ => rejected(w),
        },
        Phase::Upload => match e {
            EventView::UploadAnswered { sent, status, body } => match upload_outcome(
                sent,
                status,
                body,
            ) {
                Ok(answer) => complete(w, answer),
                Err(error) => abandon(w, error),
            },
            _ => rejected(w),
        },
    }
}

/// Once the delay has reached its longest, it stays there.
proof fn lemma_backoff_stays_at_max(from: nat, to: nat)
    requires
        1 <= from <= to,
        backoff_delay(from) == BACKOFF_MAX_MS,
    ensures
        backoff_delay(to) == BACKOFF_MAX_MS,
    decreases to - from,
{
    if from < to {
        lemma_backoff_stays_at_max(from, (to - 1) as nat);
    }
}

/// The delay before the next poll after `streak` idle iterations in a row.
pub fn backoff(streak: u32) -> (r: u64)
    ensures
        r == backoff_delay(streak as nat),
{
    if streak == 0 {
        return 0;
    }
    let mut delay: u64 = BACKOFF_BASE_MS;
    let mut i: u32 = 1;
    while i < streak && delay < BACKOFF_MAX_MS
        invariant
            1 <= i <= streak,
            delay == backoff_delay(i as nat),
            delay <= BACKOFF_MAX_MS,
        decreases streak - i,
    {
        delay = if delay * 2 >= BACKOFF_MAX_MS {
            BACKOFF_MAX_MS
        } else {
            delay * 2
        };
        i = i + 1;
    }
    proof {
        if i < streak {
            lemma_backoff_stays_at_max(i as nat, streak as nat);
        }
    }
    delay
}

/// The view of the season of an iteration, if one is held.
pub open spec fn season_view(season: Option<Season>) -> Option<SeasonView> {
    match season {
        Some(s) => Some(s@),
        None => None,
    }
}

/// The state of the worker loop.
#[derive(Debug)]
pub struct Worker {
    config: Config,
    phase: Phase,
    season: Option<Season>,
    queue: Vec<WorkItem>,
    next: usize,
    uploaded: u64,
    idle_streak: u32,
}

impl View for Worker {
    type V = WorkerView;

    closed spec fn view(&self) -> WorkerView {
        WorkerView {
            config: self.config@,
            phase: self.phase,
            season: season_view(self.season),
            queue: work_views(self.queue@),
            next: self.next as nat,
            uploaded: self.uploaded as nat,
            idle_streak: self.idle_streak as nat,
        }
    }
}

/// The state a worker starts in: idle, nothing uploaded, no delay due.
pub open spec fn initial(config: ConfigView) -> WorkerView {
    WorkerView {
        config,
        phase: Phase::Idle,
        season: None,
        queue: Seq::empty(),
        next: 0,
        uploaded: 0,
        idle_streak: 0,
    }
}

impl Worker {
    #[verifier::type_invariant]
    spec fn inv(self) -> bool {
        self@.wf()
    }

    /// A worker that has not polled yet. Its first event is `Wake`.
    pub fn new(config: Config) -> (r: Worker)
        ensures
            r@ == initial(config@),
            r@.wf(),
    {
        let r = Worker {
            config,
            phase: Phase::Idle,
            season: None,
            queue: Vec::new(),
            next: 0,
            uploaded: 0,
            idle_streak: 0,
        };
        assert(r@.queue =~= Seq::empty());
        r
    }

    /// Where the loop stands.
    pub fn phase(&self) -> (r: Phase)
        ensures
            r == self@.phase,
    {
        self.phase
    }

    /// Frames uploaded since the worker started.
    pub fn uploaded(&self) -> (r: u64)
        ensures
            r == self@.uploaded,
    {
        self.uploaded
    }

    /// Jobs of the running batch that are not finished, the current one
    /// included.
    pub fn remaining(&self) -> (r: usize)
        ensures
            r == self@.queue.len() - self@.next,
            self@.wf(),
    {
        proof {
            use_type_invariant(self);
        }
        self.queue.len() - self.next
    }

    fn reject(self) -> (r: (Worker, Step))
        ensures
            (r.0@, r.1@) == rejected(self@),
    {
        (self, Step { action: Action::Rejected, notice: Notice::Nothing })
    }

    fn rest(self, busy: bool, notice: Notice) -> (r: (Worker, Step))
        ensures
            r.0@ == idle(self@, busy),
            r.1@ == (StepView { action: pause(self@, busy), notice: notice@ }),
    {
        proof {
            use_type_invariant(&self);
        }
        let idle_streak: u32 = if busy {
            0
        } else if self.idle_streak < u32::MAX {
            self.idle_streak + 1
        } else {
            self.idle_streak
        };
        let millis = backoff(idle_streak);
        let r = Worker {
            phase: Phase::Idle,
            season: None,
            queue: Vec::new(),
            next: 0,
            idle_streak,
            ..self
        };
        assert(r@.queue =~= Seq::empty());
        (r, Step { action: Action::Sleep { millis }, notice })
    }

    fn finish(self, uploaded: bool, notice: Notice) -> (r: (Worker, Step))
        requires
            self@.in_job(),
        ensures
            r.0@ == after_job(self@, uploaded),
            r.1@ == (StepView { action: after_job_action(self@), notice: notice@ }),
    {
        proof {
            use_type_invariant(&self);
        }
        assert(self.next < self.queue.len());
        let count: u64 = if uploaded && self.uploaded < u64::MAX {
            self.uploaded + 1
        } else {
            self.uploaded
        };
        if self.next + 1 < self.queue.len() {
            let next: usize = self.next + 1;
            let path = genome_path(&self.queue[next]);
            (
                Worker { phase: Phase::ProbeGenome, next, uploaded: count, ..self },
                Step { action: Action::Probe { path }, notice },
            )
        } else {
            let r = Worker {
                phase: Phase::Idle,
                season: None,
                queue: Vec::new(),
                next: 0,
                uploaded: count,
                idle_streak: 0,
                ..self
            };
            assert(r@.queue =~= Seq::empty());
            (r, Step { action: Action::Sleep { millis: 0 }, notice })
        }
    }

    /// The season of the job under way.
    fn season(&self) -> (r: &Season)
        requires
            self@.in_job(),
        ensures
            self@.season == Some(r@),
    {
        proof {
            use_type_invariant(self);
        }
        self.season.as_ref().unwrap()
    }

    /// The job under way.
    fn job(&self) -> (r: &WorkItem)
        requires
            self@.in_job(),
        ensures
            r@ == self@.job(),
    {
        proof {
            use_type_invariant(self);
        }
        &self.queue[self.next]
    }

    fn fail(self, error: JobError) -> (r: (Worker, Step))
        requires
            self@.in_job(),
        ensures
            (r.0@, r.1@) == abandon(self@, error@),
    {
        let season = self.season().name.clone();
        let sequence = self.job().sequence.clone();
        let frame = self.job().frame;
        self.finish(false, Notice::JobFailed { season, sequence, frame, error })
    }

    fn done(self, answer: String) -> (r: (Worker, Step))
        requires
            self@.in_job(),
        ensures
            (r.0@, r.1@) == complete(self@, answer@),
    {
        let season = self.season().name.clone();
        let sequence = self.job().sequence.clone();
        let frame = self.job().frame;
        self.finish(true, Notice::FrameUploaded { season, sequence, frame, answer })
    }

    fn enter_render(self) -> (r: (Worker, Step))
        requires
            self@.in_job(),
        ensures
            (r.0@, r.1@) == to_render(self@),
    {
        proof {
            use_type_invariant(&self);
        }
        let work = self.job();
        if work.renderable() {
            let genome = genome_path(work);
            let command = render_frame(genome.as_str(), self.season(), work);
            (
                Worker { phase: Phase::Render, ..self },
                Step { action: Action::Render(command), notice: Notice::Nothing },
            )
        } else {
            self.fail(JobError::Render(String::from_str("frame position 0 names no frame")))
        }
    }

    fn probed(self, present: bool) -> (r: (Worker, Step))
        requires
            self@.phase == Phase::ProbeGenome,
        ensures
            (r.0@, r.1@) == transition(self@, EventView::GenomeProbed { present }),
    {
        proof {
            use_type_invariant(&self);
        }
        match get_genome(&self.config, self.season(), self.job(), present) {
            Ok(GenomePlan::Cached(_)) => self.enter_render(),
            Ok(GenomePlan::Download { request, target }) => (
                Worker { phase: Phase::DownloadGenome, ..self },
                Step { action: Action::Download { request }, notice: Notice::Nothing },
            ),
            Err(error) => self.fail(error),
        }
    }

    fn downloaded(self, payload: Vec<u8>) -> (r: (Worker, Step))
        requires
            self@.phase == Phase::DownloadGenome,
        ensures
            (r.0@, r.1@) == transition(self@, EventView::GenomeDownloaded(payload@)),
    {
        proof {
            use_type_invariant(&self);
        }
        let target = genome_path(self.job());
        match fill_cache(target, payload.as_slice()) {
            Ok(store) => (
                Worker { phase: Phase::StoreGenome, ..self },
                Step { action: Action::Store(store), notice: Notice::Nothing },
            ),
            Err(error) => self.fail(error),
        }
    }

    fn rendered(self, launched: bool, exit_code: Option<i32>, output: String) -> (r: (
        Worker,
        Step,
    ))
        requires
            self@.phase == Phase::Render,
        ensures
            (r.0@, r.1@) == transition(
                self@,
                EventView::RenderExited { launched, exit_code, output: output@ },
            ),
    {
        proof {
            use_type_invariant(&self);
        }
        let season = self.season();
        let work = self.job();
        let genome = genome_path(work);
        let command = render_frame(genome.as_str(), season, work);
        match render_result(command, launched, exit_code, output) {
            Ok(frame) => match upload_frame(frame.as_str(), &self.config, season, work) {
                Ok(form) => (
                    Worker { phase: Phase::Upload, ..self },
                    Step { action: Action::Upload(form), notice: Notice::Nothing },
                ),
                Err(error) => self.fail(error),
            },
            Err(error) => self.fail(error),
        }
    }

    /// Takes what came of the last action and decides what happens next.
    pub fn step(self, event: Event) -> (r: (Worker, Step))
        ensures
            (r.0@, r.1@) == transition(self@, event@),
            self@.wf(),
            r.0@.wf(),
    {
        proof {
            use_type_invariant(&self);
        }
        let r = match self.phase {
            Phase::Idle => match event {
                Event::Wake => {
                    let request = get_active_season(&self.config);
                    let uploaded = self.uploaded;
                    (
                        Worker { phase: Phase::FetchSeason, ..self },
                        Step {
                            action: Action::PollSeason { request, uploaded },
                            notice: Notice::Nothing,
                        },
                    )
                },
                _ => self.reject(),
            },
            Phase::FetchSeason => match event {
                Event::SeasonFetched(season) => {
                    let request = request_work(&self.config);
                    (
                        Worker { phase: Phase::FetchWork, season: Some(season), ..self },
                        Step { action: Action::PollWork { request }, notice: Notice::Nothing },
                    )
                },
                Event::PollFailed(error) => self.rest(false, Notice::PollFailed(error)),
                _ => self.reject(),
            },
            Phase::FetchWork => match event {
                Event::WorkFetched(items) => {
                    if items.len() == 0 {
                        self.rest(false, Notice::Nothing)
                    } else {
                        let path = genome_path(&items[0]);
                        (
                            Worker { phase: Phase::ProbeGenome, queue: items, next: 0, ..self },
                            Step { action: Action::Probe { path }, notice: Notice::Nothing },
                        )
                    }
                },
                Event::PollFailed(error) => self.rest(false, Notice::PollFailed(error)),
                _ => self.reject(),
            },
            Phase::ProbeGenome => match event {
                Event::GenomeProbed { present } => self.probed(present),
                _ => self.reject(),
            },
            Phase::DownloadGenome => match event {
                Event::GenomeDownloaded(payload) => self.downloaded(payload),
                Event::GenomeDownloadFailed(detail) => self.fail(JobError::Download(detail)),
                _ => self.reject(),
            },
            Phase::StoreGenome => match event {
                Event::GenomeStored => self.enter_render(),
                Event::GenomeStoreFailed(detail) => self.fail(JobError::Io(detail)),
                _ => self.reject(),
            },
            Phase::Render => match event {
                Event::RenderExited { launched, exit_code, output } => self.rendered(
                    launched,
                    exit_code,
                    output,
                ),
                _ => self.reject(),
            },
            Phase::Upload => match event {
                Event::UploadAnswered { sent, status, body } => match upload_result(
                    sent,
                    status,
                    body,
                ) {
                    Ok(answer) => self.done(answer),
                    Err(error) => self.fail(error),
                },
                _ => self.reject(),
            },
        };
        proof {
            use_type_invariant(&r.0);
        }
        r
    }
}

} // verus!
