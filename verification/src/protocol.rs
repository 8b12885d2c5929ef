//! What passes between the worker loop and its caller: the events the
//! caller reports, the actions it is asked to perform, and the notices it
//! should put on record.

use vstd::prelude::*;
use crate::cache::Store;
use crate::cache::StoreView;
use crate::coordinator::Fetch;
use crate::coordinator::FetchView;
use crate::errors::JobError;
use crate::errors::JobErrorView;
use crate::errors::PollError;
use crate::errors::PollErrorView;
use crate::model::work_views;
use crate::model::Season;
use crate::model::SeasonView;
use crate::model::WorkItem;
use crate::model::WorkItemView;
use crate::render::RenderCommand;
use crate::render::RenderCommandView;
use crate::upload::UploadForm;
use crate::upload::UploadFormView;

verus! {

/// Where the loop stands.
#[derive(Clone, Copy, PartialEq, Eq, Structural, Debug)]
pub enum Phase {
    /// Between two iterations, waiting for the delay to pass.
    Idle,
    /// Waiting for the active season.
    FetchSeason,
    /// Waiting for the work list.
    FetchWork,
    /// Waiting to learn whether the current job's genome is cached.
    ProbeGenome,
    /// Waiting for the current job's genome to arrive.
    DownloadGenome,
    /// Waiting for the current job's genome to be written.
    StoreGenome,
    /// Waiting for the renderer.
    Render,
    /// Waiting for the coordinator's answer to the upload.
    Upload,
}

/// What the caller reports back.
#[derive(Clone, Debug, PartialEq, Eq)]
pub enum Event {
    /// The delay has passed.
    Wake,
    /// The coordinator named the active season.
    SeasonFetched(Season),
    /// The coordinator handed out work, possibly none.
    WorkFetched(Vec<WorkItem>),
    /// The season or the work list could not be had.
    PollFailed(PollError),
    /// Whether the genome's cache file exists.
    GenomeProbed { present: bool },
    /// The genome arrived, still compressed.
    GenomeDownloaded(Vec<u8>),
    /// The genome could not be fetched.
    GenomeDownloadFailed(String),
    /// The genome is in the cache.
    GenomeStored,
    /// The genome could not be written.
    GenomeStoreFailed(String),
    /// The renderer is done, or could not be started.
    RenderExited { launched: bool, exit_code: Option<i32>, output: String },
    /// The upload is done, or did not get through.
    UploadAnswered { sent: bool, status: u16, body: String },
}

pub enum EventView {
    Wake,
    SeasonFetched(SeasonView),
    WorkFetched(Seq<WorkItemView>),
    PollFailed(PollErrorView),
    GenomeProbed { present: bool },
    GenomeDownloaded(Seq<u8>),
    GenomeDownloadFailed(Seq<char>),
    GenomeStored,
    GenomeStoreFailed(Seq<char>),
    RenderExited { launched: bool, exit_code: Option<i32>, output: Seq<char> },
    UploadAnswered { sent: bool, status: u16, body: Seq<char> },
}

impl View for Event {
    type V = EventView;

    open spec fn view(&self) -> EventView {
        match self {
            Event::Wake => EventView::Wake,
            Event::SeasonFetched(season) => EventView::SeasonFetched(season@),
            Event::WorkFetched(items) => EventView::WorkFetched(work_views(items@)),
            Event::PollFailed(e) => EventView::PollFailed(e@),
            Event::GenomeProbed { present } => EventView::GenomeProbed { present: *present },
            Event::GenomeDownloaded(bytes) => EventView::GenomeDownloaded(bytes@),
            Event::GenomeDownloadFailed(m) => EventView::GenomeDownloadFailed(m@),
            Event::GenomeStored => EventView::GenomeStored,
            Event::GenomeStoreFailed(m) => EventView::GenomeStoreFailed(m@),
            Event::RenderExited { launched, exit_code, output } => EventView::RenderExited {
                launched: *launched,
                exit_code: *exit_code,
                output: output@,
            },
            Event::UploadAnswered { sent, status, body } => EventView::UploadAnswered {
                sent: *sent,
                status: *status,
                body: body@,
            },
        }
    }
}

/// What the caller is asked to do next.
#[derive(Clone, Debug, PartialEq, Eq)]
pub enum Action {
    /// Wait, then report `Wake`.
    Sleep { millis: u64 },
    /// Ask for the active season; `uploaded` is the number of frames
    /// uploaded so far, for the record.
    PollSeason { request: Fetch, uploaded: u64 },
    /// Ask for work.
    PollWork { request: Fetch },
    /// Look whether this file exists.
    Probe { path: String },
    /// Fetch the compressed genome.
    Download { request: Fetch },
    /// Write the genome into the cache.
    Store(Store),
    /// Run the renderer.
    Render(RenderCommand),
    /// Post the frame.
    Upload(UploadForm),
    /// The event does not answer what the machine asked for; nothing changed.
    Rejected,
}

pub enum ActionView {
    Sleep { millis: u64 },
    PollSeason { request: FetchView, uploaded: u64 },
    PollWork { request: FetchView },
    Probe { path: Seq<char> },
    Download { request: FetchView },
    Store(StoreView),
    Render(RenderCommandView),
    Upload(UploadFormView),
    Rejected,
}

impl View for Action {
    type V = ActionView;

    open spec fn view(&self) -> ActionView {
        match self {
            Action::Sleep { millis } => ActionView::Sleep { millis: *millis },
            Action::PollSeason { request, uploaded } => ActionView::PollSeason {
                request: request@,
                uploaded: *uploaded,
            },
            Action::PollWork { request } => ActionView::PollWork { request: request@ },
            Action::Probe { path } => ActionView::Probe { path: path@ },
            Action::Download { request } => ActionView::Download { request: request@ },
            Action::Store(store) => ActionView::Store(store@),
            Action::Render(command) => ActionView::Render(command@),
            Action::Upload(form) => ActionView::Upload(form@),
            Action::Rejected => ActionView::Rejected,
        }
    }
}

/// What the caller should put on record about the step.
#[derive(Clone, Debug, PartialEq, Eq)]
pub enum Notice {
    Nothing,
    /// A poll failed; the loop goes back to idle.
    PollFailed(PollError),
    /// A job was abandoned; the batch goes on.
    JobFailed { season: String, sequence: String, frame: u32, error: JobError },
    /// A frame was taken by the coordinator, which answered `answer`.
    FrameUploaded { season: String, sequence: String, frame: u32, answer: String },
}

pub enum NoticeView {
    Nothing,
    PollFailed(PollErrorView),
    JobFailed { season: Seq<char>, sequence: Seq<char>, frame: u32, error: JobErrorView },
    FrameUploaded { season: Seq<char>, sequence: Seq<char>, frame: u32, answer: Seq<char> },
}

impl View for Notice {
    type V = NoticeView;

    open spec fn view(&self) -> NoticeView {
        match self {
            Notice::Nothing => NoticeView::Nothing,
            Notice::PollFailed(e) => NoticeView::PollFailed(e@),
            Notice::JobFailed { season, sequence, frame, error } => NoticeView::JobFailed {
                season: season@,
                sequence: sequence@,
                frame: *frame,
                error: error@,
            },
            Notice::FrameUploaded { season, sequence, frame, answer } => NoticeView::FrameUploaded {
                season: season@,
                sequence: sequence@,
                frame: *frame,
                answer: answer@,
            },
        }
    }
}

/// The outcome of one step, apart from the new state.
#[derive(Clone, Debug, PartialEq, Eq)]
pub struct Step {
    pub action: Action,
    pub notice: Notice,
}

pub struct StepView {
    pub action: ActionView,
    pub notice: NoticeView,
}

impl View for Step {
    type V = StepView;

    open spec fn view(&self) -> StepView {
        StepView { action: self.action@, notice: self.notice@ }
    }
}

} // verus!
