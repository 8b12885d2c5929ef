//! The values the worker is configured with and the values the coordinator
//! hands out, each with the mathematical view that the contracts speak of.

use vstd::prelude::*;

verus! {

/// Settings fixed at start-up and read-only afterwards.
#[derive(Clone, Debug, PartialEq, Eq)]
pub struct Config {
    /// Base URL of the coordinator, without a trailing slash.
    pub server: String,
    /// Key that authenticates this worker.
    pub apikey: String,
    /// Verbose diagnostics.
    pub debug: bool,
    /// Never fetch a genome from the coordinator.
    pub no_download: bool,
}

pub struct ConfigView {
    pub server: Seq<char>,
    pub apikey: Seq<char>,
    pub debug: bool,
    pub no_download: bool,
}

impl View for Config {
    type V = ConfigView;

    open spec fn view(&self) -> ConfigView {
        ConfigView {
            server: self.server@,
            apikey: self.apikey@,
            debug: self.debug,
            no_download: self.no_download,
        }
    }
}

/// One rendering campaign, as the coordinator describes it.
#[derive(Clone, Debug, PartialEq, Eq)]
pub struct Season {
    pub id: u32,
    /// Also the namespace of the season's genomes and frames.
    pub name: String,
    pub width: u32,
    pub height: u32,
    pub quality: u32,
    pub nframes: u32,
    pub gid: u32,
    pub started: Option<String>,
    /// Absent while the season is running.
    pub ended: Option<String>,
    pub active: bool,
    /// Compute class that claims the season's work.
    pub branch: String,
}

pub struct SeasonView {
    pub id: u32,
    pub name: Seq<char>,
    pub width: u32,
    pub height: u32,
    pub quality: u32,
    pub nframes: u32,
    pub gid: u32,
    pub started: Option<Seq<char>>,
    pub ended: Option<Seq<char>>,
    pub active: bool,
    pub branch: Seq<char>,
}

/// The view of an optional text.
pub open spec fn text_option_view(t: Option<String>) -> Option<Seq<char>> {
    match t {
        Some(s) => Some(s@),
        None => None,
    }
}

impl View for Season {
    type V = SeasonView;

    open spec fn view(&self) -> SeasonView {
        SeasonView {
            id: self.id,
            name: self.name@,
            width: self.width,
            height: self.height,
            quality: self.quality,
            nframes: self.nframes,
            gid: self.gid,
            started: text_option_view(self.started),
            ended: text_option_view(self.ended),
            active: self.active,
            branch: self.branch@,
        }
    }
}

/// One frame to render.
#[derive(Clone, Debug, PartialEq, Eq)]
pub struct WorkItem {
    /// Names the genome, its cache entry and the rendered frame.
    pub sequence: String,
    /// Position of the frame in the sequence, counted from 1.
    pub frame: u32,
    pub genome_id: u32,
    pub genome2_id: u32,
}

pub struct WorkItemView {
    pub sequence: Seq<char>,
    pub frame: u32,
    pub genome_id: u32,
    pub genome2_id: u32,
}

impl View for WorkItem {
    type V = WorkItemView;

    open spec fn view(&self) -> WorkItemView {
        WorkItemView {
            sequence: self.sequence@,
            frame: self.frame,
            genome_id: self.genome_id,
            genome2_id: self.genome2_id,
        }
    }
}

impl WorkItemView {
    /// The frame position is counted from 1, so 0 names no frame.
    pub open spec fn renderable(self) -> bool {
        self.frame >= 1
    }
}

impl WorkItem {
    /// Whether the frame position names a frame.
    pub fn renderable(&self) -> (r: bool)
        ensures
            r == self@.renderable(),
    {
        self.frame >= 1
    }
}

/// The views of a list of work items, in order.
pub open spec fn work_views(items: Seq<WorkItem>) -> Seq<WorkItemView> {
    Seq::new(items.len(), |i: int| items[i]@)
}

} // verus!
