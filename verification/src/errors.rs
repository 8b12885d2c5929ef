//! Why a poll or a job did not succeed.

use vstd::prelude::*;
use vstd::string::StringExecFns;

verus! {

/// A failed query of the coordinator's season or work endpoint.
#[derive(Clone, Debug, PartialEq, Eq)]
pub enum PollError {
    /// The network or the TLS session failed.
    Transport(String),
    /// The answer did not have the expected shape.
    Protocol(String),
    /// The pinned certificate could not be loaded or did not validate.
    Trust(String),
}

pub enum PollErrorView {
    Transport(Seq<char>),
    Protocol(Seq<char>),
    Trust(Seq<char>),
}

impl View for PollError {
    type V = PollErrorView;

    open spec fn view(&self) -> PollErrorView {
        match self {
            PollError::Transport(m) => PollErrorView::Transport(m@),
            PollError::Protocol(m) => PollErrorView::Protocol(m@),
            PollError::Trust(m) => PollErrorView::Trust(m@),
        }
    }
}

impl PollErrorView {
    /// One line that names the kind of failure and gives its detail.
    pub open spec fn message(self) -> Seq<char> {
        match self {
            PollErrorView::Transport(m) => "transport error: "@ + m,
            PollErrorView::Protocol(m) => "protocol error: "@ + m,
            PollErrorView::Trust(m) => "trust error: "@ + m,
        }
    }
}

impl PollError {
    /// One line that names the kind of failure and gives its detail.
    pub fn message(&self) -> (r: String)
        ensures
            r@ == self@.message(),
    {
        match self {
            PollError::Transport(m) => String::from_str("transport error: ").concat(m.as_str()),
            PollError::Protocol(m) => String::from_str("protocol error: ").concat(m.as_str()),
            PollError::Trust(m) => String::from_str("trust error: ").concat(m.as_str()),
        }
    }
}

/// Why one job was abandoned.
#[derive(Clone, Debug, PartialEq, Eq)]
pub enum JobError {
    /// The genome could not be fetched.
    Download(String),
    /// The fetched genome is not a gzip stream.
    Decompress,
    /// The genome could not be written to the cache.
    Io(String),
    /// The genome is not cached and fetching is switched off.
    CacheUnavailable,
    /// The renderer did not start or did not exit cleanly; holds what it printed.
    Render(String),
    /// The coordinator did not accept the frame; holds what it answered.
    Upload(String),
}

pub enum JobErrorView {
    Download(Seq<char>),
    Decompress,
    Io(Seq<char>),
    CacheUnavailable,
    Render(Seq<char>),
    Upload(Seq<char>),
}

impl View for JobError {
    type V = JobErrorView;

    open spec fn view(&self) -> JobErrorView {
        match self {
            JobError::Download(m) => JobErrorView::Download(m@),
            JobError::Decompress => JobErrorView::Decompress,
            JobError::Io(m) => JobErrorView::Io(m@),
            JobError::CacheUnavailable => JobErrorView::CacheUnavailable,
            JobError::Render(m) => JobErrorView::Render(m@),
            JobError::Upload(m) => JobErrorView::Upload(m@),
        }
    }
}

impl JobErrorView {
    /// One line that names the kind of failure and gives its detail.
    pub open spec fn message(self) -> Seq<char> {
        match self {
            JobErrorView::Download(m) => "download error: "@ + m,
            JobErrorView::Decompress => "decompress error: malformed gzip stream"@,
            JobErrorView::Io(m) => "io error: "@ + m,
            JobErrorView::CacheUnavailable => "cache unavailable: genome not cached and download disabled"@,
            JobErrorView::Render(m) => "render error: "@ + m,
            JobErrorView::Upload(m) => "upload error: "@ + m,
        }
    }
}

impl JobError {
    /// One line that names the kind of failure and gives its detail.
    pub fn message(&self) -> (r: String)
        ensures
            r@ == self@.message(),
    {
        match self {
            JobError::Download(m) => String::from_str("download error: ").concat(m.as_str()),
            JobError::Decompress => String::from_str("decompress error: malformed gzip stream"),
            JobError::Io(m) => String::from_str("io error: ").concat(m.as_str()),
            JobError::CacheUnavailable => String::from_str(
                "cache unavailable: genome not cached and download disabled",
            ),
            JobError::Render(m) => String::from_str("render error: ").concat(m.as_str()),
            JobError::Upload(m) => String::from_str("upload error: ").concat(m.as_str()),
        }
    }
}

} // verus!
