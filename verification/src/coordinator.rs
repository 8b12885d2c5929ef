//! The requests the worker sends to the coordinator to learn the active
//! season and to claim work, and the settings of the client that sends them.

use vstd::prelude::*;
use vstd::string::StringExecFns;
use crate::errors::PollError;
use crate::errors::PollErrorView;
use crate::model::Config;
use crate::model::ConfigView;

verus! {

/// How an HTTP client is set up: every client trusts the one pinned
/// certificate and nothing else.
#[derive(Clone, Debug, PartialEq, Eq)]
pub struct ClientSettings {
    /// Ask the server to compress answers in transit.
    pub gzip: bool,
    /// File that holds the coordinator's certificate, DER encoded.
    pub certificate: String,
}

pub struct ClientSettingsView {
    pub gzip: bool,
    pub certificate: Seq<char>,
}

impl View for ClientSettings {
    type V = ClientSettingsView;

    open spec fn view(&self) -> ClientSettingsView {
        ClientSettingsView { gzip: self.gzip, certificate: self.certificate@ }
    }
}

/// The file that holds the pinned certificate.
pub open spec fn pinned_certificate() -> Seq<char> {
    "sheeps.der"@
}

/// The settings of a client with the given transport compression.
pub fn build_client(gzip: bool) -> (r: ClientSettings)
    ensures
        r@ == (ClientSettingsView { gzip, certificate: pinned_certificate() }),
{
    ClientSettings { gzip, certificate: String::from_str("sheeps.der") }
}

/// A GET request.
#[derive(Clone, Debug, PartialEq, Eq)]
pub struct Fetch {
    pub url: String,
    /// Whether the client that sends it compresses the transport.
    pub gzip: bool,
}

pub struct FetchView {
    pub url: Seq<char>,
    pub gzip: bool,
}

impl View for Fetch {
    type V = FetchView;

    open spec fn view(&self) -> FetchView {
        FetchView { url: self.url@, gzip: self.gzip }
    }
}

/// The query that every call of the coordinator's API carries: the key and
/// the compute class.
pub open spec fn api_query(config: ConfigView) -> Seq<char> {
    "?apikey="@ + config.apikey + "&gpu=true"@
}

/// Address of the endpoint that names the active season.
pub open spec fn active_season_url(config: ConfigView) -> Seq<char> {
    config.server + "/api/active_season"@ + api_query(config)
}

/// Address of the endpoint that hands out work.
pub open spec fn request_work_url(config: ConfigView) -> Seq<char> {
    config.server + "/api/request_work"@ + api_query(config)
}

/// Appends `path` and the API query to the server's address.
fn api_url(config: &Config, path: &str) -> (r: String)
    ensures
        r@ == config@.server + path@ + api_query(config@),
{
    let mut r = config.server.clone();
    r.append(path);
    r.append("?apikey=");
    r.append(config.apikey.as_str());
    r.append("&gpu=true");
    assert(r@ =~= config@.server + path@ + api_query(config@));
    r
}

/// The request for the currently active season.
pub fn get_active_season(config: &Config) -> (r: Fetch)
    ensures
        r@ == (FetchView { url: active_season_url(config@), gzip: true }),
{
    Fetch { url: api_url(config, "/api/active_season"), gzip: true }
}

/// The request that claims a batch of work.
pub fn request_work(config: &Config) -> (r: Fetch)
    ensures
        r@ == (FetchView { url: request_work_url(config@), gzip: true }),
{
    Fetch { url: api_url(config, "/api/request_work"), gzip: true }
}

/// What the transport reports of one poll.
#[derive(Clone, Copy, Debug, PartialEq, Eq, Structural)]
pub struct PollReport {
    /// The coordinator's certificate was the pinned one.
    pub trusted: bool,
    /// The request got through and an answer came back.
    pub answered: bool,
    /// The answer's HTTP status; meaningless unless `answered`.
    pub status: u16,
    /// The answer's body had the expected shape.
    pub decoded: bool,
}

/// What a poll failed with, if it failed. A coordinator that cannot be
/// trusted is a trust error whatever else is reported; a request without an
/// answer is a transport error; an answer with a status outside 2xx, or
/// with a body of another shape, is a protocol error.
pub open spec fn poll_failure(report: PollReport, detail: Seq<char>) -> Option<PollErrorView> {
    if !report.trusted {
        Some(PollErrorView::Trust(detail))
    } else if !report.answered {
        Some(PollErrorView::Transport(detail))
    } else if !(200 <= report.status <= 299) || !report.decoded {
        Some(PollErrorView::Protocol(detail))
    } else {
        None
    }
}

/// The view of a failure, if there is one.
pub open spec fn failure_view(r: Option<PollError>) -> Option<PollErrorView> {
    match r {
        Some(e) => Some(e@),
        None => None,
    }
}

/// Names the failure of a poll, or finds that it succeeded.
pub fn classify_poll(report: PollReport, detail: String) -> (r: Option<PollError>)
    ensures
        failure_view(r) == poll_failure(report, detail@),
{
    if !report.trusted {
        Some(PollError::Trust(detail))
    } else if !report.answered {
        Some(PollError::Transport(detail))
    } else if report.status < 200 || report.status > 299 || !report.decoded {
        Some(PollError::Protocol(detail))
    } else {
        None
    }
}

} // verus!
