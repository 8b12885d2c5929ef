//! The genome cache: one decompressed file per sequence, fetched from the
//! coordinator the first time a job needs it. A file that exists is taken
//! as valid; only a missing file triggers a fetch.

use vstd::prelude::*;
use vstd::string::StringExecFns;
use crate::coordinator::Fetch;
use crate::coordinator::FetchView;
use crate::errors::JobError;
use crate::errors::JobErrorView;
use crate::model::Config;
use crate::model::ConfigView;
use crate::model::Season;
use crate::model::SeasonView;
use crate::model::WorkItem;
use crate::model::WorkItemView;
use crate::text::lemma_middle_determined;

verus! {

#[verifier::external_type_specification]
#[verifier::external_body]
pub struct ExIoError(std::io::Error);

/// What decoding `data` as a gzip stream yields: the content of its first
/// member, or nothing where `data` is not a well-formed stream.
pub uninterp spec fn gunzipped(data: Seq<u8>) -> Option<Seq<u8>>;

/// Decodes a gzip stream held in memory with `flate2::read::GzDecoder`, read
/// to its end. The decoder reads nothing but `data`, so the outcome depends
/// on `data` alone; it is `Ok` exactly when the decoder reports no error.
#[verifier::external_body]
fn gunzip(data: &[u8]) -> (r: Result<Vec<u8>, std::io::Error>)
    ensures
        match r {
            Ok(content) => gunzipped(data@) == Some(content@),
            Err(_) => gunzipped(data@) is None,
        },
{
    let mut content = Vec::new();
    let mut decoder = flate2::read::GzDecoder::new(data);
    match std::io::Read::read_to_end(&mut decoder, &mut content) {
        Ok(_) => Ok(content),
        Err(e) => Err(e),
    }
}

/// Where the genome of a sequence is cached, whatever the season.
pub open spec fn genome_file(sequence: Seq<char>) -> Seq<char> {
    "flames/"@ + sequence + ".flame"@
}

/// Where the coordinator keeps the compressed genome of a sequence.
pub open spec fn genome_url(config: ConfigView, season: SeasonView, work: WorkItemView) -> Seq<
    char,
> {
    config.server + "/"@ + season.name + "/animated_genomes/"@ + work.sequence + ".flame.gz"@
}

/// Where a genome is written before it is moved into place.
pub open spec fn partial_file(target: Seq<char>) -> Seq<char> {
    target + ".part"@
}

/// What has to happen before a job's genome can be read.
#[derive(Clone, Debug, PartialEq, Eq)]
pub enum GenomePlan {
    /// The genome is cached in this file.
    Cached(String),
    /// The genome has to be fetched with `request` and stored in `target`.
    Download { request: Fetch, target: String },
}

pub enum GenomePlanView {
    Cached(Seq<char>),
    Download { request: FetchView, target: Seq<char> },
}

impl View for GenomePlan {
    type V = GenomePlanView;

    open spec fn view(&self) -> GenomePlanView {
        match self {
            GenomePlan::Cached(path) => GenomePlanView::Cached(path@),
            GenomePlan::Download { request, target } => GenomePlanView::Download {
                request: request@,
                target: target@,
            },
        }
    }
}

/// The plan for a job's genome, given whether its cache file exists. The
/// payload is compressed at rest, so the fetch goes over a transport that
/// does not compress again.
pub open spec fn genome_plan(
    config: ConfigView,
    season: SeasonView,
    work: WorkItemView,
    present: bool,
) -> Result<GenomePlanView, JobErrorView> {
    if present {
        Ok(GenomePlanView::Cached(genome_file(work.sequence)))
    } else if config.no_download {
        Err(JobErrorView::CacheUnavailable)
    } else {
        Ok(
            GenomePlanView::Download {
                request: FetchView { url: genome_url(config, season, work), gzip: false },
                target: genome_file(work.sequence),
            },
        )
    }
}

/// The view of a plan or of the error in its place.
pub open spec fn plan_view(r: Result<GenomePlan, JobError>) -> Result<GenomePlanView, JobErrorView> {
    match r {
        Ok(plan) => Ok(plan@),
        Err(e) => Err(e@),
    }
}

/// The cache file of a job's genome.
pub fn genome_path(work: &WorkItem) -> (r: String)
    ensures
        r@ == genome_file(work@.sequence),
{
    let mut r = String::from_str("flames/");
    r.append(work.sequence.as_str());
    r.append(".flame");
    r
}

/// Decides how a job gets its genome. `present` says whether the file
/// `genome_path(work)` exists.
pub fn get_genome(config: &Config, season: &Season, work: &WorkItem, present: bool) -> (r: Result<
    GenomePlan,
    JobError,
>)
    ensures
        plan_view(r) == genome_plan(config@, season@, work@, present),
{
    let target = genome_path(work);
    if present {
        Ok(GenomePlan::Cached(target))
    } else if config.no_download {
        Err(JobError::CacheUnavailable)
    } else {
        let mut url = config.server.clone();
        url.append("/");
        url.append(season.name.as_str());
        url.append("/animated_genomes/");
        url.append(work.sequence.as_str());
        url.append(".flame.gz");
        Ok(GenomePlan::Download { request: Fetch { url, gzip: false }, target })
    }
}

/// A file to write: first to `partial`, then moved over `target` in one step,
/// so that a reader never sees half a genome.
#[derive(Clone, Debug, PartialEq, Eq)]
pub struct Store {
    pub partial: String,
    pub target: String,
    pub content: Vec<u8>,
}

pub struct StoreView {
    pub partial: Seq<char>,
    pub target: Seq<char>,
    pub content: Seq<u8>,
}

impl View for Store {
    type V = StoreView;

    open spec fn view(&self) -> StoreView {
        StoreView { partial: self.partial@, target: self.target@, content: self.content@ }
    }
}

/// What is stored in `target` once the fetched payload decoded to `decoded`.
pub open spec fn store_of(target: Seq<char>, decoded: Option<Seq<u8>>) -> Result<
    StoreView,
    JobErrorView,
> {
    match decoded {
        Some(content) => Ok(StoreView { partial: partial_file(target), target, content }),
        None => Err(JobErrorView::Decompress),
    }
}

/// The view of a store or of the error in its place.
pub open spec fn store_view(r: Result<Store, JobError>) -> Result<StoreView, JobErrorView> {
    match r {
        Ok(store) => Ok(store@),
        Err(e) => Err(e@),
    }
}

/// The content of a decoding result, if there is one.
pub open spec fn decoded_view(decoded: Result<Vec<u8>, std::io::Error>) -> Option<Seq<u8>> {
    match decoded {
        Ok(content) => Some(content@),
        Err(_) => None,
    }
}

/// Turns a decoding result into the file to write, or into the error that
/// abandons the job.
pub fn store_decoded(target: String, decoded: Result<Vec<u8>, std::io::Error>) -> (r: Result<
    Store,
    JobError,
>)
    ensures
        store_view(r) == store_of(target@, decoded_view(decoded)),
{
    match decoded {
        Ok(content) => {
            let mut partial = target.clone();
            partial.append(".part");
            Ok(Store { partial, target, content })
        },
        Err(_) => Err(JobError::Decompress),
    }
}

/// Decompresses a fetched genome and says where to store it.
pub fn fill_cache(target: String, compressed: &[u8]) -> (r: Result<Store, JobError>)
    ensures
        store_view(r) == store_of(target@, gunzipped(compressed@)),
{
    store_decoded(target, gunzip(compressed))
}

/// One request for a genome, in a model of the cache over time: the job, and
/// whether fetching, decoding and writing succeed if they are attempted.
pub struct Lookup {
    pub season: SeasonView,
    pub work: WorkItemView,
    pub fetched: bool,
}

/// Whether a plan asks for a fetch.
pub open spec fn asks_download(plan: Result<GenomePlanView, JobErrorView>) -> bool {
    plan matches Ok(GenomePlanView::Download { .. })
}

/// The plan for a lookup when the cache directory holds `files`.
pub open spec fn lookup_plan(config: ConfigView, files: Set<Seq<char>>, lookup: Lookup) -> Result<
    GenomePlanView,
    JobErrorView,
> {
    genome_plan(
        config,
        lookup.season,
        lookup.work,
        files.contains(genome_file(lookup.work.sequence)),
    )
}

/// Whether a lookup ends in a completed download.
pub open spec fn downloads(config: ConfigView, files: Set<Seq<char>>, lookup: Lookup) -> bool {
    asks_download(lookup_plan(config, files, lookup)) && lookup.fetched
}

/// The cache directory after a lookup: files are added, never removed.
pub open spec fn files_after(config: ConfigView, files: Set<Seq<char>>, lookup: Lookup) -> Set<
    Seq<char>,
> {
    if downloads(config, files, lookup) {
        files.insert(genome_file(lookup.work.sequence))
    } else {
        files
    }
}

/// The cache directory after a run of lookups.
pub open spec fn files_after_all(
    config: ConfigView,
    files: Set<Seq<char>>,
    lookups: Seq<Lookup>,
) -> Set<Seq<char>>
    decreases lookups.len(),
{
    if lookups.len() == 0 {
        files
    } else {
        files_after_all(config, files_after(config, files, lookups[0]), lookups.drop_first())
    }
}

/// How many lookups of `sequence` in a run end in a completed download.
pub open spec fn download_count(
    config: ConfigView,
    files: Set<Seq<char>>,
    lookups: Seq<Lookup>,
    sequence: Seq<char>,
) -> nat
    decreases lookups.len(),
{
    if lookups.len() == 0 {
        0
    } else {
        let first = lookups[0];
        let here: nat = if first.work.sequence == sequence && downloads(config, files, first) {
            1
        } else {
            0
        };
        here + download_count(
            config,
            files_after(config, files, first),
            lookups.drop_first(),
            sequence,
        )
    }
}

/// A file that is in the cache stays there.
pub proof fn lemma_files_stay(
    config: ConfigView,
    files: Set<Seq<char>>,
    lookups: Seq<Lookup>,
    file: Seq<char>,
)
    requires
        files.contains(file),
    ensures
        files_after_all(config, files, lookups).contains(file),
    decreases lookups.len(),
{
    if lookups.len() > 0 {
        lemma_files_stay(config, files_after(config, files, lookups[0]), lookups.drop_first(), file);
    }
}

/// Once a sequence's genome is cached, no lookup of it downloads again.
pub proof fn lemma_cached_never_downloads(
    config: ConfigView,
    files: Set<Seq<char>>,
    lookups: Seq<Lookup>,
    sequence: Seq<char>,
)
    requires
        files.contains(genome_file(sequence)),
    ensures
        download_count(config, files, lookups, sequence) == 0,
    decreases lookups.len(),
{
    if lookups.len() > 0 {
        lemma_cached_never_downloads(
            config,
            files_after(config, files, lookups[0]),
            lookups.drop_first(),
            sequence,
        );
    }
}

/// Over any run of lookups, from any state of the cache directory, the
/// genome of one sequence is downloaded at most once.
pub proof fn lemma_at_most_one_download(
    config: ConfigView,
    files: Set<Seq<char>>,
    lookups: Seq<Lookup>,
    sequence: Seq<char>,
)
    ensures
        download_count(config, files, lookups, sequence) <= 1,
    decreases lookups.len(),
{
    if lookups.len() > 0 {
        let first = lookups[0];
        let next = files_after(config, files, first);
        if first.work.sequence == sequence && downloads(config, files, first) {
            lemma_cached_never_downloads(config, next, lookups.drop_first(), sequence);
        } else {
            lemma_at_most_one_download(config, next, lookups.drop_first(), sequence);
        }
    }
}

/// After a completed download, every later lookup of the same sequence,
/// whatever happened in between, is served from the same file and asks for
/// no fetch.
pub proof fn lemma_same_path_without_fetch(
    config: ConfigView,
    files: Set<Seq<char>>,
    first: Lookup,
    between: Seq<Lookup>,
    later: Lookup,
)
    requires
        downloads(config, files, first),
        later.work.sequence == first.work.sequence,
    ensures
        lookup_plan(config, files_after_all(config, files_after(config, files, first), between), later)
            == Ok::<GenomePlanView, JobErrorView>(
            GenomePlanView::Cached(genome_file(first.work.sequence)),
        ),
{
    lemma_files_stay(
        config,
        files_after(config, files, first),
        between,
        genome_file(first.work.sequence),
    );
}

/// The cache is keyed by the sequence: two sequences with the same cache
/// file are the same sequence.
pub proof fn lemma_cache_file_names_one_sequence(first: Seq<char>, second: Seq<char>)
    requires
        genome_file(first) == genome_file(second),
    ensures
        first == second,
{
    lemma_middle_determined("flames/"@, first, second, ".flame"@);
}

} // verus!
