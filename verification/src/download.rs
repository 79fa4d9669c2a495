//! The synchronisation of one model with the cache, as a machine that is
//! told what happened and says what to do next.
//!
//! A `Download` never acts. Its `action` names the one thing that has to
//! happen now (a request, a look at the cache, a write), and `step` takes the
//! outcome and moves on. Whoever drives it performs the actions in turn
//! until a step ends in `Finished` or `Failed`.

use crate::cache::{
    cache_filename, cache_filename_spec, etag_filename, etag_filename_spec, etag_matches,
    etag_matches_spec, fetch_etag, file_url, file_url_spec,
};
use crate::endpoint::{endpoint_spec, get_model_endpoint};
use crate::env::EnvVar;
use crate::error::{failure, DownloadError, DownloadErrorView};
use crate::http::{is_success, status_detail_spec};
use crate::manifest::{
    fetch_manifest, fetch_manifest_spec, fetch_tree_files, fetch_tree_files_spec, file_views,
    manifest_filename, manifest_filename_spec, manifest_url, manifest_url_spec, tree_url,
    tree_url_spec, GgufFile, GgufFileView, Manifest, ManifestResponse, ManifestResponseView,
    ManifestView, TreeResponse, TreeResponseView,
};
use crate::model_ref::{parse_spec, ModelRef, ModelRefView};
use crate::shards::{lemma_sorted_by_name, names_ascend, shard_entries, shards_spec};
use crate::transfer::{
    download_file, range_header, range_header_spec, transfer_spec, Transfer, WriteMode,
};
use vstd::prelude::*;

verus! {

/// What a download waits for.
#[derive(Clone, Copy, Debug, PartialEq, Eq, Structural)]
pub enum Phase {
    /// The cache directory.
    CacheDir,
    /// The manifest of the reference.
    Manifest,
    /// The listing that names the shards.
    Listing,
    /// The validator of the next file in the registry.
    Probe,
    /// What the cache holds of the next file.
    Inspect,
    /// The validator of the next file being kept.
    SaveEtag,
    /// The head of the registry's answer to the request for the next file.
    Request,
    /// The bytes of the next file being written.
    Write,
    /// The manifest being kept.
    SaveManifest,
}

/// What has to happen next.
#[derive(Debug, PartialEq, Eq)]
pub enum Action {
    /// Find the cache directory and make it if it is not there.
    PrepareCacheDir,
    /// Ask the registry for the manifest at `url`.
    GetManifest { url: String },
    /// Ask the registry for the listing at `url`.
    GetListing { url: String },
    /// Ask for the head of `url` without following redirections, and read
    /// the validator that the answer links.
    ProbeEtag { url: String },
    /// Look in the cache for the file `filename` and for the validator kept
    /// in `etag_filename`.
    InspectCache { filename: String, etag_filename: String },
    /// Write `etag` to the cache file `etag_filename`, in place of what it
    /// holds.
    SaveEtag { etag_filename: String, etag: String },
    /// Ask the registry for the bytes at `url`, from the place that `range`
    /// names where there is one.
    RequestFile { url: String, range: Option<String> },
    /// Write the body of the answer to the cache file `filename` as
    /// `transfer` says.
    WriteFile { filename: String, transfer: Transfer },
    /// Write `body` to the cache file `filename`, in place of what it holds.
    SaveManifest { filename: String, body: String },
}

/// An `Action` with its texts as sequences of characters.
pub enum ActionView {
    PrepareCacheDir,
    GetManifest { url: Seq<char> },
    GetListing { url: Seq<char> },
    ProbeEtag { url: Seq<char> },
    InspectCache { filename: Seq<char>, etag_filename: Seq<char> },
    SaveEtag { etag_filename: Seq<char>, etag: Seq<char> },
    RequestFile { url: Seq<char>, range: Option<Seq<char>> },
    WriteFile { filename: Seq<char>, transfer: Transfer },
    SaveManifest { filename: Seq<char>, body: Seq<char> },
}

/// An optional text as a sequence of characters.
pub open spec fn text_view(t: Option<String>) -> Option<Seq<char>> {
    match t {
        Some(s) => Some(s@),
        None => None,
    }
}

/// The views of a sequence of texts.
pub open spec fn text_views(texts: Seq<String>) -> Seq<Seq<char>> {
    Seq::new(texts.len(), |i: int| texts[i]@)
}

impl View for Action {
    type V = ActionView;

    open spec fn view(&self) -> ActionView {
        match self {
            Action::GetManifest { url } => ActionView::GetManifest { url: url@ },
            Action::GetListing { url } => ActionView::GetListing { url: url@ },
            Action::PrepareCacheDir => ActionView::PrepareCacheDir,
            Action::ProbeEtag { url } => ActionView::ProbeEtag { url: url@ },
            Action::InspectCache { filename, etag_filename } => ActionView::InspectCache {
                filename: filename@,
                etag_filename: etag_filename@,
            },
            Action::SaveEtag { etag_filename, etag } => ActionView::SaveEtag {
                etag_filename: etag_filename@,
                etag: etag@,
            },
            Action::RequestFile { url, range } => ActionView::RequestFile {
                url: url@,
                range: text_view(*range),
            },
            Action::WriteFile { filename, transfer } => ActionView::WriteFile {
                filename: filename@,
                transfer: *transfer,
            },
            Action::SaveManifest { filename, body } => ActionView::SaveManifest {
                filename: filename@,
                body: body@,
            },
        }
    }
}

/// What happened to the action that a download asked for.
#[derive(Debug, PartialEq, Eq)]
pub enum Event {
    /// The cache directory is there.
    CacheDirReady,
    /// The registry answered the request for the manifest.
    Manifest(ManifestResponse),
    /// The registry answered the request for the listing.
    Listing(TreeResponse),
    /// The registry answered the probe; `header` is the validator that the
    /// answer links, if it links one as text.
    Etag { header: Option<String> },
    /// The cache was looked at. `exists` says whether the file is there,
    /// `size` is its size where that could be read, and `stored_etag` the
    /// validator kept beside it where one could be read.
    Cached { exists: bool, size: Option<u64>, stored_etag: Option<String> },
    /// What was to be kept is written.
    Saved,
    /// The registry answered the request for the file with this status and,
    /// where it announced one, this length of the body.
    Response { status: u16, content_length: Option<u64> },
    /// The body was written to its end.
    Downloaded,
    /// The action failed; `detail` says how.
    Failed { detail: String },
}

/// An `Event` with its texts as sequences of characters.
pub enum EventView {
    CacheDirReady,
    Manifest(ManifestResponseView),
    Listing(TreeResponseView),
    Etag { header: Option<Seq<char>> },
    Cached { exists: bool, size: Option<u64>, stored_etag: Option<Seq<char>> },
    Saved,
    Response { status: u16, content_length: Option<u64> },
    Downloaded,
    Failed { detail: Seq<char> },
}

impl View for Event {
    type V = EventView;

    open spec fn view(&self) -> EventView {
        match self {
            Event::Manifest(r) => EventView::Manifest(r@),
            Event::Listing(r) => EventView::Listing(r@),
            Event::CacheDirReady => EventView::CacheDirReady,
            Event::Etag { header } => EventView::Etag { header: text_view(*header) },
            Event::Cached { exists, size, stored_etag } => EventView::Cached {
                exists: *exists,
                size: *size,
                stored_etag: text_view(*stored_etag),
            },
            Event::Saved => EventView::Saved,
            Event::Response { status, content_length } => EventView::Response {
                status: *status,
                content_length: *content_length,
            },
            Event::Downloaded => EventView::Downloaded,
            Event::Failed { detail } => EventView::Failed { detail: detail@ },
        }
    }
}

/// The synchronisation of one model with the cache, part of the way through.
#[derive(Debug)]
pub struct Download {
    model_ref: ModelRef,
    endpoint: String,
    phase: Phase,
    manifest: Manifest,
    remote_etag: String,
    resume_from: u64,
    transfer: Transfer,
    paths: Vec<String>,
}

/// A `Download` as a plain value.
pub struct DownloadView {
    /// The model that is synchronised.
    pub model_ref: ModelRefView,
    /// The base address of the registry.
    pub endpoint: Seq<char>,
    /// What the download waits for.
    pub phase: Phase,
    /// The files of the model, as far as they are known, and the manifest
    /// as it was received.
    pub manifest: ManifestView,
    /// The validator that the registry reported for the next file.
    pub remote_etag: Seq<char>,
    /// The number of bytes of the next file that are kept.
    pub resume_from: u64,
    /// How the next file is written.
    pub transfer: Transfer,
    /// The cache names of the files that are complete, in their order.
    pub paths: Seq<Seq<char>>,
}

impl View for Download {
    type V = DownloadView;

    closed spec fn view(&self) -> DownloadView {
        DownloadView {
            model_ref: self.model_ref@,
            endpoint: self.endpoint@,
            phase: self.phase,
            manifest: self.manifest@,
            remote_etag: self.remote_etag@,
            resume_from: self.resume_from,
            transfer: self.transfer,
            paths: text_views(self.paths@),
        }
    }
}

/// The outcome of a step of a download.
#[derive(Debug)]
pub enum Step {
    /// The download goes on: `state.action()` is due.
    Continue { state: Download },
    /// Every file is in the cache and the manifest is kept; `paths` are the
    /// cache names of the files, in the order of the manifest.
    Finished { paths: Vec<String> },
    /// The download ended without its result.
    Failed { error: DownloadError },
}

/// A `Step` as a plain value.
pub enum StepView {
    Continue { state: DownloadView },
    Finished { paths: Seq<Seq<char>> },
    Failed { error: DownloadErrorView },
}

impl View for Step {
    type V = StepView;

    open spec fn view(&self) -> StepView {
        match self {
            Step::Continue { state } => StepView::Continue { state: state@ },
            Step::Finished { paths } => StepView::Finished { paths: text_views(paths@) },
            Step::Failed { error } => StepView::Failed { error: error@ },
        }
    }
}

impl DownloadView {
    /// The files of the model as far as they are known.
    pub open spec fn files(self) -> Seq<GgufFileView> {
        self.manifest.gguf_files
    }

    /// The file that is worked on: the first that is not complete.
    pub open spec fn current(self) -> GgufFileView {
        self.files()[self.paths.len() as int]
    }

    /// The address of the bytes of the file that is worked on.
    pub open spec fn current_url(self) -> Seq<char> {
        file_url_spec(self.endpoint, self.model_ref, self.current().filename)
    }

    /// The cache name of the file that is worked on.
    pub open spec fn current_name(self) -> Seq<char> {
        cache_filename_spec(self.model_ref, self.current().filename)
    }

    /// Whether the parts of the download fit together. The complete files
    /// are the first files of the manifest, under their cache names. Before
    /// the manifest is read no file is known, and while the shards are
    /// listed the one declared file is. A file is worked on only while one
    /// is left, and the manifest is kept only when none is.
    pub open spec fn wf(self) -> bool {
        &&& self.paths.len() <= self.files().len()
        &&& forall|i: int|
            0 <= i < self.paths.len() ==> #[trigger] self.paths[i] == cache_filename_spec(
                self.model_ref,
                self.files()[i].filename,
            )
        &&& match self.phase {
            Phase::CacheDir | Phase::Manifest => self.files().len() == 0,
            Phase::Listing => self.files().len() == 1 && self.paths.len() == 0,
            Phase::Probe | Phase::Inspect | Phase::SaveEtag | Phase::Request | Phase::Write =>
                self.paths.len() < self.files().len(),
            Phase::SaveManifest => self.paths.len() == self.files().len(),
        }
    }

    /// The download with the file that is worked on complete: its cache name
    /// is added, and the next file is probed, or the manifest kept where no
    /// file is left.
    pub open spec fn file_done(self) -> DownloadView {
        let paths = self.paths.push(self.current_name());
        DownloadView {
            paths,
            phase: if paths.len() == self.files().len() {
                Phase::SaveManifest
            } else {
                Phase::Probe
            },
            ..self
        }
    }

    /// The download in another phase.
    pub open spec fn at(self, phase: Phase) -> DownloadView {
        DownloadView { phase, ..self }
    }
}

/// The download of a model at its start: nothing is known but the reference
/// and the registry, and the cache directory is due.
pub open spec fn start_spec(model_ref: ModelRefView, endpoint: Seq<char>) -> DownloadView {
    DownloadView {
        model_ref,
        endpoint,
        phase: Phase::CacheDir,
        manifest: ManifestView { gguf_files: Seq::empty(), raw_json: Seq::empty() },
        remote_etag: Seq::empty(),
        resume_from: 0,
        transfer: Transfer { mode: WriteMode::Truncate, position: 0, total_size: 0 },
        paths: Seq::empty(),
    }
}

/// What a download asks for in each phase.
pub open spec fn action_spec(s: DownloadView) -> ActionView {
    match s.phase {
        Phase::CacheDir => ActionView::PrepareCacheDir,
        Phase::Manifest => ActionView::GetManifest {
            url: manifest_url_spec(s.endpoint, s.model_ref),
        },
        Phase::Listing => ActionView::GetListing {
            url: tree_url_spec(s.endpoint, s.model_ref, s.files()[0].filename),
        },
        Phase::Probe => ActionView::ProbeEtag { url: s.current_url() },
        Phase::Inspect => ActionView::InspectCache {
            filename: s.current_name(),
            etag_filename: etag_filename_spec(s.current_name()),
        },
        Phase::SaveEtag => ActionView::SaveEtag {
            etag_filename: etag_filename_spec(s.current_name()),
            etag: s.remote_etag,
        },
        Phase::Request => ActionView::RequestFile {
            url: s.current_url(),
            range: range_header_spec(s.resume_from),
        },
        Phase::Write => ActionView::WriteFile { filename: s.current_name(), transfer: s.transfer },
        Phase::SaveManifest => ActionView::SaveManifest {
            filename: manifest_filename_spec(s.model_ref),
            body: s.manifest.raw_json,
        },
    }
}

/// What the failure of an action means. A look at the cache that fails
/// finds nothing current, and the file is fetched anew. Every other failure
/// ends the download: a cache directory that cannot be had, a failed fetch
/// where the manifest, a probe or the request for a file failed, a failed
/// listing, and a failed write where keeping a validator, the bytes of a
/// file or the manifest failed.
pub open spec fn failed_spec(s: DownloadView, detail: Seq<char>) -> StepView {
    match s.phase {
        Phase::CacheDir => StepView::Failed { error: DownloadErrorView::CacheDir(detail) },
        Phase::Manifest | Phase::Probe | Phase::Request => StepView::Failed {
            error: DownloadErrorView::ManifestFetch(detail),
        },
        Phase::Listing => StepView::Failed { error: DownloadErrorView::ShardListing(detail) },
        Phase::Inspect => StepView::Continue { state: s.at(Phase::SaveEtag) },
        Phase::SaveEtag | Phase::Write | Phase::SaveManifest => StepView::Failed {
            error: DownloadErrorView::FileWrite(detail),
        },
    }
}

/// The size of a file as far as it could be read: 0 where it could not.
pub open spec fn known_size(size: Option<u64>) -> u64 {
    match size {
        Some(n) => n,
        None => 0,
    }
}

/// What a look at the cache means for the file that is worked on. Where the
/// file is there and its kept validator matches the remote one, the file is
/// complete if it has the declared size or more, and is resumed behind what
/// is there if it has less; a size that could not be read counts as 0. In
/// every other case the remote validator is kept first.
pub open spec fn inspected_spec(
    s: DownloadView,
    exists: bool,
    size: Option<u64>,
    stored_etag: Option<Seq<char>>,
) -> DownloadView {
    let existing = known_size(size);
    if exists && etag_matches_spec(stored_etag, s.remote_etag) {
        if existing >= s.current().size {
            s.file_done()
        } else {
            DownloadView { resume_from: existing, phase: Phase::Request, ..s }
        }
    } else {
        s.at(Phase::SaveEtag)
    }
}

/// The step that a download takes on an event. An event that does not answer
/// the action of the phase changes nothing.
pub open spec fn step_spec(s: DownloadView, e: EventView) -> StepView {
    match e {
        EventView::Failed { detail } => failed_spec(s, detail),
        EventView::CacheDirReady => if s.phase == Phase::CacheDir {
            StepView::Continue { state: s.at(Phase::Manifest) }
        } else {
            StepView::Continue { state: s }
        },
        EventView::Manifest(response) => if s.phase == Phase::Manifest {
            match fetch_manifest_spec(s.endpoint, s.model_ref, response) {
                Err(error) => StepView::Failed { error },
                Ok(fetched) => StepView::Continue {
                    state: DownloadView {
                        manifest: fetched.manifest,
                        phase: if fetched.listing_url is Some {
                            Phase::Listing
                        } else {
                            Phase::Probe
                        },
                        ..s
                    },
                },
            }
        } else {
            StepView::Continue { state: s }
        },
        EventView::Listing(response) => if s.phase == Phase::Listing {
            match fetch_tree_files_spec(
                tree_url_spec(s.endpoint, s.model_ref, s.files()[0].filename),
                response,
            ) {
                Err(error) => StepView::Failed { error },
                Ok(shards) => StepView::Continue {
                    state: DownloadView {
                        manifest: ManifestView {
                            gguf_files: shards,
                            raw_json: s.manifest.raw_json,
                        },
                        phase: Phase::Probe,
                        ..s
                    },
                },
            }
        } else {
            StepView::Continue { state: s }
        },
        EventView::Etag { header } => if s.phase == Phase::Probe {
            StepView::Continue {
                state: DownloadView {
                    remote_etag: match header {
                        Some(h) => h,
                        None => Seq::empty(),
                    },
                    phase: Phase::Inspect,
                    ..s
                },
            }
        } else {
            StepView::Continue { state: s }
        },
        EventView::Cached { exists, size, stored_etag } => if s.phase == Phase::Inspect {
            StepView::Continue { state: inspected_spec(s, exists, size, stored_etag) }
        } else {
            StepView::Continue { state: s }
        },
        EventView::Saved => if s.phase == Phase::SaveEtag {
            StepView::Continue {
                state: DownloadView { resume_from: 0, phase: Phase::Request, ..s },
            }
        } else if s.phase == Phase::SaveManifest {
            StepView::Finished { paths: s.paths }
        } else {
            StepView::Continue { state: s }
        },
        EventView::Response { status, content_length } => if s.phase == Phase::Request {
            if is_success(status) {
                StepView::Continue {
                    state: DownloadView {
                        transfer: transfer_spec(status, content_length, s.resume_from),
                        phase: Phase::Write,
                        ..s
                    },
                }
            } else {
                StepView::Failed {
                    error: DownloadErrorView::ManifestFetch(
                        status_detail_spec(s.current_url(), status),
                    ),
                }
            }
        } else {
            StepView::Continue { state: s }
        },
        EventView::Downloaded => if s.phase == Phase::Write {
            StepView::Continue { state: s.file_done() }
        } else {
            StepView::Continue { state: s }
        },
    }
}

/// A download starts with its parts fitting together.
pub proof fn lemma_start_wf(model_ref: ModelRefView, endpoint: Seq<char>)
    ensures
        start_spec(model_ref, endpoint).wf(),
{
}

/// A step keeps the parts of a download fitting together.
pub proof fn lemma_step_wf(s: DownloadView, e: EventView)
    requires
        s.wf(),
    ensures
        step_spec(s, e) matches StepView::Continue { state } ==> state.wf(),
{
    let done = s.file_done();
    if s.paths.len() < s.files().len() {
        assert forall|i: int| 0 <= i < done.paths.len() implies #[trigger] done.paths[i]
            == cache_filename_spec(done.model_ref, done.files()[i].filename) by {
            if i < s.paths.len() {
                assert(done.paths[i] == s.paths[i]);
            }
        }
        assert(done.wf());
    }
}

/// The shards that a listing gave are fetched in ascending order of name:
/// behind the step that reads the listing, the names of the files ascend.
pub proof fn lemma_listed_shards_ascend(s: DownloadView, e: EventView)
    requires
        s.phase == Phase::Listing,
        e is Listing,
        step_spec(s, e) is Continue,
    ensures
        names_ascend(step_spec(s, e)->Continue_state.files()),
        step_spec(s, e)->Continue_state.files() == shards_spec(e->Listing_0.entries->Ok_0),
{
    lemma_sorted_by_name(shard_entries(e->Listing_0.entries->Ok_0));
}

/// The manifest is kept last: when a download asks to keep it, every file of
/// the manifest is complete and stands in the cache under its name.
pub proof fn lemma_manifest_kept_last(s: DownloadView)
    requires
        s.wf(),
        action_spec(s) is SaveManifest,
    ensures
        s.paths.len() == s.files().len(),
        forall|i: int|
            0 <= i < s.files().len() ==> #[trigger] s.paths[i] == cache_filename_spec(
                s.model_ref,
                s.files()[i].filename,
            ),
{
}

/// A download finishes only by keeping the manifest, and what it returns
/// are the cache names of all files in the order of the manifest.
pub proof fn lemma_finished_in_order(s: DownloadView, e: EventView)
    requires
        s.wf(),
        step_spec(s, e) is Finished,
    ensures
        s.phase == Phase::SaveManifest,
        e is Saved,
        step_spec(s, e)->Finished_paths.len() == s.files().len(),
        forall|i: int|
            0 <= i < s.files().len() ==> #[trigger] step_spec(s, e)->Finished_paths[i]
                == cache_filename_spec(s.model_ref, s.files()[i].filename),
{
}

/// No step forgets a complete file, and a step completes at most one: the
/// complete files before a step are the first of those after it.
pub proof fn lemma_complete_files_stay(s: DownloadView, e: EventView)
    requires
        s.wf(),
        step_spec(s, e) is Continue,
    ensures
        ({
            let next = step_spec(s, e)->Continue_state;
            &&& s.paths.len() <= next.paths.len() <= s.paths.len() + 1
            &&& next.paths.take(s.paths.len() as int) == s.paths
        }),
{
    let next = step_spec(s, e)->Continue_state;
    assert(next.paths.take(s.paths.len() as int) =~= s.paths);
}

/// A file counts as complete without a transfer only where the cache holds
/// it with the validator that the registry reports, which is not empty, and
/// with its declared size or more.
pub proof fn lemma_kept_only_if_current(s: DownloadView, e: EventView)
    requires
        s.wf(),
        s.phase != Phase::Write,
        step_spec(s, e) matches StepView::Continue { state } && state.paths.len()
            > s.paths.len(),
    ensures
        s.phase == Phase::Inspect,
        e matches EventView::Cached { exists, size, stored_etag } && exists && stored_etag
            == Some(s.remote_etag) && s.remote_etag.len() > 0 && known_size(size)
            >= s.current().size,
{
}

/// A file is asked for only behind a current validator: either the remote
/// validator was kept just before and the file is fetched from its start, or
/// the kept validator matches and the file is resumed behind the bytes that
/// are there, which are fewer than declared.
pub proof fn lemma_request_after_validator(s: DownloadView, e: EventView)
    requires
        s.wf(),
        s.phase != Phase::Request,
        step_spec(s, e) matches StepView::Continue { state } && state.phase == Phase::Request,
    ensures
        ({
            let next = step_spec(s, e)->Continue_state;
            ||| s.phase == Phase::SaveEtag && e is Saved && next.resume_from == 0
            ||| s.phase == Phase::Inspect && (e matches EventView::Cached {
                exists,
                size,
                stored_etag,
            } && exists && etag_matches_spec(stored_etag, s.remote_etag) && next.resume_from
                < s.current().size)
        }),
{
}

/// Starts the download of the model that `model` refers to, against the
/// registry that the environment names. A text that is no reference fails at
/// once, before anything is asked of the registry.
pub fn download_model(model: &str, vars: &Vec<EnvVar>) -> (r: Result<Download, DownloadError>)
    ensures
        match parse_spec(model@) {
            Ok(m) => r is Ok && r->Ok_0@ == start_spec(m, endpoint_spec(vars@)),
            Err(e) => failure(r) == Some(DownloadErrorView::ModelRef(e)),
        },
{
    let model_ref = match ModelRef::parse(model) {
        Ok(m) => m,
        Err(e) => {
            return Err(DownloadError::ModelRef(e));
        },
    };
    let endpoint = get_model_endpoint(vars);
    let gguf_files: Vec<GgufFile> = Vec::new();
    let paths: Vec<String> = Vec::new();
    proof {
        assert(file_views(gguf_files@) =~= Seq::empty());
        assert(text_views(paths@) =~= Seq::empty());
    }
    Ok(
        Download {
            model_ref,
            endpoint,
            phase: Phase::CacheDir,
            manifest: Manifest { gguf_files, raw_json: String::new() },
            remote_etag: String::new(),
            resume_from: 0,
            transfer: Transfer { mode: WriteMode::Truncate, position: 0, total_size: 0 },
            paths,
        },
    )
}

impl Download {
    #[verifier::type_invariant]
    spec fn inv(self) -> bool {
        self@.wf()
    }

    /// What has to happen now. The parts of a download always fit together.
    pub fn action(&self) -> (a: Action)
        ensures
            a@ == action_spec(self@),
            self@.wf(),
    {
        proof {
            use_type_invariant(self);
        }
        let endpoint = self.endpoint.as_str();
        match self.phase {
            Phase::CacheDir => Action::PrepareCacheDir,
            Phase::Manifest => Action::GetManifest { url: manifest_url(endpoint, &self.model_ref) },
            Phase::Listing => Action::GetListing {
                url: tree_url(
                    endpoint,
                    &self.model_ref,
                    self.manifest.gguf_files[0].filename.as_str(),
                ),
            },
            Phase::Probe => Action::ProbeEtag { url: self.file_url() },
            Phase::Inspect => {
                let filename = self.cache_filename();
                let etag_filename = etag_filename(filename.as_str());
                Action::InspectCache { filename, etag_filename }
            },
            Phase::SaveEtag => Action::SaveEtag {
                etag_filename: etag_filename(self.cache_filename().as_str()),
                etag: self.remote_etag.clone(),
            },
            Phase::Request => Action::RequestFile {
                url: self.file_url(),
                range: range_header(self.resume_from),
            },
            Phase::Write => Action::WriteFile {
                filename: self.cache_filename(),
                transfer: self.transfer,
            },
            Phase::SaveManifest => Action::SaveManifest {
                filename: manifest_filename(&self.model_ref),
                body: self.manifest.raw_json.clone(),
            },
        }
    }

    /// The address of the bytes of the file that is worked on.
    fn file_url(&self) -> (r: String)
        requires
            self@.paths.len() < self@.files().len(),
        ensures
            r@ == self@.current_url(),
    {
        file_url(
            self.endpoint.as_str(),
            &self.model_ref,
            self.manifest.gguf_files[self.paths.len()].filename.as_str(),
        )
    }

    /// The cache name of the file that is worked on.
    fn cache_filename(&self) -> (r: String)
        requires
            self@.paths.len() < self@.files().len(),
        ensures
            r@ == self@.current_name(),
    {
        cache_filename(
            &self.model_ref,
            self.manifest.gguf_files[self.paths.len()].filename.as_str(),
        )
    }

    /// The download in the phase `phase`.
    fn at(self, phase: Phase) -> (r: Download)
        requires
            self@.at(phase).wf(),
        ensures
            r@ == self@.at(phase),
    {
        Download {
            model_ref: self.model_ref,
            endpoint: self.endpoint,
            phase,
            manifest: self.manifest,
            remote_etag: self.remote_etag,
            resume_from: self.resume_from,
            transfer: self.transfer,
            paths: self.paths,
        }
    }

    /// The download with the file that is worked on complete.
    fn file_done(self) -> (r: Download)
        requires
            self@.paths.len() < self@.files().len(),
        ensures
            r@ == self@.file_done(),
    {
        proof {
            use_type_invariant(&self);
        }
        let name = self.cache_filename();
        let ghost before = self@;
        let mut paths = self.paths;
        paths.push(name);
        let phase = if paths.len() == self.manifest.gguf_files.len() {
            Phase::SaveManifest
        } else {
            Phase::Probe
        };
        proof {
            assert(text_views(paths@) =~= before.paths.push(before.current_name()));
            lemma_step_wf(before.at(Phase::Write), EventView::Downloaded);
        }
        Download {
            model_ref: self.model_ref,
            endpoint: self.endpoint,
            phase,
            manifest: self.manifest,
            remote_etag: self.remote_etag,
            resume_from: self.resume_from,
            transfer: self.transfer,
            paths,
        }
    }

    /// Takes the outcome of the action that was due and moves on.
    pub fn step(self, event: Event) -> (r: Step)
        ensures
            r@ == step_spec(self@, event@),
    {
        proof {
            use_type_invariant(&self);
            lemma_step_wf(self@, event@);
        }
        match event {
            Event::Failed { detail } => match self.phase {
                Phase::CacheDir => Step::Failed { error: DownloadError::CacheDir(detail) },
                Phase::Manifest | Phase::Probe | Phase::Request => Step::Failed {
                    error: DownloadError::ManifestFetch(detail),
                },
                Phase::Listing => Step::Failed { error: DownloadError::ShardListing(detail) },
                Phase::Inspect => Step::Continue { state: self.at(Phase::SaveEtag) },
                Phase::SaveEtag | Phase::Write | Phase::SaveManifest => Step::Failed {
                    error: DownloadError::FileWrite(detail),
                },
            },
            Event::CacheDirReady => {
                if self.phase != Phase::CacheDir {
                    return Step::Continue { state: self };
                }
                Step::Continue { state: self.at(Phase::Manifest) }
            },
            Event::Manifest(response) => {
                if self.phase != Phase::Manifest {
                    return Step::Continue { state: self };
                }
                match fetch_manifest(self.endpoint.as_str(), &self.model_ref, response) {
                    Err(error) => Step::Failed { error },
                    Ok(fetched) => {
                        let phase = if fetched.listing_url.is_some() {
                            Phase::Listing
                        } else {
                            Phase::Probe
                        };
                        proof {
                            assert(text_views(self.paths@) =~= self@.paths);
                        }
                        Step::Continue {
                            state: Download {
                                model_ref: self.model_ref,
                                endpoint: self.endpoint,
                                phase,
                                manifest: fetched.manifest,
                                remote_etag: self.remote_etag,
                                resume_from: self.resume_from,
                                transfer: self.transfer,
                                paths: self.paths,
                            },
                        }
                    },
                }
            },
            Event::Listing(response) => {
                if self.phase != Phase::Listing {
                    return Step::Continue { state: self };
                }
                let url = tree_url(
                    self.endpoint.as_str(),
                    &self.model_ref,
                    self.manifest.gguf_files[0].filename.as_str(),
                );
                match fetch_tree_files(url.as_str(), response) {
                    Err(error) => Step::Failed { error },
                    Ok(shards) => Step::Continue {
                        state: Download {
                            model_ref: self.model_ref,
                            endpoint: self.endpoint,
                            phase: Phase::Probe,
                            manifest: Manifest {
                                gguf_files: shards,
                                raw_json: self.manifest.raw_json,
                            },
                            remote_etag: self.remote_etag,
                            resume_from: self.resume_from,
                            transfer: self.transfer,
                            paths: self.paths,
                        },
                    },
                }
            },
            Event::Etag { header } => {
                if self.phase != Phase::Probe {
                    return Step::Continue { state: self };
                }
                let remote_etag = match &header {
                    Some(h) => fetch_etag(Some(h.as_str())),
                    None => fetch_etag(None),
                };
                Step::Continue {
                    state: Download {
                        model_ref: self.model_ref,
                        endpoint: self.endpoint,
                        phase: Phase::Inspect,
                        manifest: self.manifest,
                        remote_etag,
                        resume_from: self.resume_from,
                        transfer: self.transfer,
                        paths: self.paths,
                    },
                }
            },
            Event::Cached { exists, size, stored_etag } => {
                if self.phase != Phase::Inspect {
                    return Step::Continue { state: self };
                }
                let current = exists && match &stored_etag {
                    Some(s) => etag_matches(Some(s.as_str()), self.remote_etag.as_str()),
                    None => etag_matches(None, self.remote_etag.as_str()),
                };
                if !current {
                    return Step::Continue { state: self.at(Phase::SaveEtag) };
                }
                let existing: u64 = match size {
                    Some(n) => n,
                    None => 0,
                };
                if existing >= self.manifest.gguf_files[self.paths.len()].size {
                    Step::Continue { state: self.file_done() }
                } else {
                    Step::Continue {
                        state: Download {
                            model_ref: self.model_ref,
                            endpoint: self.endpoint,
                            phase: Phase::Request,
                            manifest: self.manifest,
                            remote_etag: self.remote_etag,
                            resume_from: existing,
                            transfer: self.transfer,
                            paths: self.paths,
                        },
                    }
                }
            },
            Event::Saved => {
                if self.phase == Phase::SaveEtag {
                    Step::Continue {
                        state: Download {
                            model_ref: self.model_ref,
                            endpoint: self.endpoint,
                            phase: Phase::Request,
                            manifest: self.manifest,
                            remote_etag: self.remote_etag,
                            resume_from: 0,
                            transfer: self.transfer,
                            paths: self.paths,
                        },
                    }
                } else if self.phase == Phase::SaveManifest {
                    Step::Finished { paths: self.paths }
                } else {
                    Step::Continue { state: self }
                }
            },
            Event::Response { status, content_length } => {
                if self.phase != Phase::Request {
                    return Step::Continue { state: self };
                }
                let url = self.file_url();
                match download_file(url.as_str(), status, content_length, self.resume_from) {
                    Err(error) => Step::Failed { error },
                    Ok(transfer) => Step::Continue {
                        state: Download {
                            model_ref: self.model_ref,
                            endpoint: self.endpoint,
                            phase: Phase::Write,
                            manifest: self.manifest,
                            remote_etag: self.remote_etag,
                            resume_from: self.resume_from,
                            transfer,
                            paths: self.paths,
                        },
                    },
                }
            },
            Event::Downloaded => {
                if self.phase != Phase::Write {
                    return Step::Continue { state: self };
                }
                Step::Continue { state: self.file_done() }
            },
        }
    }
}

} // verus!
