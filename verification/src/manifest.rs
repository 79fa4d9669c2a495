//! Manifests: which artifact files a tag of a model is made of.

use crate::decimal::{all_digits, decimal_value, digits};
use crate::error::{DownloadError, DownloadErrorView};
use crate::http::{is_success, status_detail, status_detail_spec, status_is_success};
use crate::model_ref::{ModelRef, ModelRefView};
use crate::shards::{names_ascend, shards_spec, sort_shards};
use crate::text::{chars_of, find_last, last_index, text_of_range};
use vstd::prelude::*;

verus! {

/// One artifact file of a model: its path in the registry and its size.
#[derive(Clone, Debug, PartialEq, Eq)]
pub struct GgufFile {
    /// The path of the file below the repository; it may name a directory.
    pub filename: String,
    /// The size of the file in bytes.
    pub size: u64,
}

/// A `GgufFile` with its name as a sequence of characters.
pub struct GgufFileView {
    pub filename: Seq<char>,
    pub size: u64,
}

impl View for GgufFile {
    type V = GgufFileView;

    open spec fn view(&self) -> GgufFileView {
        GgufFileView { filename: self.filename@, size: self.size }
    }
}

/// The files of a tag, in the order in which they are fetched, and the
/// manifest as the registry sent it.
#[derive(Clone, Debug, PartialEq, Eq)]
pub struct Manifest {
    /// The artifact files: one, or the shards in ascending order of name.
    pub gguf_files: Vec<GgufFile>,
    /// The body of the registry's answer, unchanged.
    pub raw_json: String,
}

/// A `Manifest` with its texts as sequences of characters.
pub struct ManifestView {
    pub gguf_files: Seq<GgufFileView>,
    pub raw_json: Seq<char>,
}

/// The views of a sequence of files.
pub open spec fn file_views(files: Seq<GgufFile>) -> Seq<GgufFileView> {
    Seq::new(files.len(), |i: int| files[i]@)
}

impl View for Manifest {
    type V = ManifestView;

    open spec fn view(&self) -> ManifestView {
        ManifestView { gguf_files: file_views(self.gguf_files@), raw_json: self.raw_json@ }
    }
}

impl GgufFile {
    /// A copy of this file entry.
    pub fn duplicate(&self) -> (f: GgufFile)
        ensures
            f@ == self@,
    {
        GgufFile { filename: self.filename.clone(), size: self.size }
    }
}

/// The extension of an artifact file.
pub const GGUF_SUFFIX: &'static str = ".gguf";

/// What stands between the index of a shard and the number of shards.
pub const SHARD_INFIX: &'static str = "-of-";

/// The number of shards that a file name declares. A shard is named
/// `<stem>-<index>-of-<count>.gguf`, index and count written with five
/// digits each, so the name ends in twenty characters of that form; any
/// other name declares none.
pub open spec fn shard_count_spec(name: Seq<char>) -> Option<nat> {
    let n = name.len() as int;
    let count = name.subrange(n - 10, n - 5);
    if n >= 20 && name[n - 20] == '-' && all_digits(name.subrange(n - 19, n - 14))
        && name.subrange(n - 14, n - 10) == SHARD_INFIX@ && all_digits(count) && name.subrange(
        n - 5,
        n,
    ) == GGUF_SUFFIX@ {
        Some(decimal_value(count))
    } else {
        None
    }
}

/// A name made of a stem, `-`, an index of five digits, `-of-`, a count of
/// five digits and `.gguf` declares that count.
pub proof fn lemma_shard_name(stem: Seq<char>, index: Seq<char>, count: Seq<char>)
    requires
        index.len() == 5,
        count.len() == 5,
        all_digits(index),
        all_digits(count),
    ensures
        shard_count_spec(stem + seq!['-'] + index + SHARD_INFIX@ + count + GGUF_SUFFIX@) == Some(
            decimal_value(count),
        ),
{
    reveal_strlit("-of-");
    reveal_strlit(".gguf");
    let name = stem + seq!['-'] + index + SHARD_INFIX@ + count + GGUF_SUFFIX@;
    let n = name.len() as int;
    assert(n == stem.len() + 20);
    assert(name[n - 20] == '-');
    assert(name.subrange(n - 19, n - 14) =~= index);
    assert(name.subrange(n - 14, n - 10) =~= SHARD_INFIX@);
    assert(name.subrange(n - 10, n - 5) =~= count);
    assert(name.subrange(n - 5, n) =~= GGUF_SUFFIX@);
}

/// A name that declares a number of shards is made of a stem, `-`, an index
/// of five digits, `-of-`, a count of five digits and `.gguf`.
pub proof fn lemma_shard_name_parts(name: Seq<char>)
    requires
        shard_count_spec(name) is Some,
    ensures
        ({
            let n = name.len() as int;
            let index = name.subrange(n - 19, n - 14);
            let count = name.subrange(n - 10, n - 5);
            &&& all_digits(index)
            &&& all_digits(count)
            &&& name == name.take(n - 20) + seq!['-'] + index + SHARD_INFIX@ + count
                + GGUF_SUFFIX@
        }),
{
    reveal_strlit("-of-");
    reveal_strlit(".gguf");
    let n = name.len() as int;
    let index = name.subrange(n - 19, n - 14);
    let count = name.subrange(n - 10, n - 5);
    let built = name.take(n - 20) + seq!['-'] + index + SHARD_INFIX@ + count + GGUF_SUFFIX@;
    assert(built.len() == n);
    assert forall|i: int| 0 <= i < n implies built[i] == name[i] by {
        if n - 14 <= i < n - 10 {
            assert(name.subrange(n - 14, n - 10)[i - (n - 14)] == name[i]);
        } else if n - 5 <= i {
            assert(name.subrange(n - 5, n)[i - (n - 5)] == name[i]);
        }
    }
    assert(built =~= name);
}

/// Whether `v[from..from + pattern.len()]` holds the characters of `pattern`.
fn holds_at(v: &Vec<char>, from: usize, pattern: &Vec<char>) -> (r: bool)
    requires
        from + pattern.len() <= v.len(),
    ensures
        r == (v@.subrange(from as int, from + pattern.len()) == pattern@),
{
    let mut i: usize = 0;
    while i < pattern.len()
        invariant
            i <= pattern.len(),
            from + pattern.len() <= v.len(),
            forall|j: int| 0 <= j < i ==> v@[from + j] == pattern@[j],
        decreases pattern.len() - i,
    {
        if v[from + i] != pattern[i] {
            proof {
                assert(v@.subrange(from as int, from + pattern.len())[i as int] == v@[from + i]);
            }
            return false;
        }
        i += 1;
    }
    proof {
        assert(v@.subrange(from as int, from + pattern.len()) =~= pattern@);
    }
    true
}

/// The number of shards that `filename` declares, if it names a shard.
pub fn shard_count(filename: &str) -> (r: Option<usize>)
    ensures
        match r {
            Some(n) => shard_count_spec(filename@) == Some(n as nat),
            None => shard_count_spec(filename@) is None,
        },
{
    let v = chars_of(filename);
    let n = v.len();
    if n < 20 {
        return None;
    }
    let infix = chars_of(SHARD_INFIX);
    let suffix = chars_of(GGUF_SUFFIX);
    proof {
        reveal_strlit("-of-");
        reveal_strlit(".gguf");
    }
    if v[n - 20] != '-' {
        return None;
    }
    if digits(&v, n - 19, n - 14).is_none() {
        return None;
    }
    if !holds_at(&v, n - 14, &infix) {
        return None;
    }
    if !holds_at(&v, n - 5, &suffix) {
        return None;
    }
    digits(&v, n - 10, n - 5)
}

/// The name of the file that keeps the manifest of a reference:
/// `manifest=<owner>=<model>=<tag>.json`.
pub open spec fn manifest_filename_spec(m: ModelRefView) -> Seq<char> {
    "manifest="@ + m.owner + seq!['='] + m.model + seq!['='] + m.tag + ".json"@
}

/// The name of the file that keeps the manifest of `model_ref`.
pub fn manifest_filename(model_ref: &ModelRef) -> (r: String)
    ensures
        r@ == manifest_filename_spec(model_ref@),
{
    let mut r = String::from_str("manifest=");
    r.append(model_ref.owner.as_str());
    r.push('=');
    r.append(model_ref.model.as_str());
    r.push('=');
    r.append(model_ref.tag.as_str());
    r.append(".json");
    r
}

/// Two tags of one model keep their manifests under different names.
pub proof fn lemma_manifest_filename_per_tag(a: ModelRefView, b: ModelRefView)
    requires
        a.owner == b.owner,
        a.model == b.model,
        a.tag != b.tag,
    ensures
        manifest_filename_spec(a) != manifest_filename_spec(b),
{
    let head = "manifest="@ + a.owner + seq!['='] + a.model + seq!['='];
    let tail = ".json"@;
    let x = manifest_filename_spec(a);
    let y = manifest_filename_spec(b);
    assert(x =~= head + a.tag + tail);
    assert(y =~= head + b.tag + tail);
    if x == y {
        assert(a.tag.len() == b.tag.len()) by {
            assert(x.len() == head.len() + a.tag.len() + tail.len());
            assert(y.len() == head.len() + b.tag.len() + tail.len());
        }
        assert forall|i: int| 0 <= i < a.tag.len() implies a.tag[i] == b.tag[i] by {
            assert(x[head.len() + i] == a.tag[i]);
            assert(y[head.len() + i] == b.tag[i]);
        }
        assert(a.tag =~= b.tag);
    }
}

/// The address of the manifest of a reference:
/// `<endpoint>/v2/<owner>/<model>/manifests/<tag>`.
pub open spec fn manifest_url_spec(endpoint: Seq<char>, m: ModelRefView) -> Seq<char> {
    endpoint + "/v2/"@ + m.repo() + "/manifests/"@ + m.tag
}

/// The address from which the manifest of `model_ref` is fetched.
pub fn manifest_url(endpoint: &str, model_ref: &ModelRef) -> (r: String)
    ensures
        r@ == manifest_url_spec(endpoint@, model_ref@),
{
    let mut r = String::from_str(endpoint);
    r.append("/v2/");
    r.append(model_ref.repo().as_str());
    r.append("/manifests/");
    r.append(model_ref.tag.as_str());
    r
}

/// The directory of a file in the registry: what stands before the last `/`
/// of its name, and nothing where the name holds none.
pub open spec fn shard_subdir_spec(name: Seq<char>) -> Seq<char> {
    if last_index(name, '/') < 0 {
        Seq::empty()
    } else {
        name.take(last_index(name, '/'))
    }
}

/// The directory in the registry that holds the file `filename`.
pub fn shard_subdir(filename: &str) -> (r: String)
    ensures
        r@ == shard_subdir_spec(filename@),
{
    let v = chars_of(filename);
    match find_last(&v, '/') {
        Some(i) => text_of_range(&v, 0, i),
        None => String::new(),
    }
}

/// The address of the listing that names the shards beside the file `name`:
/// `<endpoint>/api/models/<owner>/<model>/tree/main/<directory>`.
pub open spec fn tree_url_spec(endpoint: Seq<char>, m: ModelRefView, name: Seq<char>) -> Seq<
    char,
> {
    endpoint + "/api/models/"@ + m.repo() + "/tree/main/"@ + shard_subdir_spec(name)
}

/// The address of the listing of the directory that holds `filename`.
pub fn tree_url(endpoint: &str, model_ref: &ModelRef, filename: &str) -> (r: String)
    ensures
        r@ == tree_url_spec(endpoint@, model_ref@, filename@),
{
    let mut r = String::from_str(endpoint);
    r.append("/api/models/");
    r.append(model_ref.repo().as_str());
    r.append("/tree/main/");
    r.append(shard_subdir(filename).as_str());
    r
}

/// The registry's answer to the request for a manifest.
#[derive(Debug, PartialEq, Eq)]
pub struct ManifestResponse {
    /// The status of the answer.
    pub status: u16,
    /// The body of the answer as it was received.
    pub body: String,
    /// The artifact file that the body declares, `None` where it declares
    /// none; or why the body is no well-formed document.
    pub gguf_file: Result<Option<GgufFile>, String>,
}

/// A `ManifestResponse` with its texts as sequences of characters.
pub struct ManifestResponseView {
    pub status: u16,
    pub body: Seq<char>,
    pub gguf_file: Result<Option<GgufFileView>, Seq<char>>,
}

impl View for ManifestResponse {
    type V = ManifestResponseView;

    open spec fn view(&self) -> ManifestResponseView {
        ManifestResponseView {
            status: self.status,
            body: self.body@,
            gguf_file: match self.gguf_file {
                Ok(Some(f)) => Ok(Some(f@)),
                Ok(None) => Ok(None),
                Err(d) => Err(d@),
            },
        }
    }
}

/// The registry's answer to the request for the listing of a directory.
#[derive(Debug, PartialEq, Eq)]
pub struct TreeResponse {
    /// The status of the answer.
    pub status: u16,
    /// The entries that the body lists, each with its path and size; or why
    /// the body is no well-formed listing.
    pub entries: Result<Vec<GgufFile>, String>,
}

/// A `TreeResponse` with its texts as sequences of characters.
pub struct TreeResponseView {
    pub status: u16,
    pub entries: Result<Seq<GgufFileView>, Seq<char>>,
}

impl View for TreeResponse {
    type V = TreeResponseView;

    open spec fn view(&self) -> TreeResponseView {
        TreeResponseView {
            status: self.status,
            entries: match self.entries {
                Ok(v) => Ok(file_views(v@)),
                Err(d) => Err(d@),
            },
        }
    }
}

/// A manifest as the registry declares it, and where to ask for the shards
/// of a split artifact.
#[derive(Debug, PartialEq, Eq)]
pub struct FetchedManifest {
    /// The manifest with the one file that it declares.
    pub manifest: Manifest,
    /// The address of the listing that names all shards, where the declared
    /// file is a shard.
    pub listing_url: Option<String>,
}

/// A `FetchedManifest` with its texts as sequences of characters.
pub struct FetchedManifestView {
    pub manifest: ManifestView,
    pub listing_url: Option<Seq<char>>,
}

impl View for FetchedManifest {
    type V = FetchedManifestView;

    open spec fn view(&self) -> FetchedManifestView {
        FetchedManifestView {
            manifest: self.manifest@,
            listing_url: match self.listing_url {
                Some(u) => Some(u@),
                None => None,
            },
        }
    }
}

/// A result with its value and its error taken by their views.
pub open spec fn viewed<T: View>(r: Result<T, DownloadError>) -> Result<T::V, DownloadErrorView> {
    match r {
        Ok(v) => Ok(v@),
        Err(e) => Err(e@),
    }
}

/// What the answer to the request for a manifest means. A status outside 200
/// to 299 is a failed fetch, a body that is no document a failed parse, a
/// document without a file a manifest without artifact. Else the manifest
/// holds the declared file and the body, and where the file is a shard, the
/// shards are to be listed.
pub open spec fn fetch_manifest_spec(
    endpoint: Seq<char>,
    m: ModelRefView,
    response: ManifestResponseView,
) -> Result<FetchedManifestView, DownloadErrorView> {
    if !is_success(response.status) {
        Err(
            DownloadErrorView::ManifestFetch(
                status_detail_spec(manifest_url_spec(endpoint, m), response.status),
            ),
        )
    } else {
        match response.gguf_file {
            Err(d) => Err(DownloadErrorView::ManifestParse(d)),
            Ok(None) => Err(DownloadErrorView::NoGgufFile),
            Ok(Some(f)) => Ok(
                FetchedManifestView {
                    manifest: ManifestView { gguf_files: seq![f], raw_json: response.body },
                    listing_url: if shard_count_spec(f.filename) is Some {
                        Some(tree_url_spec(endpoint, m, f.filename))
                    } else {
                        None
                    },
                },
            ),
        }
    }
}

/// Reads the registry's answer to the request for the manifest of
/// `model_ref`.
pub fn fetch_manifest(endpoint: &str, model_ref: &ModelRef, response: ManifestResponse) -> (r:
    Result<FetchedManifest, DownloadError>)
    ensures
        viewed(r) == fetch_manifest_spec(endpoint@, model_ref@, response@),
{
    if !status_is_success(response.status) {
        let url = manifest_url(endpoint, model_ref);
        return Err(DownloadError::ManifestFetch(status_detail(url.as_str(), response.status)));
    }
    match response.gguf_file {
        Err(d) => Err(DownloadError::ManifestParse(d)),
        Ok(None) => Err(DownloadError::NoGgufFile),
        Ok(Some(f)) => {
            let listing_url = match shard_count(f.filename.as_str()) {
                Some(_) => Some(tree_url(endpoint, model_ref, f.filename.as_str())),
                None => None,
            };
            let ghost declared = f@;
            let mut gguf_files: Vec<GgufFile> = Vec::new();
            gguf_files.push(f);
            proof {
                assert(file_views(gguf_files@) =~= seq![declared]);
            }
            Ok(
                FetchedManifest {
                    manifest: Manifest { gguf_files, raw_json: response.body },
                    listing_url,
                },
            )
        },
    }
}

/// What is reported of a listing that names no artifact file.
pub open spec fn no_shards_detail_spec(url: Seq<char>) -> Seq<char> {
    url + ": no shard files listed"@
}

/// What the answer to the request for a listing means. A status outside 200
/// to 299, a body that is no listing, and a listing without artifact files
/// are failed listings. Else the shards are the artifact files that the
/// listing names, in ascending order of name.
pub open spec fn fetch_tree_files_spec(url: Seq<char>, response: TreeResponseView) -> Result<
    Seq<GgufFileView>,
    DownloadErrorView,
> {
    if !is_success(response.status) {
        Err(DownloadErrorView::ShardListing(status_detail_spec(url, response.status)))
    } else {
        match response.entries {
            Err(d) => Err(DownloadErrorView::ShardListing(d)),
            Ok(entries) => if shards_spec(entries).len() == 0 {
                Err(DownloadErrorView::ShardListing(no_shards_detail_spec(url)))
            } else {
                Ok(shards_spec(entries))
            },
        }
    }
}

/// A listing result with the files and the error taken by their views.
pub open spec fn listed(r: Result<Vec<GgufFile>, DownloadError>) -> Result<
    Seq<GgufFileView>,
    DownloadErrorView,
> {
    match r {
        Ok(v) => Ok(file_views(v@)),
        Err(e) => Err(e@),
    }
}

/// Reads the registry's answer to the request for the listing at `url`.
pub fn fetch_tree_files(url: &str, response: TreeResponse) -> (r: Result<
    Vec<GgufFile>,
    DownloadError,
>)
    ensures
        listed(r) == fetch_tree_files_spec(url@, response@),
        r matches Ok(shards) ==> shards.len() > 0 && names_ascend(file_views(shards@)),
{
    if !status_is_success(response.status) {
        return Err(DownloadError::ShardListing(status_detail(url, response.status)));
    }
    match response.entries {
        Err(d) => Err(DownloadError::ShardListing(d)),
        Ok(entries) => {
            let shards = sort_shards(&entries);
            if shards.len() == 0 {
                Err(
                    DownloadError::ShardListing(
                        String::from_str(url).concat(": no shard files listed"),
                    ),
                )
            } else {
                Ok(shards)
            }
        },
    }
}

} // verus!
