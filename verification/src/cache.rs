//! The layout of the cache: under which names the files of a model, their
//! validators and the manifest are kept, and when a kept file is current.

use crate::error::{DownloadError, DownloadErrorView};
use crate::model_ref::{ModelRef, ModelRefView};
use crate::text::{chars_of, lemma_first_index_is, push_replaced, replaced, same_text};
use vstd::prelude::*;

verus! {

/// The directory of the application below the cache directory of the
/// platform.
pub const CACHE_SUBDIR: &'static str = "llama.cpp";

/// What is appended to the name of a cached file to name its validator.
pub const ETAG_SUFFIX: &'static str = ".etag";

/// The name under which a file of a model is cached:
/// `<owner>_<model>_<name>`, every `/` of the name written as `_`.
pub open spec fn cache_filename_spec(m: ModelRefView, name: Seq<char>) -> Seq<char> {
    m.owner + seq!['_'] + m.model + seq!['_'] + replaced(name, '/', '_')
}

/// The name under which the file `gguf_file` of `model_ref` is cached. Where
/// neither owner nor model holds a `/`, the name holds none: a directory in
/// the name of a shard makes no directory in the cache.
pub fn cache_filename(model_ref: &ModelRef, gguf_file: &str) -> (r: String)
    ensures
        r@ == cache_filename_spec(model_ref@, gguf_file@),
        !model_ref@.owner.contains('/') && !model_ref@.model.contains('/') ==> !r@.contains('/'),
{
    let mut r = model_ref.owner.clone();
    r.push('_');
    r.append(model_ref.model.as_str());
    r.push('_');
    push_replaced(&mut r, &chars_of(gguf_file), '/', '_');
    proof {
        lemma_cache_filename_flat(model_ref@, gguf_file@);
    }
    r
}

/// The part of a cache name that comes from the file's name holds no `/`,
/// and the whole name holds none where owner and model hold none.
pub proof fn lemma_cache_filename_flat(m: ModelRefView, name: Seq<char>)
    ensures
        forall|i: int|
            m.owner.len() + m.model.len() + 2 <= i < cache_filename_spec(m, name).len()
                ==> cache_filename_spec(m, name)[i] != '/',
        !m.owner.contains('/') && !m.model.contains('/') ==> !cache_filename_spec(
            m,
            name,
        ).contains('/'),
{
    let r = cache_filename_spec(m, name);
    let head = m.owner.len() + m.model.len() + 2;
    assert forall|i: int| head <= i < r.len() implies r[i] != '/' by {
        assert(r[i] == replaced(name, '/', '_')[i - head]);
    }
    if !m.owner.contains('/') && !m.model.contains('/') {
        assert forall|i: int| 0 <= i < r.len() implies r[i] != '/' by {
            if i < m.owner.len() {
                assert(r[i] == m.owner[i]);
                assert(m.owner.contains(r[i]));
            } else if m.owner.len() < i < head - 1 {
                assert(r[i] == m.model[i - m.owner.len() - 1]);
                assert(m.model.contains(r[i]));
            }
        }
    }
}

/// Files with different names have different cache names, and so have
/// files of different models, as long as `_` occurs in no owner, model or
/// file name: then the `_` of the cache name tell its parts apart.
pub proof fn lemma_cache_filename_injective(
    a: ModelRefView,
    a_name: Seq<char>,
    b: ModelRefView,
    b_name: Seq<char>,
)
    requires
        !a.owner.contains('_'),
        !a.model.contains('_'),
        !a_name.contains('_'),
        !b.owner.contains('_'),
        !b.model.contains('_'),
        !b_name.contains('_'),
        cache_filename_spec(a, a_name) == cache_filename_spec(b, b_name),
    ensures
        a.owner == b.owner,
        a.model == b.model,
        a_name == b_name,
{
    let x = cache_filename_spec(a, a_name);
    let y = cache_filename_spec(b, b_name);
    let a_flat = replaced(a_name, '/', '_');
    let b_flat = replaced(b_name, '/', '_');
    assert forall|j: int| 0 <= j < a.owner.len() implies x[j] != '_' by {
        assert(a.owner.contains(x[j]));
    }
    assert forall|j: int| 0 <= j < b.owner.len() implies y[j] != '_' by {
        assert(b.owner.contains(y[j]));
    }
    lemma_first_index_is(x, '_', a.owner.len() as int);
    lemma_first_index_is(y, '_', b.owner.len() as int);
    assert(a.owner =~= x.take(a.owner.len() as int));
    assert(b.owner =~= y.take(b.owner.len() as int));

    let x_rest = x.skip(a.owner.len() as int + 1);
    let y_rest = y.skip(b.owner.len() as int + 1);
    assert(x_rest =~= a.model + seq!['_'] + a_flat);
    assert(y_rest =~= b.model + seq!['_'] + b_flat);
    assert forall|j: int| 0 <= j < a.model.len() implies x_rest[j] != '_' by {
        assert(a.model.contains(x_rest[j]));
    }
    assert forall|j: int| 0 <= j < b.model.len() implies y_rest[j] != '_' by {
        assert(b.model.contains(y_rest[j]));
    }
    lemma_first_index_is(x_rest, '_', a.model.len() as int);
    lemma_first_index_is(y_rest, '_', b.model.len() as int);
    assert(a.model =~= x_rest.take(a.model.len() as int));
    assert(b.model =~= y_rest.take(b.model.len() as int));

    assert(a_flat =~= x_rest.skip(a.model.len() as int + 1));
    assert(b_flat =~= y_rest.skip(b.model.len() as int + 1));
    assert(a_name.len() == b_name.len()) by {
        assert(a_flat.len() == b_flat.len());
    }
    assert forall|i: int| 0 <= i < a_name.len() implies a_name[i] == b_name[i] by {
        assert(a_flat[i] == b_flat[i]);
        assert(a_name.contains(a_name[i]));
        assert(b_name.contains(b_name[i]));
    }
    assert(a_name =~= b_name);
}

/// The name of the file that keeps the validator of a cached file:
/// `<name>.etag`.
pub open spec fn etag_filename_spec(name: Seq<char>) -> Seq<char> {
    name + ETAG_SUFFIX@
}

/// The name of the file that keeps the validator of the cached file
/// `filename`.
pub fn etag_filename(filename: &str) -> (r: String)
    ensures
        r@ == etag_filename_spec(filename@),
{
    String::from_str(filename).concat(ETAG_SUFFIX)
}

/// Whether a kept validator says that the cached file is the remote one:
/// there is one, the remote validator is not empty, and the two are the same
/// text.
pub open spec fn etag_matches_spec(stored: Option<Seq<char>>, remote: Seq<char>) -> bool {
    stored == Some(remote) && remote.len() > 0
}

/// Whether the validator kept beside a cached file, `None` where none could
/// be read, matches the validator that the registry reports now. An empty
/// remote validator matches nothing.
pub fn etag_matches(stored: Option<&str>, remote_etag: &str) -> (r: bool)
    ensures
        r == etag_matches_spec(
            match stored {
                Some(s) => Some(s@),
                None => None,
            },
            remote_etag@,
        ),
        stored is None ==> !r,
        stored matches Some(s) && s@ != remote_etag@ ==> !r,
        stored matches Some(s) && s@ == remote_etag@ && remote_etag@.len() > 0 ==> r,
{
    match stored {
        Some(s) => same_text(s, remote_etag) && !remote_etag.is_empty(),
        None => false,
    }
}

/// The validator that a probe reports: the text of the header that carries
/// it, and the empty text where the answer holds no such header.
pub fn fetch_etag(header: Option<&str>) -> (r: String)
    ensures
        r@ == match header {
            Some(h) => h@,
            None => Seq::<char>::empty(),
        },
{
    match header {
        Some(h) => String::from_str(h),
        None => String::new(),
    }
}

/// The address of the bytes of a file:
/// `<endpoint>/<owner>/<model>/resolve/main/<name>`.
pub open spec fn file_url_spec(endpoint: Seq<char>, m: ModelRefView, name: Seq<char>) -> Seq<
    char,
> {
    endpoint + seq!['/'] + m.repo() + "/resolve/main/"@ + name
}

/// The address from which the file `filename` of `model_ref` is fetched.
pub fn file_url(endpoint: &str, model_ref: &ModelRef, filename: &str) -> (r: String)
    ensures
        r@ == file_url_spec(endpoint@, model_ref@, filename@),
{
    let mut r = String::from_str(endpoint);
    r.push('/');
    r.append(model_ref.repo().as_str());
    r.append("/resolve/main/");
    r.append(filename);
    r
}

/// Where the cache is kept.
#[derive(Clone, Debug, PartialEq, Eq)]
pub enum CacheDir<P> {
    /// The directory that the caller asked for.
    Given(P),
    /// The directory `subdir` below the cache directory of the platform.
    Platform { base: P, subdir: String },
}

/// The directory of the cache: the one that the caller names where there is
/// one, else the application's directory below the cache directory of the
/// platform. Where the platform has none either, there is no cache.
pub fn get_cache_dir<P>(cache_dir: Option<P>, platform_cache_dir: Option<P>) -> (r: Result<
    CacheDir<P>,
    DownloadError,
>)
    ensures
        match (cache_dir, platform_cache_dir) {
            (Some(dir), _) => r == Ok::<CacheDir<P>, DownloadError>(CacheDir::Given(dir)),
            (None, Some(base)) => r matches Ok(CacheDir::Platform { base: b, subdir }) && b
                == base && subdir@ == CACHE_SUBDIR@,
            (None, None) => r matches Err(e) && e@ == DownloadErrorView::CacheDir(
                "Could not determine cache directory"@,
            ),
        },
{
    match cache_dir {
        Some(dir) => Ok(CacheDir::Given(dir)),
        None => match platform_cache_dir {
            Some(base) => Ok(CacheDir::Platform { base, subdir: String::from_str(CACHE_SUBDIR) }),
            None => Err(
                DownloadError::CacheDir(String::from_str("Could not determine cache directory")),
            ),
        },
    }
}

} // verus!
