use paca_core::download::{download_model, Action, Download, Event, Step};
use paca_core::env::EnvVar;
use paca_core::error::{DownloadError, ModelRefError};
use paca_core::manifest::{GgufFile, ManifestResponse, TreeResponse};
use paca_core::transfer::{Transfer, WriteMode, CHUNK_SIZE};
use std::collections::HashMap;

const ENDPOINT: &str = "https://huggingface.co";

/// A file of the registry: the validator that a probe reports, and the bytes.
struct Remote {
    etag: Option<String>,
    bytes: Vec<u8>,
}

/// A registry and a cache directory, both held in memory, and a record of
/// what was asked of them.
struct World {
    manifest_status: u16,
    manifest_body: String,
    declared: Result<Option<GgufFile>, String>,
    listing: Option<Vec<GgufFile>>,
    remote: HashMap<String, Remote>,
    disk: HashMap<String, Vec<u8>>,
    body: Vec<u8>,
    log: Vec<String>,
    fail_at: Option<String>,
}

fn file(filename: &str, size: u64) -> GgufFile {
    GgufFile { filename: filename.to_string(), size }
}

fn bytes(n: usize, seed: u8) -> Vec<u8> {
    (0..n).map(|i| (i as u8).wrapping_mul(31).wrapping_add(seed)).collect()
}

fn world(declared: GgufFile) -> World {
    World {
        manifest_status: 200,
        manifest_body: format!(
            "{{\"ggufFile\":{{\"rfilename\":\"{}\",\"size\":{}}}}}",
            declared.filename, declared.size
        ),
        declared: Ok(Some(declared)),
        listing: None,
        remote: HashMap::new(),
        disk: HashMap::new(),
        body: Vec::new(),
        log: Vec::new(),
        fail_at: None,
    }
}

fn url(repo: &str, filename: &str) -> String {
    format!("{ENDPOINT}/{repo}/resolve/main/{filename}")
}

fn serve(world: &mut World, repo: &str, filename: &str, etag: Option<&str>, content: Vec<u8>) {
    world.remote.insert(
        url(repo, filename),
        Remote { etag: etag.map(|e| e.to_string()), bytes: content },
    );
}

fn perform(world: &mut World, action: Action) -> Event {
    let kind = match &action {
        Action::GetManifest { .. } => "GetManifest",
        Action::GetListing { .. } => "GetListing",
        Action::PrepareCacheDir => "PrepareCacheDir",
        Action::ProbeEtag { .. } => "ProbeEtag",
        Action::InspectCache { .. } => "InspectCache",
        Action::SaveEtag { .. } => "SaveEtag",
        Action::RequestFile { .. } => "RequestFile",
        Action::WriteFile { .. } => "WriteFile",
        Action::SaveManifest { .. } => "SaveManifest",
    };
    if world.fail_at.as_deref() == Some(kind) {
        world.log.push(format!("FAIL {kind}"));
        return Event::Failed { detail: format!("{kind} failed") };
    }
    match action {
        Action::GetManifest { url } => {
            world.log.push(format!("GET {url}"));
            Event::Manifest(ManifestResponse {
                status: world.manifest_status,
                body: world.manifest_body.clone(),
                gguf_file: world.declared.clone(),
            })
        }
        Action::GetListing { url } => {
            world.log.push(format!("GET {url}"));
            match &world.listing {
                Some(entries) => {
                    Event::Listing(TreeResponse { status: 200, entries: Ok(entries.clone()) })
                }
                None => Event::Listing(TreeResponse { status: 404, entries: Ok(Vec::new()) }),
            }
        }
        Action::PrepareCacheDir => {
            world.log.push("MKDIR".to_string());
            Event::CacheDirReady
        }
        Action::ProbeEtag { url } => {
            world.log.push(format!("HEAD {url}"));
            Event::Etag { header: world.remote.get(&url).and_then(|r| r.etag.clone()) }
        }
        Action::InspectCache { filename, etag_filename } => Event::Cached {
            exists: world.disk.contains_key(&filename),
            size: world.disk.get(&filename).map(|b| b.len() as u64),
            stored_etag: world
                .disk
                .get(&etag_filename)
                .and_then(|b| String::from_utf8(b.clone()).ok()),
        },
        Action::SaveEtag { etag_filename, etag } => {
            world.log.push(format!("WRITE {etag_filename}"));
            world.disk.insert(etag_filename, etag.into_bytes());
            Event::Saved
        }
        Action::RequestFile { url, range } => {
            let offset = range.as_ref().map(|r| {
                r.strip_prefix("bytes=").unwrap().strip_suffix('-').unwrap().parse::<usize>().unwrap()
            });
            match range {
                Some(r) => world.log.push(format!("GET {url} Range: {r}")),
                None => world.log.push(format!("GET {url}")),
            }
            match world.remote.get(&url) {
                None => Event::Response { status: 404, content_length: None },
                Some(remote) => {
                    world.body = remote.bytes[offset.unwrap_or(0)..].to_vec();
                    Event::Response {
                        status: if offset.is_some() { 206 } else { 200 },
                        content_length: Some(world.body.len() as u64),
                    }
                }
            }
        }
        Action::WriteFile { filename, mut transfer } => {
            world.log.push(format!("WRITE {filename}"));
            let body = std::mem::take(&mut world.body);
            assert_eq!(transfer.total_size, transfer.position + body.len() as u64);
            let out = match transfer.mode {
                WriteMode::Append => world.disk.get_mut(&filename).unwrap(),
                WriteMode::Truncate => {
                    world.disk.insert(filename.clone(), Vec::new());
                    world.disk.get_mut(&filename).unwrap()
                }
            };
            assert_eq!(out.len() as u64, transfer.position);
            let mut rest = &body[..];
            loop {
                let n = rest.len().min(CHUNK_SIZE);
                if !transfer.advance(n) {
                    break;
                }
                out.extend_from_slice(&rest[..n]);
                rest = &rest[n..];
                assert_eq!(out.len() as u64, transfer.position);
            }
            assert_eq!(transfer.position, transfer.total_size);
            Event::Downloaded
        }
        Action::SaveManifest { filename, body } => {
            world.log.push(format!("WRITE {filename}"));
            world.disk.insert(filename, body.into_bytes());
            Event::Saved
        }
    }
}

fn run(world: &mut World, model: &str) -> Result<Vec<String>, DownloadError> {
    let mut state = download_model(model, &Vec::new())?;
    loop {
        let event = perform(world, state.action());
        match state.step(event) {
            Step::Continue { state: next } => state = next,
            Step::Finished { paths } => return Ok(paths),
            Step::Failed { error } => return Err(error),
        }
    }
}

fn start(model: &str) -> Download {
    download_model(model, &Vec::new()).unwrap()
}

fn go_on(step: Step) -> Download {
    match step {
        Step::Continue { state } => state,
        other => panic!("the download ended: {other:?}"),
    }
}

fn failed(step: Step) -> DownloadError {
    match step {
        Step::Failed { error } => error,
        other => panic!("the download did not fail: {other:?}"),
    }
}

fn single(size: u64) -> Event {
    Event::Manifest(ManifestResponse {
        status: 200,
        body: "{}".to_string(),
        gguf_file: Ok(Some(file("model.gguf", size))),
    })
}

/// A download of `o/m:t` that waits for its manifest.
fn fetching() -> Download {
    go_on(start("o/m:t").step(Event::CacheDirReady))
}

/// A download of `o/m:t` with one file of `size` bytes, waiting for the
/// probe of that file.
fn probing(size: u64) -> Download {
    go_on(fetching().step(single(size)))
}

/// A download of `o/m:t` that has probed `etag` and waits for the look at
/// the cache.
fn inspecting(size: u64, etag: &str) -> Download {
    go_on(probing(size).step(Event::Etag { header: Some(etag.to_string()) }))
}

#[test]
fn download_model_returns_error_for_missing_tag() {
    let result = download_model("owner/model", &Vec::new());
    assert!(result.is_err());
}

#[test]
fn download_model_reports_the_reference_error() {
    assert_eq!(
        download_model("owner/model", &Vec::new()).unwrap_err(),
        DownloadError::ModelRef(ModelRefError::MissingTag)
    );
    assert_eq!(
        download_model("model:tag", &Vec::new()).unwrap_err(),
        DownloadError::ModelRef(ModelRefError::MissingOwner)
    );
}

#[test]
fn download_model_asks_for_the_cache_then_the_manifest() {
    let state = start("unsloth/GLM:BF16");
    assert_eq!(state.action(), Action::PrepareCacheDir);
    assert_eq!(
        go_on(state.step(Event::CacheDirReady)).action(),
        Action::GetManifest {
            url: "https://huggingface.co/v2/unsloth/GLM/manifests/BF16".to_string()
        }
    );
    let vars = vec![EnvVar {
        name: "MODEL_ENDPOINT".to_string(),
        value: "http://localhost:8080".to_string(),
    }];
    let state = download_model("unsloth/GLM:BF16", &vars).unwrap();
    assert_eq!(
        go_on(state.step(Event::CacheDirReady)).action(),
        Action::GetManifest { url: "http://localhost:8080/v2/unsloth/GLM/manifests/BF16".to_string() }
    );
}

#[test]
fn nothing_is_asked_of_the_registry_without_a_cache() {
    let mut w = world(file("model.gguf", 10));
    w.fail_at = Some("PrepareCacheDir".to_string());
    assert_eq!(
        run(&mut w, "o/m:t"),
        Err(DownloadError::CacheDir("PrepareCacheDir failed".to_string()))
    );
    assert_eq!(w.log, vec!["FAIL PrepareCacheDir"]);
}

#[test]
fn fresh_download_of_one_file() {
    let mut w = world(file("model.gguf", 1024));
    serve(&mut w, "o/m", "model.gguf", Some("\"v1\""), bytes(1024, 1));
    let paths = run(&mut w, "o/m:t").unwrap();
    assert_eq!(paths, vec!["o_m_model.gguf".to_string()]);
    assert_eq!(w.disk["o_m_model.gguf"].len(), 1024);
    assert_eq!(w.disk["o_m_model.gguf"], bytes(1024, 1));
    assert_eq!(w.disk["o_m_model.gguf.etag"], b"\"v1\"".to_vec());
    assert_eq!(w.disk["manifest=o=m=t.json"], w.manifest_body.clone().into_bytes());
    assert_eq!(w.disk.len(), 3);
    assert_eq!(
        w.log,
        vec![
            "MKDIR",
            "GET https://huggingface.co/v2/o/m/manifests/t",
            "HEAD https://huggingface.co/o/m/resolve/main/model.gguf",
            "WRITE o_m_model.gguf.etag",
            "GET https://huggingface.co/o/m/resolve/main/model.gguf",
            "WRITE o_m_model.gguf",
            "WRITE manifest=o=m=t.json",
        ]
    );
}

#[test]
fn current_file_is_not_fetched_again() {
    let mut w = world(file("model.gguf", 1024));
    serve(&mut w, "o/m", "model.gguf", Some("\"v1\""), bytes(1024, 1));
    w.disk.insert("o_m_model.gguf".to_string(), bytes(1024, 9));
    w.disk.insert("o_m_model.gguf.etag".to_string(), b"\"v1\"".to_vec());
    let paths = run(&mut w, "o/m:t").unwrap();
    assert_eq!(paths, vec!["o_m_model.gguf".to_string()]);
    assert_eq!(w.disk["o_m_model.gguf"], bytes(1024, 9));
    assert_eq!(
        w.log,
        vec![
            "MKDIR",
            "GET https://huggingface.co/v2/o/m/manifests/t",
            "HEAD https://huggingface.co/o/m/resolve/main/model.gguf",
            "WRITE manifest=o=m=t.json",
        ]
    );
}

#[test]
fn partial_file_is_resumed() {
    let mut w = world(file("model.gguf", 1024));
    serve(&mut w, "o/m", "model.gguf", Some("\"v1\""), bytes(1024, 1));
    w.disk.insert("o_m_model.gguf".to_string(), bytes(1024, 1)[..512].to_vec());
    w.disk.insert("o_m_model.gguf.etag".to_string(), b"\"v1\"".to_vec());
    let paths = run(&mut w, "o/m:t").unwrap();
    assert_eq!(paths, vec!["o_m_model.gguf".to_string()]);
    assert_eq!(w.disk["o_m_model.gguf"].len(), 1024);
    assert_eq!(w.disk["o_m_model.gguf"], bytes(1024, 1));
    assert_eq!(
        w.log,
        vec![
            "MKDIR",
            "GET https://huggingface.co/v2/o/m/manifests/t",
            "HEAD https://huggingface.co/o/m/resolve/main/model.gguf",
            "GET https://huggingface.co/o/m/resolve/main/model.gguf Range: bytes=512-",
            "WRITE o_m_model.gguf",
            "WRITE manifest=o=m=t.json",
        ]
    );
}

#[test]
fn shards_are_fetched_in_order_of_name() {
    let mut w = world(file("BF16/x-00001-of-00002.gguf", 100));
    w.listing = Some(vec![
        file("BF16/x-00002-of-00002.gguf", 200),
        file("BF16/notes.txt", 5),
        file("BF16/x-00001-of-00002.gguf", 100),
    ]);
    serve(&mut w, "o/m", "BF16/x-00001-of-00002.gguf", Some("\"a\""), bytes(100, 1));
    serve(&mut w, "o/m", "BF16/x-00002-of-00002.gguf", Some("\"b\""), bytes(200, 2));
    let paths = run(&mut w, "o/m:t").unwrap();
    assert_eq!(
        paths,
        vec![
            "o_m_BF16_x-00001-of-00002.gguf".to_string(),
            "o_m_BF16_x-00002-of-00002.gguf".to_string()
        ]
    );
    assert_eq!(w.disk["o_m_BF16_x-00001-of-00002.gguf"], bytes(100, 1));
    assert_eq!(w.disk["o_m_BF16_x-00002-of-00002.gguf"], bytes(200, 2));
    assert_eq!(w.disk["manifest=o=m=t.json"], w.manifest_body.clone().into_bytes());
    assert_eq!(
        w.log,
        vec![
            "MKDIR",
            "GET https://huggingface.co/v2/o/m/manifests/t",
            "GET https://huggingface.co/api/models/o/m/tree/main/BF16",
            "HEAD https://huggingface.co/o/m/resolve/main/BF16/x-00001-of-00002.gguf",
            "WRITE o_m_BF16_x-00001-of-00002.gguf.etag",
            "GET https://huggingface.co/o/m/resolve/main/BF16/x-00001-of-00002.gguf",
            "WRITE o_m_BF16_x-00001-of-00002.gguf",
            "HEAD https://huggingface.co/o/m/resolve/main/BF16/x-00002-of-00002.gguf",
            "WRITE o_m_BF16_x-00002-of-00002.gguf.etag",
            "GET https://huggingface.co/o/m/resolve/main/BF16/x-00002-of-00002.gguf",
            "WRITE o_m_BF16_x-00002-of-00002.gguf",
            "WRITE manifest=o=m=t.json",
        ]
    );
}

#[test]
fn manifest_is_not_kept_when_a_shard_fails() {
    let mut w = world(file("x-00001-of-00002.gguf", 100));
    w.listing =
        Some(vec![file("x-00002-of-00002.gguf", 200), file("x-00001-of-00002.gguf", 100)]);
    serve(&mut w, "o/m", "x-00001-of-00002.gguf", Some("\"a\""), bytes(100, 1));
    let error = run(&mut w, "o/m:t").unwrap_err();
    assert_eq!(
        error,
        DownloadError::ManifestFetch(
            "https://huggingface.co/o/m/resolve/main/x-00002-of-00002.gguf: HTTP status 404"
                .to_string()
        )
    );
    assert_eq!(w.disk["o_m_x-00001-of-00002.gguf"], bytes(100, 1));
    assert!(!w.disk.contains_key("o_m_x-00002-of-00002.gguf"));
    assert!(!w.disk.contains_key("manifest=o=m=t.json"));

    serve(&mut w, "o/m", "x-00002-of-00002.gguf", None, bytes(200, 2));
    w.log.clear();
    let paths = run(&mut w, "o/m:t").unwrap();
    assert_eq!(paths.len(), 2);
    assert_eq!(w.disk["o_m_x-00002-of-00002.gguf"], bytes(200, 2));
    assert!(w.disk.contains_key("manifest=o=m=t.json"));
    assert!(!w
        .log
        .contains(&"GET https://huggingface.co/o/m/resolve/main/x-00001-of-00002.gguf".to_string()));
}

#[test]
fn a_new_remote_version_is_fetched_from_the_start() {
    let mut w = world(file("model.gguf", 1024));
    serve(&mut w, "o/m", "model.gguf", Some("\"v2\""), bytes(1024, 2));
    w.disk.insert("o_m_model.gguf".to_string(), bytes(1024, 1));
    w.disk.insert("o_m_model.gguf.etag".to_string(), b"\"v1\"".to_vec());
    run(&mut w, "o/m:t").unwrap();
    assert_eq!(w.disk["o_m_model.gguf"], bytes(1024, 2));
    assert_eq!(w.disk["o_m_model.gguf.etag"], b"\"v2\"".to_vec());
    let etag_at = w.log.iter().position(|l| l == "WRITE o_m_model.gguf.etag").unwrap();
    let get_at = w
        .log
        .iter()
        .position(|l| l == "GET https://huggingface.co/o/m/resolve/main/model.gguf")
        .unwrap();
    assert!(etag_at < get_at);
}

#[test]
fn a_registry_without_validator_is_fetched_every_time() {
    let mut w = world(file("model.gguf", 64));
    serve(&mut w, "o/m", "model.gguf", None, bytes(64, 1));
    run(&mut w, "o/m:t").unwrap();
    assert_eq!(w.disk["o_m_model.gguf.etag"], Vec::<u8>::new());
    w.log.clear();
    run(&mut w, "o/m:t").unwrap();
    assert!(w
        .log
        .contains(&"GET https://huggingface.co/o/m/resolve/main/model.gguf".to_string()));
    assert_eq!(w.disk["o_m_model.gguf"], bytes(64, 1));
}

#[test]
fn a_larger_body_is_written_in_chunks() {
    let size = 3 * CHUNK_SIZE + 17;
    let mut w = world(file("model.gguf", size as u64));
    serve(&mut w, "o/m", "model.gguf", Some("\"v1\""), bytes(size, 3));
    w.disk.insert("o_m_model.gguf".to_string(), bytes(size, 3)[..CHUNK_SIZE + 1].to_vec());
    w.disk.insert("o_m_model.gguf.etag".to_string(), b"\"v1\"".to_vec());
    run(&mut w, "o/m:t").unwrap();
    assert_eq!(w.disk["o_m_model.gguf"], bytes(size, 3));
}

#[test]
fn each_failure_has_its_error() {
    let cases = [
        ("GetManifest", DownloadError::ManifestFetch("GetManifest failed".to_string())),
        ("GetListing", DownloadError::ShardListing("GetListing failed".to_string())),
        ("PrepareCacheDir", DownloadError::CacheDir("PrepareCacheDir failed".to_string())),
        ("ProbeEtag", DownloadError::ManifestFetch("ProbeEtag failed".to_string())),
        ("SaveEtag", DownloadError::FileWrite("SaveEtag failed".to_string())),
        ("RequestFile", DownloadError::ManifestFetch("RequestFile failed".to_string())),
        ("WriteFile", DownloadError::FileWrite("WriteFile failed".to_string())),
        ("SaveManifest", DownloadError::FileWrite("SaveManifest failed".to_string())),
    ];
    for (kind, expected) in cases {
        let mut w = world(file("x-00001-of-00001.gguf", 10));
        w.listing = Some(vec![file("x-00001-of-00001.gguf", 10)]);
        serve(&mut w, "o/m", "x-00001-of-00001.gguf", Some("\"a\""), bytes(10, 1));
        w.fail_at = Some(kind.to_string());
        assert_eq!(run(&mut w, "o/m:t"), Err(expected), "{kind}");
        assert!(!w.disk.contains_key("manifest=o=m=t.json"), "{kind}");
        assert_eq!(w.log.last().unwrap(), &format!("FAIL {kind}"));
    }
}

#[test]
fn a_failed_look_at_the_cache_fetches_anew() {
    let mut w = world(file("model.gguf", 10));
    serve(&mut w, "o/m", "model.gguf", Some("\"a\""), bytes(10, 1));
    w.disk.insert("o_m_model.gguf".to_string(), bytes(10, 7));
    w.disk.insert("o_m_model.gguf.etag".to_string(), b"\"a\"".to_vec());
    w.fail_at = Some("InspectCache".to_string());
    assert_eq!(run(&mut w, "o/m:t"), Ok(vec!["o_m_model.gguf".to_string()]));
    assert_eq!(w.disk["o_m_model.gguf"], bytes(10, 1));
}

#[test]
fn manifest_errors_end_the_download() {
    let mut w = world(file("model.gguf", 10));
    w.manifest_status = 401;
    assert_eq!(
        run(&mut w, "o/m:t"),
        Err(DownloadError::ManifestFetch(
            "https://huggingface.co/v2/o/m/manifests/t: HTTP status 401".to_string()
        ))
    );
    let mut w = world(file("model.gguf", 10));
    w.declared = Err("EOF while parsing".to_string());
    assert_eq!(
        run(&mut w, "o/m:t"),
        Err(DownloadError::ManifestParse("EOF while parsing".to_string()))
    );
    let mut w = world(file("model.gguf", 10));
    w.declared = Ok(None);
    assert_eq!(run(&mut w, "o/m:t"), Err(DownloadError::NoGgufFile));
    assert_eq!(w.log, vec!["MKDIR", "GET https://huggingface.co/v2/o/m/manifests/t"]);
    assert!(w.disk.is_empty());
}

#[test]
fn a_missing_listing_ends_the_download() {
    let mut w = world(file("d/x-00001-of-00002.gguf", 10));
    assert_eq!(
        run(&mut w, "o/m:t"),
        Err(DownloadError::ShardListing(
            "https://huggingface.co/api/models/o/m/tree/main/d: HTTP status 404".to_string()
        ))
    );
    let mut w = world(file("d/x-00001-of-00002.gguf", 10));
    w.listing = Some(vec![file("d/readme.md", 1)]);
    assert_eq!(
        run(&mut w, "o/m:t"),
        Err(DownloadError::ShardListing(
            "https://huggingface.co/api/models/o/m/tree/main/d: no shard files listed".to_string()
        ))
    );
    assert!(w.disk.is_empty());
}

#[test]
fn the_actions_of_one_file_in_turn() {
    let state = start("o/m:t");
    assert_eq!(state.action(), Action::PrepareCacheDir);
    let state = go_on(state.step(Event::CacheDirReady));
    assert_eq!(
        state.action(),
        Action::GetManifest { url: "https://huggingface.co/v2/o/m/manifests/t".to_string() }
    );
    let state = go_on(state.step(single(1024)));
    assert_eq!(
        state.action(),
        Action::ProbeEtag { url: "https://huggingface.co/o/m/resolve/main/model.gguf".to_string() }
    );
    let state = go_on(state.step(Event::Etag { header: Some("\"e\"".to_string()) }));
    assert_eq!(
        state.action(),
        Action::InspectCache {
            filename: "o_m_model.gguf".to_string(),
            etag_filename: "o_m_model.gguf.etag".to_string()
        }
    );
    let state =
        go_on(state.step(Event::Cached { exists: false, size: None, stored_etag: None }));
    assert_eq!(
        state.action(),
        Action::SaveEtag {
            etag_filename: "o_m_model.gguf.etag".to_string(),
            etag: "\"e\"".to_string()
        }
    );
    let state = go_on(state.step(Event::Saved));
    assert_eq!(
        state.action(),
        Action::RequestFile {
            url: "https://huggingface.co/o/m/resolve/main/model.gguf".to_string(),
            range: None
        }
    );
    let state = go_on(state.step(Event::Response { status: 200, content_length: Some(1024) }));
    assert_eq!(
        state.action(),
        Action::WriteFile {
            filename: "o_m_model.gguf".to_string(),
            transfer: Transfer { mode: WriteMode::Truncate, position: 0, total_size: 1024 }
        }
    );
    let state = go_on(state.step(Event::Downloaded));
    assert_eq!(
        state.action(),
        Action::SaveManifest { filename: "manifest=o=m=t.json".to_string(), body: "{}".to_string() }
    );
    match state.step(Event::Saved) {
        Step::Finished { paths } => assert_eq!(paths, vec!["o_m_model.gguf".to_string()]),
        other => panic!("not finished: {other:?}"),
    }
}

#[test]
fn what_the_cache_holds_decides() {
    let cached = |exists: bool, size: Option<u64>, stored: Option<&str>| Event::Cached {
        exists,
        size,
        stored_etag: stored.map(|s| s.to_string()),
    };
    let save = Action::SaveEtag {
        etag_filename: "o_m_model.gguf.etag".to_string(),
        etag: "\"e\"".to_string(),
    };
    let resume = |from: u64| Action::RequestFile {
        url: "https://huggingface.co/o/m/resolve/main/model.gguf".to_string(),
        range: if from > 0 { Some(format!("bytes={from}-")) } else { None },
    };
    let done =
        Action::SaveManifest { filename: "manifest=o=m=t.json".to_string(), body: "{}".to_string() };

    let after = |event: Event| go_on(inspecting(1024, "\"e\"").step(event)).action();
    assert_eq!(after(cached(true, Some(1024), Some("\"e\""))), done);
    assert_eq!(after(cached(true, Some(4096), Some("\"e\""))), done);
    assert_eq!(after(cached(true, Some(1023), Some("\"e\""))), resume(1023));
    assert_eq!(after(cached(true, Some(512), Some("\"e\""))), resume(512));
    assert_eq!(after(cached(true, Some(0), Some("\"e\""))), resume(0));
    assert_eq!(after(cached(true, None, Some("\"e\""))), resume(0));
    assert_eq!(after(cached(true, Some(1024), Some("\"old\""))), save);
    assert_eq!(after(cached(true, Some(1024), None)), save);
    assert_eq!(after(cached(false, Some(1024), Some("\"e\""))), save);
    assert_eq!(after(cached(false, None, None)), save);
}

#[test]
fn an_empty_file_that_is_declared_empty_is_complete() {
    let state = go_on(inspecting(0, "\"e\"").step(Event::Cached {
        exists: true,
        size: None,
        stored_etag: Some("\"e\"".to_string()),
    }));
    assert!(matches!(state.action(), Action::SaveManifest { .. }));
}

#[test]
fn a_probe_without_validator_matches_nothing() {
    let state = go_on(probing(1024).step(Event::Etag { header: None }));
    let state = go_on(state.step(Event::Cached {
        exists: true,
        size: Some(1024),
        stored_etag: Some(String::new()),
    }));
    assert_eq!(
        state.action(),
        Action::SaveEtag { etag_filename: "o_m_model.gguf.etag".to_string(), etag: String::new() }
    );
}

#[test]
fn an_event_that_answers_nothing_changes_nothing() {
    let events = || {
        vec![
            Event::CacheDirReady,
            single(5),
            Event::Listing(TreeResponse { status: 200, entries: Ok(vec![file("a.gguf", 1)]) }),
            Event::Etag { header: Some("x".to_string()) },
            Event::Cached { exists: true, size: Some(9), stored_etag: Some("x".to_string()) },
            Event::Saved,
            Event::Response { status: 200, content_length: Some(1) },
            Event::Downloaded,
        ]
    };
    let answers = [0usize, 1, 3, 4];
    let states: [fn() -> Download; 4] =
        [|| start("o/m:t"), fetching, || probing(1024), || inspecting(1024, "\"e\"")];
    for (make, answer) in states.iter().zip(answers) {
        for (i, event) in events().into_iter().enumerate() {
            if i != answer {
                let before = make().action();
                assert_eq!(go_on(make().step(event)).action(), before);
            }
        }
    }
}

#[test]
fn a_request_outside_2xx_fails() {
    let state = go_on(inspecting(1024, "\"e\"").step(Event::Cached {
        exists: true,
        size: Some(512),
        stored_etag: Some("\"e\"".to_string()),
    }));
    assert_eq!(
        failed(state.step(Event::Response { status: 416, content_length: None })),
        DownloadError::ManifestFetch(
            "https://huggingface.co/o/m/resolve/main/model.gguf: HTTP status 416".to_string()
        )
    );
}

#[test]
fn a_resumed_request_that_is_answered_in_full_starts_anew() {
    let state = go_on(inspecting(1024, "\"e\"").step(Event::Cached {
        exists: true,
        size: Some(512),
        stored_etag: Some("\"e\"".to_string()),
    }));
    let state = go_on(state.step(Event::Response { status: 200, content_length: Some(1024) }));
    assert_eq!(
        state.action(),
        Action::WriteFile {
            filename: "o_m_model.gguf".to_string(),
            transfer: Transfer { mode: WriteMode::Truncate, position: 0, total_size: 1024 }
        }
    );
}
