use cvmfs_server_scraper::documents::{
    Manifest, MetaJSON, RepositoriesJSON, RepositoryEntry, StatusJSON,
};
use cvmfs_server_scraper::errors::{
    CVMFSScraperError, ErrorKind, GenericError, ManifestError, ScrapeError,
};
use cvmfs_server_scraper::generic::{Hostname, MaybeRfc2822DateTime};
use cvmfs_server_scraper::names::{contains_name, reconcile};
use cvmfs_server_scraper::scrape::{ScrapeEvent, ScrapeRequest, ScrapeState};
use cvmfs_server_scraper::servers::{
    default_backend_type, MetadataFromRepoJSON, PopulatedRepositoryOrReplica, PopulatedServer,
    RepositoryOrReplica, ScrapedServer, Server, ServerBackendType, ServerMetadata, ServerType,
};
use cvmfs_server_scraper::text::{concat2, concat3, concat5};

fn server(server_type: ServerType, backend_type: ServerBackendType) -> Server {
    Server::new(server_type, backend_type, Hostname("host.example".to_string()))
}

fn strings(names: &[&str]) -> Vec<String> {
    names.iter().map(|n| n.to_string()).collect()
}

fn entries(names: &[&str]) -> Vec<RepositoryEntry> {
    names
        .iter()
        .map(|n| RepositoryEntry { name: n.to_string(), url: format!("/cvmfs/{}", n) })
        .collect()
}

fn document(repositories: &[&str], replicas: &[&str], version: Option<&str>) -> RepositoriesJSON {
    RepositoriesJSON {
        schema: 1,
        cvmfs_version: version.map(|v| v.to_string()),
        last_geodb_update: MaybeRfc2822DateTime(Some("Tue, 01 Jul 2025 10:00:00 +0000".to_string())),
        os_version_id: Some("9.4".to_string()),
        os_pretty_name: Some("Rocky Linux 9.4".to_string()),
        os_id: Some("rocky".to_string()),
        repositories: entries(repositories),
        replicas: entries(replicas),
    }
}

fn meta() -> MetaJSON {
    MetaJSON {
        administrator: "X".to_string(),
        email: "Y".to_string(),
        organisation: "Z".to_string(),
        custom: serde_json::Value::String("anything".to_string()),
    }
}

fn status() -> StatusJSON {
    StatusJSON {
        last_snapshot: MaybeRfc2822DateTime(Some("Mon, 30 Jun 2025 08:00:00 +0000".to_string())),
        last_gc: MaybeRfc2822DateTime(None),
    }
}

fn fetch_error(what: &str) -> ScrapeError {
    ScrapeError::FetchError(what.to_string())
}

/// Runs a scrape to its end against a server that serves `doc` as its
/// discovery document, `meta_json` as its metadata document, and every
/// repository but those of `broken`, whose manifest is not found.
fn run(
    server: &Server,
    supplied: &[&str],
    doc: Result<RepositoriesJSON, ScrapeError>,
    meta_json: Result<MetaJSON, ScrapeError>,
    broken: &[&str],
) -> (ScrapedServer, Vec<String>) {
    let mut doc = Some(doc);
    let mut meta_json = Some(meta_json);
    let mut asked: Vec<String> = Vec::new();
    let mut revision = 0;
    let mut state = server.begin_scrape(strings(supplied));
    loop {
        let request = match state.request() {
            Some(request) => request,
            None => break,
        };
        let event = match request {
            ScrapeRequest::ReposJson(url) => {
                asked.push(url);
                ScrapeEvent::ReposJson(doc.take().unwrap())
            }
            ScrapeRequest::Status(url) => {
                asked.push(url);
                ScrapeEvent::Status(Ok(status()))
            }
            ScrapeRequest::Manifest(url) => {
                let is_broken = broken
                    .iter()
                    .any(|b| url == format!("http://host.example/cvmfs/{}/.cvmfspublished", b));
                asked.push(url);
                if is_broken {
                    ScrapeEvent::Manifest(Err(ManifestError::FetchError("404".to_string())))
                } else {
                    revision += 1;
                    ScrapeEvent::Manifest(Ok(Manifest { s: revision }))
                }
            }
            ScrapeRequest::MetaJson(url) => {
                asked.push(url);
                ScrapeEvent::MetaJson(meta_json.take().unwrap())
            }
        };
        state = state.advance(event);
    }
    (state.into_outcome().unwrap(), asked)
}

fn repo_names(server: &PopulatedServer) -> Vec<String> {
    let mut names: Vec<String> = server.repositories.iter().map(|r| r.name.clone()).collect();
    names.sort();
    names
}

#[test]
fn object_storage_without_names_fails() {
    for server_type in [ServerType::Stratum0, ServerType::Stratum1, ServerType::SyncServer] {
        let s = server(server_type, ServerBackendType::S3);
        let state = s.begin_scrape(Vec::new());
        assert!(state.is_done());
        assert_eq!(state.request(), None);
        let failed = state.into_outcome().unwrap().get_failed_server().unwrap();
        assert_eq!(
            failed.error,
            CVMFSScraperError::ScrapeError(ScrapeError::EmptyRepositoryList(
                "host.example".to_string()
            ))
        );
        assert_eq!(failed.error.kind(), ErrorKind::EmptyRepositoryList);
        assert_eq!(failed.hostname, Hostname("host.example".to_string()));
        assert_eq!(failed.server_type, server_type);
        assert_eq!(failed.backend_type, ServerBackendType::S3);
    }
}

#[test]
fn object_storage_with_names_fetches_no_discovery_document() {
    let s = server(ServerType::Stratum1, ServerBackendType::S3);
    let (outcome, asked) =
        run(&s, &["a", "a", "b"], Err(fetch_error("unused")), Err(fetch_error("gone")), &[]);
    let populated = outcome.get_populated_server().unwrap();
    assert_eq!(populated.backend_detected, ServerBackendType::S3);
    assert_eq!(repo_names(&populated), strings(&["a", "b"]));
    assert_eq!(
        asked,
        strings(&[
            "http://host.example/cvmfs/a/.cvmfs_status.json",
            "http://host.example/cvmfs/a/.cvmfspublished",
            "http://host.example/cvmfs/b/.cvmfs_status.json",
            "http://host.example/cvmfs/b/.cvmfspublished",
            "http://host.example/cvmfs/info/v1/meta.json",
        ])
    );
    assert_eq!(populated.metadata.schema_version, None);
    assert_eq!(populated.metadata.administrator, None);
}

#[test]
fn origin_with_replicas_is_a_mismatch() {
    for backend in [ServerBackendType::AutoDetect, ServerBackendType::CVMFS] {
        let s = server(ServerType::Stratum0, backend);
        let (outcome, asked) =
            run(&s, &["a"], Ok(document(&[], &["r1"], Some("2.9.0"))), Ok(meta()), &[]);
        assert!(outcome.is_failed());
        assert!(!outcome.is_ok());
        let failed = outcome.get_failed_server().unwrap();
        assert_eq!(
            failed.error,
            CVMFSScraperError::ScrapeError(ScrapeError::ServerTypeMismatch(
                "host.example is a Stratum0 server, but replicas were found in the repositories.json"
                    .to_string()
            ))
        );
        assert_eq!(failed.backend_type, backend);
        assert_eq!(asked, strings(&["http://host.example/cvmfs/info/v1/repositories.json"]));
    }
}

#[test]
fn mirror_without_replicas_is_a_mismatch() {
    let s = server(ServerType::Stratum1, ServerBackendType::CVMFS);
    let (outcome, _) = run(&s, &[], Ok(document(&["a"], &[], None)), Ok(meta()), &[]);
    assert_eq!(
        outcome.get_failed_server().unwrap().error,
        CVMFSScraperError::ScrapeError(ScrapeError::ServerTypeMismatch(
            "host.example is a Stratum1 server, but no replicas were found in the repositories.json"
                .to_string()
        ))
    );
    let s = server(ServerType::SyncServer, ServerBackendType::AutoDetect);
    let (outcome, _) = run(&s, &[], Ok(document(&["a"], &[], None)), Ok(meta()), &[]);
    assert_eq!(
        outcome.get_failed_server().unwrap().error,
        CVMFSScraperError::ScrapeError(ScrapeError::ServerTypeMismatch(
            "host.example is a SyncServer, but no replicas were found in the repositories.json"
                .to_string()
        ))
    );
}

#[test]
fn validation_accepts_fitting_documents() {
    let origin = server(ServerType::Stratum0, ServerBackendType::CVMFS);
    assert_eq!(origin.validate_repo_json_and_server_type(&document(&["a"], &[], None)), Ok(()));
    assert!(origin.validate_repo_json_and_server_type(&document(&[], &["a"], None)).is_err());
    let mirror = server(ServerType::Stratum1, ServerBackendType::CVMFS);
    assert_eq!(mirror.validate_repo_json_and_server_type(&document(&[], &["a"], None)), Ok(()));
    let sync = server(ServerType::SyncServer, ServerBackendType::CVMFS);
    assert_eq!(sync.validate_repo_json_and_server_type(&document(&[], &["a"], None)), Ok(()));
    assert!(sync.validate_repo_json_and_server_type(&document(&[], &[], None)).is_err());
}

#[test]
fn auto_detect_reads_a_failed_fetch_as_object_storage() {
    let s = server(ServerType::Stratum1, ServerBackendType::AutoDetect);
    let (outcome, _) = run(&s, &["a"], Err(fetch_error("refused")), Err(fetch_error("gone")), &[]);
    assert!(outcome.is_ok());
    let populated = outcome.get_populated_server().unwrap();
    assert_eq!(populated.backend_type, ServerBackendType::AutoDetect);
    assert_eq!(populated.backend_detected, ServerBackendType::S3);
    assert_eq!(repo_names(&populated), strings(&["a"]));
    assert_eq!(populated.metadata.schema_version, None);
    assert_eq!(populated.metadata.cvmfs_version, None);
    assert!(!populated.shows_metadata());
    assert!(populated.shows_detected_backend());
}

#[test]
fn auto_detect_accepts_an_empty_list() {
    let s = server(ServerType::Stratum0, ServerBackendType::AutoDetect);
    let (outcome, asked) = run(&s, &[], Err(fetch_error("refused")), Err(fetch_error("gone")), &[]);
    let populated = outcome.get_populated_server().unwrap();
    assert_eq!(populated.backend_detected, ServerBackendType::S3);
    assert!(populated.repositories.is_empty());
    assert_eq!(
        asked,
        strings(&[
            "http://host.example/cvmfs/info/v1/repositories.json",
            "http://host.example/cvmfs/info/v1/meta.json",
        ])
    );
}

#[test]
fn auto_detect_does_not_forgive_a_malformed_document() {
    let s = server(ServerType::Stratum1, ServerBackendType::AutoDetect);
    let error = ScrapeError::DocumentError("not json".to_string());
    let (outcome, _) = run(&s, &["a"], Err(error.clone()), Ok(meta()), &[]);
    let failed = outcome.get_failed_server().unwrap();
    assert_eq!(failed.error, CVMFSScraperError::ScrapeError(error));
    assert_eq!(failed.error.kind(), ErrorKind::MalformedDocument);
}

#[test]
fn explicit_web_backend_needs_the_document() {
    let s = server(ServerType::Stratum1, ServerBackendType::CVMFS);
    let (outcome, asked) = run(&s, &["a"], Err(fetch_error("refused")), Ok(meta()), &[]);
    let failed = outcome.get_failed_server().unwrap();
    assert_eq!(failed.error, CVMFSScraperError::ScrapeError(fetch_error("refused")));
    assert_eq!(failed.error.kind(), ErrorKind::TransportFailure);
    assert_eq!(asked.len(), 1);
}

#[test]
fn reconcile_is_a_union_without_repeats() {
    let mut all = reconcile(&strings(&["a", "b"]), &strings(&["b", "c"]));
    all.sort();
    assert_eq!(all, strings(&["a", "b", "c"]));
    let again = reconcile(&all, &all);
    assert_eq!(again.len(), 3);
    assert_eq!(reconcile(&Vec::new(), &Vec::new()), Vec::<String>::new());
    let mut repeated = reconcile(&strings(&["a", "a", "a"]), &strings(&["a"]));
    repeated.sort();
    assert_eq!(repeated, strings(&["a"]));
    assert!(contains_name(&all, &"c".to_string()));
    assert!(!contains_name(&all, &"d".to_string()));
}

#[test]
fn each_reconciled_name_is_scraped_once() {
    let s = server(ServerType::Stratum0, ServerBackendType::CVMFS);
    let (outcome, asked) = run(&s, &["a", "b"], Ok(document(&["b", "c"], &[], None)), Ok(meta()), &[]);
    let populated = outcome.get_populated_server().unwrap();
    assert_eq!(repo_names(&populated), strings(&["a", "b", "c"]));
    for name in ["a", "b", "c"] {
        let status_url = format!("http://host.example/cvmfs/{}/.cvmfs_status.json", name);
        let manifest_url = format!("http://host.example/cvmfs/{}/.cvmfspublished", name);
        assert_eq!(asked.iter().filter(|u| **u == status_url).count(), 1);
        assert_eq!(asked.iter().filter(|u| **u == manifest_url).count(), 1);
    }
    assert_eq!(asked.len(), 8);
}

#[test]
fn metadata_merge_keeps_the_sources_apart() {
    let s = server(ServerType::Stratum1, ServerBackendType::CVMFS);
    let repo_meta = MetadataFromRepoJSON::try_from(RepositoriesJSON {
        schema: 1,
        cvmfs_version: Some("2.9.0".to_string()),
        last_geodb_update: MaybeRfc2822DateTime(None),
        os_version_id: None,
        os_pretty_name: None,
        os_id: None,
        repositories: Vec::new(),
        replicas: Vec::new(),
    })
    .unwrap();
    let merged = s.merge_metadata(repo_meta, Some(meta()));
    assert_eq!(
        merged,
        ServerMetadata {
            schema_version: Some(1),
            cvmfs_version: Some(semver::Version::new(2, 9, 0)),
            last_geodb_update: MaybeRfc2822DateTime(None),
            os_version_id: None,
            os_pretty_name: None,
            os_id: None,
            administrator: Some("X".to_string()),
            email: Some("Y".to_string()),
            organisation: Some("Z".to_string()),
            custom: Some(serde_json::Value::String("anything".to_string())),
        }
    );
}

#[test]
fn metadata_merge_without_a_metadata_document() {
    let s = server(ServerType::Stratum1, ServerBackendType::CVMFS);
    let repo_meta = MetadataFromRepoJSON::try_from(document(&[], &["r"], Some("2.11.3"))).unwrap();
    let merged = s.merge_metadata(repo_meta.clone(), None);
    assert_eq!(merged.schema_version, Some(1));
    assert_eq!(merged.cvmfs_version, Some(semver::Version::new(2, 11, 3)));
    assert_eq!(merged.os_id, Some("rocky".to_string()));
    assert_eq!(merged.os_version_id, Some("9.4".to_string()));
    assert_eq!(merged.os_pretty_name, Some("Rocky Linux 9.4".to_string()));
    assert_eq!(merged.last_geodb_update, repo_meta.last_geodb_update);
    assert_eq!(merged.administrator, None);
    assert_eq!(merged.email, None);
    assert_eq!(merged.organisation, None);
    assert_eq!(merged.custom, None);
    let absent = s.merge_metadata(MetadataFromRepoJSON::absent(), None);
    assert_eq!(absent.schema_version, None);
    assert_eq!(absent.cvmfs_version, None);
}

#[test]
fn merge_repo_metadata_overwrites_the_six_fields_only() {
    let mut metadata = ServerMetadata::from(meta());
    assert_eq!(metadata.schema_version, None);
    assert_eq!(metadata.administrator, Some("X".to_string()));
    metadata.schema_version = Some(7);
    metadata.os_id = Some("old".to_string());
    metadata.merge_repo_metadata(MetadataFromRepoJSON::absent());
    assert_eq!(metadata.schema_version, None);
    assert_eq!(metadata.os_id, None);
    assert_eq!(metadata.administrator, Some("X".to_string()));
    assert_eq!(metadata.email, Some("Y".to_string()));
    assert_eq!(metadata.organisation, Some("Z".to_string()));
    assert_eq!(metadata.custom, Some(serde_json::Value::String("anything".to_string())));
}

#[test]
fn mirror_with_two_replicas_is_populated() {
    let s = server(ServerType::Stratum1, ServerBackendType::CVMFS);
    let (outcome, asked) =
        run(&s, &[], Ok(document(&[], &["r1", "r2"], Some("2.9.0"))), Ok(meta()), &[]);
    assert!(outcome.is_ok());
    let populated = outcome.get_populated_server().unwrap();
    assert_eq!(populated.server_type, ServerType::Stratum1);
    assert_eq!(populated.backend_type, ServerBackendType::CVMFS);
    assert_eq!(populated.backend_detected, ServerBackendType::CVMFS);
    assert_eq!(populated.hostname, Hostname("host.example".to_string()));
    assert_eq!(repo_names(&populated), strings(&["r1", "r2"]));
    assert!(populated.has_repository("r1"));
    assert!(populated.has_repository("r2"));
    assert!(!populated.has_repository("r3"));
    assert_eq!(populated.metadata.cvmfs_version, Some(semver::Version::new(2, 9, 0)));
    assert_eq!(populated.metadata.administrator, Some("X".to_string()));
    assert_eq!(populated.repositories[0].revision(), 1);
    assert_eq!(populated.repositories[1].revision(), 2);
    assert_eq!(populated.repositories[0].last_snapshot, status().last_snapshot);
    assert_eq!(populated.repositories[0].last_gc, MaybeRfc2822DateTime(None));
    assert_eq!(asked.len(), 6);
    assert_eq!(populated.describe(), "host.example (Stratum1, CVMFS)");
    assert!(populated.shows_metadata());
    assert!(!populated.shows_detected_backend());
}

#[test]
fn one_missing_manifest_fails_the_whole_server() {
    let s = server(ServerType::Stratum1, ServerBackendType::CVMFS);
    let (outcome, asked) =
        run(&s, &[], Ok(document(&[], &["r1", "r2"], Some("2.9.0"))), Ok(meta()), &["r2"]);
    assert!(outcome.is_failed());
    let error = outcome.clone().get_populated_server().unwrap_err();
    assert_eq!(error, GenericError::TypeError("host.example is a failed server".to_string()));
    let failed = outcome.get_failed_server().unwrap();
    assert_eq!(
        failed.error,
        CVMFSScraperError::ManifestError(ManifestError::FetchError("404".to_string()))
    );
    assert_eq!(failed.error.kind(), ErrorKind::TransportFailure);
    assert_eq!(failed.hostname, Hostname("host.example".to_string()));
    assert_eq!(failed.server_type, ServerType::Stratum1);
    assert_eq!(failed.backend_type, ServerBackendType::CVMFS);
    assert_eq!(asked.last().unwrap(), "http://host.example/cvmfs/r2/.cvmfspublished");
    assert!(!asked.contains(&"http://host.example/cvmfs/info/v1/meta.json".to_string()));
}

#[test]
fn a_failed_status_fetch_skips_the_manifest() {
    let s = server(ServerType::Stratum1, ServerBackendType::S3);
    let state = s.begin_scrape(strings(&["a"]));
    let state = state.advance(ScrapeEvent::Status(Err(fetch_error("timeout"))));
    assert_eq!(state.request(), None);
    let failed = state.into_outcome().unwrap().get_failed_server().unwrap();
    assert_eq!(failed.error, CVMFSScraperError::ScrapeError(fetch_error("timeout")));
}

#[test]
fn a_format_error_in_a_manifest_is_fatal() {
    let s = server(ServerType::Stratum1, ServerBackendType::S3);
    let state = s.begin_scrape(strings(&["a"]));
    let state = state.advance(ScrapeEvent::Status(Ok(status())));
    let state =
        state.advance(ScrapeEvent::Manifest(Err(ManifestError::FormatError("no S".to_string()))));
    let failed = state.into_outcome().unwrap().get_failed_server().unwrap();
    assert_eq!(failed.error.kind(), ErrorKind::ManifestFormatError);
}

#[test]
fn a_missing_metadata_document_is_tolerated() {
    let s = server(ServerType::Stratum0, ServerBackendType::AutoDetect);
    let (outcome, _) =
        run(&s, &[], Ok(document(&["a"], &[], Some("2.9.0"))), Err(fetch_error("404")), &[]);
    let populated = outcome.get_populated_server().unwrap();
    assert_eq!(populated.backend_detected, ServerBackendType::CVMFS);
    assert_eq!(populated.metadata.administrator, None);
    assert_eq!(populated.metadata.custom, None);
    assert_eq!(populated.metadata.schema_version, Some(1));
}

#[test]
fn a_malformed_version_is_a_conversion_error() {
    let s = server(ServerType::Stratum1, ServerBackendType::CVMFS);
    let (outcome, asked) =
        run(&s, &[], Ok(document(&[], &["r1"], Some("2.9"))), Ok(meta()), &[]);
    let failed = outcome.get_failed_server().unwrap();
    let expected = semver::Version::parse("2.9").unwrap_err().to_string();
    assert_eq!(
        failed.error,
        CVMFSScraperError::ScrapeError(ScrapeError::ConversionError(expected))
    );
    assert_eq!(failed.error.kind(), ErrorKind::ConversionError);
    assert_eq!(asked.len(), 1);
}

#[test]
fn a_mismatch_comes_before_a_malformed_version() {
    for backend in [ServerBackendType::AutoDetect, ServerBackendType::CVMFS] {
        let s = server(ServerType::Stratum0, backend);
        let (outcome, _) =
            run(&s, &[], Ok(document(&[], &["r1"], Some("not a version"))), Ok(meta()), &[]);
        let failed = outcome.get_failed_server().unwrap();
        assert_eq!(failed.error.kind(), ErrorKind::ServerTypeMismatch);
    }
}

#[test]
fn version_texts_are_parsed() {
    let record = MetadataFromRepoJSON::try_from(document(&[], &[], Some("1.2.3-rc.1+build5"))).unwrap();
    let version = record.cvmfs_version.unwrap();
    assert_eq!(version.major, 1);
    assert_eq!(version.minor, 2);
    assert_eq!(version.patch, 3);
    assert_eq!(version.pre.as_str(), "rc.1");
    assert_eq!(version.build.as_str(), "build5");
    let record = MetadataFromRepoJSON::try_from(document(&[], &[], None)).unwrap();
    assert_eq!(record.cvmfs_version, None);
    assert_eq!(record.schema_version, Some(1));
    assert_eq!(
        MetadataFromRepoJSON::try_from(document(&[], &[], Some(""))),
        Err(ScrapeError::ConversionError("empty string, expected a semver version".to_string()))
    );
}

#[test]
fn with_version_takes_the_parsed_outcome() {
    let ok = MetadataFromRepoJSON::with_version(
        document(&[], &[], Some("ignored")),
        Some(Ok(semver::Version::new(3, 0, 1))),
    )
    .unwrap();
    assert_eq!(ok.cvmfs_version, Some(semver::Version::new(3, 0, 1)));
    assert_eq!(ok.os_id, Some("rocky".to_string()));
    let err = MetadataFromRepoJSON::with_version(
        document(&[], &[], Some("ignored")),
        Some(Err("bad".to_string())),
    );
    assert_eq!(err, Err(ScrapeError::ConversionError("bad".to_string())));
    let none = MetadataFromRepoJSON::with_version(document(&[], &[], None), None).unwrap();
    assert_eq!(none.cvmfs_version, None);
}

#[test]
fn addresses_are_built_from_host_and_name() {
    let s = server(ServerType::Stratum1, ServerBackendType::CVMFS);
    assert_eq!(s.repos_json_url(), "http://host.example/cvmfs/info/v1/repositories.json");
    assert_eq!(s.meta_json_url(), "http://host.example/cvmfs/info/v1/meta.json");
    let repo = RepositoryOrReplica::new("atlas.cern.ch", &s);
    assert_eq!(repo.name, "atlas.cern.ch");
    assert_eq!(repo.server, s);
    assert_eq!(repo.manifest_url(), "http://host.example/cvmfs/atlas.cern.ch/.cvmfspublished");
    assert_eq!(repo.status_url(), "http://host.example/cvmfs/atlas.cern.ch/.cvmfs_status.json");
}

#[test]
fn pieces_are_joined_in_order() {
    assert_eq!(concat2("ab", "c"), "abc");
    assert_eq!(concat3("a", "", "c"), "ac");
    assert_eq!(concat5("1", "2", "3", "4", "5"), "12345");
}

#[test]
fn an_event_that_answers_nothing_is_ignored() {
    let s = server(ServerType::Stratum1, ServerBackendType::CVMFS);
    let state = s.begin_scrape(strings(&["a"]));
    let before = state.request();
    let state = state.advance(ScrapeEvent::MetaJson(Ok(meta())));
    assert_eq!(state.request(), before);
    let state = state.advance(ScrapeEvent::Status(Ok(status())));
    assert_eq!(state.request(), before);
    assert!(!state.is_done());
    assert!(state.into_outcome().is_none());
    let done = ScrapeState::Done(ScrapedServer::Failed(
        s.as_failed_server(CVMFSScraperError::ScrapeError(fetch_error("x"))),
    ));
    let done = done.advance(ScrapeEvent::Status(Ok(status())));
    assert!(done.is_done());
}

#[test]
fn reading_the_wrong_variant_is_a_type_error() {
    let s = server(ServerType::Stratum0, ServerBackendType::AutoDetect);
    let (outcome, _) = run(&s, &[], Err(fetch_error("x")), Err(fetch_error("y")), &[]);
    assert_eq!(
        outcome.get_failed_server().unwrap_err(),
        GenericError::TypeError("host.example is a populated server".to_string())
    );
}

#[test]
fn small_accessors() {
    assert_eq!(default_backend_type(), ServerBackendType::AutoDetect);
    assert_eq!(ServerType::SyncServer.name(), "SyncServer");
    assert_eq!(ServerBackendType::AutoDetect.name(), "AutoDetect");
    let record = PopulatedRepositoryOrReplica {
        name: "a".to_string(),
        manifest: Manifest { s: 42 },
        last_snapshot: MaybeRfc2822DateTime::absent(),
        last_gc: MaybeRfc2822DateTime(Some("now".to_string())),
    };
    assert_eq!(record.revision(), 42);
    assert!(!record.last_snapshot.is_present());
    assert!(record.last_gc.is_present());
    let doc = document(&["a", "b"], &["c"], None);
    assert!(doc.has_replicas());
    assert_eq!(doc.names(), strings(&["a", "b", "c"]));
    let s = server(ServerType::Stratum1, ServerBackendType::S3);
    let repo = RepositoryOrReplica::new("a", &s);
    let populated = repo.populate(status(), Manifest { s: 3 });
    assert_eq!(populated.name, "a");
    assert_eq!(populated.revision(), 3);
    assert_eq!(populated.last_snapshot, status().last_snapshot);
    assert_eq!(fetch_error("x").kind(), ErrorKind::TransportFailure);
    assert_eq!(
        ManifestError::FormatError("x".to_string()).kind(),
        ErrorKind::ManifestFormatError
    );
}

#[test]
fn combine_reports_the_first_failure() {
    let s = server(ServerType::Stratum1, ServerBackendType::CVMFS);
    let repo = RepositoryOrReplica::new("a", &s);
    let both = repo.combine(
        Err(fetch_error("status")),
        Err(ManifestError::FetchError("manifest".to_string())),
    );
    assert_eq!(both, Err(CVMFSScraperError::ScrapeError(fetch_error("status"))));
    let manifest_only =
        repo.combine(Ok(status()), Err(ManifestError::FormatError("bad".to_string())));
    assert_eq!(
        manifest_only,
        Err(CVMFSScraperError::ManifestError(ManifestError::FormatError("bad".to_string())))
    );
    let fine = repo.combine(Ok(status()), Ok(Manifest { s: 9 })).unwrap();
    assert_eq!(fine.name, "a");
    assert_eq!(fine.revision(), 9);
    assert_eq!(fine.last_snapshot, status().last_snapshot);
}

#[test]
fn a_state_that_waits_for_a_repository_it_does_not_have_asks_nothing() {
    let s = server(ServerType::Stratum1, ServerBackendType::S3);
    let state = s.begin_scrape(strings(&["a"]));
    let state = state.advance(ScrapeEvent::Status(Ok(status())));
    let state = state.advance(ScrapeEvent::Manifest(Ok(Manifest { s: 1 })));
    assert_eq!(
        state.request(),
        Some(ScrapeRequest::MetaJson("http://host.example/cvmfs/info/v1/meta.json".to_string()))
    );
    let state = state.advance(ScrapeEvent::Manifest(Ok(Manifest { s: 2 })));
    let state = state.advance(ScrapeEvent::MetaJson(Err(fetch_error("gone"))));
    let populated = state.into_outcome().unwrap().get_populated_server().unwrap();
    assert_eq!(populated.repositories.len(), 1);
    assert_eq!(populated.repositories[0].revision(), 1);
}

fn scrape_with_plain_fetches(
    server: &Server,
    supplied: &[&str],
    doc: Result<RepositoriesJSON, ScrapeError>,
    missing_manifest: Option<&str>,
) -> (ScrapedServer, Vec<String>) {
    let asked = std::cell::RefCell::new(Vec::<String>::new());
    let missing = missing_manifest.map(|n| format!("http://host.example/cvmfs/{}/.cvmfspublished", n));
    let outcome = server.scrape(
        strings(supplied),
        |url: String| {
            asked.borrow_mut().push(url);
            doc.clone()
        },
        |url: String| {
            asked.borrow_mut().push(url);
            Ok(status())
        },
        |url: String| {
            let gone = Some(&url) == missing.as_ref();
            asked.borrow_mut().push(url);
            if gone {
                Err(ManifestError::FetchError("404".to_string()))
            } else {
                Ok(Manifest { s: 5 })
            }
        },
        |url: String| {
            asked.borrow_mut().push(url);
            Ok(meta())
        },
    );
    (outcome, asked.into_inner())
}

#[test]
fn scrape_of_a_mirror_with_two_replicas() {
    let s = server(ServerType::Stratum1, ServerBackendType::CVMFS);
    let (outcome, asked) =
        scrape_with_plain_fetches(&s, &[], Ok(document(&[], &["r1", "r2"], Some("2.9.0"))), None);
    let populated = outcome.get_populated_server().unwrap();
    assert_eq!(populated.backend_detected, ServerBackendType::CVMFS);
    assert_eq!(repo_names(&populated), strings(&["r1", "r2"]));
    assert_eq!(populated.repositories[0].revision(), 5);
    assert_eq!(populated.metadata.organisation, Some("Z".to_string()));
    assert_eq!(
        asked,
        strings(&[
            "http://host.example/cvmfs/info/v1/repositories.json",
            "http://host.example/cvmfs/r1/.cvmfs_status.json",
            "http://host.example/cvmfs/r1/.cvmfspublished",
            "http://host.example/cvmfs/r2/.cvmfs_status.json",
            "http://host.example/cvmfs/r2/.cvmfspublished",
            "http://host.example/cvmfs/info/v1/meta.json",
        ])
    );
}

#[test]
fn scrape_stops_at_the_first_missing_manifest() {
    let s = server(ServerType::Stratum1, ServerBackendType::CVMFS);
    let (outcome, asked) = scrape_with_plain_fetches(
        &s,
        &[],
        Ok(document(&[], &["r1", "r2", "r3"], Some("2.9.0"))),
        Some("r2"),
    );
    assert!(outcome.is_failed());
    assert!(outcome.clone().get_populated_server().is_err());
    let failed = outcome.get_failed_server().unwrap();
    assert_eq!(
        failed.error,
        CVMFSScraperError::ManifestError(ManifestError::FetchError("404".to_string()))
    );
    assert_eq!(asked.len(), 5);
    assert_eq!(asked[4], "http://host.example/cvmfs/r2/.cvmfspublished");
}

#[test]
fn scrape_of_object_storage_without_names_fetches_nothing() {
    let s = server(ServerType::Stratum0, ServerBackendType::S3);
    let (outcome, asked) = scrape_with_plain_fetches(&s, &[], Err(fetch_error("unused")), None);
    assert_eq!(
        outcome.get_failed_server().unwrap().error,
        CVMFSScraperError::ScrapeError(ScrapeError::EmptyRepositoryList("host.example".to_string()))
    );
    assert!(asked.is_empty());
}

#[test]
fn scrape_detects_object_storage() {
    let s = server(ServerType::Stratum1, ServerBackendType::AutoDetect);
    let (outcome, asked) =
        scrape_with_plain_fetches(&s, &["b", "a", "b"], Err(fetch_error("refused")), None);
    let populated = outcome.get_populated_server().unwrap();
    assert_eq!(populated.backend_detected, ServerBackendType::S3);
    assert_eq!(repo_names(&populated), strings(&["a", "b"]));
    assert_eq!(populated.repositories.len(), 2);
    assert_eq!(populated.repositories[0].name, "b");
    assert_eq!(asked.len(), 6);
}

#[test]
fn repository_scrape_fetches_status_then_manifest() {
    let s = server(ServerType::Stratum1, ServerBackendType::CVMFS);
    let repo = RepositoryOrReplica::new("r1", &s);
    let asked = std::cell::RefCell::new(Vec::<String>::new());
    let record = repo
        .scrape(
            |url: String| {
                asked.borrow_mut().push(url);
                Ok(status())
            },
            |url: String| {
                asked.borrow_mut().push(url);
                Ok(Manifest { s: 17 })
            },
        )
        .unwrap();
    assert_eq!(
        record,
        PopulatedRepositoryOrReplica {
            name: "r1".to_string(),
            manifest: Manifest { s: 17 },
            last_snapshot: status().last_snapshot,
            last_gc: status().last_gc,
        }
    );
    assert_eq!(
        asked.into_inner(),
        strings(&[
            "http://host.example/cvmfs/r1/.cvmfs_status.json",
            "http://host.example/cvmfs/r1/.cvmfspublished",
        ])
    );
}

#[test]
fn repository_scrape_stops_at_a_failed_status() {
    let s = server(ServerType::Stratum1, ServerBackendType::CVMFS);
    let repo = RepositoryOrReplica::new("r1", &s);
    let manifests = std::cell::Cell::new(0);
    let result = repo.scrape(
        |_url: String| Err(fetch_error("500")),
        |_url: String| {
            manifests.set(manifests.get() + 1);
            Ok(Manifest { s: 1 })
        },
    );
    assert_eq!(result, Err(CVMFSScraperError::ScrapeError(fetch_error("500"))));
    assert_eq!(manifests.get(), 0);
    let result = repo.scrape(
        |_url: String| Ok(status()),
        |_url: String| Err(ManifestError::FormatError("truncated".to_string())),
    );
    assert_eq!(
        result,
        Err(CVMFSScraperError::ManifestError(ManifestError::FormatError("truncated".to_string())))
    );
}
