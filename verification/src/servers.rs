//! Servers, what a scrape finds on them, and the rules that classify them.

use vstd::prelude::*;
use crate::documents::{Manifest, MetaJSON, RepositoriesJSON, StatusJSON};
use crate::errors::{CVMFSScraperError, GenericError, ManifestError, ScrapeError};
use crate::generic::{Hostname, MaybeRfc2822DateTime};
use crate::text::{concat2, concat3, concat5};

verus! {

/// The type of a server.
///
/// `Stratum0` holds the master copy of the data. `Stratum1` holds a copy of
/// it. `SyncServer` holds a copy too, under the same rules as a `Stratum1`.
#[derive(Debug, Clone, Copy, PartialEq, Eq, Structural)]
pub enum ServerType {
    Stratum0,
    Stratum1,
    SyncServer,
}

/// The backend of a server.
///
/// `S3` is object storage, `CVMFS` a standard web server. `AutoDetect` asks
/// the scrape to find out which of the two it is: it is a setting only, and
/// never what a scrape detects.
#[derive(Debug, Clone, Copy, PartialEq, Eq, Structural)]
pub enum ServerBackendType {
    S3,
    CVMFS,
    AutoDetect,
}

/// The name of a server type, as it is written.
pub open spec fn server_type_name(server_type: ServerType) -> Seq<char> {
    match server_type {
        ServerType::Stratum0 => "Stratum0"@,
        ServerType::Stratum1 => "Stratum1"@,
        ServerType::SyncServer => "SyncServer"@,
    }
}

/// The name of a backend, as it is written.
pub open spec fn backend_name(backend: ServerBackendType) -> Seq<char> {
    match backend {
        ServerBackendType::S3 => "S3"@,
        ServerBackendType::CVMFS => "CVMFS"@,
        ServerBackendType::AutoDetect => "AutoDetect"@,
    }
}

impl ServerType {
    /// The name of the type, as it is written.
    pub fn name(&self) -> (name: &'static str)
        ensures
            name@ == server_type_name(*self),
    {
        match self {
            ServerType::Stratum0 => "Stratum0",
            ServerType::Stratum1 => "Stratum1",
            ServerType::SyncServer => "SyncServer",
        }
    }
}

impl ServerBackendType {
    /// The name of the backend, as it is written.
    pub fn name(&self) -> (name: &'static str)
        ensures
            name@ == backend_name(*self),
    {
        match self {
            ServerBackendType::S3 => "S3",
            ServerBackendType::CVMFS => "CVMFS",
            ServerBackendType::AutoDetect => "AutoDetect",
        }
    }
}

/// The backend of a server whose configuration names none.
pub fn default_backend_type() -> (backend: ServerBackendType)
    ensures
        backend == ServerBackendType::AutoDetect,
{
    ServerBackendType::AutoDetect
}

/// A server to scrape: its type, its configured backend and its host name.
#[derive(Debug, PartialEq)]
pub struct Server {
    pub server_type: ServerType,
    pub backend_type: ServerBackendType,
    pub hostname: Hostname,
}

impl Clone for Server {
    fn clone(&self) -> (copy: Self)
        ensures
            copy == *self,
    {
        Server {
            server_type: self.server_type,
            backend_type: self.backend_type,
            hostname: self.hostname.clone(),
        }
    }
}

/// What the discovery document says of the server itself. Every field is
/// optional: an object-storage server has no such document, and a web server
/// may keep some of it to itself.
#[derive(Debug, PartialEq)]
pub struct MetadataFromRepoJSON {
    pub schema_version: Option<u32>,
    pub cvmfs_version: Option<semver::Version>,
    pub last_geodb_update: MaybeRfc2822DateTime,
    pub os_version_id: Option<String>,
    pub os_pretty_name: Option<String>,
    pub os_id: Option<String>,
}

/// What is known of a server: the six fields of the discovery document and
/// the four of the metadata document.
#[derive(Debug, PartialEq)]
pub struct ServerMetadata {
    pub schema_version: Option<u32>,
    pub cvmfs_version: Option<semver::Version>,
    pub last_geodb_update: MaybeRfc2822DateTime,
    pub os_version_id: Option<String>,
    pub os_pretty_name: Option<String>,
    pub os_id: Option<String>,
    pub administrator: Option<String>,
    pub email: Option<String>,
    pub organisation: Option<String>,
    pub custom: Option<serde_json::Value>,
}

/// A repository or replica, scraped.
#[derive(Debug, Clone, PartialEq)]
pub struct PopulatedRepositoryOrReplica {
    pub name: String,
    pub manifest: Manifest,
    pub last_snapshot: MaybeRfc2822DateTime,
    pub last_gc: MaybeRfc2822DateTime,
}

/// A server, scraped. Repositories and replicas stand together under
/// `repositories`: no server has both. `backend_detected` is never
/// `AutoDetect`.
#[derive(Debug, Clone, PartialEq)]
pub struct PopulatedServer {
    pub server_type: ServerType,
    pub backend_type: ServerBackendType,
    pub backend_detected: ServerBackendType,
    pub hostname: Hostname,
    pub repositories: Vec<PopulatedRepositoryOrReplica>,
    pub metadata: ServerMetadata,
}

/// A server whose scrape failed, with the error that ended it.
#[derive(Debug, Clone, PartialEq)]
pub struct FailedServer {
    pub hostname: Hostname,
    pub server_type: ServerType,
    pub backend_type: ServerBackendType,
    pub error: CVMFSScraperError,
}

/// The outcome of a scrape.
#[derive(Debug, Clone, PartialEq)]
pub enum ScrapedServer {
    Populated(PopulatedServer),
    Failed(FailedServer),
}

/// A copy of an optional text.
fn clone_text(text: &Option<String>) -> (copy: Option<String>)
    ensures
        copy == *text,
{
    match text {
        Some(t) => Some(t.clone()),
        None => None,
    }
}

/// A copy of an optional version.
fn clone_version(version: &Option<semver::Version>) -> (copy: Option<semver::Version>)
    ensures
        copy == *version,
{
    match version {
        Some(v) => Some(v.clone()),
        None => None,
    }
}

impl Clone for MetadataFromRepoJSON {
    fn clone(&self) -> (copy: Self)
        ensures
            copy == *self,
    {
        MetadataFromRepoJSON {
            schema_version: self.schema_version,
            cvmfs_version: clone_version(&self.cvmfs_version),
            last_geodb_update: self.last_geodb_update.clone(),
            os_version_id: clone_text(&self.os_version_id),
            os_pretty_name: clone_text(&self.os_pretty_name),
            os_id: clone_text(&self.os_id),
        }
    }
}

impl Clone for ServerMetadata {
    fn clone(&self) -> (copy: Self)
        ensures
            copy == *self,
    {
        ServerMetadata {
            schema_version: self.schema_version,
            cvmfs_version: clone_version(&self.cvmfs_version),
            last_geodb_update: self.last_geodb_update.clone(),
            os_version_id: clone_text(&self.os_version_id),
            os_pretty_name: clone_text(&self.os_pretty_name),
            os_id: clone_text(&self.os_id),
            administrator: clone_text(&self.administrator),
            email: clone_text(&self.email),
            organisation: clone_text(&self.organisation),
            custom: match &self.custom {
                Some(value) => Some(value.clone()),
                None => None,
            },
        }
    }
}

/// A repository or replica yet to scrape, on its server.
pub struct RepositoryOrReplica {
    pub server: Server,
    pub name: String,
}

/// Whether the replicas that a server reports fit its type: a `Stratum0`
/// has none, the other two have at least one.
pub open spec fn topology_fits(server_type: ServerType, has_replicas: bool) -> bool {
    match server_type {
        ServerType::Stratum0 => !has_replicas,
        ServerType::Stratum1 => has_replicas,
        ServerType::SyncServer => has_replicas,
    }
}

/// What the error says where the replicas do not fit the type.
pub open spec fn mismatch_message(server_type: ServerType, hostname: Seq<char>) -> Seq<char> {
    match server_type {
        ServerType::Stratum0 => hostname
            + " is a Stratum0 server, but replicas were found in the repositories.json"@,
        ServerType::Stratum1 => hostname
            + " is a Stratum1 server, but no replicas were found in the repositories.json"@,
        ServerType::SyncServer => hostname
            + " is a SyncServer, but no replicas were found in the repositories.json"@,
    }
}

/// Where a server keeps its discovery document.
pub open spec fn repos_json_address(hostname: Seq<char>) -> Seq<char> {
    "http://"@ + hostname + "/cvmfs/info/v1/repositories.json"@
}

/// Where a server keeps its metadata document.
pub open spec fn meta_json_address(hostname: Seq<char>) -> Seq<char> {
    "http://"@ + hostname + "/cvmfs/info/v1/meta.json"@
}

/// Where a server keeps the manifest of a repository.
pub open spec fn manifest_address(hostname: Seq<char>, name: Seq<char>) -> Seq<char> {
    "http://"@ + hostname + "/cvmfs/"@ + name + "/.cvmfspublished"@
}

/// Where a server keeps the live status of a repository.
pub open spec fn status_address(hostname: Seq<char>, name: Seq<char>) -> Seq<char> {
    "http://"@ + hostname + "/cvmfs/"@ + name + "/.cvmfs_status.json"@
}

/// The record of a server that no discovery document spoke of.
pub open spec fn absent_repo_metadata() -> MetadataFromRepoJSON {
    MetadataFromRepoJSON {
        schema_version: None,
        cvmfs_version: None,
        last_geodb_update: MaybeRfc2822DateTime(None),
        os_version_id: None,
        os_pretty_name: None,
        os_id: None,
    }
}

/// The merged record: the six fields of the discovery document as they are,
/// and the four of the metadata document where there is one.
pub open spec fn merged_metadata(
    repo_meta: MetadataFromRepoJSON,
    meta_json: Option<MetaJSON>,
) -> ServerMetadata {
    ServerMetadata {
        schema_version: repo_meta.schema_version,
        cvmfs_version: repo_meta.cvmfs_version,
        last_geodb_update: repo_meta.last_geodb_update,
        os_version_id: repo_meta.os_version_id,
        os_pretty_name: repo_meta.os_pretty_name,
        os_id: repo_meta.os_id,
        administrator: match meta_json {
            Some(meta) => Some(meta.administrator),
            None => None,
        },
        email: match meta_json {
            Some(meta) => Some(meta.email),
            None => None,
        },
        organisation: match meta_json {
            Some(meta) => Some(meta.organisation),
            None => None,
        },
        custom: match meta_json {
            Some(meta) => Some(meta.custom),
            None => None,
        },
    }
}

/// The record that a discovery document gives, with its version as parsed.
pub open spec fn repo_metadata_of(
    repo_json: RepositoriesJSON,
    version: Option<semver::Version>,
) -> MetadataFromRepoJSON {
    MetadataFromRepoJSON {
        schema_version: Some(repo_json.schema),
        cvmfs_version: version,
        last_geodb_update: repo_json.last_geodb_update,
        os_version_id: repo_json.os_version_id,
        os_pretty_name: repo_json.os_pretty_name,
        os_id: repo_json.os_id,
    }
}

/// What `semver::Version::parse` makes of a text: the version, or the
/// message of the error that it returns.
pub uninterp spec fn parsed_version(text: Seq<char>) -> Result<semver::Version, Seq<char>>;

/// Parses a semantic version.
///
/// Trusted: the body calls `semver::Version::parse` and, on an error, the
/// error's `to_string`. The contract only names the outcome: the same text
/// always gives the same version or the same message.
#[verifier::external_body]
pub(crate) fn parse_version(text: &str) -> (parsed: Result<semver::Version, String>)
    ensures
        match parsed {
            Ok(version) => parsed_version(text@) == Ok::<semver::Version, Seq<char>>(version),
            Err(message) => parsed_version(text@) == Err::<semver::Version, Seq<char>>(message@),
        },
{
    match semver::Version::parse(text) {
        Ok(version) => Ok(version),
        Err(error) => Err(error.to_string()),
    }
}

impl MetadataFromRepoJSON {
    /// The record of a server without a discovery document: nothing known.
    pub fn absent() -> (metadata: Self)
        ensures
            metadata == absent_repo_metadata(),
    {
        MetadataFromRepoJSON {
            schema_version: None,
            cvmfs_version: None,
            last_geodb_update: MaybeRfc2822DateTime(None),
            os_version_id: None,
            os_pretty_name: None,
            os_id: None,
        }
    }

    /// The record of a discovery document whose version text, if it has one,
    /// was parsed to `parsed`. A version that did not parse is a conversion
    /// error with the parser's message; else the record holds the schema, the
    /// version and the other fields as the document gave them.
    pub fn with_version(
        repo_json: RepositoriesJSON,
        parsed: Option<Result<semver::Version, String>>,
    ) -> (result: Result<Self, ScrapeError>)
        ensures
            match parsed {
                Some(Err(message)) => result == Err::<Self, ScrapeError>(
                    ScrapeError::ConversionError(message),
                ),
                Some(Ok(version)) => result == Ok::<Self, ScrapeError>(
                    repo_metadata_of(repo_json, Some(version)),
                ),
                None => result == Ok::<Self, ScrapeError>(repo_metadata_of(repo_json, None)),
            },
    {
        let cvmfs_version = match parsed {
            Some(Err(message)) => {
                return Err(ScrapeError::ConversionError(message));
            },
            Some(Ok(version)) => Some(version),
            None => None,
        };
        Ok(
            MetadataFromRepoJSON {
                schema_version: Some(repo_json.schema),
                cvmfs_version,
                last_geodb_update: repo_json.last_geodb_update,
                os_version_id: repo_json.os_version_id,
                os_pretty_name: repo_json.os_pretty_name,
                os_id: repo_json.os_id,
            },
        )
    }

    /// The record of a discovery document. Its version, where it gives one,
    /// must be a semantic version: one that is not is a conversion error.
    pub fn try_from(repo_json: RepositoriesJSON) -> (result: Result<Self, ScrapeError>)
        ensures
            match repo_json.cvmfs_version {
                None => result == Ok::<Self, ScrapeError>(repo_metadata_of(repo_json, None)),
                Some(text) => match parsed_version(text@) {
                    Ok(version) => result == Ok::<Self, ScrapeError>(
                        repo_metadata_of(repo_json, Some(version)),
                    ),
                    Err(message) => result matches Err(ScrapeError::ConversionError(m)) && m@
                        == message,
                },
            },
    {
        let parsed = match &repo_json.cvmfs_version {
            Some(text) => Some(parse_version(text.as_str())),
            None => None,
        };
        Self::with_version(repo_json, parsed)
    }
}

impl PopulatedServer {
    /// What holds of every populated server: the detected backend is a real
    /// one, and the configured one where one was configured; no repository
    /// occurs twice; and of an object-storage server the discovery document's
    /// six fields are unknown.
    pub open spec fn wf(&self) -> bool {
        &&& self.backend_detected != ServerBackendType::AutoDetect
        &&& self.backend_type != ServerBackendType::AutoDetect ==> self.backend_detected
            == self.backend_type
        &&& forall|i: int, j: int|
            0 <= i < j < self.repositories@.len() ==> (#[trigger] self.repositories@[i]).name@
                != (#[trigger] self.repositories@[j]).name@
        &&& self.backend_detected == ServerBackendType::S3 ==> {
            &&& self.metadata.schema_version is None
            &&& self.metadata.cvmfs_version is None
            &&& self.metadata.last_geodb_update.0 is None
            &&& self.metadata.os_version_id is None
            &&& self.metadata.os_pretty_name is None
            &&& self.metadata.os_id is None
        }
    }
}

impl ScrapedServer {
    /// Whether the scrape failed.
    pub fn is_failed(&self) -> (failed: bool)
        ensures
            failed == (self is Failed),
    {
        match self {
            ScrapedServer::Failed(_) => true,
            ScrapedServer::Populated(_) => false,
        }
    }

    /// Whether the scrape gave a populated server.
    pub fn is_ok(&self) -> (ok: bool)
        ensures
            ok == (self is Populated),
    {
        match self {
            ScrapedServer::Populated(_) => true,
            ScrapedServer::Failed(_) => false,
        }
    }

    /// The populated server, or a type error that names the host where the
    /// scrape failed.
    pub fn get_populated_server(self) -> (result: Result<PopulatedServer, GenericError>)
        ensures
            match self {
                ScrapedServer::Populated(server) => result == Ok::<
                    PopulatedServer,
                    GenericError,
                >(server),
                ScrapedServer::Failed(failed) => result matches Err(GenericError::TypeError(m))
                    && m@ == failed.hostname@ + " is a failed server"@,
            },
    {
        match self {
            ScrapedServer::Populated(server) => Ok(server),
            ScrapedServer::Failed(failed) => Err(
                GenericError::TypeError(concat2(failed.hostname.0.as_str(), " is a failed server")),
            ),
        }
    }

    /// The failed server, or a type error that names the host where the
    /// scrape succeeded.
    pub fn get_failed_server(self) -> (result: Result<FailedServer, GenericError>)
        ensures
            match self {
                ScrapedServer::Failed(failed) => result == Ok::<FailedServer, GenericError>(
                    failed,
                ),
                ScrapedServer::Populated(server) => result matches Err(
                    GenericError::TypeError(m),
                ) && m@ == server.hostname@ + " is a populated server"@,
            },
    {
        match self {
            ScrapedServer::Failed(failed) => Ok(failed),
            ScrapedServer::Populated(server) => Err(
                GenericError::TypeError(
                    concat2(server.hostname.0.as_str(), " is a populated server"),
                ),
            ),
        }
    }
}

impl Server {
    /// A server of this type, backend and host name.
    pub fn new(server_type: ServerType, backend_type: ServerBackendType, hostname: Hostname) -> (server:
        Self)
        ensures
            server == (Server { server_type, backend_type, hostname }),
    {
        Server { server_type, backend_type, hostname }
    }

    /// The failed outcome of this server's scrape, for the given error.
    pub fn as_failed_server(&self, error: CVMFSScraperError) -> (failed: FailedServer)
        ensures
            failed == (FailedServer {
                hostname: self.hostname,
                server_type: self.server_type,
                backend_type: self.backend_type,
                error,
            }),
    {
        FailedServer {
            hostname: self.hostname.clone(),
            server_type: self.server_type,
            backend_type: self.backend_type,
            error,
        }
    }

    /// The address of the discovery document.
    pub fn repos_json_url(&self) -> (url: String)
        ensures
            url@ == repos_json_address(self.hostname@),
    {
        concat3("http://", self.hostname.0.as_str(), "/cvmfs/info/v1/repositories.json")
    }

    /// The address of the metadata document.
    pub fn meta_json_url(&self) -> (url: String)
        ensures
            url@ == meta_json_address(self.hostname@),
    {
        concat3("http://", self.hostname.0.as_str(), "/cvmfs/info/v1/meta.json")
    }

    /// Holds the discovery document against the server's type: a `Stratum0`
    /// must report no replica, a `Stratum1` or `SyncServer` at least one.
    pub fn validate_repo_json_and_server_type(&self, repo_json: &RepositoriesJSON) -> (result:
        Result<(), CVMFSScraperError>)
        ensures
            topology_fits(self.server_type, repo_json.replicas@.len() > 0) ==> result is Ok,
            !topology_fits(self.server_type, repo_json.replicas@.len() > 0) ==> (result matches Err(
                CVMFSScraperError::ScrapeError(ScrapeError::ServerTypeMismatch(m)),
            ) && m@ == mismatch_message(self.server_type, self.hostname@)),
    {
        let has_replicas = repo_json.has_replicas();
        let host = self.hostname.0.as_str();
        match self.server_type {
            ServerType::Stratum0 => {
                if has_replicas {
                    Err(
                        CVMFSScraperError::ScrapeError(
                            ScrapeError::ServerTypeMismatch(
                                concat2(host,
                                    " is a Stratum0 server, but replicas were found in the repositories.json",
                                ),
                            ),
                        ),
                    )
                } else {
                    Ok(())
                }
            },
            ServerType::Stratum1 => {
                if has_replicas {
                    Ok(())
                } else {
                    Err(
                        CVMFSScraperError::ScrapeError(
                            ScrapeError::ServerTypeMismatch(
                                concat2(host,
                                    " is a Stratum1 server, but no replicas were found in the repositories.json",
                                ),
                            ),
                        ),
                    )
                }
            },
            ServerType::SyncServer => {
                if has_replicas {
                    Ok(())
                } else {
                    Err(
                        CVMFSScraperError::ScrapeError(
                            ScrapeError::ServerTypeMismatch(
                                concat2(host,
                                    " is a SyncServer, but no replicas were found in the repositories.json",
                                ),
                            ),
                        ),
                    )
                }
            },
        }
    }

    /// Merges the two sources of metadata. The metadata document gives the
    /// administrator, the email, the organisation and the custom value; the
    /// discovery document gives the other six fields. Neither source ever
    /// fills a field of the other.
    pub fn merge_metadata(&self, repo_meta: MetadataFromRepoJSON, meta_json: Option<MetaJSON>) -> (merged:
        ServerMetadata)
        ensures
            merged == merged_metadata(repo_meta, meta_json),
    {
        let mut server_metadata = match meta_json {
            Some(meta) => ServerMetadata::from(meta),
            None => ServerMetadata {
                schema_version: None,
                cvmfs_version: None,
                last_geodb_update: MaybeRfc2822DateTime(None),
                os_version_id: None,
                os_pretty_name: None,
                os_id: None,
                administrator: None,
                email: None,
                organisation: None,
                custom: None,
            },
        };
        server_metadata.merge_repo_metadata(repo_meta);
        server_metadata
    }
}

impl PopulatedServer {
    /// The server in one line: its host name, then its type and its
    /// configured backend in brackets.
    pub fn describe(&self) -> (line: String)
        ensures
            line@ == self.hostname@ + " ("@ + server_type_name(self.server_type) + ", "@
                + backend_name(self.backend_type) + ")"@,
    {
        let head = concat3(self.hostname.0.as_str(), " (", self.server_type.name());
        let line = concat3(head.as_str(), ", ", self.backend_type.name());
        concat2(line.as_str(), ")")
    }

    /// Whether a report shows the server's metadata: an object-storage
    /// server has none worth showing.
    pub fn shows_metadata(&self) -> (shown: bool)
        ensures
            shown == (self.backend_detected != ServerBackendType::S3),
    {
        match self.backend_detected {
            ServerBackendType::S3 => false,
            _ => true,
        }
    }

    /// Whether a report shows the detected backend beside the configured
    /// one: only where the configuration left the backend to be detected.
    pub fn shows_detected_backend(&self) -> (shown: bool)
        ensures
            shown == (self.backend_type == ServerBackendType::AutoDetect),
    {
        match self.backend_type {
            ServerBackendType::AutoDetect => true,
            _ => false,
        }
    }

    /// Whether the scrape found a repository of this name.
    pub fn has_repository(&self, repository: &str) -> (found: bool)
        ensures
            found == (exists|i: int|
                0 <= i < self.repositories@.len() && (#[trigger] self.repositories@[i]).name@
                    == repository@),
    {
        let wanted = repository.to_owned();
        let mut i: usize = 0;
        while i < self.repositories.len()
            invariant
                i <= self.repositories@.len(),
                wanted@ == repository@,
                forall|k: int|
                    0 <= k < i ==> (#[trigger] self.repositories@[k]).name@ != repository@,
            decreases self.repositories@.len() - i,
        {
            if self.repositories[i].name == wanted {
                return true;
            }
            i += 1;
        }
        false
    }
}

impl ServerMetadata {
    /// The record that a metadata document alone gives: its four fields, and
    /// nothing of the other six.
    pub fn from(meta: MetaJSON) -> (metadata: Self)
        ensures
            metadata == merged_metadata(absent_repo_metadata(), Some(meta)),
    {
        ServerMetadata {
            schema_version: None,
            cvmfs_version: None,
            last_geodb_update: MaybeRfc2822DateTime(None),
            os_version_id: None,
            os_pretty_name: None,
            os_id: None,
            administrator: Some(meta.administrator),
            email: Some(meta.email),
            organisation: Some(meta.organisation),
            custom: Some(meta.custom),
        }
    }

    /// Writes the six fields of the discovery document over those of the
    /// record, whatever they held, and leaves the other four alone.
    pub fn merge_repo_metadata(&mut self, repo_meta: MetadataFromRepoJSON)
        ensures
            *final(self) == (ServerMetadata {
                schema_version: repo_meta.schema_version,
                cvmfs_version: repo_meta.cvmfs_version,
                last_geodb_update: repo_meta.last_geodb_update,
                os_version_id: repo_meta.os_version_id,
                os_pretty_name: repo_meta.os_pretty_name,
                os_id: repo_meta.os_id,
                administrator: old(self).administrator,
                email: old(self).email,
                organisation: old(self).organisation,
                custom: old(self).custom,
            }),
    {
        self.schema_version = repo_meta.schema_version;
        self.cvmfs_version = repo_meta.cvmfs_version;
        self.last_geodb_update = repo_meta.last_geodb_update;
        self.os_version_id = repo_meta.os_version_id;
        self.os_pretty_name = repo_meta.os_pretty_name;
        self.os_id = repo_meta.os_id;
    }
}

/// The two sources of the merged record do not touch: the four ownership
/// fields are the same whatever the discovery document held, and the six
/// protocol fields are the same whatever the metadata document held, or
/// whether there was one.
pub proof fn lemma_merge_sources_apart(
    repo_a: MetadataFromRepoJSON,
    repo_b: MetadataFromRepoJSON,
    meta_a: Option<MetaJSON>,
    meta_b: Option<MetaJSON>,
)
    ensures
        merged_metadata(repo_a, meta_a).administrator == merged_metadata(repo_b, meta_a).administrator,
        merged_metadata(repo_a, meta_a).email == merged_metadata(repo_b, meta_a).email,
        merged_metadata(repo_a, meta_a).organisation == merged_metadata(repo_b, meta_a).organisation,
        merged_metadata(repo_a, meta_a).custom == merged_metadata(repo_b, meta_a).custom,
        merged_metadata(repo_a, meta_a).schema_version == merged_metadata(
            repo_a,
            meta_b,
        ).schema_version,
        merged_metadata(repo_a, meta_a).cvmfs_version == merged_metadata(
            repo_a,
            meta_b,
        ).cvmfs_version,
        merged_metadata(repo_a, meta_a).last_geodb_update == merged_metadata(
            repo_a,
            meta_b,
        ).last_geodb_update,
        merged_metadata(repo_a, meta_a).os_version_id == merged_metadata(
            repo_a,
            meta_b,
        ).os_version_id,
        merged_metadata(repo_a, meta_a).os_pretty_name == merged_metadata(
            repo_a,
            meta_b,
        ).os_pretty_name,
        merged_metadata(repo_a, meta_a).os_id == merged_metadata(repo_a, meta_b).os_id,
        meta_a is Some ==> merged_metadata(repo_a, meta_a).administrator is Some,
        meta_a is None ==> merged_metadata(repo_a, meta_a).administrator is None,
{
}

/// The record of a repository from the outcomes of its two fetches, or the
/// error of the fetch that failed: that of the status where both did.
pub open spec fn combined(
    name: String,
    status: Result<StatusJSON, ScrapeError>,
    manifest: Result<Manifest, ManifestError>,
) -> Result<PopulatedRepositoryOrReplica, CVMFSScraperError> {
    match status {
        Err(error) => Err(CVMFSScraperError::ScrapeError(error)),
        Ok(found) => match manifest {
            Err(error) => Err(CVMFSScraperError::ManifestError(error)),
            Ok(decoded) => Ok(
                PopulatedRepositoryOrReplica {
                    name,
                    manifest: decoded,
                    last_snapshot: found.last_snapshot,
                    last_gc: found.last_gc,
                },
            ),
        },
    }
}

impl RepositoryOrReplica {
    /// The repository of this name on the server.
    pub fn new(name: &str, server: &Server) -> (repo: Self)
        ensures
            repo.server == *server,
            repo.name@ == name@,
    {
        RepositoryOrReplica { server: server.clone(), name: name.to_owned() }
    }

    /// The address of the repository's manifest.
    pub fn manifest_url(&self) -> (url: String)
        ensures
            url@ == manifest_address(self.server.hostname@, self.name@),
    {
        concat5(
            "http://",
            self.server.hostname.0.as_str(),
            "/cvmfs/",
            self.name.as_str(),
            "/.cvmfspublished",
        )
    }

    /// The address of the repository's live status.
    pub fn status_url(&self) -> (url: String)
        ensures
            url@ == status_address(self.server.hostname@, self.name@),
    {
        concat5(
            "http://",
            self.server.hostname.0.as_str(),
            "/cvmfs/",
            self.name.as_str(),
            "/.cvmfs_status.json",
        )
    }

    /// The record of this repository from the outcomes of its two fetches,
    /// or the error of the fetch that failed. The status is fetched first, so
    /// its error comes first. The outcome is the same whether the two fetches
    /// ran one after the other or side by side.
    pub fn combine(
        &self,
        status: Result<StatusJSON, ScrapeError>,
        manifest: Result<Manifest, ManifestError>,
    ) -> (result: Result<PopulatedRepositoryOrReplica, CVMFSScraperError>)
        ensures
            result == combined(self.name, status, manifest),
    {
        match status {
            Err(error) => Err(CVMFSScraperError::ScrapeError(error)),
            Ok(found) => match manifest {
                Err(error) => Err(CVMFSScraperError::ManifestError(error)),
                Ok(decoded) => Ok(self.populate(found, decoded)),
            },
        }
    }

    /// The record of this repository, from its two documents.
    pub fn populate(&self, status: StatusJSON, manifest: Manifest) -> (record:
        PopulatedRepositoryOrReplica)
        ensures
            record == (PopulatedRepositoryOrReplica {
                name: self.name,
                manifest,
                last_snapshot: status.last_snapshot,
                last_gc: status.last_gc,
            }),
    {
        PopulatedRepositoryOrReplica {
            name: self.name.clone(),
            manifest,
            last_snapshot: status.last_snapshot,
            last_gc: status.last_gc,
        }
    }
}

impl PopulatedRepositoryOrReplica {
    /// The revision that the manifest gives.
    pub fn revision(&self) -> (revision: i32)
        ensures
            revision == self.manifest.s,
    {
        self.manifest.s
    }
}

} // verus!
