//! One scrape of one server, as a state machine.
//!
//! The machine decides and the caller fetches: [`ScrapeState::request`] names
//! the document to fetch next, and [`ScrapeState::advance`] takes what the
//! fetch gave. The first fatal error ends the scrape as a failed server;
//! nothing of what was collected until then is handed out.

use vstd::prelude::*;
use crate::documents::{Manifest, MetaJSON, RepositoriesJSON, StatusJSON};
use crate::errors::{CVMFSScraperError, ErrorKind, ManifestError, ScrapeError};
use crate::names::{add_names, distinct_names, has_name, reconcile};
use crate::servers::{
    absent_repo_metadata,
    manifest_address,
    merged_metadata,
    meta_json_address,
    mismatch_message,
    parsed_version,
    repo_metadata_of,
    repos_json_address,
    status_address,
    topology_fits,
    FailedServer,
    MetadataFromRepoJSON,
    PopulatedRepositoryOrReplica,
    PopulatedServer,
    RepositoryOrReplica,
    ScrapedServer,
    Server,
    ServerBackendType,
    ServerType,
};

verus! {

/// A scrape whose backend is settled: the names to collect, in the order in
/// which they are collected, and the records collected so far.
#[derive(Debug)]
pub struct Progress {
    pub server: Server,
    pub backend_detected: ServerBackendType,
    pub repo_meta: MetadataFromRepoJSON,
    pub names: Vec<String>,
    pub collected: Vec<PopulatedRepositoryOrReplica>,
}

/// Where a scrape stands.
#[derive(Debug)]
pub enum ScrapeState {
    /// The discovery document is awaited.
    Resolving { server: Server, supplied: Vec<String> },
    /// The live status of the next repository is awaited.
    AwaitingStatus(Progress),
    /// The manifest of the next repository is awaited; its status is here.
    AwaitingManifest(Progress, StatusJSON),
    /// Every repository is collected; the metadata document is awaited.
    AwaitingMetaJson(Progress),
    /// The scrape is over.
    Done(ScrapedServer),
}

/// What a fetch gave.
#[derive(Debug)]
pub enum ScrapeEvent {
    ReposJson(Result<RepositoriesJSON, ScrapeError>),
    Status(Result<StatusJSON, ScrapeError>),
    Manifest(Result<Manifest, ManifestError>),
    MetaJson(Result<MetaJSON, ScrapeError>),
}

/// The document to fetch next, with its address.
#[derive(Debug, Clone, PartialEq, Eq)]
pub enum ScrapeRequest {
    ReposJson(String),
    Status(String),
    Manifest(String),
    MetaJson(String),
}

/// The failed outcome of a server's scrape.
pub open spec fn failure(server: Server, error: CVMFSScraperError) -> ScrapedServer {
    ScrapedServer::Failed(
        FailedServer {
            hostname: server.hostname,
            server_type: server.server_type,
            backend_type: server.backend_type,
            error,
        },
    )
}

/// The scrape ended as a failure of `server`, with a scrape error of this
/// kind and message.
pub open spec fn failed_with(
    post: ScrapeState,
    server: Server,
    kind: ErrorKind,
    message: Seq<char>,
) -> bool {
    post matches ScrapeState::Done(ScrapedServer::Failed(failed)) && failed.hostname
        == server.hostname && failed.server_type == server.server_type && failed.backend_type
        == server.backend_type && failed.error is ScrapeError && failed.error.spec_kind() == kind
        && failed.error.spec_message() == message
}

impl Progress {
    pub open spec fn wf(&self) -> bool {
        &&& self.backend_detected != ServerBackendType::AutoDetect
        &&& self.server.backend_type != ServerBackendType::AutoDetect ==> self.backend_detected
            == self.server.backend_type
        &&& self.backend_detected == ServerBackendType::S3 ==> self.repo_meta
            == absent_repo_metadata()
        &&& distinct_names(self.names@)
        &&& self.collected@.len() <= self.names@.len()
        &&& forall|i: int|
            0 <= i < self.collected@.len() ==> (#[trigger] self.collected@[i]).name
                == self.names@[i]
    }

    /// Nothing is collected yet.
    pub open spec fn begun(
        &self,
        server: Server,
        backend: ServerBackendType,
        repo_meta: MetadataFromRepoJSON,
    ) -> bool {
        &&& self.server == server
        &&& self.backend_detected == backend
        &&& self.repo_meta == repo_meta
        &&& self.collected@.len() == 0
    }

    /// `self` is `before` with one more record.
    pub open spec fn extends(&self, before: Progress, record: PopulatedRepositoryOrReplica) -> bool {
        &&& self.server == before.server
        &&& self.backend_detected == before.backend_detected
        &&& self.repo_meta == before.repo_meta
        &&& self.names == before.names
        &&& self.collected@ == before.collected@.push(record)
    }

    /// The record of the repository that is collected next.
    pub open spec fn next_record(&self, status: StatusJSON, manifest: Manifest) -> PopulatedRepositoryOrReplica
        recommends
            self.collected@.len() < self.names@.len(),
    {
        PopulatedRepositoryOrReplica {
            name: self.names@[self.collected@.len() as int],
            manifest,
            last_snapshot: status.last_snapshot,
            last_gc: status.last_gc,
        }
    }

    /// The populated server that this progress ends in.
    pub open spec fn finished(&self, meta_json: Option<MetaJSON>) -> ScrapedServer {
        ScrapedServer::Populated(
            PopulatedServer {
                server_type: self.server.server_type,
                backend_type: self.server.backend_type,
                backend_detected: self.backend_detected,
                hostname: self.server.hostname,
                repositories: self.collected,
                metadata: merged_metadata(self.repo_meta, meta_json),
            },
        )
    }
}

impl ScrapeState {
    /// What holds of every state that a scrape reaches.
    pub open spec fn wf(&self) -> bool {
        match self {
            ScrapeState::Resolving { server, supplied } => server.backend_type
                != ServerBackendType::S3,
            ScrapeState::AwaitingStatus(p) => p.wf() && p.collected@.len() < p.names@.len(),
            ScrapeState::AwaitingManifest(p, _) => p.wf() && p.collected@.len() < p.names@.len(),
            ScrapeState::AwaitingMetaJson(p) => p.wf() && p.collected@.len() == p.names@.len(),
            ScrapeState::Done(ScrapedServer::Populated(server)) => server.wf(),
            ScrapeState::Done(ScrapedServer::Failed(_)) => true,
        }
    }

    /// The names that the scrape collects, once the backend is settled.
    pub open spec fn spec_names(&self) -> Seq<String> {
        match self {
            ScrapeState::AwaitingStatus(p) => p.names@,
            ScrapeState::AwaitingManifest(p, _) => p.names@,
            ScrapeState::AwaitingMetaJson(p) => p.names@,
            _ => Seq::empty(),
        }
    }

    /// The backend is settled and collecting starts: with the first status
    /// where there is a name, with the metadata document where there is none.
    pub open spec fn fresh(
        &self,
        server: Server,
        backend: ServerBackendType,
        repo_meta: MetadataFromRepoJSON,
    ) -> bool {
        match self {
            ScrapeState::AwaitingStatus(p) => p.names@.len() > 0 && p.begun(
                server,
                backend,
                repo_meta,
            ),
            ScrapeState::AwaitingMetaJson(p) => p.names@.len() == 0 && p.begun(
                server,
                backend,
                repo_meta,
            ),
            _ => false,
        }
    }

    /// One more record is collected: the next status is awaited where names
    /// are left, the metadata document where none is.
    pub open spec fn collected_one(&self, before: Progress, record: PopulatedRepositoryOrReplica) -> bool {
        match self {
            ScrapeState::AwaitingStatus(p) => p.collected@.len() < p.names@.len() && p.extends(
                before,
                record,
            ),
            ScrapeState::AwaitingMetaJson(p) => p.collected@.len() == p.names@.len() && p.extends(
                before,
                record,
            ),
            _ => false,
        }
    }
}

/// How a scrape begins. An object-storage server needs names: without any
/// the scrape fails at once, and with some it collects them, each once. For
/// the other two settings the discovery document is fetched first.
pub open spec fn begins(server: Server, repositories: Seq<String>, post: ScrapeState) -> bool {
    if server.backend_type == ServerBackendType::S3 {
        if repositories.len() == 0 {
            failed_with(post, server, ErrorKind::EmptyRepositoryList, server.hostname@)
        } else {
            &&& post.fresh(server, ServerBackendType::S3, absent_repo_metadata())
            &&& distinct_names(post.spec_names())
            &&& forall|name: Seq<char>|
                has_name(post.spec_names(), name) <==> has_name(repositories, name)
        }
    } else {
        post matches ScrapeState::Resolving { server: s, supplied } && s == server && supplied@
            == repositories
    }
}

/// What a discovery document settles. Replicas that do not fit the server's
/// type end the scrape, and so does a version that is no semantic version.
/// Else the backend is a web server, and the names to collect are those
/// supplied and those of the document, each once.
pub open spec fn document_resolves(
    server: Server,
    supplied: Seq<String>,
    repo_json: RepositoriesJSON,
    post: ScrapeState,
) -> bool {
    if !topology_fits(server.server_type, repo_json.replicas@.len() > 0) {
        failed_with(
            post,
            server,
            ErrorKind::ServerTypeMismatch,
            mismatch_message(server.server_type, server.hostname@),
        )
    } else if repo_json.cvmfs_version matches Some(text) && parsed_version(text@) is Err {
        failed_with(
            post,
            server,
            ErrorKind::ConversionError,
            parsed_version(repo_json.cvmfs_version->0@)->Err_0,
        )
    } else {
        &&& post.fresh(
            server,
            ServerBackendType::CVMFS,
            repo_metadata_of(
                repo_json,
                match repo_json.cvmfs_version {
                    Some(text) => Some(parsed_version(text@)->Ok_0),
                    None => None,
                },
            ),
        )
        &&& distinct_names(post.spec_names())
        &&& forall|name: Seq<char>|
            has_name(post.spec_names(), name) <==> has_name(supplied, name)
                || repo_json.spec_names().contains(name)
    }
}

/// What a failed fetch of the discovery document settles. Where the backend
/// is to be detected, a fetch that failed in transport shows object storage:
/// the scrape goes on with the supplied names, each once, and no error. Every
/// other failure ends the scrape with that error.
pub open spec fn failure_resolves(
    server: Server,
    supplied: Seq<String>,
    error: ScrapeError,
    post: ScrapeState,
) -> bool {
    if server.backend_type == ServerBackendType::AutoDetect && error is FetchError {
        &&& post.fresh(server, ServerBackendType::S3, absent_repo_metadata())
        &&& distinct_names(post.spec_names())
        &&& forall|name: Seq<char>| has_name(post.spec_names(), name) <==> has_name(supplied, name)
    } else {
        post == ScrapeState::Done(failure(server, CVMFSScraperError::ScrapeError(error)))
    }
}

/// The state that follows `pre` on `event`. An event that does not answer
/// the pending request changes nothing, and neither does a manifest that
/// arrives when no name is left to collect.
pub open spec fn follows(pre: ScrapeState, event: ScrapeEvent, post: ScrapeState) -> bool {
    match (pre, event) {
        (ScrapeState::Resolving { server, supplied }, ScrapeEvent::ReposJson(Ok(repo_json))) => {
            document_resolves(server, supplied@, repo_json, post)
        },
        (ScrapeState::Resolving { server, supplied }, ScrapeEvent::ReposJson(Err(error))) => {
            failure_resolves(server, supplied@, error, post)
        },
        (ScrapeState::AwaitingStatus(p), ScrapeEvent::Status(Ok(status))) => post
            == ScrapeState::AwaitingManifest(p, status),
        (ScrapeState::AwaitingStatus(p), ScrapeEvent::Status(Err(error))) => post
            == ScrapeState::Done(failure(p.server, CVMFSScraperError::ScrapeError(error))),
        (ScrapeState::AwaitingManifest(p, status), ScrapeEvent::Manifest(Ok(manifest))) => {
            if p.collected@.len() < p.names@.len() {
                post.collected_one(p, p.next_record(status, manifest))
            } else {
                post == pre
            }
        },
        (ScrapeState::AwaitingManifest(p, status), ScrapeEvent::Manifest(Err(error))) => post
            == ScrapeState::Done(failure(p.server, CVMFSScraperError::ManifestError(error))),
        (ScrapeState::AwaitingMetaJson(p), ScrapeEvent::MetaJson(Ok(meta))) => post
            == ScrapeState::Done(p.finished(Some(meta))),
        (ScrapeState::AwaitingMetaJson(p), ScrapeEvent::MetaJson(Err(_))) => post
            == ScrapeState::Done(p.finished(None)),
        _ => post == pre,
    }
}

/// The request that a state is waiting on. A state that no scrape reaches,
/// one that waits for a repository when none is left, waits on nothing.
pub open spec fn pending(state: ScrapeState, request: Option<ScrapeRequest>) -> bool {
    match state {
        ScrapeState::Resolving { server, supplied } => request matches Some(
            ScrapeRequest::ReposJson(url),
        ) && url@ == repos_json_address(server.hostname@),
        ScrapeState::AwaitingStatus(p) => if p.collected@.len() < p.names@.len() {
            request matches Some(ScrapeRequest::Status(url)) && url@ == status_address(
                p.server.hostname@,
                p.names@[p.collected@.len() as int]@,
            )
        } else {
            request is None
        },
        ScrapeState::AwaitingManifest(p, _) => if p.collected@.len() < p.names@.len() {
            request matches Some(ScrapeRequest::Manifest(url)) && url@ == manifest_address(
                p.server.hostname@,
                p.names@[p.collected@.len() as int]@,
            )
        } else {
            request is None
        },
        ScrapeState::AwaitingMetaJson(p) => request matches Some(ScrapeRequest::MetaJson(url))
            && url@ == meta_json_address(p.server.hostname@),
        ScrapeState::Done(_) => request is None,
    }
}

/// The backend that a state has settled on, where it has.
pub open spec fn detected(state: ScrapeState) -> Option<ServerBackendType> {
    match state {
        ScrapeState::Resolving { .. } => None,
        ScrapeState::AwaitingStatus(p) => Some(p.backend_detected),
        ScrapeState::AwaitingManifest(p, _) => Some(p.backend_detected),
        ScrapeState::AwaitingMetaJson(p) => Some(p.backend_detected),
        ScrapeState::Done(ScrapedServer::Populated(server)) => Some(server.backend_detected),
        ScrapeState::Done(ScrapedServer::Failed(_)) => None,
    }
}

/// Once a backend is detected, no event changes it: the populated server
/// at the end holds the backend that the discovery step settled on.
pub proof fn lemma_detected_backend_stays(pre: ScrapeState, event: ScrapeEvent, post: ScrapeState)
    requires
        follows(pre, event, post),
        detected(pre) is Some,
        detected(post) is Some,
    ensures
        detected(post) == detected(pre),
{
}

/// A populated server holds one record for each name of the reconciled set,
/// and no other: each name was collected once.
pub proof fn lemma_outcome_holds_each_name_once(progress: Progress, meta_json: Option<MetaJSON>)
    requires
        progress.wf(),
        progress.collected@.len() == progress.names@.len(),
    ensures
        progress.finished(meta_json) matches ScrapedServer::Populated(server) && server.wf()
            && server.repositories@.len() == progress.names@.len() && forall|i: int|
            0 <= i < progress.names@.len() ==> (#[trigger] server.repositories@[i]).name
                == progress.names@[i],
{
}

/// While repositories are collected, the set of names stays as the
/// discovery step made it.
pub proof fn lemma_names_stay(pre: ScrapeState, event: ScrapeEvent, post: ScrapeState)
    requires
        follows(pre, event, post),
        !(pre is Resolving),
        !(post is Done),
    ensures
        post.spec_names() == pre.spec_names(),
{
}

/// A scrape that is over stays as it is, whatever arrives: no event turns a
/// failed server into a populated one, or the other way round.
pub proof fn lemma_done_is_final(outcome: ScrapedServer, event: ScrapeEvent, post: ScrapeState)
    requires
        follows(ScrapeState::Done(outcome), event, post),
    ensures
        post == ScrapeState::Done(outcome),
{
}

/// Every step keeps what holds of every state. In particular no step ends
/// in a populated server whose detected backend is `AutoDetect`, or which
/// holds a repository twice.
pub proof fn lemma_step_keeps_validity(pre: ScrapeState, event: ScrapeEvent, post: ScrapeState)
    requires
        pre.wf(),
        follows(pre, event, post),
    ensures
        post.wf(),
{
}

/// Whether each state of the run follows the one before it on the event
/// of that step.
pub open spec fn is_run(states: Seq<ScrapeState>, events: Seq<ScrapeEvent>) -> bool {
    &&& states.len() == events.len() + 1
    &&& forall|i: int|
        0 <= i < events.len() ==> follows(#[trigger] states[i], events[i], states[i + 1])
}

/// A run that starts at the end of a scrape stays there.
pub proof fn lemma_run_from_done(states: Seq<ScrapeState>, events: Seq<ScrapeEvent>)
    requires
        is_run(states, events),
        states[0] is Done,
    ensures
        states.last() == states[0],
    decreases events.len(),
{
    if events.len() > 0 {
        lemma_run_tail(states, events);
        let rest = states.subrange(1, states.len() as int);
        let rest_events = events.subrange(1, events.len() as int);
        lemma_run_from_done(rest, rest_events);
    }
}

/// What is left of a run after its first step is a run, with the same end.
pub proof fn lemma_run_tail(states: Seq<ScrapeState>, events: Seq<ScrapeEvent>)
    requires
        is_run(states, events),
        events.len() > 0,
    ensures
        is_run(states.subrange(1, states.len() as int), events.subrange(1, events.len() as int)),
        states.subrange(1, states.len() as int).last() == states.last(),
        states.subrange(1, states.len() as int)[0] == states[1],
        follows(states[0], events[0], states[1]),
{
    let rest = states.subrange(1, states.len() as int);
    let rest_events = events.subrange(1, events.len() as int);
    assert(follows(states[0], events[0], states[1]));
    assert forall|i: int| 0 <= i < rest_events.len() implies follows(
        #[trigger] rest[i],
        rest_events[i],
        rest[i + 1],
    ) by {
        assert(follows(states[i + 1], events[i + 1], states[i + 1 + 1]));
    }
}

/// An object-storage server that is given no repository name fails with
/// the error of an empty list, which names the host: whatever its type, and
/// whatever arrives afterwards.
pub proof fn lemma_object_storage_needs_names(
    server: Server,
    repositories: Seq<String>,
    states: Seq<ScrapeState>,
    events: Seq<ScrapeEvent>,
)
    requires
        server.backend_type == ServerBackendType::S3,
        repositories.len() == 0,
        is_run(states, events),
        begins(server, repositories, states[0]),
    ensures
        failed_with(states.last(), server, ErrorKind::EmptyRepositoryList, server.hostname@),
{
    lemma_run_from_done(states, events);
}

/// A scrape whose discovery document reports replicas that do not fit the
/// server's type ends as a failure with a server type mismatch.
pub proof fn lemma_unfit_replicas_fail(
    server: Server,
    supplied: Vec<String>,
    repo_json: RepositoriesJSON,
    states: Seq<ScrapeState>,
    events: Seq<ScrapeEvent>,
)
    requires
        is_run(states, events),
        events.len() > 0,
        states[0] == (ScrapeState::Resolving { server, supplied }),
        events[0] == ScrapeEvent::ReposJson(Ok(repo_json)),
        !topology_fits(server.server_type, repo_json.replicas@.len() > 0),
    ensures
        failed_with(
            states.last(),
            server,
            ErrorKind::ServerTypeMismatch,
            mismatch_message(server.server_type, server.hostname@),
        ),
{
    lemma_run_tail(states, events);
    lemma_run_from_done(
        states.subrange(1, states.len() as int),
        events.subrange(1, events.len() as int),
    );
}

/// A `Stratum0` whose discovery document reports a replica fails with a
/// server type mismatch, whatever else the document holds.
pub proof fn lemma_origin_with_replicas_fails(
    server: Server,
    supplied: Vec<String>,
    repo_json: RepositoriesJSON,
    states: Seq<ScrapeState>,
    events: Seq<ScrapeEvent>,
)
    requires
        is_run(states, events),
        events.len() > 0,
        states[0] == (ScrapeState::Resolving { server, supplied }),
        events[0] == ScrapeEvent::ReposJson(Ok(repo_json)),
        server.server_type == ServerType::Stratum0,
        repo_json.replicas@.len() > 0,
    ensures
        states.last() matches ScrapeState::Done(ScrapedServer::Failed(failed)) && failed.error matches CVMFSScraperError::ScrapeError(
            ScrapeError::ServerTypeMismatch(_),
        ),
{
    lemma_unfit_replicas_fail(server, supplied, repo_json, states, events);
}

/// A `Stratum1` or `SyncServer` whose discovery document reports no replica
/// fails with a server type mismatch, whatever else the document holds.
pub proof fn lemma_mirror_without_replicas_fails(
    server: Server,
    supplied: Vec<String>,
    repo_json: RepositoriesJSON,
    states: Seq<ScrapeState>,
    events: Seq<ScrapeEvent>,
)
    requires
        is_run(states, events),
        events.len() > 0,
        states[0] == (ScrapeState::Resolving { server, supplied }),
        events[0] == ScrapeEvent::ReposJson(Ok(repo_json)),
        server.server_type == ServerType::Stratum1 || server.server_type
            == ServerType::SyncServer,
        repo_json.replicas@.len() == 0,
    ensures
        states.last() matches ScrapeState::Done(ScrapedServer::Failed(failed)) && failed.error matches CVMFSScraperError::ScrapeError(
            ScrapeError::ServerTypeMismatch(_),
        ),
{
    lemma_unfit_replicas_fail(server, supplied, repo_json, states, events);
}

/// The backend that a scrape has settled on is the backend of the populated
/// server that it ends in, however many steps lie between. So where the
/// backend was to be detected and the discovery document could not be
/// fetched, a populated outcome says object storage.
pub proof fn lemma_detected_backend_reaches_outcome(
    states: Seq<ScrapeState>,
    events: Seq<ScrapeEvent>,
)
    requires
        is_run(states, events),
        detected(states[0]) is Some,
        states.last() matches ScrapeState::Done(ScrapedServer::Populated(_)),
    ensures
        detected(states.last()) == detected(states[0]),
    decreases events.len(),
{
    if events.len() > 0 {
        lemma_run_tail(states, events);
        let rest = states.subrange(1, states.len() as int);
        let rest_events = events.subrange(1, events.len() as int);
        if detected(states[1]) is Some {
            lemma_detected_backend_stays(states[0], events[0], states[1]);
            lemma_detected_backend_reaches_outcome(rest, rest_events);
        } else {
            assert(states[1] is Done);
            lemma_run_from_done(rest, rest_events);
        }
    }
}

/// Where the backend is to be detected and the discovery document cannot be
/// fetched, the failed fetch ends nothing: the scrape goes on with object
/// storage as the detected backend, and a populated server at its end says
/// object storage.
pub proof fn lemma_unreachable_document_means_object_storage(
    server: Server,
    supplied: Vec<String>,
    error: ScrapeError,
    states: Seq<ScrapeState>,
    events: Seq<ScrapeEvent>,
)
    requires
        is_run(states, events),
        events.len() > 0,
        states[0] == (ScrapeState::Resolving { server, supplied }),
        events[0] == ScrapeEvent::ReposJson(Err(error)),
        server.backend_type == ServerBackendType::AutoDetect,
        error is FetchError,
    ensures
        !(states[1] is Done),
        detected(states[1]) == Some(ServerBackendType::S3),
        states.last() matches ScrapeState::Done(ScrapedServer::Populated(populated))
            ==> populated.backend_detected == ServerBackendType::S3,
{
    lemma_run_tail(states, events);
    if states.last() matches ScrapeState::Done(ScrapedServer::Populated(_)) {
        lemma_detected_backend_reaches_outcome(
            states.subrange(1, states.len() as int),
            events.subrange(1, events.len() as int),
        );
    }
}

/// Whether the event is an answer to the request that the state waits on.
pub open spec fn answers(pre: ScrapeState, event: ScrapeEvent) -> bool {
    match pre {
        ScrapeState::Resolving { .. } => event is ReposJson,
        ScrapeState::AwaitingStatus(_) => event is Status,
        ScrapeState::AwaitingManifest(_, _) => event is Manifest,
        ScrapeState::AwaitingMetaJson(_) => event is MetaJson,
        ScrapeState::Done(_) => false,
    }
}

/// How many answers a state is from the end of its scrape, at most. Before
/// the backend is settled the number of names is not known yet.
pub open spec fn answers_left(state: ScrapeState) -> nat {
    match state {
        ScrapeState::Resolving { .. } => 0,
        ScrapeState::AwaitingStatus(p) => (2 * (p.names@.len() - p.collected@.len()) + 1) as nat,
        ScrapeState::AwaitingManifest(p, _) => (2 * (p.names@.len() - p.collected@.len())) as nat,
        ScrapeState::AwaitingMetaJson(_) => 1,
        ScrapeState::Done(_) => 0,
    }
}

/// Every scrape ends: the discovery document is answered once, and each
/// answer after it brings the scrape closer to its end.
pub proof fn lemma_each_answer_brings_the_end_closer(
    pre: ScrapeState,
    event: ScrapeEvent,
    post: ScrapeState,
)
    requires
        pre.wf(),
        answers(pre, event),
        follows(pre, event, post),
    ensures
        !(post is Resolving),
        !(pre is Resolving) ==> answers_left(post) < answers_left(pre),
{
}

/// Starts collecting the names, after the backend is settled.
fn start_collecting(
    server: Server,
    backend: ServerBackendType,
    repo_meta: MetadataFromRepoJSON,
    names: Vec<String>,
) -> (post: ScrapeState)
    requires
        backend != ServerBackendType::AutoDetect,
        backend == ServerBackendType::S3 ==> repo_meta == absent_repo_metadata(),
        distinct_names(names@),
    ensures
        server.backend_type == ServerBackendType::AutoDetect || server.backend_type == backend
            ==> post.wf(),
        post.fresh(server, backend, repo_meta),
        post.spec_names() == names@,
{
    let more = names.len() > 0;
    let progress = Progress {
        server,
        backend_detected: backend,
        repo_meta,
        names,
        collected: Vec::new(),
    };
    if more {
        ScrapeState::AwaitingStatus(progress)
    } else {
        ScrapeState::AwaitingMetaJson(progress)
    }
}

/// The names of a list, each once.
fn deduplicated(names: &Vec<String>) -> (unique: Vec<String>)
    ensures
        distinct_names(unique@),
        forall|name: Seq<char>| has_name(unique@, name) <==> has_name(names@, name),
        names@.len() > 0 ==> unique@.len() > 0,
{
    let mut unique: Vec<String> = Vec::new();
    add_names(&mut unique, names);
    proof {
        if names@.len() > 0 {
            assert(has_name(names@, names@[0]@));
            assert(has_name(unique@, names@[0]@));
        }
    }
    unique
}

fn resolve_document(server: Server, supplied: Vec<String>, repo_json: RepositoriesJSON) -> (post:
    ScrapeState)
    ensures
        server.backend_type != ServerBackendType::S3 ==> post.wf(),
        document_resolves(server, supplied@, repo_json, post),
{
    match server.validate_repo_json_and_server_type(&repo_json) {
        Ok(_) => {},
        Err(error) => {
            return ScrapeState::Done(ScrapedServer::Failed(server.as_failed_server(error)));
        },
    }
    let discovered = repo_json.names();
    let names = reconcile(&supplied, &discovered);
    proof {
        assert forall|name: Seq<char>|
            has_name(discovered@, name) <==> repo_json.spec_names().contains(name) by {
            let views = crate::documents::name_views(discovered@);
            if has_name(discovered@, name) {
                let i = choose|i: int| 0 <= i < discovered@.len() && discovered@[i]@ == name;
                assert(views[i] == name);
            }
            if views.contains(name) {
                let i = choose|i: int| 0 <= i < views.len() && views[i] == name;
                assert(discovered@[i]@ == name);
            }
        }
    }
    match MetadataFromRepoJSON::try_from(repo_json) {
        Ok(repo_meta) => start_collecting(server, ServerBackendType::CVMFS, repo_meta, names),
        Err(error) => ScrapeState::Done(
            ScrapedServer::Failed(server.as_failed_server(CVMFSScraperError::ScrapeError(error))),
        ),
    }
}

fn resolve_failure(server: Server, supplied: Vec<String>, error: ScrapeError) -> (post: ScrapeState)
    ensures
        server.backend_type != ServerBackendType::S3 ==> post.wf(),
        failure_resolves(server, supplied@, error, post),
{
    let detect = match server.backend_type {
        ServerBackendType::AutoDetect => true,
        _ => false,
    };
    let transport = match &error {
        ScrapeError::FetchError(_) => true,
        _ => false,
    };
    if detect && transport {
        let names = deduplicated(&supplied);
        start_collecting(server, ServerBackendType::S3, MetadataFromRepoJSON::absent(), names)
    } else {
        ScrapeState::Done(
            ScrapedServer::Failed(server.as_failed_server(CVMFSScraperError::ScrapeError(error))),
        )
    }
}

fn collect_one(progress: Progress, status: StatusJSON, manifest: Manifest) -> (post: ScrapeState)
    requires
        progress.collected@.len() < progress.names@.len(),
    ensures
        progress.wf() ==> post.wf(),
        post.collected_one(progress, progress.next_record(status, manifest)),
{
    let mut progress = progress;
    let ghost before = progress;
    let i = progress.collected.len();
    let repo = RepositoryOrReplica {
        server: progress.server.clone(),
        name: progress.names[i].clone(),
    };
    let record = repo.populate(status, manifest);
    progress.collected.push(record);
    assert(progress.extends(before, before.next_record(status, manifest)));
    if progress.collected.len() < progress.names.len() {
        ScrapeState::AwaitingStatus(progress)
    } else {
        ScrapeState::AwaitingMetaJson(progress)
    }
}

fn finish(progress: Progress, meta_json: Option<MetaJSON>) -> (done: ScrapedServer)
    ensures
        done == progress.finished(meta_json),
        progress.wf() && progress.collected@.len() == progress.names@.len() ==> (
        done matches ScrapedServer::Populated(server) && server.wf()),
{
    let metadata = progress.server.merge_metadata(progress.repo_meta, meta_json);
    ScrapedServer::Populated(
        PopulatedServer {
            server_type: progress.server.server_type,
            backend_type: progress.server.backend_type,
            backend_detected: progress.backend_detected,
            hostname: progress.server.hostname,
            repositories: progress.collected,
            metadata,
        },
    )
}

impl Server {
    /// Begins a scrape of this server, for the repositories that the caller
    /// expects on it.
    pub fn begin_scrape(&self, repositories: Vec<String>) -> (post: ScrapeState)
        ensures
            post.wf(),
            begins(*self, repositories@, post),
    {
        match self.backend_type {
            ServerBackendType::S3 => {
                if repositories.len() == 0 {
                    ScrapeState::Done(
                        ScrapedServer::Failed(
                            self.as_failed_server(
                                CVMFSScraperError::ScrapeError(
                                    ScrapeError::EmptyRepositoryList(self.hostname.0.clone()),
                                ),
                            ),
                        ),
                    )
                } else {
                    let names = deduplicated(&repositories);
                    start_collecting(
                        self.clone(),
                        ServerBackendType::S3,
                        MetadataFromRepoJSON::absent(),
                        names,
                    )
                }
            },
            _ => ScrapeState::Resolving { server: self.clone(), supplied: repositories },
        }
    }
}

impl ScrapeState {
    /// Whether the scrape is over.
    pub fn is_done(&self) -> (done: bool)
        ensures
            done == (self is Done),
    {
        match self {
            ScrapeState::Done(_) => true,
            _ => false,
        }
    }

    /// The outcome of a scrape that is over.
    pub fn into_outcome(self) -> (outcome: Option<ScrapedServer>)
        ensures
            outcome == (match self {
                ScrapeState::Done(scraped) => Some(scraped),
                _ => None,
            }),
    {
        match self {
            ScrapeState::Done(scraped) => Some(scraped),
            _ => None,
        }
    }

    /// The document to fetch next, or nothing where the scrape is over.
    pub fn request(&self) -> (request: Option<ScrapeRequest>)
        ensures
            pending(*self, request),
    {
        match self {
            ScrapeState::Resolving { server, supplied } => Some(
                ScrapeRequest::ReposJson(server.repos_json_url()),
            ),
            ScrapeState::AwaitingStatus(p) => {
                if p.collected.len() < p.names.len() {
                    let repo = RepositoryOrReplica {
                        server: p.server.clone(),
                        name: p.names[p.collected.len()].clone(),
                    };
                    Some(ScrapeRequest::Status(repo.status_url()))
                } else {
                    None
                }
            },
            ScrapeState::AwaitingManifest(p, _) => {
                if p.collected.len() < p.names.len() {
                    let repo = RepositoryOrReplica {
                        server: p.server.clone(),
                        name: p.names[p.collected.len()].clone(),
                    };
                    Some(ScrapeRequest::Manifest(repo.manifest_url()))
                } else {
                    None
                }
            },
            ScrapeState::AwaitingMetaJson(p) => Some(
                ScrapeRequest::MetaJson(p.server.meta_json_url()),
            ),
            ScrapeState::Done(_) => None,
        }
    }

    /// Takes what a fetch gave and moves on.
    pub fn advance(self, event: ScrapeEvent) -> (post: ScrapeState)
        ensures
            self.wf() ==> post.wf(),
            follows(self, event, post),
    {
        match self {
            ScrapeState::Resolving { server, supplied } => match event {
                ScrapeEvent::ReposJson(Ok(repo_json)) => resolve_document(
                    server,
                    supplied,
                    repo_json,
                ),
                ScrapeEvent::ReposJson(Err(error)) => resolve_failure(server, supplied, error),
                _ => ScrapeState::Resolving { server, supplied },
            },
            ScrapeState::AwaitingStatus(p) => match event {
                ScrapeEvent::Status(Ok(status)) => ScrapeState::AwaitingManifest(p, status),
                ScrapeEvent::Status(Err(error)) => ScrapeState::Done(
                    ScrapedServer::Failed(
                        p.server.as_failed_server(CVMFSScraperError::ScrapeError(error)),
                    ),
                ),
                _ => ScrapeState::AwaitingStatus(p),
            },
            ScrapeState::AwaitingManifest(p, status) => match event {
                ScrapeEvent::Manifest(Ok(manifest)) => {
                    if p.collected.len() < p.names.len() {
                        collect_one(p, status, manifest)
                    } else {
                        ScrapeState::AwaitingManifest(p, status)
                    }
                },
                ScrapeEvent::Manifest(Err(error)) => ScrapeState::Done(
                    ScrapedServer::Failed(
                        p.server.as_failed_server(CVMFSScraperError::ManifestError(error)),
                    ),
                ),
                _ => ScrapeState::AwaitingManifest(p, status),
            },
            ScrapeState::AwaitingMetaJson(p) => match event {
                ScrapeEvent::MetaJson(Ok(meta)) => ScrapeState::Done(finish(p, Some(meta))),
                ScrapeEvent::MetaJson(Err(_)) => ScrapeState::Done(finish(p, None)),
                _ => ScrapeState::AwaitingMetaJson(p),
            },
            ScrapeState::Done(scraped) => ScrapeState::Done(scraped),
        }
    }
}

} // verus!
