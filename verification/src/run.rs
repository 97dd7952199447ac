//! A whole scrape in one call, for callers whose fetches are plain functions.

use vstd::prelude::*;
use crate::documents::{Manifest, MetaJSON, RepositoriesJSON, StatusJSON};
use crate::errors::{ManifestError, ScrapeError};
use crate::scrape::{
    answers_left,
    begins,
    follows,
    is_run,
    lemma_each_answer_brings_the_end_closer,
    pending,
    ScrapeEvent,
    ScrapeRequest,
    ScrapeState,
};
use crate::errors::CVMFSScraperError;
use crate::servers::{
    combined,
    manifest_address,
    status_address,
    PopulatedRepositoryOrReplica,
    RepositoryOrReplica,
    ScrapedServer,
    Server,
};

verus! {

/// Whether `event` is what the fetch for `request` may give.
pub open spec fn fetched<A, B, C, D>(
    fetch_repos_json: A,
    fetch_status: B,
    fetch_manifest: C,
    fetch_meta_json: D,
    request: ScrapeRequest,
    event: ScrapeEvent,
) -> bool where
    A: Fn(String) -> Result<RepositoriesJSON, ScrapeError>,
    B: Fn(String) -> Result<StatusJSON, ScrapeError>,
    C: Fn(String) -> Result<Manifest, ManifestError>,
    D: Fn(String) -> Result<MetaJSON, ScrapeError>,
 {
    match request {
        ScrapeRequest::ReposJson(url) => event matches ScrapeEvent::ReposJson(r) && call_ensures(
            fetch_repos_json,
            (url,),
            r,
        ),
        ScrapeRequest::Status(url) => event matches ScrapeEvent::Status(r) && call_ensures(
            fetch_status,
            (url,),
            r,
        ),
        ScrapeRequest::Manifest(url) => event matches ScrapeEvent::Manifest(r) && call_ensures(
            fetch_manifest,
            (url,),
            r,
        ),
        ScrapeRequest::MetaJson(url) => event matches ScrapeEvent::MetaJson(r) && call_ensures(
            fetch_meta_json,
            (url,),
            r,
        ),
    }
}

/// Whether the states are a scrape from its beginning: each state asked for
/// the request of its step, the fetch gave the event, and the next state
/// followed.
pub open spec fn fetched_run<A, B, C, D>(
    fetch_repos_json: A,
    fetch_status: B,
    fetch_manifest: C,
    fetch_meta_json: D,
    states: Seq<ScrapeState>,
    requests: Seq<ScrapeRequest>,
    events: Seq<ScrapeEvent>,
) -> bool where
    A: Fn(String) -> Result<RepositoriesJSON, ScrapeError>,
    B: Fn(String) -> Result<StatusJSON, ScrapeError>,
    C: Fn(String) -> Result<Manifest, ManifestError>,
    D: Fn(String) -> Result<MetaJSON, ScrapeError>,
 {
    &&& is_run(states, events)
    &&& requests.len() == events.len()
    &&& forall|i: int|
        0 <= i < events.len() ==> pending(#[trigger] states[i], Some(requests[i])) && fetched(
            fetch_repos_json,
            fetch_status,
            fetch_manifest,
            fetch_meta_json,
            requests[i],
            events[i],
        )
}

/// Whether `result` is the record that the status `found` and a fetch of the
/// repository's manifest give.
pub open spec fn manifest_fetched<C>(
    repo: RepositoryOrReplica,
    fetch_manifest: C,
    found: StatusJSON,
    result: Result<PopulatedRepositoryOrReplica, CVMFSScraperError>,
) -> bool where C: Fn(String) -> Result<Manifest, ManifestError> {
    exists|url: String, manifest: Result<Manifest, ManifestError>|
        url@ == manifest_address(repo.server.hostname@, repo.name@) && #[trigger] call_ensures(
            fetch_manifest,
            (url,),
            manifest,
        ) && result == combined(repo.name, Ok(found), manifest)
}

/// Whether `result` is what a fetch of the repository's status gives, and
/// then, where that did not fail, a fetch of its manifest.
pub open spec fn repository_fetched<B, C>(
    repo: RepositoryOrReplica,
    fetch_status: B,
    fetch_manifest: C,
    result: Result<PopulatedRepositoryOrReplica, CVMFSScraperError>,
) -> bool where
    B: Fn(String) -> Result<StatusJSON, ScrapeError>,
    C: Fn(String) -> Result<Manifest, ManifestError>,
 {
    exists|url: String, status: Result<StatusJSON, ScrapeError>|
        url@ == status_address(repo.server.hostname@, repo.name@) && #[trigger] call_ensures(
            fetch_status,
            (url,),
            status,
        ) && match status {
            Err(error) => result == Err::<PopulatedRepositoryOrReplica, CVMFSScraperError>(
                CVMFSScraperError::ScrapeError(error),
            ),
            Ok(found) => manifest_fetched(repo, fetch_manifest, found, result),
        }
}

impl RepositoryOrReplica {
    /// Scrapes this repository with the two fetches as the caller provides
    /// them: the live status first, then the manifest. The first fetch that
    /// fails ends the scrape with its error, and where the status failed the
    /// manifest is not fetched.
    pub fn scrape<B, C>(&self, fetch_status: B, fetch_manifest: C) -> (result: Result<
        PopulatedRepositoryOrReplica,
        CVMFSScraperError,
    >) where
        B: Fn(String) -> Result<StatusJSON, ScrapeError>,
        C: Fn(String) -> Result<Manifest, ManifestError>,

        requires
            forall|url: String| call_requires(fetch_status, (url,)),
            forall|url: String| call_requires(fetch_manifest, (url,)),
        ensures
            repository_fetched(*self, fetch_status, fetch_manifest, result),
    {
        let status_url = self.status_url();
        let ghost asked_status = status_url;
        let status = fetch_status(status_url);
        match status {
            Err(error) => {
                let result = Err(CVMFSScraperError::ScrapeError(error));
                assert(call_ensures(fetch_status, (asked_status,), status));
                result
            },
            Ok(found) => {
                let manifest_url = self.manifest_url();
                let ghost asked_manifest = manifest_url;
                let manifest = fetch_manifest(manifest_url);
                let result = self.combine(Ok(found), manifest);
                assert(call_ensures(fetch_manifest, (asked_manifest,), manifest));
                assert(manifest_fetched(*self, fetch_manifest, found, result));
                assert(call_ensures(fetch_status, (asked_status,), status));
                result
            },
        }
    }
}

impl Server {
    /// Scrapes this server for the given repositories and for those that it
    /// lists itself, with the four fetches as the caller provides them: each
    /// takes an address and gives the decoded document or the error.
    ///
    /// The outcome is the end of a run of the state machine from its
    /// beginning, in which every request was answered by its fetch.
    pub fn scrape<A, B, C, D>(
        &self,
        repositories: Vec<String>,
        fetch_repos_json: A,
        fetch_status: B,
        fetch_manifest: C,
        fetch_meta_json: D,
    ) -> (outcome: ScrapedServer) where
        A: Fn(String) -> Result<RepositoriesJSON, ScrapeError>,
        B: Fn(String) -> Result<StatusJSON, ScrapeError>,
        C: Fn(String) -> Result<Manifest, ManifestError>,
        D: Fn(String) -> Result<MetaJSON, ScrapeError>,

        requires
            forall|url: String| call_requires(fetch_repos_json, (url,)),
            forall|url: String| call_requires(fetch_status, (url,)),
            forall|url: String| call_requires(fetch_manifest, (url,)),
            forall|url: String| call_requires(fetch_meta_json, (url,)),
        ensures
            ScrapeState::Done(outcome).wf(),
            exists|states: Seq<ScrapeState>, requests: Seq<ScrapeRequest>, events: Seq<ScrapeEvent>|
                #[trigger] fetched_run(
                    fetch_repos_json,
                    fetch_status,
                    fetch_manifest,
                    fetch_meta_json,
                    states,
                    requests,
                    events,
                ) && begins(*self, repositories@, states[0]) && states.last() == ScrapeState::Done(
                    outcome,
                ),
    {
        let ghost supplied = repositories@;
        let mut state = self.begin_scrape(repositories);
        let ghost mut states: Seq<ScrapeState> = seq![state];
        let ghost mut requests: Seq<ScrapeRequest> = Seq::empty();
        let ghost mut events: Seq<ScrapeEvent> = Seq::empty();
        let mut resolving = match &state {
            ScrapeState::Resolving { .. } => true,
            _ => false,
        };
        loop
            invariant
                state.wf(),
                resolving == (state is Resolving),
                states.len() > 0,
                states.last() == state,
                begins(*self, supplied, states[0]),
                fetched_run(
                    fetch_repos_json,
                    fetch_status,
                    fetch_manifest,
                    fetch_meta_json,
                    states,
                    requests,
                    events,
                ),
                forall|url: String| call_requires(fetch_repos_json, (url,)),
                forall|url: String| call_requires(fetch_status, (url,)),
                forall|url: String| call_requires(fetch_manifest, (url,)),
                forall|url: String| call_requires(fetch_meta_json, (url,)),
            ensures
                state is Done,
            decreases
                    (if resolving {
                        1nat
                    } else {
                        0nat
                    }),
                    answers_left(state),
        {
            let request = match state.request() {
                Some(request) => request,
                None => {
                    break ;
                },
            };
            let ghost asked = request;
            let event = match request {
                ScrapeRequest::ReposJson(url) => ScrapeEvent::ReposJson(fetch_repos_json(url)),
                ScrapeRequest::Status(url) => ScrapeEvent::Status(fetch_status(url)),
                ScrapeRequest::Manifest(url) => ScrapeEvent::Manifest(fetch_manifest(url)),
                ScrapeRequest::MetaJson(url) => ScrapeEvent::MetaJson(fetch_meta_json(url)),
            };
            let ghost before = state;
            let ghost given = event;
            state = state.advance(event);
            resolving = false;
            proof {
                lemma_each_answer_brings_the_end_closer(before, given, state);
                let old_states = states;
                let old_events = events;
                let old_requests = requests;
                states = states.push(state);
                events = events.push(given);
                requests = requests.push(asked);
                assert forall|i: int| 0 <= i < events.len() implies follows(
                    #[trigger] states[i],
                    events[i],
                    states[i + 1],
                ) && pending(states[i], Some(requests[i])) && fetched(
                    fetch_repos_json,
                    fetch_status,
                    fetch_manifest,
                    fetch_meta_json,
                    requests[i],
                    events[i],
                ) by {
                    if i < old_events.len() {
                        assert(states[i] == old_states[i]);
                        assert(states[i + 1] == old_states[i + 1]);
                        assert(events[i] == old_events[i]);
                        assert(requests[i] == old_requests[i]);
                    } else {
                        assert(states[i] == before);
                    }
                }
            }
        }
        match state {
            ScrapeState::Done(outcome) => outcome,
            _ => vstd::pervasive::unreached(),
        }
    }
}

} // verus!
