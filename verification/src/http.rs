//! Fetching a URL with a shared network client. The verified half refuses
//! rollback, demands the shared client from the registry, resolves the URL and
//! judges the observed response; the adapter only builds the client once and
//! performs the fetch.

use vstd::prelude::*;

use crate::action::{ActionIdentity, ActionOutput, Operation, OutputVal, Probe};
use crate::errors::{echoed_failure, ActionError};
use crate::resolve::{resolve_text, resolve_text_spec, text_result_view, ActionInput};
use crate::state::SharedState;
use crate::store::OutputStore;

verus! {

/// Fetches a URL and publishes the response body as its text output.
pub struct HttpGet {
    pub url: ActionInput<String>,
}

/// What the adapter observed of one fetch.
#[derive(Debug, PartialEq, Eq)]
pub enum HttpOutcome {
    /// The request could not be sent; the transport layer's message.
    SendError(String),
    /// A response arrived with a non-success status; the status text.
    BadStatus(String),
    /// The response body could not be read; the transport layer's message.
    BodyError(String),
    /// The body of a response with a success status.
    Body(String),
}

impl HttpGet {
    pub fn new(url: ActionInput<String>) -> (r: Self)
        ensures
            r.url == url,
    {
        HttpGet { url }
    }

    /// The `load_state` hook's verified half: register the shared client the
    /// adapter built, one instance for every fetch of the run. Registering
    /// overwrites, so a hook invoked twice with the same client leaves the
    /// registry exactly as one invocation would.
    pub fn load_state<C>(client: C, registry: &mut SharedState<C>)
        ensures
            final(registry)@ == Some(client),
    {
        registry.add_state(client);
    }

    /// The probe: a fetch is performed anew on every run and cannot be undone.
    pub open spec fn probe_post(r: Result<Probe, ActionError>) -> bool {
        r == Ok::<Probe, ActionError>(Probe { needs_run: true, can_rollback: false })
    }

    pub fn probe(&self) -> (r: Result<Probe, ActionError>)
        ensures
            Self::probe_post(r),
    {
        Ok(Probe { needs_run: true, can_rollback: false })
    }

    /// Everything planning the fetch promises: rollback is refused outright; a
    /// perform first demands the shared client and then resolves the URL.
    pub open spec fn run_request_post<C>(
        self,
        m: Map<ActionIdentity, OutputVal>,
        client: Option<C>,
        op: Operation,
        r: Result<String, ActionError>,
    ) -> bool {
        &&& op == Operation::Rollback ==> r == Err::<String, ActionError>(
            ActionError::OperationNotSupported,
        )
        &&& op == Operation::Perform && client is None ==> r == Err::<String, ActionError>(
            ActionError::StateNotLoaded,
        )
        &&& op == Operation::Perform && client is Some ==> text_result_view(r)
            == resolve_text_spec(self.url, m)
    }

    /// Plan the fetch: the URL to get with the shared client. An absent client
    /// is reported as `StateNotLoaded`, never dereferenced.
    pub fn run_request<C>(
        &self,
        store: &OutputStore,
        registry: &SharedState<C>,
        op: Operation,
    ) -> (r: Result<String, ActionError>)
        ensures
            self.run_request_post(store@, registry@, op, r),
    {
        if matches!(op, Operation::Rollback) {
            return Err(ActionError::OperationNotSupported);
        }
        if registry.get_state().is_none() {
            return Err(ActionError::StateNotLoaded);
        }
        resolve_text(&self.url, store)
    }

    /// The verdict owed on what the adapter observed: a success-status body
    /// becomes the action's text output; every other observation is the
    /// action's failure, echoing the transport layer's message.
    pub open spec fn run_verdict_post(
        outcome: HttpOutcome,
        r: Result<Option<ActionOutput>, ActionError>,
    ) -> bool {
        match outcome {
            HttpOutcome::SendError(m) => r matches Err(ActionError::ActionFailed(s, d)) && s@
                == "Failed to send request: "@ + m@ && d@ == "Failed to send request: "@ + m@,
            HttpOutcome::BadStatus(st) => r matches Err(ActionError::ActionFailed(s, d)) && s@
                == "Request failed with status code: "@ + st@ && d@
                == "Request failed with status code: "@ + st@,
            HttpOutcome::BodyError(m) => r matches Err(ActionError::ActionFailed(s, d)) && s@
                == "Failed to read response body: "@ + m@ && d@ == "Failed to read response body: "@
                + m@,
            HttpOutcome::Body(b) => r matches Ok(Some(out)) && out@ == OutputVal::Text(b@),
        }
    }

    /// Judge what the adapter observed.
    pub fn run_verdict(&self, outcome: &HttpOutcome) -> (r: Result<
        Option<ActionOutput>,
        ActionError,
    >)
        ensures
            Self::run_verdict_post(*outcome, r),
    {
        match outcome {
            HttpOutcome::SendError(m) => Err(
                echoed_failure("Failed to send request: ", m.as_str()),
            ),
            HttpOutcome::BadStatus(st) => Err(
                echoed_failure("Request failed with status code: ", st.as_str()),
            ),
            HttpOutcome::BodyError(m) => Err(
                echoed_failure("Failed to read response body: ", m.as_str()),
            ),
            HttpOutcome::Body(b) => Ok(Some(ActionOutput::Text(b.clone()))),
        }
    }

    /// The human-readable label: names the URL where it is a literal.
    pub fn display_name(&self) -> (r: String)
        ensures
            r@ == "HttpGet "@ + (match self.url {
                ActionInput::Static(u) => u@,
                ActionInput::Dynamic(_) => "<dynamic>"@,
            }),
    {
        let mut s = String::from_str("HttpGet ");
        match &self.url {
            ActionInput::Static(u) => s.append(u.as_str()),
            ActionInput::Dynamic(_) => s.append("<dynamic>"),
        }
        s
    }
}

/// Probing a fetch is repeatable and pure: the probe reads no evidence and
/// borrows nothing mutably, so any two of its verdicts are the same `Probe`
/// value.
pub proof fn lemma_http_get_probe_repeatable(
    r1: Result<Probe, ActionError>,
    r2: Result<Probe, ActionError>,
)
    requires
        HttpGet::probe_post(r1),
        HttpGet::probe_post(r2),
    ensures
        r1 == r2,
{
}

/// A rollback demanded of a fetch is refused, not silently ignored: every
/// probe verdict reports `can_rollback == false`, and every answer of the
/// planning step to the rollback direction is `OperationNotSupported`, given
/// before any URL is resolved or request sent.
pub proof fn lemma_http_get_rollback_refused<C>(
    a: HttpGet,
    m: Map<ActionIdentity, OutputVal>,
    client: Option<C>,
    pr: Result<Probe, ActionError>,
    rr: Result<String, ActionError>,
)
    requires
        HttpGet::probe_post(pr),
        a.run_request_post(m, client, Operation::Rollback, rr),
    ensures
        pr matches Ok(p) && !p.can_rollback,
        rr == Err::<String, ActionError>(ActionError::OperationNotSupported),
{
}

} // verus!
