//! Waiting with a deadline: for a LightPanda page to become ready, and for a freshly
//! started LightPanda to open its DevTools endpoint.

use vstd::prelude::*;
use crate::error::{BrowserError, BrowserErrorView};

verus! {

/// Where a readiness wait stands.
#[derive(Clone, Copy, PartialEq, Eq, Structural)]
pub enum ReadinessState {
    CheckingDeadline,
    Probing,
    Sleeping,
    Done,
}

/// What to do next while waiting for a page to become ready.
pub enum ReadinessAction {
    /// Tell whether the deadline has passed.
    CheckDeadline,
    /// Evaluate this expression in the active tab and report its boolean value.
    Probe(&'static str),
    /// Pause for this many milliseconds.
    Sleep(u64),
    Finish(Result<(), BrowserError>),
}

/// A wait, of at most `deadline_ms` milliseconds, for the document of the active tab
/// to reach the `interactive` or `complete` state.
pub struct ReadinessWait {
    pub deadline_ms: u64,
    pub state: ReadinessState,
}

/// The script that tells whether the document is ready.
pub open spec fn readiness_expression() -> Seq<char> {
    "document.readyState === 'complete' || document.readyState === 'interactive'"@
}

/// The failure when the deadline passes first.
pub open spec fn readiness_timed_out(r: Result<(), BrowserError>) -> bool {
    r is Err && r->Err_0@ == BrowserErrorView::NavigationFailed(
        "Timed out waiting for LightPanda document readiness"@,
    )
}

impl ReadinessWait {
    /// Starts a wait of thirty seconds; the caller starts its clock now.
    pub fn start() -> (res: (ReadinessWait, ReadinessAction))
        ensures
            res.0.deadline_ms == 30_000,
            res.0.state == ReadinessState::CheckingDeadline,
            res.1 is CheckDeadline,
    {
        (ReadinessWait { deadline_ms: 30_000, state: ReadinessState::CheckingDeadline }, ReadinessAction::CheckDeadline)
    }

    /// Takes whether the deadline has passed.
    pub fn deadline_checked(&mut self, passed: bool) -> (act: ReadinessAction)
        requires
            old(self).state == ReadinessState::CheckingDeadline,
        ensures
            final(self).deadline_ms == old(self).deadline_ms,
            passed ==> final(self).state == ReadinessState::Done && act is Finish
                && readiness_timed_out(act->Finish_0),
            !passed ==> final(self).state == ReadinessState::Probing && act is Probe && act->Probe_0@
                == readiness_expression(),
    {
        if passed {
            self.state = ReadinessState::Done;
            ReadinessAction::Finish(
                Err(BrowserError::NavigationFailed("Timed out waiting for LightPanda document readiness".to_owned())),
            )
        } else {
            self.state = ReadinessState::Probing;
            ReadinessAction::Probe("document.readyState === 'complete' || document.readyState === 'interactive'")
        }
    }

    /// Takes the probe's outcome: the active tab's error, or the expression's boolean
    /// value (`None` when the evaluation failed or gave no boolean).
    pub fn probed(&mut self, outcome: Result<Option<bool>, BrowserError>) -> (act: ReadinessAction)
        requires
            old(self).state == ReadinessState::Probing,
        ensures
            final(self).deadline_ms == old(self).deadline_ms,
            match outcome {
                Err(e) => final(self).state == ReadinessState::Done && act == ReadinessAction::Finish(Err(e)),
                Ok(Some(true)) => final(self).state == ReadinessState::Done && act == ReadinessAction::Finish(Ok(())),
                Ok(_) => final(self).state == ReadinessState::Sleeping && act == ReadinessAction::Sleep(100),
            },
    {
        match outcome {
            Err(e) => {
                self.state = ReadinessState::Done;
                ReadinessAction::Finish(Err(e))
            },
            Ok(ready) => {
                if ready == Some(true) {
                    self.state = ReadinessState::Done;
                    ReadinessAction::Finish(Ok(()))
                } else {
                    self.state = ReadinessState::Sleeping;
                    ReadinessAction::Sleep(100)
                }
            },
        }
    }

    /// After the pause, the deadline is checked again.
    pub fn slept(&mut self) -> (act: ReadinessAction)
        requires
            old(self).state == ReadinessState::Sleeping,
        ensures
            final(self).deadline_ms == old(self).deadline_ms,
            final(self).state == ReadinessState::CheckingDeadline,
            act is CheckDeadline,
    {
        self.state = ReadinessState::CheckingDeadline;
        ReadinessAction::CheckDeadline
    }
}

/// Where a wait for the DevTools endpoint stands.
#[derive(Clone, Copy, PartialEq, Eq, Structural)]
pub enum EndpointState {
    CheckingDeadline,
    CheckingProcess,
    Fetching,
    Sleeping,
    Done,
}

/// What to do next while waiting for the DevTools endpoint.
pub enum EndpointAction {
    CheckDeadline,
    /// Tell whether the browser process has exited.
    CheckProcess,
    /// Fetch the version document and read its WebSocket URL (`fetch_debug_ws_url`).
    FetchVersion,
    Sleep(u64),
    Finish(Result<String, BrowserError>),
}

/// A wait, of at most `deadline_ms` milliseconds, for a launched browser to announce
/// its WebSocket URL at `version_url`.
pub struct EndpointWait {
    pub version_url: String,
    pub deadline_ms: u64,
    /// Why the last fetch failed.
    pub last_error: Option<String>,
    pub state: EndpointState,
}

/// The failure reported when the deadline passes first.
pub open spec fn endpoint_timeout(url: Seq<char>, last_error: Option<String>) -> BrowserErrorView {
    BrowserErrorView::Timeout(
        "Timed out waiting for LightPanda CDP endpoint at "@ + url + ": "@ + match last_error {
            Some(e) => e@,
            None => "unknown error"@,
        },
    )
}

impl EndpointWait {
    /// Starts a wait of `timeout_ms` (at least one) milliseconds for `version_url`;
    /// the caller starts its clock now.
    pub fn start(version_url: String, timeout_ms: u64) -> (res: (EndpointWait, EndpointAction))
        ensures
            res.0.version_url == version_url,
            res.0.deadline_ms == (if timeout_ms < 1 { 1 } else { timeout_ms }),
            res.0.last_error is None,
            res.0.state == EndpointState::CheckingDeadline,
            res.1 is CheckDeadline,
    {
        let deadline_ms = if timeout_ms < 1 { 1 } else { timeout_ms };
        (
            EndpointWait { version_url, deadline_ms, last_error: None, state: EndpointState::CheckingDeadline },
            EndpointAction::CheckDeadline,
        )
    }

    /// Takes whether the deadline has passed.
    pub fn deadline_checked(&mut self, passed: bool) -> (act: EndpointAction)
        requires
            old(self).state == EndpointState::CheckingDeadline,
        ensures
            final(self).version_url == old(self).version_url,
            final(self).deadline_ms == old(self).deadline_ms,
            final(self).last_error == old(self).last_error,
            passed ==> final(self).state == EndpointState::Done && (act matches EndpointAction::Finish(Err(e))
                && e@ == endpoint_timeout(old(self).version_url@, old(self).last_error)),
            !passed ==> final(self).state == EndpointState::CheckingProcess && act is CheckProcess,
    {
        if passed {
            self.state = EndpointState::Done;
            let mut msg = "Timed out waiting for LightPanda CDP endpoint at ".to_owned();
            msg.append(self.version_url.as_str());
            msg.append(": ");
            match &self.last_error {
                Some(e) => msg.append(e.as_str()),
                None => msg.append("unknown error"),
            }
            EndpointAction::Finish(Err(BrowserError::Timeout(msg)))
        } else {
            self.state = EndpointState::CheckingProcess;
            EndpointAction::CheckProcess
        }
    }

    /// Takes whether the process has exited (with its exit status as text), or the
    /// error met while asking.
    pub fn process_checked(&mut self, exited: Result<Option<String>, BrowserError>) -> (act: EndpointAction)
        requires
            old(self).state == EndpointState::CheckingProcess,
        ensures
            final(self).version_url == old(self).version_url,
            final(self).deadline_ms == old(self).deadline_ms,
            final(self).last_error == old(self).last_error,
            match exited {
                Err(e) => final(self).state == EndpointState::Done && act == EndpointAction::Finish(Err(e)),
                Ok(Some(status)) => final(self).state == EndpointState::Done
                    && (act matches EndpointAction::Finish(Err(e)) && e@ == BrowserErrorView::LaunchFailed(
                    "LightPanda exited before CDP became available: "@ + status@,
                )),
                Ok(None) => final(self).state == EndpointState::Fetching && act is FetchVersion,
            },
    {
        match exited {
            Err(e) => {
                self.state = EndpointState::Done;
                EndpointAction::Finish(Err(e))
            },
            Ok(Some(status)) => {
                self.state = EndpointState::Done;
                let mut msg = "LightPanda exited before CDP became available: ".to_owned();
                msg.append(status.as_str());
                EndpointAction::Finish(Err(BrowserError::LaunchFailed(msg)))
            },
            Ok(None) => {
                self.state = EndpointState::Fetching;
                EndpointAction::FetchVersion
            },
        }
    }

    /// Takes the outcome of fetching the WebSocket URL: done when it came, otherwise the
    /// error is remembered and the wait pauses.
    pub fn fetched(&mut self, outcome: Result<String, String>) -> (act: EndpointAction)
        requires
            old(self).state == EndpointState::Fetching,
        ensures
            final(self).version_url == old(self).version_url,
            final(self).deadline_ms == old(self).deadline_ms,
            match outcome {
                Ok(ws) => final(self).state == EndpointState::Done && act == EndpointAction::Finish(Ok(ws)),
                Err(e) => final(self).state == EndpointState::Sleeping && final(self).last_error == Some(e)
                    && act == EndpointAction::Sleep(100),
            },
    {
        match outcome {
            Ok(ws) => {
                self.state = EndpointState::Done;
                EndpointAction::Finish(Ok(ws))
            },
            Err(e) => {
                self.last_error = Some(e);
                self.state = EndpointState::Sleeping;
                EndpointAction::Sleep(100)
            },
        }
    }

    /// After the pause, the deadline is checked again.
    pub fn slept(&mut self) -> (act: EndpointAction)
        requires
            old(self).state == EndpointState::Sleeping,
        ensures
            final(self).version_url == old(self).version_url,
            final(self).deadline_ms == old(self).deadline_ms,
            final(self).last_error == old(self).last_error,
            final(self).state == EndpointState::CheckingDeadline,
            act is CheckDeadline,
    {
        self.state = EndpointState::CheckingDeadline;
        EndpointAction::CheckDeadline
    }
}

} // verus!
