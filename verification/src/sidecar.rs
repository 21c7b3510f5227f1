//! The supervisor: one slot for the handle of the running sidecar, and the
//! operations that fill and empty it.

use crate::error::SidecarError;
use crate::process::{sidecar_command, sidecar_plan, SpawnCommand};
use crate::readiness::ReadinessPoll;
use crate::request::{
    auth_status_request, auth_status_request_for, health_request, health_request_for,
    login_request, login_request_for, logout_request, logout_request_for, HttpRequest,
};
use crate::response::{
    call_verdict, health_verdict, judge_call, judge_health, judge_ping, pong, CallOutcome,
};
pub use crate::response::{AuthStatus, LoginResponse, LogoutResponse};
use crate::status::HttpStatus;
use std::path::PathBuf;
use vstd::prelude::*;
use vstd::string::*;

verus! {

/// The supervisor of one sidecar. `H` is the handle of a running process;
/// while the supervisor holds one, the sidecar counts as running.
pub struct SidecarManager<H> {
    child: Option<H>,
    python_path: PathBuf,
    base_url: String,
}

/// The mathematical content of a [`SidecarManager`].
pub struct ManagerView<H> {
    pub child: Option<H>,
    pub python_path: PathBuf,
    pub base_url: Seq<char>,
}

impl<H> ManagerView<H> {
    /// Whether a handle is held.
    pub open spec fn is_running(self) -> bool {
        self.child is Some
    }

    /// The same supervisor without a handle.
    pub open spec fn stopped(self) -> Self {
        ManagerView { child: None, ..self }
    }

    /// A reconnect on this state, where the launch ends as `spawned`: a stop,
    /// then a start.
    pub open spec fn reconnect(self, spawned: Result<H, String>) -> (
        Self,
        Result<(), SidecarError>,
    ) {
        self.stopped().start(spawned)
    }

    /// A start on this state, where the launch, if it comes to one, ends as
    /// `spawned`: the state after it, and what the caller is told.
    pub open spec fn start(self, spawned: Result<H, String>) -> (Self, Result<(), SidecarError>) {
        if self.is_running() {
            (self, Err(SidecarError::AlreadyRunning))
        } else {
            match spawned {
                Ok(handle) => (ManagerView { child: Some(handle), ..self }, Ok(())),
                Err(reason) => (self, Err(SidecarError::SpawnFailed(reason))),
            }
        }
    }
}

impl<H> View for SidecarManager<H> {
    type V = ManagerView<H>;

    closed spec fn view(&self) -> ManagerView<H> {
        ManagerView { child: self.child, python_path: self.python_path, base_url: self.base_url@ }
    }
}

impl<H> SidecarManager<H> {
    /// A supervisor without a process, for a sidecar that is launched from
    /// `python_path` and listens on port 8080 of this machine.
    pub fn new(python_path: PathBuf) -> (manager: Self)
        ensures
            manager@ == (ManagerView::<H> {
                child: None,
                python_path,
                base_url: "http://localhost:8080"@,
            }),
    {
        SidecarManager {
            child: None,
            python_path,
            base_url: String::from_str("http://localhost:8080"),
        }
    }

    /// Launches the sidecar through `spawn`, unless one is running: then
    /// nothing is launched and the start is refused. The handle of a launch
    /// that succeeded is kept; readiness is not waited for.
    pub fn start<F>(&mut self, spawn: F) -> (started: Result<(), SidecarError>) where
        F: FnOnce(&SpawnCommand) -> Result<H, String>,

        requires
            !old(self)@.is_running() ==> forall|command: &SpawnCommand|
                command@ == sidecar_plan(old(self)@.python_path) ==> call_requires(
                    spawn,
                    (command,),
                ),
        ensures
            old(self)@.is_running() ==> started == Err::<(), SidecarError>(
                SidecarError::AlreadyRunning,
            ) && final(self)@ == old(self)@,
            !old(self)@.is_running() ==> exists|command: &SpawnCommand, spawned: Result<H, String>|
                command@ == sidecar_plan(old(self)@.python_path) && call_ensures(
                    spawn,
                    (command,),
                    spawned,
                ) && (final(self)@, started) == old(self)@.start(spawned),
    {
        if self.child.is_some() {
            return Err(SidecarError::AlreadyRunning);
        }
        let command = sidecar_command(&self.python_path);
        let spawned = spawn(&command);
        match spawned {
            Ok(handle) => {
                self.child = Some(handle);
                Ok(())
            },
            Err(reason) => Err(SidecarError::SpawnFailed(reason)),
        }
    }

    /// Hands the handle, if one is held, to `terminate` and forgets it. What
    /// `terminate` runs into is its own affair: a stop always succeeds, and a
    /// stop without a process does nothing.
    pub fn stop<T>(&mut self, terminate: T) -> (stopped: Result<(), SidecarError>) where
        T: FnOnce(H),

        requires
            forall|handle: H| old(self)@.child == Some(handle) ==> call_requires(
                terminate,
                (handle,),
            ),
        ensures
            stopped is Ok,
            final(self)@ == old(self)@.stopped(),
            old(self)@.child matches Some(handle) ==> call_ensures(terminate, (handle,), ()),
    {
        if let Some(handle) = self.child.take() {
            terminate(handle);
        }
        Ok(())
    }

    /// Gives the supervisor up: a handle that is still held goes to
    /// `terminate` first.
    pub fn shutdown<T>(self, terminate: T) where T: FnOnce(H)
        requires
            forall|handle: H| self@.child == Some(handle) ==> call_requires(
                terminate,
                (handle,),
            ),
        ensures
            self@.child matches Some(handle) ==> call_ensures(terminate, (handle,), ()),
    {
        let mut manager = self;
        let _ = manager.stop(terminate);
    }

    /// Stops the sidecar if one is running, launches a new one, and opens the
    /// wait for it to answer. Where the launch fails, its failure is returned
    /// and no process is left.
    pub fn reconnect<T, F>(&mut self, terminate: T, spawn: F) -> (wait: Result<
        ReadinessPoll,
        SidecarError,
    >) where T: FnOnce(H), F: FnOnce(&SpawnCommand) -> Result<H, String>
        requires
            forall|handle: H| old(self)@.child == Some(handle) ==> call_requires(
                terminate,
                (handle,),
            ),
            forall|command: &SpawnCommand|
                command@ == sidecar_plan(old(self)@.python_path) ==> call_requires(
                    spawn,
                    (command,),
                ),
        ensures
            old(self)@.child matches Some(handle) ==> call_ensures(terminate, (handle,), ()),
            exists|command: &SpawnCommand, spawned: Result<H, String>|
                command@ == sidecar_plan(old(self)@.python_path) && call_ensures(
                    spawn,
                    (command,),
                    spawned,
                ) && final(self)@ == old(self)@.reconnect(spawned).0 && match old(
                    self,
                )@.reconnect(spawned).1 {
                    Ok(_) => wait is Ok && wait->Ok_0@ == 0,
                    Err(e) => wait == Err::<ReadinessPoll, SidecarError>(e),
                },
    {
        let _ = self.stop(terminate);
        match self.start(spawn) {
            Ok(_) => Ok(self.wait_for_ready()),
            Err(e) => Err(e),
        }
    }

    /// Opens the wait for the sidecar to answer: no probe made yet, fifty
    /// allowed.
    pub fn wait_for_ready(&self) -> (poll: ReadinessPoll)
        ensures
            poll@ == 0,
    {
        ReadinessPoll::new()
    }

    /// Whether a handle is held. Says nothing of whether the process still
    /// lives or answers.
    pub fn is_running(&self) -> (running: bool)
        ensures
            running == self@.is_running(),
    {
        self.child.is_some()
    }

    /// The base URL of the sidecar's HTTP API.
    pub fn get_base_url(&self) -> (url: &str)
        ensures
            url@ == self@.base_url,
    {
        self.base_url.as_str()
    }

    /// The health probe to send.
    pub fn health_request(&self) -> (request: HttpRequest)
        ensures
            request@ == health_request_for(self@.base_url),
    {
        health_request(self.base_url.as_str())
    }

    /// The query of the authentication status to send.
    pub fn auth_status_request(&self) -> (request: HttpRequest)
        ensures
            request@ == auth_status_request_for(self@.base_url),
    {
        auth_status_request(self.base_url.as_str())
    }

    /// The login to send for these credentials.
    pub fn login_request(&self, client_secret: &str, refresh_token: &str, remember_me: bool) -> (request:
        HttpRequest)
        ensures
            request@ == login_request_for(
                self@.base_url,
                client_secret@,
                refresh_token@,
                remember_me,
            ),
    {
        login_request(self.base_url.as_str(), client_secret, refresh_token, remember_me)
    }

    /// The logout to send.
    pub fn logout_request(&self, clear_credentials: bool) -> (request: HttpRequest)
        ensures
            request@ == logout_request_for(self@.base_url, clear_credentials),
    {
        logout_request(self.base_url.as_str(), clear_credentials)
    }

    /// Judges the answer to a health probe; whether a process is held plays
    /// no part.
    pub fn health_check(&self, probe: Result<HttpStatus, String>) -> (verdict: Result<
        (),
        SidecarError,
    >)
        ensures
            verdict == health_verdict(probe),
    {
        judge_health(probe)
    }

    /// Answers a ping from the answer to a health probe.
    pub fn ping(&self, probe: Result<HttpStatus, String>) -> (verdict: Result<String, SidecarError>)
        ensures
            match health_verdict(probe) {
                Ok(_) => verdict is Ok && verdict->Ok_0@ == pong(),
                Err(e) => verdict == Err::<String, SidecarError>(e),
            },
    {
        judge_ping(probe)
    }

    /// Judges the answer to a query of the authentication status.
    pub fn get_auth_status(&self, outcome: CallOutcome<AuthStatus>) -> (verdict: Result<
        AuthStatus,
        SidecarError,
    >)
        ensures
            verdict == call_verdict(outcome),
    {
        judge_call(outcome)
    }

    /// Judges the answer to a login.
    pub fn login(&self, outcome: CallOutcome<LoginResponse>) -> (verdict: Result<
        LoginResponse,
        SidecarError,
    >)
        ensures
            verdict == call_verdict(outcome),
    {
        judge_call(outcome)
    }

    /// Judges the answer to a logout.
    pub fn logout(&self, outcome: CallOutcome<LogoutResponse>) -> (verdict: Result<
        LogoutResponse,
        SidecarError,
    >)
        ensures
            verdict == call_verdict(outcome),
    {
        judge_call(outcome)
    }
}

} // verus!
