//! The login-and-serve run: sign in when needed, start the API server, open
//! the tunnel.  The outside work is done by the caller; each step here takes
//! its outcome and says what comes next.

use vstd::prelude::*;
use crate::commands::{login_failure, serve_tunnel_failure, server_start_failure, tunnel_unavailable_note, ServiceResponse};
use crate::error::{opt_view, MindLinkError};
use crate::text::owned;

verus! {

/// How a run ends: the answer, the error to log under its component, whether
/// serving is now on, and the note to record as the last error.
pub struct ServeFinish {
    pub response: ServiceResponse,
    pub logged: Option<(String, MindLinkError)>,
    pub serving: bool,
    pub last_error: Option<String>,
}

/// What the run asks for next.
pub enum ServeStep {
    /// Sign in through the browser, then report with `login_done`.
    Login,
    /// Start the API server, then report with `server_done`.
    StartServer,
    /// Open the tunnel, then report with `tunnel_done`.
    CreateTunnel,
    /// The run is over.
    Finish(ServeFinish),
}

/// Where a run stands.
pub enum ServeStage {
    SigningIn,
    StartingServer,
    OpeningTunnel(String),
    Done,
}

/// A login-and-serve run.
pub struct ServeRun {
    pub stage: ServeStage,
}

impl ServeFinish {
    /// A failed run: the error's message for the user, the error logged under
    /// `component`, serving and the last error left as they were.
    pub open spec fn failed_with(self, component: Seq<char>, error: MindLinkError) -> bool {
        &&& self.response.plain(false, error.user_text())
        &&& self.logged matches Some((c, e)) && c@ == component && e == error
        &&& !self.serving
        &&& self.last_error is None
    }
}

impl ServeRun {
    /// Begin a run: sign in first unless already signed in.
    pub fn begin(authenticated: bool) -> (res: (ServeRun, ServeStep))
        ensures
            authenticated ==> res.0.stage is StartingServer && res.1 is StartServer,
            !authenticated ==> res.0.stage is SigningIn && res.1 is Login,
    {
        if authenticated {
            (ServeRun { stage: ServeStage::StartingServer }, ServeStep::StartServer)
        } else {
            (ServeRun { stage: ServeStage::SigningIn }, ServeStep::Login)
        }
    }

    /// The sign-in finished: start the server, or end with the login failure.
    pub fn login_done(&mut self, result: Result<(), anyhow::Error>) -> (res: ServeStep)
        requires
            old(self).stage is SigningIn,
        ensures
            match result {
                Ok(()) => final(self).stage is StartingServer && res is StartServer,
                Err(e) => final(self).stage is Done && (res matches ServeStep::Finish(f)
                    && (f.logged matches Some((_c, err)) && err.is_auth("Login failed"@, Some(e))
                        && f.failed_with("Auth"@, err))),
            },
    {
        match result {
            Ok(()) => {
                self.stage = ServeStage::StartingServer;
                ServeStep::StartServer
            },
            Err(e) => {
                self.stage = ServeStage::Done;
                let error = login_failure(e);
                let response = ServiceResponse::failure(&error);
                ServeStep::Finish(ServeFinish {
                    response,
                    logged: Some((owned("Auth"), error)),
                    serving: false,
                    last_error: None,
                })
            },
        }
    }

    /// The server start finished: open the tunnel, or end with the server
    /// failure.
    pub fn server_done(&mut self, result: Result<String, anyhow::Error>) -> (res: ServeStep)
        requires
            old(self).stage is StartingServer,
        ensures
            match result {
                Ok(url) => (final(self).stage matches ServeStage::OpeningTunnel(u) && u@ == url@)
                    && res is CreateTunnel,
                Err(e) => final(self).stage is Done && (res matches ServeStep::Finish(f)
                    && (f.logged matches Some((_c, err))
                        && err.is_internal("Server failed to start"@, Some("ServerManager"@), Some(e))
                        && f.failed_with("Server"@, err))),
            },
    {
        match result {
            Ok(url) => {
                self.stage = ServeStage::OpeningTunnel(url);
                ServeStep::CreateTunnel
            },
            Err(e) => {
                self.stage = ServeStage::Done;
                let error = server_start_failure(e);
                let response = ServiceResponse::failure(&error);
                ServeStep::Finish(ServeFinish {
                    response,
                    logged: Some((owned("Server"), error)),
                    serving: false,
                    last_error: None,
                })
            },
        }
    }

    /// The tunnel attempt finished: serving is on either way.  A tunnel that
    /// could not be opened does not fail the run: the answer is still a
    /// success with the local address, the tunnel error is logged, and a note
    /// is recorded as the last error.
    pub fn tunnel_done(&mut self, result: Result<String, anyhow::Error>) -> (res: ServeFinish)
        requires
            old(self).stage is OpeningTunnel,
        ensures
            final(self).stage is Done,
            res.serving,
            res.response.success,
            opt_view(res.response.message) == Some("Services started successfully"@),
            old(self).stage matches ServeStage::OpeningTunnel(s) && opt_view(res.response.server_url) == Some(s@),
            res.response.auth_url is None,
            match result {
                Ok(url) => opt_view(res.response.tunnel_url) == Some(url@) && res.logged is None
                    && res.last_error is None,
                Err(e) => res.response.tunnel_url is None
                    && (res.logged matches Some((c, err)) && c@ == "Tunnel"@
                        && (exists|t: String| vstd::string::to_string_from_display_ensures::<anyhow::Error>(&e, t)
                            && err.is_tunnel("Tunnel creation failed: "@ + t@ + ". Service running locally only."@,
                                Some("quick"@), Some(3001u16), Some(e)))
                        && (res.last_error matches Some(n)
                            && n@ == "Tunnel unavailable: "@ + err.user_text() + ". Use 'Create Tunnel' to retry."@)),
            },
    {
        let mut stage = ServeStage::Done;
        std::mem::swap(&mut stage, &mut self.stage);
        let server_url = match stage {
            ServeStage::OpeningTunnel(s) => s,
            _ => String::new(),
        };
        match result {
            Ok(url) => ServeFinish {
                response: ServiceResponse::services_started(Some(server_url), Some(url)),
                logged: None,
                serving: true,
                last_error: None,
            },
            Err(e) => {
                let error = serve_tunnel_failure(e);
                let note = tunnel_unavailable_note(&error);
                ServeFinish {
                    response: ServiceResponse::services_started(Some(server_url), None),
                    logged: Some((owned("Tunnel"), error)),
                    serving: true,
                    last_error: Some(note),
                }
            },
        }
    }
}

} // verus!
