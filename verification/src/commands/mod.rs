//! Response types of the desktop commands and the decisions they take that do
//! not depend on the outside world.

pub mod completion;
pub mod certificates;
pub mod probes;
pub mod desktop;
pub mod serve;

use vstd::prelude::*;
use crate::error::{opt_view, MindLinkError, MindLinkResult};
use crate::managers::bifrost_manager::BifrostManager;
use crate::text::{cat2, cat3, opt_text, owned, str_eq};
use crate::seq_facts::lemma_filter_take_step;
use crate::logging::{format_rfc3339, in_utc_range, new_uuid, now_millis, rfc3339_text, uuid_text};

verus! {

/// Current system state as shown by the frontend.
pub struct StatusResponse {
    pub is_serving: bool,
    pub is_authenticated: bool,
    pub tunnel_url: Option<String>,
    pub server_url: Option<String>,
    pub bifrost_url: Option<String>,
    pub instance_token: Option<String>,
    pub last_error: Option<String>,
}

/// QR payload built from the tunnel URL and the instance token.
pub struct QrDataResponse {
    pub success: bool,
    pub qr_data: Option<String>,
    pub error: Option<String>,
}

/// Outcome of a service operation (start, stop, login, ...).
pub struct ServiceResponse {
    pub success: bool,
    pub message: Option<String>,
    pub server_url: Option<String>,
    pub tunnel_url: Option<String>,
    pub auth_url: Option<String>,
}

/// A chat message to send through the local API as a self-test.
pub struct TestCompletionRequest {
    pub message: String,
    pub model: Option<String>,
}

/// Outcome of the local API self-test.
pub struct TestCompletionResponse {
    pub success: bool,
    pub response: Option<String>,
    pub error: Option<String>,
}

/// Outcome of a binary installation step.
pub struct BinaryInstallationResponse {
    pub success: bool,
    pub message: Option<String>,
    pub binary_path: Option<String>,
    pub is_installed: bool,
}

/// An application allowed to use the local API.
pub struct AuthorizedApp {
    pub id: String,
    pub name: String,
    pub model: String,
    pub created_at: String,
}

/// User settings kept beside the configuration.
pub struct Settings {
    pub default_model: Option<String>,
    pub authorized_apps: Vec<AuthorizedApp>,
}

/// Manifest of a provider plugin.
pub struct PluginManifest {
    pub id: String,
    pub name: String,
    pub version: String,
    pub description: Option<String>,
    pub author: Option<String>,
    pub main: String,
    pub dependencies: Option<Vec<String>>,
    pub mindlink_version: Option<String>,
}

/// Result of plugin discovery.
pub struct PluginDiscoveryResponse {
    pub success: bool,
    pub manifests: Vec<PluginManifest>,
    pub plugins_directory: Option<String>,
    pub error: Option<String>,
}

impl ServiceResponse {
    /// A response with the given outcome and message and no URLs.
    pub open spec fn plain(self, success: bool, message: Seq<char>) -> bool {
        &&& self.success == success
        &&& opt_view(self.message) == Some(message)
        &&& self.server_url is None
        &&& self.tunnel_url is None
        &&& self.auth_url is None
    }

    /// A response with the given outcome and message, no URLs.
    pub fn with_message(success: bool, message: String) -> (res: ServiceResponse)
        ensures
            res.plain(success, message@),
    {
        ServiceResponse { success, message: Some(message), server_url: None, tunnel_url: None, auth_url: None }
    }
}

/// The API address handed out to clients: the tunnel URL when there is one,
/// else the local server URL, each followed by `/v1`.
pub fn api_url(tunnel_url: Option<String>, server_url: Option<String>) -> (res: Result<String, String>)
    ensures
        match (tunnel_url, server_url) {
            (Some(t), _) => res matches Ok(u) && u@ == t@ + "/v1"@,
            (None, Some(s)) => res matches Ok(u) && u@ == s@ + "/v1"@,
            (None, None) => res matches Err(e) && e@ == "No API URL available"@,
        },
{
    match tunnel_url {
        Some(t) => Ok(cat2(t.as_str(), "/v1")),
        None => match server_url {
            Some(s) => Ok(cat2(s.as_str(), "/v1")),
            None => Err(owned("No API URL available")),
        },
    }
}

/// The greeting of the connectivity test command.
pub fn simple_test() -> (res: String)
    ensures
        res@ == "Hello from Rust!"@,
{
    owned("Hello from Rust!")
}

/// A newly authorized application: a fresh random UUID as its id, and the
/// current time, in RFC 3339, as its creation time.  `None` when the random
/// source or the clock cannot give them.
pub fn new_authorized_app(name: String, model: String) -> (res: Option<AuthorizedApp>)
    ensures
        res matches Some(a) ==> {
            &&& uuid_text(a.id@)
            &&& a.name == name
            &&& a.model == model
            &&& exists|ms: int| 0 <= ms && in_utc_range(ms) && a.created_at@ == rfc3339_text(ms)
        },
{
    let id = match new_uuid() {
        Some(u) => u,
        None => return None,
    };
    let now = match now_millis() {
        Some(t) => t,
        None => return None,
    };
    let created_at = match format_rfc3339(now) {
        Some(t) => t,
        None => String::new(),
    };
    Some(AuthorizedApp { id, name, model, created_at })
}

/// Keeps the applications whose id differs from `id`.
pub open spec fn other_than(id: Seq<char>) -> spec_fn(AuthorizedApp) -> bool {
    |a: AuthorizedApp| a.id@ != id
}

impl Settings {
    /// The settings used when none are stored: model `gpt-4`, no applications.
    pub fn default_settings() -> (res: Settings)
        ensures
            opt_view(res.default_model) == Some("gpt-4"@),
            res.authorized_apps@.len() == 0,
    {
        Settings { default_model: Some(owned("gpt-4")), authorized_apps: Vec::new() }
    }

    /// Append a newly authorized application.
    pub fn add_authorized_app(&mut self, app: AuthorizedApp)
        ensures
            final(self).authorized_apps@ == old(self).authorized_apps@.push(app),
            final(self).default_model == old(self).default_model,
    {
        self.authorized_apps.push(app);
    }

    /// Change the model of the first application with id `app_id`; fails with
    /// "App not found" when there is none.
    pub fn update_app_model(&mut self, app_id: &str, model: String) -> (res: Result<(), String>)
        ensures
            final(self).default_model == old(self).default_model,
            final(self).authorized_apps@.len() == old(self).authorized_apps@.len(),
            match res {
                Ok(()) => exists|i: int|
                    0 <= i < old(self).authorized_apps@.len()
                    && old(self).authorized_apps@[i].id@ == app_id@
                    && (forall|j: int| 0 <= j < i ==> old(self).authorized_apps@[j].id@ != app_id@)
                    && final(self).authorized_apps@ == old(self).authorized_apps@.update(i,
                        AuthorizedApp { model, ..old(self).authorized_apps@[i] }),
                Err(e) => e@ == "App not found"@
                    && final(self).authorized_apps@ == old(self).authorized_apps@
                    && forall|j: int| 0 <= j < old(self).authorized_apps@.len()
                        ==> old(self).authorized_apps@[j].id@ != app_id@,
            },
    {
        let n = self.authorized_apps.len();
        let mut i: usize = 0;
        while i < n
            invariant
                n == self.authorized_apps@.len(),
                self.authorized_apps@ == old(self).authorized_apps@,
                self.default_model == old(self).default_model,
                i <= n,
                forall|j: int| 0 <= j < i ==> old(self).authorized_apps@[j].id@ != app_id@,
            decreases n - i,
        {
            if str_eq(self.authorized_apps[i].id.as_str(), app_id) {
                let old_app = self.authorized_apps.remove(i);
                let AuthorizedApp { id, name, model: _, created_at } = old_app;
                self.authorized_apps.insert(i, AuthorizedApp { id, name, model, created_at });
                assert(self.authorized_apps@ =~= old(self).authorized_apps@.update(i as int,
                    AuthorizedApp { model, ..old(self).authorized_apps@[i as int] }));
                return Ok(());
            }
            i = i + 1;
        }
        Err(owned("App not found"))
    }

    /// Remove every application with id `app_id`, keeping the others in order.
    pub fn remove_authorized_app(&mut self, app_id: &str)
        ensures
            final(self).default_model == old(self).default_model,
            final(self).authorized_apps@ == old(self).authorized_apps@.filter(other_than(app_id@)),
    {
        let ghost pred = other_than(app_id@);
        let mut kept: Vec<AuthorizedApp> = Vec::new();
        let mut rest: Vec<AuthorizedApp> = Vec::new();
        std::mem::swap(&mut rest, &mut self.authorized_apps);
        let ghost orig = rest@;
        for a in it: rest
            invariant
                it.seq() == orig,
                orig == old(self).authorized_apps@,
                pred == other_than(app_id@),
                kept@ == orig.take(it.index() as int).filter(pred),
        {
            let keep = !str_eq(a.id.as_str(), app_id);
            proof {
                assert(a == orig[it.index() as int]);
                lemma_filter_take_step(orig, pred, it.index() as int);
            }
            if keep {
                kept.push(a);
            }
        }
        assert(orig.take(orig.len() as int) =~= orig);
        assert(kept@ == orig.filter(pred));
        self.authorized_apps = kept;
    }
}

/// A cached verdict that is still fresh: the verdict of a check made no more
/// than `max_age_secs` seconds ago (`age_nanos` nanoseconds ago); `None` when
/// there is none or it is stale and the check has to be made again.
pub fn fresh_cached_verdict(cache: Option<(bool, u128)>, max_age_secs: u64) -> (res: Option<bool>)
    ensures
        match cache {
            Some((verdict, age)) => if age <= max_age_secs * 1_000_000_000 {
                res == Some(verdict)
            } else {
                res is None
            },
            None => res is None,
        },
{
    match cache {
        Some((verdict, age)) => {
            let limit: u128 = (max_age_secs as u128) * 1_000_000_000u128;
            if age <= limit { Some(verdict) } else { None }
        },
        None => None,
    }
}

/// How long the cloudflared authentication verdict of the status query is
/// reused, in seconds.
pub const STATUS_AUTH_CACHE_SECS: u64 = 30;

/// How long the verdict of the authentication polling is reused, in seconds.
pub const POLL_AUTH_CACHE_SECS: u64 = 15;

/// The local API address reported while serving.
pub open spec fn serving_url() -> Seq<char> {
    "http://127.0.0.1:3001"@
}

/// The status reported to the frontend.  The serving flag is what probing the
/// local API found, or the recorded flag when the probe could not be made;
/// the tunnel is the one detected running, else the managed one; the local
/// address is the fixed serving address while serving, else the server
/// manager's; the router address is the manager's, else the one detected.
pub fn status_response(
    serving_probe: Option<bool>,
    serving_flag: bool,
    is_authenticated: bool,
    detected_tunnel: Option<String>,
    managed_tunnel: Option<String>,
    managed_server_url: Option<String>,
    managed_bifrost: Option<String>,
    detected_bifrost: Option<String>,
    instance_token: Option<String>,
    last_error: Option<String>,
) -> (res: StatusResponse)
    ensures
        res.is_serving == match serving_probe {
            Some(b) => b,
            None => serving_flag,
        },
        res.is_authenticated == is_authenticated,
        opt_text(res.tunnel_url) == (if detected_tunnel is Some {
            opt_text(detected_tunnel)
        } else {
            opt_text(managed_tunnel)
        }),
        opt_text(res.server_url) == (if res.is_serving { Some(serving_url()) } else { opt_text(managed_server_url) }),
        opt_text(res.bifrost_url) == (if managed_bifrost is Some {
            opt_text(managed_bifrost)
        } else {
            opt_text(detected_bifrost)
        }),
        opt_text(res.instance_token) == opt_text(instance_token),
        opt_text(res.last_error) == opt_text(last_error),
{
    let is_serving = match serving_probe {
        Some(b) => b,
        None => serving_flag,
    };
    let tunnel_url = match detected_tunnel {
        Some(t) => Some(t),
        None => managed_tunnel,
    };
    let server_url = if is_serving { Some(owned("http://127.0.0.1:3001")) } else { managed_server_url };
    let bifrost_url = match managed_bifrost {
        Some(b) => Some(b),
        None => detected_bifrost,
    };
    StatusResponse {
        is_serving,
        is_authenticated,
        tunnel_url,
        server_url,
        bifrost_url,
        instance_token,
        last_error,
    }
}

impl ServiceResponse {
    /// A response with the given outcome, message and addresses, and no
    /// authentication address.
    pub open spec fn with_urls(
        self,
        success: bool,
        message: Seq<char>,
        server_url: Option<Seq<char>>,
        tunnel_url: Option<Seq<char>>,
    ) -> bool {
        &&& self.success == success
        &&& opt_view(self.message) == Some(message)
        &&& opt_view(self.server_url) == server_url
        &&& opt_view(self.tunnel_url) == tunnel_url
        &&& self.auth_url is None
    }

    /// A failed operation, reported with the error's message for the user.
    pub fn failure(error: &MindLinkError) -> (res: ServiceResponse)
        ensures
            res.plain(false, error.user_text()),
    {
        ServiceResponse::with_message(false, error.user_message())
    }

    /// Serving started, at these addresses.
    pub fn services_started(server_url: Option<String>, tunnel_url: Option<String>) -> (res: ServiceResponse)
        ensures
            res.with_urls(true, "Services started successfully"@, opt_text(server_url), opt_text(tunnel_url)),
    {
        ServiceResponse {
            success: true,
            message: Some(owned("Services started successfully")),
            server_url,
            tunnel_url,
            auth_url: None,
        }
    }

    /// Serving stopped.
    pub fn services_stopped() -> (res: ServiceResponse)
        ensures
            res.plain(true, "Services stopped successfully"@),
    {
        ServiceResponse::with_message(true, owned("Services stopped successfully"))
    }
}

/// The error of a failed login before serving.
pub fn login_failure(source: anyhow::Error) -> (res: MindLinkError)
    ensures
        res.is_auth("Login failed"@, Some(source)),
{
    MindLinkError::Authentication { message: owned("Login failed"), source: Some(source) }
}

/// The error when serving is asked for without authentication.
pub fn authentication_required() -> (res: MindLinkError)
    ensures
        res.is_auth("Authentication required"@, None),
{
    MindLinkError::Authentication { message: owned("Authentication required"), source: None }
}

/// The error of a local API server that failed to start.
pub fn server_start_failure(source: anyhow::Error) -> (res: MindLinkError)
    ensures
        res.is_internal("Server failed to start"@, Some("ServerManager"@), Some(source)),
{
    MindLinkError::Internal {
        message: owned("Server failed to start"),
        component: Some(owned("ServerManager")),
        source: Some(source),
    }
}

/// The error of a tunnel that could not be created while serving: serving
/// goes on locally.
pub fn serve_tunnel_failure(source: anyhow::Error) -> (res: MindLinkError)
    ensures
        exists|t: String| vstd::string::to_string_from_display_ensures::<anyhow::Error>(&source, t)
            && res.is_tunnel("Tunnel creation failed: "@ + t@ + ". Service running locally only."@,
                Some("quick"@), Some(3001u16), Some(source)),
{
    let text = source.to_string();
    MindLinkError::Tunnel {
        message: cat3("Tunnel creation failed: ", text.as_str(), ". Service running locally only."),
        tunnel_type: Some(owned("quick")),
        local_port: Some(3001),
        source: Some(source),
    }
}

/// The error of a tunnel that could not be created on request.
pub fn manual_tunnel_failure(source: anyhow::Error) -> (res: MindLinkError)
    ensures
        res.is_tunnel("Manual tunnel creation failed"@, Some("quick"@), Some(3001u16), Some(source)),
{
    MindLinkError::Tunnel {
        message: owned("Manual tunnel creation failed"),
        tunnel_type: Some(owned("quick")),
        local_port: Some(3001),
        source: Some(source),
    }
}

/// The last error recorded when serving goes on without a tunnel.
pub fn tunnel_unavailable_note(error: &MindLinkError) -> (res: String)
    ensures
        res@ == "Tunnel unavailable: "@ + error.user_text() + ". Use 'Create Tunnel' to retry."@,
{
    let m = error.user_message();
    cat3("Tunnel unavailable: ", m.as_str(), ". Use 'Create Tunnel' to retry.")
}

/// The answer to a request to start the router that is settled before any
/// launch: it runs already (reported with its address), or there is no
/// binary to launch; `None` when it is to be started.
pub fn bifrost_start_precheck(bifrost: &BifrostManager) -> (res: Option<ServiceResponse>)
    ensures
        bifrost.running() ==> (res matches Some(r) && r.with_urls(true, "Bifrost is already running"@,
            Some(bifrost.url()), None)),
        !bifrost.running() && bifrost.binary() is None ==> (res matches Some(r) && r.plain(false,
            "Bifrost binary not installed. Please install the binary first."@)),
        !bifrost.running() && bifrost.binary() is Some ==> res is None,
{
    if bifrost.is_running() {
        return Some(ServiceResponse {
            success: true,
            message: Some(owned("Bifrost is already running")),
            server_url: bifrost.get_local_url(),
            tunnel_url: None,
            auth_url: None,
        });
    }
    if !bifrost.is_binary_available() {
        return Some(ServiceResponse::with_message(false,
            owned("Bifrost binary not installed. Please install the binary first.")));
    }
    None
}

/// The answer to a request to start the router, once it was started.
pub fn bifrost_start_response(bifrost: &BifrostManager, result: &MindLinkResult<()>) -> (res: ServiceResponse)
    ensures
        match result {
            Ok(()) => res.with_urls(true, "Bifrost LLM Router started successfully"@,
                if bifrost.running() { Some(bifrost.url()) } else { None }, None),
            Err(e) => res.plain(false, "Failed to start Bifrost: "@ + e.display_text()),
        },
{
    match result {
        Ok(()) => ServiceResponse {
            success: true,
            message: Some(owned("Bifrost LLM Router started successfully")),
            server_url: bifrost.get_local_url(),
            tunnel_url: None,
            auth_url: None,
        },
        Err(e) => {
            let t = e.description();
            ServiceResponse::with_message(false, cat2("Failed to start Bifrost: ", t.as_str()))
        },
    }
}

/// The answer to a request to stop a router that does not run; `None` when
/// it is to be stopped.
pub fn bifrost_stop_precheck(bifrost: &BifrostManager) -> (res: Option<ServiceResponse>)
    ensures
        !bifrost.running() ==> (res matches Some(r) && r.plain(true, "Bifrost is already stopped"@)),
        bifrost.running() ==> res is None,
{
    if !bifrost.is_running() {
        Some(ServiceResponse::with_message(true, owned("Bifrost is already stopped")))
    } else {
        None
    }
}

/// The answer to a request to stop the router, once it was stopped.
pub fn bifrost_stop_response(result: &MindLinkResult<()>) -> (res: ServiceResponse)
    ensures
        match result {
            Ok(()) => res.plain(true, "Bifrost LLM Router stopped successfully"@),
            Err(e) => res.plain(false, "Failed to stop Bifrost: "@ + e.display_text()),
        },
{
    match result {
        Ok(()) => ServiceResponse::with_message(true, owned("Bifrost LLM Router stopped successfully")),
        Err(e) => {
            let t = e.description();
            ServiceResponse::with_message(false, cat2("Failed to stop Bifrost: ", t.as_str()))
        },
    }
}

impl BinaryInstallationResponse {
    /// An installation answer with exactly these fields.
    pub open spec fn is(self, success: bool, message: Option<Seq<char>>, binary_path: Option<Seq<char>>, installed: bool) -> bool {
        &&& self.success == success
        &&& opt_view(self.message) == message
        &&& opt_view(self.binary_path) == binary_path
        &&& self.is_installed == installed
    }

    /// A binary is in place at `path`.
    pub fn installed(message: &str, path: String) -> (res: Self)
        ensures
            res.is(true, Some(message@), Some(path@), true),
    {
        BinaryInstallationResponse { success: true, message: Some(owned(message)), binary_path: Some(path), is_installed: true }
    }

    /// Installing failed: the prefix, then the reason.
    pub fn not_installed(prefix: &str, reason: &str) -> (res: Self)
        ensures
            res.is(false, Some(prefix@ + reason@), None, false),
    {
        BinaryInstallationResponse {
            success: false,
            message: Some(cat2(prefix, reason)),
            binary_path: None,
            is_installed: false,
        }
    }

    /// The installation state of the router binary.
    pub fn status_of(bifrost: &BifrostManager) -> (res: Self)
        ensures
            res.is(true, Some(if bifrost.binary() is Some {
                "Locally-built Bifrost binary is ready"@
            } else {
                "Locally-built Bifrost binary not found - build system needs to be run"@
            }), bifrost.binary(), bifrost.binary() is Some),
    {
        let (is_installed, binary_path, message) = bifrost.get_installation_info();
        BinaryInstallationResponse { success: true, message, binary_path, is_installed }
    }
}

/// Where the tunnel stands: the tunnel detected running, else the managed
/// one while it is connected.
pub fn tunnel_status_response(detected: Option<String>, connected: bool, managed_url: Option<String>) -> (res: ServiceResponse)
    ensures
        match detected {
            Some(u) => res.with_urls(true, "Tunnel is active"@, None, Some(u@)),
            None => if connected {
                res.with_urls(true, "Tunnel is active"@, None, opt_text(managed_url))
            } else {
                res.plain(true, "No active tunnel"@)
            },
        },
{
    match detected {
        Some(u) => ServiceResponse {
            success: true,
            message: Some(owned("Tunnel is active")),
            server_url: None,
            tunnel_url: Some(u),
            auth_url: None,
        },
        None => if connected {
            ServiceResponse {
                success: true,
                message: Some(owned("Tunnel is active")),
                server_url: None,
                tunnel_url: managed_url,
                auth_url: None,
            }
        } else {
            ServiceResponse::with_message(true, owned("No active tunnel"))
        },
    }
}

/// A tunnel was created on request.
pub fn tunnel_created_response(url: String) -> (res: ServiceResponse)
    ensures
        res.with_urls(true, "Cloudflare tunnel created successfully"@, None, Some(url@)),
{
    ServiceResponse {
        success: true,
        message: Some(owned("Cloudflare tunnel created successfully")),
        server_url: None,
        tunnel_url: Some(url),
        auth_url: None,
    }
}

/// A response that succeeded with `done`, or failed with `prefix` and the
/// reason.
pub fn outcome_response(failure_reason: Option<&str>, done: &str, prefix: &str) -> (res: ServiceResponse)
    ensures
        match failure_reason {
            None => res.plain(true, done@),
            Some(r) => res.plain(false, prefix@ + r@),
        },
{
    match failure_reason {
        None => ServiceResponse::with_message(true, owned(done)),
        Some(r) => ServiceResponse::with_message(false, cat2(prefix, r)),
    }
}

/// The answer when cloudflared could not be obtained for the login.
pub fn cloudflared_unavailable_response(reason: &str) -> (res: ServiceResponse)
    ensures
        res.plain(false, "cloudflared binary not available: "@ + reason@),
{
    ServiceResponse::with_message(false, cat2("cloudflared binary not available: ", reason))
}

/// The answer when cloudflared is logged in already.
pub fn already_authenticated_response() -> (res: ServiceResponse)
    ensures
        res.plain(true, "Already authenticated with Cloudflare"@),
{
    ServiceResponse::with_message(true, owned("Already authenticated with Cloudflare"))
}

/// The answer once the cloudflared login has been started in the browser.
pub fn login_started_response() -> (res: ServiceResponse)
    ensures
        res.success,
        opt_view(res.message) == Some("Cloudflare authentication started - please complete the process in your browser"@),
        opt_view(res.auth_url) == Some("browser_opened"@),
        res.server_url is None,
        res.tunnel_url is None,
{
    ServiceResponse {
        success: true,
        message: Some(owned("Cloudflare authentication started - please complete the process in your browser")),
        server_url: None,
        tunnel_url: None,
        auth_url: Some(owned("browser_opened")),
    }
}

/// The answer to the Cloudflare login once starting `cloudflared tunnel
/// login` was tried: the login started in the browser, or why it could not be
/// started.
pub fn login_spawn_outcome(spawned: Result<(), String>) -> (res: Result<ServiceResponse, String>)
    ensures
        match spawned {
            Ok(()) => res matches Ok(r) && r.success
                && opt_view(r.message) == Some("Cloudflare authentication started - please complete the process in your browser"@)
                && opt_view(r.auth_url) == Some("browser_opened"@)
                && r.server_url is None && r.tunnel_url is None,
            Err(e) => res matches Err(m) && m@ == "Failed to start Cloudflare authentication: "@ + e@,
        },
{
    match spawned {
        Ok(()) => Ok(login_started_response()),
        Err(e) => Err(cat2("Failed to start Cloudflare authentication: ", e.as_str())),
    }
}

/// A named tunnel was enabled at `url`.
pub fn tunnel_enabled_response(name: &str, url: String) -> (res: ServiceResponse)
    ensures
        res.with_urls(true, "Tunnel '"@ + name@ + "' enabled successfully"@, None, Some(url@)),
{
    ServiceResponse {
        success: true,
        message: Some(cat3("Tunnel '", name, "' enabled successfully")),
        server_url: None,
        tunnel_url: Some(url),
        auth_url: None,
    }
}

} // verus!
