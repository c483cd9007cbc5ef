//! What the application decides around its services: the periodic health
//! check, the tray menu, the connection status dialog and the start-up of the
//! background services.

use vstd::prelude::*;
use crate::error::MindLinkError;
use crate::text::{cat2, cat3, opt_text, owned, str_eq};

verus! {

broadcast use vstd::string::group_string_axioms;

/// `true` or `false`, as `Display` writes a `bool`.
pub open spec fn bool_text(b: bool) -> Seq<char> {
    if b { "true"@ } else { "false"@ }
}

fn bool_string(b: bool) -> (res: &'static str)
    ensures
        res@ == bool_text(b),
{
    if b { "true" } else { "false" }
}

/// What a health check found and what is done about it.
pub struct HealthReport {
    /// The failure recorded as the last error, when some service is unhealthy.
    pub failure: Option<String>,
    /// Whether the router is restarted.
    pub restart_bifrost: bool,
    /// Whether the dashboard is started again.
    pub restart_dashboard: bool,
}

/// The failure text of a health check.
pub open spec fn health_failure_text(server: bool, tunnel: bool, bifrost: bool, dashboard: bool) -> Seq<char> {
    "Health check failed - Server: "@ + bool_text(server) + ", Tunnel: "@ + bool_text(tunnel)
        + ", Bifrost: "@ + bool_text(bifrost) + ", Dashboard: "@ + bool_text(dashboard)
}

/// Whether the periodic health check runs: only while the application is
/// serving.
pub fn health_check_needed(is_serving: bool) -> (res: bool)
    ensures
        res == is_serving,
{
    is_serving
}

/// The verdict of a health check of the four services (a service whose check
/// failed counts as unhealthy): a failure is recorded when any of them is
/// unhealthy, and the router and the dashboard are restarted when they are.
pub fn assess_health(server: bool, tunnel: bool, bifrost: bool, dashboard: bool) -> (res: HealthReport)
    ensures
        (server && tunnel && bifrost && dashboard) ==> res.failure is None && !res.restart_bifrost
            && !res.restart_dashboard,
        !(server && tunnel && bifrost && dashboard) ==> opt_text(res.failure) == Some(
            health_failure_text(server, tunnel, bifrost, dashboard))
            && res.restart_bifrost == !bifrost && res.restart_dashboard == !dashboard,
{
    if server && tunnel && bifrost && dashboard {
        return HealthReport { failure: None, restart_bifrost: false, restart_dashboard: false };
    }
    let mut text = cat2("Health check failed - Server: ", bool_string(server));
    text.append(", Tunnel: ");
    text.append(bool_string(tunnel));
    text.append(", Bifrost: ");
    text.append(bool_string(bifrost));
    text.append(", Dashboard: ");
    text.append(bool_string(dashboard));
    HealthReport { failure: Some(text), restart_bifrost: !bifrost, restart_dashboard: !dashboard }
}

/// The warning logged when the health check of `service` could not be made.
pub fn probe_failure_message(service: &str, reason: &str) -> (res: String)
    ensures
        res@ == service@ + " health check failed: "@ + reason@,
{
    cat3(service, " health check failed: ", reason)
}

/// The error logged when the router could not be restarted.
pub fn bifrost_restart_failure(source: anyhow::Error) -> (res: MindLinkError)
    ensures
        res.is_process("Failed to restart Bifrost service"@, "Bifrost"@, None, Some(source)),
{
    MindLinkError::ProcessMonitoring {
        message: owned("Failed to restart Bifrost service"),
        process_name: owned("Bifrost"),
        pid: None,
        source: Some(source),
    }
}

/// The error logged when the dashboard could not be started again.
pub fn dashboard_restart_failure(source: anyhow::Error) -> (res: MindLinkError)
    ensures
        res.is_process("Failed to restart Dashboard service"@, "Dashboard"@, None, Some(source)),
{
    MindLinkError::ProcessMonitoring {
        message: owned("Failed to restart Dashboard service"),
        process_name: owned("Dashboard"),
        pid: None,
        source: Some(source),
    }
}

/// The error when the router could not be started automatically.
pub fn bifrost_autostart_failure(binary_path: Option<String>, source: anyhow::Error) -> (res: MindLinkError)
    ensures
        res.is_binary("Auto-start failed - binary may not be installed correctly"@, "bifrost"@,
            opt_text(binary_path), Some(source)),
{
    MindLinkError::BinaryExecution {
        message: owned("Auto-start failed - binary may not be installed correctly"),
        binary_name: owned("bifrost"),
        binary_path,
        source: Some(source),
    }
}

/// The error when the dashboard could not be started.
pub fn dashboard_start_failure(source: anyhow::Error) -> (res: MindLinkError)
    ensures
        res.is_internal("Failed to start MindLink dashboard"@, Some("DashboardManager"@), Some(source)),
{
    MindLinkError::Internal {
        message: owned("Failed to start MindLink dashboard"),
        component: Some(owned("DashboardManager")),
        source: Some(source),
    }
}

/// The error when a manager of the application state could not be set up.
pub fn state_init_failure(manager: &str, source: anyhow::Error) -> (res: MindLinkError)
    ensures
        res.is_internal("Failed to initialize "@ + manager@, Some("AppState"@), Some(source)),
{
    MindLinkError::Internal {
        message: cat2("Failed to initialize ", manager),
        component: Some(owned("AppState")),
        source: Some(source),
    }
}

/// The notification shown for a warning about `error`: the prefix, then the
/// error's message for the user.
pub fn warning_notification(prefix: &str, error: &MindLinkError) -> (res: String)
    ensures
        res@ == prefix@ + error.user_text(),
{
    let m = error.user_message();
    cat2(prefix, m.as_str())
}

/// What a tray menu entry does.
pub enum MenuAction {
    LoginAndServe,
    StopServing,
    BifrostDashboard,
    ConnectionStatus,
    Settings,
    CopyApiUrl,
    Help,
    OpenApiDashboard,
    Quit,
    /// An entry this application does not know.
    Unhandled,
}

/// The action of the tray menu entry with id `id`.
pub open spec fn action_of(id: Seq<char>) -> MenuAction {
    if id == "login_serve"@ {
        MenuAction::LoginAndServe
    } else if id == "stop_serving"@ {
        MenuAction::StopServing
    } else if id == "bifrost_dashboard"@ {
        MenuAction::BifrostDashboard
    } else if id == "connection_status"@ {
        MenuAction::ConnectionStatus
    } else if id == "settings"@ {
        MenuAction::Settings
    } else if id == "copy_api_url"@ {
        MenuAction::CopyApiUrl
    } else if id == "help"@ {
        MenuAction::Help
    } else if id == "open_api_dashboard"@ {
        MenuAction::OpenApiDashboard
    } else if id == "quit"@ {
        MenuAction::Quit
    } else {
        MenuAction::Unhandled
    }
}

/// The action of the tray menu entry with id `id`.
pub fn menu_action(id: &str) -> (res: MenuAction)
    ensures
        res == action_of(id@),
{
    if str_eq(id, "login_serve") {
        MenuAction::LoginAndServe
    } else if str_eq(id, "stop_serving") {
        MenuAction::StopServing
    } else if str_eq(id, "bifrost_dashboard") {
        MenuAction::BifrostDashboard
    } else if str_eq(id, "connection_status") {
        MenuAction::ConnectionStatus
    } else if str_eq(id, "settings") {
        MenuAction::Settings
    } else if str_eq(id, "copy_api_url") {
        MenuAction::CopyApiUrl
    } else if str_eq(id, "help") {
        MenuAction::Help
    } else if str_eq(id, "open_api_dashboard") {
        MenuAction::OpenApiDashboard
    } else if str_eq(id, "quit") {
        MenuAction::Quit
    } else {
        MenuAction::Unhandled
    }
}

/// An entry of the tray menu.
pub enum TrayEntry {
    Item { id: String, label: String, enabled: bool },
    Separator,
}

impl TrayEntry {
    /// Whether this is the item `id`, labelled `label`, enabled or not.
    pub open spec fn is_item(self, id: Seq<char>, label: Seq<char>, enabled: bool) -> bool {
        self matches TrayEntry::Item { id: i, label: l, enabled: e } && i@ == id && l@ == label && e == enabled
    }
}

fn item(id: &str, label: &str, enabled: bool) -> (res: TrayEntry)
    ensures
        res.is_item(id@, label@, enabled),
{
    TrayEntry::Item { id: owned(id), label: owned(label), enabled }
}

/// The tray menu: serving controls, then the dashboards and settings, then
/// the API shortcuts (enabled once serving), then help and quit.
pub fn tray_menu() -> (res: Vec<TrayEntry>)
    ensures
        res@.len() == 12,
        res@[0].is_item("login_serve"@, "Login & Serve"@, true),
        res@[1].is_item("stop_serving"@, "Stop Serving"@, false),
        res@[2] is Separator,
        res@[3].is_item("bifrost_dashboard"@, "Bifrost Dashboard"@, true),
        res@[4].is_item("connection_status"@, "Connection Status"@, true),
        res@[5].is_item("settings"@, "Settings"@, true),
        res@[6] is Separator,
        res@[7].is_item("open_api_dashboard"@, "Open API Dashboard"@, false),
        res@[8].is_item("copy_api_url"@, "Copy API URL"@, false),
        res@[9] is Separator,
        res@[10].is_item("help"@, "Help"@, true),
        res@[11].is_item("quit"@, "Quit"@, true),
{
    let mut v: Vec<TrayEntry> = Vec::new();
    v.push(item("login_serve", "Login & Serve", true));
    v.push(item("stop_serving", "Stop Serving", false));
    v.push(TrayEntry::Separator);
    v.push(item("bifrost_dashboard", "Bifrost Dashboard", true));
    v.push(item("connection_status", "Connection Status", true));
    v.push(item("settings", "Settings", true));
    v.push(TrayEntry::Separator);
    v.push(item("open_api_dashboard", "Open API Dashboard", false));
    v.push(item("copy_api_url", "Copy API URL", false));
    v.push(TrayEntry::Separator);
    v.push(item("help", "Help", true));
    v.push(item("quit", "Quit", true));
    v
}

/// The documentation opened by the Help entry.
pub fn help_url() -> (res: &'static str)
    ensures
        res@ == "https://github.com/mindlink/docs"@,
{
    "https://github.com/mindlink/docs"
}

/// The router dashboard to open: its address while it runs, else why not.
pub fn dashboard_target(url: Option<String>, running: bool) -> (res: Result<String, String>)
    ensures
        match url {
            Some(u) => if running {
                res matches Ok(t) && t@ == u@
            } else {
                res matches Err(e) && e@ == "Bifrost dashboard is not running"@
            },
            None => res matches Err(e) && e@ == "Bifrost dashboard URL not available"@,
        },
{
    match url {
        Some(u) => if running { Ok(u) } else { Err(owned("Bifrost dashboard is not running")) },
        None => Err(owned("Bifrost dashboard URL not available")),
    }
}

/// `before` + the text + `after` when there is a text, else nothing.
pub open spec fn optional_line(o: Option<Seq<char>>, before: Seq<char>, after: Seq<char>) -> Seq<char> {
    match o {
        Some(t) => before + t + after,
        None => Seq::empty(),
    }
}

/// The connection status dialog text.
pub open spec fn status_text(
    is_serving: bool,
    server_url: Option<Seq<char>>,
    tunnel_url: Option<Seq<char>>,
    dashboard_url: Option<Seq<char>>,
    bifrost_url: Option<Seq<char>>,
    last_error: Option<Seq<char>>,
) -> Seq<char> {
    "Status: "@ + (if is_serving { "Connected"@ } else { "Disconnected"@ }) + "\n"@
        + (if is_serving {
            optional_line(server_url, "Local: "@, "\n"@) + optional_line(tunnel_url, "Public: "@, "\n"@)
        } else {
            Seq::empty()
        })
        + match dashboard_url {
            Some(d) => "Dashboard: Running ("@ + d + ")\n"@,
            None => "Dashboard: Stopped\n"@,
        }
        + match bifrost_url {
            Some(b) => "Bifrost LLM: Running ("@ + b + ")"@,
            None => "Bifrost LLM: Stopped"@,
        }
        + optional_line(last_error, "\nLast Error: "@, Seq::empty())
}

fn optional_line_string(o: &Option<String>, before: &str, after: &str) -> (res: String)
    ensures
        res@ == optional_line(opt_text(*o), before@, after@),
{
    match o {
        Some(t) => cat3(before, t.as_str(), after),
        None => String::new(),
    }
}

fn status_head(is_serving: bool, server_url: &Option<String>, tunnel_url: &Option<String>) -> (res: String)
    ensures
        res@ == "Status: "@ + (if is_serving { "Connected"@ } else { "Disconnected"@ }) + "\n"@
            + (if is_serving {
                optional_line(opt_text(*server_url), "Local: "@, "\n"@)
                    + optional_line(opt_text(*tunnel_url), "Public: "@, "\n"@)
            } else {
                Seq::empty()
            }),
{
    if is_serving {
        let a = optional_line_string(server_url, "Local: ", "\n");
        let b = optional_line_string(tunnel_url, "Public: ", "\n");
        let mut m = cat3("Status: ", "Connected", "\n");
        m.append(a.as_str());
        m.append(b.as_str());
        m
    } else {
        cat3("Status: ", "Disconnected", "\n")
    }
}

fn running_line(o: &Option<String>, running: &str, stopped: &str, close: &str) -> (res: String)
    ensures
        res@ == match opt_text(*o) {
            Some(u) => running@ + u + close@,
            None => stopped@,
        },
{
    match o {
        Some(u) => cat3(running, u.as_str(), close),
        None => owned(stopped),
    }
}

/// The text of the connection status dialog: whether the service is
/// connected, its local and public addresses while serving, the state of the
/// dashboard and of the router, and the last error.
pub fn connection_status_message(
    is_serving: bool,
    server_url: &Option<String>,
    tunnel_url: &Option<String>,
    dashboard_url: &Option<String>,
    bifrost_url: &Option<String>,
    last_error: &Option<String>,
) -> (res: String)
    ensures
        res@ == status_text(is_serving, opt_text(*server_url), opt_text(*tunnel_url),
            opt_text(*dashboard_url), opt_text(*bifrost_url), opt_text(*last_error)),
{
    let head = status_head(is_serving, server_url, tunnel_url);
    let dashboard = running_line(dashboard_url, "Dashboard: Running (", "Dashboard: Stopped\n", ")\n");
    let bifrost = running_line(bifrost_url, "Bifrost LLM: Running (", "Bifrost LLM: Stopped", ")");
    let error = optional_line_string(last_error, "\nLast Error: ", "");
    proof {
        reveal_strlit("");
    }
    crate::text::cat4(head.as_str(), dashboard.as_str(), bifrost.as_str(), error.as_str())
}

} // verus!
