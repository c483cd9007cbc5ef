//! The Bifrost LLM router process: where its binary is found, how it is
//! launched and stopped, and what the manager reports about it.

use vstd::prelude::*;
use crate::error::{MindLinkError, MindLinkResult};
use crate::json::Json;
use crate::managers::binary_manager::{bifrost_binary_names, bifrost_names, CommandSpec};
use crate::process_monitor::MonitorConfig;
use crate::text::{
    cat2, cat3, cat4, decimal, decimal_string, flat_map, join_path, joined, lemma_views_concat,
    lemma_views_push, opt_text, owned, views,
};

verus! {

broadcast use vstd::string::group_string_axioms;

/// `http://host:port`.
pub open spec fn base_url(host: Seq<char>, port: u16) -> Seq<char> {
    "http://"@ + host + ":"@ + decimal(port as nat)
}

/// The text `http://host:port`.
pub fn base_url_string(host: &str, port: u16) -> (res: String)
    ensures
        res@ == base_url(host@, port),
{
    let p = decimal_string(port as u64);
    cat4("http://", host, ":", p.as_str())
}

/// Where a Bifrost binary called `name` is looked for by the router manager:
/// the working-directory `binaries` folder, beside the running executable
/// (when its directory is known), then the development `binaries` folder.
pub open spec fn router_locations(name: Seq<char>, exe_dir: Option<Seq<char>>) -> Seq<Seq<char>> {
    let first = seq![joined("binaries"@, name)];
    let last = seq![joined("src-tauri/binaries"@, name)];
    match exe_dir {
        Some(d) => first + seq![joined(joined(d, "binaries"@), name)] + last,
        None => first + last,
    }
}

fn router_locations_exec(name: &str, exe_dir: &Option<String>) -> (res: Vec<String>)
    ensures
        views(res@) == router_locations(name@, opt_text(*exe_dir)),
{
    let mut v: Vec<String> = Vec::new();
    v.push(join_path("binaries", name));
    match exe_dir {
        Some(d) => {
            let bin = join_path(d.as_str(), "binaries");
            v.push(join_path(bin.as_str(), name));
        },
        None => {},
    }
    v.push(join_path("src-tauri/binaries", name));
    assert(views(v@) =~= router_locations(name@, opt_text(*exe_dir)));
    v
}

/// Every place the router manager looks for its binary, in order.
pub open spec fn router_search(os: Seq<char>, arch: Seq<char>, exe_dir: Option<Seq<char>>) -> Seq<Seq<char>> {
    flat_map(bifrost_names(os, arch), |n: Seq<char>| router_locations(n, exe_dir))
}

/// Every place the router manager looks for its binary, in order; the first
/// that is a regular file and passes the binary check is used.
pub fn router_binary_candidates(os: &str, arch: &str, exe_dir: &Option<String>) -> (res: Vec<String>)
    ensures
        views(res@) == router_search(os@, arch@, opt_text(*exe_dir)),
{
    let names = bifrost_binary_names(os, arch);
    let ghost f = |n: Seq<char>| router_locations(n, opt_text(*exe_dir));
    let ghost all = views(names@);
    let mut out: Vec<String> = Vec::new();
    let mut i: usize = 0;
    while i < names.len()
        invariant
            all == views(names@),
            all == bifrost_names(os@, arch@),
            f == (|n: Seq<char>| router_locations(n, opt_text(*exe_dir))),
            i <= names.len(),
            views(out@) == flat_map(all.take(i as int), f),
        decreases names.len() - i,
    {
        let mut locs = router_locations_exec(names[i].as_str(), exe_dir);
        proof {
            assert(all.take(i as int + 1).drop_last() =~= all.take(i as int));
            assert(all.take(i as int + 1).last() == names@[i as int]@);
            lemma_views_concat(out@, locs@);
        }
        out.append(&mut locs);
        i = i + 1;
    }
    assert(all.take(names.len() as int) =~= all);
    out
}

/// Whether a found binary passes the router's check: it is not denied
/// execution by its permission bits (when they could be read), and running it
/// with `--version` or, failing that, `--help` succeeded (`None` where the
/// command could not be run).
pub fn local_binary_works(mode: Option<u32>, version_run: Option<bool>, help_run: Option<bool>) -> (res: bool)
    ensures
        res == (!(mode matches Some(m) && m & 0o111u32 == 0)
            && (version_run == Some(true) || help_run == Some(true))),
{
    match mode {
        Some(m) => {
            if m & 0o111u32 == 0 {
                return false;
            }
        },
        None => {},
    }
    version_run == Some(true) || help_run == Some(true)
}

/// The ports tried for the router, from `start`, one hundred of them.
pub fn port_candidates(start: u16) -> (res: Vec<u16>)
    requires
        start + 100 <= u16::MAX,
    ensures
        res@.len() == 100,
        forall|i: int| 0 <= i < 100 ==> #[trigger] res@[i] == start + i,
{
    let mut v: Vec<u16> = Vec::new();
    let end: u16 = start + 100;
    let mut p: u16 = start;
    while p < end
        invariant
            start <= p <= end,
            end == start + 100,
            v@.len() == p - start,
            forall|i: int| 0 <= i < v@.len() ==> #[trigger] v@[i] == start + i,
        decreases end - p,
    {
        v.push(p);
        p = p + 1;
    }
    v
}

/// What starting the router comes to.
pub enum StartDecision {
    /// It is running already: nothing to do.
    AlreadyRunning,
    /// Launch it as planned.
    Launch(LaunchPlan),
}

/// How the router is launched and watched.
pub struct LaunchPlan {
    pub command: CommandSpec,
    /// The name the process monitor knows it by.
    pub process_id: String,
    /// The name shown for it.
    pub display_name: String,
    pub monitor: MonitorConfig,
}

/// The arguments the router is launched with: its address, the log level
/// unless `BIFROST_LOG_LEVEL` is set to something, and the configuration file
/// when there is one.
pub open spec fn launch_args(host: Seq<char>, port: u16, log_level_env: Seq<char>, config: Option<Seq<char>>) -> Seq<Seq<char>> {
    seq!["--host"@, host, "--port"@, decimal(port as nat)]
        + (if log_level_env.len() == 0 { seq!["--log-level"@, "info"@] } else { Seq::empty() })
        + match config {
            Some(c) => seq!["--config"@, c],
            None => Seq::empty(),
        }
}

/// How the launch of a started router went, once it has had time to start.
pub enum StartupCheck {
    /// The process is not held here (the process monitor holds it).
    NotHeld,
    /// The process is still running.
    Running,
    /// The process exited already, with this status text.
    Exited(String),
    /// Its status could not be read.
    Failed(anyhow::Error),
}

/// How ending the router's process went.
pub enum KillOutcome {
    /// No process was held here.
    NoProcess,
    /// It was killed and has exited.
    Stopped,
    /// It was killed but waiting for it failed.
    WaitFailed(anyhow::Error),
    /// It could not be killed.
    KillFailed(anyhow::Error),
}

/// The Bifrost LLM router: its address, whether it runs, and the files it is
/// launched with.
pub struct BifrostManager {
    port: u16,
    host: String,
    is_running: bool,
    config_path: Option<String>,
    binary_path: Option<String>,
}

impl BifrostManager {
    pub closed spec fn host(&self) -> Seq<char> {
        self.host@
    }

    pub closed spec fn port(&self) -> u16 {
        self.port
    }

    pub closed spec fn running(&self) -> bool {
        self.is_running
    }

    pub closed spec fn config(&self) -> Option<Seq<char>> {
        opt_text(self.config_path)
    }

    pub closed spec fn binary(&self) -> Option<Seq<char>> {
        opt_text(self.binary_path)
    }

    /// The router's address.
    pub open spec fn url(&self) -> Seq<char> {
        base_url(self.host(), self.port())
    }

    /// A stopped router on `127.0.0.1:port` using the binary found at
    /// `binary_path`, if any.
    pub fn new(binary_path: Option<String>, port: u16) -> (res: Self)
        ensures
            res.host() == "127.0.0.1"@,
            res.port() == port,
            !res.running(),
            res.config() is None,
            res.binary() == opt_text(binary_path),
    {
        BifrostManager { port, host: owned("127.0.0.1"), is_running: false, config_path: None, binary_path }
    }

    /// Whether the router runs.
    pub fn is_running(&self) -> (res: bool)
        ensures
            res == self.running(),
    {
        self.is_running
    }

    /// `host:port`.
    pub fn address(&self) -> (res: String)
        ensures
            res@ == self.host() + ":"@ + decimal(self.port() as nat),
    {
        let p = decimal_string(self.port as u64);
        cat3(self.host.as_str(), ":", p.as_str())
    }

    /// The router's address while it runs.
    pub fn get_local_url(&self) -> (res: Option<String>)
        ensures
            opt_text(res) == (if self.running() { Some(self.url()) } else { None }),
    {
        if self.is_running {
            Some(base_url_string(self.host.as_str(), self.port))
        } else {
            None
        }
    }

    /// The router's API address while it runs.
    pub fn get_api_url(&self) -> (res: Option<String>)
        ensures
            opt_text(res) == (if self.running() { Some(self.url() + "/v1"@) } else { None }),
    {
        if self.is_running {
            let u = base_url_string(self.host.as_str(), self.port);
            Some(cat2(u.as_str(), "/v1"))
        } else {
            None
        }
    }

    /// Whether it runs, with its address and API address while it does.
    pub fn get_status_info(&self) -> (res: (bool, Option<String>, Option<String>))
        ensures
            res.0 == self.running(),
            opt_text(res.1) == (if self.running() { Some(self.url()) } else { None }),
            opt_text(res.2) == (if self.running() { Some(self.url() + "/v1"@) } else { None }),
    {
        (self.is_running, self.get_local_url(), self.get_api_url())
    }

    /// The health endpoint of the router.
    pub fn health_url(&self) -> (res: String)
        ensures
            res@ == self.url() + "/health"@,
    {
        let u = base_url_string(self.host.as_str(), self.port);
        cat2(u.as_str(), "/health")
    }

    /// The model list endpoint of the router.
    pub fn models_url(&self) -> (res: String)
        ensures
            res@ == self.url() + "/v1/models"@,
    {
        let u = base_url_string(self.host.as_str(), self.port);
        cat2(u.as_str(), "/v1/models")
    }

    /// Move the router to another address; refused (and `false`) while it runs.
    pub fn configure(&mut self, host: String, port: u16) -> (applied: bool)
        ensures
            applied == !old(self).running(),
            applied ==> final(self).host() == host@ && final(self).port() == port,
            !applied ==> final(self).host() == old(self).host() && final(self).port() == old(self).port(),
            final(self).running() == old(self).running(),
            final(self).config() == old(self).config(),
            final(self).binary() == old(self).binary(),
    {
        if self.is_running {
            return false;
        }
        self.host = host;
        self.port = port;
        true
    }

    /// Launch with a configuration file; refused (and `false`) while it runs.
    pub fn set_config_path(&mut self, config_path: String) -> (applied: bool)
        ensures
            applied == !old(self).running(),
            final(self).config() == (if applied { Some(config_path@) } else { old(self).config() }),
            final(self).host() == old(self).host(),
            final(self).port() == old(self).port(),
            final(self).running() == old(self).running(),
            final(self).binary() == old(self).binary(),
    {
        if self.is_running {
            return false;
        }
        self.config_path = Some(config_path);
        true
    }

    /// Launch another binary; refused (and `false`) while it runs.
    pub fn set_binary_path(&mut self, binary_path: String) -> (applied: bool)
        ensures
            applied == !old(self).running(),
            final(self).binary() == (if applied { Some(binary_path@) } else { old(self).binary() }),
            final(self).host() == old(self).host(),
            final(self).port() == old(self).port(),
            final(self).running() == old(self).running(),
            final(self).config() == old(self).config(),
    {
        if self.is_running {
            return false;
        }
        self.binary_path = Some(binary_path);
        true
    }

    /// Whether a binary was found.
    pub fn is_binary_available(&self) -> (res: bool)
        ensures
            res == (self.binary() is Some),
    {
        self.binary_path.is_some()
    }

    /// The binary in use.
    pub fn get_binary_path(&self) -> (res: Option<String>)
        ensures
            opt_text(res) == self.binary(),
    {
        self.binary_path.clone()
    }

    /// Record the outcome of a new search for the binary: the binary found,
    /// or an error when there is none (and then no binary is in use).
    pub fn refresh_binary_path(&mut self, found: Option<String>) -> (res: Result<String, String>)
        ensures
            final(self).binary() == opt_text(found),
            match found {
                Some(p) => res matches Ok(q) && q@ == p@,
                None => res matches Err(e)
                    && e@ == "No locally-built Bifrost binary found. Please run the build system to create it."@,
            },
            final(self).host() == old(self).host(),
            final(self).port() == old(self).port(),
            final(self).running() == old(self).running(),
            final(self).config() == old(self).config(),
    {
        self.binary_path = None;
        match found {
            Some(p) => {
                self.binary_path = Some(p.clone());
                Ok(p)
            },
            None => Err(owned("No locally-built Bifrost binary found. Please run the build system to create it.")),
        }
    }

    /// Use the binary a rebuild produced.
    pub fn record_built_binary(&mut self, path: String)
        ensures
            final(self).binary() == Some(path@),
            final(self).host() == old(self).host(),
            final(self).port() == old(self).port(),
            final(self).running() == old(self).running(),
            final(self).config() == old(self).config(),
    {
        self.binary_path = Some(path);
    }

    /// Whether a binary is installed, which one, and a line about it.
    pub fn get_installation_info(&self) -> (res: (bool, Option<String>, Option<String>))
        ensures
            res.0 == (self.binary() is Some),
            opt_text(res.1) == self.binary(),
            opt_text(res.2) == Some(if self.binary() is Some {
                "Locally-built Bifrost binary is ready"@
            } else {
                "Locally-built Bifrost binary not found - build system needs to be run"@
            }),
    {
        let available = self.binary_path.is_some();
        let message = if available {
            owned("Locally-built Bifrost binary is ready")
        } else {
            owned("Locally-built Bifrost binary not found - build system needs to be run")
        };
        (available, self.binary_path.clone(), Some(message))
    }

    /// Whether a build is recommended: there is no binary, or the one in use
    /// no longer exists or fails its check (`binary_valid`).
    pub fn should_build(&self, binary_valid: bool) -> (res: bool)
        ensures
            res == (self.binary() is None || !binary_valid),
    {
        self.binary_path.is_none() || !binary_valid
    }

    /// What starting the router comes to: nothing when it runs; an error when
    /// no binary is known or the known one does not exist (`binary_exists`);
    /// else a launch of the binary with its address, the log level unless
    /// `BIFROST_LOG_LEVEL` holds something (`log_level_env`, empty when
    /// unset), and the configuration file, watched with the monitor's usual
    /// settings.
    pub fn plan_start(&self, binary_exists: bool, log_level_env: &str) -> (res: MindLinkResult<StartDecision>)
        ensures
            self.running() ==> res matches Ok(StartDecision::AlreadyRunning),
            !self.running() ==> match self.binary() {
                None => res matches Err(e) && e.is_binary(
                    "Binary not found - please run the build system"@, "bifrost-http"@, None, None),
                Some(p) => if !binary_exists {
                    res matches Err(e) && e.is_binary("Binary file does not exist"@, "bifrost-http"@, Some(p), None)
                } else {
                    res matches Ok(StartDecision::Launch(plan))
                        && plan.command.runs(p, launch_args(self.host(), self.port(), log_level_env@, self.config()))
                        && plan.process_id@ == "bifrost"@
                        && plan.display_name@ == "Bifrost LLM Router"@
                        && plan.monitor == MonitorConfig::standard()
                },
            },
    {
        if self.is_running {
            return Ok(StartDecision::AlreadyRunning);
        }
        let path = match &self.binary_path {
            Some(p) => p,
            None => {
                return Err(MindLinkError::BinaryExecution {
                    message: owned("Binary not found - please run the build system"),
                    binary_name: owned("bifrost-http"),
                    binary_path: None,
                    source: None,
                });
            },
        };
        if !binary_exists {
            return Err(MindLinkError::BinaryExecution {
                message: owned("Binary file does not exist"),
                binary_name: owned("bifrost-http"),
                binary_path: Some(path.clone()),
                source: None,
            });
        }
        let mut args: Vec<String> = Vec::new();
        args.push(owned("--host"));
        args.push(self.host.clone());
        args.push(owned("--port"));
        args.push(decimal_string(self.port as u64));
        let ghost fixed = seq!["--host"@, self.host(), "--port"@, decimal(self.port() as nat)];
        assert(views(args@) =~= fixed);
        let ghost level: Seq<Seq<char>> = if log_level_env@.len() == 0 {
            seq!["--log-level"@, "info"@]
        } else {
            Seq::empty()
        };
        if log_level_env.unicode_len() == 0 {
            let ghost before = args@;
            args.push(owned("--log-level"));
            args.push(owned("info"));
            assert(views(args@) =~= views(before) + seq!["--log-level"@, "info"@]);
        }
        assert(views(args@) =~= fixed + level);
        let ghost with_config: Seq<Seq<char>> = match self.config() {
            Some(c) => seq!["--config"@, c],
            None => Seq::empty(),
        };
        match &self.config_path {
            Some(c) => {
                let ghost before = args@;
                args.push(owned("--config"));
                args.push(c.clone());
                assert(views(args@) =~= views(before) + seq!["--config"@, c@]);
            },
            None => {},
        }
        assert(views(args@) =~= fixed + level + with_config);
        let monitor = MonitorConfig {
            capture_stdout: true,
            capture_stderr: true,
            max_restart_attempts: 3,
            restart_delay_ms: 5000,
            output_buffer_size: 1024 * 1024,
            health_check_interval_ms: 30000,
            process_timeout_ms: Some(300000),
        };
        Ok(StartDecision::Launch(LaunchPlan {
            command: CommandSpec { program: path.clone(), args },
            process_id: owned("bifrost"),
            display_name: owned("Bifrost LLM Router"),
            monitor,
        }))
    }

    /// The error for a binary at `binary_path` that could not be launched.
    pub fn spawn_failure(binary_path: &str, source: anyhow::Error) -> (res: MindLinkError)
        ensures
            res.is_binary("Failed to spawn process"@, "bifrost-http"@, Some(binary_path@), Some(source)),
    {
        MindLinkError::BinaryExecution {
            message: owned("Failed to spawn process"),
            binary_name: owned("bifrost-http"),
            binary_path: Some(owned(binary_path)),
            source: Some(source),
        }
    }

    /// The router was launched: it counts as running.
    pub fn launched(&mut self)
        ensures
            final(self).running(),
            final(self).host() == old(self).host(),
            final(self).port() == old(self).port(),
            final(self).config() == old(self).config(),
            final(self).binary() == old(self).binary(),
    {
        self.is_running = true;
    }

    /// The end of a start, once the router has had time to come up: a
    /// process that exited already, or whose status cannot be read, fails the
    /// start and the router no longer counts as running.
    pub fn startup_result(&mut self, check: StartupCheck) -> (res: MindLinkResult<()>)
        ensures
            final(self).host() == old(self).host(),
            final(self).port() == old(self).port(),
            final(self).config() == old(self).config(),
            final(self).binary() == old(self).binary(),
            match check {
                StartupCheck::NotHeld => res is Ok && final(self).running() == old(self).running(),
                StartupCheck::Running => res is Ok && final(self).running() == old(self).running(),
                StartupCheck::Exited(status) => !final(self).running() && (res matches Err(e) && e.is_process(
                    "Process exited immediately with status: "@ + status@ + ". Check the binary arguments."@,
                    "Bifrost"@, None, None)),
                StartupCheck::Failed(source) => !final(self).running() && (res matches Err(e) && e.is_process(
                    "Failed to check process status"@, "Bifrost"@, None, Some(source))),
            },
    {
        match check {
            StartupCheck::NotHeld => Ok(()),
            StartupCheck::Running => Ok(()),
            StartupCheck::Exited(status) => {
                self.is_running = false;
                Err(MindLinkError::ProcessMonitoring {
                    message: cat3("Process exited immediately with status: ", status.as_str(), ". Check the binary arguments."),
                    process_name: owned("Bifrost"),
                    pid: None,
                    source: None,
                })
            },
            StartupCheck::Failed(source) => {
                self.is_running = false;
                Err(MindLinkError::ProcessMonitoring {
                    message: owned("Failed to check process status"),
                    process_name: owned("Bifrost"),
                    pid: None,
                    source: Some(source),
                })
            },
        }
    }

    /// The end of a stop: a process that could not be killed fails the stop
    /// and the router still counts as running; otherwise it is stopped.  A
    /// router that does not run is left as it is.
    pub fn stop_result(&mut self, kill: KillOutcome) -> (res: MindLinkResult<()>)
        ensures
            final(self).host() == old(self).host(),
            final(self).port() == old(self).port(),
            final(self).config() == old(self).config(),
            final(self).binary() == old(self).binary(),
            !old(self).running() ==> res is Ok && !final(self).running(),
            old(self).running() ==> match kill {
                KillOutcome::KillFailed(source) => final(self).running() && (res matches Err(e) && e.is_process(
                    "Failed to terminate process"@, "Bifrost"@, None, Some(source))),
                _ => res is Ok && !final(self).running(),
            },
    {
        if !self.is_running {
            return Ok(());
        }
        match kill {
            KillOutcome::KillFailed(source) => Err(MindLinkError::ProcessMonitoring {
                message: owned("Failed to terminate process"),
                process_name: owned("Bifrost"),
                pid: None,
                source: Some(source),
            }),
            _ => {
                self.is_running = false;
                Ok(())
            },
        }
    }

    /// The error logged when waiting for the killed process fails.
    pub fn wait_failure(source: anyhow::Error) -> (res: MindLinkError)
        ensures
            res.is_process("Error waiting for process to exit"@, "Bifrost"@, None, Some(source)),
    {
        MindLinkError::ProcessMonitoring {
            message: owned("Error waiting for process to exit"),
            process_name: owned("Bifrost"),
            pid: None,
            source: Some(source),
        }
    }

    /// Whether the router is healthy: it runs, its process is held here and
    /// still alive, and its health endpoint answered successfully, or, when
    /// that endpoint could not be reached (`None`), its model list did.
    pub fn health_verdict(&self, process_alive: bool, health: Option<bool>, models: Option<bool>) -> (res: bool)
        ensures
            res == (self.running() && process_alive && match health {
                Some(ok) => ok,
                None => models == Some(true),
            }),
    {
        if !self.is_running || !process_alive {
            return false;
        }
        match health {
            Some(ok) => ok,
            None => models == Some(true),
        }
    }

    /// The URL to list the router's models from, or the error while it does
    /// not run.
    pub fn models_request(&self) -> (res: Result<String, String>)
        ensures
            self.running() ==> (res matches Ok(u) && u@ == self.url() + "/v1/models"@),
            !self.running() ==> (res matches Err(e) && e@ == "Bifrost is not running"@),
    {
        if self.is_running {
            Ok(self.models_url())
        } else {
            Err(owned("Bifrost is not running"))
        }
    }
}

/// The ids of the models in the items of a model list, in order, skipping
/// items without a textual `id`.
pub open spec fn ids_of(items: Seq<Json>) -> Seq<Seq<char>>
    decreases items.len(),
{
    if items.len() == 0 {
        Seq::empty()
    } else {
        let rest = ids_of(items.drop_last());
        match items.last().member("id"@) {
            Some(id) => match id.text() {
                Some(t) => rest.push(t),
                None => rest,
            },
            None => rest,
        }
    }
}

/// The model ids of a model list answer: those of its `data` array; none
/// when there is no such array.
pub open spec fn model_list_ids(answer: Json) -> Seq<Seq<char>> {
    match answer.member("data"@) {
        Some(data) => match data.items() {
            Some(items) => ids_of(items),
            None => Seq::empty(),
        },
        None => Seq::empty(),
    }
}

/// The model ids of a model list answer.
pub fn model_ids(answer: &Json) -> (res: Vec<String>)
    ensures
        views(res@) == model_list_ids(*answer),
{
    let mut out: Vec<String> = Vec::new();
    let data = match answer.get("data") {
        Some(d) => d,
        None => {
            return out;
        },
    };
    let items = match data.as_array() {
        Some(v) => v,
        None => {
            assert(views(out@) =~= Seq::<Seq<char>>::empty());
            return out;
        },
    };
    let mut i: usize = 0;
    while i < items.len()
        invariant
            i <= items.len(),
            model_list_ids(*answer) == ids_of(items@),
            views(out@) == ids_of(items@.take(i as int)),
        decreases items.len() - i,
    {
        let item = &items[i];
        proof {
            assert(items@.take(i as int + 1).drop_last() =~= items@.take(i as int));
            assert(items@.take(i as int + 1).last() == *item);
        }
        match item.get("id") {
            Some(id) => match id.as_str() {
                Some(t) => {
                    let owned_id = owned(t);
                    proof {
                        lemma_views_push(out@, owned_id);
                    }
                    out.push(owned_id);
                },
                None => {},
            },
            None => {},
        }
        i = i + 1;
    }
    assert(items@.take(items.len() as int) =~= items@);
    out
}

/// The error when the model list answered with an unsuccessful status.
pub fn models_status_error(status: &str) -> (res: String)
    ensures
        res@ == "Failed to get models: HTTP "@ + status@,
{
    cat2("Failed to get models: HTTP ", status)
}

/// The error when the router could not be reached for its model list.
pub fn models_connect_error(reason: &str) -> (res: String)
    ensures
        res@ == "Failed to connect to Bifrost: "@ + reason@,
{
    cat2("Failed to connect to Bifrost: ", reason)
}

} // verus!
