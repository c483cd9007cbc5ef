//! Book-keeping of the child processes that the application supervises: their
//! status, their restart budget, and the events their changes give rise to.

use vstd::prelude::*;
use crate::error::{MindLinkError, MindLinkResult};
use crate::logging::{in_utc_range, now_millis};
use crate::string_map::StringMap;
use crate::text::{cat2, cat3, decimal, decimal_string, owned};

verus! {

/// Status of a monitored process.
#[derive(PartialEq, Eq, Structural, Clone, Copy)]
pub enum ProcessStatus {
    Starting,
    Running,
    Stopped,
    Failed,
    Crashed,
}

impl ProcessStatus {
    /// The text a status is written as.
    pub open spec fn text(self) -> Seq<char> {
        match self {
            ProcessStatus::Starting => "starting"@,
            ProcessStatus::Running => "running"@,
            ProcessStatus::Stopped => "stopped"@,
            ProcessStatus::Failed => "failed"@,
            ProcessStatus::Crashed => "crashed"@,
        }
    }

    /// The text a status is written as.
    pub fn label(&self) -> (res: &'static str)
        ensures
            res@ == self.text(),
    {
        match self {
            ProcessStatus::Starting => "starting",
            ProcessStatus::Running => "running",
            ProcessStatus::Stopped => "stopped",
            ProcessStatus::Failed => "failed",
            ProcessStatus::Crashed => "crashed",
        }
    }

    /// Whether a process in this status counts as running.
    pub open spec fn is_live(self) -> bool {
        self == ProcessStatus::Running || self == ProcessStatus::Starting
    }
}

/// Information about a monitored process.
pub struct ProcessInfo {
    pub name: String,
    pub pid: Option<u32>,
    /// Milliseconds since the Unix epoch, UTC.
    pub start_time_ms: i64,
    pub status: ProcessStatus,
    pub restart_count: u32,
    /// Milliseconds since the Unix epoch, UTC.
    pub last_restart_ms: Option<i64>,
}

impl ProcessInfo {
    /// A copy of the information.
    pub fn duplicate(&self) -> (res: Self)
        ensures
            res == *self,
    {
        ProcessInfo {
            name: self.name.clone(),
            pid: self.pid,
            start_time_ms: self.start_time_ms,
            status: self.status,
            restart_count: self.restart_count,
            last_restart_ms: self.last_restart_ms,
        }
    }
}

/// Configuration for monitoring one process; durations in milliseconds.
#[derive(Clone, Copy)]
pub struct MonitorConfig {
    pub capture_stdout: bool,
    pub capture_stderr: bool,
    pub max_restart_attempts: u32,
    pub restart_delay_ms: u64,
    pub output_buffer_size: usize,
    pub health_check_interval_ms: u64,
    pub process_timeout_ms: Option<u64>,
}

impl MonitorConfig {
    /// The configuration used when a process has none of its own.
    pub open spec fn standard() -> MonitorConfig {
        MonitorConfig {
            capture_stdout: true,
            capture_stderr: true,
            max_restart_attempts: 3,
            restart_delay_ms: 5000,
            output_buffer_size: 1048576usize,
            health_check_interval_ms: 30000,
            process_timeout_ms: Some(300000),
        }
    }
}

impl Default for MonitorConfig {
    fn default() -> (res: Self)
        ensures
            res == MonitorConfig::standard(),
    {
        MonitorConfig {
            capture_stdout: true,
            capture_stderr: true,
            max_restart_attempts: 3,
            restart_delay_ms: 5000,
            output_buffer_size: 1024 * 1024,
            health_check_interval_ms: 30000,
            process_timeout_ms: Some(300000),
        }
    }
}

/// Events that the process monitor emits.
pub enum ProcessEvent {
    Started { process_id: String, pid: u32 },
    Stopped { process_id: String, exit_code: Option<i32> },
    Crashed { process_id: String, error: String },
    OutputReceived { process_id: String, output_type: String, content: String },
    RestartAttempted { process_id: String, attempt: u32 },
    RestartLimitReached { process_id: String },
    HealthCheckFailed { process_id: String, error: String },
}

/// Whether a line of process output is taken in: a line longer, in bytes,
/// than the output buffer ends the reading of that stream.
pub fn output_line_fits(line: &str, buffer_size: usize) -> (res: bool)
    ensures
        res == ((vstd::utf8::encode_utf8(line@).len() as usize) <= buffer_size),
{
    line.len() <= buffer_size
}

/// The event announcing a line of output of a process.
pub fn output_event(process_id: &str, output_type: &str, line: &str) -> (res: ProcessEvent)
    ensures
        res matches ProcessEvent::OutputReceived { process_id: p, output_type: o, content: c }
            && p@ == process_id@ && o@ == output_type@ && c@ == line@,
{
    ProcessEvent::OutputReceived { process_id: owned(process_id), output_type: owned(output_type), content: owned(line) }
}

/// The event announcing that a process was stopped on request.
pub fn stopped_event(process_id: &str) -> (res: ProcessEvent)
    ensures
        res matches ProcessEvent::Stopped { process_id: p, exit_code } && p@ == process_id@ && exit_code is None,
{
    ProcessEvent::Stopped { process_id: owned(process_id), exit_code: None }
}

/// The registered processes and their monitoring configurations.
pub struct ProcessMonitor {
    processes: StringMap<ProcessInfo>,
    configs: StringMap<MonitorConfig>,
}

impl ProcessMonitor {
    /// The registered processes by id.
    pub closed spec fn processes(&self) -> Map<Seq<char>, ProcessInfo> {
        self.processes@
    }

    /// The monitoring configurations by id.
    pub closed spec fn configs(&self) -> Map<Seq<char>, MonitorConfig> {
        self.configs@
    }

    /// Every registered process has a configuration, and has not been
    /// restarted more often than that configuration allows.
    pub open spec fn wf(&self) -> bool {
        &&& self.processes().dom() == self.configs().dom()
        &&& forall|id: Seq<char>| #[trigger] self.processes().dom().contains(id)
            ==> self.processes()[id].restart_count <= self.configs()[id].max_restart_attempts
    }

    /// The configuration of a process, or the standard one.
    pub open spec fn config_of(&self, id: Seq<char>) -> MonitorConfig {
        if self.configs().dom().contains(id) { self.configs()[id] } else { MonitorConfig::standard() }
    }

    /// A monitor with nothing registered.
    pub fn new() -> (res: Self)
        ensures
            res.wf(),
            res.processes() == Map::<Seq<char>, ProcessInfo>::empty(),
    {
        let res = ProcessMonitor { processes: StringMap::new(), configs: StringMap::new() };
        assert(res.processes().dom() =~= res.configs().dom());
        res
    }

    /// `after` is `before` with `process_id` registered under `config`:
    /// stopped, with no pid, no restarts yet, and `now_ms` as its start time;
    /// a registration under the same id is replaced.
    pub open spec fn registered(before: ProcessMonitor, after: ProcessMonitor, process_id: Seq<char>,
        process_name: String, config: MonitorConfig, now_ms: i64) -> bool {
        &&& after.configs() == before.configs().insert(process_id, config)
        &&& after.processes() == before.processes().insert(process_id, ProcessInfo {
            name: process_name,
            pid: None,
            start_time_ms: now_ms,
            status: ProcessStatus::Stopped,
            restart_count: 0,
            last_restart_ms: None,
        })
    }

    /// Register a process for monitoring at `now_ms`, stopped, with no
    /// restarts yet and that time as its start time; a registration under the
    /// same id is replaced.
    pub fn register_process_at(&mut self, process_id: String, process_name: String, config: MonitorConfig, now_ms: i64)
        -> (res: MindLinkResult<()>)
        requires
            old(self).wf(),
        ensures
            final(self).wf(),
            res is Ok,
            Self::registered(*old(self), *final(self), process_id@, process_name, config, now_ms),
    {
        let info = ProcessInfo {
            name: process_name,
            pid: None,
            start_time_ms: now_ms,
            status: ProcessStatus::Stopped,
            restart_count: 0,
            last_restart_ms: None,
        };
        let key = process_id.clone();
        self.processes.insert(key, info);
        self.configs.insert(process_id, config);
        assert(self.processes().dom() =~= self.configs().dom());
        Ok(())
    }

    /// Register a process for monitoring now (see `register_process_at`).
    /// Refused, with nothing changed, when the clock cannot be read.
    pub fn register_process(&mut self, process_id: String, process_name: String, config: MonitorConfig) -> (res: MindLinkResult<()>)
        requires
            old(self).wf(),
        ensures
            final(self).wf(),
            res is Err ==> (res matches Err(e) && e.is_resource("System clock unavailable"@, "clock"@, None))
                && *final(self) == *old(self),
            res is Ok ==> exists|t: i64| 0 <= t && #[trigger] in_utc_range(t as int)
                && Self::registered(*old(self), *final(self), process_id@, process_name, config, t),
    {
        match now_millis() {
            Some(t) => self.register_process_at(process_id, process_name, config, t),
            None => Err(MindLinkError::SystemResource {
                message: owned("System clock unavailable"),
                resource_type: owned("clock"),
                source: None,
            }),
        }
    }

    /// The configuration of a process, or the standard one when it has none.
    pub fn config_for(&self, process_id: &str) -> (res: MonitorConfig)
        ensures
            res == self.config_of(process_id@),
    {
        match self.configs.get(process_id) {
            Some(c) => *c,
            None => MonitorConfig::default(),
        }
    }

    /// Start monitoring a registered process that was given `pid`: it becomes
    /// starting.  An unregistered process is an error and nothing changes.
    pub fn begin_monitoring(&mut self, process_id: &str, pid: Option<u32>) -> (res: MindLinkResult<()>)
        requires
            old(self).wf(),
        ensures
            final(self).wf(),
            final(self).configs() == old(self).configs(),
            match res {
                Ok(()) => old(self).processes().dom().contains(process_id@)
                    && final(self).processes() == old(self).processes().insert(process_id@,
                        ProcessInfo { pid, status: ProcessStatus::Starting, ..old(self).processes()[process_id@] }),
                Err(e) => {
                    &&& !old(self).processes().dom().contains(process_id@)
                    &&& final(self).processes() == old(self).processes()
                    &&& e matches MindLinkError::ProcessMonitoring { message, process_name, pid: epid, source }
                        && message@ == "Process not registered"@ && process_name@ == process_id@
                        && epid == pid && source is None
                },
            },
    {
        match self.processes.remove(process_id) {
            Some(info) => {
                let updated = ProcessInfo { pid, status: ProcessStatus::Starting, ..info };
                self.processes.insert(owned(process_id), updated);
                assert(self.processes() =~= old(self).processes().insert(process_id@, updated));
                assert(self.processes().dom() =~= old(self).processes().dom());
                Ok(())
            },
            None => {
                assert(self.processes() =~= old(self).processes());
                Err(MindLinkError::ProcessMonitoring {
                message: owned("Process not registered"),
                process_name: owned(process_id),
                pid,
                source: None,
            })
            },
        }
    }

    /// Replace the status and pid of a registered process; others are left alone.
    fn set_state(&mut self, process_id: &str, status: ProcessStatus, pid: Option<u32>)
        requires
            old(self).wf(),
        ensures
            final(self).wf(),
            final(self).configs() == old(self).configs(),
            final(self).processes() == (if old(self).processes().dom().contains(process_id@) {
                old(self).processes().insert(process_id@,
                    ProcessInfo { status, pid, ..old(self).processes()[process_id@] })
            } else {
                old(self).processes()
            }),
    {
        match self.processes.remove(process_id) {
            Some(info) => {
                let updated = ProcessInfo { status, pid, ..info };
                self.processes.insert(owned(process_id), updated);
                assert(self.processes() =~= old(self).processes().insert(process_id@, updated));
                assert(self.processes().dom() =~= old(self).processes().dom());
            },
            None => {
                assert(self.processes() =~= old(self).processes());
            },
        }
    }

    /// The process has come up: it becomes running, keeping its pid.
    pub fn mark_running(&mut self, process_id: &str)
        requires
            old(self).wf(),
        ensures
            final(self).wf(),
            final(self).configs() == old(self).configs(),
            final(self).processes() == (if old(self).processes().dom().contains(process_id@) {
                old(self).processes().insert(process_id@,
                    ProcessInfo { status: ProcessStatus::Running, ..old(self).processes()[process_id@] })
            } else {
                old(self).processes()
            }),
    {
        let pid = match self.processes.get(process_id) {
            Some(info) => info.pid,
            None => None,
        };
        self.set_state(process_id, ProcessStatus::Running, pid);
        proof {
            if old(self).processes().dom().contains(process_id@) {
                assert(ProcessInfo { status: ProcessStatus::Running, pid, ..old(self).processes()[process_id@] }
                    == ProcessInfo { status: ProcessStatus::Running, ..old(self).processes()[process_id@] });
            }
        }
    }

    /// The process exited with `exit_code`: it is stopped when the exit was
    /// successful and crashed otherwise, and has no pid.  The event reports it.
    pub fn process_exited(&mut self, process_id: &str, success: bool, exit_code: Option<i32>) -> (res: ProcessEvent)
        requires
            old(self).wf(),
        ensures
            final(self).wf(),
            final(self).configs() == old(self).configs(),
            final(self).processes() == (if old(self).processes().dom().contains(process_id@) {
                old(self).processes().insert(process_id@, ProcessInfo {
                    status: if success { ProcessStatus::Stopped } else { ProcessStatus::Crashed },
                    pid: None,
                    ..old(self).processes()[process_id@]
                })
            } else {
                old(self).processes()
            }),
            res matches ProcessEvent::Stopped { process_id: p, exit_code: c } && p@ == process_id@ && c == exit_code,
    {
        let status = if success { ProcessStatus::Stopped } else { ProcessStatus::Crashed };
        self.set_state(process_id, status, None);
        ProcessEvent::Stopped { process_id: owned(process_id), exit_code }
    }

    /// The status of the process could not be checked (`reason` says why): it
    /// has failed and has no pid.  The event reports it as crashed.
    pub fn status_check_failed(&mut self, process_id: &str, reason: &str) -> (res: ProcessEvent)
        requires
            old(self).wf(),
        ensures
            final(self).wf(),
            final(self).configs() == old(self).configs(),
            final(self).processes() == (if old(self).processes().dom().contains(process_id@) {
                old(self).processes().insert(process_id@,
                    ProcessInfo { status: ProcessStatus::Failed, pid: None, ..old(self).processes()[process_id@] })
            } else {
                old(self).processes()
            }),
            res matches ProcessEvent::Crashed { process_id: p, error } && p@ == process_id@
                && error@ == "Failed to check process status: "@ + reason@,
    {
        self.set_state(process_id, ProcessStatus::Failed, None);
        ProcessEvent::Crashed {
            process_id: owned(process_id),
            error: cat2("Failed to check process status: ", reason),
        }
    }

    /// The process was stopped on request: it is stopped and has no pid.
    pub fn mark_stopped(&mut self, process_id: &str)
        requires
            old(self).wf(),
        ensures
            final(self).wf(),
            final(self).configs() == old(self).configs(),
            final(self).processes() == (if old(self).processes().dom().contains(process_id@) {
                old(self).processes().insert(process_id@,
                    ProcessInfo { status: ProcessStatus::Stopped, pid: None, ..old(self).processes()[process_id@] })
            } else {
                old(self).processes()
            }),
    {
        self.set_state(process_id, ProcessStatus::Stopped, None);
    }

    /// Information about a monitored process.
    pub fn get_process_info(&self, process_id: &str) -> (res: Option<ProcessInfo>)
        ensures
            match res {
                Some(info) => self.processes().dom().contains(process_id@) && info == self.processes()[process_id@],
                None => !self.processes().dom().contains(process_id@),
            },
    {
        match self.processes.get(process_id) {
            Some(info) => Some(info.duplicate()),
            None => None,
        }
    }

    /// Information about all monitored processes.
    pub fn get_all_processes(&self) -> (res: &StringMap<ProcessInfo>)
        ensures
            res@ == self.processes(),
    {
        &self.processes
    }

    /// Whether a process is registered and starting or running.
    pub fn is_process_running(&self, process_id: &str) -> (res: bool)
        ensures
            res == (self.processes().dom().contains(process_id@) && self.processes()[process_id@].status.is_live()),
    {
        match self.processes.get(process_id) {
            Some(info) => match info.status {
                ProcessStatus::Running | ProcessStatus::Starting => true,
                _ => false,
            },
            None => false,
        }
    }

    /// Whether `process_id` is registered and may still be restarted.
    pub open spec fn below_limit(self, process_id: Seq<char>) -> bool {
        self.processes().dom().contains(process_id)
            && self.processes()[process_id].restart_count < self.configs()[process_id].max_restart_attempts
    }

    /// The outcome of preparing a restart of `process_id` at `now_ms`, taking
    /// `before` to `after`: an unknown process is refused with no event; one
    /// whose restarts are used up is refused and the limit announced; any
    /// other has one more restart counted, stamped `now_ms`, and announced.
    pub open spec fn restarted(before: ProcessMonitor, after: ProcessMonitor, process_id: Seq<char>, now_ms: i64,
        res: (Option<ProcessEvent>, MindLinkResult<()>)) -> bool {
        if !before.processes().dom().contains(process_id) {
            &&& after.processes() == before.processes()
            &&& res.0 is None
            &&& res.1 matches Err(MindLinkError::ProcessMonitoring { message, process_name, pid, source })
                && message@ == "Process not found for restart"@ && process_name@ == process_id
                && pid is None && source is None
        } else {
            let info = before.processes()[process_id];
            let max = before.configs()[process_id].max_restart_attempts;
            if info.restart_count >= max {
                &&& after.processes() == before.processes()
                &&& res.0 matches Some(ProcessEvent::RestartLimitReached { process_id: p }) && p@ == process_id
                &&& res.1 matches Err(MindLinkError::ProcessMonitoring { message, process_name, pid, source })
                    && message@ == "Restart limit reached ("@ + decimal(max as nat) + " attempts)"@
                    && process_name@ == process_id && pid is None && source is None
            } else {
                &&& after.processes() == before.processes().insert(process_id, ProcessInfo {
                    restart_count: (info.restart_count + 1) as u32,
                    last_restart_ms: Some(now_ms),
                    ..info
                })
                &&& res.0 matches Some(ProcessEvent::RestartAttempted { process_id: p, attempt })
                    && p@ == process_id && attempt == info.restart_count + 1
                &&& res.1 is Ok
            }
        }
    }

    /// Prepare a restart of a process at `now_ms` (see `restarted`).
    pub fn restart_at(&mut self, process_id: &str, now_ms: i64) -> (res: (Option<ProcessEvent>, MindLinkResult<()>))
        requires
            old(self).wf(),
        ensures
            final(self).wf(),
            final(self).configs() == old(self).configs(),
            Self::restarted(*old(self), *final(self), process_id@, now_ms, res),
    {
        let max = self.config_for(process_id).max_restart_attempts;
        match self.processes.remove(process_id) {
            Some(info) => {
                if info.restart_count >= max {
                    self.processes.insert(owned(process_id), info);
                    assert(self.processes() =~= old(self).processes());
                    let digits = decimal_string(max as u64);
                    let err = MindLinkError::ProcessMonitoring {
                        message: cat3("Restart limit reached (", digits.as_str(), " attempts)"),
                        process_name: owned(process_id),
                        pid: None,
                        source: None,
                    };
                    (Some(ProcessEvent::RestartLimitReached { process_id: owned(process_id) }), Err(err))
                } else {
                    let attempt = info.restart_count + 1;
                    let updated = ProcessInfo { restart_count: attempt, last_restart_ms: Some(now_ms), ..info };
                    self.processes.insert(owned(process_id), updated);
                    assert(self.processes() =~= old(self).processes().insert(process_id@, updated));
                    assert(self.processes().dom() =~= old(self).processes().dom());
                    assert forall|id: Seq<char>| #[trigger] self.processes().dom().contains(id)
                        implies self.processes()[id].restart_count <= self.configs()[id].max_restart_attempts by {
                        if id == process_id@ {
                            assert(self.configs()[id].max_restart_attempts == max);
                        }
                    }
                    (Some(ProcessEvent::RestartAttempted { process_id: owned(process_id), attempt }), Ok(()))
                }
            },
            None => {
                assert(self.processes() =~= old(self).processes());
                let err = MindLinkError::ProcessMonitoring {
                    message: owned("Process not found for restart"),
                    process_name: owned(process_id),
                    pid: None,
                    source: None,
                };
                (None, Err(err))
            },
        }
    }

    /// Prepare a restart of a process now (see `restart_at`).  The clock is
    /// read only for a restart that goes ahead; when it cannot be read, that
    /// restart is refused with no event and nothing changed.
    pub fn prepare_restart(&mut self, process_id: &str) -> (res: (Option<ProcessEvent>, MindLinkResult<()>))
        requires
            old(self).wf(),
        ensures
            final(self).wf(),
            final(self).configs() == old(self).configs(),
            !old(self).below_limit(process_id@) ==> Self::restarted(*old(self), *final(self), process_id@, 0, res),
            old(self).below_limit(process_id@) ==> {
                ||| {
                    &&& *final(self) == *old(self)
                    &&& res.0 is None
                    &&& res.1 matches Err(e) && e.is_resource("System clock unavailable"@, "clock"@, None)
                }
                ||| exists|t: i64| 0 <= t && #[trigger] in_utc_range(t as int)
                    && Self::restarted(*old(self), *final(self), process_id@, t, res)
            },
    {
        let max = self.config_for(process_id).max_restart_attempts;
        let goes_ahead = match self.processes.get(process_id) {
            Some(info) => info.restart_count < max,
            None => false,
        };
        if !goes_ahead {
            return self.restart_at(process_id, 0);
        }
        match now_millis() {
            Some(t) => self.restart_at(process_id, t),
            None => {
                let err = MindLinkError::SystemResource {
                    message: owned("System clock unavailable"),
                    resource_type: owned("clock"),
                    source: None,
                };
                (None, Err(err))
            },
        }
    }

    /// Forget a process and its configuration.
    pub fn unregister_process(&mut self, process_id: &str) -> (res: MindLinkResult<()>)
        requires
            old(self).wf(),
        ensures
            final(self).wf(),
            res is Ok,
            final(self).processes() == old(self).processes().remove(process_id@),
            final(self).configs() == old(self).configs().remove(process_id@),
    {
        self.processes.remove(process_id);
        self.configs.remove(process_id);
        assert(self.processes().dom() =~= self.configs().dom());
        Ok(())
    }
}

} // verus!
