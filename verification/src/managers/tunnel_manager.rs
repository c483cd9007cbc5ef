//! The Cloudflare tunnel that makes the local API reachable from outside:
//! how it is opened, how cloudflared's output is read, and its state.

use vstd::prelude::*;
use crate::managers::binary_manager::CommandSpec;
use crate::text::{cat2, cat3, contains, decimal, decimal_string, occurs_in, opt_text, owned, views};

verus! {

broadcast use vstd::string::group_string_axioms;

/// Whether a character may appear in the name of a quick tunnel.
pub open spec fn host_char(c: char) -> bool {
    ('a' <= c <= 'z') || ('A' <= c <= 'Z') || ('0' <= c <= '9') || c == '-'
}

/// Whether `https://`, a run of `k` name characters and
/// `.trycloudflare.com` start at position `i` of `s`.
pub open spec fn quick_url_at(s: Seq<char>, i: int, k: int) -> bool {
    &&& 0 <= i
    &&& 1 <= k
    &&& i + k + 26 <= s.len()
    &&& s.subrange(i, i + 8) == "https://"@
    &&& forall|j: int| i + 8 <= j < i + 8 + k ==> host_char(#[trigger] s[j])
    &&& s.subrange(i + 8 + k, i + k + 26) == ".trycloudflare.com"@
}

/// The quick tunnel address in a line, as the pattern
/// `https://[a-zA-Z0-9-]+\.trycloudflare\.com` finds it (the leftmost match).
#[verifier::external_body]
pub(crate) fn find_tunnel_url(line: &str) -> (res: Option<String>)
    ensures
        match res {
            Some(u) => exists|i: int, k: int| quick_url_at(line@, i, k)
                && (forall|i2: int, k2: int| 0 <= i2 < i ==> !quick_url_at(line@, i2, k2))
                && u@ == line@.subrange(i, i + k + 26),
            None => forall|i: int, k: int| !quick_url_at(line@, i, k),
        },
{
    match regex::Regex::new(r"https://[a-zA-Z0-9-]+\.trycloudflare\.com") {
        Ok(re) => match re.find(line) {
            Some(m) => Some(m.as_str().to_string()),
            None => None,
        },
        Err(_) => None,
    }
}

/// The kind of tunnel opened.
pub enum TunnelType {
    /// A temporary `trycloudflare.com` tunnel.
    Quick,
    /// A tunnel with this name.
    Named(String),
}

/// What a line of cloudflared's output tells while the tunnel opens.
pub enum OutputVerdict {
    /// The tunnel's address.
    Address(String),
    /// The tunnel cannot be opened, for this reason.
    Failed(String),
    /// Nothing decisive: read on.
    Continue,
}

/// What a line of cloudflared's standard output tells: the tunnel's address
/// when the line holds one.
pub fn stdout_verdict(line: &str) -> (res: OutputVerdict)
    ensures
        match res {
            OutputVerdict::Address(u) => exists|i: int, k: int| quick_url_at(line@, i, k)
                && (forall|i2: int, k2: int| 0 <= i2 < i ==> !quick_url_at(line@, i2, k2))
                && u@ == line@.subrange(i, i + k + 26),
            OutputVerdict::Failed(_) => false,
            OutputVerdict::Continue => forall|i: int, k: int| !quick_url_at(line@, i, k),
        },
{
    match find_tunnel_url(line) {
        Some(u) => OutputVerdict::Address(u),
        None => OutputVerdict::Continue,
    }
}

/// What a line of cloudflared's standard error tells: a refused or unknown
/// local server, a missing login, or a failed tunnel stop the opening.
pub open spec fn stderr_outcome(line: Seq<char>) -> Option<Seq<char>> {
    if occurs_in("connection refused"@, line) || occurs_in("no such host"@, line) {
        Some("Local server not accessible: "@ + line)
    } else if occurs_in("authentication"@, line) || occurs_in("login"@, line) {
        Some("Cloudflare authentication required: "@ + line)
    } else if occurs_in("failed"@, line) && occurs_in("tunnel"@, line) {
        Some("Tunnel creation failed: "@ + line)
    } else {
        None
    }
}

/// What a line of cloudflared's standard error tells.
pub fn stderr_verdict(line: &str) -> (res: OutputVerdict)
    ensures
        match stderr_outcome(line@) {
            Some(m) => res matches OutputVerdict::Failed(e) && e@ == m,
            None => res is Continue,
        },
{
    if contains(line, "connection refused") || contains(line, "no such host") {
        OutputVerdict::Failed(cat2("Local server not accessible: ", line))
    } else if contains(line, "authentication") || contains(line, "login") {
        OutputVerdict::Failed(cat2("Cloudflare authentication required: ", line))
    } else if contains(line, "failed") && contains(line, "tunnel") {
        OutputVerdict::Failed(cat2("Tunnel creation failed: ", line))
    } else {
        OutputVerdict::Continue
    }
}

/// How long, in seconds, cloudflared is given to report the address.
pub const TUNNEL_URL_TIMEOUT_SECS: u64 = 30;

/// The error when cloudflared did not report the address in time.
pub fn tunnel_timeout_error() -> (res: String)
    ensures
        res@ == "Timeout waiting for tunnel URL (30 seconds)"@,
{
    owned("Timeout waiting for tunnel URL (30 seconds)")
}

/// The error when cloudflared could not be started.
pub fn tunnel_spawn_error(reason: &str) -> (res: String)
    ensures
        res@ == "Failed to spawn cloudflared process: "@ + reason@,
{
    cat2("Failed to spawn cloudflared process: ", reason)
}

/// How opening the tunnel goes.
pub enum TunnelPlan {
    /// It is open already, at this address.
    Existing(String),
    /// Start cloudflared for a quick tunnel to the local port.
    Quick,
    /// Open the named tunnel.
    Named(String),
}

/// The address of a named tunnel.
pub open spec fn named_url(name: Seq<char>) -> Seq<char> {
    "https://"@ + name + ".yourdomain.com"@
}

/// The tunnel that makes the local API reachable from outside.
pub struct TunnelManager {
    current_url: Option<String>,
    tunnel_type: TunnelType,
    local_port: u16,
    is_connected: bool,
    cloudflared_path: Option<String>,
}

impl TunnelManager {
    pub closed spec fn url(&self) -> Option<Seq<char>> {
        opt_text(self.current_url)
    }

    pub closed spec fn kind(&self) -> TunnelType {
        self.tunnel_type
    }

    pub closed spec fn port(&self) -> u16 {
        self.local_port
    }

    pub closed spec fn connected(&self) -> bool {
        self.is_connected
    }

    pub closed spec fn cloudflared(&self) -> Option<Seq<char>> {
        opt_text(self.cloudflared_path)
    }

    /// A closed quick tunnel to port 3001.
    pub fn new() -> (res: Self)
        ensures
            res.url() is None,
            res.kind() is Quick,
            res.port() == 3001,
            !res.connected(),
            res.cloudflared() is None,
    {
        TunnelManager {
            current_url: None,
            tunnel_type: TunnelType::Quick,
            local_port: 3001,
            is_connected: false,
            cloudflared_path: None,
        }
    }

    /// The tunnel's address, when one was opened.
    pub fn get_current_url(&self) -> (res: Option<String>)
        ensures
            opt_text(res) == self.url(),
    {
        self.current_url.clone()
    }

    /// Whether the tunnel is open.
    pub fn is_connected(&self) -> (res: bool)
        ensures
            res == self.connected(),
    {
        self.is_connected
    }

    /// The cloudflared binary found before, if any.
    pub fn cached_cloudflared(&self) -> (res: Option<String>)
        ensures
            opt_text(res) == self.cloudflared(),
    {
        self.cloudflared_path.clone()
    }

    /// Remember where cloudflared is.
    pub fn remember_cloudflared(&mut self, path: String)
        ensures
            final(self).cloudflared() == Some(path@),
            final(self).url() == old(self).url(),
            final(self).kind() == old(self).kind(),
            final(self).port() == old(self).port(),
            final(self).connected() == old(self).connected(),
    {
        self.cloudflared_path = Some(path);
    }

    /// How opening the tunnel goes: an open tunnel with an address is kept;
    /// otherwise a quick tunnel is started or the named one opened.
    pub fn plan_tunnel(&self) -> (res: TunnelPlan)
        ensures
            self.connected() && self.url() is Some ==> (res matches TunnelPlan::Existing(u)
                && Some(u@) == self.url()),
            !(self.connected() && self.url() is Some) ==> match self.kind() {
                TunnelType::Quick => res is Quick,
                TunnelType::Named(n) => res matches TunnelPlan::Named(m) && m@ == n@,
            },
    {
        if self.is_connected {
            if let Some(u) = &self.current_url {
                return TunnelPlan::Existing(u.clone());
            }
        }
        match &self.tunnel_type {
            TunnelType::Quick => TunnelPlan::Quick,
            TunnelType::Named(n) => TunnelPlan::Named(n.clone()),
        }
    }

    /// The command that starts a quick tunnel to the local port with the
    /// cloudflared binary at `cloudflared`.
    pub fn quick_tunnel_command(&self, cloudflared: &str) -> (res: CommandSpec)
        ensures
            res.runs(cloudflared@, seq!["tunnel"@, "--url"@, "http://localhost:"@ + decimal(self.port() as nat),
                "--no-autoupdate"@]),
    {
        let p = decimal_string(self.local_port as u64);
        let mut args: Vec<String> = Vec::new();
        args.push(owned("tunnel"));
        args.push(owned("--url"));
        args.push(cat2("http://localhost:", p.as_str()));
        args.push(owned("--no-autoupdate"));
        assert(views(args@) =~= seq!["tunnel"@, "--url"@, "http://localhost:"@ + decimal(self.port() as nat),
            "--no-autoupdate"@]);
        CommandSpec { program: owned(cloudflared), args }
    }

    /// The tunnel opened at `url`.
    pub fn tunnel_opened(&mut self, url: String)
        ensures
            final(self).url() == Some(url@),
            final(self).connected(),
            final(self).kind() == old(self).kind(),
            final(self).port() == old(self).port(),
            final(self).cloudflared() == old(self).cloudflared(),
    {
        self.current_url = Some(url);
        self.is_connected = true;
    }

    /// Open the named tunnel `name`: its address.
    pub fn open_named_tunnel(&mut self, name: &str) -> (res: String)
        ensures
            res@ == named_url(name@),
            final(self).url() == Some(named_url(name@)),
            final(self).connected(),
            final(self).kind() == old(self).kind(),
            final(self).port() == old(self).port(),
            final(self).cloudflared() == old(self).cloudflared(),
    {
        let url = cat3("https://", name, ".yourdomain.com");
        self.current_url = Some(url.clone());
        self.is_connected = true;
        url
    }

    /// Whether closing has anything to do: only an open tunnel is closed.
    pub fn close_needed(&self) -> (res: bool)
        ensures
            res == self.connected(),
    {
        self.is_connected
    }

    /// The tunnel was closed: no address, not connected.
    pub fn tunnel_closed(&mut self)
        ensures
            final(self).url() is None,
            !final(self).connected(),
            final(self).kind() == old(self).kind(),
            final(self).port() == old(self).port(),
            final(self).cloudflared() == old(self).cloudflared(),
    {
        self.current_url = None;
        self.is_connected = false;
    }

    /// The address to probe for the tunnel's health, given whether its
    /// process is still alive; `None` when it is unhealthy without a probe
    /// (closed, or its process died, which also marks it closed, or no
    /// address).
    pub fn health_probe(&mut self, process_alive: bool) -> (res: Option<String>)
        ensures
            final(self).url() == old(self).url(),
            final(self).kind() == old(self).kind(),
            final(self).port() == old(self).port(),
            final(self).cloudflared() == old(self).cloudflared(),
            final(self).connected() == (old(self).connected() && process_alive),
            match res {
                Some(u) => old(self).connected() && process_alive
                    && (old(self).url() matches Some(a) && u@ == a + "/health"@),
                None => !(old(self).connected() && process_alive && old(self).url() is Some),
            },
    {
        if !self.is_connected {
            return None;
        }
        if !process_alive {
            self.is_connected = false;
            return None;
        }
        match &self.current_url {
            Some(u) => Some(cat2(u.as_str(), "/health")),
            None => None,
        }
    }

    /// Change the kind of tunnel; refused (and `false`) while it is open.
    pub fn set_tunnel_type(&mut self, tunnel_type: TunnelType) -> (applied: bool)
        ensures
            applied == !old(self).connected(),
            final(self).kind() == (if applied { tunnel_type } else { old(self).kind() }),
            final(self).url() == old(self).url(),
            final(self).port() == old(self).port(),
            final(self).connected() == old(self).connected(),
            final(self).cloudflared() == old(self).cloudflared(),
    {
        if self.is_connected {
            return false;
        }
        self.tunnel_type = tunnel_type;
        true
    }

    /// Change the local port; refused (and `false`) while it is open.
    pub fn set_local_port(&mut self, port: u16) -> (applied: bool)
        ensures
            applied == !old(self).connected(),
            final(self).port() == (if applied { port } else { old(self).port() }),
            final(self).url() == old(self).url(),
            final(self).kind() == old(self).kind(),
            final(self).connected() == old(self).connected(),
            final(self).cloudflared() == old(self).cloudflared(),
    {
        if self.is_connected {
            return false;
        }
        self.local_port = port;
        true
    }
}

} // verus!
