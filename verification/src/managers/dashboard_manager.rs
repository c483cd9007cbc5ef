//! The management dashboard served to the browser: its address and state.

use vstd::prelude::*;
use crate::managers::bifrost_manager::{base_url, base_url_string};
use crate::text::{cat2, opt_text, owned};

verus! {

broadcast use vstd::string::group_string_axioms;

/// Where the dashboard page is looked for, in order.
pub fn index_candidates() -> (res: Vec<&'static str>)
    ensures
        res@.len() == 3,
        res@[0]@ == "../dist/index.html"@,
        res@[1]@ == "dist/index.html"@,
        res@[2]@ == "./dist/index.html"@,
{
    let mut v: Vec<&'static str> = Vec::new();
    v.push("../dist/index.html");
    v.push("dist/index.html");
    v.push("./dist/index.html");
    v
}

/// The text answered when no dashboard page could be read.
pub fn index_missing() -> (res: &'static str)
    ensures
        res@ == "Dashboard not found - dist/index.html not accessible"@,
{
    "Dashboard not found - dist/index.html not accessible"
}

/// The dashboard server: its address and whether it serves.
pub struct DashboardManager {
    port: u16,
    host: String,
    is_running: bool,
}

impl DashboardManager {
    pub closed spec fn host(&self) -> Seq<char> {
        self.host@
    }

    pub closed spec fn port(&self) -> u16 {
        self.port
    }

    pub closed spec fn running(&self) -> bool {
        self.is_running
    }

    /// The dashboard's address.
    pub open spec fn url(&self) -> Seq<char> {
        base_url(self.host(), self.port())
    }

    /// A stopped dashboard on `127.0.0.1:port`.
    pub fn new(port: u16) -> (res: Self)
        ensures
            res.host() == "127.0.0.1"@,
            res.port() == port,
            !res.running(),
    {
        DashboardManager { port, host: owned("127.0.0.1"), is_running: false }
    }

    /// Whether starting has anything to do: only a stopped dashboard starts.
    pub fn start_needed(&self) -> (res: bool)
        ensures
            res == !self.running(),
    {
        !self.is_running
    }

    /// The dashboard's server bound its address and serves.
    pub fn serving(&mut self)
        ensures
            final(self).running(),
            final(self).host() == old(self).host(),
            final(self).port() == old(self).port(),
    {
        self.is_running = true;
    }

    /// Stop the dashboard (also when its server failed).
    pub fn stop(&mut self)
        ensures
            !final(self).running(),
            final(self).host() == old(self).host(),
            final(self).port() == old(self).port(),
    {
        self.is_running = false;
    }

    /// Whether the dashboard serves.
    pub fn is_running(&self) -> (res: bool)
        ensures
            res == self.running(),
    {
        self.is_running
    }

    /// The dashboard's address while it serves.
    pub fn get_local_url(&self) -> (res: Option<String>)
        ensures
            opt_text(res) == (if self.running() { Some(self.url()) } else { None }),
    {
        if self.is_running { Some(base_url_string(self.host.as_str(), self.port)) } else { None }
    }

    /// Whether it serves, with its address while it does.
    pub fn get_status_info(&self) -> (res: (bool, Option<String>))
        ensures
            res.0 == self.running(),
            opt_text(res.1) == (if self.running() { Some(self.url()) } else { None }),
    {
        (self.is_running, self.get_local_url())
    }

    /// The page probed for the dashboard's health while it serves; `None`
    /// (unhealthy) while it does not.
    pub fn health_probe(&self) -> (res: Option<String>)
        ensures
            match res {
                Some(u) => self.running() && u@ == self.url() + "/"@,
                None => !self.running(),
            },
    {
        if !self.is_running {
            return None;
        }
        let u = base_url_string(self.host.as_str(), self.port);
        Some(cat2(u.as_str(), "/"))
    }

    /// Move the dashboard to another address; refused (and `false`) while it
    /// serves.
    pub fn configure(&mut self, host: String, port: u16) -> (applied: bool)
        ensures
            applied == !old(self).running(),
            applied ==> final(self).host() == host@ && final(self).port() == port,
            !applied ==> final(self).host() == old(self).host() && final(self).port() == old(self).port(),
            final(self).running() == old(self).running(),
    {
        if self.is_running {
            return false;
        }
        self.host = host;
        self.port = port;
        true
    }
}

} // verus!
