//! How the commands recognise services that run outside the managers: a
//! tunnel started by hand, the local API, a router on another port.

use vstd::prelude::*;
use crate::text::{contains, occurs_in, owned, starts_with, str_eq};

verus! {

broadcast use vstd::string::group_string_axioms;

/// Whether a process list line shows a cloudflared tunnel.
pub fn is_tunnel_process(line: &str) -> (res: bool)
    ensures
        res == (occurs_in("cloudflared"@, line@) && occurs_in("tunnel"@, line@)),
{
    contains(line, "cloudflared") && contains(line, "tunnel")
}

/// Whether a process list line shows a cloudflared tunnel to the local API
/// server on port 3001.
pub fn is_local_api_tunnel(line: &str) -> (res: bool)
    ensures
        res == (occurs_in("cloudflared"@, line@) && occurs_in("tunnel"@, line@)
            && occurs_in("http://localhost:"@, line@) && occurs_in("localhost:3001"@, line@)),
{
    contains(line, "cloudflared") && contains(line, "tunnel") && contains(line, "http://localhost:")
        && contains(line, "localhost:3001")
}

/// The tunnel address that is tried when a running tunnel is detected but
/// its address is not.
pub fn known_tunnel_url() -> (res: &'static str)
    ensures
        res@ == "https://raised-hub-cat-barcelona.trycloudflare.com"@,
{
    "https://raised-hub-cat-barcelona.trycloudflare.com"
}

/// The health endpoint that tells whether the local API server runs.
pub fn local_api_health_url() -> (res: &'static str)
    ensures
        res@ == "http://127.0.0.1:3001/health"@,
{
    "http://127.0.0.1:3001/health"
}

/// The ports probed for a router started outside the manager: 3003 up to,
/// not including, 3100 (3002 is the dashboard's).
pub fn router_probe_ports() -> (res: Vec<u16>)
    ensures
        res@.len() == 97,
        forall|i: int| 0 <= i < 97 ==> #[trigger] res@[i] == 3003 + i,
{
    let mut v: Vec<u16> = Vec::new();
    let mut p: u16 = 3003;
    while p < 3100
        invariant
            3003 <= p <= 3100,
            v@.len() == p - 3003,
            forall|i: int| 0 <= i < v@.len() ==> #[trigger] v@[i] == 3003 + i,
        decreases 3100 - p,
    {
        v.push(p);
        p = p + 1;
    }
    v
}

/// The endpoints probed on each port, in order.
pub fn router_probe_endpoints() -> (res: Vec<&'static str>)
    ensures
        res@.len() == 3,
        res@[0]@ == "/v1/models"@,
        res@[1]@ == "/health"@,
        res@[2]@ == "/v1"@,
{
    let mut v: Vec<&'static str> = Vec::new();
    v.push("/v1/models");
    v.push("/health");
    v.push("/v1");
    v
}

/// Whether a successful answer from `endpoint` shows a router: any answer
/// does, but that of the model list must mention models or data, or be a
/// JSON object (`body` is its text, `None` when it could not be read).
pub fn router_answer_accepted(endpoint: &str, body: Option<&str>) -> (res: bool)
    ensures
        res == if endpoint@ == "/v1/models"@ {
            body matches Some(t) && (occurs_in("models"@, t@) || occurs_in("data"@, t@)
                || (t@.len() >= 1 && t@[0] == '{'))
        } else {
            true
        },
{
    if !str_eq(endpoint, "/v1/models") {
        return true;
    }
    match body {
        Some(t) => {
            let brace = starts_with(t, "{");
            proof {
                reveal_strlit("{");
                assert("{"@.len() == 1 && "{"@[0] == '{');
                if t@.len() >= 1 && t@[0] == '{' {
                    assert(t@.subrange(0, 1) =~= "{"@);
                }
                if brace {
                    assert(t@.subrange(0, 1)[0] == t@[0]);
                }
            }
            contains(t, "models") || contains(t, "data") || brace
        },
        None => false,
    }
}

} // verus!
