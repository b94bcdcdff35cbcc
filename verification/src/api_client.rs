//! REST client configuration for the provisioning server's HTTP API.
//!
//! The HTTP transport and the JSON codec live with the application; the
//! client state (base address, bearer token), the endpoint paths and the
//! classification of HTTP failures are decided here.

use vstd::prelude::*;

verus! {

/// A virtual-machine category as the API reports it.
#[derive(Debug, Clone)]
pub struct VMCategory {
    pub name: String,
    pub description: String,
}

/// One DHCP lease.
#[derive(Debug, Clone)]
pub struct DHCPLease {
    pub mac: String,
    pub ip: String,
    pub hostname: Option<String>,
    pub expires_at: Option<String>,
    pub state: String,
}

/// One connected netboot client.
#[derive(Debug, Clone)]
pub struct ConnectedClient {
    pub mac: String,
    pub ip: String,
    pub hostname: Option<String>,
    pub connected_at: String,
    pub last_seen: String,
}

/// The API's answer to the lease listing.
#[derive(Debug)]
pub struct DHCPLeasesResponse {
    pub leases: Vec<DHCPLease>,
    pub count: usize,
}

/// The API's answer to the connected-client listing.
#[derive(Debug)]
pub struct ConnectedClientsResponse {
    pub clients: Vec<ConnectedClient>,
    pub count: usize,
}

/// Network counters per interface.
#[derive(Debug)]
pub struct NetworkMetrics {
    pub interfaces: Vec<NetworkInterface>,
}

#[derive(Debug)]
pub struct NetworkInterface {
    pub name: String,
    pub rx_bytes: u64,
    pub tx_bytes: u64,
    pub rx_packets: u64,
    pub tx_packets: u64,
}

/// One netboot menu entry.
#[derive(Debug, Clone)]
pub struct IPXEEntry {
    pub id: String,
    pub name: String,
    pub description: Option<String>,
    pub menu_type: String,
    pub boot_target: Option<String>,
    pub enabled: bool,
}

/// One per-client copy-on-write overlay of a virtual machine image.
#[derive(Debug, Clone)]
pub struct VMOverlay {
    pub id: String,
    pub vm_id: String,
    pub mac_address: String,
    pub overlay_path: String,
    pub size: u64,
    pub created_at: String,
    pub updated_at: String,
}

/// The API's answer to the overlay listing.
#[derive(Debug)]
pub struct OverlaysResponse {
    pub overlays: Vec<VMOverlay>,
    pub count: usize,
}

/// Outcome of a server-side repair run.
#[derive(Debug, Clone)]
pub struct RepairResult {
    pub success: bool,
    pub message: String,
    pub details: Option<String>,
}

/// One problem a repair scan found.
#[derive(Debug, Clone)]
pub struct RepairProblem {
    pub id: String,
    pub severity: String,
    pub description: String,
    pub category: String,
}

/// Outcome of a server-side self test.
#[derive(Debug, Clone)]
pub struct TestResult {
    pub success: bool,
    pub message: String,
    pub details: Option<String>,
    pub duration_ms: Option<u64>,
}

/// Security counters.
#[derive(Debug, Clone)]
pub struct SecurityMetrics {
    pub threats_detected: u64,
    pub active_threats: u64,
    pub blocked_ips: u64,
    pub failed_logins: u64,
}

/// A classified API failure.
#[derive(Debug)]
pub enum APIError {
    NetworkError(String),
    AuthError(String),
    NotFound(String),
    ServerError(String),
    ParseError(String),
}

/// `s` with every trailing `/` removed.
pub open spec fn trim_end_slashes(s: Seq<char>) -> Seq<char>
    decreases s.len(),
{
    if s.len() > 0 && s[s.len() - 1] == '/' {
        trim_end_slashes(s.drop_last())
    } else {
        s
    }
}

proof fn lemma_trim_end_slashes_at(s: Seq<char>, b: int)
    requires
        0 <= b <= s.len(),
        forall|j: int| b <= j < s.len() ==> s[j] == '/',
        b > 0 ==> s[b - 1] != '/',
    ensures
        trim_end_slashes(s) =~= s.subrange(0, b),
    decreases s.len(),
{
    if s.len() > 0 && s[s.len() - 1] == '/' {
        assert(b < s.len());
        lemma_trim_end_slashes_at(s.drop_last(), b);
        assert(s.drop_last().subrange(0, b) =~= s.subrange(0, b));
    } else {
        assert(b == s.len());
    }
}

/// Client state for the provisioning server's HTTP API.
pub struct APIClient {
    base_url: String,
    auth_token: Option<String>,
}

impl APIClient {
    pub closed spec fn spec_base_url(&self) -> Seq<char> {
        self.base_url@
    }

    pub closed spec fn spec_auth_token(&self) -> Option<String> {
        self.auth_token
    }

    /// A client for the server at `base_url`; trailing slashes are dropped
    /// so endpoint paths can be appended directly.
    pub fn new(base_url: String) -> (c: APIClient)
        ensures
            c.spec_base_url() == trim_end_slashes(base_url@),
            c.spec_auth_token() is None,
    {
        let s = base_url.as_str();
        let n = s.unicode_len();
        let mut b: usize = n;
        while b > 0 && s.get_char(b - 1) == '/'
            invariant
                0 <= b <= n,
                n == s@.len(),
                forall|j: int| b <= j < n ==> s@[j] == '/',
            decreases b,
        {
            b = b - 1;
        }
        proof {
            lemma_trim_end_slashes_at(s@, b as int);
        }
        let trimmed = s.substring_char(0, b);
        APIClient { base_url: String::from_str(trimmed), auth_token: None }
    }

    /// The same client, authenticating with the given bearer token.
    pub fn with_auth_token(self, token: String) -> (c: APIClient)
        ensures
            c.spec_base_url() == self.spec_base_url(),
            c.spec_auth_token() == Some(token),
    {
        APIClient { base_url: self.base_url, auth_token: Some(token) }
    }

    /// The full URL of an endpoint.
    pub fn url_for(&self, endpoint: &str) -> (u: String)
        ensures
            u@ == self.spec_base_url() + endpoint@,
    {
        self.base_url.clone().concat(endpoint)
    }

    /// The `Authorization` header value, when a token is set.
    pub fn auth_header(&self) -> (h: Option<String>)
        ensures
            self.spec_auth_token() matches Some(t) ==> (h matches Some(v) && v@ == "Bearer "@
                + t@),
            self.spec_auth_token() is None ==> h is None,
    {
        match &self.auth_token {
            Some(t) => Some(String::from_str("Bearer ").concat(t.as_str())),
            None => None,
        }
    }

    /// The endpoint that lists virtual machines, optionally by category.
    pub fn vms_endpoint(category: Option<&str>) -> (e: String)
        ensures
            category matches Some(c) ==> e@ == "/api/vms?category="@ + c@,
            category is None ==> e@ == "/api/vms"@,
    {
        match category {
            Some(c) => String::from_str("/api/vms?category=").concat(c),
            None => String::from_str("/api/vms"),
        }
    }

    /// The endpoint of one virtual machine.
    pub fn vm_endpoint(id: &str) -> (e: String)
        ensures
            e@ == "/api/vms/"@ + id@,
    {
        String::from_str("/api/vms/").concat(id)
    }

    /// The compression endpoint of one virtual machine.
    pub fn vm_compress_endpoint(id: &str) -> (e: String)
        ensures
            e@ == "/api/vms/"@ + id@ + "/compress"@,
    {
        String::from_str("/api/vms/").concat(id).concat("/compress")
    }

    /// The decompression endpoint of one virtual machine.
    pub fn vm_decompress_endpoint(id: &str) -> (e: String)
        ensures
            e@ == "/api/vms/"@ + id@ + "/decompress"@,
    {
        String::from_str("/api/vms/").concat(id).concat("/decompress")
    }

    /// The endpoint of one overlay.
    pub fn overlay_endpoint(id: &str) -> (e: String)
        ensures
            e@ == "/api/overlays/"@ + id@,
    {
        String::from_str("/api/overlays/").concat(id)
    }

    /// The endpoint that looks an overlay up by hardware address.
    pub fn overlay_by_mac_endpoint(mac: &str) -> (e: String)
        ensures
            e@ == "/api/overlays/mac/"@ + mac@,
    {
        String::from_str("/api/overlays/mac/").concat(mac)
    }

    /// Classifies a failed HTTP exchange by status code: 404 means the
    /// target is missing, 401 and 403 mean the caller is not authorized,
    /// anything else is the server's failure.
    pub fn classify_http_error(code: u16, message: String) -> (e: APIError)
        ensures
            code == 404 ==> (e matches APIError::NotFound(m) && m == message),
            (code == 401 || code == 403) ==> (e matches APIError::AuthError(m) && m == message),
            (code != 404 && code != 401 && code != 403) ==> (e matches APIError::ServerError(m)
                && m == message),
    {
        if code == 404 {
            APIError::NotFound(message)
        } else if code == 401 || code == 403 {
            APIError::AuthError(message)
        } else {
            APIError::ServerError(message)
        }
    }
}

} // verus!
