//! One-time enrollment against the Gforce control plane.
//!
//! Enrollment posts the one-time enrollment token to
//! `/api/v1/nodes/enroll` exactly once; on success the server hands back a
//! long-lived auth token that the daemon presents on every heartbeat. The
//! server rejects a token that has already been consumed, so a retry after
//! success fails explicitly rather than silently enrolling again.

use vstd::prelude::*;
use crate::config::NodeConfig;
use crate::json::{json_str_member, json_u64_member, opt_string_view, str_member, u64_member};
use crate::text::concat3;

verus! {

/// The enrollment URL of a server.
pub open spec fn enroll_url_of(use_tls: bool, server: Seq<char>) -> Seq<char> {
    (if use_tls {
        "https://"@
    } else {
        "http://"@
    }) + server + "/api/v1/nodes/enroll"@
}

/// The URL that enrollment is posted to.
pub fn enroll_url(server: &str, use_tls: bool) -> (r: String)
    ensures
        r@ == enroll_url_of(use_tls, server@),
{
    let scheme = if use_tls {
        "https://"
    } else {
        "http://"
    };
    concat3(scheme, server, "/api/v1/nodes/enroll")
}

/// The body of an enrollment request.
#[derive(Debug)]
pub struct EnrollRequest {
    pub enrollment_token: String,
    pub os: String,
    pub arch: String,
    pub hostname: String,
    pub cpu_cores: Option<u32>,
    pub ram_gb: Option<u32>,
    pub disk_gb: Option<u32>,
    pub gpu: Option<String>,
    pub agent_version: String,
}

/// A reported text, or `"unknown"` where nothing was reported.
pub open spec fn or_unknown(o: Option<String>) -> Seq<char> {
    match o {
        Some(s) => s@,
        None => "unknown"@,
    }
}

fn text_or_unknown(o: Option<String>) -> (r: String)
    ensures
        r@ == or_unknown(o),
{
    match o {
        Some(s) => s,
        None => String::from_str("unknown"),
    }
}

impl EnrollRequest {
    /// The enrollment request for a token and what the machine reports of
    /// itself; an OS, architecture or host name that was not reported is
    /// sent as `"unknown"`.
    pub fn new(
        enrollment_token: &str,
        os: Option<String>,
        arch: Option<String>,
        hostname: Option<String>,
        cpu_cores: Option<u32>,
        ram_gb: Option<u32>,
        disk_gb: Option<u32>,
        gpu: Option<String>,
        agent_version: &str,
    ) -> (r: Self)
        ensures
            r.enrollment_token@ == enrollment_token@,
            r.os@ == or_unknown(os),
            r.arch@ == or_unknown(arch),
            r.hostname@ == or_unknown(hostname),
            r.cpu_cores == cpu_cores,
            r.ram_gb == ram_gb,
            r.disk_gb == disk_gb,
            r.gpu == gpu,
            r.agent_version@ == agent_version@,
    {
        EnrollRequest {
            enrollment_token: String::from_str(enrollment_token),
            os: text_or_unknown(os),
            arch: text_or_unknown(arch),
            hostname: text_or_unknown(hostname),
            cpu_cores,
            ram_gb,
            disk_gb,
            gpu,
            agent_version: String::from_str(agent_version),
        }
    }
}

/// A reported text, or `"unknown"` where nothing was reported (over views).
pub open spec fn or_unknown_view(o: Option<Seq<char>>) -> Seq<char> {
    match o {
        Some(s) => s,
        None => "unknown"@,
    }
}

/// A count reported as a JSON number, cut to 32 bits.
pub open spec fn as_u32_count(o: Option<u64>) -> Option<u32> {
    match o {
        Some(n) => Some(n as u32),
        None => None,
    }
}

fn u32_from_u64(o: Option<u64>) -> (r: Option<u32>)
    ensures
        r == as_u32_count(o),
{
    match o {
        Some(n) => Some(n as u32),
        None => None,
    }
}

/// The enrollment request for a token and the machine's system information
/// (a JSON object with members `os`, `arch`, `hostname`, `cpu_cores`, `gpu`):
/// missing texts are sent as `"unknown"`, the core count is cut to 32 bits,
/// and the memory and disk sizes in GB are given as they were rounded.
pub fn enroll_request_from_info(
    enrollment_token: &str,
    system_info: &serde_json::Value,
    ram_gb: Option<u32>,
    disk_gb: Option<u32>,
    agent_version: &str,
) -> (r: EnrollRequest)
    ensures
        r.enrollment_token@ == enrollment_token@,
        r.os@ == or_unknown_view(json_str_member(*system_info, "os"@)),
        r.arch@ == or_unknown_view(json_str_member(*system_info, "arch"@)),
        r.hostname@ == or_unknown_view(json_str_member(*system_info, "hostname"@)),
        r.cpu_cores == as_u32_count(json_u64_member(*system_info, "cpu_cores"@)),
        r.ram_gb == ram_gb,
        r.disk_gb == disk_gb,
        opt_string_view(r.gpu) == json_str_member(*system_info, "gpu"@),
        r.agent_version@ == agent_version@,
{
    let os = str_member(system_info, "os");
    let arch = str_member(system_info, "arch");
    let hostname = str_member(system_info, "hostname");
    let cpu_cores = u32_from_u64(u64_member(system_info, "cpu_cores"));
    let gpu = str_member(system_info, "gpu");
    EnrollRequest::new(
        enrollment_token,
        os,
        arch,
        hostname,
        cpu_cores,
        ram_gb,
        disk_gb,
        gpu,
        agent_version,
    )
}

/// What the server returns for a successful enrollment.
#[derive(Debug)]
pub struct EnrollData {
    pub node_id: String,
    pub infrastructure_id: String,
    pub auth_token: String,
    pub enrolled_at: String,
}

/// Why enrollment failed.
#[derive(Debug)]
pub enum EnrollError {
    /// The server answered with a status outside 2xx; the body text is kept.
    Http { status: u16, body: String },
    /// The server's envelope carried an error (as JSON text).
    Rejected(String),
    /// The envelope carried neither data nor an error.
    NoData,
}

/// Judge the HTTP status of the enrollment reply: a status outside 2xx fails
/// with the status and the body text.
pub fn check_enroll_status(status: u16, body: String) -> (r: Result<(), EnrollError>)
    ensures
        200 <= status <= 299 ==> r is Ok,
        !(200 <= status <= 299) ==> (r matches Err(EnrollError::Http { status: s, body: b }) && s
            == status && b == body),
{
    if 200 <= status && status <= 299 {
        Ok(())
    } else {
        Err(EnrollError::Http { status, body })
    }
}

/// Judge the envelope `{data, error}` of an enrollment reply: an error in
/// it fails the enrollment, whatever the data; otherwise the data is required.
pub fn enrollment_result(error: Option<String>, data: Option<EnrollData>) -> (r: Result<
    EnrollData,
    EnrollError,
>)
    ensures
        error matches Some(e) ==> (r matches Err(EnrollError::Rejected(m)) && m == e),
        error is None && data is None ==> r matches Err(EnrollError::NoData),
        error is None ==> (data matches Some(d) ==> r == Ok::<EnrollData, EnrollError>(d)),
{
    match error {
        Some(e) => Err(EnrollError::Rejected(e)),
        None => match data {
            Some(d) => Ok(d),
            None => Err(EnrollError::NoData),
        },
    }
}

/// The configuration of a freshly enrolled node: the server-issued auth
/// token, node and infrastructure ids, the given workspace root and TLS
/// choice, an empty allow-list in restricted mode, and a 30 s heartbeat.
pub fn enrolled_config(server: &str, data: EnrollData, workspace_root: String, use_tls: bool) -> (r:
    NodeConfig)
    ensures
        r.server@ == server@,
        r.node_token == data.auth_token,
        r.node_id == Some(data.node_id),
        r.infrastructure_id == Some(data.infrastructure_id),
        r.workspace_root == workspace_root,
        r.use_tls == use_tls,
        r.allowed_commands@.len() == 0,
        !r.unrestricted_mode,
        r.heartbeat_interval_seconds == 30,
{
    NodeConfig {
        server: String::from_str(server),
        node_token: data.auth_token,
        node_id: Some(data.node_id),
        infrastructure_id: Some(data.infrastructure_id),
        workspace_root,
        use_tls,
        allowed_commands: Vec::new(),
        unrestricted_mode: false,
        heartbeat_interval_seconds: 30,
    }
}

} // verus!

verus! {

/// Enrollment goes to `/api/v1/nodes/enroll` over HTTPS exactly when TLS is on.
pub proof fn law_enroll_url(server: Seq<char>)
    ensures
        enroll_url_of(true, server) == "https://"@ + server + "/api/v1/nodes/enroll"@,
        enroll_url_of(false, server) == "http://"@ + server + "/api/v1/nodes/enroll"@,
{
}

/// A text member that is missing from the system information is sent as
/// `"unknown"`; a present one is sent as it is. A core count keeps its low
/// 32 bits.
pub proof fn law_unknown_fill(o: Option<Seq<char>>, n: u64)
    ensures
        o is None ==> or_unknown_view(o) == "unknown"@,
        o matches Some(t) ==> or_unknown_view(o) == t,
        as_u32_count(Some(n)) == Some((n % 0x1_0000_0000) as u32),
        as_u32_count(None) is None,
{
    assert((n as u32) == (n % 0x1_0000_0000) as u32) by (bit_vector);
}

} // verus!
