use vstd::prelude::*;
use vstd::string::*;

verus! {

/// The service that a client talks to when none is configured.
pub const DEFAULT_BOUNTYHUB_URL: &'static str = "https://bountyhub.org";

/// A digit of base 16, lower case.
pub open spec fn lower_hex(d: int) -> char {
    if d < 10 {
        (d + 48) as char
    } else {
        (d + 87) as char
    }
}

/// A digit of base 16, upper case.
pub open spec fn upper_hex(d: int) -> char {
    if d < 10 {
        (d + 48) as char
    } else {
        (d + 55) as char
    }
}

/// The last `n` digits of `v` in base 16, lower case, most significant first.
pub open spec fn hex_digits(v: nat, n: nat) -> Seq<char>
    decreases n,
{
    if n == 0 {
        Seq::empty()
    } else {
        hex_digits(v / 16, (n - 1) as nat).push(lower_hex((v % 16) as int))
    }
}

/// The canonical text of a 128-bit identifier: 32 lower-case hex digits,
/// most significant first, in groups of 8, 4, 4, 4 and 12 joined by `-`.
pub open spec fn hyphenated(id: u128) -> Seq<char> {
    let d = hex_digits(id as nat, 32);
    d.subrange(0, 8) + seq!['-'] + d.subrange(8, 12) + seq!['-'] + d.subrange(12, 16) + seq!['-']
        + d.subrange(16, 20) + seq!['-'] + d.subrange(20, 32)
}

/// An ASCII letter or digit, as a byte.
pub open spec fn is_alnum_byte(b: u8) -> bool {
    (48 <= b && b <= 57) || (65 <= b && b <= 90) || (97 <= b && b <= 122)
}

/// `bytes` with every byte but an ASCII letter or digit written as `%`
/// and two upper-case hex digits.
pub open spec fn percent_encoded(bytes: Seq<u8>) -> Seq<char>
    decreases bytes.len(),
{
    if bytes.len() == 0 {
        Seq::empty()
    } else {
        let b = bytes[0];
        let head = if is_alnum_byte(b) {
            seq![b as char]
        } else {
            seq!['%', upper_hex(b as int / 16), upper_hex(b as int % 16)]
        };
        head + percent_encoded(bytes.drop_first())
    }
}

/// Relies on `uuid::Uuid::from_u128` and the `Display` impl of `uuid::Uuid`,
/// which writes the hyphenated lower-case form.
#[verifier::external_body]
fn id_text(id: u128) -> (r: String)
    ensures
        r@ == hyphenated(id),
{
    uuid::Uuid::from_u128(id).to_string()
}

/// Relies on `percent_encoding::utf8_percent_encode` with the
/// `NON_ALPHANUMERIC` set, which encodes each UTF-8 byte that is not an
/// ASCII letter or digit.
#[verifier::external_body]
fn encode(s: &str) -> (r: String)
    ensures
        r@ == percent_encoded(s.spec_bytes()),
{
    percent_encoding::utf8_percent_encode(s, percent_encoding::NON_ALPHANUMERIC).to_string()
}

/// Timeouts of one of the two HTTP agents, in seconds.
#[derive(Debug, Clone, Copy, PartialEq, Eq)]
pub struct TransportProfile {
    pub connect_secs: u64,
    pub send_request_secs: u64,
    pub send_body_secs: u64,
    pub recv_response_secs: u64,
}

/// Every step of a metadata call must be over within this many seconds.
pub const CONTROL_TIMEOUT_SECS: u64 = 10;

/// Sending or receiving the bytes of a file may take this many seconds.
pub const BULK_TIMEOUT_SECS: u64 = 240;

impl TransportProfile {
    /// The profile of API calls: every step fails fast.
    pub fn control() -> (r: TransportProfile)
        ensures
            r.connect_secs == 10,
            r.send_request_secs == 10,
            r.send_body_secs == 10,
            r.recv_response_secs == 10,
    {
        TransportProfile {
            connect_secs: CONTROL_TIMEOUT_SECS,
            send_request_secs: CONTROL_TIMEOUT_SECS,
            send_body_secs: CONTROL_TIMEOUT_SECS,
            recv_response_secs: CONTROL_TIMEOUT_SECS,
        }
    }

    /// The profile of file transfers on a signed URL: connecting fails fast,
    /// the body may take long.
    pub fn bulk() -> (r: TransportProfile)
        ensures
            r.connect_secs == 10,
            r.send_request_secs == 10,
            r.send_body_secs == 240,
            r.recv_response_secs == 240,
    {
        TransportProfile {
            connect_secs: CONTROL_TIMEOUT_SECS,
            send_request_secs: CONTROL_TIMEOUT_SECS,
            send_body_secs: BULK_TIMEOUT_SECS,
            recv_response_secs: BULK_TIMEOUT_SECS,
        }
    }
}

/// The configuration of a client of the service: where it is, the
/// `Authorization` header, and the `User-Agent` header. It does not change
/// once made.
#[derive(Debug, Clone, PartialEq, Eq)]
pub struct HTTPClient {
    authorization: String,
    bountyhub_domain: String,
    user_agent: String,
}

impl HTTPClient {
    /// The base URL of the service.
    pub closed spec fn domain_view(&self) -> Seq<char> {
        self.bountyhub_domain@
    }

    /// The value of the `Authorization` header.
    pub closed spec fn authorization_view(&self) -> Seq<char> {
        self.authorization@
    }

    /// The value of the `User-Agent` header.
    pub closed spec fn user_agent_view(&self) -> Seq<char> {
        self.user_agent@
    }

    /// A client of the service at `bountyhub_domain` that sends the bearer
    /// token `pat`, as version `version` of the tool.
    pub fn new(bountyhub_domain: &str, pat: &str, version: &str) -> (r: HTTPClient)
        ensures
            r.domain_view() == bountyhub_domain@,
            r.authorization_view() == "Bearer "@ + pat@,
            r.user_agent_view() == "bh/"@ + version@,
    {
        HTTPClient {
            authorization: "Bearer ".to_owned().concat(pat),
            bountyhub_domain: bountyhub_domain.to_owned(),
            user_agent: "bh/".to_owned().concat(version),
        }
    }

    pub fn bountyhub_domain(&self) -> (r: String)
        ensures
            r@ == self.domain_view(),
    {
        self.bountyhub_domain.clone()
    }

    pub fn authorization(&self) -> (r: String)
        ensures
            r@ == self.authorization_view(),
    {
        self.authorization.clone()
    }

    pub fn user_agent(&self) -> (r: String)
        ensures
            r@ == self.user_agent_view(),
    {
        self.user_agent.clone()
    }

    /// Where an artifact of a job is fetched (for a signed URL) or deleted; the
    /// name is percent-encoded.
    pub fn job_artifact_url(&self, job_id: u128, name: &str) -> (r: String)
        ensures
            r@ == self.domain_view() + "/api/v0/workflows/jobs/"@ + hyphenated(job_id) + "/artifacts/"@
                + percent_encoded(name.spec_bytes()),
    {
        self.bountyhub_domain.clone().concat("/api/v0/workflows/jobs/").concat(id_text(job_id).as_str()).concat(
            "/artifacts/",
        ).concat(encode(name).as_str())
    }

    /// Where a job is deleted.
    pub fn job_url(&self, job_id: u128) -> (r: String)
        ensures
            r@ == self.domain_view() + "/api/v0/workflows/jobs/"@ + hyphenated(job_id),
    {
        self.bountyhub_domain.clone().concat("/api/v0/workflows/jobs/").concat(id_text(job_id).as_str())
    }

    /// Where a scan of a workflow is dispatched.
    pub fn dispatch_url(&self, workflow_id: u128) -> (r: String)
        ensures
            r@ == self.domain_view() + "/api/v0/workflows/"@ + hyphenated(workflow_id)
                + "/scans/dispatch"@,
    {
        self.bountyhub_domain.clone().concat("/api/v0/workflows/").concat(id_text(workflow_id).as_str()).concat(
            "/scans/dispatch",
        )
    }

    /// Where the signed URL of a blob is fetched; the path is percent-encoded.
    pub fn blob_url(&self, path: &str) -> (r: String)
        ensures
            r@ == self.domain_view() + "/api/v0/blobs/"@ + percent_encoded(path.spec_bytes()),
    {
        self.bountyhub_domain.clone().concat("/api/v0/blobs/").concat(encode(path).as_str())
    }

    /// Where a signed URL for an upload is asked for.
    pub fn blob_files_url(&self) -> (r: String)
        ensures
            r@ == self.domain_view() + "/api/v0/blobs/files"@,
    {
        self.bountyhub_domain.clone().concat("/api/v0/blobs/files")
    }

    /// Where runner registrations are created.
    pub fn runner_registrations_url(&self) -> (r: String)
        ensures
            r@ == self.domain_view() + "/api/v0/runner-registrations"@,
    {
        self.bountyhub_domain.clone().concat("/api/v0/runner-registrations")
    }

    /// Where bhlast domains are created.
    pub fn bhlast_domains_url(&self) -> (r: String)
        ensures
            r@ == self.domain_view() + "/api/v0/bhlast/domains"@,
    {
        self.bountyhub_domain.clone().concat("/api/v0/bhlast/domains")
    }
}

} // verus!
