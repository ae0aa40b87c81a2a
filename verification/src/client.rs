//! The client's configuration: credentials, timeout, and endpoints.
//!
//! A client holds the authorization header built from the credentials at
//! construction time, and the timeout that bounds each call. The header
//! value is validated here; the functions below also build the exact
//! URL and body of each request. Sending them is left to the surrounding
//! program.

use vstd::prelude::*;
use crate::SpnError;
use crate::encode::spec_dec_str;
use crate::encode::push_u64;

verus! {

/// The authorization header value for the given credentials.
pub open spec fn spec_auth_header(key: Seq<char>, secret: Seq<char>) -> Seq<char> {
    "LOW "@ + key + ":"@ + secret
}

/// True for characters a header value may hold. This is the header-value
/// rule of the HTTP layer, stated over characters: every byte must be 32
/// or more and not 127, or a tab; a character beyond ASCII only has bytes
/// of 128 or more, so it is always allowed.
pub open spec fn valid_header_char(c: char) -> bool {
    c == '\t' || (c as u32 >= 32 && c as u32 != 127)
}

/// True for texts that can stand as a header value.
pub open spec fn valid_header_value(s: Seq<char>) -> bool {
    forall|i: int| 0 <= i < s.len() ==> valid_header_char(s[i])
}

/// Decides whether a text can stand as a header value.
fn check_header_value(s: &str) -> (r: bool)
    ensures
        r == valid_header_value(s@),
{
    let n = s.unicode_len();
    let mut i: usize = 0;
    while i < n
        invariant
            n == s@.len(),
            i <= n,
            forall|j: int| 0 <= j < i ==> valid_header_char(s@[j]),
        decreases n - i,
    {
        let c = s.get_char(i);
        if !(c == '\t' || (c as u32 >= 32 && c as u32 != 127)) {
            assert(!valid_header_char(s@[i as int]));
            return false;
        }
        i = i + 1;
    }
    true
}

/// The mathematical model of a client.
pub struct ClientModel {
    /// The authorization header value sent with every request.
    pub auth_header: Seq<char>,
    /// The timeout of each call, in milliseconds.
    pub timeout_ms: u64,
}

/// The client's configuration for the capture service.
pub struct SPN2Client {
    auth_header: String,
    timeout_ms: u64,
}

impl View for SPN2Client {
    type V = ClientModel;

    closed spec fn view(&self) -> ClientModel {
        ClientModel { auth_header: self.auth_header@, timeout_ms: self.timeout_ms }
    }
}

impl SPN2Client {
    /// Creates a client for the given credentials. The authorization
    /// header value is fixed here once: `LOW `, the access key, `:`, and
    /// the secret. When that text cannot stand as a header value, the
    /// credentials are rejected.
    pub fn new(api_access_key: String, api_secret: String, timeout_ms: u64) -> (r: Result<
        SPN2Client,
        SpnError,
    >)
        ensures
            valid_header_value(spec_auth_header(api_access_key@, api_secret@)) ==> (r matches Ok(c)
                && c@.auth_header == spec_auth_header(api_access_key@, api_secret@)
                && c@.timeout_ms == timeout_ms),
            !valid_header_value(spec_auth_header(api_access_key@, api_secret@)) ==> (r matches Err(
                e,
            ) && e is Config),
    {
        let mut header = String::new();
        header.append("LOW ");
        header.append(api_access_key.as_str());
        header.append(":");
        header.append(api_secret.as_str());
        proof {
            assert(header@ =~= spec_auth_header(api_access_key@, api_secret@));
        }
        if check_header_value(header.as_str()) {
            Ok(SPN2Client { auth_header: header, timeout_ms })
        } else {
            Err(SpnError::Config)
        }
    }

    /// Sets the timeout for requests to the capture service, in
    /// milliseconds. Only calls started afterwards are bounded by it.
    pub fn set_timeout(&mut self, timeout_ms: u64)
        ensures
            final(self)@.timeout_ms == timeout_ms,
            final(self)@.auth_header == old(self)@.auth_header,
    {
        self.timeout_ms = timeout_ms;
    }

    /// The authorization header value sent with every request. It holds
    /// the credentials: treat it as sensitive and keep it out of logs.
    pub fn auth_header_value(&self) -> (r: &str)
        ensures
            r@ == self@.auth_header,
    {
        self.auth_header.as_str()
    }

    /// The timeout of each call, in milliseconds.
    pub fn timeout_ms(&self) -> (r: u64)
        ensures
            r == self@.timeout_ms,
    {
        self.timeout_ms
    }
}

/// The endpoint a capture request is posted to.
pub fn api_capture_url() -> (r: &'static str)
    ensures
        r@ == "https://web.archive.org/save"@,
{
    "https://web.archive.org/save"
}

/// The URL that reports the status of the given capture job.
pub fn capture_status_url(job_id: &str) -> (r: String)
    ensures
        r@ == "https://web.archive.org/save/status/"@ + job_id@,
{
    let mut out = String::new();
    out.append("https://web.archive.org/save/status/");
    out.append(job_id);
    out
}

/// The URL that reports the user's quota. The current Unix time, in
/// seconds, is sent as the query parameter `_t`, so that no intermediary
/// answers this always-fresh read from a cache.
pub fn user_status_url(unix_secs: u64) -> (r: String)
    ensures
        r@ == "https://web.archive.org/save/status/user?_t="@ + spec_dec_str(unix_secs as nat),
{
    let mut out = String::new();
    out.append("https://web.archive.org/save/status/user?_t=");
    push_u64(&mut out, unix_secs);
    out
}

/// The endpoint that reports the system's health.
pub fn api_system_status_url() -> (r: &'static str)
    ensures
        r@ == "https://web.archive.org/save/status/system"@,
{
    "https://web.archive.org/save/status/system"
}

} // verus!
