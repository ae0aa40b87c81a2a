//! The optional parameters of a capture request, and their form encoding.
//!
//! The request body lists `url` first and then one field per parameter, in
//! a fixed order. The eight boolean toggles are always present, sent as
//! `1` or `0`. The optional values are omitted entirely when unset:
//! durations are sent as integer seconds, strings are form-encoded.

use vstd::prelude::*;
use crate::encode::{spec_enc_str, spec_dec_str, push_enc_str, push_u64};

verus! {

/// The optional parameters of a capture request.
pub struct SPN2CaptureRequestOptParams {
    /// Capture the page with all of its resources.
    pub capture_all: bool,
    /// Capture the pages the page links to as well.
    pub capture_outlinks: bool,
    /// Take a screenshot of the page.
    pub capture_screenshot: bool,
    /// Delay the capture's availability in the archive.
    pub delay_wb_availability: bool,
    /// Fetch with a plain GET request.
    pub force_get: bool,
    /// Skip checking for a first archived version.
    pub skip_first_archive: bool,
    /// Report the availability of the captured outlinks.
    pub outlinks_availability: bool,
    /// Send the result by mail.
    pub email_result: bool,
    /// Only capture when no capture is younger than this, in seconds.
    pub if_not_archived_within: Option<u64>,
    /// How long page scripts may run, in seconds.
    pub js_behavior_timeout: Option<u64>,
    /// A cookie to send when fetching the page.
    pub capture_cookie: Option<String>,
    /// The user-agent header to fetch the page with.
    pub use_user_agent: Option<String>,
    /// The user name for pages behind a login.
    pub target_username: Option<String>,
    /// The password for pages behind a login.
    pub target_password: Option<String>,
}

/// The mathematical model of the optional parameters.
pub struct OptParamsModel {
    /// Capture the page with all of its resources.
    pub capture_all: bool,
    /// Capture the pages the page links to as well.
    pub capture_outlinks: bool,
    /// Take a screenshot of the page.
    pub capture_screenshot: bool,
    /// Delay the capture's availability in the archive.
    pub delay_wb_availability: bool,
    /// Fetch with a plain GET request.
    pub force_get: bool,
    /// Skip checking for a first archived version.
    pub skip_first_archive: bool,
    /// Report the availability of the captured outlinks.
    pub outlinks_availability: bool,
    /// Send the result by mail.
    pub email_result: bool,
    /// Only capture when no capture is younger than this, in seconds.
    pub if_not_archived_within: Option<u64>,
    /// How long page scripts may run, in seconds.
    pub js_behavior_timeout: Option<u64>,
    /// A cookie to send when fetching the page.
    pub capture_cookie: Option<Seq<char>>,
    /// The user-agent header to fetch the page with.
    pub use_user_agent: Option<Seq<char>>,
    /// The user name for pages behind a login.
    pub target_username: Option<Seq<char>>,
    /// The password for pages behind a login.
    pub target_password: Option<Seq<char>>,
}

impl View for SPN2CaptureRequestOptParams {
    type V = OptParamsModel;

    open spec fn view(&self) -> OptParamsModel {
        OptParamsModel {
            capture_all: self.capture_all,
            capture_outlinks: self.capture_outlinks,
            capture_screenshot: self.capture_screenshot,
            delay_wb_availability: self.delay_wb_availability,
            force_get: self.force_get,
            skip_first_archive: self.skip_first_archive,
            outlinks_availability: self.outlinks_availability,
            email_result: self.email_result,
            if_not_archived_within: self.if_not_archived_within,
            js_behavior_timeout: self.js_behavior_timeout,
            capture_cookie: self.capture_cookie.deep_view(),
            use_user_agent: self.use_user_agent.deep_view(),
            target_username: self.target_username.deep_view(),
            target_password: self.target_password.deep_view(),
        }
    }
}

/// The model of the default parameters: every toggle off, every optional
/// value unset.
pub open spec fn spec_default_opt_params() -> OptParamsModel {
    OptParamsModel {
        capture_all: false,
        capture_outlinks: false,
        capture_screenshot: false,
        delay_wb_availability: false,
        force_get: false,
        skip_first_archive: false,
        outlinks_availability: false,
        email_result: false,
        if_not_archived_within: None,
        js_behavior_timeout: None,
        capture_cookie: None,
        use_user_agent: None,
        target_username: None,
        target_password: None,
    }
}

impl Default for SPN2CaptureRequestOptParams {
    /// Returns the parameters with every toggle off and every optional
    /// value unset.
    fn default() -> (r: Self)
        ensures
            r@ == spec_default_opt_params(),
    {
        SPN2CaptureRequestOptParams {
            capture_all: false,
            capture_outlinks: false,
            capture_screenshot: false,
            delay_wb_availability: false,
            force_get: false,
            skip_first_archive: false,
            outlinks_availability: false,
            email_result: false,
            if_not_archived_within: None,
            js_behavior_timeout: None,
            capture_cookie: None,
            use_user_agent: None,
            target_username: None,
            target_password: None,
        }
    }
}

/// A boolean form field: always present, `1` when on, `0` when off.
pub open spec fn spec_bool_field(name: Seq<char>, b: bool) -> Seq<char> {
    "&"@ + name + "="@ + (if b {
        "1"@
    } else {
        "0"@
    })
}

/// An optional duration form field: the seconds in decimal digits when
/// set, nothing at all when unset.
pub open spec fn spec_seconds_field(name: Seq<char>, v: Option<u64>) -> Seq<char> {
    match v {
        Some(secs) => "&"@ + name + "="@ + spec_dec_str(secs as nat),
        None => Seq::empty(),
    }
}

/// An optional string form field: the form-encoded text when set, nothing
/// at all when unset.
pub open spec fn spec_text_field(name: Seq<char>, v: Option<Seq<char>>) -> Seq<char> {
    match v {
        Some(s) => "&"@ + name + "="@ + spec_enc_str(s),
        None => Seq::empty(),
    }
}

/// The body of a capture request: the form-encoded URL first, then one
/// field per parameter, in this fixed order.
pub open spec fn spec_capture_request_body(url: Seq<char>, p: OptParamsModel) -> Seq<char> {
    "url="@ + spec_enc_str(url) + spec_bool_field("capture_all"@, p.capture_all)
        + spec_bool_field("capture_outlinks"@, p.capture_outlinks) + spec_bool_field(
        "capture_screenshot"@,
        p.capture_screenshot,
    ) + spec_bool_field("delay_wb_availability"@, p.delay_wb_availability) + spec_bool_field(
        "force_get"@,
        p.force_get,
    ) + spec_bool_field("skip_first_archive"@, p.skip_first_archive) + spec_bool_field(
        "outlinks_availability"@,
        p.outlinks_availability,
    ) + spec_bool_field("email_result"@, p.email_result) + spec_seconds_field(
        "if_not_archived_within"@,
        p.if_not_archived_within,
    ) + spec_seconds_field("js_behavior_timeout"@, p.js_behavior_timeout) + spec_text_field(
        "capture_cookie"@,
        p.capture_cookie,
    ) + spec_text_field("use_user_agent"@, p.use_user_agent) + spec_text_field(
        "target_username"@,
        p.target_username,
    ) + spec_text_field("target_password"@, p.target_password)
}

/// Appends a boolean form field.
fn push_bool_field(out: &mut String, name: &str, b: bool)
    ensures
        final(out)@ == old(out)@ + spec_bool_field(name@, b),
{
    out.append("&");
    out.append(name);
    out.append("=");
    if b {
        out.append("1");
    } else {
        out.append("0");
    }
}

/// Appends an optional duration form field.
fn push_seconds_field(out: &mut String, name: &str, v: &Option<u64>)
    ensures
        final(out)@ == old(out)@ + spec_seconds_field(name@, *v),
{
    match v {
        Some(secs) => {
            out.append("&");
            out.append(name);
            out.append("=");
            push_u64(out, *secs);
        },
        None => {
        },
    }
}

/// Appends an optional string form field.
fn push_text_field(out: &mut String, name: &str, v: &Option<String>)
    ensures
        final(out)@ == old(out)@ + spec_text_field(name@, v.deep_view()),
{
    match v {
        Some(s) => {
            out.append("&");
            out.append(name);
            out.append("=");
            push_enc_str(out, s.as_str());
        },
        None => {
        },
    }
}

/// Builds the body of a capture request for the given URL and parameters.
pub fn capture_request_body(url: &str, opt_params: &SPN2CaptureRequestOptParams) -> (r: String)
    ensures
        r@ == spec_capture_request_body(url@, opt_params@),
{
    let mut out = String::new();
    out.append("url=");
    push_enc_str(&mut out, url);
    push_bool_field(&mut out, "capture_all", opt_params.capture_all);
    push_bool_field(&mut out, "capture_outlinks", opt_params.capture_outlinks);
    push_bool_field(&mut out, "capture_screenshot", opt_params.capture_screenshot);
    push_bool_field(&mut out, "delay_wb_availability", opt_params.delay_wb_availability);
    push_bool_field(&mut out, "force_get", opt_params.force_get);
    push_bool_field(&mut out, "skip_first_archive", opt_params.skip_first_archive);
    push_bool_field(&mut out, "outlinks_availability", opt_params.outlinks_availability);
    push_bool_field(&mut out, "email_result", opt_params.email_result);
    push_seconds_field(&mut out, "if_not_archived_within", &opt_params.if_not_archived_within);
    push_seconds_field(&mut out, "js_behavior_timeout", &opt_params.js_behavior_timeout);
    push_text_field(&mut out, "capture_cookie", &opt_params.capture_cookie);
    push_text_field(&mut out, "use_user_agent", &opt_params.use_user_agent);
    push_text_field(&mut out, "target_username", &opt_params.target_username);
    push_text_field(&mut out, "target_password", &opt_params.target_password);
    proof {
        assert(out@ =~= spec_capture_request_body(url@, opt_params@));
    }
    out
}

} // verus!
