//! The response types of the capture service, and their decoders.
//!
//! Every response body is a JSON object. The capture-status response is a
//! tagged union over its `status` field: the decoder dispatches on that
//! field alone and fails on any unknown tag. Fields the types do not name
//! are ignored; an optional field that is absent or `null` decodes as
//! absent.

use vstd::prelude::*;
use crate::SpnError;
use crate::json::{
    JsonVal, Jv, spec_json_of, parse_json, obj_get, lemma_obj_get_push_other, spec_get_str,
    spec_get_opt_str, spec_get_strings, spec_get_uint, spec_get_number_text, get_str, get_opt_str,
    get_strings, get_uint, get_number_text,
};

verus! {

/// Compares two texts.
pub(crate) fn str_eq(a: &str, b: &str) -> (r: bool)
    ensures
        r == (a@ == b@),
{
    let a_owned = a.to_owned();
    let b_owned = b.to_owned();
    a_owned.eq(&b_owned)
}

/// The service's answer to an accepted capture request.
#[derive(Debug)]
pub struct SPN2CaptureResponse {
    /// The requested URL to capture.
    pub url: String,
    /// The ID of the capture request; used to issue status requests.
    pub job_id: String,
}

/// The mathematical model of a capture response.
pub struct CaptureResponseModel {
    /// The requested URL to capture.
    pub url: Seq<char>,
    /// The ID of the capture request.
    pub job_id: Seq<char>,
}

impl View for SPN2CaptureResponse {
    type V = CaptureResponseModel;

    open spec fn view(&self) -> CaptureResponseModel {
        CaptureResponseModel { url: self.url@, job_id: self.job_id@ }
    }
}

/// The current state of a capture job.
#[derive(Debug)]
pub enum SPN2CaptureStatus {
    /// The capture request has not been fully processed yet.
    Pending {
        /// The resources captured so far.
        resources: Vec<String>,
    },
    /// The capture request failed.
    Error {
        /// The kind of exception, when the service names one.
        exception: Option<String>,
        /// A more specific error code.
        status_ext: String,
        /// The error message.
        message: String,
        /// The resources captured before the failure.
        resources: Vec<String>,
    },
    /// The capture request was processed successfully.
    Success {
        /// The requested URL after redirects.
        original_url: String,
        /// The screenshot URL, when one was taken.
        screenshot: Option<String>,
        /// The capture time, fourteen digits: year to second.
        timestamp: String,
        /// How long the capture took, in seconds, as number text.
        duration_sec: String,
        /// The captured resources.
        resources: Vec<String>,
        /// Links found that lead to other sites.
        outlinks: Vec<String>,
    },
}

/// The mathematical model of a capture status.
pub enum CaptureStatusModel {
    /// The capture request has not been fully processed yet.
    Pending {
        /// The resources captured so far.
        resources: Seq<Seq<char>>,
    },
    /// The capture request failed.
    Error {
        /// The kind of exception, when the service names one.
        exception: Option<Seq<char>>,
        /// A more specific error code.
        status_ext: Seq<char>,
        /// The error message.
        message: Seq<char>,
        /// The resources captured before the failure.
        resources: Seq<Seq<char>>,
    },
    /// The capture request was processed successfully.
    Success {
        /// The requested URL after redirects.
        original_url: Seq<char>,
        /// The screenshot URL, when one was taken.
        screenshot: Option<Seq<char>>,
        /// The capture time, fourteen digits: year to second.
        timestamp: Seq<char>,
        /// How long the capture took, in seconds, as number text.
        duration_sec: Seq<char>,
        /// The captured resources.
        resources: Seq<Seq<char>>,
        /// Links found that lead to other sites.
        outlinks: Seq<Seq<char>>,
    },
}

impl View for SPN2CaptureStatus {
    type V = CaptureStatusModel;

    open spec fn view(&self) -> CaptureStatusModel {
        match self {
            SPN2CaptureStatus::Pending { resources } => CaptureStatusModel::Pending {
                resources: resources.deep_view(),
            },
            SPN2CaptureStatus::Error { exception, status_ext, message, resources } => {
                CaptureStatusModel::Error {
                    exception: exception.deep_view(),
                    status_ext: status_ext@,
                    message: message@,
                    resources: resources.deep_view(),
                }
            },
            SPN2CaptureStatus::Success {
                original_url,
                screenshot,
                timestamp,
                duration_sec,
                resources,
                outlinks,
            } => CaptureStatusModel::Success {
                original_url: original_url@,
                screenshot: screenshot.deep_view(),
                timestamp: timestamp@,
                duration_sec: duration_sec@,
                resources: resources.deep_view(),
                outlinks: outlinks.deep_view(),
            },
        }
    }
}

/// How a JSON value decodes as a capture status.
///
/// The decode dispatches on the `status` field alone: `pending`, `error`
/// and `success` select the variant; any other value, a missing or
/// non-string `status`, or a body that is not an object, fail the decode.
/// Within the selected variant every named field is required with its
/// type, except the optional ones, where absent and `null` decode as
/// absent. Fields the variant does not name are ignored.
pub open spec fn spec_capture_status(j: Jv) -> Option<CaptureStatusModel> {
    match j {
        Jv::Obj(fs) => match spec_get_str(fs, "status"@) {
            Some(tag) => if tag == "pending"@ {
                match spec_get_strings(fs, "resources"@) {
                    Some(rs) => Some(CaptureStatusModel::Pending { resources: rs }),
                    None => None,
                }
            } else if tag == "error"@ {
                match (
                    spec_get_opt_str(fs, "exception"@),
                    spec_get_str(fs, "status_ext"@),
                    spec_get_str(fs, "message"@),
                    spec_get_strings(fs, "resources"@),
                ) {
                    (Some(exc), Some(ext), Some(msg), Some(rs)) => Some(
                        CaptureStatusModel::Error {
                            exception: exc,
                            status_ext: ext,
                            message: msg,
                            resources: rs,
                        },
                    ),
                    _ => None,
                }
            } else if tag == "success"@ {
                match (
                    spec_get_str(fs, "original_url"@),
                    spec_get_opt_str(fs, "screenshot"@),
                    spec_get_str(fs, "timestamp"@),
                    spec_get_number_text(fs, "duration_sec"@),
                    spec_get_strings(fs, "resources"@),
                    spec_get_strings(fs, "outlinks"@),
                ) {
                    (Some(u), Some(shot), Some(ts), Some(dur), Some(rs), Some(ol)) => Some(
                        CaptureStatusModel::Success {
                            original_url: u,
                            screenshot: shot,
                            timestamp: ts,
                            duration_sec: dur,
                            resources: rs,
                            outlinks: ol,
                        },
                    ),
                    _ => None,
                }
            } else {
                None
            },
            None => None,
        },
        _ => None,
    }
}

/// Law: an object whose `status` is `pending` decodes as the pending
/// variant carrying its `resources` list verbatim, in order.
pub proof fn lemma_pending_decode(fs: Seq<(Seq<char>, Jv)>, rs: Seq<Seq<char>>)
    requires
        spec_get_str(fs, "status"@) == Some("pending"@),
        spec_get_strings(fs, "resources"@) == Some(rs),
    ensures
        spec_capture_status(Jv::Obj(fs)) == Some(CaptureStatusModel::Pending { resources: rs }),
{
}

/// Law: an object whose `status` is `error` and whose `exception` field is
/// absent decodes with an absent exception, never an empty text.
pub proof fn lemma_absent_exception_decodes_as_absent(
    fs: Seq<(Seq<char>, Jv)>,
    ext: Seq<char>,
    msg: Seq<char>,
    rs: Seq<Seq<char>>,
)
    requires
        spec_get_str(fs, "status"@) == Some("error"@),
        obj_get(fs, "exception"@) is None,
        spec_get_str(fs, "status_ext"@) == Some(ext),
        spec_get_str(fs, "message"@) == Some(msg),
        spec_get_strings(fs, "resources"@) == Some(rs),
    ensures
        spec_capture_status(Jv::Obj(fs)) == Some(
            CaptureStatusModel::Error {
                exception: None,
                status_ext: ext,
                message: msg,
                resources: rs,
            },
        ),
{
    reveal_strlit("error");
    reveal_strlit("pending");
    assert("error"@.len() != "pending"@.len());
}

/// Law: a `status` value outside `pending`, `error` and `success` never
/// decodes; the decode fails rather than defaulting to any variant.
pub proof fn lemma_unknown_tag_fails(fs: Seq<(Seq<char>, Jv)>, tag: Seq<char>)
    requires
        spec_get_str(fs, "status"@) == Some(tag),
        tag != "pending"@,
        tag != "error"@,
        tag != "success"@,
    ensures
        spec_capture_status(Jv::Obj(fs)) is None,
{
}

/// Law: a field under any key the capture status does not name is ignored:
/// appending it to the object leaves the decode unchanged.
pub proof fn lemma_extra_field_ignored(fs: Seq<(Seq<char>, Jv)>, k: Seq<char>, v: Jv)
    requires
        k != "status"@,
        k != "resources"@,
        k != "exception"@,
        k != "status_ext"@,
        k != "message"@,
        k != "original_url"@,
        k != "screenshot"@,
        k != "timestamp"@,
        k != "duration_sec"@,
        k != "outlinks"@,
    ensures
        spec_capture_status(Jv::Obj(fs.push((k, v)))) == spec_capture_status(Jv::Obj(fs)),
{
    lemma_obj_get_push_other(fs, k, v, "status"@);
    lemma_obj_get_push_other(fs, k, v, "resources"@);
    lemma_obj_get_push_other(fs, k, v, "exception"@);
    lemma_obj_get_push_other(fs, k, v, "status_ext"@);
    lemma_obj_get_push_other(fs, k, v, "message"@);
    lemma_obj_get_push_other(fs, k, v, "original_url"@);
    lemma_obj_get_push_other(fs, k, v, "screenshot"@);
    lemma_obj_get_push_other(fs, k, v, "timestamp"@);
    lemma_obj_get_push_other(fs, k, v, "duration_sec"@);
    lemma_obj_get_push_other(fs, k, v, "outlinks"@);
}

/// How a text decodes as a capture status: it must be a well-formed JSON
/// document whose value decodes per [`spec_capture_status`].
pub open spec fn spec_capture_status_text(s: Seq<char>) -> Option<CaptureStatusModel> {
    match spec_json_of(s) {
        Some(j) => spec_capture_status(j),
        None => None,
    }
}

impl SPN2CaptureStatus {
    /// Decodes a capture status from a JSON value.
    pub fn from_json(j: &JsonVal) -> (r: Result<Self, SpnError>)
        ensures
            match spec_capture_status(j@) {
                Some(m) => r matches Ok(v) && v@ == m,
                None => r matches Err(e) && e is Decode,
            },
    {
        let fields = match j {
            JsonVal::Obj(fields) => fields,
            _ => {
                return Err(SpnError::Decode);
            },
        };
        let tag = match get_str(fields, "status") {
            Some(tag) => tag,
            None => {
                return Err(SpnError::Decode);
            },
        };
        if str_eq(tag.as_str(), "pending") {
            match get_strings(fields, "resources") {
                Some(resources) => Ok(SPN2CaptureStatus::Pending { resources }),
                None => Err(SpnError::Decode),
            }
        } else if str_eq(tag.as_str(), "error") {
            let exception = match get_opt_str(fields, "exception") {
                Some(e) => e,
                None => {
                    return Err(SpnError::Decode);
                },
            };
            let status_ext = match get_str(fields, "status_ext") {
                Some(e) => e,
                None => {
                    return Err(SpnError::Decode);
                },
            };
            let message = match get_str(fields, "message") {
                Some(m) => m,
                None => {
                    return Err(SpnError::Decode);
                },
            };
            let resources = match get_strings(fields, "resources") {
                Some(r) => r,
                None => {
                    return Err(SpnError::Decode);
                },
            };
            Ok(SPN2CaptureStatus::Error { exception, status_ext, message, resources })
        } else if str_eq(tag.as_str(), "success") {
            let original_url = match get_str(fields, "original_url") {
                Some(u) => u,
                None => {
                    return Err(SpnError::Decode);
                },
            };
            let screenshot = match get_opt_str(fields, "screenshot") {
                Some(s) => s,
                None => {
                    return Err(SpnError::Decode);
                },
            };
            let timestamp = match get_str(fields, "timestamp") {
                Some(t) => t,
                None => {
                    return Err(SpnError::Decode);
                },
            };
            let duration_sec = match get_number_text(fields, "duration_sec") {
                Some(d) => d,
                None => {
                    return Err(SpnError::Decode);
                },
            };
            let resources = match get_strings(fields, "resources") {
                Some(r) => r,
                None => {
                    return Err(SpnError::Decode);
                },
            };
            let outlinks = match get_strings(fields, "outlinks") {
                Some(o) => o,
                None => {
                    return Err(SpnError::Decode);
                },
            };
            Ok(
                SPN2CaptureStatus::Success {
                    original_url,
                    screenshot,
                    timestamp,
                    duration_sec,
                    resources,
                    outlinks,
                },
            )
        } else {
            Err(SpnError::Decode)
        }
    }

    /// Decodes a capture status from JSON text.
    pub fn from_json_str(s: &str) -> (r: Result<Self, SpnError>)
        ensures
            match spec_capture_status_text(s@) {
                Some(m) => r matches Ok(v) && v@ == m,
                None => r matches Err(e) && e is Decode,
            },
    {
        match parse_json(s) {
            Some(j) => Self::from_json(&j),
            None => Err(SpnError::Decode),
        }
    }

    /// Decodes the answer to a capture-status request: the body counts
    /// only when the service answered with status code 200.
    pub fn from_http_response(code: u16, body: &str) -> (r: Result<Self, SpnError>)
        ensures
            code == 200 ==> match spec_capture_status_text(body@) {
                Some(m) => r matches Ok(v) && v@ == m,
                None => r matches Err(e) && e is Decode,
            },
            code != 200 ==> (r matches Err(e) && e matches SpnError::UnexpectedStatus {
                code: c,
                body: b,
            } && c == code && b@ == body@),
    {
        if code == 200 {
            Self::from_json_str(body)
        } else {
            Err(SpnError::UnexpectedStatus { code, body: body.to_owned() })
        }
    }
}

/// How a JSON value decodes as a capture response: an object whose `url`
/// and `job_id` fields are strings; other fields are ignored.
pub open spec fn spec_capture_response(j: Jv) -> Option<CaptureResponseModel> {
    match j {
        Jv::Obj(fs) => match (spec_get_str(fs, "url"@), spec_get_str(fs, "job_id"@)) {
            (Some(u), Some(id)) => Some(CaptureResponseModel { url: u, job_id: id }),
            _ => None,
        },
        _ => None,
    }
}

/// How a text decodes as a capture response.
pub open spec fn spec_capture_response_text(s: Seq<char>) -> Option<CaptureResponseModel> {
    match spec_json_of(s) {
        Some(j) => spec_capture_response(j),
        None => None,
    }
}

impl SPN2CaptureResponse {
    /// Decodes a capture response from a JSON value.
    pub fn from_json(j: &JsonVal) -> (r: Result<Self, SpnError>)
        ensures
            match spec_capture_response(j@) {
                Some(m) => r matches Ok(v) && v@ == m,
                None => r matches Err(e) && e is Decode,
            },
    {
        let fields = match j {
            JsonVal::Obj(fields) => fields,
            _ => {
                return Err(SpnError::Decode);
            },
        };
        match (get_str(fields, "url"), get_str(fields, "job_id")) {
            (Some(url), Some(job_id)) => Ok(SPN2CaptureResponse { url, job_id }),
            _ => Err(SpnError::Decode),
        }
    }

    /// Decodes a capture response from JSON text.
    pub fn from_json_str(s: &str) -> (r: Result<Self, SpnError>)
        ensures
            match spec_capture_response_text(s@) {
                Some(m) => r matches Ok(v) && v@ == m,
                None => r matches Err(e) && e is Decode,
            },
    {
        match parse_json(s) {
            Some(j) => Self::from_json(&j),
            None => Err(SpnError::Decode),
        }
    }

    /// Decodes the answer to a capture request: the body counts only when
    /// the service answered with status code 200.
    pub fn from_http_response(code: u16, body: &str) -> (r: Result<Self, SpnError>)
        ensures
            code == 200 ==> match spec_capture_response_text(body@) {
                Some(m) => r matches Ok(v) && v@ == m,
                None => r matches Err(e) && e is Decode,
            },
            code != 200 ==> (r matches Err(e) && e matches SpnError::UnexpectedStatus {
                code: c,
                body: b,
            } && c == code && b@ == body@),
    {
        if code == 200 {
            Self::from_json_str(body)
        } else {
            Err(SpnError::UnexpectedStatus { code, body: body.to_owned() })
        }
    }
}

/// The user's quota counters.
#[derive(Debug)]
pub struct SPN2UserStatus {
    /// The user's number of available capture sessions.
    pub available: usize,
    /// The user's number of active capture sessions.
    pub processing: usize,
}

/// The mathematical model of a user status.
pub struct UserStatusModel {
    /// The user's number of available capture sessions.
    pub available: usize,
    /// The user's number of active capture sessions.
    pub processing: usize,
}

impl View for SPN2UserStatus {
    type V = UserStatusModel;

    open spec fn view(&self) -> UserStatusModel {
        UserStatusModel { available: self.available, processing: self.processing }
    }
}

/// How a JSON value decodes as a user status: an object whose `available`
/// and `processing` fields are non-negative integers that fit the counter
/// type; other fields are ignored.
pub open spec fn spec_user_status(j: Jv) -> Option<UserStatusModel> {
    match j {
        Jv::Obj(fs) => match (spec_get_uint(fs, "available"@), spec_get_uint(fs, "processing"@)) {
            (Some(a), Some(p)) => if a <= usize::MAX && p <= usize::MAX {
                Some(UserStatusModel { available: a as usize, processing: p as usize })
            } else {
                None
            },
            _ => None,
        },
        _ => None,
    }
}

/// How a text decodes as a user status.
pub open spec fn spec_user_status_text(s: Seq<char>) -> Option<UserStatusModel> {
    match spec_json_of(s) {
        Some(j) => spec_user_status(j),
        None => None,
    }
}

impl SPN2UserStatus {
    /// Decodes a user status from a JSON value.
    pub fn from_json(j: &JsonVal) -> (r: Result<Self, SpnError>)
        ensures
            match spec_user_status(j@) {
                Some(m) => r matches Ok(v) && v@ == m,
                None => r matches Err(e) && e is Decode,
            },
    {
        let fields = match j {
            JsonVal::Obj(fields) => fields,
            _ => {
                return Err(SpnError::Decode);
            },
        };
        match (get_uint(fields, "available"), get_uint(fields, "processing")) {
            (Some(a), Some(p)) => if a <= usize::MAX as u64 && p <= usize::MAX as u64 {
                Ok(SPN2UserStatus { available: a as usize, processing: p as usize })
            } else {
                Err(SpnError::Decode)
            },
            _ => Err(SpnError::Decode),
        }
    }

    /// Decodes a user status from JSON text.
    pub fn from_json_str(s: &str) -> (r: Result<Self, SpnError>)
        ensures
            match spec_user_status_text(s@) {
                Some(m) => r matches Ok(v) && v@ == m,
                None => r matches Err(e) && e is Decode,
            },
    {
        match parse_json(s) {
            Some(j) => Self::from_json(&j),
            None => Err(SpnError::Decode),
        }
    }

    /// Decodes the answer to a user-status request: the body counts only
    /// when the service answered with status code 200.
    pub fn from_http_response(code: u16, body: &str) -> (r: Result<Self, SpnError>)
        ensures
            code == 200 ==> match spec_user_status_text(body@) {
                Some(m) => r matches Ok(v) && v@ == m,
                None => r matches Err(e) && e is Decode,
            },
            code != 200 ==> (r matches Err(e) && e matches SpnError::UnexpectedStatus {
                code: c,
                body: b,
            } && c == code && b@ == body@),
    {
        if code == 200 {
            Self::from_json_str(body)
        } else {
            Err(SpnError::UnexpectedStatus { code, body: body.to_owned() })
        }
    }
}

/// The health of the capture service.
#[derive(Debug)]
pub enum SPN2SystemStatus {
    /// Everything is fine.
    Healthy,
    /// The system is working, but delays are expected.
    Issues {
        /// The service's description of the issues.
        description: String,
    },
    /// The system is not working.
    Critical,
}

/// The mathematical model of a system status.
pub enum SystemStatusModel {
    /// Everything is fine.
    Healthy,
    /// The system is working, but delays are expected.
    Issues {
        /// The service's description of the issues.
        description: Seq<char>,
    },
    /// The system is not working.
    Critical,
}

impl View for SPN2SystemStatus {
    type V = SystemStatusModel;

    open spec fn view(&self) -> SystemStatusModel {
        match self {
            SPN2SystemStatus::Healthy => SystemStatusModel::Healthy,
            SPN2SystemStatus::Issues { description } => SystemStatusModel::Issues {
                description: description@,
            },
            SPN2SystemStatus::Critical => SystemStatusModel::Critical,
        }
    }
}

/// How a JSON value decodes as a system status: an object whose `status`
/// field is a string. The exact text `ok` means everything is fine; any
/// other text, of whatever severity, is kept verbatim as a description of
/// issues. A missing or non-string `status`, or a body that is not an
/// object, fail the decode.
pub open spec fn spec_system_status(j: Jv) -> Option<SystemStatusModel> {
    match j {
        Jv::Obj(fs) => match spec_get_str(fs, "status"@) {
            Some(s) => if s == "ok"@ {
                Some(SystemStatusModel::Healthy)
            } else {
                Some(SystemStatusModel::Issues { description: s })
            },
            None => None,
        },
        _ => None,
    }
}

/// Law: a `status` text other than the exact `ok` reports issues carrying
/// that text verbatim as the description, whatever its severity sounds
/// like: a system status answered with status code 200 is never critical.
pub proof fn lemma_non_ok_status_is_issues(fs: Seq<(Seq<char>, Jv)>, s: Seq<char>)
    requires
        spec_get_str(fs, "status"@) == Some(s),
        s != "ok"@,
    ensures
        spec_system_status(Jv::Obj(fs)) == Some(SystemStatusModel::Issues { description: s }),
{
}

/// How a text decodes as a system status.
pub open spec fn spec_system_status_text(s: Seq<char>) -> Option<SystemStatusModel> {
    match spec_json_of(s) {
        Some(j) => spec_system_status(j),
        None => None,
    }
}

impl SPN2SystemStatus {
    /// Decodes a system status from a JSON value.
    pub fn from_json(j: &JsonVal) -> (r: Result<Self, SpnError>)
        ensures
            match spec_system_status(j@) {
                Some(m) => r matches Ok(v) && v@ == m,
                None => r matches Err(e) && e is Decode,
            },
    {
        let fields = match j {
            JsonVal::Obj(fields) => fields,
            _ => {
                return Err(SpnError::Decode);
            },
        };
        match get_str(fields, "status") {
            Some(s) => if str_eq(s.as_str(), "ok") {
                Ok(SPN2SystemStatus::Healthy)
            } else {
                Ok(SPN2SystemStatus::Issues { description: s })
            },
            None => Err(SpnError::Decode),
        }
    }

    /// Decodes a system status from JSON text.
    pub fn from_json_str(s: &str) -> (r: Result<Self, SpnError>)
        ensures
            match spec_system_status_text(s@) {
                Some(m) => r matches Ok(v) && v@ == m,
                None => r matches Err(e) && e is Decode,
            },
    {
        match parse_json(s) {
            Some(j) => Self::from_json(&j),
            None => Err(SpnError::Decode),
        }
    }

    /// Decodes the answer to a system-status request. Status code 200
    /// makes the body count; a bad-gateway answer, status code 502, means
    /// the system is down, and its body is not read at all, since an
    /// overloaded service may answer with an unparseable body.
    pub fn from_http_response(code: u16, body: &str) -> (r: Result<Self, SpnError>)
        ensures
            code == 200 ==> match spec_system_status_text(body@) {
                Some(m) => r matches Ok(v) && v@ == m,
                None => r matches Err(e) && e is Decode,
            },
            code == 502 ==> (r matches Ok(v) && v@ is Critical),
            code != 200 && code != 502 ==> (r matches Err(e) && e matches
                SpnError::UnexpectedStatus { code: c, body: b } && c == code && b@ == body@),
    {
        if code == 200 {
            Self::from_json_str(body)
        } else if code == 502 {
            Ok(SPN2SystemStatus::Critical)
        } else {
            Err(SpnError::UnexpectedStatus { code, body: body.to_owned() })
        }
    }
}

} // verus!
