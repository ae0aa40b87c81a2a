use spn::SPN2CaptureRequestOptParams;
use spn::SPN2CaptureResponse;
use spn::SPN2CaptureStatus;
use spn::SPN2Client;
use spn::SPN2SystemStatus;
use spn::SPN2UserStatus;
use spn::SpnError;
use spn::json::JsonVal;
use spn::options::capture_request_body;
use spn::client::{api_capture_url, api_system_status_url, capture_status_url, user_status_url};
use spn::encode::u64_to_string;

#[test]
fn deserialize_capture_status_pending() {
    let status = r#"
    {
      "status":"pending",
      "job_id":"e70f23c7-9eca-4c78-826d-26930564d7c8",
      "resources": [
        "https://ajax.googleapis.com/ajax/libs/jquery/1.7.2/jquery.min.js"
      ]
    }
    "#;
    let s: SPN2CaptureStatus = SPN2CaptureStatus::from_json_str(status).unwrap();
    assert!(matches!(s, SPN2CaptureStatus::Pending { .. }));
}

#[test]
fn deserialize_capture_status_error() {
    let status = r#"
    {
      "status":"error",
      "exception":"[Errno -2] Name or service not known",
      "status_ext":"error:invalid-host-resolution",
      "job_id":"2546c79b-ec70-4bec-b78b-1941c42a6374",
      "message":"Couldn't resolve host for http://example5123.com.",
      "resources": []
    }
    "#;
    let s: SPN2CaptureStatus = SPN2CaptureStatus::from_json_str(status).unwrap();
    assert!(matches!(s, SPN2CaptureStatus::Error { .. }));
}

#[test]
fn deserialize_capture_status_success() {
    let status = r#"
    {
      "http_status": 200,
      "counters": {
        "outlinks": 70,
        "embeds": 21
      },
      "original_url": "https://example.com",
      "timestamp": "20221002124400",
      "duration_sec": 6.214,
      "status": "success",
      "outlinks": [
        "https://example.com/"
      ],
      "job_id":"e70f23c7-9eca-4c78-826d-26930564d7c8",
      "resources": [
        "https://example.com/"
      ]
    }
    "#;
    let s: SPN2CaptureStatus = SPN2CaptureStatus::from_json_str(status).unwrap();
    assert!(matches!(s, SPN2CaptureStatus::Success { .. }));
}

#[test]
fn deserialize_system_status_success() {
    let status = JsonVal::Obj(vec![(
        "status".to_string(),
        JsonVal::Str("Save Page Now servers are temporarily overloaded.".to_string()),
    )]);
    let s = SPN2SystemStatus::from_json(&status);
    assert!(matches!(s, Ok(SPN2SystemStatus::Issues { .. })));
}

#[test]
fn serialize_request_params() {
    let opt_params = SPN2CaptureRequestOptParams {
        capture_all: true,
        capture_outlinks: true,
        capture_screenshot: true,
        delay_wb_availability: true,
        force_get: true,
        skip_first_archive: true,
        outlinks_availability: true,
        email_result: false,
        if_not_archived_within: Some(1),
        js_behavior_timeout: None,
        capture_cookie: None,
        use_user_agent: Some("Dummy".to_string()),
        target_username: None,
        target_password: None,
    };
    let params_encoded = capture_request_body("example.com", &opt_params);
    let expected = "url=example.com&capture_all=1&capture_outlinks=1&\
                    capture_screenshot=1&delay_wb_availability=1&force_get=1&\
                    skip_first_archive=1&outlinks_availability=1&email_result=0&\
                    if_not_archived_within=1&use_user_agent=Dummy";
    assert_eq!(expected, params_encoded);
}

#[test]
fn pending_keeps_resources_verbatim_in_order() {
    let status = r#"{"status":"pending","resources":["b","a","c"]}"#;
    match SPN2CaptureStatus::from_json_str(status).unwrap() {
        SPN2CaptureStatus::Pending { resources } => {
            assert_eq!(resources, vec!["b".to_string(), "a".to_string(), "c".to_string()]);
        }
        _ => panic!("expected the pending variant"),
    }
}

#[test]
fn error_absent_exception_decodes_as_absent() {
    let status = r#"{"status":"error","status_ext":"error:x","message":"m","resources":[]}"#;
    match SPN2CaptureStatus::from_json_str(status).unwrap() {
        SPN2CaptureStatus::Error { exception, status_ext, message, resources } => {
            assert_eq!(exception, None);
            assert_eq!(status_ext, "error:x");
            assert_eq!(message, "m");
            assert!(resources.is_empty());
        }
        _ => panic!("expected the error variant"),
    }
}

#[test]
fn error_null_exception_decodes_as_absent() {
    let status = r#"{"status":"error","exception":null,"status_ext":"e","message":"m","resources":[]}"#;
    match SPN2CaptureStatus::from_json_str(status).unwrap() {
        SPN2CaptureStatus::Error { exception, .. } => assert_eq!(exception, None),
        _ => panic!("expected the error variant"),
    }
}

#[test]
fn success_fields_decode_exactly() {
    let status = r#"
    {
      "status": "success",
      "original_url": "https://example.com",
      "timestamp": "20221002124400",
      "duration_sec": 6.214,
      "resources": ["https://example.com/"],
      "outlinks": ["https://example.com/a", "https://example.com/b"]
    }
    "#;
    match SPN2CaptureStatus::from_json_str(status).unwrap() {
        SPN2CaptureStatus::Success {
            original_url,
            screenshot,
            timestamp,
            duration_sec,
            resources,
            outlinks,
        } => {
            assert_eq!(original_url, "https://example.com");
            assert_eq!(screenshot, None);
            assert_eq!(timestamp, "20221002124400");
            assert_eq!(duration_sec, "6.214");
            assert_eq!(resources, vec!["https://example.com/".to_string()]);
            assert_eq!(
                outlinks,
                vec!["https://example.com/a".to_string(), "https://example.com/b".to_string()]
            );
        }
        _ => panic!("expected the success variant"),
    }
}

#[test]
fn success_integer_duration_decodes_as_digits() {
    let status = r#"{"status":"success","original_url":"u","timestamp":"t",
                     "duration_sec":6,"resources":[],"outlinks":[]}"#;
    match SPN2CaptureStatus::from_json_str(status).unwrap() {
        SPN2CaptureStatus::Success { duration_sec, .. } => assert_eq!(duration_sec, "6"),
        _ => panic!("expected the success variant"),
    }
}

#[test]
fn unknown_status_tag_fails_decode() {
    let status = r#"{"status":"archived","resources":[]}"#;
    let r = SPN2CaptureStatus::from_json_str(status);
    assert!(matches!(r, Err(SpnError::Decode)));
}

#[test]
fn missing_status_tag_fails_decode() {
    let status = r#"{"resources":[]}"#;
    assert!(matches!(SPN2CaptureStatus::from_json_str(status), Err(SpnError::Decode)));
}

#[test]
fn non_object_body_fails_decode() {
    assert!(matches!(SPN2CaptureStatus::from_json_str("[1,2]"), Err(SpnError::Decode)));
    assert!(matches!(SPN2CaptureStatus::from_json_str("not json"), Err(SpnError::Decode)));
}

#[test]
fn pending_with_non_string_resource_fails_decode() {
    let status = r#"{"status":"pending","resources":["a",5]}"#;
    assert!(matches!(SPN2CaptureStatus::from_json_str(status), Err(SpnError::Decode)));
}

#[test]
fn system_status_ok_literal() {
    let r = SPN2SystemStatus::from_json_str(r#"{"status":"ok"}"#).unwrap();
    assert!(matches!(r, SPN2SystemStatus::Healthy));
}

#[test]
fn system_status_other_text_is_issues_with_that_description() {
    let r = SPN2SystemStatus::from_json_str(
        r#"{"status":"Save Page Now servers are temporarily overloaded."}"#,
    )
    .unwrap();
    match r {
        SPN2SystemStatus::Issues { description } => {
            assert_eq!(description, "Save Page Now servers are temporarily overloaded.");
        }
        _ => panic!("expected the issues variant"),
    }
}

#[test]
fn system_status_bad_gateway_is_critical_without_body_parse() {
    let r = SPN2SystemStatus::from_http_response(502, "<html>overloaded</html>").unwrap();
    assert!(matches!(r, SPN2SystemStatus::Critical));
}

#[test]
fn system_status_without_string_status_fails_decode() {
    assert!(matches!(
        SPN2SystemStatus::from_json_str(r#"{"status":5}"#),
        Err(SpnError::Decode)
    ));
    assert!(matches!(SPN2SystemStatus::from_json_str(r#"["ok"]"#), Err(SpnError::Decode)));
}

#[test]
fn unexpected_status_code_carries_code_and_body() {
    let r = SPN2CaptureStatus::from_http_response(429, "slow down");
    match r {
        Err(SpnError::UnexpectedStatus { code, body }) => {
            assert_eq!(code, 429);
            assert_eq!(body, "slow down");
        }
        _ => panic!("expected the unexpected-status error"),
    }
}

#[test]
fn capture_response_decodes_url_and_job_id() {
    let body = r#"{"url":"https://example.com","job_id":"abc-123","extra":true}"#;
    let r = SPN2CaptureResponse::from_http_response(200, body).unwrap();
    assert_eq!(r.url, "https://example.com");
    assert_eq!(r.job_id, "abc-123");
}

#[test]
fn capture_response_missing_field_fails_decode() {
    let body = r#"{"url":"https://example.com"}"#;
    assert!(matches!(
        SPN2CaptureResponse::from_http_response(200, body),
        Err(SpnError::Decode)
    ));
}

#[test]
fn user_status_decodes_counters() {
    let body = r#"{"available":12,"processing":3}"#;
    let r = SPN2UserStatus::from_http_response(200, body).unwrap();
    assert_eq!(r.available, 12);
    assert_eq!(r.processing, 3);
}

#[test]
fn user_status_rejects_non_integer_counters() {
    assert!(matches!(
        SPN2UserStatus::from_json_str(r#"{"available":-1,"processing":3}"#),
        Err(SpnError::Decode)
    ));
    assert!(matches!(
        SPN2UserStatus::from_json_str(r#"{"available":1.5,"processing":3}"#),
        Err(SpnError::Decode)
    ));
}

#[test]
fn default_params_encode_zeros_and_omit_optionals() {
    let opt_params = SPN2CaptureRequestOptParams::default();
    let encoded = capture_request_body("example.com", &opt_params);
    let expected = "url=example.com&capture_all=0&capture_outlinks=0&\
                    capture_screenshot=0&delay_wb_availability=0&force_get=0&\
                    skip_first_archive=0&outlinks_availability=0&email_result=0";
    assert_eq!(expected, encoded);
}

#[test]
fn form_encoding_escapes_reserved_characters() {
    let opt_params = SPN2CaptureRequestOptParams {
        use_user_agent: Some("a b+c/\u{00fc}".to_string()),
        ..Default::default()
    };
    let encoded = capture_request_body("https://example.com/?q=1", &opt_params);
    let expected = "url=https%3A%2F%2Fexample.com%2F%3Fq%3D1&capture_all=0&capture_outlinks=0&\
                    capture_screenshot=0&delay_wb_availability=0&force_get=0&\
                    skip_first_archive=0&outlinks_availability=0&email_result=0&\
                    use_user_agent=a+b%2Bc%2F%C3%BC";
    assert_eq!(expected, encoded);
}

#[test]
fn every_optional_field_encodes_in_order() {
    let opt_params = SPN2CaptureRequestOptParams {
        if_not_archived_within: Some(86400),
        js_behavior_timeout: Some(30),
        capture_cookie: Some("k=v; n=1".to_string()),
        use_user_agent: Some("Agent".to_string()),
        target_username: Some("user".to_string()),
        target_password: Some("p w".to_string()),
        ..Default::default()
    };
    let encoded = capture_request_body("example.com", &opt_params);
    let expected = "url=example.com&capture_all=0&capture_outlinks=0&\
                    capture_screenshot=0&delay_wb_availability=0&force_get=0&\
                    skip_first_archive=0&outlinks_availability=0&email_result=0&\
                    if_not_archived_within=86400&js_behavior_timeout=30&\
                    capture_cookie=k%3Dv%3B+n%3D1&use_user_agent=Agent&\
                    target_username=user&target_password=p+w";
    assert_eq!(expected, encoded);
}

#[test]
fn system_status_unexpected_code_is_an_error() {
    let r = SPN2SystemStatus::from_http_response(503, "down");
    match r {
        Err(SpnError::UnexpectedStatus { code, body }) => {
            assert_eq!(code, 503);
            assert_eq!(body, "down");
        }
        _ => panic!("expected the unexpected-status error"),
    }
}

#[test]
fn user_status_unexpected_code_is_an_error() {
    assert!(matches!(
        SPN2UserStatus::from_http_response(401, ""),
        Err(SpnError::UnexpectedStatus { code: 401, .. })
    ));
}

#[test]
fn client_rejects_credentials_invalid_in_a_header() {
    let r = SPN2Client::new("my\nkey".to_string(), "secret".to_string(), 5000);
    assert!(matches!(r, Err(SpnError::Config)));
    let r = SPN2Client::new("key".to_string(), "se\u{7f}cret".to_string(), 5000);
    assert!(matches!(r, Err(SpnError::Config)));
}

#[test]
fn client_builds_the_authorization_header() {
    let c = SPN2Client::new("mykey".to_string(), "mysecret".to_string(), 5000).unwrap();
    assert_eq!(c.auth_header_value(), "LOW mykey:mysecret");
    assert_eq!(c.timeout_ms(), 5000);
}

#[test]
fn set_timeout_changes_only_the_timeout() {
    let mut c = SPN2Client::new("k".to_string(), "s".to_string(), 1000).unwrap();
    c.set_timeout(250);
    assert_eq!(c.timeout_ms(), 250);
    assert_eq!(c.auth_header_value(), "LOW k:s");
}

#[test]
fn endpoint_urls_are_exact() {
    assert_eq!(api_capture_url(), "https://web.archive.org/save");
    assert_eq!(api_system_status_url(), "https://web.archive.org/save/status/system");
    assert_eq!(
        capture_status_url("e70f23c7"),
        "https://web.archive.org/save/status/e70f23c7"
    );
    assert_eq!(
        user_status_url(1664712240),
        "https://web.archive.org/save/status/user?_t=1664712240"
    );
}

#[test]
fn decimal_digits_are_exact() {
    assert_eq!(u64_to_string(0), "0");
    assert_eq!(u64_to_string(10), "10");
    assert_eq!(u64_to_string(u64::MAX), "18446744073709551615");
}
