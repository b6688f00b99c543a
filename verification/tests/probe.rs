use steward_harness::probe::{
    command, curl_status, parse_http_response, retryable_provider_grant_status, ProcessOutput,
};

fn output(success: bool, stdout: &[u8], stderr: &[u8]) -> ProcessOutput {
    ProcessOutput {
        success,
        stdout: stdout.to_vec(),
        stderr: stderr.to_vec(),
    }
}

#[test]
fn only_the_transparent_provider_grant_failure_is_retried() {
    assert!(
        retryable_provider_grant_status(502),
        "the OpenShell transparent relay uses 502 for an in-progress dynamic provider grant"
    );
    for status in [200, 400, 401, 403, 404, 500, 503] {
        assert!(
            !retryable_provider_grant_status(status),
            "status {status} must fail closed rather than hide a non-grant failure"
        );
    }
}

#[test]
fn http_probe_retains_the_safe_body_and_status() -> Result<(), String> {
    let response = parse_http_response(
        ProcessOutput {
            success: true,
            stdout: b"{\"error\":\"grant pending\"}\n__STEWARD_HTTP_STATUS:502\n".to_vec(),
            stderr: Vec::new(),
        },
        "provider probe",
    )?;
    assert_eq!(response.status, 502);
    assert_eq!(response.body, r#"{"error":"grant pending"}"#);
    Ok(())
}

#[test]
fn a_marker_in_the_body_does_not_end_the_body() {
    let response = parse_http_response(
        output(
            true,
            b"a __STEWARD_HTTP_STATUS:999 b\n\n\n__STEWARD_HTTP_STATUS:200\n",
            b"",
        ),
        "probe",
    )
    .ok()
    .unwrap();
    assert_eq!(response.status, 200);
    assert_eq!(response.body, "a __STEWARD_HTTP_STATUS:999 b");
}

#[test]
fn a_probe_that_did_not_complete_is_told_with_its_complaint() {
    let words = parse_http_response(output(false, b"", b"  no route\xff \n"), "probe")
        .err()
        .unwrap();
    assert_eq!(words, "probe did not complete: no route\u{fffd}");
}

#[test]
fn a_probe_that_is_not_text_is_refused() {
    let words = parse_http_response(output(true, b"\xff", b""), "probe")
        .err()
        .unwrap();
    assert_eq!(words, "invalid utf-8 sequence of 1 bytes from index 0");
}

#[test]
fn a_probe_without_a_status_is_refused() {
    assert_eq!(
        parse_http_response(output(true, b"body", b""), "probe")
            .err()
            .unwrap(),
        "probe did not return an HTTP status marker"
    );
    assert_eq!(
        parse_http_response(output(true, b"body__STEWARD_HTTP_STATUS:2x0", b""), "probe")
            .err()
            .unwrap(),
        "probe returned an invalid HTTP status: invalid digit found in string"
    );
    assert_eq!(
        parse_http_response(output(true, b"__STEWARD_HTTP_STATUS: \n", b""), "probe")
            .err()
            .unwrap(),
        "probe returned an invalid HTTP status: cannot parse integer from empty string"
    );
    assert_eq!(
        parse_http_response(output(true, b"__STEWARD_HTTP_STATUS:65536", b""), "probe")
            .err()
            .unwrap(),
        "probe returned an invalid HTTP status: number too large to fit in target type"
    );
}

#[test]
fn a_status_may_stand_among_white_space() {
    let response = parse_http_response(
        output(true, "x__STEWARD_HTTP_STATUS:\u{2003}+404\u{a0}\r\n".as_bytes(), b""),
        "probe",
    )
    .ok()
    .unwrap();
    assert_eq!((response.status, response.body.as_str()), (404, "x"));
}

#[test]
fn curl_writes_its_status_and_nothing_else() {
    assert_eq!(curl_status(output(true, b"204", b""), "put"), Ok(204));
    assert_eq!(
        curl_status(output(true, b"204\n", b""), "put"),
        Err("invalid digit found in string".to_owned())
    );
    assert_eq!(
        curl_status(output(false, b"", b" refused "), "put"),
        Err("put failed:  refused ".to_owned())
    );
    assert!(curl_status(output(true, b"\xc3", b""), "put").is_err());
}

#[test]
fn a_command_is_told_by_its_context_when_it_fails() {
    assert_eq!(command(true, "create task input tar"), Ok(()));
    assert_eq!(
        command(false, "create task input tar"),
        Err("create task input tar failed".to_owned())
    );
}
