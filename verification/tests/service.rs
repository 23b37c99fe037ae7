use ytdlp_api::config::load_config;
use ytdlp_api::config::ApiConfig;
use ytdlp_api::errors::ApiError;
use ytdlp_api::errors::ErrorBody;
use ytdlp_api::handlers::begin_download;
use ytdlp_api::handlers::filename_phase_result;
use ytdlp_api::handlers::stream_phase_result;
use ytdlp_api::handlers::supervisor_decision;
use ytdlp_api::handlers::CreateFigureRequest;
use ytdlp_api::handlers::ProcOutcome;
use ytdlp_api::handlers::SpawnOutcome;
use ytdlp_api::handlers::SupervisorAction;
use ytdlp_api::handlers::WaitOutcome;
use ytdlp_api::text::trim_str;
use ytdlp_api::validated_query::validated_figure_query;
use ytdlp_api::validated_query::QueryErrorBody;
use ytdlp_api::validated_query::ServerError;

fn test_config() -> ApiConfig {
    ApiConfig {
        server_url: String::from("0.0.0.0:3000"),
        max_file_size: String::from("100M"),
        yt_dlp_path: String::from("/usr/bin/yt-dlp"),
        fetch_filename_timeout: 10,
        fetch_media_timeout: 120,
    }
}

const FORMAT: &str = "bestvideo[ext=mp4]+bestaudio[ext=m4a]/best[ext=mp4]/best";

#[test]
fn load_config_builds_from_complete_values() {
    let r = load_config(
        Some(String::from("127.0.0.1:8080")),
        Some(String::from("50M")),
        Some(String::from("yt-dlp")),
        Some(7),
        Some(90),
    );
    let c = r.expect("complete values must yield a configuration");
    assert_eq!(c.server_url, "127.0.0.1:8080");
    assert_eq!(c.max_file_size, "50M");
    assert_eq!(c.yt_dlp_path, "yt-dlp");
    assert_eq!(c.fetch_filename_timeout, 7);
    assert_eq!(c.fetch_media_timeout, 90);
}

#[test]
fn load_config_rejects_missing_value() {
    let r = load_config(
        Some(String::from("127.0.0.1:8080")),
        None,
        Some(String::from("yt-dlp")),
        Some(7),
        Some(90),
    );
    assert_eq!(r.unwrap_err(), "configuration is missing required values");
}

#[test]
fn error_dto_keeps_message() {
    let d = ytdlp_api::dto::ErrorDTO::new(String::from("nope"));
    assert_eq!(d.message, "nope");
    let d2 = ytdlp_api::errors::ErrorDTO::new(String::from("nope"));
    assert_eq!(d2.message, "nope");
}

#[test]
fn validate_accepts_well_formed_url() {
    let req = CreateFigureRequest {
        url: String::from("https://example.com/watch?v=abc"),
    };
    assert!(req.validate().is_ok());
}

#[test]
fn validate_rejects_malformed_url() {
    let req = CreateFigureRequest {
        url: String::from("not a url at all"),
    };
    let issues = req.validate().unwrap_err();
    assert_eq!(issues.issues.len(), 1);
    assert_eq!(issues.issues[0].field, "url");
    assert_eq!(issues.issues[0].message, "invalid URL");
}

#[test]
fn validate_rejects_wrong_scheme_as_field_error() {
    for url in ["http://example.com/v", "ftp://example.com/v"] {
        let req = CreateFigureRequest { url: String::from(url) };
        let issues = req.validate().unwrap_err();
        assert_eq!(issues.issues.len(), 1);
        assert_eq!(issues.issues[0].field, "url");
        assert_eq!(issues.issues[0].message, "URL scheme must be https");
    }
}

#[test]
fn validate_accepts_uppercase_scheme() {
    let req = CreateFigureRequest {
        url: String::from("HTTPS://EXAMPLE.COM/V"),
    };
    assert!(req.validate().is_ok());
}

#[test]
fn validated_query_passes_value_through() {
    let req = CreateFigureRequest {
        url: String::from("https://example.com/v"),
    };
    let q = validated_figure_query(req).ok().expect("a valid URL must pass");
    assert_eq!(q.0.url, "https://example.com/v");
}

#[test]
fn validated_query_rejects_with_field_errors() {
    let req = CreateFigureRequest {
        url: String::from("::not-a-url::"),
    };
    let e = match validated_figure_query(req) {
        Err(e) => e,
        Ok(_) => panic!("a malformed URL must be rejected"),
    };
    let (status, body) = e.into_response_parts();
    assert_eq!(status, 400);
    match body {
        QueryErrorBody::WithValidation(b) => {
            assert_eq!(b.message, "validation errors ocurred");
            assert_eq!(b.errors.issues[0].field, "url");
        }
        QueryErrorBody::Plain(_) => panic!("validation failures carry field errors"),
    }
}

#[test]
fn validated_query_rejects_wrong_scheme_with_validation_body() {
    let req = CreateFigureRequest {
        url: String::from("http://example.com/v"),
    };
    let e = match validated_figure_query(req) {
        Err(e) => e,
        Ok(_) => panic!("a non-secure scheme must be rejected at validation"),
    };
    let (status, body) = e.into_response_parts();
    assert_eq!(status, 400);
    match body {
        QueryErrorBody::WithValidation(b) => {
            assert_eq!(b.message, "validation errors ocurred");
            assert_eq!(b.errors.issues[0].field, "url");
            assert_eq!(b.errors.issues[0].message, "URL scheme must be https");
        }
        QueryErrorBody::Plain(_) => panic!("a wrong scheme is a field-level failure"),
    }
}

#[test]
fn query_rejection_keeps_its_text() {
    let e = ServerError::AxumFormRejection(String::from("missing field `url`"));
    let (status, body) = e.into_response_parts();
    assert_eq!(status, 400);
    match body {
        QueryErrorBody::Plain(b) => assert_eq!(b.message, "missing field `url`"),
        QueryErrorBody::WithValidation(_) => panic!("a rejection carries a bare message"),
    }
}

#[test]
fn begin_download_builds_filename_command() {
    let cfg = test_config();
    let url = String::from("https://example.com/v");
    let cmd = begin_download(&cfg, &url).ok().expect("a secure URL must pass the scheme check");
    assert_eq!(cmd.program, "/usr/bin/yt-dlp");
    let args: Vec<&str> = cmd.args.iter().map(|a| a.as_str()).collect();
    assert_eq!(
        args,
        vec![
            "-q",
            "--print",
            "filename",
            "--restrict-filenames",
            "-f",
            FORMAT,
            "--max-filesize",
            "100M",
            "--",
            "https://example.com/v",
        ]
    );
}

#[test]
fn begin_download_accepts_uppercase_scheme() {
    let cfg = test_config();
    let url = String::from("HTTPS://EXAMPLE.COM/V");
    assert!(begin_download(&cfg, &url).is_ok());
}

#[test]
fn begin_download_still_rejects_plain_http() {
    // validation refuses a non-secure scheme first; this layer re-checks it
    let cfg = test_config();
    let url = String::from("http://example.com/v");
    let e = begin_download(&cfg, &url).err().expect("plain HTTP must be rejected");
    assert!(matches!(e, ApiError::CannotDownloadBadRequest));
    assert_eq!(e.status_code(), 400);
}

#[test]
fn begin_download_rejects_other_schemes() {
    let cfg = test_config();
    for url in ["ftp://example.com/v", "file:///etc/passwd", "https:/x", ""] {
        let r = begin_download(&cfg, &String::from(url));
        assert!(r.is_err(), "scheme check must reject {url}");
    }
}

#[test]
fn filename_phase_trims_and_builds_stream_command() {
    let cfg = test_config();
    let url = String::from("https://example.com/v");
    let outcome = ProcOutcome::Completed(b"My_Video.mp4\n".to_vec());
    let (name, cmd) = filename_phase_result(&cfg, &url, outcome)
        .ok()
        .expect("a non-empty filename must succeed");
    assert_eq!(name, "My_Video.mp4");
    assert_eq!(cmd.program, "/usr/bin/yt-dlp");
    let args: Vec<&str> = cmd.args.iter().map(|a| a.as_str()).collect();
    assert_eq!(
        args,
        vec![
            "-q",
            "-o",
            "-",
            "-f",
            FORMAT,
            "--max-filesize",
            "100M",
            "--",
            "https://example.com/v",
        ]
    );
}

#[test]
fn filename_phase_rejects_blank_output() {
    let cfg = test_config();
    let url = String::from("https://example.com/v");
    for out in [&b""[..], b"\n", b"   \t\r\n"] {
        let e = filename_phase_result(&cfg, &url, ProcOutcome::Completed(out.to_vec()))
            .err()
            .expect("blank output must be rejected");
        assert!(matches!(e, ApiError::CannotDownloadBadRequest));
        assert_eq!(e.status_code(), 400);
    }
}

#[test]
fn filename_phase_substitutes_invalid_bytes() {
    let cfg = test_config();
    let url = String::from("https://example.com/v");
    let outcome = ProcOutcome::Completed(vec![0xff, b'a', 0xfe, b'\n']);
    let (name, _) = filename_phase_result(&cfg, &url, outcome)
        .ok()
        .expect("invalid bytes are substituted, not fatal");
    assert_eq!(name, "\u{fffd}a\u{fffd}");
}

#[test]
fn filename_phase_timeout_is_504() {
    let cfg = test_config();
    let url = String::from("https://example.com/v");
    let e = filename_phase_result(&cfg, &url, ProcOutcome::TimedOut).unwrap_err();
    assert!(matches!(e, ApiError::CannotDownloadTimeout));
    assert_eq!(e.status_code(), 504);
}

#[test]
fn filename_phase_spawn_failure_is_500() {
    let cfg = test_config();
    let url = String::from("https://example.com/v");
    let e = filename_phase_result(&cfg, &url, ProcOutcome::SpawnFailed).unwrap_err();
    assert!(matches!(e, ApiError::CannotDownloadInternal));
    assert_eq!(e.status_code(), 500);
}

#[test]
fn stream_phase_assembles_mp4_response() {
    let name = String::from("video.mp4");
    let head = stream_phase_result(&name, &SpawnOutcome::Spawned)
        .ok()
        .expect("a captured pipe must yield a response");
    assert_eq!(head.status, 200);
    assert_eq!(head.content_type, "video/mp4");
    assert_eq!(head.content_disposition, "attachment; filename=\"video.mp4\"");
}

#[test]
fn stream_phase_falls_back_to_octet_stream() {
    let name = String::from("payload.unknownext");
    let head = stream_phase_result(&name, &SpawnOutcome::Spawned).ok().unwrap();
    assert_eq!(head.content_type, "application/octet-stream");
}

#[test]
fn stream_phase_failures_are_internal() {
    let name = String::from("video.mp4");
    for outcome in [SpawnOutcome::Failed, SpawnOutcome::SpawnedWithoutStdout] {
        let e = stream_phase_result(&name, &outcome).unwrap_err();
        assert!(matches!(e, ApiError::CannotDownloadInternal));
        assert_eq!(e.status_code(), 500);
    }
}

#[test]
fn supervisor_kills_only_on_deadline() {
    assert_eq!(supervisor_decision(&WaitOutcome::Exited), SupervisorAction::Finish);
    assert_eq!(supervisor_decision(&WaitOutcome::WaitFailed), SupervisorAction::ReportFailure);
    assert_eq!(
        supervisor_decision(&WaitOutcome::DeadlineExpired),
        SupervisorAction::KillProcess
    );
}

#[test]
fn api_error_maps_to_exact_responses() {
    let (status, body) = ApiError::CannotDownloadBadRequest.into_response_parts();
    assert_eq!(status, 400);
    match body {
        ErrorBody::Plain(b) => {
            assert_eq!(b.message, "sorry, cannot download this (the reason is likely a bad URL).")
        }
        ErrorBody::WithValidation(_) => panic!("bad request carries a bare message"),
    }
    let (status, body) = ApiError::CannotDownloadInternal.into_response_parts();
    assert_eq!(status, 500);
    match body {
        ErrorBody::Plain(b) => {
            assert_eq!(b.message, "sorry, cannot download this (the reason likely on our side).")
        }
        ErrorBody::WithValidation(_) => panic!("internal failure carries a bare message"),
    }
    let (status, body) = ApiError::CannotDownloadTimeout.into_response_parts();
    assert_eq!(status, 504);
    match body {
        ErrorBody::Plain(b) => assert_eq!(b.message, "sorry, cannot download this (timed out)."),
        ErrorBody::WithValidation(_) => panic!("timeout carries a bare message"),
    }
}

#[test]
fn trim_removes_unicode_white_space() {
    assert_eq!(trim_str("  a b\t\n"), "a b");
    assert_eq!(trim_str("\u{3000}x\u{2028}"), "x");
    assert_eq!(trim_str(""), "");
    assert_eq!(trim_str(" \t\r\n"), "");
    assert_eq!(trim_str("inner  space"), "inner  space");
}

#[test]
fn error_with_validation_dto_keeps_parts() {
    let issues = ytdlp_api::dto::ValidationIssues {
        issues: vec![ytdlp_api::dto::FieldIssue {
            field: String::from("url"),
            message: String::from("invalid URL"),
        }],
    };
    let d = ytdlp_api::dto::ErrorWithValidationErrorsDTO::new(
        String::from("validation errors ocurred"),
        issues.clone(),
    );
    assert_eq!(d.message, "validation errors ocurred");
    assert_eq!(d.errors.issues[0].field, "url");
    let d2 = ytdlp_api::errors::ErrorWithValidationErrorsDTO::new(
        String::from("validation errors ocurred"),
        issues,
    );
    assert_eq!(d2.errors.issues[0].message, "invalid URL");
}

#[test]
fn trim_is_idempotent_on_samples() {
    for s in ["  a b ", "\nvideo.mp4\n", "", "x", " \u{a0} "] {
        let once = trim_str(s);
        let twice = trim_str(once.as_str());
        assert_eq!(once, twice);
    }
}
