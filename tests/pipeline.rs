use tts_gateway::auth::{bearer_token, check_authorization, AuthFailure};
use tts_gateway::level::{LogLevel, MaxLevel};
use tts_gateway::routing::{file_id, root_segment, route, BackendOp, BackendVariant, ConfigError, Route};
use tts_gateway::server::{Plan, ServerConfig};
use tts_gateway::telemetry::{declared_length, parse_decimal_u64, response_record, DeclaredLength};

fn config(secret: Option<&str>, backend: BackendVariant) -> ServerConfig {
    ServerConfig::new(secret.map(|s| s.to_string()), backend)
}

const VARIANTS: [BackendVariant; 3] =
    [BackendVariant::Piper, BackendVariant::GptSovits, BackendVariant::Disabled];

#[test]
fn absent_header_reaches_router() {
    for secret in [None, Some("abc123")] {
        let c = config(secret, BackendVariant::Piper);
        assert_eq!(c.plan("/v1/audio/speech", None), Plan::SynthesizeSpeech);
        assert_eq!(c.plan("/v1/files", None), Plan::ServeFile);
        assert_eq!(c.plan("/other", None), Plan::NotFound);
    }
}

#[test]
fn bearer_token_allowed_only_when_equal() {
    let c = config(Some("s3cret"), BackendVariant::GptSovits);
    assert_eq!(c.plan("/v1/audio/speech", Some(b"Bearer s3cret")), Plan::SynthesizeSpeech);
    let denied = c.plan("/v1/audio/speech", Some(b"Bearer s3cre"));
    assert_eq!(denied, Plan::Unauthorized(AuthFailure::InvalidKey));
    let reply = denied.reply("/v1/audio/speech").unwrap();
    assert_eq!(reply.status, 401);
    assert_eq!(reply.body, "Invalid API key.");
}

#[test]
fn echo_answers_whatever_the_request() {
    for backend in VARIANTS {
        for header in [None, Some(&b"Bearer wrong"[..]), Some(&b"\xff"[..])] {
            let c = config(Some("abc123"), backend);
            let plan = c.plan("/echo", header);
            assert_eq!(plan, Plan::Echo);
            let reply = plan.reply("/echo").unwrap();
            assert_eq!(reply.status, 200);
            assert!(!reply.body.is_empty());
            assert_eq!(reply.body, "echo test");
        }
    }
}

#[test]
fn unknown_v1_path_is_not_found_with_path_in_body() {
    for backend in VARIANTS {
        let c = config(None, backend);
        let plan = c.plan("/v1/unknown", None);
        assert_eq!(plan, Plan::NotFound);
        let reply = plan.reply("/v1/unknown").unwrap();
        assert_eq!(reply.status, 404);
        assert!(reply.body.contains("/v1/unknown"));
    }
}

#[test]
fn file_routes_depend_on_variant() {
    let a = config(None, BackendVariant::Piper);
    assert_eq!(a.plan("/v1/files/abc", None), Plan::ServeFile);
    assert_eq!(a.plan("/v1/files", None), Plan::ServeFile);
    let b = config(None, BackendVariant::GptSovits);
    assert_eq!(b.plan("/v1/files/abc", None), Plan::NotFound);
    assert_eq!(b.plan("/v1/files", None), Plan::NotFound);
    assert_eq!(b.plan("/v1/audio/speech", None), Plan::SynthesizeSpeech);
    assert!(a.plan("/v1/files/abc", None).reply("/v1/files/abc").is_none());
}

#[test]
fn disabled_backend_finds_nothing_under_v1() {
    let c = config(None, BackendVariant::Disabled);
    assert_eq!(c.plan("/v1/audio/speech", None), Plan::NotFound);
    assert_eq!(c.plan("/v1/files/abc", None), Plan::NotFound);
}

#[test]
fn echo_twice_gives_two_equal_answers() {
    let c = config(Some("abc123"), BackendVariant::Piper);
    let first = c.plan("/echo", None).reply("/echo").unwrap();
    let second = c.plan("/echo", None).reply("/echo").unwrap();
    assert_eq!(first.status, 200);
    assert_eq!(second.status, 200);
    assert_eq!(first.body, second.body);
    assert!(c.requires_token());
    assert_eq!(c.backend(), BackendVariant::Piper);
}

#[test]
fn secret_abc123_scenario() {
    let c = config(Some("abc123"), BackendVariant::Piper);
    assert_eq!(c.plan("/v1/files", Some(b"Bearer abc123")), Plan::ServeFile);
    assert_eq!(
        c.plan("/v1/files", Some(b"Bearer wrong")),
        Plan::Unauthorized(AuthFailure::InvalidKey)
    );
    assert_eq!(c.plan("/v1/files", Some(b"")), Plan::ServeFile);
}

#[test]
fn token_after_any_whitespace_is_accepted() {
    let c = config(Some("abc"), BackendVariant::Piper);
    assert_eq!(c.plan("/v1/files", Some(b"Bearer  abc")), Plan::ServeFile);
    assert_eq!(c.plan("/v1/files", Some(b"Bearer\tabc")), Plan::ServeFile);
    assert_eq!(
        c.plan("/v1/files", Some(b"Bearer\tabcd")),
        Plan::Unauthorized(AuthFailure::InvalidKey)
    );
}

#[test]
fn no_secret_allows_any_token() {
    let c = config(None, BackendVariant::Piper);
    assert!(!c.requires_token());
    assert_eq!(c.plan("/v1/files", Some(b"Bearer anything")), Plan::ServeFile);
}

#[test]
fn unreadable_header_is_refused() {
    let c = config(None, BackendVariant::Piper);
    let plan = c.plan("/v1/files", Some(b"Bearer \xff\xfe"));
    assert_eq!(plan, Plan::Unauthorized(AuthFailure::UnreadableHeader));
    let reply = plan.reply("/v1/files").unwrap();
    assert_eq!(reply.status, 401);
    assert_eq!(
        reply.body,
        "Failed to get authorization header: the value is not valid UTF-8"
    );
    assert_eq!(
        check_authorization(Some(b"Bearer \xc3"), Some(b"abc")),
        Err(AuthFailure::UnreadableHeader)
    );
    assert_eq!(
        check_authorization(Some(b"Bearer \xed\xa0\x80"), None),
        Err(AuthFailure::UnreadableHeader)
    );
    assert_eq!(check_authorization(Some(b"Bearer\tx\x01"), None), Ok(()));
}

#[test]
fn utf8_token_is_compared() {
    let c = config(Some("\u{e9}"), BackendVariant::Piper);
    assert_eq!(c.plan("/v1/files", Some("Bearer \u{e9}".as_bytes())), Plan::ServeFile);
    assert_eq!(c.plan("/v1/unknown", Some("Basic \u{e9}".as_bytes())), Plan::NotFound);
    assert_eq!(
        c.plan("/v1/files", Some("Bearer \u{e8}".as_bytes())),
        Plan::Unauthorized(AuthFailure::InvalidKey)
    );
    assert_eq!(
        check_authorization(Some("Bearer caf\u{e9}".as_bytes()), None),
        Ok(())
    );
}

#[test]
fn token_is_second_whitespace_field() {
    assert_eq!(bearer_token(b"Bearer abc"), b"abc");
    assert_eq!(bearer_token(b"Bearer"), b"");
    assert_eq!(bearer_token(b"Basic abc def"), b"abc");
    assert_eq!(bearer_token(b"Bearer  abc"), b"abc");
    assert_eq!(bearer_token(b"Bearer\tabc"), b"abc");
    assert_eq!(bearer_token(b"  Bearer \t abc \t"), b"abc");
    assert_eq!(bearer_token(b"Bearer "), b"");
    assert_eq!(bearer_token(b""), b"");
    assert_eq!(
        check_authorization(Some(b"Token abc"), Some(b"abc")),
        Ok(())
    );
    assert_eq!(
        check_authorization(Some(b"abc"), Some(b"abc")),
        Err(AuthFailure::InvalidKey)
    );
}

#[test]
fn routing_on_first_segment() {
    assert_eq!(root_segment("/v1/audio/speech"), "/v1");
    assert_eq!(root_segment("/echo"), "/echo");
    assert_eq!(root_segment("/"), "/");
    assert_eq!(root_segment(""), "");
    assert_eq!(route("/echo"), Route::Echo);
    assert_eq!(route("/echo/more"), Route::Echo);
    assert_eq!(route("/v1"), Route::Backend);
    assert_eq!(route("/v1/x"), Route::Backend);
    assert_eq!(route("/v10"), Route::NotFound);
    assert_eq!(route("/"), Route::NotFound);
}

#[test]
fn dispatch_by_full_path() {
    let p = BackendVariant::Piper;
    assert_eq!(p.dispatch("/v1/audio/speech"), BackendOp::SynthesizeSpeech);
    assert_eq!(p.dispatch("/v1/audio/speech/"), BackendOp::NotFound);
    assert_eq!(p.dispatch("/v1/filesx"), BackendOp::NotFound);
    assert_eq!(p.dispatch("/v1/files/"), BackendOp::ServeFile);
    assert!(p.has_file_serving());
    assert!(!BackendVariant::GptSovits.has_file_serving());
    assert!(BackendVariant::GptSovits.has_synthesis());
    assert!(!BackendVariant::Disabled.has_synthesis());
}

#[test]
fn backend_selection_is_exclusive() {
    assert_eq!(BackendVariant::select(true, true), Err(ConfigError::ConflictingBackends));
    assert_eq!(BackendVariant::select(true, false), Ok(BackendVariant::Piper));
    assert_eq!(BackendVariant::select(false, true), Ok(BackendVariant::GptSovits));
    assert_eq!(BackendVariant::select(false, false), Ok(BackendVariant::Disabled));
}

#[test]
fn level_names_in_any_case() {
    assert_eq!(LogLevel::from_name("TRACE"), Ok(LogLevel::Trace));
    assert_eq!(LogLevel::from_name("Debug"), Ok(LogLevel::Debug));
    assert_eq!(LogLevel::from_name("info"), Ok(LogLevel::Info));
    assert_eq!(LogLevel::from_name("wArN"), Ok(LogLevel::Warn));
    assert_eq!(LogLevel::from_name("ERROR"), Ok(LogLevel::Error));
    assert_eq!(LogLevel::from_name("Critical"), Ok(LogLevel::Critical));
    assert_eq!(
        LogLevel::from_name("loud"),
        Err("Invalid log level: loud".to_string())
    );
    assert_eq!("WARN".parse::<LogLevel>(), Ok(LogLevel::Warn));
    assert_eq!("INFO".parse::<LogLevel>(), Ok(LogLevel::Info));
    assert_eq!("Critical".parse::<LogLevel>(), Ok(LogLevel::Critical));
    assert_eq!(
        "VERBOSE".parse::<LogLevel>(),
        Err("Invalid log level: VERBOSE".to_string())
    );
    for bad in ["", " info", "info ", "warning", "stdout=info"] {
        assert!(bad.parse::<LogLevel>().is_err());
    }
    for level in [
        LogLevel::Trace,
        LogLevel::Debug,
        LogLevel::Info,
        LogLevel::Warn,
        LogLevel::Error,
        LogLevel::Critical,
    ] {
        assert_eq!(level.as_str().parse::<LogLevel>(), Ok(level));
    }
    assert_eq!(LogLevel::from_lowercase("Warn"), None);
    assert_eq!(LogLevel::from_lowercase("warn"), Some(LogLevel::Warn));
}

#[test]
fn level_from_setting() {
    assert_eq!(LogLevel::from_setting(""), LogLevel::Info);
    assert_eq!(LogLevel::from_setting("DEBUG"), LogLevel::Debug);
    assert_eq!(LogLevel::from_setting("stdout=Trace"), LogLevel::Trace);
    assert_eq!(LogLevel::from_setting("stdout=nonsense"), LogLevel::Info);
    assert_eq!(LogLevel::from_setting("nonsense"), LogLevel::Info);
    assert_eq!(LogLevel::from_setting("a=b=error"), LogLevel::Info);
    assert_eq!(LogLevel::from_lowered_setting("x=warn"), LogLevel::Warn);
}

#[test]
fn level_names_and_thresholds() {
    assert_eq!(LogLevel::Critical.as_str(), "critical");
    assert_eq!(LogLevel::Trace.as_str(), "trace");
    assert_eq!(LogLevel::Critical.max_level(), MaxLevel::Error);
    assert_eq!(LogLevel::Error.max_level(), MaxLevel::Error);
    assert_eq!(LogLevel::Debug.max_level(), MaxLevel::Debug);
    assert!(LogLevel::Critical.at_least(&LogLevel::Error));
    assert!(!LogLevel::Trace.at_least(&LogLevel::Debug));
    assert!(LogLevel::Info.at_least(&LogLevel::Info));
}

#[test]
fn response_records_by_status_class() {
    let ok = response_record(200, 9);
    assert_eq!(ok.severity, LogLevel::Info);
    assert!(ok.success);
    assert_eq!(ok.error_class, None);
    assert_eq!(ok.body_size, 9);
    let redirect = response_record(302, 0);
    assert_eq!(redirect.severity, LogLevel::Info);
    assert!(!redirect.success);
    let missing = response_record(404, 11);
    assert_eq!(missing.severity, LogLevel::Error);
    let class = missing.error_class.unwrap();
    assert!(class.client_error && !class.server_error);
    let failed = response_record(500, 0);
    let class = failed.error_class.unwrap();
    assert!(!class.client_error && class.server_error);
    assert_eq!(response_record(399, 0).error_class, None);
    assert_eq!(response_record(400, 0).status, 400);
}

#[test]
fn declared_length_for_post_only() {
    assert_eq!(declared_length("GET", Some(b"12")), DeclaredLength::NotLogged);
    assert_eq!(declared_length("POST", None), DeclaredLength::Length(0));
    assert_eq!(declared_length("POST", Some(b"1234")), DeclaredLength::Length(1234));
    assert_eq!(declared_length("POST", Some(b"12a")), DeclaredLength::Malformed);
    assert_eq!(declared_length("PUT", Some(b"5")), DeclaredLength::Length(5));
    assert_eq!(declared_length("PATCH", None), DeclaredLength::Length(0));
    assert_eq!(declared_length("DELETE", Some(b"5")), DeclaredLength::NotLogged);
}

#[test]
fn decimal_parsing() {
    assert_eq!(parse_decimal_u64(b"0"), Some(0));
    assert_eq!(parse_decimal_u64(b"+7"), Some(7));
    assert_eq!(parse_decimal_u64(b"+"), None);
    assert_eq!(parse_decimal_u64(b""), None);
    assert_eq!(parse_decimal_u64(b"-1"), None);
    assert_eq!(parse_decimal_u64(b"18446744073709551615"), Some(u64::MAX));
    assert_eq!(parse_decimal_u64(b"18446744073709551616"), None);
    assert_eq!(parse_decimal_u64(b"99999999999999999999x"), None);
}

#[test]
fn file_id_is_suffix_after_files() {
    assert_eq!(file_id("/v1/files/abc"), Some("abc"));
    assert_eq!(file_id("/v1/files/"), Some(""));
    assert_eq!(file_id("/v1/files"), None);
    assert_eq!(file_id("/v1/audio/speech"), None);
}
