use rapid_errors::codec::{frame_payload, serialize, UNSERIALISABLE_PAYLOAD};
use rapid_errors::err::{ErrorCode, HttpError, PipelineError, RapidScriptError};
use rapid_errors::http_utils::{err_msg, HttpMethod};
use serde_json::Value;

fn parse(s: &str) -> Value {
    serde_json::from_str(s).unwrap()
}

#[test]
fn serialize_round_trip() {
    let e = HttpError::from_pipeline(PipelineError::RapidScript(RapidScriptError::SyntaxErr {
        msg: "Unexpected \"token\"\n\u{e9}".to_string(),
        pos: 12,
        exp: "let x = \\".to_string(),
    }))
    .unwrap();
    let v = parse(&serialize(&e));
    assert_eq!(v["code"], "hypi_rapid_script_syntax_err");
    assert_eq!(v["message"], "Unexpected \"token\"\n\u{e9}");
    let ctx = v["context"].as_object().unwrap();
    assert_eq!(ctx.len(), 2);
    assert_eq!(ctx["column"], "12");
    assert_eq!(ctx["script"], "let x = \\");
}

#[test]
fn serialize_without_context() {
    let e = err_msg(ErrorCode::new("hypi_json_err", 400), "a\"b");
    let s = serialize(&e);
    assert_eq!(s, "{\"code\":\"hypi_json_err\",\"message\":\"a\\\"b\",\"context\":null}");
    assert_eq!(e.to_string(), s);
    let v = parse(&s);
    assert!(v["context"].is_null());
}

#[test]
fn fallback_keeps_code_and_message() {
    let s = frame_payload(Some("\"c\"".to_string()), Some("\"m\"".to_string()), None);
    let v = parse(&s);
    assert_eq!(v["code"], "c");
    assert_eq!(v["message"], "m");
    assert_eq!(v["context"]["hypi_serialisation_error"], "Failed to serialise the context for this error");
    let s = frame_payload(None, Some("\"m\"".to_string()), Some("null".to_string()));
    assert_eq!(s, UNSERIALISABLE_PAYLOAD);
    assert_eq!(parse(&s)["code"], "hypi_json_err");
    let s = frame_payload(Some("\"c\"".to_string()), Some("\"m\"".to_string()), Some("{\"k\":\"v\"}".to_string()));
    assert_eq!(s, "{\"code\":\"c\",\"message\":\"m\",\"context\":{\"k\":\"v\"}}");
}

#[test]
fn error_code_new_and_text() {
    let c = ErrorCode::new("hypi_x", 418);
    assert_eq!(c.name, "hypi_x");
    assert_eq!(c.http_status, 418);
    assert_eq!(c.to_string(), "hypi_x");
    assert_eq!(c.duplicate().name, "hypi_x");
}

#[test]
fn err_msg_has_no_context() {
    let e = err_msg(ErrorCode::new("hypi_y", 404), "missing");
    assert_eq!(e.code.name, "hypi_y");
    assert_eq!(e.code.http_status, 404);
    assert_eq!(e.message, "missing");
    assert!(e.context.is_none());
}

#[test]
fn http_method_from_any_case() {
    assert_eq!(HttpMethod::from("get"), Some(HttpMethod::Get));
    assert_eq!(HttpMethod::from("Patch"), Some(HttpMethod::Patch));
    assert_eq!(HttpMethod::from("OPTIONS"), Some(HttpMethod::Options));
    assert_eq!(HttpMethod::from("delete"), Some(HttpMethod::Delete));
    assert_eq!(HttpMethod::from("fetch"), None);
    assert_eq!(HttpMethod::from(""), None);
    assert_eq!(HttpMethod::from(" get"), None);
}

#[test]
fn http_method_names() {
    assert_eq!(HttpMethod::Connect.to_string(), "CONNECT");
    assert_eq!(HttpMethod::Trace.as_str(), "TRACE");
    assert_eq!(HttpMethod::default(), HttpMethod::Get);
    for m in [HttpMethod::Options, HttpMethod::Get, HttpMethod::Post, HttpMethod::Put, HttpMethod::Delete,
              HttpMethod::Head, HttpMethod::Trace, HttpMethod::Connect, HttpMethod::Patch] {
        assert_eq!(HttpMethod::from(&m.to_string().to_lowercase()), Some(m));
    }
}

#[test]
fn error_codes_equal_by_name() {
    assert!(ErrorCode::new("hypi_domain_not_found", 404) == ErrorCode::new("hypi_domain_not_found", 400));
    assert!(ErrorCode::new("hypi_a", 400) != ErrorCode::new("hypi_b", 400));
}

#[test]
fn serialize_exact_text_without_context() {
    let e = err_msg(ErrorCode::new("hypi_json_err", 400), "bad");
    assert_eq!(serialize(&e), "{\"code\":\"hypi_json_err\",\"message\":\"bad\",\"context\":null}");
}

#[test]
fn to_string_matches_serialize_with_plugin_context() {
    let e = HttpError::from_pipeline(PipelineError::PluginErr("m".into(), "resizer".into())).unwrap();
    let expected = "{\"code\":\"hypi_pipeline_bad_behaviour\",\"message\":\"m\",\"context\":{\"plugin\":\"resizer\"}}";
    assert_eq!(e.to_string(), expected);
    assert_eq!(serialize(&e), expected);
}

#[test]
fn serialize_context_has_exactly_the_entries() {
    let e = HttpError::from_pipeline(PipelineError::RapidScript(RapidScriptError::SyntaxErr {
        msg: "m".into(),
        pos: 3,
        exp: "x".into(),
    }))
    .unwrap();
    let v = parse(&serialize(&e));
    let obj = v.as_object().unwrap();
    assert_eq!(obj.len(), 3);
    assert!(obj.contains_key("code") && obj.contains_key("message") && obj.contains_key("context"));
    assert_eq!(serialize(&e), "{\"code\":\"hypi_rapid_script_syntax_err\",\"message\":\"m\",\"context\":{\"column\":\"3\",\"script\":\"x\"}}");
}
