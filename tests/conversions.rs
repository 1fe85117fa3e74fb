use rapid_errors::err::{
    ContextEntry, HttpError, InvalidPluginStatus, PipelineError, PluginError, RapidScriptError, VfsErr,
};
use rapid_errors::status::parse_status;
use rapid_errors::wellknown::{lookup, KnownCode, RemoteStatus};

fn ctx_get(e: &HttpError, key: &str) -> Option<String> {
    e.context
        .as_ref()
        .and_then(|v| v.iter().find(|p| p.0 == key).map(|p| p.1.clone()))
}

fn ok(e: PipelineError) -> HttpError {
    HttpError::from_pipeline(e).unwrap()
}

fn all_known() -> Vec<KnownCode> {
    vec![
        KnownCode::UnknownDomain, KnownCode::FailedNoContent, KnownCode::FailedToBuildResponse,
        KnownCode::EndpointInvalidRegex, KnownCode::MissingMethod, KnownCode::MissingHost,
        KnownCode::FsSchemaFileNotFound, KnownCode::FsAbsolutePathNotSupported,
        KnownCode::FsDotPathsNotSupported, KnownCode::FsFileNotFound, KnownCode::FsDomain,
        KnownCode::RapidScriptErr, KnownCode::RapidScriptSyntaxErr, KnownCode::UnsupportedProtocol,
        KnownCode::PipelineNotFound, KnownCode::PipelineEmpty, KnownCode::PipelineElUnsupported,
        KnownCode::SchemaInvalid, KnownCode::SemanticsInvalidSchemaRoot,
        KnownCode::SemanticsDuplicateTable, KnownCode::SemanticsTableNotFound, KnownCode::FsIoError,
        KnownCode::InvalidUtf8, KnownCode::HttpInvalidHeader, KnownCode::HttpInvalidUri,
        KnownCode::HttpMissingHost, KnownCode::HttpHyper, KnownCode::HttpIo, KnownCode::JsonErr,
        KnownCode::SqlUnsupported, KnownCode::SqlNoConnection, KnownCode::SqlUnableToConnect,
        KnownCode::SqlMekadbUnableToConnect, KnownCode::SqlMekadbReqErr, KnownCode::SqlMekadbResErr,
        KnownCode::ScriptErr, KnownCode::PipelineNoSteps, KnownCode::PipelineDuplicateSeqId,
        KnownCode::PipelinePluginBehaviour, KnownCode::FormFileErr, KnownCode::FormPayloadErr,
        KnownCode::FormIoErr, KnownCode::DockerErr, KnownCode::PipelinePluginConnErr,
    ]
}

fn all_remote() -> Vec<RemoteStatus> {
    vec![
        RemoteStatus::Success, RemoteStatus::Cancelled, RemoteStatus::Unknown,
        RemoteStatus::InvalidArgument, RemoteStatus::DeadlineExceeded, RemoteStatus::NotFound,
        RemoteStatus::AlreadyExists, RemoteStatus::PermissionDenied, RemoteStatus::ResourceExhausted,
        RemoteStatus::FailedPrecondition, RemoteStatus::Aborted, RemoteStatus::OutOfRange,
        RemoteStatus::Unimplemented, RemoteStatus::Internal, RemoteStatus::Unavailable,
        RemoteStatus::DataLoss, RemoteStatus::Unauthenticated,
    ]
}

fn is_registered(name: &str, status: u16) -> bool {
    all_known().into_iter().map(|k| k.error_code()).any(|c| c.name == name && c.http_status == status)
        || all_remote().into_iter().map(lookup).any(|c| c.name == name && c.http_status == status)
}

#[test]
fn syntax_error_scenario() {
    let e = ok(PipelineError::RapidScript(RapidScriptError::SyntaxErr {
        msg: "Unexpected token".to_string(),
        pos: 12,
        exp: "let x = ".to_string(),
    }));
    assert_eq!(e.code.name, "hypi_rapid_script_syntax_err");
    assert_eq!(e.code.http_status, 400);
    assert_eq!(e.message, "Unexpected token");
    assert_eq!(e.context.as_ref().unwrap().len(), 2);
    assert_eq!(ctx_get(&e, "column").unwrap(), "12");
    assert_eq!(ctx_get(&e, "script").unwrap(), "let x = ");
}

#[test]
fn syntax_error_negative_position() {
    let e = ok(PipelineError::RapidScript(RapidScriptError::SyntaxErr {
        msg: "m".to_string(),
        pos: -305,
        exp: String::new(),
    }));
    assert_eq!(ctx_get(&e, "column").unwrap(), "-305");
    assert_eq!(ctx_get(&e, "script").unwrap(), "");
}

#[test]
fn remote_not_found_scenario() {
    let e = ok(PipelineError::PluginStatusErr(RemoteStatus::NotFound, "code: 'Not found'".to_string()));
    assert_eq!(e.code.name, "hypi_pipeline_plugin_status_notfound");
    assert_eq!(e.code.http_status, 404);
    assert_eq!(e.message, "Internal error. code: 'Not found'");
    assert!(e.context.is_none());
}

#[test]
fn duplicate_sequence_id_scenario() {
    for _ in 0..3 {
        let e = ok(PipelineError::DuplicateSequenceId);
        assert_eq!(e.code.name, "hypi_pipeline_duplicate_seq_id");
        assert_eq!(e.code.http_status, 500);
        assert_eq!(e.message, "Internal error.");
        assert!(e.context.is_none());
    }
}

#[test]
fn plugin_context_flattening() {
    let p = PluginError {
        code: "plugin_failed".to_string(),
        status: 418,
        message: "teapot".to_string(),
        context: vec![
            ContextEntry { key: "a".to_string(), value: vec!["x".to_string(), "y".to_string()] },
            ContextEntry { key: "b".to_string(), value: vec![] },
        ],
    };
    let e = ok(PipelineError::PluginSeqErr(p));
    assert_eq!(e.code.name, "plugin_failed");
    assert_eq!(e.code.http_status, 418);
    assert_eq!(e.message, "teapot");
    assert_eq!(e.context.as_ref().unwrap().len(), 2);
    assert_eq!(ctx_get(&e, "a").unwrap(), "x");
    assert_eq!(ctx_get(&e, "b").unwrap(), "");
}

#[test]
fn plugin_context_repeated_key_keeps_last() {
    let p = PluginError {
        code: "c".to_string(),
        status: 500,
        message: String::new(),
        context: vec![
            ContextEntry { key: "k".to_string(), value: vec!["1".to_string()] },
            ContextEntry { key: "k".to_string(), value: vec!["2".to_string(), "3".to_string()] },
        ],
    };
    let e = ok(PipelineError::PluginSeqErr(p));
    assert_eq!(e.context.as_ref().unwrap().len(), 1);
    assert_eq!(ctx_get(&e, "k").unwrap(), "2");
}

#[test]
fn plugin_invalid_status_is_rejected() {
    for status in [-1, 0, 99, 1000, 65936, i32::MAX, i32::MIN] {
        let p = PluginError { code: "c".to_string(), status, message: String::new(), context: vec![] };
        let r = HttpError::from_pipeline(PipelineError::PluginSeqErr(p));
        assert_eq!(r.unwrap_err(), InvalidPluginStatus { status });
    }
    for status in [100, 999] {
        let p = PluginError { code: "c".to_string(), status, message: String::new(), context: vec![] };
        let e = ok(PipelineError::PluginSeqErr(p));
        assert_eq!(e.code.http_status as i32, status);
        assert_eq!(e.context.as_ref().unwrap().len(), 0);
    }
}

#[test]
fn parse_status_range() {
    assert_eq!(parse_status(100), Some(100));
    assert_eq!(parse_status(404), Some(404));
    assert_eq!(parse_status(999), Some(999));
    assert_eq!(parse_status(99), None);
    assert_eq!(parse_status(1000), None);
    assert_eq!(parse_status(-404), None);
    assert_eq!(parse_status(65536 + 404), None);
}

#[test]
fn every_pipeline_variant_converts_to_registered_code() {
    let variants = vec![
        PipelineError::RapidScript(RapidScriptError::SyntaxErr { msg: "m".into(), pos: 1, exp: "e".into() }),
        PipelineError::RapidScript(RapidScriptError::EvalErr("m".into())),
        PipelineError::UnsupportedProtocol("ftp".into()),
        PipelineError::Json("bad json".into()),
        PipelineError::BoaScript("js".into()),
        PipelineError::Docker("daemon".into()),
        PipelineError::DockerConn("conn".into()),
        PipelineError::PluginStatusErr(RemoteStatus::Aborted, "a".into()),
        PipelineError::Vfs("fs".into()),
        PipelineError::EmptyPipeline,
        PipelineError::DuplicateSequenceId,
        PipelineError::PluginChannelErr("closed".into()),
        PipelineError::PluginErr("bad".into(), "resizer".into()),
    ];
    for v in variants {
        let e = ok(v);
        assert!(!e.code.name.is_empty());
        assert!(is_registered(&e.code.name, e.code.http_status), "{}", e.code.name);
    }
}

#[test]
fn pipeline_messages_and_codes() {
    let e = ok(PipelineError::Docker("daemon down".into()));
    assert_eq!((e.code.name.as_str(), e.code.http_status), ("hypi_docker_err", 500));
    assert_eq!(e.message, "Internal error. daemon down");
    let e = ok(PipelineError::DockerConn("refused".into()));
    assert_eq!(e.code.name, "hypi_docker_err");
    assert_eq!(e.message, "Internal error. refused");
    let e = ok(PipelineError::PluginChannelErr("closed".into()));
    assert_eq!((e.code.name.as_str(), e.code.http_status), ("hypi_pipeline_plugin_conn_err", 500));
    assert_eq!(e.message, "Internal error. closed");
    let e = ok(PipelineError::EmptyPipeline);
    assert_eq!((e.code.name.as_str(), e.code.http_status), ("hypi_pipeline_empty", 500));
    assert_eq!(e.message, "Server error, configured pipeline has no steps to execute.");
    let e = ok(PipelineError::PluginErr("misbehaved".into(), "resize".into()));
    assert_eq!((e.code.name.as_str(), e.code.http_status), ("hypi_pipeline_bad_behaviour", 500));
    assert_eq!(e.message, "misbehaved");
    assert_eq!(e.context.as_ref().unwrap().len(), 1);
    assert_eq!(ctx_get(&e, "plugin").unwrap(), "resize");
    let e = ok(PipelineError::Json("eof".into()));
    assert_eq!((e.code.name.as_str(), e.code.http_status, e.message.as_str()), ("hypi_json_err", 400, "eof"));
    let e = ok(PipelineError::BoaScript("js".into()));
    assert_eq!((e.code.name.as_str(), e.message.as_str()), ("hypi_script_err", "js"));
    let e = ok(PipelineError::Vfs("fs".into()));
    assert_eq!((e.code.name.as_str(), e.message.as_str()), ("hypi_form_file_err", "fs"));
    let e = ok(PipelineError::UnsupportedProtocol("ftp".into()));
    assert_eq!((e.code.name.as_str(), e.message.as_str()), ("hypi_pipeline_unsupported_protocol", "ftp"));
    let e = ok(PipelineError::RapidScript(RapidScriptError::EvalErr("boom".into())));
    assert_eq!((e.code.name.as_str(), e.code.http_status, e.message.as_str()), ("hypi_rapid_script_err", 400, "boom"));
}

#[test]
fn every_vfs_variant_converts() {
    let cases = vec![
        (VfsErr::Domain("d".into()), "hypi_domain_not_found"),
        (VfsErr::FileNotFound("d".into()), "hypi_file_not_found"),
        (VfsErr::SchemaFileNotFound("d".into()), "hypi_schema_file_not_found"),
        (VfsErr::AbsolutePathNotSupported("d".into()), "hypi_absolute_path_not_supported"),
        (VfsErr::DotPathsNotSupported("d".into()), "hypi_dot_path_not_supported"),
        (VfsErr::JsonErr("d".into()), "hypi_json_err"),
        (VfsErr::Io("d".into()), "hypi_io_error"),
        (VfsErr::Utf8("d".into()), "hypi_invalid_utf8"),
        (VfsErr::StripPrefixErr("d".into()), "hypi_io_error"),
    ];
    for (v, name) in cases {
        let e = HttpError::from_vfs(v);
        assert_eq!(e.code.name, name);
        assert_eq!(e.code.http_status, 400);
        assert_eq!(e.message, "d");
        assert!(e.context.is_none());
        assert!(is_registered(&e.code.name, e.code.http_status));
    }
}

#[test]
fn remote_table_is_total_and_distinct() {
    let codes: Vec<_> = all_remote().into_iter().map(lookup).collect();
    assert_eq!(codes.len(), 17);
    for (i, a) in codes.iter().enumerate() {
        assert!(a.name.starts_with("hypi_pipeline_plugin_status_"));
        for b in codes.iter().skip(i + 1) {
            assert_ne!(a.name, b.name);
        }
    }
    let status = |s: RemoteStatus| lookup(s).http_status;
    assert_eq!(status(RemoteStatus::Success), 200);
    assert_eq!(status(RemoteStatus::NotFound), 404);
    assert_eq!(status(RemoteStatus::AlreadyExists), 409);
    assert_eq!(status(RemoteStatus::ResourceExhausted), 429);
    assert_eq!(status(RemoteStatus::DeadlineExceeded), 504);
    assert_eq!(status(RemoteStatus::OutOfRange), 416);
    assert_eq!(status(RemoteStatus::DataLoss), 507);
    assert_eq!(status(RemoteStatus::Aborted), 410);
    assert_eq!(status(RemoteStatus::Unauthenticated), 401);
    assert_eq!(status(RemoteStatus::PermissionDenied), 403);
}

#[test]
fn from_ref_copies_everything() {
    let e = ok(PipelineError::PluginErr("m".into(), "p".into()));
    let c = HttpError::from_ref(&e);
    assert_eq!(c.code.name, e.code.name);
    assert_eq!(c.code.http_status, e.code.http_status);
    assert_eq!(c.message, e.message);
    assert_eq!(c.context, e.context);
}

#[test]
fn plugin_error_text() {
    let p = PluginError { code: "c1".into(), status: -7, message: "hi".into(), context: vec![] };
    assert_eq!(p.to_string(), "status:-7,code:c1,message:hi,");
}
