//! The registry of stable error codes, and the table from remote-call
//! outcome codes to them.
use vstd::prelude::*;
use crate::err::ErrorCode;

verus! {

pub const FORM_URL_ENCODED_HDR: &'static str = "application/x-www-form-urlencoded";
pub const APPLICATION_JSON_HDR: &'static str = "application/json";
/// The HTTP method has no standard field of its own, so it travels as a meta
/// field of this name.
pub const HTTP_METHOD_META: &'static str = "method";
/// Where a service's assets are available in a plugin's container.
pub const ASSETS_DIR: &'static str = "/home/rapid/files";
/// Where uploaded files are saved for a while; plugins move them to a
/// permanent place, and the directory is cleared from time to time.
pub const ASSETS_TMP_DIR: &'static str = "/home/rapid/files/.tmp";
pub const HDR_CONTENT_TYPE: &'static str = "content-type";
pub const HDR_HOST: &'static str = "host";
pub const HDR_STATUS: &'static str = "status";

pub const CODE_PIPELINE_PLUGIN_STATUS_PREFIX: &'static str = "hypi_pipeline_plugin_status_";
/// The one name that two registry entries share: a request for a domain that
/// the service does not know (404) and a filesystem lookup of a domain that
/// is missing (400) are the same condition to a client, which branches on the
/// name; only the status differs, and it travels in the response status line.
pub const CODE_UNKNOWN_DOMAIN: &'static str = "hypi_domain_not_found";
pub const CODE_FAILED_NO_CONTENT: &'static str = "hypi_failed_no_content";
pub const CODE_FAILED_TO_BUILD_RESPONSE: &'static str = "hypi_failed_to_build_response";
pub const CODE_ENDPOINT_INVALID_REGEX: &'static str = "hypi_endpoint_invalid_regex";
pub const CODE_MISSING_METHOD: &'static str = "hypi_missing_method";
pub const CODE_MISSING_HOST: &'static str = "hypi_missing_host";
pub const CODE_FS_SCHEMA_FILE_NOT_FOUND: &'static str = "hypi_schema_file_not_found";
pub const CODE_FS_ABSOLUTE_PATH_NOT_SUPPORTED: &'static str = "hypi_absolute_path_not_supported";
pub const CODE_FS_DOT_PATHS_NOT_SUPPORTED: &'static str = "hypi_dot_path_not_supported";
pub const CODE_FS_FILE_NOT_FOUND: &'static str = "hypi_file_not_found";
/// Shares its name with `CODE_UNKNOWN_DOMAIN`; see there.
pub const CODE_FS_DOMAIN: &'static str = "hypi_domain_not_found";
pub const CODE_RAPID_SCRIPT_ERR: &'static str = "hypi_rapid_script_err";
pub const CODE_RAPID_SCRIPT_SYNTAX_ERR: &'static str = "hypi_rapid_script_syntax_err";
pub const CODE_UNSUPPORTED_PROTOCOL: &'static str = "hypi_pipeline_unsupported_protocol";
pub const CODE_PIPELINE_NOT_FOUND: &'static str = "hypi_pipeline_not_found";
pub const CODE_PIPELINE_EMPTY: &'static str = "hypi_pipeline_empty";
pub const CODE_PIPELINE_EL_UNSUPPORTED: &'static str = "hypi_pipeline_unsupported_element";
pub const CODE_SCHEMA_INVALID: &'static str = "hypi_schema_invalid";
pub const CODE_SEMANTICS_INVALID_SCHEMA_ROOT: &'static str = "hypi_semantics_invalid_schema_root";
pub const CODE_SEMANTICS_DUPLICATE_TABLE: &'static str = "hypi_semantics_duplicate_table";
pub const CODE_SEMANTICS_TABLE_NOT_FOUND: &'static str = "hypi_semantics_table_not_found";
pub const CODE_FS_IO_ERROR: &'static str = "hypi_io_error";
pub const CODE_INVALID_UTF8: &'static str = "hypi_invalid_utf8";
pub const CODE_HTTP_INVALID_HEADER: &'static str = "hypi_http_invalid_header";
pub const CODE_HTTP_INVALID_URI: &'static str = "hypi_http_invalid_uri";
pub const CODE_HTTP_MISSING_HOST: &'static str = "hypi_http_missing_host";
pub const CODE_HTTP_HYPER: &'static str = "hypi_http_hyper";
pub const CODE_HTTP_IO: &'static str = "hypi_http_io_err";
pub const CODE_JSON_ERR: &'static str = "hypi_json_err";
pub const CODE_SQL_UNSUPPORTED: &'static str = "hypi_sql_unsupported_db_type";
pub const CODE_SQL_NO_CONNECTION: &'static str = "hypi_sql_no_connection";
pub const CODE_SQL_UNABLE_TO_CONNECT: &'static str = "hypi_sql_connection_failed";
pub const CODE_SQL_MEKADB_UNABLE_TO_CONNECT: &'static str = "hypi_sql_mekadb_connection_failed";
pub const CODE_SQL_MEKADB_REQ_ERR: &'static str = "hypi_sql_mekadb_req_err";
pub const CODE_SQL_MEKADB_RES_ERR: &'static str = "hypi_sql_mekadb_res_err";
pub const CODE_SCRIPT_ERR: &'static str = "hypi_script_err";
pub const CODE_PIPELINE_NO_STEPS: &'static str = "hypi_pipeline_no_steps";
pub const CODE_PIPELINE_DUPLICATE_SEQ_ID: &'static str = "hypi_pipeline_duplicate_seq_id";
pub const CODE_PIPELINE_PLUGIN_BEHAVIOUR: &'static str = "hypi_pipeline_bad_behaviour";
pub const CODE_FORM_FILE_ERR: &'static str = "hypi_form_file_err";
pub const CODE_FORM_PAYLOAD_ERR: &'static str = "hypi_form_payload_err";
pub const CODE_FORM_IO_ERR: &'static str = "hypi_form_io_err";
pub const CODE_DOCKER_ERR: &'static str = "hypi_docker_err";
pub const CODE_PIPELINE_PLUGIN_CONN_ERR: &'static str = "hypi_pipeline_plugin_conn_err";
pub const CODE_PLUGIN_STATUS_OK: &'static str = "hypi_pipeline_plugin_status_ok";
pub const CODE_PLUGIN_STATUS_CANCELLED: &'static str = "hypi_pipeline_plugin_status_cancelled";
pub const CODE_PLUGIN_STATUS_UNKNOWN: &'static str = "hypi_pipeline_plugin_status_unknown";
pub const CODE_PLUGIN_STATUS_INVALIDARGUMENT: &'static str = "hypi_pipeline_plugin_status_invalidargument";
pub const CODE_PLUGIN_STATUS_DEADLINEEXCEEDED: &'static str = "hypi_pipeline_plugin_status_deadlineexceeded";
pub const CODE_PLUGIN_STATUS_NOTFOUND: &'static str = "hypi_pipeline_plugin_status_notfound";
pub const CODE_PLUGIN_STATUS_ALREADYEXISTS: &'static str = "hypi_pipeline_plugin_status_alreadyexists";
pub const CODE_PLUGIN_STATUS_PERMISSIONDENIED: &'static str = "hypi_pipeline_plugin_status_permissiondenied";
pub const CODE_PLUGIN_STATUS_RESOURCEEXHAUSTED: &'static str = "hypi_pipeline_plugin_status_resourceexhausted";
pub const CODE_PLUGIN_STATUS_FAILEDPRECONDITION: &'static str = "hypi_pipeline_plugin_status_failedprecondition";
pub const CODE_PLUGIN_STATUS_ABORTED: &'static str = "hypi_pipeline_plugin_status_aborted";
pub const CODE_PLUGIN_STATUS_OUTOFRANGE: &'static str = "hypi_pipeline_plugin_status_outofrange";
pub const CODE_PLUGIN_STATUS_UNIMPLEMENTED: &'static str = "hypi_pipeline_plugin_status_unimplemented";
pub const CODE_PLUGIN_STATUS_INTERNAL: &'static str = "hypi_pipeline_plugin_status_internal";
pub const CODE_PLUGIN_STATUS_UNAVAILABLE: &'static str = "hypi_pipeline_plugin_status_unavailable";
pub const CODE_PLUGIN_STATUS_DATALOSS: &'static str = "hypi_pipeline_plugin_status_dataloss";
pub const CODE_PLUGIN_STATUS_UNAUTHENTICATED: &'static str = "hypi_pipeline_plugin_status_unauthenticated";

/// Every error code that the service declares, each with a fixed HTTP status.
#[derive(Clone, Copy, Debug, PartialEq, Eq, Structural)]
pub enum KnownCode {
    UnknownDomain,
    FailedNoContent,
    FailedToBuildResponse,
    EndpointInvalidRegex,
    MissingMethod,
    MissingHost,
    FsSchemaFileNotFound,
    FsAbsolutePathNotSupported,
    FsDotPathsNotSupported,
    FsFileNotFound,
    FsDomain,
    RapidScriptErr,
    RapidScriptSyntaxErr,
    UnsupportedProtocol,
    PipelineNotFound,
    PipelineEmpty,
    PipelineElUnsupported,
    SchemaInvalid,
    SemanticsInvalidSchemaRoot,
    SemanticsDuplicateTable,
    SemanticsTableNotFound,
    FsIoError,
    InvalidUtf8,
    HttpInvalidHeader,
    HttpInvalidUri,
    HttpMissingHost,
    HttpHyper,
    HttpIo,
    JsonErr,
    SqlUnsupported,
    SqlNoConnection,
    SqlUnableToConnect,
    SqlMekadbUnableToConnect,
    SqlMekadbReqErr,
    SqlMekadbResErr,
    ScriptErr,
    PipelineNoSteps,
    PipelineDuplicateSeqId,
    PipelinePluginBehaviour,
    FormFileErr,
    FormPayloadErr,
    FormIoErr,
    DockerErr,
    PipelinePluginConnErr,
}

/// The name and status that a declared code stands for.
pub open spec fn known(k: KnownCode) -> (Seq<char>, u16) {
    match k {
        KnownCode::UnknownDomain => (CODE_UNKNOWN_DOMAIN@, 404),
        KnownCode::FailedNoContent => (CODE_FAILED_NO_CONTENT@, 400),
        KnownCode::FailedToBuildResponse => (CODE_FAILED_TO_BUILD_RESPONSE@, 400),
        KnownCode::EndpointInvalidRegex => (CODE_ENDPOINT_INVALID_REGEX@, 400),
        KnownCode::MissingMethod => (CODE_MISSING_METHOD@, 400),
        KnownCode::MissingHost => (CODE_MISSING_HOST@, 400),
        KnownCode::FsSchemaFileNotFound => (CODE_FS_SCHEMA_FILE_NOT_FOUND@, 400),
        KnownCode::FsAbsolutePathNotSupported => (CODE_FS_ABSOLUTE_PATH_NOT_SUPPORTED@, 400),
        KnownCode::FsDotPathsNotSupported => (CODE_FS_DOT_PATHS_NOT_SUPPORTED@, 400),
        KnownCode::FsFileNotFound => (CODE_FS_FILE_NOT_FOUND@, 400),
        KnownCode::FsDomain => (CODE_FS_DOMAIN@, 400),
        KnownCode::RapidScriptErr => (CODE_RAPID_SCRIPT_ERR@, 400),
        KnownCode::RapidScriptSyntaxErr => (CODE_RAPID_SCRIPT_SYNTAX_ERR@, 400),
        KnownCode::UnsupportedProtocol => (CODE_UNSUPPORTED_PROTOCOL@, 400),
        KnownCode::PipelineNotFound => (CODE_PIPELINE_NOT_FOUND@, 500),
        KnownCode::PipelineEmpty => (CODE_PIPELINE_EMPTY@, 500),
        KnownCode::PipelineElUnsupported => (CODE_PIPELINE_EL_UNSUPPORTED@, 501),
        KnownCode::SchemaInvalid => (CODE_SCHEMA_INVALID@, 400),
        KnownCode::SemanticsInvalidSchemaRoot => (CODE_SEMANTICS_INVALID_SCHEMA_ROOT@, 400),
        KnownCode::SemanticsDuplicateTable => (CODE_SEMANTICS_DUPLICATE_TABLE@, 400),
        KnownCode::SemanticsTableNotFound => (CODE_SEMANTICS_TABLE_NOT_FOUND@, 400),
        KnownCode::FsIoError => (CODE_FS_IO_ERROR@, 400),
        KnownCode::InvalidUtf8 => (CODE_INVALID_UTF8@, 400),
        KnownCode::HttpInvalidHeader => (CODE_HTTP_INVALID_HEADER@, 400),
        KnownCode::HttpInvalidUri => (CODE_HTTP_INVALID_URI@, 400),
        KnownCode::HttpMissingHost => (CODE_HTTP_MISSING_HOST@, 400),
        KnownCode::HttpHyper => (CODE_HTTP_HYPER@, 400),
        KnownCode::HttpIo => (CODE_HTTP_IO@, 400),
        KnownCode::JsonErr => (CODE_JSON_ERR@, 400),
        KnownCode::SqlUnsupported => (CODE_SQL_UNSUPPORTED@, 400),
        KnownCode::SqlNoConnection => (CODE_SQL_NO_CONNECTION@, 400),
        KnownCode::SqlUnableToConnect => (CODE_SQL_UNABLE_TO_CONNECT@, 400),
        KnownCode::SqlMekadbUnableToConnect => (CODE_SQL_MEKADB_UNABLE_TO_CONNECT@, 400),
        KnownCode::SqlMekadbReqErr => (CODE_SQL_MEKADB_REQ_ERR@, 400),
        KnownCode::SqlMekadbResErr => (CODE_SQL_MEKADB_RES_ERR@, 400),
        KnownCode::ScriptErr => (CODE_SCRIPT_ERR@, 400),
        KnownCode::PipelineNoSteps => (CODE_PIPELINE_NO_STEPS@, 400),
        KnownCode::PipelineDuplicateSeqId => (CODE_PIPELINE_DUPLICATE_SEQ_ID@, 500),
        KnownCode::PipelinePluginBehaviour => (CODE_PIPELINE_PLUGIN_BEHAVIOUR@, 500),
        KnownCode::FormFileErr => (CODE_FORM_FILE_ERR@, 400),
        KnownCode::FormPayloadErr => (CODE_FORM_PAYLOAD_ERR@, 400),
        KnownCode::FormIoErr => (CODE_FORM_IO_ERR@, 400),
        KnownCode::DockerErr => (CODE_DOCKER_ERR@, 500),
        KnownCode::PipelinePluginConnErr => (CODE_PIPELINE_PLUGIN_CONN_ERR@, 500),
    }
}

impl KnownCode {
    /// The error code value of this declared code.
    pub fn error_code(self) -> (r: ErrorCode)
        ensures
            r@ == known(self),
            r.wf(),
    {
        match self {
            KnownCode::UnknownDomain => ErrorCode::new(CODE_UNKNOWN_DOMAIN, 404),
            KnownCode::FailedNoContent => ErrorCode::new(CODE_FAILED_NO_CONTENT, 400),
            KnownCode::FailedToBuildResponse => ErrorCode::new(CODE_FAILED_TO_BUILD_RESPONSE, 400),
            KnownCode::EndpointInvalidRegex => ErrorCode::new(CODE_ENDPOINT_INVALID_REGEX, 400),
            KnownCode::MissingMethod => ErrorCode::new(CODE_MISSING_METHOD, 400),
            KnownCode::MissingHost => ErrorCode::new(CODE_MISSING_HOST, 400),
            KnownCode::FsSchemaFileNotFound => ErrorCode::new(CODE_FS_SCHEMA_FILE_NOT_FOUND, 400),
            KnownCode::FsAbsolutePathNotSupported => ErrorCode::new(CODE_FS_ABSOLUTE_PATH_NOT_SUPPORTED, 400),
            KnownCode::FsDotPathsNotSupported => ErrorCode::new(CODE_FS_DOT_PATHS_NOT_SUPPORTED, 400),
            KnownCode::FsFileNotFound => ErrorCode::new(CODE_FS_FILE_NOT_FOUND, 400),
            KnownCode::FsDomain => ErrorCode::new(CODE_FS_DOMAIN, 400),
            KnownCode::RapidScriptErr => ErrorCode::new(CODE_RAPID_SCRIPT_ERR, 400),
            KnownCode::RapidScriptSyntaxErr => ErrorCode::new(CODE_RAPID_SCRIPT_SYNTAX_ERR, 400),
            KnownCode::UnsupportedProtocol => ErrorCode::new(CODE_UNSUPPORTED_PROTOCOL, 400),
            KnownCode::PipelineNotFound => ErrorCode::new(CODE_PIPELINE_NOT_FOUND, 500),
            KnownCode::PipelineEmpty => ErrorCode::new(CODE_PIPELINE_EMPTY, 500),
            KnownCode::PipelineElUnsupported => ErrorCode::new(CODE_PIPELINE_EL_UNSUPPORTED, 501),
            KnownCode::SchemaInvalid => ErrorCode::new(CODE_SCHEMA_INVALID, 400),
            KnownCode::SemanticsInvalidSchemaRoot => ErrorCode::new(CODE_SEMANTICS_INVALID_SCHEMA_ROOT, 400),
            KnownCode::SemanticsDuplicateTable => ErrorCode::new(CODE_SEMANTICS_DUPLICATE_TABLE, 400),
            KnownCode::SemanticsTableNotFound => ErrorCode::new(CODE_SEMANTICS_TABLE_NOT_FOUND, 400),
            KnownCode::FsIoError => ErrorCode::new(CODE_FS_IO_ERROR, 400),
            KnownCode::InvalidUtf8 => ErrorCode::new(CODE_INVALID_UTF8, 400),
            KnownCode::HttpInvalidHeader => ErrorCode::new(CODE_HTTP_INVALID_HEADER, 400),
            KnownCode::HttpInvalidUri => ErrorCode::new(CODE_HTTP_INVALID_URI, 400),
            KnownCode::HttpMissingHost => ErrorCode::new(CODE_HTTP_MISSING_HOST, 400),
            KnownCode::HttpHyper => ErrorCode::new(CODE_HTTP_HYPER, 400),
            KnownCode::HttpIo => ErrorCode::new(CODE_HTTP_IO, 400),
            KnownCode::JsonErr => ErrorCode::new(CODE_JSON_ERR, 400),
            KnownCode::SqlUnsupported => ErrorCode::new(CODE_SQL_UNSUPPORTED, 400),
            KnownCode::SqlNoConnection => ErrorCode::new(CODE_SQL_NO_CONNECTION, 400),
            KnownCode::SqlUnableToConnect => ErrorCode::new(CODE_SQL_UNABLE_TO_CONNECT, 400),
            KnownCode::SqlMekadbUnableToConnect => ErrorCode::new(CODE_SQL_MEKADB_UNABLE_TO_CONNECT, 400),
            KnownCode::SqlMekadbReqErr => ErrorCode::new(CODE_SQL_MEKADB_REQ_ERR, 400),
            KnownCode::SqlMekadbResErr => ErrorCode::new(CODE_SQL_MEKADB_RES_ERR, 400),
            KnownCode::ScriptErr => ErrorCode::new(CODE_SCRIPT_ERR, 400),
            KnownCode::PipelineNoSteps => ErrorCode::new(CODE_PIPELINE_NO_STEPS, 400),
            KnownCode::PipelineDuplicateSeqId => ErrorCode::new(CODE_PIPELINE_DUPLICATE_SEQ_ID, 500),
            KnownCode::PipelinePluginBehaviour => ErrorCode::new(CODE_PIPELINE_PLUGIN_BEHAVIOUR, 500),
            KnownCode::FormFileErr => ErrorCode::new(CODE_FORM_FILE_ERR, 400),
            KnownCode::FormPayloadErr => ErrorCode::new(CODE_FORM_PAYLOAD_ERR, 400),
            KnownCode::FormIoErr => ErrorCode::new(CODE_FORM_IO_ERR, 400),
            KnownCode::DockerErr => ErrorCode::new(CODE_DOCKER_ERR, 500),
            KnownCode::PipelinePluginConnErr => ErrorCode::new(CODE_PIPELINE_PLUGIN_CONN_ERR, 500),
        }
    }
}

/// The outcome codes of a remote procedure call.
#[derive(Clone, Copy, Debug, PartialEq, Eq, Structural)]
pub enum RemoteStatus {
    Success,
    Cancelled,
    Unknown,
    InvalidArgument,
    DeadlineExceeded,
    NotFound,
    AlreadyExists,
    PermissionDenied,
    ResourceExhausted,
    FailedPrecondition,
    Aborted,
    OutOfRange,
    Unimplemented,
    Internal,
    Unavailable,
    DataLoss,
    Unauthenticated,
}

/// The error code that a remote-call outcome stands for.
pub open spec fn remote_code(s: RemoteStatus) -> (Seq<char>, u16) {
    match s {
        RemoteStatus::Success => (CODE_PLUGIN_STATUS_OK@, 200),
        RemoteStatus::Cancelled => (CODE_PLUGIN_STATUS_CANCELLED@, 500),
        RemoteStatus::Unknown => (CODE_PLUGIN_STATUS_UNKNOWN@, 500),
        RemoteStatus::InvalidArgument => (CODE_PLUGIN_STATUS_INVALIDARGUMENT@, 400),
        RemoteStatus::DeadlineExceeded => (CODE_PLUGIN_STATUS_DEADLINEEXCEEDED@, 504),
        RemoteStatus::NotFound => (CODE_PLUGIN_STATUS_NOTFOUND@, 404),
        RemoteStatus::AlreadyExists => (CODE_PLUGIN_STATUS_ALREADYEXISTS@, 409),
        RemoteStatus::PermissionDenied => (CODE_PLUGIN_STATUS_PERMISSIONDENIED@, 403),
        RemoteStatus::ResourceExhausted => (CODE_PLUGIN_STATUS_RESOURCEEXHAUSTED@, 429),
        RemoteStatus::FailedPrecondition => (CODE_PLUGIN_STATUS_FAILEDPRECONDITION@, 412),
        RemoteStatus::Aborted => (CODE_PLUGIN_STATUS_ABORTED@, 410),
        RemoteStatus::OutOfRange => (CODE_PLUGIN_STATUS_OUTOFRANGE@, 416),
        RemoteStatus::Unimplemented => (CODE_PLUGIN_STATUS_UNIMPLEMENTED@, 501),
        RemoteStatus::Internal => (CODE_PLUGIN_STATUS_INTERNAL@, 500),
        RemoteStatus::Unavailable => (CODE_PLUGIN_STATUS_UNAVAILABLE@, 503),
        RemoteStatus::DataLoss => (CODE_PLUGIN_STATUS_DATALOSS@, 507),
        RemoteStatus::Unauthenticated => (CODE_PLUGIN_STATUS_UNAUTHENTICATED@, 401),
    }
}

/// Looks up the error code of a remote-call outcome; the table has an entry
/// for every outcome.
pub fn lookup(s: RemoteStatus) -> (r: ErrorCode)
    ensures
        r@ == remote_code(s),
        r.wf(),
{
    match s {
        RemoteStatus::Success => ErrorCode::new(CODE_PLUGIN_STATUS_OK, 200),
        RemoteStatus::Cancelled => ErrorCode::new(CODE_PLUGIN_STATUS_CANCELLED, 500),
        RemoteStatus::Unknown => ErrorCode::new(CODE_PLUGIN_STATUS_UNKNOWN, 500),
        RemoteStatus::InvalidArgument => ErrorCode::new(CODE_PLUGIN_STATUS_INVALIDARGUMENT, 400),
        RemoteStatus::DeadlineExceeded => ErrorCode::new(CODE_PLUGIN_STATUS_DEADLINEEXCEEDED, 504),
        RemoteStatus::NotFound => ErrorCode::new(CODE_PLUGIN_STATUS_NOTFOUND, 404),
        RemoteStatus::AlreadyExists => ErrorCode::new(CODE_PLUGIN_STATUS_ALREADYEXISTS, 409),
        RemoteStatus::PermissionDenied => ErrorCode::new(CODE_PLUGIN_STATUS_PERMISSIONDENIED, 403),
        RemoteStatus::ResourceExhausted => ErrorCode::new(CODE_PLUGIN_STATUS_RESOURCEEXHAUSTED, 429),
        RemoteStatus::FailedPrecondition => ErrorCode::new(CODE_PLUGIN_STATUS_FAILEDPRECONDITION, 412),
        RemoteStatus::Aborted => ErrorCode::new(CODE_PLUGIN_STATUS_ABORTED, 410),
        RemoteStatus::OutOfRange => ErrorCode::new(CODE_PLUGIN_STATUS_OUTOFRANGE, 416),
        RemoteStatus::Unimplemented => ErrorCode::new(CODE_PLUGIN_STATUS_UNIMPLEMENTED, 501),
        RemoteStatus::Internal => ErrorCode::new(CODE_PLUGIN_STATUS_INTERNAL, 500),
        RemoteStatus::Unavailable => ErrorCode::new(CODE_PLUGIN_STATUS_UNAVAILABLE, 503),
        RemoteStatus::DataLoss => ErrorCode::new(CODE_PLUGIN_STATUS_DATALOSS, 507),
        RemoteStatus::Unauthenticated => ErrorCode::new(CODE_PLUGIN_STATUS_UNAUTHENTICATED, 401),
    }
}

/// Whether a code is one that the service declares: a named code or an
/// entry of the remote-call table.
pub open spec fn registered(c: (Seq<char>, u16)) -> bool {
    (exists|k: KnownCode| #[trigger] known(k) == c) || (exists|s: RemoteStatus| #[trigger] remote_code(s) == c)
}

/// The remote-call table is total, and it gives distinct outcomes distinct,
/// declared, non-empty names. Its choices of status include: not found to
/// 404, already exists to 409, resource exhausted to 429, deadline exceeded
/// to 504, out of range to 416, data loss to 507 and aborted to 410. Every
/// name starts with the common prefix of remote-call codes.
pub proof fn lemma_remote_table(a: RemoteStatus, b: RemoteStatus)
    ensures
        registered(remote_code(a)),
        remote_code(a).0.len() > 0,
        remote_code(a).0.subrange(0, 28) == CODE_PIPELINE_PLUGIN_STATUS_PREFIX@,
        remote_code(RemoteStatus::Success).1 == 200,
        remote_code(RemoteStatus::Cancelled).1 == 500,
        remote_code(RemoteStatus::Unknown).1 == 500,
        remote_code(RemoteStatus::InvalidArgument).1 == 400,
        remote_code(RemoteStatus::PermissionDenied).1 == 403,
        remote_code(RemoteStatus::Unauthenticated).1 == 401,
        remote_code(RemoteStatus::FailedPrecondition).1 == 412,
        remote_code(RemoteStatus::Unimplemented).1 == 501,
        remote_code(RemoteStatus::Internal).1 == 500,
        remote_code(RemoteStatus::Unavailable).1 == 503,
        a != b ==> remote_code(a).0 != remote_code(b).0,
        remote_code(RemoteStatus::NotFound).1 == 404,
        remote_code(RemoteStatus::AlreadyExists).1 == 409,
        remote_code(RemoteStatus::ResourceExhausted).1 == 429,
        remote_code(RemoteStatus::DeadlineExceeded).1 == 504,
        remote_code(RemoteStatus::OutOfRange).1 == 416,
        remote_code(RemoteStatus::DataLoss).1 == 507,
        remote_code(RemoteStatus::Aborted).1 == 410,
{
    reveal_strlit("hypi_pipeline_plugin_status_");
    reveal_strlit("hypi_pipeline_plugin_status_ok");
    reveal_strlit("hypi_pipeline_plugin_status_cancelled");
    reveal_strlit("hypi_pipeline_plugin_status_unknown");
    reveal_strlit("hypi_pipeline_plugin_status_invalidargument");
    reveal_strlit("hypi_pipeline_plugin_status_deadlineexceeded");
    reveal_strlit("hypi_pipeline_plugin_status_notfound");
    reveal_strlit("hypi_pipeline_plugin_status_alreadyexists");
    reveal_strlit("hypi_pipeline_plugin_status_permissiondenied");
    reveal_strlit("hypi_pipeline_plugin_status_resourceexhausted");
    reveal_strlit("hypi_pipeline_plugin_status_failedprecondition");
    reveal_strlit("hypi_pipeline_plugin_status_aborted");
    reveal_strlit("hypi_pipeline_plugin_status_outofrange");
    reveal_strlit("hypi_pipeline_plugin_status_unimplemented");
    reveal_strlit("hypi_pipeline_plugin_status_internal");
    reveal_strlit("hypi_pipeline_plugin_status_unavailable");
    reveal_strlit("hypi_pipeline_plugin_status_dataloss");
    reveal_strlit("hypi_pipeline_plugin_status_unauthenticated");
    assert(remote_code(a).0.subrange(0, 28) =~= CODE_PIPELINE_PLUGIN_STATUS_PREFIX@);
    if a != b {
        assert(remote_code(a).0 != remote_code(b).0) by {
            let x = remote_code(a).0;
            let y = remote_code(b).0;
            if x.len() == y.len() {
                assert(x[28] != y[28] || x[29] != y[29] || x[30] != y[30] || x[31] != y[31] || x[32] != y[32]);
            }
        }
    }
}

} // verus!
