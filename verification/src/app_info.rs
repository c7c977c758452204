//! The application handshake: the protocol version check and the version contract the
//! backend reports to the front end.

use vstd::prelude::*;

use crate::config::SETTINGS_SCHEMA_VERSION;
use crate::errors::{AppError, AppResult};
use crate::executable::MameExecutableIdentity;
use crate::text::{concat_strs, decimal, decimal_string};

verus! {

broadcast use vstd::string::group_string_axioms;

/// The only front-end protocol version this backend speaks.
pub const APP_PROTOCOL_VERSION: u32 = 1;

/// The front end's opening request.
#[derive(Debug, Clone, PartialEq, Eq)]
pub struct AppInfoRequest {
    pub protocol_version: u32,
}

/// How the running backend was built.
#[derive(Debug, Clone, PartialEq, Eq)]
pub struct BuildIdentity {
    pub git_sha: Option<String>,
    pub profile: String,
    pub target: String,
}

/// What the backend knows of the configured MAME executable.
#[derive(Debug, Clone, PartialEq, Eq)]
pub enum MameVersionReport {
    NotConfigured,
    Available { identity: MameExecutableIdentity },
    Unavailable { path: Option<String>, error_code: String, error_message: String },
}

/// The versions that belong to the running backend rather than to a request: its own
/// version and build, and the schema and protocol versions of its stores and runtime.
#[derive(Debug, Clone, PartialEq, Eq)]
pub struct BackendVersions {
    pub app_version: String,
    pub build: BuildIdentity,
    pub database_schema_version: i64,
    pub runtime_protocol_version: u32,
}

/// The version contract reported to the front end.
#[derive(Debug, Clone, PartialEq, Eq)]
pub struct AppInfoResponse {
    pub protocol_version: u32,
    pub app_version: String,
    pub backend: String,
    pub build: BuildIdentity,
    pub database_schema_version: i64,
    pub settings_schema_version: u32,
    pub runtime_protocol_version: u32,
    pub mame: MameVersionReport,
}

/// The event emitted once the backend is ready.
#[derive(Debug, Clone, PartialEq, Eq)]
pub struct AppReadyEventV1 {
    pub schema_version: u32,
    pub app_version: String,
}

/// The message of a refused protocol version.
pub open spec fn unsupported_protocol_message(requested: u32) -> Seq<char> {
    "Frontend protocol version "@ + decimal(requested as nat) + " is not supported by backend version "@
        + decimal(APP_PROTOCOL_VERSION as nat) + "."@
}

/// The response the backend gives to an accepted request.
pub open spec fn accepted_response(
    versions: BackendVersions,
    mame: MameVersionReport,
    r: AppInfoResponse,
) -> bool {
    &&& r.protocol_version == APP_PROTOCOL_VERSION
    &&& r.app_version == versions.app_version
    &&& r.backend@ == "rust-tauri"@
    &&& r.build == versions.build
    &&& r.database_schema_version == versions.database_schema_version
    &&& r.settings_schema_version == SETTINGS_SCHEMA_VERSION
    &&& r.runtime_protocol_version == versions.runtime_protocol_version
    &&& r.mame == mame
}

/// Answer the handshake with the given MAME report: the version contract when the
/// front end speaks this backend's protocol, `UNSUPPORTED_PROTOCOL_VERSION` otherwise.
pub fn build_app_info_with_mame(
    request: AppInfoRequest,
    mame: MameVersionReport,
    versions: BackendVersions,
) -> (r: AppResult<AppInfoResponse>)
    ensures
        r is Ok <==> request.protocol_version == APP_PROTOCOL_VERSION,
        r matches Ok(resp) ==> accepted_response(versions, mame, resp),
        r matches Err(e) ==> {
            &&& e.code@ == "UNSUPPORTED_PROTOCOL_VERSION"@
            &&& e.message@ == unsupported_protocol_message(request.protocol_version)
            &&& e.details@.len() == 2
            &&& e.details@[0].key@ == "requestedVersion"@
            &&& e.details@[0].value@ == decimal(request.protocol_version as nat)
            &&& e.details@[1].key@ == "supportedVersion"@
            &&& e.details@[1].value@ == decimal(APP_PROTOCOL_VERSION as nat)
        },
{
    if request.protocol_version != APP_PROTOCOL_VERSION {
        let requested = decimal_string(request.protocol_version as u64);
        let supported = decimal_string(APP_PROTOCOL_VERSION as u64);
        let m1 = concat_strs("Frontend protocol version ", requested.as_str());
        let m2 = concat_strs(m1.as_str(), " is not supported by backend version ");
        let m3 = concat_strs(m2.as_str(), supported.as_str());
        let message = concat_strs(m3.as_str(), ".");
        let error = AppError::new("UNSUPPORTED_PROTOCOL_VERSION", message.as_str()).with_detail(
            "requestedVersion",
            requested,
        ).with_detail("supportedVersion", supported);
        return Err(error);
    }
    Ok(
        AppInfoResponse {
            protocol_version: APP_PROTOCOL_VERSION,
            app_version: versions.app_version,
            backend: "rust-tauri".to_string(),
            build: versions.build,
            database_schema_version: versions.database_schema_version,
            settings_schema_version: SETTINGS_SCHEMA_VERSION,
            runtime_protocol_version: versions.runtime_protocol_version,
            mame,
        },
    )
}

/// Answer the handshake when no MAME executable has been looked at.
pub fn build_app_info(request: AppInfoRequest, versions: BackendVersions) -> (r: AppResult<
    AppInfoResponse,
>)
    ensures
        r is Ok <==> request.protocol_version == APP_PROTOCOL_VERSION,
        r matches Ok(resp) ==> accepted_response(versions, MameVersionReport::NotConfigured, resp),
        r matches Err(e) ==> e.code@ == "UNSUPPORTED_PROTOCOL_VERSION"@,
{
    build_app_info_with_mame(request, MameVersionReport::NotConfigured, versions)
}

/// The report for an executable that could not be resolved or probed.
pub fn unavailable_mame(path: Option<String>, error: AppError) -> (r: MameVersionReport)
    ensures
        r == (MameVersionReport::Unavailable {
            path,
            error_code: error.code,
            error_message: error.message,
        }),
{
    MameVersionReport::Unavailable { path, error_code: error.code, error_message: error.message }
}

/// The report for the configured executable. `settings` is what reading the settings
/// gave: an error, no executable, or its path; `probe` is the result of probing that
/// path, present exactly when there is one.
pub fn mame_version_report(
    settings: AppResult<Option<String>>,
    probe: Option<AppResult<MameExecutableIdentity>>,
) -> (r: MameVersionReport)
    requires
        (settings matches Ok(Some(_))) <==> probe is Some,
    ensures
        settings matches Err(e) ==> r == (MameVersionReport::Unavailable {
            path: None,
            error_code: e.code,
            error_message: e.message,
        }),
        settings == Ok::<Option<String>, AppError>(None) ==> r == MameVersionReport::NotConfigured,
        probe matches Some(Ok(identity)) ==> r == (MameVersionReport::Available { identity }),
        settings matches Ok(Some(path)) ==> (probe matches Some(Err(e)) ==> r == (
        MameVersionReport::Unavailable { path: Some(path), error_code: e.code, error_message: e.message })),
{
    match settings {
        Err(error) => unavailable_mame(None, error),
        Ok(None) => MameVersionReport::NotConfigured,
        Ok(Some(path)) => match probe {
            Some(Ok(identity)) => MameVersionReport::Available { identity },
            Some(Err(error)) => unavailable_mame(Some(path), error),
            None => MameVersionReport::NotConfigured,
        },
    }
}

/// The readiness event for the given backend version.
pub fn app_ready_event(app_version: String) -> (r: AppReadyEventV1)
    ensures
        r.schema_version == 1,
        r.app_version == app_version,
{
    AppReadyEventV1 { schema_version: 1, app_version }
}

} // verus!
