//! The state of the machine catalog against the configured executable: the active
//! generation as stored and read back, whether it is fresh for the executable, and the
//! checks that accept a `-listxml` refresh.

use vstd::prelude::*;

use crate::catalog_import::summary_of_import;
use crate::errors::{AppError, AppResult};
use crate::executable::{MameExecutableIdentity, MameExecutableSource, MameExecutableSourceKind};
use crate::library::{generation_matches, generation_matches_identity, MetadataGenerationSummary};
use crate::listxml::ListXmlSummary;
use crate::text::str_equal;

verus! {

broadcast use vstd::string::group_string_axioms;

/// How the active generation relates to the current executable.
#[derive(Debug, Clone, Copy, PartialEq, Eq)]
pub enum MetadataFreshness {
    Empty,
    Fresh,
    Stale,
}

#[derive(Debug, Clone, PartialEq, Eq)]
pub struct MetadataStatus {
    pub schema_version: u32,
    pub freshness: MetadataFreshness,
    pub current_executable: MameExecutableIdentity,
    pub active_generation: Option<MetadataGenerationSummary>,
}

#[derive(Debug, Clone, PartialEq, Eq)]
pub struct MetadataRefreshResult {
    pub schema_version: u32,
    pub generation: MetadataGenerationSummary,
}

/// A software list a machine declares, as the detail view shows it.
#[derive(Debug, Clone, PartialEq, Eq)]
pub struct MachineSoftwareListInfo {
    pub tag: String,
    pub name: String,
    pub status: String,
    pub filter: Option<String>,
}

/// A generation row as the catalog stores it, with signed integers.
#[derive(Debug, Clone, PartialEq, Eq)]
pub struct StoredGeneration {
    pub generation_id: i64,
    pub source_kind: String,
    pub trust: String,
    pub executable_path: String,
    pub mame_version: String,
    pub mame_build: Option<String>,
    pub raw_version_line: String,
    pub listxml_build: Option<String>,
    pub mame_config: Option<String>,
    pub generated_at_epoch_ms: i64,
    pub imported_at_epoch_ms: i64,
    pub machine_count: i64,
}

pub open spec fn is_invalid_result(e: AppError) -> bool {
    e.code@ == "CATALOG_QUERY_RESULT_INVALID"@
}

/// A stored number that must not be negative.
pub fn to_u64(value: i64, field: &str) -> (r: AppResult<u64>)
    ensures
        r is Ok <==> value >= 0,
        r matches Ok(v) ==> v == value,
        r matches Err(e) ==> is_invalid_result(e),
{
    if value >= 0 {
        Ok(value as u64)
    } else {
        Err(
            AppError::new(
                "CATALOG_QUERY_RESULT_INVALID",
                "The catalog contains an invalid negative integer value.",
            ).with_detail("field", field.to_string()).with_detail(
                "value",
                crate::text::signed_decimal_string(value),
            ),
        )
    }
}

pub open spec fn stored_valid(g: StoredGeneration) -> bool {
    g.generated_at_epoch_ms >= 0 && g.imported_at_epoch_ms >= 0 && g.machine_count >= 0
}

/// The summary a stored row describes.
pub open spec fn summary_of_stored(g: StoredGeneration) -> MetadataGenerationSummary {
    MetadataGenerationSummary {
        generation_id: g.generation_id,
        source_kind: g.source_kind,
        trust: g.trust,
        executable_path: g.executable_path,
        mame_version: g.mame_version,
        mame_build: g.mame_build,
        raw_version_line: g.raw_version_line,
        listxml_build: g.listxml_build,
        mame_config: g.mame_config,
        generated_at_epoch_ms: g.generated_at_epoch_ms as u64,
        imported_at_epoch_ms: g.imported_at_epoch_ms as u64,
        machine_count: g.machine_count as u64,
    }
}

/// The row a summary is stored as.
pub open spec fn stored_of_summary(s: MetadataGenerationSummary) -> StoredGeneration {
    StoredGeneration {
        generation_id: s.generation_id,
        source_kind: s.source_kind,
        trust: s.trust,
        executable_path: s.executable_path,
        mame_version: s.mame_version,
        mame_build: s.mame_build,
        raw_version_line: s.raw_version_line,
        listxml_build: s.listxml_build,
        mame_config: s.mame_config,
        generated_at_epoch_ms: s.generated_at_epoch_ms as i64,
        imported_at_epoch_ms: s.imported_at_epoch_ms as i64,
        machine_count: s.machine_count as i64,
    }
}

/// Every number of the summary fits the catalog's signed integers.
pub open spec fn storable(s: MetadataGenerationSummary) -> bool {
    s.generated_at_epoch_ms <= i64::MAX && s.imported_at_epoch_ms <= i64::MAX && s.machine_count <= i64::MAX
}

impl StoredGeneration {
    /// Read a stored generation back; its numbers must not be negative.
    pub fn into_summary(self) -> (r: AppResult<MetadataGenerationSummary>)
        ensures
            r is Ok <==> stored_valid(self),
            r matches Ok(s) ==> s == summary_of_stored(self),
            r matches Err(e) ==> is_invalid_result(e),
    {
        let generated_at_epoch_ms = to_u64(self.generated_at_epoch_ms, "generatedAtEpochMs")?;
        let imported_at_epoch_ms = to_u64(self.imported_at_epoch_ms, "importedAtEpochMs")?;
        let machine_count = to_u64(self.machine_count, "machineCount")?;
        Ok(
            MetadataGenerationSummary {
                generation_id: self.generation_id,
                source_kind: self.source_kind,
                trust: self.trust,
                executable_path: self.executable_path,
                mame_version: self.mame_version,
                mame_build: self.mame_build,
                raw_version_line: self.raw_version_line,
                listxml_build: self.listxml_build,
                mame_config: self.mame_config,
                generated_at_epoch_ms,
                imported_at_epoch_ms,
                machine_count,
            },
        )
    }
}

/// Reading back a stored generation gives the summary that was stored, whenever its
/// numbers fit the catalog's integers.
pub proof fn law_stored_generation_round_trip(s: MetadataGenerationSummary)
    requires
        storable(s),
    ensures
        stored_valid(stored_of_summary(s)),
        summary_of_stored(stored_of_summary(s)) == s,
{
}

/// Empty without an active generation; fresh when it was produced by the current
/// executable; stale otherwise.
pub open spec fn freshness_of(active: Option<MetadataGenerationSummary>, current: MameExecutableIdentity) -> MetadataFreshness {
    match active {
        None => MetadataFreshness::Empty,
        Some(g) => if generation_matches(g, current) {
            MetadataFreshness::Fresh
        } else {
            MetadataFreshness::Stale
        },
    }
}

/// The catalog's status for the current executable.
pub fn metadata_status(current_executable: MameExecutableIdentity, active_generation: Option<MetadataGenerationSummary>) -> (r:
    MetadataStatus)
    ensures
        r.schema_version == 1,
        r.freshness == freshness_of(active_generation, current_executable),
        r.current_executable == current_executable,
        r.active_generation == active_generation,
{
    let freshness = match &active_generation {
        None => MetadataFreshness::Empty,
        Some(active) => if generation_matches_identity(active, &current_executable) {
            MetadataFreshness::Fresh
        } else {
            MetadataFreshness::Stale
        },
    };
    MetadataStatus { schema_version: 1, freshness, current_executable, active_generation }
}

/// Once a refresh from an executable completes, the catalog is fresh for that executable.
pub proof fn law_refresh_leaves_catalog_fresh(
    generation_id: i64,
    identity: MameExecutableIdentity,
    listxml: ListXmlSummary,
    generated_at_epoch_ms: u64,
    imported_at_epoch_ms: u64,
    s: MetadataGenerationSummary,
)
    requires
        summary_of_import(generation_id, identity, listxml, generated_at_epoch_ms, imported_at_epoch_ms, s),
    ensures
        freshness_of(Some(s), identity) == MetadataFreshness::Fresh,
{
}

/// The `-listxml` document must name the build the version probe reported; a document
/// with no build, or another one, is refused.
pub fn check_listxml_build(build: Option<&str>, identity: &MameExecutableIdentity) -> (r: AppResult<()>)
    ensures
        r is Ok <==> (build matches Some(b) && b@ == identity.raw_version_line@),
        build is None ==> (r matches Err(e) && e.code@ == "MAME_METADATA_BUILD_MISSING"@),
        build is Some && build->0@ != identity.raw_version_line@ ==> (r matches Err(e) && e.code@
            == "MAME_METADATA_IDENTITY_MISMATCH"@),
{
    match build {
        Some(b) => {
            if !str_equal(b, identity.raw_version_line.as_str()) {
                return Err(
                    AppError::new(
                        "MAME_METADATA_IDENTITY_MISMATCH",
                        "MAME -listxml reported a different build than the executable identity probe.",
                    ).with_detail("versionProbe", identity.raw_version_line.clone()).with_detail(
                        "listxmlBuild",
                        b.to_string(),
                    ),
                );
            }
            Ok(())
        },
        None => Err(
            AppError::new("MAME_METADATA_BUILD_MISSING", "MAME -listxml did not report its build identity."),
        ),
    }
}

/// After the document was read: MAME must have exited successfully and its diagnostics
/// must have been read completely.
pub fn check_generation_exit(success: bool, stderr_read_error: Option<String>) -> (r: AppResult<()>)
    ensures
        r is Ok <==> success && stderr_read_error is None,
        !success ==> (r matches Err(e) && e.code@ == "MAME_METADATA_GENERATION_FAILED"@),
        success && stderr_read_error is Some ==> (r matches Err(e) && e.code@
            == "MAME_METADATA_STDERR_READ_FAILED"@),
{
    if !success {
        return Err(
            AppError::new(
                "MAME_METADATA_GENERATION_FAILED",
                "MAME exited unsuccessfully while generating metadata.",
            ),
        );
    }
    match stderr_read_error {
        Some(cause) => Err(
            AppError::new(
                "MAME_METADATA_STDERR_READ_FAILED",
                "MAME metadata diagnostics could not be read completely.",
            ).with_detail("cause", cause),
        ),
        None => Ok(()),
    }
}

/// The answer to a completed refresh.
pub fn refresh_result(generation: MetadataGenerationSummary) -> (r: MetadataRefreshResult)
    ensures
        r == (MetadataRefreshResult { schema_version: 1, generation }),
{
    MetadataRefreshResult { schema_version: 1, generation }
}

/// Which kind of executable a metadata request names.
#[derive(Debug, Clone, Copy, PartialEq, Eq)]
pub enum MameExecutableSelectionKind {
    External,
    DevelopmentTree,
}

/// An executable named by the front end: its kind and path.
#[derive(Debug, Clone, PartialEq, Eq)]
pub struct MameExecutableRequest {
    pub source: MameExecutableSelectionKind,
    pub path: String,
}

#[derive(Debug, Clone, PartialEq, Eq)]
pub struct RefreshMameMetadataRequest {
    pub executable: MameExecutableRequest,
}

#[derive(Debug, Clone, PartialEq, Eq)]
pub struct MetadataStatusRequest {
    pub executable: MameExecutableRequest,
}

/// The executable a request names; a request can never name the bundled one.
pub fn executable_source(request: &MameExecutableRequest) -> (r: MameExecutableSource)
    ensures
        r.spec_path() == request.path@,
        r.spec_kind() == (match request.source {
            MameExecutableSelectionKind::External => MameExecutableSourceKind::External,
            MameExecutableSelectionKind::DevelopmentTree => MameExecutableSourceKind::DevelopmentTree,
        }),
{
    match request.source {
        MameExecutableSelectionKind::External => MameExecutableSource::external(request.path.clone()),
        MameExecutableSelectionKind::DevelopmentTree => MameExecutableSource::development_tree(
            request.path.clone(),
        ),
    }
}

} // verus!
