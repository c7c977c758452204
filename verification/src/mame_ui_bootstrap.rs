//! Whether the MAME-style browser can open: an executable must be configured and usable,
//! and the catalog must hold a generation produced by it. Each case is a readiness
//! state, not an error.

use vstd::prelude::*;

use crate::catalog_import::summary_of_import;
use crate::errors::{AppError, AppResult};
use crate::executable::{MameExecutableIdentity, MameExecutableSource};
use crate::library::{generation_matches, generation_matches_identity, MetadataGenerationSummary};
use crate::listxml::ListXmlSummary;

verus! {

broadcast use vstd::string::group_string_axioms;

/// The configured executable as the browser shows it.
#[derive(Debug, Clone, PartialEq, Eq)]
pub struct MameUiConfiguredMame {
    pub version: String,
    pub build: Option<String>,
    pub raw_version_line: String,
}

/// A catalog generation as the browser shows it.
#[derive(Debug, Clone, PartialEq, Eq)]
pub struct MameUiGenerationSummary {
    pub generation_id: i64,
    pub mame_version: String,
    pub imported_at_epoch_ms: u64,
    pub machine_count: u64,
}

#[derive(Debug, Clone, PartialEq, Eq)]
pub enum MameUiBootstrapStatus {
    NotConfigured,
    ExecutableUnavailable { error_code: String, error_message: String },
    MetadataMissing { mame: MameUiConfiguredMame },
    MetadataStale { mame: MameUiConfiguredMame, active_generation: MameUiGenerationSummary },
    Ready { mame: MameUiConfiguredMame, generation: MameUiGenerationSummary },
}

pub open spec fn configured_of(i: MameExecutableIdentity) -> MameUiConfiguredMame {
    MameUiConfiguredMame { version: i.version, build: i.build, raw_version_line: i.raw_version_line }
}

pub open spec fn generation_of(g: MetadataGenerationSummary) -> MameUiGenerationSummary {
    MameUiGenerationSummary {
        generation_id: g.generation_id,
        mame_version: g.mame_version,
        imported_at_epoch_ms: g.imported_at_epoch_ms,
        machine_count: g.machine_count,
    }
}

fn copy_text(s: &Option<String>) -> (r: Option<String>)
    ensures
        r == *s,
{
    match s {
        Some(v) => Some(v.clone()),
        None => None,
    }
}

pub fn configured_mame(identity: &MameExecutableIdentity) -> (r: MameUiConfiguredMame)
    ensures
        r == configured_of(*identity),
{
    MameUiConfiguredMame {
        version: identity.version.clone(),
        build: copy_text(&identity.build),
        raw_version_line: identity.raw_version_line.clone(),
    }
}

pub fn generation_summary(generation: &MetadataGenerationSummary) -> (r: MameUiGenerationSummary)
    ensures
        r == generation_of(*generation),
{
    MameUiGenerationSummary {
        generation_id: generation.generation_id,
        mame_version: generation.mame_version.clone(),
        imported_at_epoch_ms: generation.imported_at_epoch_ms,
        machine_count: generation.machine_count,
    }
}

/// The readiness state: `probe` is what inspecting the configured executable gave
/// (`None` when none is configured), `active` the catalog's active generation.
pub open spec fn bootstrap_of(
    probe: Option<AppResult<MameExecutableIdentity>>,
    active: Option<MetadataGenerationSummary>,
) -> MameUiBootstrapStatus {
    match probe {
        None => MameUiBootstrapStatus::NotConfigured,
        Some(Err(e)) => MameUiBootstrapStatus::ExecutableUnavailable {
            error_code: e.code,
            error_message: e.message,
        },
        Some(Ok(identity)) => match active {
            None => MameUiBootstrapStatus::MetadataMissing { mame: configured_of(identity) },
            Some(g) => if generation_matches(g, identity) {
                MameUiBootstrapStatus::Ready { mame: configured_of(identity), generation: generation_of(g) }
            } else {
                MameUiBootstrapStatus::MetadataStale {
                    mame: configured_of(identity),
                    active_generation: generation_of(g),
                }
            },
        },
    }
}

/// Decide the readiness state from the inspection of the configured executable and the
/// active generation (read only when the executable could be inspected).
pub fn bootstrap_status(
    probe: Option<AppResult<MameExecutableIdentity>>,
    active: Option<MetadataGenerationSummary>,
) -> (r: MameUiBootstrapStatus)
    ensures
        r == bootstrap_of(probe, active),
{
    match probe {
        None => MameUiBootstrapStatus::NotConfigured,
        Some(Err(e)) => MameUiBootstrapStatus::ExecutableUnavailable { error_code: e.code, error_message: e.message },
        Some(Ok(identity)) => {
            let mame = configured_mame(&identity);
            match active {
                None => MameUiBootstrapStatus::MetadataMissing { mame },
                Some(g) => {
                    if generation_matches_identity(&g, &identity) {
                        MameUiBootstrapStatus::Ready { mame, generation: generation_summary(&g) }
                    } else {
                        MameUiBootstrapStatus::MetadataStale { mame, active_generation: generation_summary(&g) }
                    }
                },
            }
        },
    }
}

/// After a refresh from the configured executable completes, the browser is ready with
/// the generation that refresh produced.
pub proof fn law_refresh_makes_browser_ready(
    generation_id: i64,
    identity: MameExecutableIdentity,
    listxml: ListXmlSummary,
    generated_at_epoch_ms: u64,
    imported_at_epoch_ms: u64,
    s: MetadataGenerationSummary,
)
    requires
        summary_of_import(generation_id, identity, listxml, generated_at_epoch_ms, imported_at_epoch_ms, s),
    ensures
        bootstrap_of(Some(Ok(identity)), Some(s)) == (MameUiBootstrapStatus::Ready {
            mame: configured_of(identity),
            generation: generation_of(s),
        }),
{
}

/// A refresh of the configured executable's metadata needs one to be configured.
pub fn require_configured_source(source: Option<MameExecutableSource>) -> (r: AppResult<MameExecutableSource>)
    ensures
        r is Ok <==> source is Some,
        r matches Ok(s) ==> source == Some(s),
        r matches Err(e) ==> e.code@ == "MAME_NOT_CONFIGURED"@,
{
    match source {
        Some(s) => Ok(s),
        None => Err(
            AppError::new(
                "MAME_NOT_CONFIGURED",
                "Configure a MAME executable before importing machine metadata.",
            ),
        ),
    }
}

} // verus!
