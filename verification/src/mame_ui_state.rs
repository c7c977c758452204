//! Versioned, project-owned view state of the MAME-style browser: the last machine,
//! the filter and the right-panel selections. It is kept apart from MAME's own INI and
//! CFG files. An absent file means the safe defaults; a malformed or future-version
//! one is reported, never silently replaced.

use vstd::prelude::*;

use crate::argv::{is_identifier_error, identifier_reason, valid_identifier_segment, validate_short_identifier};
use crate::artwork::ArtworkKind;
use crate::errors::{AppError, AppResult};
use crate::mame_ui::MameUiMachineFilterRequest;
use crate::text::{chars_of, decimal, decimal_string};

verus! {

broadcast use vstd::string::group_string_axioms;

pub const MAME_UI_STATE_SCHEMA_VERSION: u32 = 1;

pub const MAX_FILTER_VALUE_LENGTH: usize = 256;

/// What the right-hand panel shows.
#[derive(Debug, Clone, Copy, PartialEq, Eq)]
pub enum MameUiPanelMode {
    Images,
    Info,
}

impl Default for MameUiPanelMode {
    fn default() -> (r: Self)
        ensures
            r == MameUiPanelMode::Images,
    {
        MameUiPanelMode::Images
    }
}

#[derive(Debug, Clone, PartialEq, Eq)]
pub struct MameUiStateV1 {
    pub schema_version: u32,
    pub last_machine: Option<String>,
    pub filter: MameUiMachineFilterRequest,
    pub filter_value: Option<String>,
    pub right_panel_mode: MameUiPanelMode,
    pub artwork_kind: ArtworkKind,
    pub software_right_panel_mode: MameUiPanelMode,
    pub software_artwork_kind: ArtworkKind,
}

/// The safe defaults: the current schema, no machine, every machine listed, images of
/// screenshots in both panels.
pub open spec fn default_state(s: MameUiStateV1) -> bool {
    &&& s.schema_version == MAME_UI_STATE_SCHEMA_VERSION
    &&& s.last_machine is None
    &&& s.filter == MameUiMachineFilterRequest::All
    &&& s.filter_value is None
    &&& s.right_panel_mode == MameUiPanelMode::Images
    &&& s.artwork_kind == ArtworkKind::Screenshot
    &&& s.software_right_panel_mode == MameUiPanelMode::Images
    &&& s.software_artwork_kind == ArtworkKind::Screenshot
}

impl Default for MameUiStateV1 {
    fn default() -> (r: Self)
        ensures
            default_state(r),
    {
        MameUiStateV1 {
            schema_version: MAME_UI_STATE_SCHEMA_VERSION,
            last_machine: None,
            filter: MameUiMachineFilterRequest::All,
            filter_value: None,
            right_panel_mode: MameUiPanelMode::Images,
            artwork_kind: ArtworkKind::Screenshot,
            software_right_panel_mode: MameUiPanelMode::Images,
            software_artwork_kind: ArtworkKind::Screenshot,
        }
    }
}

/// The first rule a state breaks, by its error code, in the order they are checked.
pub open spec fn state_error_code(s: MameUiStateV1) -> Option<Seq<char>> {
    if s.schema_version != MAME_UI_STATE_SCHEMA_VERSION {
        Some("MAME_UI_STATE_SCHEMA_UNSUPPORTED"@)
    } else if s.last_machine matches Some(m) && !valid_identifier_segment(m@, 16) {
        Some("MAME_IDENTIFIER_INVALID"@)
    } else if s.filter_value matches Some(v) && v@.len() > MAX_FILTER_VALUE_LENGTH {
        Some("MAME_UI_STATE_FILTER_VALUE_TOO_LONG"@)
    } else {
        None
    }
}

/// Check a state before it is stored or after it is read: the current schema, a valid
/// last machine, and a filter value within the length limit in characters.
pub fn validate_state(state: &MameUiStateV1) -> (r: AppResult<()>)
    ensures
        r is Ok <==> state_error_code(*state) is None,
        r matches Err(e) ==> state_error_code(*state) == Some(e.code@),
        r matches Err(e) ==> (state.last_machine is Some && state.schema_version
            == MAME_UI_STATE_SCHEMA_VERSION && !valid_identifier_segment(state.last_machine->0@, 16))
            ==> is_identifier_error(
            e,
            "lastMachine"@,
            state.last_machine->0@,
            identifier_reason(state.last_machine->0@, 16),
        ),
{
    if state.schema_version != MAME_UI_STATE_SCHEMA_VERSION {
        return Err(
            AppError::new(
                "MAME_UI_STATE_SCHEMA_UNSUPPORTED",
                "Only the current MAME UI state schema can be persisted.",
            ),
        );
    }
    match &state.last_machine {
        Some(machine) => {
            validate_short_identifier("lastMachine", machine.as_str())?;
        },
        None => {},
    }
    match &state.filter_value {
        Some(value) => {
            let chars = chars_of(value.as_str());
            if chars.len() > MAX_FILTER_VALUE_LENGTH {
                return Err(
                    AppError::new(
                        "MAME_UI_STATE_FILTER_VALUE_TOO_LONG",
                        "The persisted MAME UI filter value exceeds the supported length.",
                    ).with_detail("maxLength", decimal_string(MAX_FILTER_VALUE_LENGTH as u64)),
                );
            }
        },
        None => {},
    }
    Ok(())
}

/// Check the `schemaVersion` a stored document declares, before its contents are read:
/// absent (or not an unsigned integer) and unsupported versions are distinct errors.
pub fn check_state_schema_version(version: Option<u64>) -> (r: AppResult<()>)
    ensures
        r is Ok <==> version == Some(MAME_UI_STATE_SCHEMA_VERSION as u64),
        version is None ==> (r matches Err(e) && e.code@ == "MAME_UI_STATE_SCHEMA_VERSION_MISSING"@),
        version is Some && version->0 != MAME_UI_STATE_SCHEMA_VERSION ==> (r matches Err(e) && {
            &&& e.code@ == "MAME_UI_STATE_SCHEMA_UNSUPPORTED"@
            &&& e.message@ == "MAME UI state schema version "@ + decimal(version->0 as nat) + " is not supported."@
            &&& e.details@.len() == 2
            &&& e.details@[0].key@ == "supportedVersion"@
            &&& e.details@[0].value@ == decimal(MAME_UI_STATE_SCHEMA_VERSION as nat)
            &&& e.details@[1].key@ == "foundVersion"@
            &&& e.details@[1].value@ == decimal(version->0 as nat)
        }),
{
    match version {
        None => Err(
            AppError::new(
                "MAME_UI_STATE_SCHEMA_VERSION_MISSING",
                "The MAME UI state file has no valid schema version.",
            ),
        ),
        Some(v) => {
            if v != MAME_UI_STATE_SCHEMA_VERSION as u64 {
                let found = decimal_string(v);
                let m1 = crate::text::concat_strs("MAME UI state schema version ", found.as_str());
                let message = crate::text::concat_strs(m1.as_str(), " is not supported.");
                return Err(
                    AppError::new("MAME_UI_STATE_SCHEMA_UNSUPPORTED", message.as_str()).with_detail(
                        "supportedVersion",
                        decimal_string(MAME_UI_STATE_SCHEMA_VERSION as u64),
                    ).with_detail("foundVersion", found),
                );
            }
            Ok(())
        },
    }
}

} // verus!
