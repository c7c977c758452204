//! Starting a machine with no software from the MAME-style browser: the checks on the
//! requested machine and BIOS before a session is launched.

use vstd::prelude::*;

use crate::argv::{identifier_reason, is_identifier_error, valid_identifier_segment, validate_short_identifier};
use crate::bios::{valid_bios_identifier, validate_bios_identifier, validate_bios_selection, BiosChoice};
use crate::errors::{AppError, AppResult};
use crate::library::MetadataGenerationSummary;
use crate::preferences::LaunchPreferencesV1;
use crate::text::{chars_of, string_from, trim, trim_chars};

verus! {

broadcast use vstd::string::group_string_axioms;

#[derive(Debug, Clone, PartialEq, Eq)]
pub struct LaunchMameEmptyRequest {
    pub short_name: String,
    pub bios: Option<String>,
    pub launch_overrides: Option<LaunchPreferencesV1>,
}

fn trimmed(value: &str) -> (r: String)
    ensures
        r@ == trim(value@),
{
    let chars = chars_of(value);
    let t = trim_chars(chars.as_slice());
    string_from(t.as_slice())
}

/// The machine to start, trimmed; it must be a valid short identifier.
pub fn validated_short_identifier(value: String) -> (r: AppResult<String>)
    ensures
        r is Ok <==> valid_identifier_segment(trim(value@), 16),
        r matches Ok(v) ==> v@ == trim(value@),
        r matches Err(e) ==> is_identifier_error(e, "machine"@, trim(value@), identifier_reason(trim(value@), 16)),
{
    let t = trimmed(value.as_str());
    validate_short_identifier("machine", t.as_str())?;
    Ok(t)
}

/// The BIOS to start with, trimmed: a valid BIOS name among those MAME reports for the
/// machine.
pub fn validated_bios_selection(value: String, choices: &[BiosChoice]) -> (r: AppResult<String>)
    ensures
        r is Ok <==> valid_bios_identifier(trim(value@)) && exists|i: int|
            0 <= i < choices@.len() && #[trigger] choices@[i].name@ == trim(value@),
        r matches Ok(v) ==> v@ == trim(value@),
        !valid_bios_identifier(trim(value@)) ==> (r matches Err(e) && e.code@ == "MAME_BIOS_IDENTIFIER_INVALID"@),
        valid_bios_identifier(trim(value@)) && r is Err ==> (r matches Err(e) && e.code@
            == "MAME_BIOS_SELECTION_INVALID"@),
{
    let t = trimmed(value.as_str());
    validate_bios_identifier(t.as_str())?;
    validate_bios_selection(choices, t.as_str())?;
    Ok(t)
}

/// Starting a machine needs an active catalog generation.
pub fn require_active_generation(active: Option<MetadataGenerationSummary>) -> (r: AppResult<MetadataGenerationSummary>)
    ensures
        r is Ok <==> active is Some,
        r matches Ok(g) ==> active == Some(g),
        r matches Err(e) ==> e.code@ == "MAME_METADATA_NOT_READY"@,
{
    match active {
        Some(g) => Ok(g),
        None => Err(
            AppError::new(
                "MAME_METADATA_NOT_READY",
                "No successfully imported MAME metadata generation is active.",
            ),
        ),
    }
}

} // verus!
