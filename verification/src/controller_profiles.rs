//! User-owned controller profiles: their identity, target device and mapping
//! provenance, the scopes they are assigned to, and the checks made before and after
//! the catalog stores them. Gameplay input stays with MAME; nothing here routes input.

use vstd::prelude::*;

use crate::argv::{is_identifier_error, identifier_reason, valid_identifier_segment, validate_short_identifier};
use crate::errors::{AppError, AppResult};
use crate::text::{
    chars_of, concat_strs, decimal, decimal_string, signed_decimal, signed_decimal_string, string_from, trim,
    trim_chars, utf8_len,
};

verus! {

broadcast use vstd::string::group_string_axioms;

pub const CONTROLLER_PROFILE_SCHEMA_VERSION: u32 = 1;

pub const MAX_PROFILE_NAME_BYTES: usize = 120;

pub const MAX_DEVICE_IDENTITY_BYTES: usize = 1024;

pub const MAX_MAPPING_LABEL_BYTES: usize = 120;

pub const MAX_PROVENANCE_REFERENCE_BYTES: usize = 2048;

/// Where a device identity string comes from. A browser gamepad id is not a serial
/// number: it need not be stable or unique to one physical unit.
#[derive(Debug, Clone, Copy, PartialEq, Eq)]
pub enum ControllerDeviceIdentityKind {
    BrowserGamepadId,
    MameInputDeviceId,
    UserDefined,
}

#[derive(Debug, Clone, PartialEq, Eq)]
pub struct ControllerDeviceIdentity {
    pub kind: ControllerDeviceIdentityKind,
    pub value: String,
    pub reported_mapping: Option<String>,
}

/// The origin of a mapping: the browser's standard gamepad layout, a MAME `-ctrlr`
/// configuration, an OSD controller map, or a mapping this application owns.
#[derive(Debug, Clone, Copy, PartialEq, Eq)]
pub enum ControllerMappingProvenanceKind {
    BrowserStandardGamepad,
    MameControllerConfig,
    MameOsdControllerMap,
    ProjectOwned,
}

#[derive(Debug, Clone, PartialEq, Eq)]
pub struct ControllerMappingProvenance {
    pub kind: ControllerMappingProvenanceKind,
    pub source_reference: Option<String>,
}

#[derive(Debug, Clone, PartialEq, Eq)]
pub struct ControllerProfileDraft {
    pub name: String,
    pub target_device: ControllerDeviceIdentity,
    pub mapping_provenance: ControllerMappingProvenance,
}

#[derive(Debug, Clone, PartialEq, Eq)]
pub struct ControllerProfile {
    pub schema_version: u32,
    pub id: i64,
    pub name: String,
    pub target_device: ControllerDeviceIdentity,
    pub mapping_provenance: ControllerMappingProvenance,
    pub created_at_epoch_ms: i64,
    pub updated_at_epoch_ms: i64,
}

/// Where a profile applies: everywhere, or to one machine.
#[derive(Debug, Clone, PartialEq, Eq)]
pub enum ControllerProfileScope {
    Global,
    Machine { short_name: String },
}

#[derive(Debug, Clone, PartialEq, Eq)]
pub struct ControllerProfileAssignment {
    pub profile_id: i64,
    pub scope: ControllerProfileScope,
}

/// How a scope is stored: its kind, its key and the machine it names.
#[derive(Debug, Clone, PartialEq, Eq)]
pub struct ScopeStorageFields {
    pub scope_kind: &'static str,
    pub scope_key: String,
    pub machine_short_name: Option<String>,
}

/// Trimmed, the text is non-empty and its UTF-8 encoding fits in `max_bytes`.
pub open spec fn bounded_text(s: Seq<char>, max_bytes: nat) -> bool {
    trim(s).len() > 0 && utf8_len(trim(s)) <= max_bytes
}

pub open spec fn bounded_optional(o: Option<String>, max_bytes: nat) -> bool {
    o matches Some(v) ==> bounded_text(v@, max_bytes)
}

/// The trimmed text of an optional value.
pub open spec fn trimmed_optional(o: Option<String>, r: Option<String>) -> bool {
    match o {
        Some(v) => r matches Some(t) && t@ == trim(v@),
        None => r is None,
    }
}

/// The error for an empty or oversized text field.
pub open spec fn is_bounded_error(e: AppError, code: Seq<char>, label: Seq<char>, value: Seq<char>, max_bytes: nat) -> bool {
    &&& e.code@ == code
    &&& e.message@ == label + " is empty or too long."@
    &&& e.details@.len() == 2
    &&& e.details@[0].key@ == "maxBytes"@ && e.details@[0].value@ == decimal(max_bytes)
    &&& e.details@[1].key@ == "actualBytes"@ && e.details@[1].value@ == decimal(
        utf8_len(trim(value)) as nat,
    )
}

/// Trim a text field and check it is non-empty and within `max_bytes` bytes.
pub fn bounded_trimmed(code: &str, label: &str, value: String, max_bytes: usize) -> (r: AppResult<String>)
    ensures
        r is Ok <==> bounded_text(value@, max_bytes as nat),
        r matches Ok(v) ==> v@ == trim(value@),
        r matches Err(e) ==> is_bounded_error(e, code@, label@, value@, max_bytes as nat),
{
    let chars = chars_of(value.as_str());
    let trimmed = trim_chars(chars.as_slice());
    let text = string_from(trimmed.as_slice());
    let byte_len = text.as_str().as_bytes().len();
    proof {
        crate::text::lemma_utf8_len_is_encoded_length(trimmed@);
    }
    if trimmed.len() == 0 || byte_len > max_bytes {
        let message = concat_strs(label, " is empty or too long.");
        return Err(
            AppError::new(code, message.as_str()).with_detail(
                "maxBytes",
                decimal_string(max_bytes as u64),
            ).with_detail("actualBytes", decimal_string(byte_len as u64)),
        );
    }
    Ok(text)
}

/// `bounded_trimmed` on a value that may be absent; absence is accepted.
pub fn bounded_optional_trimmed(code: &str, label: &str, value: Option<String>, max_bytes: usize) -> (r:
    AppResult<Option<String>>)
    ensures
        r is Ok <==> bounded_optional(value, max_bytes as nat),
        r matches Ok(v) ==> trimmed_optional(value, v),
        r matches Err(e) ==> (value matches Some(v) && is_bounded_error(e, code@, label@, v@, max_bytes as nat)),
{
    match value {
        Some(v) => {
            let t = bounded_trimmed(code, label, v, max_bytes)?;
            Ok(Some(t))
        },
        None => Ok(None),
    }
}

/// The first check a draft fails, by its error code, in the order they are made.
pub open spec fn draft_error_code(d: ControllerProfileDraft) -> Option<Seq<char>> {
    if !bounded_text(d.name@, MAX_PROFILE_NAME_BYTES as nat) {
        Some("CONTROLLER_PROFILE_NAME_INVALID"@)
    } else if !bounded_text(d.target_device.value@, MAX_DEVICE_IDENTITY_BYTES as nat) {
        Some("CONTROLLER_DEVICE_IDENTITY_INVALID"@)
    } else if !bounded_optional(d.target_device.reported_mapping, MAX_MAPPING_LABEL_BYTES as nat) {
        Some("CONTROLLER_DEVICE_MAPPING_LABEL_INVALID"@)
    } else if !bounded_optional(d.mapping_provenance.source_reference, MAX_PROVENANCE_REFERENCE_BYTES as nat) {
        Some("CONTROLLER_MAPPING_PROVENANCE_INVALID"@)
    } else {
        None
    }
}

/// A validated draft is the draft with each text field trimmed and nothing else changed.
pub open spec fn is_trimmed_draft(d: ControllerProfileDraft, r: ControllerProfileDraft) -> bool {
    &&& r.name@ == trim(d.name@)
    &&& r.target_device.kind == d.target_device.kind
    &&& r.target_device.value@ == trim(d.target_device.value@)
    &&& trimmed_optional(d.target_device.reported_mapping, r.target_device.reported_mapping)
    &&& r.mapping_provenance.kind == d.mapping_provenance.kind
    &&& trimmed_optional(d.mapping_provenance.source_reference, r.mapping_provenance.source_reference)
}

/// Validate a profile draft: the name, device identity, reported mapping label and
/// provenance reference are trimmed and bounded.
pub fn validate_draft(draft: ControllerProfileDraft) -> (r: AppResult<ControllerProfileDraft>)
    ensures
        r is Ok <==> draft_error_code(draft) is None,
        r matches Ok(d) ==> is_trimmed_draft(draft, d),
        r matches Err(e) ==> draft_error_code(draft) == Some(e.code@),
{
    let ControllerProfileDraft { name, target_device, mapping_provenance } = draft;
    let name = bounded_trimmed("CONTROLLER_PROFILE_NAME_INVALID", "Controller profile name", name, MAX_PROFILE_NAME_BYTES)?;
    let ControllerDeviceIdentity { kind, value, reported_mapping } = target_device;
    let value = bounded_trimmed(
        "CONTROLLER_DEVICE_IDENTITY_INVALID",
        "Controller device identity",
        value,
        MAX_DEVICE_IDENTITY_BYTES,
    )?;
    let reported_mapping = bounded_optional_trimmed(
        "CONTROLLER_DEVICE_MAPPING_LABEL_INVALID",
        "Controller reported mapping",
        reported_mapping,
        MAX_MAPPING_LABEL_BYTES,
    )?;
    let ControllerMappingProvenance { kind: provenance_kind, source_reference } = mapping_provenance;
    let source_reference = bounded_optional_trimmed(
        "CONTROLLER_MAPPING_PROVENANCE_INVALID",
        "Controller mapping provenance reference",
        source_reference,
        MAX_PROVENANCE_REFERENCE_BYTES,
    )?;
    Ok(
        ControllerProfileDraft {
            name,
            target_device: ControllerDeviceIdentity { kind, value, reported_mapping },
            mapping_provenance: ControllerMappingProvenance { kind: provenance_kind, source_reference },
        },
    )
}

/// A scope is acceptable when it is global, or names a machine whose trimmed short
/// name is a valid identifier.
pub open spec fn scope_valid(s: ControllerProfileScope) -> bool {
    s matches ControllerProfileScope::Machine { short_name } ==> valid_identifier_segment(trim(short_name@), 16)
}

/// Validate a scope, trimming the machine's short name.
pub fn validate_scope(scope: ControllerProfileScope) -> (r: AppResult<ControllerProfileScope>)
    ensures
        r is Ok <==> scope_valid(scope),
        scope is Global ==> r == Ok::<ControllerProfileScope, AppError>(ControllerProfileScope::Global),
        scope matches ControllerProfileScope::Machine { short_name } ==> {
            &&& (r matches Ok(ControllerProfileScope::Machine { short_name: t }) && t@ == trim(short_name@))
                || r is Err
            &&& (r matches Err(e) ==> is_identifier_error(
                e,
                "machine"@,
                trim(short_name@),
                identifier_reason(trim(short_name@), 16),
            ))
        },
{
    match scope {
        ControllerProfileScope::Global => Ok(ControllerProfileScope::Global),
        ControllerProfileScope::Machine { short_name } => {
            let chars = chars_of(short_name.as_str());
            let trimmed = trim_chars(chars.as_slice());
            let trimmed = string_from(trimmed.as_slice());
            validate_short_identifier("machine", trimmed.as_str())?;
            Ok(ControllerProfileScope::Machine { short_name: trimmed })
        },
    }
}

/// How a scope is keyed in storage: the global scope under `*`, a machine under its
/// short name.
pub fn scope_storage_fields(scope: &ControllerProfileScope) -> (r: ScopeStorageFields)
    ensures
        scope is Global ==> r.scope_kind@ == "global"@ && r.scope_key@ == "*"@ && r.machine_short_name is None,
        scope matches ControllerProfileScope::Machine { short_name } ==> {
            &&& r.scope_kind@ == "machine"@
            &&& r.scope_key@ == short_name@
            &&& r.machine_short_name matches Some(m) && m@ == short_name@
        },
{
    match scope {
        ControllerProfileScope::Global => ScopeStorageFields {
            scope_kind: "global",
            scope_key: "*".to_string(),
            machine_short_name: None,
        },
        ControllerProfileScope::Machine { short_name } => ScopeStorageFields {
            scope_kind: "machine",
            scope_key: short_name.clone(),
            machine_short_name: Some(short_name.clone()),
        },
    }
}

/// A profile identity must be a positive database id.
pub fn validate_profile_id(profile_id: i64) -> (r: AppResult<()>)
    ensures
        r is Ok <==> profile_id > 0,
        r matches Err(e) ==> {
            &&& e.code@ == "CONTROLLER_PROFILE_ID_INVALID"@
            &&& e.details@.len() == 1
            &&& e.details@[0].key@ == "profileId"@
            &&& e.details@[0].value@ == signed_decimal(profile_id as int)
        },
{
    if profile_id <= 0 {
        return Err(
            AppError::new(
                "CONTROLLER_PROFILE_ID_INVALID",
                "Controller profile identity must be a positive database ID.",
            ).with_detail("profileId", signed_decimal_string(profile_id)),
        );
    }
    Ok(())
}

/// A timestamp to store, which must fit SQLite's signed integers.
pub fn checked_epoch_ms(value: u64) -> (r: AppResult<i64>)
    ensures
        r is Ok <==> value <= i64::MAX,
        r matches Ok(v) ==> v == value,
        r matches Err(e) ==> e.code@ == "CONTROLLER_PROFILE_TIMESTAMP_INVALID"@,
{
    if value <= i64::MAX as u64 {
        Ok(value as i64)
    } else {
        Err(
            AppError::new(
                "CONTROLLER_PROFILE_TIMESTAMP_INVALID",
                "Controller profile timestamp is outside SQLite's supported range.",
            ),
        )
    }
}

/// The error for a profile that does not exist.
pub fn profile_not_found(profile_id: i64) -> (e: AppError)
    ensures
        e.code@ == "CONTROLLER_PROFILE_NOT_FOUND"@,
        e.details@.len() == 1,
        e.details@[0].key@ == "profileId"@,
        e.details@[0].value@ == signed_decimal(profile_id as int),
{
    AppError::new("CONTROLLER_PROFILE_NOT_FOUND", "The requested controller profile does not exist.").with_detail(
        "profileId",
        signed_decimal_string(profile_id),
    )
}

/// The scope a stored assignment row describes: `global` with no machine, or
/// `machine` with one; anything else is invalid stored data.
pub open spec fn stored_scope(kind: Seq<char>, machine: Option<String>) -> Option<ControllerProfileScope> {
    if kind == "global"@ && machine is None {
        Some(ControllerProfileScope::Global)
    } else if kind == "machine"@ && machine is Some {
        Some(ControllerProfileScope::Machine { short_name: machine->0 })
    } else {
        None
    }
}

/// Read one stored assignment row of a profile.
pub fn assignment_from_row(profile_id: i64, scope_kind: &str, machine_short_name: Option<String>) -> (r:
    AppResult<ControllerProfileAssignment>)
    ensures
        r is Ok <==> stored_scope(scope_kind@, machine_short_name) is Some,
        r matches Ok(a) ==> a.profile_id == profile_id && Some(a.scope) == stored_scope(
            scope_kind@,
            machine_short_name,
        ),
        r matches Err(e) ==> e.code@ == "CONTROLLER_PROFILE_SCOPE_INVALID"@,
{
    proof {
        reveal_strlit("global");
        reveal_strlit("machine");
    }
    let is_global = crate::text::str_equal(scope_kind, "global");
    let is_machine = crate::text::str_equal(scope_kind, "machine");
    match machine_short_name {
        None => {
            if is_global {
                return Ok(ControllerProfileAssignment { profile_id, scope: ControllerProfileScope::Global });
            }
        },
        Some(short_name) => {
            if is_machine {
                return Ok(
                    ControllerProfileAssignment {
                        profile_id,
                        scope: ControllerProfileScope::Machine { short_name },
                    },
                );
            }
        },
    }
    Err(
        AppError::new(
            "CONTROLLER_PROFILE_SCOPE_INVALID",
            "Stored controller profile assignment scope is invalid.",
        ).with_detail("profileId", signed_decimal_string(profile_id)),
    )
}

/// The assignment for a scope, from the profiles stored for it (at most two are read):
/// none, the one, or an error when more than one profile claims the scope.
pub fn assignment_for_scope(scope: ControllerProfileScope, profile_ids: Vec<i64>) -> (r: AppResult<
    Option<ControllerProfileAssignment>,
>)
    ensures
        r is Err <==> profile_ids@.len() > 1,
        profile_ids@.len() == 0 ==> r == Ok::<Option<ControllerProfileAssignment>, AppError>(None),
        profile_ids@.len() == 1 ==> r == Ok::<Option<ControllerProfileAssignment>, AppError>(
            Some(ControllerProfileAssignment { profile_id: profile_ids@[0], scope }),
        ),
        r matches Err(e) ==> e.code@ == "CONTROLLER_PROFILE_ASSIGNMENT_AMBIGUOUS"@,
{
    if profile_ids.len() > 1 {
        return Err(
            AppError::new(
                "CONTROLLER_PROFILE_ASSIGNMENT_AMBIGUOUS",
                "More than one controller profile is assigned to the same scope.",
            ),
        );
    }
    if profile_ids.len() == 0 {
        return Ok(None);
    }
    Ok(Some(ControllerProfileAssignment { profile_id: profile_ids[0], scope }))
}

/// A stored profile with its decoded device identity and provenance.
pub fn controller_profile(
    id: i64,
    name: String,
    target_device: ControllerDeviceIdentity,
    mapping_provenance: ControllerMappingProvenance,
    created_at_epoch_ms: i64,
    updated_at_epoch_ms: i64,
) -> (r: ControllerProfile)
    ensures
        r == (ControllerProfile {
            schema_version: CONTROLLER_PROFILE_SCHEMA_VERSION,
            id,
            name,
            target_device,
            mapping_provenance,
            created_at_epoch_ms,
            updated_at_epoch_ms,
        }),
{
    ControllerProfile {
        schema_version: CONTROLLER_PROFILE_SCHEMA_VERSION,
        id,
        name,
        target_device,
        mapping_provenance,
        created_at_epoch_ms,
        updated_at_epoch_ms,
    }
}

} // verus!
