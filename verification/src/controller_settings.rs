//! Which controller profile applies to a scope. An assigned profile is configuration
//! intent, not evidence that MAME uses the mapping: until launch integration applies
//! profiles natively, no profile is ever reported as active.

use vstd::prelude::*;

use crate::controller_profiles::{
    ControllerDeviceIdentity, ControllerDeviceIdentityKind, ControllerMappingProvenance,
    ControllerMappingProvenanceKind, ControllerProfile, ControllerProfileAssignment, ControllerProfileDraft,
    ControllerProfileScope,
};
use crate::errors::{AppError, AppResult};
use crate::software_list::{eq_ignore_ascii_case, eq_ignore_ascii_case_exec};
use crate::text::{chars_of, signed_decimal_string, str_equal, string_from, trim, trim_chars};

verus! {

broadcast use vstd::string::group_string_axioms;

pub const CONTROLLER_CONFIGURATION_SCHEMA_VERSION: u32 = 1;

#[derive(Debug, Clone, Copy, PartialEq, Eq)]
pub enum ControllerProfileApplicationStatus {
    Unassigned,
    AssignedNotApplied,
}

/// The profiles and the selection that applies to one scope.
#[derive(Debug, Clone, PartialEq, Eq)]
pub struct ControllerProfileConfiguration {
    pub schema_version: u32,
    pub profiles: Vec<ControllerProfile>,
    /// The profile assigned exactly at the requested scope, if any.
    pub assigned_profile: Option<ControllerProfile>,
    /// A machine scope falls back to the global assignment; the global scope has no
    /// fallback.
    pub effective_profile: Option<ControllerProfile>,
    pub effective_scope: Option<ControllerProfileScope>,
    /// What MAME is known to use; never set until a runtime integration can prove it.
    pub active_profile: Option<ControllerProfile>,
    pub application_status: ControllerProfileApplicationStatus,
    pub status_message: String,
}

#[derive(Debug, Clone, PartialEq, Eq)]
pub struct ControllerProfileConfigurationRequest {
    pub scope: ControllerProfileScope,
}

#[derive(Debug, Clone, PartialEq, Eq)]
pub struct SetControllerProfileSelectionRequest {
    pub scope: ControllerProfileScope,
    pub profile_id: Option<i64>,
}

#[derive(Debug, Clone, PartialEq, Eq)]
pub struct CreateBrowserControllerProfileRequest {
    pub name: String,
    pub gamepad_id: String,
    pub mapping: String,
}

fn copy_text(s: &Option<String>) -> (r: Option<String>)
    ensures
        r == *s,
{
    match s {
        Some(v) => Some(v.clone()),
        None => None,
    }
}

/// A field-by-field copy of a profile.
pub fn copy_profile(p: &ControllerProfile) -> (r: ControllerProfile)
    ensures
        r == *p,
{
    ControllerProfile {
        schema_version: p.schema_version,
        id: p.id,
        name: p.name.clone(),
        target_device: ControllerDeviceIdentity {
            kind: p.target_device.kind,
            value: p.target_device.value.clone(),
            reported_mapping: copy_text(&p.target_device.reported_mapping),
        },
        mapping_provenance: ControllerMappingProvenance {
            kind: p.mapping_provenance.kind,
            source_reference: copy_text(&p.mapping_provenance.source_reference),
        },
        created_at_epoch_ms: p.created_at_epoch_ms,
        updated_at_epoch_ms: p.updated_at_epoch_ms,
    }
}

/// A field-by-field copy of a scope.
pub fn copy_scope(s: &ControllerProfileScope) -> (r: ControllerProfileScope)
    ensures
        r == *s,
{
    match s {
        ControllerProfileScope::Global => ControllerProfileScope::Global,
        ControllerProfileScope::Machine { short_name } => ControllerProfileScope::Machine {
            short_name: short_name.clone(),
        },
    }
}

/// The first listed profile with the given id.
pub open spec fn find_profile(ps: Seq<ControllerProfile>, id: i64) -> Option<ControllerProfile>
    decreases ps.len(),
{
    if ps.len() == 0 {
        None
    } else if ps[0].id == id {
        Some(ps[0])
    } else {
        find_profile(ps.drop_first(), id)
    }
}

/// The listed profile an assignment refers to. All profiles come from one catalog
/// snapshot, so a missing one is an integrity error, never a guess.
pub fn profile_from_list(profiles: &[ControllerProfile], profile_id: i64) -> (r: AppResult<ControllerProfile>)
    ensures
        r is Ok <==> find_profile(profiles@, profile_id) is Some,
        r matches Ok(p) ==> find_profile(profiles@, profile_id) == Some(p),
        r matches Err(e) ==> e.code@ == "CONTROLLER_PROFILE_ASSIGNMENT_DANGLING"@,
{
    let mut i: usize = 0;
    proof {
        assert(profiles@.skip(0) == profiles@);
    }
    while i < profiles.len()
        invariant
            i <= profiles@.len(),
            find_profile(profiles@, profile_id) == find_profile(profiles@.skip(i as int), profile_id),
        decreases profiles.len() - i,
    {
        proof {
            let rest = profiles@.skip(i as int);
            assert(rest[0] == profiles@[i as int]);
            assert(rest.drop_first() == profiles@.skip(i + 1));
        }
        if profiles[i].id == profile_id {
            return Ok(copy_profile(&profiles[i]));
        }
        i += 1;
    }
    proof {
        assert(profiles@.skip(i as int).len() == 0);
    }
    Err(
        AppError::new(
            "CONTROLLER_PROFILE_ASSIGNMENT_DANGLING",
            "A controller profile assignment refers to a missing profile.",
        ).with_detail("profileId", signed_decimal_string(profile_id)),
    )
}

/// A machine scope with no exact assignment falls back to the global one; only then
/// is the global assignment needed.
pub open spec fn falls_back_to_global(scope: ControllerProfileScope, assigned: Option<ControllerProfileAssignment>) -> bool {
    assigned is None && scope is Machine
}

pub fn needs_global_fallback(scope: &ControllerProfileScope, assigned: &Option<ControllerProfileAssignment>) -> (r: bool)
    ensures
        r == falls_back_to_global(*scope, *assigned),
{
    assigned.is_none() && match scope {
        ControllerProfileScope::Machine { .. } => true,
        ControllerProfileScope::Global => false,
    }
}

/// The assignment that takes effect: the exact one, else the global one for a machine
/// scope, else none.
pub open spec fn effective_assignment(
    scope: ControllerProfileScope,
    assigned: Option<ControllerProfileAssignment>,
    global: Option<ControllerProfileAssignment>,
) -> Option<ControllerProfileAssignment> {
    if assigned is Some {
        assigned
    } else if scope is Machine {
        global
    } else {
        None
    }
}

/// The exact assignment for a scope always takes effect; a machine scope without one
/// inherits the global selection; the global scope has no fallback.
pub proof fn law_scope_precedence(
    scope: ControllerProfileScope,
    assigned: Option<ControllerProfileAssignment>,
    global: Option<ControllerProfileAssignment>,
)
    ensures
        assigned is Some ==> effective_assignment(scope, assigned, global) == assigned,
        assigned is None && scope is Machine ==> effective_assignment(scope, assigned, global) == global,
        assigned is None && scope is Global ==> effective_assignment(scope, assigned, global) is None,
{
}

/// The profile an optional assignment resolves to, when every lookup succeeds.
pub open spec fn resolved(ps: Seq<ControllerProfile>, a: Option<ControllerProfileAssignment>) -> Option<ControllerProfile> {
    match a {
        Some(x) => find_profile(ps, x.profile_id),
        None => None,
    }
}

pub open spec fn resolvable(ps: Seq<ControllerProfile>, a: Option<ControllerProfileAssignment>) -> bool {
    a matches Some(x) ==> find_profile(ps, x.profile_id) is Some
}

pub open spec fn unassigned_message() -> Seq<char> {
    "No controller profile is selected for this scope."@
}

pub open spec fn assigned_not_applied_message() -> Seq<char> {
    "A controller profile is selected, but this build does not yet apply saved profiles to MAME gameplay input. It is not reported as active."@
}

fn resolve_assignment(profiles: &[ControllerProfile], a: &Option<ControllerProfileAssignment>) -> (r: AppResult<
    Option<ControllerProfile>,
>)
    ensures
        r is Ok <==> resolvable(profiles@, *a),
        r matches Ok(p) ==> p == resolved(profiles@, *a),
        r matches Err(e) ==> e.code@ == "CONTROLLER_PROFILE_ASSIGNMENT_DANGLING"@,
{
    match a {
        Some(x) => {
            let p = profile_from_list(profiles, x.profile_id)?;
            Ok(Some(p))
        },
        None => Ok(None),
    }
}

/// The configuration for a scope, from the listed profiles, the exact assignment for
/// the scope and the global assignment (read only when the scope falls back to it).
/// The exact assignment wins; a machine scope without one inherits the global
/// selection; nothing is ever reported as active.
pub fn controller_profile_configuration(
    scope: ControllerProfileScope,
    profiles: Vec<ControllerProfile>,
    assigned: Option<ControllerProfileAssignment>,
    global: Option<ControllerProfileAssignment>,
) -> (r: AppResult<ControllerProfileConfiguration>)
    ensures
        r is Ok <==> resolvable(profiles@, assigned) && resolvable(
            profiles@,
            effective_assignment(scope, assigned, global),
        ),
        r matches Ok(c) ==> {
            &&& c.schema_version == CONTROLLER_CONFIGURATION_SCHEMA_VERSION
            &&& c.profiles@ == profiles@
            &&& c.assigned_profile == resolved(profiles@, assigned)
            &&& c.effective_profile == resolved(profiles@, effective_assignment(scope, assigned, global))
            &&& c.effective_scope == (match effective_assignment(scope, assigned, global) {
                Some(a) => Some(a.scope),
                None => None::<ControllerProfileScope>,
            })
            &&& c.active_profile is None
            &&& (c.application_status == ControllerProfileApplicationStatus::AssignedNotApplied
                <==> c.effective_profile is Some)
            &&& c.status_message@ == (if c.effective_profile is Some {
                assigned_not_applied_message()
            } else {
                unassigned_message()
            })
        },
        r matches Err(e) ==> e.code@ == "CONTROLLER_PROFILE_ASSIGNMENT_DANGLING"@,
{
    let assigned_profile = resolve_assignment(profiles.as_slice(), &assigned)?;
    let is_machine = match scope {
        ControllerProfileScope::Machine { .. } => true,
        ControllerProfileScope::Global => false,
    };
    let effective = if assigned.is_some() {
        assigned
    } else if is_machine {
        global
    } else {
        None
    };
    let effective_scope = match &effective {
        Some(a) => Some(copy_scope(&a.scope)),
        None => None,
    };
    let effective_profile = resolve_assignment(profiles.as_slice(), &effective)?;
    let application_status = if effective_profile.is_some() {
        ControllerProfileApplicationStatus::AssignedNotApplied
    } else {
        ControllerProfileApplicationStatus::Unassigned
    };
    let status_message = match application_status {
        ControllerProfileApplicationStatus::Unassigned => "No controller profile is selected for this scope.".to_string(),
        ControllerProfileApplicationStatus::AssignedNotApplied =>
            "A controller profile is selected, but this build does not yet apply saved profiles to MAME gameplay input. It is not reported as active.".to_string(),
    };
    Ok(
        ControllerProfileConfiguration {
            schema_version: CONTROLLER_CONFIGURATION_SCHEMA_VERSION,
            profiles,
            assigned_profile,
            effective_profile,
            effective_scope,
            active_profile: None,
            application_status,
            status_message,
        },
    )
}

/// Some listed profile already has this name, ignoring ASCII case.
pub open spec fn name_taken(ps: Seq<ControllerProfile>, name: Seq<char>) -> bool {
    exists|i: int| 0 <= i < ps.len() && eq_ignore_ascii_case(#[trigger] ps[i].name@, name)
}

/// The draft for a browser gamepad capture: only the W3C `standard` mapping is
/// supported, and the trimmed name must not match an existing profile's name ignoring
/// ASCII case.
pub fn browser_profile_draft(
    request: CreateBrowserControllerProfileRequest,
    profiles: &[ControllerProfile],
) -> (r: AppResult<ControllerProfileDraft>)
    ensures
        r is Ok <==> request.mapping@ == "standard"@ && !name_taken(profiles@, trim(request.name@)),
        request.mapping@ != "standard"@ ==> (r matches Err(e) && e.code@
            == "CONTROLLER_GAMEPAD_MAPPING_UNSUPPORTED"@),
        request.mapping@ == "standard"@ && name_taken(profiles@, trim(request.name@)) ==> (r matches Err(e)
            && e.code@ == "CONTROLLER_PROFILE_NAME_CONFLICT"@),
        r matches Ok(d) ==> {
            &&& d.name == request.name
            &&& d.target_device.kind == ControllerDeviceIdentityKind::BrowserGamepadId
            &&& d.target_device.value == request.gamepad_id
            &&& d.target_device.reported_mapping == Some(request.mapping)
            &&& d.mapping_provenance.kind == ControllerMappingProvenanceKind::BrowserStandardGamepad
            &&& d.mapping_provenance.source_reference is None
        },
{
    if !str_equal(request.mapping.as_str(), "standard") {
        return Err(
            AppError::new(
                "CONTROLLER_GAMEPAD_MAPPING_UNSUPPORTED",
                "Only browser gamepads reporting the W3C standard mapping can be captured as supported profiles.",
            ).with_detail("mapping", request.mapping),
        );
    }
    let chars = chars_of(request.name.as_str());
    let trimmed = trim_chars(chars.as_slice());
    let requested_name = string_from(trimmed.as_slice());
    let mut i: usize = 0;
    while i < profiles.len()
        invariant
            i <= profiles@.len(),
            requested_name@ == trim(request.name@),
            request.mapping@ == "standard"@,
            forall|j: int| 0 <= j < i ==> !eq_ignore_ascii_case(#[trigger] profiles@[j].name@, requested_name@),
        decreases profiles.len() - i,
    {
        if eq_ignore_ascii_case_exec(profiles[i].name.as_str(), requested_name.as_str()) {
            return Err(
                AppError::new(
                    "CONTROLLER_PROFILE_NAME_CONFLICT",
                    "A controller profile with that name already exists.",
                ).with_detail("name", requested_name),
            );
        }
        i += 1;
    }
    Ok(
        ControllerProfileDraft {
            name: request.name,
            target_device: ControllerDeviceIdentity {
                kind: ControllerDeviceIdentityKind::BrowserGamepadId,
                value: request.gamepad_id,
                reported_mapping: Some(request.mapping),
            },
            mapping_provenance: ControllerMappingProvenance {
                kind: ControllerMappingProvenanceKind::BrowserStandardGamepad,
                source_reference: None,
            },
        },
    )
}

} // verus!
