use mame_frontend::controller_profiles::{
    assignment_for_scope, assignment_from_row, bounded_trimmed, checked_epoch_ms, controller_profile, scope_storage_fields,
    validate_draft, validate_profile_id, validate_scope, ControllerDeviceIdentity, ControllerDeviceIdentityKind,
    ControllerMappingProvenance, ControllerMappingProvenanceKind, ControllerProfile, ControllerProfileAssignment,
    ControllerProfileDraft, ControllerProfileScope, CONTROLLER_PROFILE_SCHEMA_VERSION,
};
use mame_frontend::controller_settings::{
    browser_profile_draft, controller_profile_configuration, needs_global_fallback, profile_from_list,
    ControllerProfileApplicationStatus, CreateBrowserControllerProfileRequest,
};

fn project_profile(name: &str, device: &str) -> ControllerProfileDraft {
    ControllerProfileDraft {
        name: name.to_owned(),
        target_device: ControllerDeviceIdentity {
            kind: ControllerDeviceIdentityKind::UserDefined,
            value: device.to_owned(),
            reported_mapping: None,
        },
        mapping_provenance: ControllerMappingProvenance {
            kind: ControllerMappingProvenanceKind::ProjectOwned,
            source_reference: Some(format!("project:{name}")),
        },
    }
}

fn stored(id: i64, draft: ControllerProfileDraft, at: i64) -> ControllerProfile {
    let draft = validate_draft(draft).expect("valid draft");
    controller_profile(id, draft.name, draft.target_device, draft.mapping_provenance, at, at)
}

fn pacman() -> ControllerProfileScope {
    ControllerProfileScope::Machine { short_name: "pacman".to_owned() }
}

#[test]
fn public_delete_rejects_nonpositive_profile_identity_before_io() {
    let error = validate_profile_id(0).expect_err("invalid identity must fail before database access");
    assert_eq!(error.code, "CONTROLLER_PROFILE_ID_INVALID");
    assert_eq!(error.details[0].value, "0");
    assert!(validate_profile_id(1).is_ok());
}

#[test]
fn profile_identity_target_device_and_provenance_round_trip() {
    let draft = ControllerProfileDraft {
        name: "  Arcade pad ".to_owned(),
        target_device: ControllerDeviceIdentity {
            kind: ControllerDeviceIdentityKind::BrowserGamepadId,
            value: "045e-0b13-XInput STANDARD GAMEPAD".to_owned(),
            reported_mapping: Some(" standard ".to_owned()),
        },
        mapping_provenance: ControllerMappingProvenance {
            kind: ControllerMappingProvenanceKind::BrowserStandardGamepad,
            source_reference: None,
        },
    };
    let profile = stored(1, draft, 1234);
    assert_eq!(profile.schema_version, CONTROLLER_PROFILE_SCHEMA_VERSION);
    assert_eq!(profile.name, "Arcade pad");
    assert_eq!(profile.target_device.kind, ControllerDeviceIdentityKind::BrowserGamepadId);
    assert_eq!(profile.target_device.reported_mapping.as_deref(), Some("standard"));
    assert_eq!(profile.mapping_provenance.kind, ControllerMappingProvenanceKind::BrowserStandardGamepad);
    assert_eq!(profile.created_at_epoch_ms, 1234);
    assert_eq!(profile.updated_at_epoch_ms, 1234);
}

#[test]
fn draft_fields_are_bounded_in_order() {
    let empty_name = project_profile("   ", "pad");
    assert_eq!(validate_draft(empty_name).unwrap_err().code, "CONTROLLER_PROFILE_NAME_INVALID");
    let long_device = project_profile("Pad", &"d".repeat(1025));
    assert_eq!(validate_draft(long_device).unwrap_err().code, "CONTROLLER_DEVICE_IDENTITY_INVALID");
    let mut blank_label = project_profile("Pad", "pad");
    blank_label.target_device.reported_mapping = Some("  ".to_owned());
    assert_eq!(validate_draft(blank_label).unwrap_err().code, "CONTROLLER_DEVICE_MAPPING_LABEL_INVALID");
    let mut long_reference = project_profile("Pad", "pad");
    long_reference.mapping_provenance.source_reference = Some("r".repeat(2049));
    assert_eq!(validate_draft(long_reference).unwrap_err().code, "CONTROLLER_MAPPING_PROVENANCE_INVALID");
    let error = bounded_trimmed("CODE", "Label", "é".repeat(61), 120).unwrap_err();
    assert_eq!(error.message, "Label is empty or too long.");
    assert_eq!(error.details[0].value, "120");
    assert_eq!(error.details[1].value, "122");
    assert_eq!(bounded_trimmed("CODE", "Label", "é".repeat(60), 120).unwrap(), "é".repeat(60));
    assert_eq!(checked_epoch_ms(u64::MAX).unwrap_err().code, "CONTROLLER_PROFILE_TIMESTAMP_INVALID");
}

#[test]
fn mame_controller_and_osd_mapping_provenance_do_not_collapse() {
    let mut ctrlr = project_profile("MAME ctrlr", "pad-a");
    ctrlr.mapping_provenance = ControllerMappingProvenance {
        kind: ControllerMappingProvenanceKind::MameControllerConfig,
        source_reference: Some("xbox360".to_owned()),
    };
    let ctrlr = stored(1, ctrlr, 1);
    let mut osd = project_profile("OSD map", "pad-b");
    osd.mapping_provenance = ControllerMappingProvenance {
        kind: ControllerMappingProvenanceKind::MameOsdControllerMap,
        source_reference: Some("/etc/mame/controller.map".to_owned()),
    };
    let osd = stored(2, osd, 2);
    assert_ne!(ctrlr.mapping_provenance.kind, osd.mapping_provenance.kind);
    assert_eq!(ctrlr.mapping_provenance.source_reference.as_deref(), Some("xbox360"));
    assert_eq!(osd.mapping_provenance.source_reference.as_deref(), Some("/etc/mame/controller.map"));
}

#[test]
fn global_and_machine_associations_are_distinct_user_state() {
    let global = scope_storage_fields(&ControllerProfileScope::Global);
    assert_eq!((global.scope_kind, global.scope_key.as_str(), global.machine_short_name.as_deref()), ("global", "*", None));
    let machine = scope_storage_fields(&pacman());
    assert_eq!(
        (machine.scope_kind, machine.scope_key.as_str(), machine.machine_short_name.as_deref()),
        ("machine", "pacman", Some("pacman"))
    );
    let read_global = assignment_from_row(4, "global", None).unwrap();
    assert_eq!(read_global, ControllerProfileAssignment { profile_id: 4, scope: ControllerProfileScope::Global });
    let read_machine = assignment_from_row(4, "machine", Some("pacman".to_owned())).unwrap();
    assert_eq!(read_machine.scope, pacman());
    assert_eq!(assignment_from_row(4, "machine", None).unwrap_err().code, "CONTROLLER_PROFILE_SCOPE_INVALID");
    assert_eq!(assignment_from_row(4, "global", Some("x".to_owned())).unwrap_err().code, "CONTROLLER_PROFILE_SCOPE_INVALID");
}

#[test]
fn scopes_are_validated_and_trimmed() {
    assert_eq!(validate_scope(ControllerProfileScope::Machine { short_name: " pacman ".to_owned() }).unwrap(), pacman());
    assert_eq!(
        validate_scope(ControllerProfileScope::Machine { short_name: "Pac Man".to_owned() }).unwrap_err().code,
        "MAME_IDENTIFIER_INVALID"
    );
    assert_eq!(validate_scope(ControllerProfileScope::Global).unwrap(), ControllerProfileScope::Global);
    assert_eq!(assignment_for_scope(pacman(), vec![3, 4]).unwrap_err().code, "CONTROLLER_PROFILE_ASSIGNMENT_AMBIGUOUS");
    assert_eq!(assignment_for_scope(pacman(), Vec::new()).unwrap(), None);
}

#[test]
fn machine_selection_overrides_global_but_is_not_claimed_active() {
    let global = stored(1, project_profile("Global", "pad-a"), 1);
    let machine = stored(2, project_profile("Machine", "pad-b"), 2);
    let configuration = controller_profile_configuration(
        pacman(),
        vec![global.clone(), machine.clone()],
        Some(ControllerProfileAssignment { profile_id: machine.id, scope: pacman() }),
        Some(ControllerProfileAssignment { profile_id: global.id, scope: ControllerProfileScope::Global }),
    )
    .expect("configuration");
    assert_eq!(configuration.assigned_profile.as_ref().map(|p| p.id), Some(machine.id));
    assert_eq!(configuration.effective_profile.as_ref().map(|p| p.id), Some(machine.id));
    assert_eq!(configuration.effective_scope, Some(pacman()));
    assert_eq!(configuration.application_status, ControllerProfileApplicationStatus::AssignedNotApplied);
    assert_eq!(configuration.active_profile, None);
}

#[test]
fn machine_without_override_inherits_global_selection() {
    let global = stored(1, project_profile("Global", "pad-a"), 1);
    let scope = ControllerProfileScope::Machine { short_name: "galaga".to_owned() };
    assert!(needs_global_fallback(&scope, &None));
    let configuration = controller_profile_configuration(
        scope,
        vec![global.clone()],
        None,
        Some(ControllerProfileAssignment { profile_id: global.id, scope: ControllerProfileScope::Global }),
    )
    .expect("configuration");
    assert_eq!(configuration.assigned_profile, None);
    assert_eq!(configuration.effective_profile.as_ref().map(|p| p.id), Some(global.id));
    assert_eq!(configuration.effective_scope, Some(ControllerProfileScope::Global));
    assert_eq!(configuration.active_profile, None);
}

#[test]
fn selecting_another_profile_replaces_the_exact_scope_assignment() {
    let first = stored(1, project_profile("First", "pad-a"), 1);
    let second = stored(2, project_profile("Second", "pad-b"), 2);
    let assigned = assignment_for_scope(ControllerProfileScope::Global, vec![second.id]).expect("one assignment");
    let configuration =
        controller_profile_configuration(ControllerProfileScope::Global, vec![first, second.clone()], assigned, None)
            .expect("configuration");
    assert_eq!(configuration.assigned_profile.as_ref().map(|p| p.id), Some(second.id));
}

#[test]
fn unassigned_and_dangling_selections() {
    let configuration =
        controller_profile_configuration(ControllerProfileScope::Global, Vec::new(), None, None).expect("configuration");
    assert_eq!(configuration.application_status, ControllerProfileApplicationStatus::Unassigned);
    assert_eq!(configuration.status_message, "No controller profile is selected for this scope.");
    let dangling = controller_profile_configuration(
        ControllerProfileScope::Global,
        Vec::new(),
        Some(ControllerProfileAssignment { profile_id: 9, scope: ControllerProfileScope::Global }),
        None,
    )
    .unwrap_err();
    assert_eq!(dangling.code, "CONTROLLER_PROFILE_ASSIGNMENT_DANGLING");
    assert_eq!(profile_from_list(&[], 9).unwrap_err().details[0].value, "9");
}

#[test]
fn browser_capture_rejects_nonstandard_mapping() {
    let error = browser_profile_draft(
        CreateBrowserControllerProfileRequest {
            name: "Unsupported pad".to_owned(),
            gamepad_id: "vendor pad".to_owned(),
            mapping: "".to_owned(),
        },
        &[],
    )
    .expect_err("nonstandard mapping must be rejected");
    assert_eq!(error.code, "CONTROLLER_GAMEPAD_MAPPING_UNSUPPORTED");
}

#[test]
fn browser_capture_names_are_unique_ignoring_case() {
    let existing = stored(1, project_profile("Arcade Pad", "pad-a"), 1);
    let request = |name: &str| CreateBrowserControllerProfileRequest {
        name: name.to_owned(),
        gamepad_id: "045e-0b13".to_owned(),
        mapping: "standard".to_owned(),
    };
    let error = browser_profile_draft(request("  arcade pad "), &[existing.clone()]).unwrap_err();
    assert_eq!(error.code, "CONTROLLER_PROFILE_NAME_CONFLICT");
    let draft = browser_profile_draft(request("Second pad"), &[existing]).unwrap();
    assert_eq!(draft.target_device.kind, ControllerDeviceIdentityKind::BrowserGamepadId);
    assert_eq!(draft.target_device.reported_mapping.as_deref(), Some("standard"));
    assert_eq!(draft.mapping_provenance.kind, ControllerMappingProvenanceKind::BrowserStandardGamepad);
}
