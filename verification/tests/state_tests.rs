use mame_frontend::app_info::{
    app_ready_event, build_app_info, build_app_info_with_mame, mame_version_report, unavailable_mame, AppInfoRequest,
    BackendVersions, BuildIdentity, MameVersionReport, APP_PROTOCOL_VERSION,
};
use mame_frontend::collections::{
    collection_list_page, collection_member_page, collection_membership_state, ensure_collection_name_available,
    require_active_generation, require_active_machine, require_collection, stored_u64, to_i64,
    validate_collection_id, validate_collection_name, validate_machine_short_name, validate_page_size,
    CollectionSummary, StoredCollectionMember, StoredCollectionSummary,
};
use mame_frontend::config::SETTINGS_SCHEMA_VERSION;
use mame_frontend::errors::AppError;
use mame_frontend::executable::{MameExecutableIdentity, MameExecutableSourceKind, MameExecutableTrust};
use mame_frontend::general_settings::{general_settings, normalized_mame_executable, with_launch_preferences, with_mame_executable};
use mame_frontend::config::SettingsV2;
use mame_frontend::mame_ui_state::{check_state_schema_version, validate_state, MameUiPanelMode, MameUiStateV1};
use mame_frontend::mame_ui::MameUiMachineFilterRequest;
use mame_frontend::artwork::ArtworkKind;
use mame_frontend::preferences::{AudioPreference, LaunchPreferencesV1, RendererPreference, WindowPreference};

fn versions() -> BackendVersions {
    BackendVersions {
        app_version: "0.1.0".to_owned(),
        build: BuildIdentity { git_sha: None, profile: "debug".to_owned(), target: "x86_64-linux".to_owned() },
        database_schema_version: 7,
        runtime_protocol_version: 3,
    }
}

fn identity(path: &str, version: &str, build: &str) -> MameExecutableIdentity {
    MameExecutableIdentity {
        source: MameExecutableSourceKind::External,
        trust: MameExecutableTrust::UserConfigured,
        path: path.to_owned(),
        version: version.to_owned(),
        build: Some(build.to_owned()),
        raw_version_line: format!("{version} {build}"),
    }
}

#[test]
fn accepts_current_protocol_and_reports_version_contract() {
    let result = build_app_info(AppInfoRequest { protocol_version: APP_PROTOCOL_VERSION }, versions())
        .expect("current protocol must be accepted");

    assert_eq!(result.protocol_version, APP_PROTOCOL_VERSION);
    assert_eq!(result.backend, "rust-tauri");
    assert_eq!(result.database_schema_version, 7);
    assert_eq!(result.settings_schema_version, SETTINGS_SCHEMA_VERSION);
    assert_eq!(result.runtime_protocol_version, 3);
    assert_eq!(result.mame, MameVersionReport::NotConfigured);
    assert!(!result.build.profile.is_empty());
    assert!(!result.build.target.is_empty());
}

#[test]
fn rejects_unknown_protocol() {
    let error = build_app_info(AppInfoRequest { protocol_version: APP_PROTOCOL_VERSION + 1 }, versions())
        .expect_err("unknown protocol must be rejected");

    assert_eq!(error.code, "UNSUPPORTED_PROTOCOL_VERSION");
}

#[test]
fn unsupported_protocol_error_names_both_versions() {
    let error = build_app_info_with_mame(AppInfoRequest { protocol_version: 9 }, MameVersionReport::NotConfigured, versions())
        .expect_err("version 9 is not spoken");
    assert_eq!(error.message, "Frontend protocol version 9 is not supported by backend version 1.");
    assert_eq!(error.details[0].key, "requestedVersion");
    assert_eq!(error.details[0].value, "9");
    assert_eq!(error.details[1].value, "1");
}

#[test]
fn mame_report_follows_settings_and_probe() {
    let settings_error = AppError::new("CONFIG_READ_FAILED", "unreadable");
    assert_eq!(
        mame_version_report(Err(settings_error), None),
        MameVersionReport::Unavailable {
            path: None,
            error_code: "CONFIG_READ_FAILED".to_owned(),
            error_message: "unreadable".to_owned(),
        }
    );
    assert_eq!(mame_version_report(Ok(None), None), MameVersionReport::NotConfigured);
    let id = identity("/opt/mame/mame", "0.288", "x");
    assert_eq!(
        mame_version_report(Ok(Some("/opt/mame/mame".to_owned())), Some(Ok(id.clone()))),
        MameVersionReport::Available { identity: id }
    );
    let probe_error = AppError::new("MAME_EXECUTABLE_NOT_FOUND", "gone");
    assert_eq!(
        mame_version_report(Ok(Some("/gone".to_owned())), Some(Err(probe_error.clone()))),
        unavailable_mame(Some("/gone".to_owned()), probe_error)
    );
    let ready = app_ready_event("0.1.0".to_owned());
    assert_eq!(ready.schema_version, 1);
    assert_eq!(ready.app_version, "0.1.0");
}

#[test]
fn collection_name_is_trimmed_and_bounded() {
    assert_eq!(validate_collection_name("  Arcade Classics  ".to_owned()).expect("valid name"), "Arcade Classics");
    assert_eq!(
        validate_collection_name("\n".to_owned()).expect_err("empty name must fail").code,
        "CATALOG_COLLECTION_NAME_INVALID"
    );
}

#[test]
fn collection_name_length_and_control_characters() {
    assert!(validate_collection_name("a".repeat(80)).is_ok());
    assert_eq!(validate_collection_name("a".repeat(81)).unwrap_err().code, "CATALOG_COLLECTION_NAME_INVALID");
    assert_eq!(validate_collection_name("bad\u{7}name".to_owned()).unwrap_err().code, "CATALOG_COLLECTION_NAME_INVALID");
    assert_eq!(validate_collection_name("bad\u{85}name".to_owned()).unwrap_err().code, "CATALOG_COLLECTION_NAME_INVALID");
    assert_eq!(validate_collection_name(" Éléments ".to_owned()).unwrap(), "Éléments");
}

#[test]
fn collection_id_must_be_positive() {
    assert_eq!(validate_collection_id(0).expect_err("zero id must fail").code, "CATALOG_COLLECTION_ID_INVALID");
    assert_eq!(validate_collection_id(12).unwrap(), 12);
}

#[test]
fn collection_machine_identifier_uses_launch_policy() {
    assert_eq!(validate_machine_short_name("galaxian".to_owned()).expect("valid machine"), "galaxian");
    assert_eq!(
        validate_machine_short_name("../mame".to_owned()).expect_err("invalid machine must fail").code,
        "CATALOG_MACHINE_IDENTIFIER_INVALID"
    );
}

#[test]
fn collection_pages_are_bounded() {
    assert_eq!(validate_page_size(0).expect_err("zero page size must fail").code, "CATALOG_COLLECTION_LIMIT_INVALID");
    assert_eq!(validate_page_size(201).unwrap_err().code, "CATALOG_COLLECTION_LIMIT_INVALID");
    assert!(validate_page_size(200).is_ok());
}

#[test]
fn collection_names_are_case_insensitively_unique() {
    let error = ensure_collection_name_available("arcade", Some(1), None).expect_err("duplicate name must fail");
    assert_eq!(error.code, "CATALOG_COLLECTION_NAME_EXISTS");
    assert!(ensure_collection_name_available("Arcade", Some(1), Some(1)).is_ok());
    assert!(ensure_collection_name_available("Arcade", None, None).is_ok());
}

#[test]
fn adding_member_requires_active_machine() {
    assert_eq!(require_active_machine("missing", 0).expect_err("missing machine must fail").code, "CATALOG_MACHINE_NOT_FOUND");
    assert!(require_active_machine("galaxian", 1).is_ok());
    assert_eq!(require_active_generation(None).unwrap_err().code, "MAME_METADATA_NOT_READY");
    assert_eq!(require_active_generation(Some(4)).unwrap(), 4);
}

#[test]
fn collection_rows_become_pages() {
    let row = StoredCollectionSummary {
        id: 3,
        name: "Arcade".to_owned(),
        created_at_epoch_ms: 500,
        updated_at_epoch_ms: 600,
        member_count: 1,
    };
    let page = collection_list_page(1, 0, 20, vec![row.clone()]).expect("valid rows");
    assert_eq!(page.total, 1);
    assert_eq!(page.items[0].name, "Arcade");
    assert_eq!(page.items[0].updated_at_epoch_ms, 600);
    let negative = StoredCollectionSummary { member_count: -1, ..row };
    assert_eq!(collection_list_page(1, 0, 20, vec![negative]).unwrap_err().code, "CATALOG_COLLECTION_VALUE_INVALID");
    assert_eq!(collection_list_page(-1, 0, 20, Vec::new()).unwrap_err().code, "CATALOG_COLLECTION_VALUE_INVALID");

    let summary = CollectionSummary {
        id: 3,
        name: "Arcade".to_owned(),
        created_at_epoch_ms: 500,
        updated_at_epoch_ms: 600,
        member_count: 2,
    };
    let present = StoredCollectionMember {
        short_name: "galaxian".to_owned(),
        added_at_epoch_ms: 700,
        machine_short_name: Some("galaxian".to_owned()),
        description: None,
        year: Some("1979".to_owned()),
        manufacturer: Some("Namco".to_owned()),
        source_file: None,
        clone_of: None,
        runnable: Some(1),
        is_device: None,
        driver_status: Some("good".to_owned()),
        display_count: 1,
        software_list_count: 0,
    };
    let stale = StoredCollectionMember {
        short_name: "oldgame".to_owned(),
        machine_short_name: None,
        display_count: -5,
        ..present.clone()
    };
    let members = collection_member_page(summary, 2, 0, 20, vec![present, stale]).expect("members");
    let machine = members.items[0].machine.as_ref().expect("present machine");
    assert_eq!(machine.description, "galaxian");
    assert!(machine.runnable);
    assert!(!machine.is_device);
    assert_eq!(members.items[1].short_name, "oldgame");
    assert!(members.items[1].machine.is_none());
}

#[test]
fn membership_and_collection_checks() {
    let state = collection_membership_state(3, "galaxian", Some(700)).unwrap();
    assert!(state.member);
    assert_eq!(state.added_at_epoch_ms, Some(700));
    let removed = collection_membership_state(3, "galaxian", None).unwrap();
    assert!(!removed.member);
    assert_eq!(collection_membership_state(3, "galaxian", Some(-1)).unwrap_err().code, "CATALOG_COLLECTION_VALUE_INVALID");
    let missing = require_collection(9, 0).unwrap_err();
    assert_eq!(missing.code, "CATALOG_COLLECTION_NOT_FOUND");
    assert_eq!(missing.details[0].value, "9");
    assert_eq!(stored_u64(-3, "total").unwrap_err().details[1].value, "-3");
    assert_eq!(to_i64(u64::MAX, "timestamp").unwrap_err().code, "CATALOG_COLLECTION_VALUE_INVALID");
    assert_eq!(to_i64(5, "timestamp").unwrap(), 5);
}

#[test]
fn general_settings_load_defaults_when_file_is_absent() {
    let settings = general_settings(SettingsV2::default());
    assert_eq!(settings.schema_version, 1);
    assert_eq!(settings.mame_executable, None);
    assert_eq!(settings.launch_preferences, LaunchPreferencesV1::default());
}

#[test]
fn launch_preferences_round_trip_through_general_settings() {
    let preferences = LaunchPreferencesV1 {
        window_mode: WindowPreference::Windowed,
        renderer: RendererPreference::OpenGl,
        audio: AudioPreference::Auto,
    };
    let stored = with_launch_preferences(with_mame_executable(SettingsV2::default(), Some("/opt/mame/mame".to_owned())), preferences);
    let saved = general_settings(stored);
    assert_eq!(saved.launch_preferences, preferences);
    assert_eq!(saved.mame_executable.as_deref(), Some("/opt/mame/mame"));
    assert_eq!(normalized_mame_executable(Some(String::new())), None);
    assert_eq!(normalized_mame_executable(Some("/x".to_owned())), Some("/x".to_owned()));
}

#[test]
fn missing_state_uses_safe_defaults() {
    let state = MameUiStateV1::default();
    assert_eq!(state.filter, MameUiMachineFilterRequest::All);
    assert_eq!(state.right_panel_mode, MameUiPanelMode::Images);
    assert_eq!(state.artwork_kind, ArtworkKind::Screenshot);
    assert_eq!(state.last_machine, None);
}

#[test]
fn ui_state_is_validated_before_it_is_stored() {
    let good = MameUiStateV1 {
        last_machine: Some("pacman".to_owned()),
        filter: MameUiMachineFilterRequest::Manufacturer,
        filter_value: Some("Namco".to_owned()),
        right_panel_mode: MameUiPanelMode::Info,
        artwork_kind: ArtworkKind::Marquee,
        ..MameUiStateV1::default()
    };
    assert!(validate_state(&good).is_ok());
    let future = MameUiStateV1 { schema_version: 2, ..MameUiStateV1::default() };
    assert_eq!(validate_state(&future).unwrap_err().code, "MAME_UI_STATE_SCHEMA_UNSUPPORTED");
    let bad_machine = MameUiStateV1 { last_machine: Some("../x".to_owned()), ..MameUiStateV1::default() };
    assert_eq!(validate_state(&bad_machine).unwrap_err().code, "MAME_IDENTIFIER_INVALID");
    let long_filter = MameUiStateV1 { filter_value: Some("x".repeat(257)), ..MameUiStateV1::default() };
    assert_eq!(validate_state(&long_filter).unwrap_err().code, "MAME_UI_STATE_FILTER_VALUE_TOO_LONG");
    assert_eq!(check_state_schema_version(None).unwrap_err().code, "MAME_UI_STATE_SCHEMA_VERSION_MISSING");
    let unsupported = check_state_schema_version(Some(3)).unwrap_err();
    assert_eq!(unsupported.message, "MAME UI state schema version 3 is not supported.");
    assert!(check_state_schema_version(Some(1)).is_ok());
}
