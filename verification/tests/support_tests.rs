use mame_frontend::artwork::{
    artwork_asset_payload, artwork_candidate, artwork_descriptor, asset_id_for, check_artwork_discovery,
    check_artwork_schema_version, check_asset_file, check_asset_within_root, is_path_under,
    encode_base64, machine_artwork, parse_asset_id, validate_artwork_roots, ArtworkKind,
};
use mame_frontend::bulk_audit::{
    finish_run, plan_next_page, record_result, truncate_status_error, validate_parallelism,
    worker_count, BulkAuditRunState, BulkAuditStatus, BulkAuditSupervisor, PageStep,
    DEFAULT_PARALLELISM, MAX_PARALLELISM, MAX_STATUS_ERROR_CHARS,
};
use mame_frontend::config::PlatformPath;
use mame_frontend::diagnostics::{
    bounded_text, catalog_schema_diagnostics, diagnostics_bundle_name, error_category,
    CatalogSchemaObservation,
};
use mame_frontend::errors::AppError;
use mame_frontend::event_names::{
    external_session_lifecycle_event, APP_READY_EVENT, SESSION_CRASHED_EVENT, SESSION_EXITED_EVENT,
    SESSION_FAILED_EVENT, SESSION_PAUSED_EVENT, SESSION_RESUMED_EVENT, SESSION_STARTED_EVENT,
    SESSION_STATE_LOADED_EVENT, SESSION_STATE_LOAD_FAILED_EVENT, SESSION_STATE_SAVED_EVENT,
    SESSION_STATE_SAVE_FAILED_EVENT,
};

const ALL_EXTERNAL_EVENTS: &[&str] = &[
    APP_READY_EVENT,
    SESSION_STARTED_EVENT,
    SESSION_EXITED_EVENT,
    SESSION_CRASHED_EVENT,
    SESSION_FAILED_EVENT,
    SESSION_PAUSED_EVENT,
    SESSION_RESUMED_EVENT,
    SESSION_STATE_SAVED_EVENT,
    SESSION_STATE_SAVE_FAILED_EVENT,
    SESSION_STATE_LOADED_EVENT,
    SESSION_STATE_LOAD_FAILED_EVENT,
];

fn valid_tauri_event_name(name: &str) -> bool {
    !name.is_empty()
        && name
            .bytes()
            .all(|byte| byte.is_ascii_alphanumeric() || matches!(byte, b'-' | b'/' | b':' | b'_'))
}

#[test]
fn all_external_event_names_satisfy_tauri_contract() {
    for name in ALL_EXTERNAL_EVENTS {
        assert!(valid_tauri_event_name(name), "invalid Tauri event name: {name}");
    }
}

#[test]
fn supervisor_lifecycle_names_map_to_external_contract() {
    assert_eq!(
        external_session_lifecycle_event("session.started"),
        Some(SESSION_STARTED_EVENT)
    );
    assert_eq!(
        external_session_lifecycle_event("session.exited"),
        Some(SESSION_EXITED_EVENT)
    );
    assert_eq!(
        external_session_lifecycle_event("session.crashed"),
        Some(SESSION_CRASHED_EVENT)
    );
    assert_eq!(
        external_session_lifecycle_event("session.failed"),
        Some(SESSION_FAILED_EVENT)
    );
    assert_eq!(external_session_lifecycle_event("session.unknown"), None);
}

#[test]
fn maps_stable_error_codes_to_support_categories() {
    assert_eq!(error_category("CONFIG_READ_FAILED"), "configuration");
    assert_eq!(error_category("CATALOG_DATABASE_OPEN_FAILED"), "data");
    assert_eq!(error_category("MAME_IDENTIFIER_INVALID"), "runtime");
    assert_eq!(error_category("ARTWORK_ASSET_UNAVAILABLE"), "artwork");
    assert_eq!(error_category("APP_READY_EVENT_FAILED"), "application");
    assert_eq!(error_category("SOMETHING_ELSE"), "backend");
}

#[test]
fn audit_codes_are_data_even_with_other_prefixes() {
    assert_eq!(error_category("MAME_BULK_AUDIT_TOO_LARGE"), "data");
    assert_eq!(error_category("DIAGNOSTICS_ROOT_UNAVAILABLE"), "diagnostics");
    assert_eq!(error_category("UNSUPPORTED_PROTOCOL_VERSION"), "application");
    assert_eq!(bounded_text("héllo", 2), "hé");
    assert_eq!(bounded_text("hi", 10), "hi");
    assert_eq!(diagnostics_bundle_name(42), "diagnostics-42.json");
}

#[test]
fn catalog_schema_states_are_reported_without_guessing() {
    let missing = catalog_schema_diagnostics(4, CatalogSchemaObservation::Missing);
    assert_eq!(missing.current_version, None);
    assert_eq!(missing.migration_state, "notInitialized");
    let older = catalog_schema_diagnostics(4, CatalogSchemaObservation::Versioned(Some(2)));
    assert_eq!(older.current_version, Some(2));
    assert_eq!(older.migration_state, "migrationRequired");
    let broken = catalog_schema_diagnostics(4, CatalogSchemaObservation::Unreadable);
    assert_eq!(broken.migration_state, "unavailable");
    assert_eq!(broken.error_code.as_deref(), Some("CATALOG_SCHEMA_INSPECTION_FAILED"));
    let invalid = catalog_schema_diagnostics(4, CatalogSchemaObservation::Versioned(None));
    assert_eq!(invalid.migration_state, "invalid");
    assert_eq!(invalid.error_code.as_deref(), Some("CATALOG_SCHEMA_INVALID"));
    let newer = catalog_schema_diagnostics(4, CatalogSchemaObservation::Versioned(Some(9)));
    assert_eq!(newer.migration_state, "newerThanSupported");
}

#[test]
fn parallelism_is_explicitly_bounded() {
    assert_eq!(validate_parallelism(1).expect("one worker"), 1);
    assert_eq!(
        validate_parallelism(MAX_PARALLELISM).expect("maximum workers"),
        MAX_PARALLELISM
    );
    for invalid in [0, MAX_PARALLELISM + 1, u8::MAX] {
        let error = validate_parallelism(invalid).expect_err("invalid parallelism");
        assert_eq!(error.code, "MAME_BULK_AUDIT_PARALLELISM_INVALID");
    }
}

#[test]
fn idle_status_is_bounded_and_versioned() {
    let status = BulkAuditStatus::default();
    assert_eq!(status.schema_version, 1);
    assert_eq!(status.state, BulkAuditRunState::Idle);
    assert_eq!(status.max_parallelism, DEFAULT_PARALLELISM);
    assert_eq!(status.total, 0);
    assert_eq!(status.active, 0);
}

#[test]
fn supervisor_rejects_overlapping_jobs_and_cancels_active_job() {
    let mut supervisor = BulkAuditSupervisor::default();
    supervisor.start(2).expect("first job starts");
    let error = supervisor.start(2).expect_err("overlapping job rejected");
    assert_eq!(error.code, "MAME_BULK_AUDIT_ALREADY_RUNNING");

    let status = supervisor.cancel();
    assert_eq!(status.state, BulkAuditRunState::Cancelling);
}

#[test]
fn status_errors_are_bounded() {
    let input = "x".repeat(MAX_STATUS_ERROR_CHARS + 100);
    let output = truncate_status_error(&input);
    assert_eq!(output.chars().count(), MAX_STATUS_ERROR_CHARS);
}

#[test]
fn run_bookkeeping_counts_each_machine_once() {
    let mut supervisor = BulkAuditSupervisor::default();
    let started = supervisor.start(3).expect("start");
    assert_eq!(started.job_id, Some(1));
    let mut status = supervisor.snapshot();
    record_result(&mut status, "pacman", None);
    let failure = AppError::new("MAME_AUDIT_FAILED", "boom");
    record_result(&mut status, "galaxian", Some(&failure));
    assert_eq!(status.completed, 1);
    assert_eq!(status.failed, 1);
    assert_eq!(status.last_machine.as_deref(), Some("galaxian"));
    assert_eq!(status.last_error.as_deref(), Some("MAME_AUDIT_FAILED: boom"));
    finish_run(&mut status, None, false);
    assert_eq!(status.state, BulkAuditRunState::Completed);
    assert_eq!(worker_count(4, 2), 2);
    assert_eq!(worker_count(2, 10), 2);
}

#[test]
fn work_queue_paging_follows_the_first_total() {
    assert_eq!(plan_next_page(0, 200, 450, None, false).expect("next"), (450, PageStep::Next(200)));
    assert_eq!(plan_next_page(400, 200, 450, Some(450), false).expect("done"), (450, PageStep::Done));
    assert!(plan_next_page(0, 200, 450, None, true).is_err());
    assert_eq!(
        plan_next_page(0, 200, 100_001, None, false).expect_err("too large").code,
        "MAME_BULK_AUDIT_TOO_LARGE"
    );
}

#[test]
fn base64_encoder_handles_padding_boundaries() {
    assert_eq!(encode_base64(b""), "");
    assert_eq!(encode_base64(b"f"), "Zg==");
    assert_eq!(encode_base64(b"fo"), "Zm8=");
    assert_eq!(encode_base64(b"foo"), "Zm9v");
}

#[test]
fn asset_id_parser_rejects_path_and_extension_injection() {
    assert_eq!(
        parse_asset_id("local:0:../pacman:screenshot:png")
            .expect_err("path syntax must fail")
            .code,
        "ARTWORK_ASSET_ID_INVALID"
    );
    assert_eq!(
        parse_asset_id("local:0:pacman:screenshot:svg")
            .expect_err("unsupported extension must fail")
            .code,
        "ARTWORK_ASSET_ID_INVALID"
    );
    assert_eq!(
        parse_asset_id("local:0:pacman:screenshot:png:extra")
            .expect_err("extra components must fail")
            .code,
        "ARTWORK_ASSET_ID_INVALID"
    );
}

#[test]
fn stale_root_index_is_rejected_without_path_disclosure() {
    let error = artwork_candidate("local:4:pacman:screenshot:png", &[])
        .expect_err("stale root index must fail");
    assert_eq!(error.code, "ARTWORK_ASSET_UNAVAILABLE");
    assert!(!error.message.contains('/'));
    assert!(!error.message.contains('\\'));
}

#[test]
fn discovered_asset_ids_read_back() {
    let id = asset_id_for(3, "pacman", ArtworkKind::SystemImage, "webp");
    assert_eq!(id, "local:3:pacman:systemImage:webp");
    let parsed = parse_asset_id(&id).expect("valid id");
    assert_eq!(parsed.root_index, 3);
    assert_eq!(parsed.machine, "pacman");
    assert_eq!(parsed.kind, ArtworkKind::SystemImage);
    assert_eq!(parsed.directory, "systems");
    assert_eq!(parsed.mime_type, "image/webp");
}

#[test]
fn candidate_and_payload_for_a_configured_root() {
    let roots = vec![PlatformPath::new(b"/art".to_vec())];
    let candidate = artwork_candidate("local:0:pacman:screenshot:png", &roots).expect("candidate");
    assert_eq!(candidate.relative_path, "snap/pacman.png");
    assert_eq!(candidate.root.as_path(), b"/art");
    let payload = artwork_asset_payload("local:0:pacman:screenshot:png", "image/png", b"foo")
        .expect("payload");
    assert_eq!(payload.bytes, 3);
    assert_eq!(payload.data_url, "data:image/png;base64,Zm9v");
    let relative = vec![PlatformPath::new(b"art".to_vec())];
    assert_eq!(
        artwork_candidate("local:0:pacman:screenshot:png", &relative).expect_err("unsafe").code,
        "ARTWORK_ROOT_INVALID"
    );
}

#[test]
fn artwork_roots_are_absolute_distinct_and_bounded() {
    let ok = vec![PlatformPath::new(b"/a".to_vec()), PlatformPath::new(b"/b".to_vec())];
    assert!(validate_artwork_roots(&ok).is_ok());
    let relative = vec![PlatformPath::new(b"a".to_vec())];
    assert_eq!(validate_artwork_roots(&relative).unwrap_err().code, "ARTWORK_ROOT_NOT_ABSOLUTE");
    let traversal = vec![PlatformPath::new(b"/a/../b".to_vec())];
    assert_eq!(validate_artwork_roots(&traversal).unwrap_err().code, "ARTWORK_ROOT_TRAVERSAL");
    let duplicate = vec![PlatformPath::new(b"/a".to_vec()), PlatformPath::new(b"/a".to_vec())];
    let error = validate_artwork_roots(&duplicate).unwrap_err();
    assert_eq!(error.code, "ARTWORK_ROOT_DUPLICATE");
    assert_eq!(error.details[0].value, "1");
    let many: Vec<PlatformPath> = (0..33).map(|i| PlatformPath::new(format!("/r{i}").into_bytes())).collect();
    assert_eq!(validate_artwork_roots(&many).unwrap_err().code, "ARTWORK_ROOT_LIMIT_EXCEEDED");
    assert_eq!(
        check_artwork_discovery("../pacman", &[]).unwrap_err().code,
        "MAME_IDENTIFIER_INVALID"
    );
}

#[test]
fn machine_artwork_has_one_slot_per_category() {
    let found = vec![
        Some(artwork_descriptor(0, "pacman", ArtworkKind::Screenshot, "png", "image/png", 3)),
        None,
        None,
        None,
        None,
        None,
    ];
    let artwork = machine_artwork("pacman", found).expect("six slots");
    assert_eq!(artwork.slots.len(), 6);
    assert_eq!(artwork.slots[0].kind, ArtworkKind::Screenshot);
    assert_eq!(
        artwork.slots[0].asset.as_ref().map(|a| a.asset_id.as_str()),
        Some("local:0:pacman:screenshot:png")
    );
    assert_eq!(artwork.slots[5].kind, ArtworkKind::SystemImage);
}

#[test]
fn artwork_settings_schema_version_is_checked() {
    assert!(check_artwork_schema_version(Some(1)).is_ok());
    let missing = check_artwork_schema_version(None).unwrap_err();
    assert_eq!(missing.code, "ARTWORK_CONFIG_SCHEMA_VERSION_MISSING");
    let future = check_artwork_schema_version(Some(4)).unwrap_err();
    assert_eq!(future.code, "ARTWORK_CONFIG_SCHEMA_UNSUPPORTED");
    assert_eq!(future.message, "Artwork settings schema version 4 is not supported.");
    assert_eq!(future.details[0].key, "supportedVersion");
    assert_eq!(future.details[0].value, "1");
    assert_eq!(future.details[1].value, "4");
}

#[test]
fn artwork_assets_outside_their_root_are_refused() {
    assert!(is_path_under(b"/art", b"/art/snap/pacman.png"));
    assert!(is_path_under(b"/art", b"/art"));
    assert!(is_path_under(b"/", b"/snap/pacman.png"));
    assert!(!is_path_under(b"/art", b"/art-evil/snap/pacman.png"));
    assert!(!is_path_under(b"/art/snap", b"/art"));
    check_asset_within_root(b"/art", b"/art/snap/pacman.png").expect("inside its root");
    let error = check_asset_within_root(b"/art", b"/elsewhere/pacman.png").unwrap_err();
    assert_eq!(error.code, "ARTWORK_ASSET_OUTSIDE_ROOT");
    assert_eq!(error.message, "The requested artwork asset resolves outside its configured root.");
}

#[test]
fn artwork_asset_files_are_checked_before_reading() {
    check_asset_file("local:0:pacman:screenshot:png", true, 3).expect("small file");
    assert_eq!(
        check_asset_file("local:0:pacman:screenshot:png", false, 3).unwrap_err().code,
        "ARTWORK_ASSET_UNAVAILABLE"
    );
    let large = check_asset_file("local:0:pacman:screenshot:png", true, 8 * 1024 * 1024 + 1).unwrap_err();
    assert_eq!(large.code, "ARTWORK_ASSET_TOO_LARGE");
    assert_eq!(large.details[0].value, "local:0:pacman:screenshot:png");
    assert_eq!(large.details[1].value, "8388609");
    assert_eq!(large.details[2].value, "8388608");
    check_asset_file("local:0:pacman:screenshot:png", true, 8 * 1024 * 1024).expect("at the limit");
}

#[test]
fn platform_paths_from_bytes_keep_them() {
    let bytes: Vec<u8> = vec![b'/', b'r', 0xff, 0xfe, b'o'];
    assert_eq!(PlatformPath::from(bytes.clone()).into_path_buf(), bytes);
    assert_eq!(PlatformPath::from(bytes.as_slice()).into_path_buf(), bytes);
    assert_eq!(PlatformPath::new(bytes.clone()).into_path_buf(), bytes);
}
