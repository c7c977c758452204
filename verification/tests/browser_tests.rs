use mame_frontend::bios::BiosChoice;
use mame_frontend::catalog_import::import_summary;
use mame_frontend::collections::require_active_machine;
use mame_frontend::errors::AppError;
use mame_frontend::executable::{
    identity_from_probe, validate_executable_path, ExecutableProbe, MameExecutableIdentity, MameExecutableSource,
    MameExecutableSourceKind, MameExecutableTrust,
};
use mame_frontend::favorites::{favorite_page, favorite_state, favorite_timestamp, validate_favorites_page_size, StoredFavorite};
use mame_frontend::history::{
    check_history_finished, history_keep_before_insert, history_page, outcome_flag, validate_history_page_size, StoredHistory,
    HISTORY_RETENTION_LIMIT,
};
use mame_frontend::listxml::ListXmlSummary;
use mame_frontend::mame_ui_bootstrap::{bootstrap_status, require_configured_source, MameUiBootstrapStatus};
use mame_frontend::mame_ui_launch::{require_active_generation, validated_bios_selection, validated_short_identifier};

fn choices() -> Vec<BiosChoice> {
    vec![
        BiosChoice { name: "us".to_owned(), description: "US BIOS".to_owned(), is_default: true },
        BiosChoice { name: "jp".to_owned(), description: "Japan BIOS".to_owned(), is_default: false },
    ]
}

fn identity(path: &str, version: &str, build: &str) -> MameExecutableIdentity {
    MameExecutableIdentity {
        source: MameExecutableSourceKind::External,
        trust: MameExecutableTrust::UserConfigured,
        path: path.to_owned(),
        version: version.to_owned(),
        build: Some(build.to_owned()),
        raw_version_line: format!("{version} {build}"),
    }
}

fn history_row(id: i64, launched: i64, succeeded: Option<i64>) -> StoredHistory {
    StoredHistory {
        id,
        machine_short_name: "galaxian".to_owned(),
        software_item: None,
        launched_at_epoch_ms: launched,
        succeeded,
        active_machine_short_name: Some("galaxian".to_owned()),
        description: Some("Galaxian".to_owned()),
        year: None,
        manufacturer: None,
        source_file: None,
        clone_of: None,
        runnable: Some(1),
        is_device: Some(0),
        driver_status: None,
        display_count: 1,
        software_list_count: 0,
    }
}

#[test]
fn selected_bios_must_be_identifier_safe_and_reported_by_mame() {
    assert_eq!(validated_bios_selection(" jp ".to_owned(), &choices()).expect("reported BIOS"), "jp");
    assert_eq!(
        validated_bios_selection("-bios".to_owned(), &choices()).expect_err("option-like BIOS must fail").code,
        "MAME_BIOS_IDENTIFIER_INVALID"
    );
    assert_eq!(
        validated_bios_selection("eu".to_owned(), &choices()).expect_err("unreported BIOS must fail").code,
        "MAME_BIOS_SELECTION_INVALID"
    );
}

#[test]
fn empty_start_checks_machine_and_catalog() {
    assert_eq!(validated_short_identifier(" pacman ".to_owned()).unwrap(), "pacman");
    assert_eq!(validated_short_identifier("PAC".to_owned()).unwrap_err().code, "MAME_IDENTIFIER_INVALID");
    assert_eq!(require_active_generation(None).unwrap_err().code, "MAME_METADATA_NOT_READY");
}

#[test]
fn missing_settings_are_explicitly_not_configured() {
    assert_eq!(bootstrap_status(None, None), MameUiBootstrapStatus::NotConfigured);
    assert_eq!(require_configured_source(None).unwrap_err().code, "MAME_NOT_CONFIGURED");
}

#[test]
fn unusable_configured_executable_is_a_readiness_state_not_a_catalog_error() {
    let status = bootstrap_status(Some(Err(AppError::new("MAME_EXECUTABLE_NOT_FOUND", "missing"))), None);
    assert!(matches!(status, MameUiBootstrapStatus::ExecutableUnavailable { .. }));
}

#[test]
fn persisted_configuration_imports_and_populates_first_catalog_query() {
    let id = identity("/opt/mame/mame", "0.288", "test-fixture");
    let before = bootstrap_status(Some(Ok(id.clone())), None);
    assert!(matches!(before, MameUiBootstrapStatus::MetadataMissing { .. }));
    let imported = import_summary(
        1,
        &id,
        4,
        ListXmlSummary { build: Some("0.288 test-fixture".to_owned()), mame_config: None, machine_count: 4 },
        100,
        200,
    )
    .expect("representative metadata import should succeed");
    assert_eq!(imported.machine_count, 4);
    let after = bootstrap_status(Some(Ok(id)), Some(imported.clone()));
    assert!(matches!(after, MameUiBootstrapStatus::Ready { ref generation, .. } if generation.machine_count == 4));
    let other = identity("/opt/mame/mame2", "0.289", "b");
    assert!(matches!(bootstrap_status(Some(Ok(other)), Some(imported)), MameUiBootstrapStatus::MetadataStale { .. }));
}

#[test]
fn favorite_requires_machine_in_active_catalog() {
    let error = require_active_machine("missing", 0).expect_err("unknown favorite must fail");
    assert_eq!(error.code, "CATALOG_MACHINE_NOT_FOUND");
}

#[test]
fn favorite_page_size_is_bounded() {
    let error = validate_favorites_page_size(0).expect_err("zero page size must fail");
    assert_eq!(error.code, "CATALOG_FAVORITES_LIMIT_INVALID");
}

#[test]
fn favorite_survives_refresh_and_removed_machine() {
    let state = favorite_state("galaxian", Some(500)).unwrap();
    assert!(state.favorite);
    assert_eq!(state.created_at_epoch_ms, Some(500));
    let row = StoredFavorite {
        short_name: "galaxian".to_owned(),
        created_at_epoch_ms: 500,
        machine_short_name: None,
        description: None,
        year: None,
        manufacturer: None,
        source_file: None,
        clone_of: None,
        runnable: None,
        is_device: None,
        driver_status: None,
        display_count: 0,
        software_list_count: 0,
    };
    let page = favorite_page(1, 0, 20, vec![row]).unwrap();
    assert_eq!(page.items[0].short_name, "galaxian");
    assert!(page.items[0].machine.is_none());
    assert_eq!(favorite_timestamp(u64::MAX).unwrap_err().code, "CATALOG_FAVORITE_TIMESTAMP_INVALID");
    assert!(!favorite_state("galaxian", None).unwrap().favorite);
}

#[test]
fn rejects_unbounded_page_sizes() {
    let error = validate_history_page_size(201).expect_err("oversized history query must fail");
    assert_eq!(error.code, "CATALOG_HISTORY_LIMIT_INVALID");
}

#[test]
fn distinguishes_failed_launches() {
    let page = history_page(1, 0, 20, vec![history_row(1, 200, Some(outcome_flag(false)))]).expect("query history");
    assert_eq!(page.items[0].succeeded, Some(false));
    let unfinished = history_page(1, 0, 20, vec![history_row(1, 200, None)]).unwrap();
    assert_eq!(unfinished.items[0].succeeded, None);
    assert_eq!(check_history_finished(7, 0).unwrap_err().code, "CATALOG_HISTORY_ENTRY_NOT_FOUND");
    assert_eq!(history_page(1, 0, 20, vec![history_row(1, 200, Some(2))]).unwrap_err().code, "CATALOG_HISTORY_DATA_INVALID");
}

#[test]
fn retention_keeps_only_newest_entries() {
    let keep = history_keep_before_insert() as usize;
    let mut stored: Vec<u64> = Vec::new();
    for timestamp in 0..u64::from(HISTORY_RETENTION_LIMIT + 5) {
        if stored.len() > keep {
            let excess = stored.len() - keep;
            stored.drain(0..excess);
        }
        stored.push(timestamp);
    }
    assert_eq!(stored.len(), HISTORY_RETENTION_LIMIT as usize);
    assert_eq!(stored[0], 5);
}

#[test]
fn missing_executable_is_rejected_with_structured_error() {
    let error = validate_executable_path(
        "/tmp/definitely-missing-mame",
        ExecutableProbe::ResolveFailed { not_found: true, cause: "No such file or directory".to_owned() },
    )
    .expect_err("missing executable must fail");
    assert_eq!(error.code, "MAME_EXECUTABLE_NOT_FOUND");
    assert_eq!(
        validate_executable_path("", ExecutableProbe::ResolveFailed { not_found: true, cause: String::new() }).unwrap_err().code,
        "MAME_EXECUTABLE_PATH_EMPTY"
    );
}

#[test]
fn non_executable_file_is_rejected_before_probe() {
    let probe = |is_file: bool, mode: Option<u32>| ExecutableProbe::Found { canonical: "/opt/mame/mame".to_owned(), is_file, mode };
    assert_eq!(validate_executable_path("/opt/mame/mame", probe(true, Some(0o644))).unwrap_err().code, "MAME_EXECUTABLE_NOT_EXECUTABLE");
    assert_eq!(validate_executable_path("/opt/mame/mame", probe(false, Some(0o755))).unwrap_err().code, "MAME_EXECUTABLE_NOT_FILE");
    assert_eq!(validate_executable_path("/opt/mame/mame", probe(true, Some(0o755))).unwrap(), "/opt/mame/mame");
    assert_eq!(validate_executable_path("/opt/mame/mame", probe(true, None)).unwrap(), "/opt/mame/mame");
}

#[test]
fn inspect_executable_records_source_trust_and_version() {
    let source = MameExecutableSource::development_tree("/tmp/mame executable 日本語/fake mame".to_owned());
    let identity = identity_from_probe(
        &source,
        "/tmp/mame executable 日本語/fake mame".to_owned(),
        "0.288 (mame0287-823-gf4f6f34f2a8)\n",
        "",
    )
    .expect("fake MAME must probe");
    assert_eq!(identity.source, MameExecutableSourceKind::DevelopmentTree);
    assert_eq!(identity.trust, MameExecutableTrust::Development);
    assert_eq!(identity.version, "0.288");
    assert_eq!(identity.build.as_deref(), Some("(mame0287-823-gf4f6f34f2a8)"));
    assert_eq!(identity.path, "/tmp/mame executable 日本語/fake mame");
    assert_eq!(identity_from_probe(&source, "/x".to_owned(), "\n  \n", "").unwrap_err().code, "MAME_VERSION_UNRECOGNIZED");
    assert_eq!(
        mame_frontend::bios::bios_query_args("pacman").unwrap(),
        vec!["-noreadconfig".to_owned(), "-listxml".to_owned(), "pacman".to_owned()]
    );
    assert_eq!(
        mame_frontend::software_list::software_list_query_args("apple2_flop_clcracked").unwrap(),
        vec!["-noreadconfig".to_owned(), "-getsoftlist".to_owned(), "apple2_flop_clcracked".to_owned()]
    );
}
