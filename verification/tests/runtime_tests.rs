use mame_frontend::audit_runner::{build_machine_audit_argv, compose_media_search_path, validate_project_path_bytes};
use mame_frontend::bundled_runtime::{
    BundledRuntimeLayout, ContentProbe, EntryProbe, RuntimeProbe, BUNDLED_MAME_EXECUTABLE,
};
use mame_frontend::catalog_import::{
    check_activation, check_import_count, import_summary, machine_insert_plan, next_machine_count,
};
use mame_frontend::config::{
    ContentPathsV1, IoFailureKind, PathProbe, PathValidationStatus, PlatformPath, SettingsV2,
};
use mame_frontend::config_persistence::{check_persistable, merge_settings_value};
use mame_frontend::diagnostics::{error_log_entry, log_entry, sanitize_context};
use mame_frontend::executable::{MameExecutableIdentity, MameExecutableSourceKind, MameExecutableTrust};
use mame_frontend::json::{put_member, JsonMember, JsonValue};
use mame_frontend::library::{AvailabilityFilter, CloneFilter, MachineAvailabilityQuery, MachineQuery, MachineSort};
use mame_frontend::listxml::{ChipMetadata, DriverMetadata, ListXmlSummary, MachineMetadata};
use mame_frontend::machine_detail::{machine_detail, StoredDisplay, StoredMachineDetail};
use mame_frontend::machine_query::library_query_plan;
use mame_frontend::metadata_status::{
    check_generation_exit, check_listxml_build, metadata_status, MetadataFreshness, StoredGeneration,
};
use mame_frontend::path_configuration::{configuration_for, with_content_paths};
use mame_frontend::recent_log::{RecentLog, RECENT_LOG_LIMIT};

fn identity(path: &str, version: &str, build: &str) -> MameExecutableIdentity {
    MameExecutableIdentity {
        source: MameExecutableSourceKind::External,
        trust: MameExecutableTrust::UserConfigured,
        path: path.to_owned(),
        version: version.to_owned(),
        build: Some(build.to_owned()),
        raw_version_line: format!("{version} {build}"),
    }
}

fn member(key: &str, value: JsonValue) -> JsonMember {
    JsonMember { key: key.to_owned(), value }
}

fn text(value: &str) -> JsonValue {
    JsonValue::String(value.to_owned())
}

fn get<'a>(value: &'a JsonValue, key: &str) -> Option<&'a JsonValue> {
    match value {
        JsonValue::Object(members) => members.iter().find(|m| m.key == key).map(|m| &m.value),
        _ => None,
    }
}

fn path(text: &str) -> PlatformPath {
    PlatformPath::new(text.as_bytes().to_vec())
}

fn found_dir(canonical: &str) -> EntryProbe {
    EntryProbe::Found { canonical: canonical.to_owned(), is_dir: true, is_file: false }
}

fn found_file(canonical: &str) -> EntryProbe {
    EntryProbe::Found { canonical: canonical.to_owned(), is_dir: false, is_file: true }
}

fn valid_probe() -> RuntimeProbe {
    RuntimeProbe {
        resource_dir: found_dir("/app/resources"),
        root: found_dir("/app/resources/mame-runtime"),
        executable: found_file("/app/resources/mame-runtime/bin/mame"),
        executable_mode: Some(Ok(0o755)),
        hash_dir: found_dir("/app/resources/mame-runtime/hash"),
        hash_has_xml: ContentProbe::Searched { found: true },
        bgfx_dir: found_dir("/app/resources/mame-runtime/bgfx"),
        bgfx_has_file: ContentProbe::Searched { found: true },
        copying: found_file("/app/resources/mame-runtime/licenses/COPYING"),
        legal_dir: found_dir("/app/resources/mame-runtime/licenses/legal"),
        legal_has_file: ContentProbe::Searched { found: true },
    }
}

#[test]
fn valid_installed_layout_resolves_only_the_bundled_executable() {
    let layout = BundledRuntimeLayout::from_resource_dir("/app/resources".to_owned());
    assert_eq!(layout.root, "/app/resources/mame-runtime");
    assert_eq!(layout.executable, "/app/resources/mame-runtime/bin/mame");
    assert_eq!(layout.copying, "/app/resources/mame-runtime/licenses/COPYING");
    assert_eq!(layout.legal_dir, "/app/resources/mame-runtime/licenses/legal");
    assert!(layout.executable.ends_with(BUNDLED_MAME_EXECUTABLE));
    layout.validate(&valid_probe()).expect("valid bundled runtime");
    let source = layout.executable_source(&valid_probe()).expect("bundled source");
    assert_eq!(source.kind(), MameExecutableSourceKind::Bundled);
    assert_eq!(source.trust(), MameExecutableTrust::QualifiedBundled);
    assert_eq!(source.path(), layout.executable);
    assert_eq!(BundledRuntimeLayout::from_resource_dir("/r/".to_owned()).root, "/r/mame-runtime");
}

#[test]
fn missing_hash_resources_fail_closed() {
    let layout = BundledRuntimeLayout::from_resource_dir("/app/resources".to_owned());
    let probe = RuntimeProbe {
        hash_dir: EntryProbe::Unavailable { cause: "No such file or directory".to_owned() },
        ..valid_probe()
    };
    assert_eq!(layout.validate(&probe).expect_err("missing hash must fail").code, "MAME_BUNDLED_HASH_MISSING");
    let empty = RuntimeProbe { hash_has_xml: ContentProbe::Searched { found: false }, ..valid_probe() };
    assert_eq!(layout.validate(&empty).unwrap_err().code, "MAME_BUNDLED_HASH_EMPTY");
}

#[test]
fn missing_license_material_fails_closed() {
    let layout = BundledRuntimeLayout::from_resource_dir("/app/resources".to_owned());
    let probe = RuntimeProbe {
        legal_dir: EntryProbe::Unavailable { cause: "No such file or directory".to_owned() },
        ..valid_probe()
    };
    assert_eq!(layout.validate(&probe).expect_err("missing legal dir must fail").code, "MAME_BUNDLED_LEGAL_MISSING");
}

#[test]
fn symlinked_runtime_component_cannot_escape_package_root() {
    let layout = BundledRuntimeLayout::from_resource_dir("/app/resources".to_owned());
    let probe = RuntimeProbe { hash_dir: found_dir("/tmp/outside-hash"), ..valid_probe() };
    assert_eq!(layout.validate(&probe).expect_err("escaped hash must fail").code, "MAME_BUNDLED_RUNTIME_PATH_ESCAPE");
    let sibling = RuntimeProbe { hash_dir: found_dir("/app/resources/mame-runtime-evil/hash"), ..valid_probe() };
    assert_eq!(layout.validate(&sibling).unwrap_err().code, "MAME_BUNDLED_RUNTIME_PATH_ESCAPE");
    let not_executable = RuntimeProbe { executable_mode: Some(Ok(0o644)), ..valid_probe() };
    assert_eq!(layout.validate(&not_executable).unwrap_err().code, "MAME_BUNDLED_EXECUTABLE_NOT_EXECUTABLE");
}

#[test]
fn persists_order_and_preserves_existing_executable_setting() {
    let paths = ContentPathsV1 {
        rom_paths: vec![path("/games/rom-two"), path("/games/rom-one")],
        software_paths: vec![path("/games/missing-software")],
        chd_paths: Vec::new(),
    };
    let settings = SettingsV2 { mame_executable: Some("/opt/mame/mame".to_owned()), ..SettingsV2::default() };
    let updated = with_content_paths(settings, paths.clone());
    assert_eq!(updated.mame_executable.as_deref(), Some("/opt/mame/mame"));
    let configuration = configuration_for(
        updated.content_paths,
        vec![PathProbe::Listed, PathProbe::NotDirectory],
        vec![PathProbe::MetadataFailed { kind: IoFailureKind::NotFound, message: "not found".to_owned() }],
        Vec::new(),
    );
    assert_eq!(configuration.content_paths.rom_paths[0].as_path(), b"/games/rom-two");
    assert_eq!(configuration.content_paths.rom_paths[1].as_path(), b"/games/rom-one");
    assert_eq!(configuration.validations.rom_paths[0].status, PathValidationStatus::Accessible);
    assert_eq!(configuration.validations.rom_paths[1].status, PathValidationStatus::NotDirectory);
    assert_eq!(configuration.validations.software_paths[0].status, PathValidationStatus::Missing);
}

fn galaxian() -> MachineMetadata {
    MachineMetadata {
        short_name: "galaxian".to_owned(),
        description: "Galaxian".to_owned(),
        year: Some("1979".to_owned()),
        manufacturer: Some("Namco".to_owned()),
        source_file: None,
        clone_of: None,
        rom_of: None,
        is_bios: false,
        is_device: false,
        is_mechanical: false,
        runnable: true,
        driver: Some(DriverMetadata {
            status: "good".to_owned(),
            emulation: "good".to_owned(),
            cocktail: None,
            savestate: "supported".to_owned(),
            requires_artwork: false,
            unofficial: false,
            no_sound_hardware: true,
            incomplete: false,
        }),
        chips: vec![ChipMetadata { chip_type: "cpu".to_owned(), name: "Z80".to_owned(), tag: None, clock_hz: Some(3_072_000) }],
        displays: Vec::new(),
        devices: Vec::new(),
        software_lists: Vec::new(),
    }
}

#[test]
fn import_rows_and_completion_checks() {
    let plan = machine_insert_plan(galaxian()).expect("insertable machine");
    assert_eq!(plan.machine.runnable, 1);
    assert_eq!(plan.machine.is_bios, 0);
    assert_eq!(plan.machine.driver_no_sound_hardware, 1);
    assert_eq!(plan.machine.driver_savestate.as_deref(), Some("supported"));
    assert_eq!(plan.chips[0].clock_hz, Some(3_072_000));
    let mut huge = galaxian();
    huge.chips[0].clock_hz = Some(u64::MAX);
    assert_eq!(machine_insert_plan(huge).unwrap_err().code, "CATALOG_INTEGER_OVERFLOW");
    let mut no_driver = galaxian();
    no_driver.driver = None;
    let plan = machine_insert_plan(no_driver).unwrap();
    assert_eq!(plan.machine.driver_status, None);
    assert_eq!(plan.machine.driver_no_sound_hardware, 0);
    assert_eq!(next_machine_count(4).unwrap(), 5);
    assert_eq!(next_machine_count(u64::MAX).unwrap_err().code, "CATALOG_MACHINE_COUNT_OVERFLOW");
    let mismatch = check_import_count(3, 4).unwrap_err();
    assert_eq!(mismatch.code, "CATALOG_IMPORT_COUNT_MISMATCH");
    assert_eq!(mismatch.details[0].value, "4");
    assert_eq!(check_activation(0).unwrap_err().code, "CATALOG_IMPORT_ACTIVATION_FAILED");
    assert!(check_activation(1).is_ok());
}

fn fixture_summary(id: &MameExecutableIdentity) -> mame_frontend::library::MetadataGenerationSummary {
    import_summary(
        1,
        id,
        4,
        ListXmlSummary { build: Some("0.288 test-fixture".to_owned()), mame_config: Some("10".to_owned()), machine_count: 4 },
        100,
        200,
    )
    .expect("complete import")
}

#[test]
fn changed_executable_identity_marks_generation_stale() {
    let current_identity = identity("/opt/mame/mame", "0.288", "test-fixture");
    let generation = fixture_summary(&current_identity);
    assert_eq!(generation.machine_count, 4);
    assert_eq!(generation.listxml_build.as_deref(), Some("0.288 test-fixture"));
    let fresh = metadata_status(current_identity.clone(), Some(generation.clone()));
    assert_eq!(fresh.freshness, MetadataFreshness::Fresh);
    let changed = identity("/opt/mame/mame-new", "0.289", "next-build");
    let stale = metadata_status(changed, Some(generation));
    assert_eq!(stale.freshness, MetadataFreshness::Stale);
    assert_eq!(metadata_status(current_identity, None).freshness, MetadataFreshness::Empty);
}

#[test]
fn stored_generation_reads_back_and_refresh_checks() {
    let id = identity("/opt/mame/mame", "0.288", "test-fixture");
    let generation = fixture_summary(&id);
    let stored = StoredGeneration {
        generation_id: generation.generation_id,
        source_kind: generation.source_kind.clone(),
        trust: generation.trust.clone(),
        executable_path: generation.executable_path.clone(),
        mame_version: generation.mame_version.clone(),
        mame_build: generation.mame_build.clone(),
        raw_version_line: generation.raw_version_line.clone(),
        listxml_build: generation.listxml_build.clone(),
        mame_config: generation.mame_config.clone(),
        generated_at_epoch_ms: 100,
        imported_at_epoch_ms: 200,
        machine_count: 4,
    };
    assert_eq!(stored.clone().into_summary().unwrap(), generation);
    let corrupt = StoredGeneration { machine_count: -1, ..stored };
    assert_eq!(corrupt.into_summary().unwrap_err().code, "CATALOG_QUERY_RESULT_INVALID");
    assert!(check_listxml_build(Some("0.288 test-fixture"), &id).is_ok());
    assert_eq!(check_listxml_build(Some("0.287"), &id).unwrap_err().code, "MAME_METADATA_IDENTITY_MISMATCH");
    assert_eq!(check_listxml_build(None, &id).unwrap_err().code, "MAME_METADATA_BUILD_MISSING");
    assert_eq!(check_generation_exit(false, None).unwrap_err().code, "MAME_METADATA_GENERATION_FAILED");
    assert_eq!(check_generation_exit(true, Some("eof".to_owned())).unwrap_err().code, "MAME_METADATA_STDERR_READ_FAILED");
}

#[test]
fn query_limit_is_bounded() {
    let mut query = MachineQuery {
        text: None,
        manufacturer: None,
        year: None,
        driver_status: None,
        clone_filter: CloneFilter::ParentsOnly,
        sort: MachineSort::DescriptionAsc,
        include_devices: false,
        limit: 201,
        offset: 0,
    };
    let availability = MachineAvailabilityQuery::unverified(AvailabilityFilter::All);
    let error = library_query_plan(&query, &availability).expect_err("unbounded page must fail");
    assert_eq!(error.code, "CATALOG_QUERY_LIMIT_INVALID");
    query.limit = 50;
    query.text = Some("50%_off".to_owned());
    let plan = library_query_plan(&query, &availability).expect("bounded page");
    assert_eq!(plan.search_pattern.as_deref(), Some("%50\\%\\_off%"));
    assert_eq!(plan.clone_filter, "parents");
    assert_eq!(plan.include_devices, 0);
    assert_eq!(plan.availability_filter, "all");
    assert!(plan.page_sql.contains("ORDER BY m.description COLLATE NOCASE ASC"));
    assert!(plan.total_sql.starts_with("SELECT COUNT(*) FROM machines m "));
}

#[test]
fn missing_machine_detail_is_explicit() {
    let error = machine_detail("missing", 1, None, Vec::new(), Vec::new()).expect_err("missing machine must fail");
    assert_eq!(error.code, "CATALOG_MACHINE_NOT_FOUND");
}

#[test]
fn detail_includes_relationship_driver_and_display_metadata() {
    let stored = StoredMachineDetail {
        short_name: "galaxian".to_owned(),
        description: "Galaxian".to_owned(),
        year: Some("1979".to_owned()),
        manufacturer: Some("Namco".to_owned()),
        source_file: Some("galaxian.cpp".to_owned()),
        clone_of: None,
        parent_description: None,
        rom_of: None,
        is_bios: 0,
        is_device: 0,
        is_mechanical: 0,
        runnable: 1,
        driver_status: Some("good".to_owned()),
        driver_emulation: Some("good".to_owned()),
        driver_cocktail: None,
        driver_savestate: Some("supported".to_owned()),
        driver_requires_artwork: 0,
        driver_unofficial: 0,
        driver_no_sound_hardware: 0,
        driver_incomplete: 0,
    };
    let display = StoredDisplay {
        tag: Some("screen".to_owned()),
        display_type: "raster".to_owned(),
        rotate: Some(90),
        flip_x: 0,
        width: Some(256),
        height: Some(224),
        refresh_hz_bits: 60.606_060_f64.to_bits(),
        pixel_clock_hz: Some(6_144_000),
    };
    let detail = machine_detail("galaxian", 1, Some(stored.clone()), vec![display.clone()], Vec::new()).unwrap();
    assert!(detail.runnable);
    assert_eq!(detail.displays[0].rotate, Some(90));
    assert_eq!(f64::from_bits(detail.displays[0].refresh_hz_bits), 60.606_060_f64);
    let bad = StoredDisplay { flip_x: 2, ..display };
    assert_eq!(machine_detail("galaxian", 1, Some(stored), vec![bad], Vec::new()).unwrap_err().code, "CATALOG_DETAIL_RESULT_INVALID");
}

#[test]
fn sanitizes_sensitive_and_path_context() {
    let value = sanitize_context(&JsonValue::Object(vec![
        member("token", text("secret-value")),
        member("romPath", text("/home/user/private/roms")),
        member("machine", text("pacman")),
    ]));
    assert_eq!(get(&value, "token"), Some(&text("<redacted>")));
    assert_eq!(get(&value, "romPath"), Some(&text("<path>")));
    assert_eq!(get(&value, "machine"), Some(&text("pacman")));
}

#[test]
fn sanitization_reaches_nested_values_and_bounds_text() {
    let value = sanitize_context(&JsonValue::Array(vec![JsonValue::Object(vec![
        member("APIToken", JsonValue::Number("7".to_owned())),
        member("contentPaths", JsonValue::Array(vec![text("/x")])),
        member("note", text(&"n".repeat(600))),
    ])]));
    let JsonValue::Array(items) = &value else { panic!("array expected") };
    assert_eq!(get(&items[0], "APIToken"), Some(&text("<redacted>")));
    assert_eq!(get(&items[0], "contentPaths"), Some(&text("<path>")));
    assert_eq!(get(&items[0], "note"), Some(&text(&"n".repeat(512))));
    let entry = log_entry(5, &"l".repeat(40), "cat", "msg", &JsonValue::Null);
    assert_eq!(entry.level.len(), 32);
    let error = error_log_entry(6, "CONFIG_READ_FAILED", "failed");
    assert_eq!(error.category, "configuration");
    assert_eq!(get(&error.context, "code"), Some(&text("CONFIG_READ_FAILED")));
}

#[test]
fn recent_log_keeps_the_newest_entries() {
    let mut log: RecentLog<u64> = RecentLog::new();
    for entry in 0..205u64 {
        log.record(entry);
    }
    assert_eq!(log.len(), RECENT_LOG_LIMIT);
    assert_eq!(log.entries()[0], 5);
    assert_eq!(log.entries()[RECENT_LOG_LIMIT - 1], 204);
    let reloaded = RecentLog::from_history((0..250u64).collect());
    assert_eq!(reloaded.entries()[0], 50);
    assert_eq!(RecentLog::from_history(vec![1u64, 2]).entries(), &[1, 2]);
}

#[test]
fn round_trip_preserves_unrelated_top_level_and_nested_fields() {
    let existing = JsonValue::Object(vec![
        member("schemaVersion", JsonValue::Number("2".to_owned())),
        member("mameExecutable", text("/opt/mame/mame")),
        member(
            "contentPaths",
            JsonValue::Object(vec![
                member("romPaths", JsonValue::Array(Vec::new())),
                member("softwarePaths", JsonValue::Array(Vec::new())),
                member("chdPaths", JsonValue::Array(Vec::new())),
                member("futureContentPolicy", JsonValue::Object(vec![member("scan", text("manual"))])),
            ]),
        ),
        member("window", JsonValue::Object(vec![member("fullscreen", JsonValue::Bool(true)), member("monitor", JsonValue::Number("2".to_owned()))])),
        member("futureFeature", JsonValue::Object(vec![member("enabled", JsonValue::Bool(true))])),
    ]);
    let mut settings = SettingsV2 { mame_executable: Some("/opt/mame/mame".to_owned()), ..SettingsV2::default() };
    settings.content_paths.rom_paths = vec![path("/games/roms")];
    check_persistable(&settings).expect("current schema");
    let persisted = merge_settings_value(existing, &settings).expect("merged settings");
    assert_eq!(
        get(&persisted, "window"),
        Some(&JsonValue::Object(vec![member("fullscreen", JsonValue::Bool(true)), member("monitor", JsonValue::Number("2".to_owned()))]))
    );
    assert_eq!(get(&persisted, "futureFeature"), Some(&JsonValue::Object(vec![member("enabled", JsonValue::Bool(true))])));
    let content = get(&persisted, "contentPaths").expect("content paths");
    assert_eq!(get(content, "futureContentPolicy"), Some(&JsonValue::Object(vec![member("scan", text("manual"))])));
    assert_eq!(get(content, "romPaths"), Some(&JsonValue::Array(vec![text("/games/roms")])));
    assert_eq!(get(&persisted, "schemaVersion"), Some(&JsonValue::Number("2".to_owned())));
    assert!(get(&persisted, "launchPreferences").is_some());
}

#[test]
fn settings_document_root_must_be_an_object() {
    let settings = SettingsV2::default();
    assert_eq!(merge_settings_value(JsonValue::Array(Vec::new()), &settings).unwrap_err().code, "CONFIG_SCHEMA_INVALID");
    let fresh = merge_settings_value(JsonValue::Object(Vec::new()), &settings).unwrap();
    assert_eq!(get(&fresh, "mameExecutable"), Some(&JsonValue::Null));
    let old = SettingsV2 { schema_version: 1, ..SettingsV2::default() };
    assert_eq!(check_persistable(&old).unwrap_err().code, "CONFIG_SCHEMA_INVALID");
    let mut members = vec![member("a", JsonValue::Null)];
    put_member(&mut members, "a", JsonValue::Bool(true));
    put_member(&mut members, "b", JsonValue::Bool(false));
    assert_eq!(members, vec![member("a", JsonValue::Bool(true)), member("b", JsonValue::Bool(false))]);
}

#[test]
fn empty_configuration_keeps_mame_builtin_media_default() {
    let argv = build_machine_audit_argv("pacman", &ContentPathsV1::default()).expect("audit argv");
    assert_eq!(argv, vec![b"-noreadconfig".to_vec(), b"-verifyroms".to_vec(), b"pacman".to_vec()]);
}

#[test]
fn media_search_path_preserves_group_and_user_order() {
    let paths = ContentPathsV1 {
        rom_paths: vec![path("/rom-a"), path("/rom-b")],
        software_paths: vec![path("/software")],
        chd_paths: vec![path("/chd")],
    };
    let composed = compose_media_search_path(&paths).expect("composed path").expect("non-empty path");
    assert_eq!(composed, b"/rom-a;/rom-b;/software;/chd".to_vec());
    let argv = build_machine_audit_argv("pacman", &paths).expect("audit argv");
    assert_eq!(argv[0], b"-noreadconfig");
    assert_eq!(argv[1], b"-rompath");
    assert_eq!(argv[2], composed);
    assert_eq!(argv[3], b"-verifyroms");
    assert_eq!(argv[4], b"pacman");
}

#[test]
fn multipath_separator_in_configured_path_is_rejected() {
    let paths = ContentPathsV1 { rom_paths: vec![path("/rom;other")], software_paths: Vec::new(), chd_paths: Vec::new() };
    let error = compose_media_search_path(&paths).expect_err("ambiguous multipath must be rejected");
    assert_eq!(error.code, "MAME_AUDIT_CONTENT_PATH_INVALID");
    assert_eq!(error.details[0].value, "MAME_PROJECT_PATH_LIST_SEPARATOR");
}

#[test]
fn non_utf8_paths_are_composed_without_loss() {
    let first = vec![b'/', b'r', b'o', b'm', 0xff];
    let second = vec![b'/', b'c', b'h', b'd', 0xfe];
    let paths = ContentPathsV1 {
        rom_paths: vec![PlatformPath::new(first.clone())],
        software_paths: Vec::new(),
        chd_paths: vec![PlatformPath::new(second.clone())],
    };
    let composed = compose_media_search_path(&paths).expect("composed path").expect("non-empty path");
    let mut expected = first;
    expected.push(b';');
    expected.extend_from_slice(&second);
    assert_eq!(composed, expected);
}

#[test]
fn project_path_bytes_rules() {
    assert_eq!(validate_project_path_bytes(b"").unwrap_err().code, "MAME_PROJECT_PATH_EMPTY");
    assert_eq!(validate_project_path_bytes(b"roms").unwrap_err().code, "MAME_PROJECT_PATH_NOT_ABSOLUTE");
    assert_eq!(validate_project_path_bytes(b"/a/../b").unwrap_err().code, "MAME_PROJECT_PATH_TRAVERSAL");
    assert!(validate_project_path_bytes(b"/a/..b").is_ok());
    assert_eq!(validate_project_path_bytes(b"/$HOME/roms").unwrap_err().code, "MAME_PROJECT_PATH_EXPANSION");
}

#[test]
fn runtime_errors_name_the_part_and_its_path() {
    let layout = BundledRuntimeLayout::from_resource_dir("/app/resources".to_owned());
    let missing = RuntimeProbe {
        hash_dir: EntryProbe::Unavailable { cause: "No such file or directory".to_owned() },
        ..valid_probe()
    };
    let error = layout.validate(&missing).unwrap_err();
    assert_eq!(error.details[0].key, "component");
    assert_eq!(error.details[0].value, "hash");
    assert_eq!(error.details[1].key, "path");
    assert_eq!(error.details[1].value, "/app/resources/mame-runtime/hash");
    assert_eq!(error.details[2].key, "cause");
    assert_eq!(error.details[2].value, "No such file or directory");

    let escaped = RuntimeProbe { bgfx_dir: found_dir("/tmp/elsewhere"), ..valid_probe() };
    let error = layout.validate(&escaped).unwrap_err();
    assert_eq!(error.details[0].value, "bgfx");
    assert_eq!(error.details[1].value, "/tmp/elsewhere");
    assert_eq!(error.details.len(), 2);

    let not_executable = RuntimeProbe { executable_mode: Some(Ok(0o600)), ..valid_probe() };
    let error = layout.validate(&not_executable).unwrap_err();
    assert_eq!(error.details[0].value, "executable");
    assert_eq!(error.details[1].value, "/app/resources/mame-runtime/bin/mame");
}
