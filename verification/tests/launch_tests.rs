use mame_frontend::argv::{
    build_launch_argv, build_launch_argv_with_preferences, validate_project_controlled_path,
    validate_short_identifier, validate_software_identifier, validate_software_list_identifier,
    MameLaunchTarget, ProjectPathArgument,
};
use mame_frontend::bios::{
    bios_choices_from_events, parse_bios_choices, validate_bios_identifier, validate_bios_selection,
};
use mame_frontend::xml::{XmlAttribute, XmlEvent, XmlFault};
use mame_frontend::executable::{
    configured_external_source, parse_version_line, select_version_line, MameExecutableIdentity,
    MameExecutableSourceKind, MameExecutableTrust,
};
use mame_frontend::library::{
    ensure_generation_matches_executable, launch_source_from_generation, validate_machine_short_name,
    validated_query, CloneFilterRequest, MachineSearchRequest, MachineSortRequest,
    MetadataGenerationSummary, DEFAULT_PAGE_SIZE,
};
use mame_frontend::preferences::{
    AudioPreference, LaunchPreferencesV1, RendererPreference, WindowPreference,
};

fn generation(source_kind: &str, trust: &str) -> MetadataGenerationSummary {
    MetadataGenerationSummary {
        generation_id: 1,
        source_kind: source_kind.to_owned(),
        trust: trust.to_owned(),
        executable_path: "/opt/mame/mame".to_owned(),
        mame_version: "0.288".to_owned(),
        mame_build: Some("test-fixture".to_owned()),
        raw_version_line: "0.288 test-fixture".to_owned(),
        listxml_build: Some("0.288 test-fixture".to_owned()),
        mame_config: Some("10".to_owned()),
        generated_at_epoch_ms: 100,
        imported_at_epoch_ms: 200,
        machine_count: 4,
    }
}

fn identity() -> MameExecutableIdentity {
    MameExecutableIdentity {
        source: MameExecutableSourceKind::External,
        trust: MameExecutableTrust::UserConfigured,
        path: "/opt/mame/mame".to_owned(),
        version: "0.288".to_owned(),
        build: Some("test-fixture".to_owned()),
        raw_version_line: "0.288 test-fixture".to_owned(),
    }
}

fn base_request() -> MachineSearchRequest {
    MachineSearchRequest {
        text: None,
        manufacturer: None,
        year: None,
        driver_status: None,
        clone_filter: CloneFilterRequest::All,
        sort: MachineSortRequest::DescriptionAsc,
        include_devices: false,
        limit: DEFAULT_PAGE_SIZE,
        offset: 0,
    }
}

#[test]
fn launch_arguments_are_discrete_argv_entries() {
    let path = "/tmp/ROMs with spaces/日本語/&[]!".to_owned();
    let target = MameLaunchTarget {
        machine: "pacman".to_owned(),
        software: Some("list_name:item_name:cart".to_owned()),
        project_paths: vec![ProjectPathArgument {
            option: "rompath".to_owned(),
            path: path.clone(),
        }],
    };

    let argv = build_launch_argv(&target).expect("arguments must validate");
    assert_eq!(argv.as_slice().len(), 4);
    assert_eq!(argv.as_slice()[0], "pacman");
    assert_eq!(argv.as_slice()[1], "list_name:item_name:cart");
    assert_eq!(argv.as_slice()[2], "-rompath");
    assert_eq!(argv.as_slice()[3], path);
}

#[test]
fn launch_preferences_map_to_bounded_mame_options() {
    let target = MameLaunchTarget {
        machine: "pacman".to_owned(),
        software: None,
        project_paths: Vec::new(),
    };
    let preferences = LaunchPreferencesV1 {
        window_mode: WindowPreference::Fullscreen,
        renderer: RendererPreference::Bgfx,
        audio: AudioPreference::Disabled,
    };

    let argv = build_launch_argv_with_preferences(&target, &preferences)
        .expect("bounded preferences must produce safe argv");
    assert_eq!(
        argv.as_slice(),
        ["pacman", "-nowindow", "-video", "bgfx", "-sound", "none"]
    );
}

#[test]
fn inherited_launch_preferences_add_no_arguments() {
    let target = MameLaunchTarget {
        machine: "pacman".to_owned(),
        software: None,
        project_paths: Vec::new(),
    };
    let argv = build_launch_argv_with_preferences(&target, &LaunchPreferencesV1::default())
        .expect("inherited preferences must preserve base argv");
    assert_eq!(argv.as_slice(), ["pacman"]);
}

#[test]
fn automatic_renderer_and_audio_are_explicit_when_requested() {
    let target = MameLaunchTarget {
        machine: "pacman".to_owned(),
        software: None,
        project_paths: Vec::new(),
    };
    let preferences = LaunchPreferencesV1 {
        window_mode: WindowPreference::Windowed,
        renderer: RendererPreference::Auto,
        audio: AudioPreference::Auto,
    };
    let argv = build_launch_argv_with_preferences(&target, &preferences)
        .expect("automatic providers must produce bounded argv");
    assert_eq!(
        argv.as_slice(),
        ["pacman", "-window", "-video", "auto", "-sound", "auto"]
    );
}

#[test]
fn software_list_prefix_may_exceed_short_name_limit() {
    validate_software_list_identifier("apple2_flop_clcracked")
        .expect("known MAME software-list name must validate");
    validate_software_identifier("apple2_flop_clcracked:agentusa")
        .expect("list-qualified software target must validate");
}

#[test]
fn malformed_machine_identifiers_are_rejected() {
    for value in ["", "-help", "PacMan", "pac man", "pac/man", "pac;man"] {
        let error = validate_short_identifier("machine", value)
            .expect_err("malformed machine identifier must fail");
        assert_eq!(error.code, "MAME_IDENTIFIER_INVALID", "{value:?}");
    }
}

#[test]
fn malformed_software_identifiers_are_rejected() {
    for value in [
        "",
        "-help",
        "list:item:part:extra",
        "list::item",
        "item with spaces",
        "item;rm",
    ] {
        let error = validate_software_identifier(value)
            .expect_err("malformed software identifier must fail");
        assert_eq!(error.code, "MAME_IDENTIFIER_INVALID", "{value:?}");
    }
}

#[test]
fn project_paths_require_absolute_non_traversing_paths() {
    assert_eq!(
        validate_project_controlled_path("roms/test")
            .expect_err("relative path must fail")
            .code,
        "MAME_PROJECT_PATH_NOT_ABSOLUTE"
    );
    assert_eq!(
        validate_project_controlled_path("/tmp/roms/../escape")
            .expect_err("traversal path must fail")
            .code,
        "MAME_PROJECT_PATH_TRAVERSAL"
    );
}

#[test]
fn project_paths_reject_mame_path_list_injection() {
    assert_eq!(
        validate_project_controlled_path("/tmp/roms;other-roms")
            .expect_err("MAME path-list delimiter must fail")
            .code,
        "MAME_PROJECT_PATH_LIST_SEPARATOR"
    );
}

#[test]
fn project_paths_reject_mame_environment_expansion() {
    assert_eq!(
        validate_project_controlled_path("/tmp/roms/$HOME")
            .expect_err("MAME environment expansion must fail")
            .code,
        "MAME_PROJECT_PATH_EXPANSION"
    );
}

#[test]
fn external_configuration_is_explicit() {
    assert!(configured_external_source(None).expect("unset config is valid").is_none());

    let source = configured_external_source(Some("/opt/mame/mame"))
        .expect("configured path is valid")
        .expect("source must be present");
    assert_eq!(source.kind(), MameExecutableSourceKind::External);
    assert_eq!(source.trust(), MameExecutableTrust::UserConfigured);
}

#[test]
fn empty_external_configuration_is_rejected() {
    let error = configured_external_source(Some("   ")).expect_err("empty configured path must fail");
    assert_eq!(error.code, "MAME_EXECUTABLE_PATH_EMPTY");
}

#[test]
fn parses_version_and_build_identity_without_guessing() {
    assert_eq!(
        parse_version_line("0.288 (mame0287-823-gf4f6f34f2a8)"),
        (
            "0.288".to_owned(),
            Some("(mame0287-823-gf4f6f34f2a8)".to_owned())
        )
    );
    assert_eq!(parse_version_line("0.289"), ("0.289".to_owned(), None));
}

#[test]
fn version_line_is_the_first_nonblank_line() {
    assert_eq!(select_version_line("\n  \n0.288 (x)\nmore", "").as_deref(), Some("0.288 (x)"));
    assert_eq!(select_version_line("", "  0.1  \n").as_deref(), Some("0.1"));
    assert_eq!(select_version_line(" \n", ""), None);
}

#[test]
fn persisted_catalog_cannot_self_assert_bundled_trust() {
    let error = launch_source_from_generation(&generation("bundled", "qualifiedBundled"))
        .expect_err("bundled launch must require package-owned resolution");
    assert_eq!(error.code, "CATALOG_BUNDLED_EXECUTABLE_RESOLUTION_REQUIRED");
}

#[test]
fn persisted_source_and_trust_pair_must_match() {
    let error = launch_source_from_generation(&generation("external", "qualifiedBundled"))
        .expect_err("mismatched persisted provenance must fail");
    assert_eq!(error.code, "CATALOG_EXECUTABLE_PROVENANCE_INVALID");

    let source = launch_source_from_generation(&generation("external", "userConfigured"))
        .expect("valid external provenance");
    assert_eq!(source.kind(), MameExecutableSourceKind::External);
    assert_eq!(source.trust(), MameExecutableTrust::UserConfigured);
}

#[test]
fn launch_requires_catalog_identity_to_match_current_executable() {
    let generation = generation("external", "userConfigured");
    ensure_generation_matches_executable(&generation, &identity())
        .expect("matching identity must pass");

    let mut changed = identity();
    changed.version = "0.289".to_owned();
    let error = ensure_generation_matches_executable(&generation, &changed)
        .expect_err("changed executable must make catalog stale");
    assert_eq!(error.code, "MAME_METADATA_STALE");
}

#[test]
fn query_defaults_are_bounded_and_parent_policy_is_explicit() {
    let query = validated_query(base_request()).expect("default query");
    assert_eq!(query.limit, DEFAULT_PAGE_SIZE);
    assert!(!query.include_devices);
}

#[test]
fn whitespace_filters_normalize_to_none() {
    let mut request = base_request();
    request.text = Some("   ".to_owned());
    request.manufacturer = Some(" Namco ".to_owned());
    request.clone_filter = CloneFilterRequest::ParentsOnly;
    request.limit = 25;
    let query = validated_query(request).expect("normalized query");
    assert_eq!(query.text, None);
    assert_eq!(query.manufacturer.as_deref(), Some("Namco"));
}

#[test]
fn unsupported_driver_status_is_rejected() {
    let mut request = base_request();
    request.driver_status = Some("unknown".to_owned());
    let error = validated_query(request).expect_err("unsupported status must fail");
    assert_eq!(error.code, "CATALOG_QUERY_STATUS_INVALID");
}

#[test]
fn machine_identifier_validation_matches_launch_policy() {
    assert_eq!(
        validate_machine_short_name("apple2e".to_owned()).expect("valid identifier"),
        "apple2e"
    );
    for invalid in ["", "Apple2e", "../mame", "name-with-dash", "abcdefghijklmnopq"] {
        let error = validate_machine_short_name(invalid.to_owned())
            .expect_err("invalid identifier must fail");
        assert_eq!(error.code, "CATALOG_MACHINE_IDENTIFIER_INVALID");
    }
}

#[test]
fn parses_bios_choices_for_requested_machine() {
    let xml = r#"<mame><machine name="pc"><biosset name="us" description="US BIOS" default="yes"/><biosset name="jp" description="Japan BIOS"/></machine></mame>"#;
    let choices = parse_bios_choices(xml.as_bytes(), "pc").expect("bios metadata");
    assert_eq!(choices.len(), 2);
    assert_eq!(choices[0].name, "us");
    assert!(choices[0].is_default);
    validate_bios_selection(&choices, "jp").expect("reported BIOS must validate");
    assert_eq!(
        validate_bios_selection(&choices, "eu")
            .expect_err("unreported BIOS must fail")
            .code,
        "MAME_BIOS_SELECTION_INVALID"
    );
}

#[test]
fn bios_identifier_is_bounded_and_option_safe() {
    for valid in ["us", "v2.0", "rev-3", "jp_1"] {
        validate_bios_identifier(valid).expect("valid BIOS identifier");
    }
    for invalid in ["", "-bios", "US", "bad value", "bad/../value"] {
        assert_eq!(
            validate_bios_identifier(invalid)
                .expect_err("invalid BIOS identifier")
                .code,
            "MAME_BIOS_IDENTIFIER_INVALID"
        );
    }
}

#[test]
fn bios_query_for_another_machine_is_rejected() {
    let xml = r#"<mame><machine name="other"><biosset name="us" description="US"/></machine></mame>"#;
    assert_eq!(
        parse_bios_choices(xml.as_bytes(), "pc").expect_err("missing machine").code,
        "MAME_BIOS_MACHINE_MISMATCH"
    );
    let two_defaults = r#"<mame><machine name="pc"><biosset name="a" description="A" default="yes"/><biosset name="b" description="B" default="yes"/></machine></mame>"#;
    assert_eq!(
        parse_bios_choices(two_defaults.as_bytes(), "pc").expect_err("two defaults").code,
        "MAME_BIOS_METADATA_INVALID"
    );
}

fn attribute(key: &str, value: &str) -> XmlAttribute {
    XmlAttribute { key: key.to_owned(), value: value.to_owned() }
}

fn machine_start(name: &str) -> XmlEvent {
    XmlEvent::Start { name: "machine".to_owned(), attributes: Ok(vec![attribute("name", name)]) }
}

fn biosset(attrs: Vec<XmlAttribute>) -> XmlEvent {
    XmlEvent::Empty { name: "biosset".to_owned(), attributes: Ok(attrs) }
}

fn machine_end() -> XmlEvent {
    XmlEvent::End { name: "machine".to_owned() }
}

#[test]
fn bios_events_keep_only_the_requested_machine() {
    let events = vec![
        machine_start("other"),
        biosset(vec![attribute("name", "xx"), attribute("description", "Other")]),
        machine_end(),
        machine_start("pc"),
        XmlEvent::Text(Ok("ignored".to_owned())),
        biosset(vec![attribute("name", "us"), attribute("description", "US BIOS"), attribute("default", "yes")]),
        biosset(vec![attribute("name", "jp"), attribute("description", "Japan"), attribute("default", "no")]),
        machine_end(),
        biosset(vec![attribute("name", "after"), attribute("description", "Outside")]),
    ];
    let choices = bios_choices_from_events(&events, "pc").expect("choices");
    assert_eq!(choices.len(), 2);
    assert_eq!(choices[0].name, "us");
    assert_eq!(choices[0].description, "US BIOS");
    assert!(choices[0].is_default);
    assert_eq!(choices[1].name, "jp");
    assert!(!choices[1].is_default);
}

#[test]
fn bios_events_report_the_first_failure() {
    let bad_flag = vec![
        machine_start("pc"),
        biosset(vec![attribute("name", "us"), attribute("description", "US"), attribute("default", "maybe")]),
        biosset(vec![attribute("description", "no name")]),
    ];
    assert_eq!(
        bios_choices_from_events(&bad_flag, "pc").unwrap_err().code,
        "MAME_BIOS_METADATA_INVALID"
    );
    let missing_name = vec![machine_start("pc"), biosset(vec![attribute("description", "no name")])];
    assert_eq!(
        bios_choices_from_events(&missing_name, "pc").unwrap_err().code,
        "MAME_BIOS_REQUIRED_ATTRIBUTE_MISSING"
    );
    let bad_name = vec![machine_start("pc"), biosset(vec![attribute("name", "-x"), attribute("description", "d")])];
    assert_eq!(
        bios_choices_from_events(&bad_name, "pc").unwrap_err().code,
        "MAME_BIOS_IDENTIFIER_INVALID"
    );
    let bad_attributes = vec![
        machine_start("pc"),
        XmlEvent::Empty { name: "biosset".to_owned(), attributes: Err(XmlFault::AttributeMalformed) },
    ];
    assert_eq!(
        bios_choices_from_events(&bad_attributes, "pc").unwrap_err().code,
        "MAME_BIOS_XML_ATTRIBUTE_INVALID"
    );
    assert_eq!(
        bios_choices_from_events(&[], "pc").unwrap_err().code,
        "MAME_BIOS_MACHINE_MISMATCH"
    );
}
