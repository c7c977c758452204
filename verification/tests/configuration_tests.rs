use mame_frontend::config::{
    decode_hex, encode_hex, path_error_status, settings_backup_path, settings_schema_for,
    IoFailureKind, PathValidationStatus, PathWire, PlatformPath, SettingsSchema, SettingsV2,
};
use mame_frontend::explain::{explain_launch_preferences, resolve_effective_launch_preferences};
use mame_frontend::precedence::{
    resolve_effective_value, ConfigurationAssignment, ConfigurationLayer, EffectiveConfigurationValue,
};
use mame_frontend::preferences::{
    is_fully_inherited, machine_launch_settings, resolve_effective_preferences, validated_short_name,
    AudioPreference, LaunchPreferencesV1, RendererPreference, WindowPreference,
};

fn assignment(layer: ConfigurationLayer, value: &str) -> ConfigurationAssignment<String> {
    ConfigurationAssignment::new(layer, value.to_owned())
}

fn general() -> LaunchPreferencesV1 {
    LaunchPreferencesV1 {
        window_mode: WindowPreference::Windowed,
        renderer: RendererPreference::Bgfx,
        audio: AudioPreference::Auto,
    }
}

#[test]
fn permission_errors_have_a_stable_validation_status() {
    assert_eq!(
        path_error_status(IoFailureKind::PermissionDenied),
        PathValidationStatus::PermissionDenied
    );
}

#[test]
fn precedence_order_is_explicit_and_stable() {
    assert_eq!(
        ConfigurationLayer::low_to_high(),
        [
            ConfigurationLayer::ApplicationDefaults,
            ConfigurationLayer::MameGlobalDefaults,
            ConfigurationLayer::ProfileDefaults,
            ConfigurationLayer::MachineOverrides,
            ConfigurationLayer::TransientLaunchOverrides,
        ]
    );
    assert_eq!(
        ConfigurationLayer::high_to_low(),
        [
            ConfigurationLayer::TransientLaunchOverrides,
            ConfigurationLayer::MachineOverrides,
            ConfigurationLayer::ProfileDefaults,
            ConfigurationLayer::MameGlobalDefaults,
            ConfigurationLayer::ApplicationDefaults,
        ]
    );
}

#[test]
fn highest_present_layer_wins_regardless_of_input_order() {
    let resolved = resolve_effective_value(vec![
        assignment(ConfigurationLayer::MachineOverrides, "machine"),
        assignment(ConfigurationLayer::ApplicationDefaults, "application"),
        assignment(ConfigurationLayer::TransientLaunchOverrides, "transient"),
        assignment(ConfigurationLayer::MameGlobalDefaults, "mame"),
        assignment(ConfigurationLayer::ProfileDefaults, "profile"),
    ])
    .expect("valid layered values must resolve");

    assert_eq!(
        resolved,
        Some(EffectiveConfigurationValue {
            value: "transient".to_owned(),
            source_layer: ConfigurationLayer::TransientLaunchOverrides,
        })
    );
}

#[test]
fn removing_higher_layers_reveals_the_next_value() {
    let resolved = resolve_effective_value(vec![
        assignment(ConfigurationLayer::ApplicationDefaults, "application"),
        assignment(ConfigurationLayer::MameGlobalDefaults, "mame"),
        assignment(ConfigurationLayer::ProfileDefaults, "profile"),
        assignment(ConfigurationLayer::MachineOverrides, "machine"),
    ])
    .expect("valid layered values must resolve");

    assert_eq!(
        resolved,
        Some(EffectiveConfigurationValue {
            value: "machine".to_owned(),
            source_layer: ConfigurationLayer::MachineOverrides,
        })
    );
}

#[test]
fn mame_global_defaults_override_application_defaults() {
    let resolved = resolve_effective_value(vec![
        assignment(ConfigurationLayer::ApplicationDefaults, "application"),
        assignment(ConfigurationLayer::MameGlobalDefaults, "mame"),
    ])
    .expect("valid layered values must resolve");

    assert_eq!(
        resolved,
        Some(EffectiveConfigurationValue {
            value: "mame".to_owned(),
            source_layer: ConfigurationLayer::MameGlobalDefaults,
        })
    );
}

#[test]
fn same_layer_duplicates_are_rejected_instead_of_becoming_order_dependent() {
    let error = resolve_effective_value(vec![
        assignment(ConfigurationLayer::ProfileDefaults, "first"),
        assignment(ConfigurationLayer::ProfileDefaults, "second"),
    ])
    .expect_err("duplicate values in one layer must be rejected");

    assert_eq!(error.code, "CONFIG_PRECEDENCE_CONFLICT");
    let layer = error
        .details
        .iter()
        .find(|detail| detail.key == "layer")
        .expect("layer detail");
    assert_eq!(layer.value, "profileDefaults");
}

#[test]
fn an_unset_option_has_no_effective_value() {
    let resolved = resolve_effective_value::<String>(vec![])
        .expect("an option absent from every layer is valid");
    assert_eq!(resolved, None);
}

#[test]
fn machine_override_explains_effective_value_and_source_layer() {
    let machine = LaunchPreferencesV1 {
        window_mode: WindowPreference::Fullscreen,
        renderer: RendererPreference::Inherit,
        audio: AudioPreference::Disabled,
    };

    let explanation = explain_launch_preferences(&general(), &machine, None)
        .expect("valid layered preferences must explain");
    assert_eq!(explanation.window_mode.effective_value, WindowPreference::Fullscreen);
    assert_eq!(explanation.window_mode.source_layer, ConfigurationLayer::MachineOverrides);
    assert_eq!(explanation.renderer.effective_value, RendererPreference::Bgfx);
    assert_eq!(explanation.renderer.source_layer, ConfigurationLayer::ProfileDefaults);
}

#[test]
fn transient_override_wins_and_is_explicitly_reported_as_pending() {
    let machine = LaunchPreferencesV1 {
        window_mode: WindowPreference::Fullscreen,
        renderer: RendererPreference::Inherit,
        audio: AudioPreference::Inherit,
    };
    let pending = LaunchPreferencesV1 {
        window_mode: WindowPreference::Windowed,
        renderer: RendererPreference::Software,
        audio: AudioPreference::Inherit,
    };

    let explanation = explain_launch_preferences(&general(), &machine, Some(&pending))
        .expect("pending preferences must explain");
    assert_eq!(explanation.window_mode.effective_value, WindowPreference::Windowed);
    assert_eq!(
        explanation.window_mode.source_layer,
        ConfigurationLayer::TransientLaunchOverrides
    );
    assert_eq!(
        explanation.window_mode.pending_launch_override,
        Some(WindowPreference::Windowed)
    );
    assert_eq!(
        explanation.renderer.pending_launch_override,
        Some(RendererPreference::Software)
    );
    assert_eq!(explanation.audio.pending_launch_override, None);
}

#[test]
fn all_inherited_values_explain_that_mame_global_configuration_owns_the_value() {
    let inherited = LaunchPreferencesV1::default();
    let explanation = explain_launch_preferences(&inherited, &inherited, None)
        .expect("inherited preferences must explain");

    assert_eq!(explanation.renderer.source_layer, ConfigurationLayer::MameGlobalDefaults);
    assert_eq!(explanation.renderer.effective_value, RendererPreference::Inherit);
    assert_eq!(explanation.renderer.pending_launch_override, None);
}

#[test]
fn effective_resolution_matches_the_explanation_winners() {
    let machine = LaunchPreferencesV1 {
        window_mode: WindowPreference::Fullscreen,
        renderer: RendererPreference::Inherit,
        audio: AudioPreference::Disabled,
    };
    let pending = LaunchPreferencesV1 {
        window_mode: WindowPreference::Inherit,
        renderer: RendererPreference::Software,
        audio: AudioPreference::Inherit,
    };

    assert_eq!(
        resolve_effective_launch_preferences(&general(), &machine, Some(&pending))
            .expect("effective preferences"),
        LaunchPreferencesV1 {
            window_mode: WindowPreference::Fullscreen,
            renderer: RendererPreference::Software,
            audio: AudioPreference::Disabled,
        }
    );
}

#[test]
fn effective_values_use_machine_override_then_general_setting() {
    let general = general();
    let overrides = LaunchPreferencesV1 {
        window_mode: WindowPreference::Fullscreen,
        renderer: RendererPreference::Inherit,
        audio: AudioPreference::Disabled,
    };

    assert_eq!(
        resolve_effective_preferences(&general, &overrides),
        LaunchPreferencesV1 {
            window_mode: WindowPreference::Fullscreen,
            renderer: RendererPreference::Bgfx,
            audio: AudioPreference::Disabled,
        }
    );
}

#[test]
fn fully_inherited_machine_settings_are_storage_empty() {
    assert!(is_fully_inherited(&LaunchPreferencesV1::default()));
    assert!(!is_fully_inherited(&LaunchPreferencesV1 {
        window_mode: WindowPreference::Inherit,
        renderer: RendererPreference::Auto,
        audio: AudioPreference::Inherit,
    }));
}

#[test]
fn machine_settings_report_overrides_and_effective_values() {
    let settings = machine_launch_settings("pacman".to_owned(), LaunchPreferencesV1::default(), &general());
    assert_eq!(settings.schema_version, 1);
    assert_eq!(settings.effective, general());
    assert_eq!(validated_short_name("  pacman ".to_owned()).expect("valid"), "pacman");
    assert_eq!(validated_short_name("Pac".to_owned()).expect_err("invalid").code, "MAME_IDENTIFIER_INVALID");
}

#[test]
fn hexadecimal_paths_round_trip() {
    let bytes = vec![0xff, 0x00, 0x2f, 0x61];
    let encoded = encode_hex(&bytes);
    assert_eq!(encoded, "ff002f61");
    assert_eq!(decode_hex(&encoded).expect("decodes"), bytes);
    assert_eq!(decode_hex("abc").unwrap_err(), "encoded path data must contain complete bytes");
    assert_eq!(
        decode_hex("zz").unwrap_err(),
        "encoded path data contains a non-hexadecimal character"
    );
    assert_eq!(decode_hex("FF").expect("upper case"), vec![0xff]);
}

#[test]
fn non_utf8_paths_use_the_encoded_wire_form() {
    let path = PlatformPath::new(vec![0x2f, 0xff]);
    match path.to_wire() {
        PathWire::Encoded { encoding, data } => {
            assert_eq!(encoding, "unixBytesHex");
            assert_eq!(data, "2fff");
        }
        PathWire::Utf8(_) => panic!("non-UTF-8 bytes must be encoded"),
    }
    let back = PlatformPath::from_wire(path.to_wire()).expect("round trip");
    assert_eq!(back.as_path(), path.as_path());
    let utf8 = PlatformPath::new(b"/roms".to_vec());
    assert_eq!(utf8.to_wire(), PathWire::Utf8("/roms".to_owned()));
    let error = PlatformPath::from_wire(PathWire::Encoded {
        encoding: "windowsWide".to_owned(),
        data: "00".to_owned(),
    })
    .unwrap_err();
    assert_eq!(error, "path encoding \"windowsWide\" is not supported on this platform");
}

#[test]
fn settings_schema_versions_are_explicit() {
    assert_eq!(settings_schema_for(Some(1)).expect("v1"), SettingsSchema::V1);
    assert_eq!(settings_schema_for(Some(2)).expect("v2"), SettingsSchema::V2);
    assert_eq!(
        settings_schema_for(Some(999)).expect_err("future").code,
        "CONFIG_SCHEMA_UNSUPPORTED"
    );
    assert_eq!(
        settings_schema_for(None).expect_err("missing").code,
        "CONFIG_SCHEMA_VERSION_MISSING"
    );
    let defaults = SettingsV2::default();
    assert_eq!(defaults.schema_version, 2);
    assert!(defaults.content_paths.rom_paths.is_empty());
}

#[test]
fn backup_path_appends_bak() {
    assert_eq!(settings_backup_path(b"/cfg/settings.json"), b"/cfg/settings.json.bak".to_vec());
}
