use mame_frontend::audit::{parse_mame_audit_output, MameAuditClassification, RAW_EXCERPT_LIMIT};
use mame_frontend::audit_store::{
    audit_response, check_audit_machine_name, classification_token, decode_stored_audit,
    to_i64, MachineAuditResponse, StoredMachineAuditResult,
};

#[test]
fn classifies_confirmed_good_set_as_complete() {
    let result = parse_mame_audit_output(
        "romset pacman is good\n1 romsets found, 1 were OK.\n",
        "",
        Some(0),
    );

    assert_eq!(result.classification, MameAuditClassification::Complete);
    assert!(!result.facts.optional_missing);
    assert!(!result.facts.missing_required);
}

#[test]
fn preserves_optional_missing_as_best_available() {
    let result = parse_mame_audit_output(
        "pacman: optional.bin (1 bytes) - NOT FOUND BUT OPTIONAL\nromset pacman is best available\n1 romsets found, 1 were OK.\n",
        "",
        Some(0),
    );

    assert_eq!(result.classification, MameAuditClassification::BestAvailable);
    assert!(result.facts.optional_missing);
    assert!(!result.facts.missing_required);
}

#[test]
fn known_undumped_media_is_not_required_missing() {
    let result = parse_mame_audit_output(
        "pacman: mystery.bin (1 bytes) - NOT FOUND - NO GOOD DUMP KNOWN\nromset pacman is best available\n",
        "",
        Some(0),
    );

    assert_eq!(result.classification, MameAuditClassification::BestAvailable);
    assert!(result.facts.no_good_dump_known);
    assert!(!result.facts.missing_required);
}

#[test]
fn needs_redump_remains_best_available() {
    let result = parse_mame_audit_output(
        "pacman: suspect.bin (1 bytes) - NEEDS REDUMP\nromset pacman is best available\n",
        "",
        Some(0),
    );

    assert_eq!(result.classification, MameAuditClassification::BestAvailable);
    assert!(result.facts.needs_redump);
}

#[test]
fn classifies_required_missing_content() {
    let result = parse_mame_audit_output(
        "pacman: required.bin (1 bytes) - NOT FOUND\nromset pacman is bad\n",
        "1 romsets found, 0 were OK.\n",
        Some(2),
    );

    assert_eq!(result.classification, MameAuditClassification::MissingRequired);
    assert!(result.facts.missing_required);
}

#[test]
fn classifies_whole_set_not_found_as_required_missing() {
    let result = parse_mame_audit_output("", "romset \"pacman\" not found!\n", Some(2));

    assert_eq!(result.classification, MameAuditClassification::MissingRequired);
    assert!(result.facts.missing_required);
}

#[test]
fn classifies_bad_checksum_as_incorrect() {
    let result = parse_mame_audit_output(
        "pacman: bad.bin (1 bytes) - INCORRECT CHECKSUM:\nEXPECTED: CRC(00000000)\n   FOUND: CRC(11111111)\nromset pacman is bad\n",
        "",
        Some(2),
    );

    assert_eq!(result.classification, MameAuditClassification::Incorrect);
    assert!(result.facts.incorrect_checksum);
    assert!(!result.facts.missing_required);
}

#[test]
fn classifies_wrong_length_as_incorrect() {
    let result = parse_mame_audit_output(
        "pacman: bad.bin (1 bytes) - INCORRECT LENGTH: 2 bytes\nromset pacman is bad\n",
        "",
        Some(2),
    );

    assert_eq!(result.classification, MameAuditClassification::Incorrect);
    assert!(result.facts.incorrect_length);
}

#[test]
fn preserves_mixed_missing_and_incorrect_failure() {
    let result = parse_mame_audit_output(
        "pacman: missing.bin (1 bytes) - NOT FOUND\npacman: bad.bin (1 bytes) - INCORRECT LENGTH: 2 bytes\nromset pacman is bad\n",
        "",
        Some(2),
    );

    assert_eq!(result.classification, MameAuditClassification::MixedFailure);
    assert!(result.facts.missing_required);
    assert!(result.facts.incorrect_length);
}

#[test]
fn does_not_guess_from_exit_two_and_bad_summary_alone() {
    let result = parse_mame_audit_output("romset pacman is bad\n", "", Some(2));

    assert_eq!(result.classification, MameAuditClassification::Unknown);
}

#[test]
fn unknown_target_is_not_missing_content() {
    let result = parse_mame_audit_output(
        "",
        "No matching systems found for 'not-a-system'\n",
        Some(5),
    );

    assert_eq!(result.classification, MameAuditClassification::Unknown);
    assert!(result.facts.target_not_found);
    assert!(!result.facts.missing_required);
}

#[test]
fn contradictory_success_exit_and_bad_output_is_unknown() {
    let result = parse_mame_audit_output(
        "pacman: required.bin (1 bytes) - NOT FOUND\nromset pacman is bad\n",
        "",
        Some(0),
    );

    assert_eq!(result.classification, MameAuditClassification::Unknown);
}

#[test]
fn unrecognized_success_output_is_unknown() {
    let result = parse_mame_audit_output("unexpected output\n", "", Some(0));

    assert_eq!(result.classification, MameAuditClassification::Unknown);
}

#[test]
fn missing_process_exit_status_is_unknown() {
    let result = parse_mame_audit_output("romset pacman is good\n", "", None);

    assert_eq!(result.classification, MameAuditClassification::Unknown);
}

#[test]
fn raw_diagnostics_are_bounded_without_breaking_utf8() {
    let stdout = "é".repeat(RAW_EXCERPT_LIMIT);
    let result = parse_mame_audit_output(&stdout, "stderr detail", Some(0));

    assert!(result.raw_truncated);
    assert!(result.raw_excerpt.len() <= RAW_EXCERPT_LIMIT);
    assert!(result.raw_excerpt.is_char_boundary(result.raw_excerpt.len()));
}

#[test]
fn stored_result_maps_to_versioned_frontend_response() {
    let stored = StoredMachineAuditResult {
        machine_short_name: "pacman".to_owned(),
        result: parse_mame_audit_output("romset pacman is good\n", "", Some(0)),
        audited_at_epoch_ms: 1234,
    };
    let response = MachineAuditResponse::from(stored);
    assert_eq!(response.schema_version, 1);
    assert_eq!(response.machine_short_name, "pacman");
    assert_eq!(response.audited_at_epoch_ms, 1234);
}

#[test]
fn small_output_is_kept_whole() {
    let result = parse_mame_audit_output("romset pacman is good\n", "warn\n", Some(0));
    assert!(!result.raw_truncated);
    assert!(result.raw_excerpt.contains("romset pacman is good"));
    assert!(result.raw_excerpt.contains("warn"));
}

#[test]
fn stored_classification_must_agree_with_the_result() {
    let result = parse_mame_audit_output("romset pacman is good\n", "", Some(0));
    assert_eq!(classification_token(result.classification), "complete");
    let stored = decode_stored_audit("pacman", "complete", result.clone(), 7).expect("consistent row");
    assert_eq!(stored.audited_at_epoch_ms, 7);
    let error = decode_stored_audit("pacman", "unknown", result.clone(), 7).expect_err("inconsistent row");
    assert_eq!(error.code, "MAME_AUDIT_RESULT_INVALID");
    let error = decode_stored_audit("pacman", "complete", result, -1).expect_err("negative time");
    assert_eq!(error.code, "MAME_AUDIT_RESULT_INVALID");
    assert_eq!(audit_response(stored).schema_version, 1);
}

#[test]
fn audit_persistence_values_are_checked() {
    assert_eq!(to_i64(5, "x").expect("small value"), 5);
    assert_eq!(to_i64(u64::MAX, "x").expect_err("too large").code, "MAME_AUDIT_VALUE_OUT_OF_RANGE");
    assert!(check_audit_machine_name("pacman").is_ok());
    assert_eq!(check_audit_machine_name("  ").expect_err("blank").code, "MAME_AUDIT_MACHINE_EMPTY");
}
