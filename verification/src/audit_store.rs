//! Persisted per-machine audit results: what is stored, how it is read back and checked,
//! and the response the front end receives.

use vstd::prelude::*;

use crate::audit::{MameAuditClassification, MameAuditParseResult};
use crate::errors::{AppError, AppResult};
use crate::text::{chars_of, decimal_string, str_equal, trim};

verus! {

broadcast use vstd::string::group_string_axioms;

/// A stored audit result for one machine.
#[derive(Debug, Clone, PartialEq, Eq)]
pub struct StoredMachineAuditResult {
    pub machine_short_name: String,
    pub result: MameAuditParseResult,
    pub audited_at_epoch_ms: u64,
}

/// The audit result as the front end receives it.
#[derive(Debug, Clone, PartialEq, Eq)]
pub struct MachineAuditResponse {
    pub schema_version: u32,
    pub machine_short_name: String,
    pub result: MameAuditParseResult,
    pub audited_at_epoch_ms: u64,
}

impl From<StoredMachineAuditResult> for MachineAuditResponse {
    fn from(stored: StoredMachineAuditResult) -> (r: Self) {
        MachineAuditResponse {
            schema_version: 1,
            machine_short_name: stored.machine_short_name,
            result: stored.result,
            audited_at_epoch_ms: stored.audited_at_epoch_ms,
        }
    }
}

impl vstd::std_specs::convert::FromSpecImpl<StoredMachineAuditResult> for MachineAuditResponse {
    open spec fn obeys_from_spec() -> bool {
        true
    }

    open spec fn from_spec(stored: StoredMachineAuditResult) -> Self {
        MachineAuditResponse {
            schema_version: 1,
            machine_short_name: stored.machine_short_name,
            result: stored.result,
            audited_at_epoch_ms: stored.audited_at_epoch_ms,
        }
    }
}

/// The stable token stored beside a result for its classification.
pub open spec fn classification_name(c: MameAuditClassification) -> Seq<char> {
    match c {
        MameAuditClassification::Complete => "complete"@,
        MameAuditClassification::BestAvailable => "bestAvailable"@,
        MameAuditClassification::MissingRequired => "missingRequired"@,
        MameAuditClassification::Incorrect => "incorrect"@,
        MameAuditClassification::MixedFailure => "mixedFailure"@,
        MameAuditClassification::Unknown => "unknown"@,
    }
}

/// The stored token of a classification.
pub fn classification_token(classification: MameAuditClassification) -> (r: &'static str)
    ensures
        r@ == classification_name(classification),
{
    match classification {
        MameAuditClassification::Complete => "complete",
        MameAuditClassification::BestAvailable => "bestAvailable",
        MameAuditClassification::MissingRequired => "missingRequired",
        MameAuditClassification::Incorrect => "incorrect",
        MameAuditClassification::MixedFailure => "mixedFailure",
        MameAuditClassification::Unknown => "unknown",
    }
}

/// A value that SQLite's signed integers can hold.
pub fn to_i64(value: u64, field: &str) -> (r: AppResult<i64>)
    ensures
        r is Ok <==> value <= i64::MAX,
        r matches Ok(v) ==> v == value,
        r matches Err(e) ==> e.code@ == "MAME_AUDIT_VALUE_OUT_OF_RANGE"@,
{
    if value <= i64::MAX as u64 {
        Ok(value as i64)
    } else {
        Err(
            AppError::new(
                "MAME_AUDIT_VALUE_OUT_OF_RANGE",
                "A MAME audit persistence value cannot be represented by SQLite.",
            ).with_detail("field", field.to_owned()).with_detail("value", decimal_string(value)),
        )
    }
}

/// A result may be stored only under a machine name that is not blank.
pub fn check_audit_machine_name(machine_short_name: &str) -> (r: AppResult<()>)
    ensures
        r is Ok <==> trim(machine_short_name@).len() > 0,
        r matches Err(e) ==> e.code@ == "MAME_AUDIT_MACHINE_EMPTY"@,
{
    let chars = chars_of(machine_short_name);
    let trimmed = crate::text::trim_chars(chars.as_slice());
    if trimmed.len() == 0 {
        Err(
            AppError::new(
                "MAME_AUDIT_MACHINE_EMPTY",
                "The machine short name for an audit result cannot be empty.",
            ),
        )
    } else {
        Ok(())
    }
}

/// Check a stored row read back for a machine: the stored classification token must agree
/// with the decoded result, and the timestamp must not be negative.
pub fn decode_stored_audit(
    machine_short_name: &str,
    classification: &str,
    result: MameAuditParseResult,
    audited_at: i64,
) -> (r: AppResult<StoredMachineAuditResult>)
    ensures
        r is Ok <==> classification@ == classification_name(result.classification) && audited_at >= 0,
        r matches Ok(s) ==> s.machine_short_name@ == machine_short_name@ && s.result == result
            && s.audited_at_epoch_ms == audited_at,
        r matches Err(e) ==> e.code@ == "MAME_AUDIT_RESULT_INVALID"@,
{
    let expected = classification_token(result.classification);
    if !str_equal(classification, expected) {
        return Err(
            AppError::new(
                "MAME_AUDIT_RESULT_INVALID",
                "A persisted MAME audit result has inconsistent classification data.",
            ).with_detail("storedClassification", classification.to_owned()).with_detail(
                "decodedClassification",
                expected.to_owned(),
            ),
        );
    }
    if audited_at < 0 {
        return Err(
            AppError::new(
                "MAME_AUDIT_RESULT_INVALID",
                "A persisted MAME audit result has an invalid negative timestamp.",
            ),
        );
    }
    Ok(
        StoredMachineAuditResult {
            machine_short_name: machine_short_name.to_owned(),
            result,
            audited_at_epoch_ms: audited_at as u64,
        },
    )
}

/// The response for a stored result.
pub fn audit_response(stored: StoredMachineAuditResult) -> (r: MachineAuditResponse)
    ensures
        r.schema_version == 1,
        r.machine_short_name == stored.machine_short_name,
        r.result == stored.result,
        r.audited_at_epoch_ms == stored.audited_at_epoch_ms,
{
    MachineAuditResponse::from(stored)
}

/// A request naming the machine to audit.
#[derive(Debug, Clone, PartialEq, Eq)]
pub struct MachineAuditRequest {
    pub short_name: String,
}

} // verus!
