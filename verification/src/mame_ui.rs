//! The MAME-style machine browser: filters, request validation, the catalog query it runs,
//! and the conversion of result rows.

use vstd::prelude::*;

use crate::errors::{AppError, AppResult};
use crate::text::{chars_of, decimal_string, str_equal, string_from, trim};

verus! {

broadcast use vstd::string::group_string_axioms;

pub const DEFAULT_PAGE_SIZE: u32 = 100;

pub const MAX_SEARCH_TEXT_LENGTH: usize = 256;

pub const MAX_FILTER_VALUE_LENGTH: usize = 256;

pub const MAX_MAME_UI_PAGE_SIZE: u32 = 200;

/// A filter as the front end names it.
#[derive(Debug, Clone, Copy, PartialEq, Eq, Structural)]
pub enum MameUiMachineFilterRequest {
    All,
    Available,
    Unavailable,
    Working,
    NotWorking,
    Mechanical,
    NotMechanical,
    Favorites,
    Bios,
    NotBios,
    Parents,
    Clones,
    Manufacturer,
    Year,
    SourceFile,
    SaveSupported,
    SaveUnsupported,
    VerticalScreen,
    HorizontalScreen,
}

impl Default for MameUiMachineFilterRequest {
    fn default() -> (r: Self)
        ensures
            r == MameUiMachineFilterRequest::All,
    {
        MameUiMachineFilterRequest::All
    }
}

/// A filter as the catalog applies it.
#[derive(Debug, Clone, Copy, PartialEq, Eq, Structural)]
pub enum MameUiMachineFilter {
    All,
    Available,
    Unavailable,
    Working,
    NotWorking,
    Mechanical,
    NotMechanical,
    Favorites,
    Bios,
    NotBios,
    Parents,
    Clones,
    Manufacturer,
    Year,
    SourceFile,
    SaveSupported,
    SaveUnsupported,
    VerticalScreen,
    HorizontalScreen,
}

/// The catalog filter for each requested filter: the same name on both sides.
pub open spec fn filter_for(f: MameUiMachineFilterRequest) -> MameUiMachineFilter {
    match f {
        MameUiMachineFilterRequest::All => MameUiMachineFilter::All,
        MameUiMachineFilterRequest::Available => MameUiMachineFilter::Available,
        MameUiMachineFilterRequest::Unavailable => MameUiMachineFilter::Unavailable,
        MameUiMachineFilterRequest::Working => MameUiMachineFilter::Working,
        MameUiMachineFilterRequest::NotWorking => MameUiMachineFilter::NotWorking,
        MameUiMachineFilterRequest::Mechanical => MameUiMachineFilter::Mechanical,
        MameUiMachineFilterRequest::NotMechanical => MameUiMachineFilter::NotMechanical,
        MameUiMachineFilterRequest::Favorites => MameUiMachineFilter::Favorites,
        MameUiMachineFilterRequest::Bios => MameUiMachineFilter::Bios,
        MameUiMachineFilterRequest::NotBios => MameUiMachineFilter::NotBios,
        MameUiMachineFilterRequest::Parents => MameUiMachineFilter::Parents,
        MameUiMachineFilterRequest::Clones => MameUiMachineFilter::Clones,
        MameUiMachineFilterRequest::Manufacturer => MameUiMachineFilter::Manufacturer,
        MameUiMachineFilterRequest::Year => MameUiMachineFilter::Year,
        MameUiMachineFilterRequest::SourceFile => MameUiMachineFilter::SourceFile,
        MameUiMachineFilterRequest::SaveSupported => MameUiMachineFilter::SaveSupported,
        MameUiMachineFilterRequest::SaveUnsupported => MameUiMachineFilter::SaveUnsupported,
        MameUiMachineFilterRequest::VerticalScreen => MameUiMachineFilter::VerticalScreen,
        MameUiMachineFilterRequest::HorizontalScreen => MameUiMachineFilter::HorizontalScreen,
    }
}

/// The catalog filter for a requested filter.
pub fn map_filter(filter: MameUiMachineFilterRequest) -> (r: MameUiMachineFilter)
    ensures
        r == filter_for(filter),
{
    match filter {
        MameUiMachineFilterRequest::All => MameUiMachineFilter::All,
        MameUiMachineFilterRequest::Available => MameUiMachineFilter::Available,
        MameUiMachineFilterRequest::Unavailable => MameUiMachineFilter::Unavailable,
        MameUiMachineFilterRequest::Working => MameUiMachineFilter::Working,
        MameUiMachineFilterRequest::NotWorking => MameUiMachineFilter::NotWorking,
        MameUiMachineFilterRequest::Mechanical => MameUiMachineFilter::Mechanical,
        MameUiMachineFilterRequest::NotMechanical => MameUiMachineFilter::NotMechanical,
        MameUiMachineFilterRequest::Favorites => MameUiMachineFilter::Favorites,
        MameUiMachineFilterRequest::Bios => MameUiMachineFilter::Bios,
        MameUiMachineFilterRequest::NotBios => MameUiMachineFilter::NotBios,
        MameUiMachineFilterRequest::Parents => MameUiMachineFilter::Parents,
        MameUiMachineFilterRequest::Clones => MameUiMachineFilter::Clones,
        MameUiMachineFilterRequest::Manufacturer => MameUiMachineFilter::Manufacturer,
        MameUiMachineFilterRequest::Year => MameUiMachineFilter::Year,
        MameUiMachineFilterRequest::SourceFile => MameUiMachineFilter::SourceFile,
        MameUiMachineFilterRequest::SaveSupported => MameUiMachineFilter::SaveSupported,
        MameUiMachineFilterRequest::SaveUnsupported => MameUiMachineFilter::SaveUnsupported,
        MameUiMachineFilterRequest::VerticalScreen => MameUiMachineFilter::VerticalScreen,
        MameUiMachineFilterRequest::HorizontalScreen => MameUiMachineFilter::HorizontalScreen,
    }
}

/// Requested filters map one to one onto catalog filters: distinct requests give distinct
/// filters, and every catalog filter is reachable.
pub proof fn law_filter_mapping_is_one_to_one(a: MameUiMachineFilterRequest, b: MameUiMachineFilterRequest, f: MameUiMachineFilter)
    ensures
        filter_for(a) == filter_for(b) ==> a == b,
        exists|r: MameUiMachineFilterRequest| filter_for(r) == f,
{
    let r = match f {
        MameUiMachineFilter::All => MameUiMachineFilterRequest::All,
        MameUiMachineFilter::Available => MameUiMachineFilterRequest::Available,
        MameUiMachineFilter::Unavailable => MameUiMachineFilterRequest::Unavailable,
        MameUiMachineFilter::Working => MameUiMachineFilterRequest::Working,
        MameUiMachineFilter::NotWorking => MameUiMachineFilterRequest::NotWorking,
        MameUiMachineFilter::Mechanical => MameUiMachineFilterRequest::Mechanical,
        MameUiMachineFilter::NotMechanical => MameUiMachineFilterRequest::NotMechanical,
        MameUiMachineFilter::Favorites => MameUiMachineFilterRequest::Favorites,
        MameUiMachineFilter::Bios => MameUiMachineFilterRequest::Bios,
        MameUiMachineFilter::NotBios => MameUiMachineFilterRequest::NotBios,
        MameUiMachineFilter::Parents => MameUiMachineFilterRequest::Parents,
        MameUiMachineFilter::Clones => MameUiMachineFilterRequest::Clones,
        MameUiMachineFilter::Manufacturer => MameUiMachineFilterRequest::Manufacturer,
        MameUiMachineFilter::Year => MameUiMachineFilterRequest::Year,
        MameUiMachineFilter::SourceFile => MameUiMachineFilterRequest::SourceFile,
        MameUiMachineFilter::SaveSupported => MameUiMachineFilterRequest::SaveSupported,
        MameUiMachineFilter::SaveUnsupported => MameUiMachineFilterRequest::SaveUnsupported,
        MameUiMachineFilter::VerticalScreen => MameUiMachineFilterRequest::VerticalScreen,
        MameUiMachineFilter::HorizontalScreen => MameUiMachineFilterRequest::HorizontalScreen,
    };
    assert(filter_for(r) == f);
}

/// Filters that compare against a user-supplied value.
pub open spec fn needs_value(f: MameUiMachineFilter) -> bool {
    f == MameUiMachineFilter::Manufacturer || f == MameUiMachineFilter::Year || f
        == MameUiMachineFilter::SourceFile
}

/// A browser search as the front end sends it.
#[derive(Debug, Clone, PartialEq, Eq)]
pub struct MameUiMachineSearchRequest {
    pub text: Option<String>,
    pub filter: MameUiMachineFilterRequest,
    pub filter_value: Option<String>,
    pub preferred_machine: Option<String>,
    pub limit: u32,
    pub offset: u32,
}

/// A validated browser query.
#[derive(Debug, Clone, PartialEq, Eq)]
pub struct MameUiMachineQuery {
    pub text: Option<String>,
    pub filter: MameUiMachineFilter,
    pub filter_value: Option<String>,
    pub preferred_machine: Option<String>,
    pub limit: u32,
    pub offset: u32,
    pub audit_identity_json: Option<String>,
    pub audit_content_paths_json: Option<String>,
}

/// The page size used when a request names none.
pub fn default_page_size() -> (r: u32)
    ensures
        r == DEFAULT_PAGE_SIZE,
{
    DEFAULT_PAGE_SIZE
}

/// The trimmed text of an optional field, `None` when absent or blank, or the length error.
pub open spec fn normalized(value: Option<Seq<char>>, max_length: nat) -> Result<Option<Seq<char>>, ()> {
    match value {
        None => Ok(None),
        Some(v) => if trim(v).len() == 0 {
            Ok(None)
        } else if trim(v).len() > max_length {
            Err(())
        } else {
            Ok(Some(trim(v)))
        },
    }
}

pub open spec fn text_of(o: Option<String>) -> Option<Seq<char>> {
    match o {
        Some(s) => Some(s@),
        None => None,
    }
}

/// Trim an optional field; blank means absent; longer than the bound is an error.
pub fn normalize_optional(value: Option<String>, field: &str, max_length: usize) -> (r: AppResult<
    Option<String>,
>)
    ensures
        match r {
            Ok(v) => normalized(text_of(value), max_length as nat) == Ok::<Option<Seq<char>>, ()>(
                text_of(v),
            ),
            Err(e) => normalized(text_of(value), max_length as nat) == Err::<Option<Seq<char>>, ()>(())
                && e.code@ == "CATALOG_QUERY_TEXT_TOO_LONG"@,
        },
{
    let value = match value {
        None => return Ok(None),
        Some(v) => v,
    };
    let chars = chars_of(value.as_str());
    let trimmed = crate::text::trim_chars(chars.as_slice());
    if trimmed.len() == 0 {
        return Ok(None);
    }
    if trimmed.len() > max_length {
        return Err(
            AppError::new(
                "CATALOG_QUERY_TEXT_TOO_LONG",
                "A MAME UI query field exceeds the supported length.",
            ).with_detail("field", field.to_owned()).with_detail(
                "maxLength",
                decimal_string(max_length as u64),
            ),
        );
    }
    Ok(Some(string_from(trimmed.as_slice())))
}

/// Validate a browser search. The audit provenance, when the current executable could be
/// resolved, is passed in as its two serialized parts.
pub fn validated_query(
    request: MameUiMachineSearchRequest,
    audit_identity_json: Option<String>,
    audit_content_paths_json: Option<String>,
) -> (r: AppResult<MameUiMachineQuery>)
    ensures
        normalized(text_of(request.text), MAX_SEARCH_TEXT_LENGTH as nat) is Err ==> r is Err,
        match r {
            Ok(q) => {
                &&& normalized(text_of(request.text), MAX_SEARCH_TEXT_LENGTH as nat) == Ok::<
                    Option<Seq<char>>,
                    (),
                >(text_of(q.text))
                &&& normalized(text_of(request.filter_value), MAX_FILTER_VALUE_LENGTH as nat) == Ok::<
                    Option<Seq<char>>,
                    (),
                >(text_of(q.filter_value))
                &&& q.filter == filter_for(request.filter)
                &&& needs_value(q.filter) ==> q.filter_value is Some
                &&& q.preferred_machine == request.preferred_machine
                &&& q.limit == request.limit && q.offset == request.offset
                &&& q.audit_identity_json == audit_identity_json
                &&& q.audit_content_paths_json == audit_content_paths_json
            },
            Err(e) => normalized(text_of(request.text), MAX_SEARCH_TEXT_LENGTH as nat) is Err || normalized(
                text_of(request.filter_value),
                MAX_FILTER_VALUE_LENGTH as nat,
            ) is Err || (needs_value(filter_for(request.filter)) && normalized(
                text_of(request.filter_value),
                MAX_FILTER_VALUE_LENGTH as nat,
            ) == Ok::<Option<Seq<char>>, ()>(None) && e.code@ == "MAME_UI_FILTER_VALUE_REQUIRED"@),
        },
{
    let text = normalize_optional(request.text, "text", MAX_SEARCH_TEXT_LENGTH)?;
    let filter_value = normalize_optional(request.filter_value, "filterValue", MAX_FILTER_VALUE_LENGTH)?;
    let filter = map_filter(request.filter);
    let value_needed = filter == MameUiMachineFilter::Manufacturer || filter == MameUiMachineFilter::Year
        || filter == MameUiMachineFilter::SourceFile;
    if value_needed && filter_value.is_none() {
        return Err(
            AppError::new(
                "MAME_UI_FILTER_VALUE_REQUIRED",
                "The selected MAME UI filter requires a value.",
            ),
        );
    }
    Ok(
        MameUiMachineQuery {
            text,
            filter,
            filter_value,
            preferred_machine: request.preferred_machine,
            limit: request.limit,
            offset: request.offset,
            audit_identity_json,
            audit_content_paths_json,
        },
    )
}

/// The error codes that mean the current executable cannot vouch for stored audit results;
/// the browser then shows availability as unknown rather than failing.
pub open spec fn provenance_unavailable_code(code: Seq<char>) -> bool {
    ||| code == "CATALOG_BUNDLED_EXECUTABLE_RESOLUTION_REQUIRED"@
    ||| code == "MAME_METADATA_STALE"@
    ||| code == "MAME_EXECUTABLE_PATH_EMPTY"@
    ||| code == "MAME_EXECUTABLE_NOT_FOUND"@
    ||| code == "MAME_EXECUTABLE_PATH_INVALID"@
    ||| code == "MAME_EXECUTABLE_METADATA_FAILED"@
    ||| code == "MAME_EXECUTABLE_NOT_FILE"@
    ||| code == "MAME_EXECUTABLE_NOT_EXECUTABLE"@
    ||| code == "MAME_EXECUTABLE_LAUNCH_FAILED"@
    ||| code == "MAME_VERSION_UNRECOGNIZED"@
    ||| code == "MAME_VERSION_PROBE_WAIT_FAILED"@
    ||| code == "MAME_VERSION_PROBE_TIMEOUT"@
    ||| code == "MAME_VERSION_PROBE_OUTPUT_FAILED"@
    ||| code == "MAME_VERSION_PROBE_FAILED"@
}

/// Whether an error from resolving the audit context only means availability is unknown.
pub fn availability_provenance_unavailable(error: &AppError) -> (r: bool)
    ensures
        r == provenance_unavailable_code(error.code@),
{
    let c = error.code.as_str();
    str_equal(c, "CATALOG_BUNDLED_EXECUTABLE_RESOLUTION_REQUIRED") || str_equal(c, "MAME_METADATA_STALE")
        || str_equal(c, "MAME_EXECUTABLE_PATH_EMPTY") || str_equal(c, "MAME_EXECUTABLE_NOT_FOUND")
        || str_equal(c, "MAME_EXECUTABLE_PATH_INVALID") || str_equal(c, "MAME_EXECUTABLE_METADATA_FAILED")
        || str_equal(c, "MAME_EXECUTABLE_NOT_FILE") || str_equal(c, "MAME_EXECUTABLE_NOT_EXECUTABLE")
        || str_equal(c, "MAME_EXECUTABLE_LAUNCH_FAILED") || str_equal(c, "MAME_VERSION_UNRECOGNIZED")
        || str_equal(c, "MAME_VERSION_PROBE_WAIT_FAILED") || str_equal(c, "MAME_VERSION_PROBE_TIMEOUT")
        || str_equal(c, "MAME_VERSION_PROBE_OUTPUT_FAILED") || str_equal(c, "MAME_VERSION_PROBE_FAILED")
}

} // verus!
