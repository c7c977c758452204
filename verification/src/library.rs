//! The machine library: search requests and their validation, machine identifiers, the
//! executable a catalog generation may launch, and the catalog's stored tokens.

use vstd::prelude::*;

use crate::argv::identifier_chars;
use crate::bulk_audit::text_view;
use crate::errors::{AppError, AppResult};
use crate::executable::{
    MameExecutableIdentity, MameExecutableSource, MameExecutableSourceKind, MameExecutableTrust,
};
use crate::mame_ui::{normalize_optional, normalized, text_of};
use crate::text::{chars_of, str_equal, string_from, trim};

verus! {

broadcast use vstd::string::group_string_axioms;

pub const DEFAULT_PAGE_SIZE: u32 = 50;

pub const MAX_SEARCH_TEXT_LENGTH: usize = 256;

pub const MAX_FILTER_TEXT_LENGTH: usize = 128;

pub const MAX_YEAR_TEXT_LENGTH: usize = 32;

pub const MAX_MACHINE_SHORT_NAME_LENGTH: usize = 16;

/// Parent/clone selection as requested.
#[derive(Debug, Clone, Copy, PartialEq, Eq, Structural)]
pub enum CloneFilterRequest {
    All,
    ParentsOnly,
    ClonesOnly,
}

impl Default for CloneFilterRequest {
    fn default() -> (r: Self)
        ensures
            r == CloneFilterRequest::All,
    {
        CloneFilterRequest::All
    }
}

/// Sort order as requested.
#[derive(Debug, Clone, Copy, PartialEq, Eq, Structural)]
pub enum MachineSortRequest {
    DescriptionAsc,
    DescriptionDesc,
    ShortNameAsc,
    YearAsc,
    YearDesc,
    ManufacturerAsc,
    ManufacturerDesc,
}

impl Default for MachineSortRequest {
    fn default() -> (r: Self)
        ensures
            r == MachineSortRequest::DescriptionAsc,
    {
        MachineSortRequest::DescriptionAsc
    }
}

/// A library search as the front end sends it.
#[derive(Debug, Clone, PartialEq, Eq)]
pub struct MachineSearchRequest {
    pub text: Option<String>,
    pub manufacturer: Option<String>,
    pub year: Option<String>,
    pub driver_status: Option<String>,
    pub clone_filter: CloneFilterRequest,
    pub sort: MachineSortRequest,
    pub include_devices: bool,
    pub limit: u32,
    pub offset: u32,
}

#[derive(Debug, Clone, PartialEq, Eq)]
pub struct MachineDetailRequest {
    pub short_name: String,
}

#[derive(Debug, Clone, PartialEq, Eq)]
pub struct LaunchLibraryMachineRequest {
    pub short_name: String,
}

#[derive(Debug, Clone, PartialEq, Eq)]
pub struct SetLibraryFavoriteRequest {
    pub short_name: String,
    pub favorite: bool,
}

#[derive(Debug, Clone, PartialEq, Eq)]
pub struct FavoritePageRequest {
    pub limit: u32,
    pub offset: u32,
}

/// Parent/clone selection in the catalog.
#[derive(Debug, Clone, Copy, PartialEq, Eq, Structural)]
pub enum CloneFilter {
    All,
    ParentsOnly,
    ClonesOnly,
}

/// Sort order in the catalog.
#[derive(Debug, Clone, Copy, PartialEq, Eq, Structural)]
pub enum MachineSort {
    DescriptionAsc,
    DescriptionDesc,
    ShortNameAsc,
    YearAsc,
    YearDesc,
    ManufacturerAsc,
    ManufacturerDesc,
}

/// The `ORDER BY` terms of a sort.
pub open spec fn order_by_of(s: MachineSort) -> Seq<char> {
    match s {
        MachineSort::DescriptionAsc => "m.description COLLATE NOCASE ASC, m.short_name COLLATE NOCASE ASC"@,
        MachineSort::DescriptionDesc => "m.description COLLATE NOCASE DESC, m.short_name COLLATE NOCASE ASC"@,
        MachineSort::ShortNameAsc => "m.short_name COLLATE NOCASE ASC"@,
        MachineSort::YearAsc => "m.year IS NULL, m.year ASC, m.description COLLATE NOCASE ASC"@,
        MachineSort::YearDesc => "m.year IS NULL, m.year DESC, m.description COLLATE NOCASE ASC"@,
        MachineSort::ManufacturerAsc => "m.manufacturer IS NULL, m.manufacturer COLLATE NOCASE ASC, m.description COLLATE NOCASE ASC"@,
        MachineSort::ManufacturerDesc => "m.manufacturer IS NULL, m.manufacturer COLLATE NOCASE DESC, m.description COLLATE NOCASE ASC"@,
    }
}

impl MachineSort {
    /// The `ORDER BY` terms of this sort.
    pub fn order_by(self) -> (r: &'static str)
        ensures
            r@ == order_by_of(self),
    {
        match self {
            MachineSort::DescriptionAsc => "m.description COLLATE NOCASE ASC, m.short_name COLLATE NOCASE ASC",
            MachineSort::DescriptionDesc => "m.description COLLATE NOCASE DESC, m.short_name COLLATE NOCASE ASC",
            MachineSort::ShortNameAsc => "m.short_name COLLATE NOCASE ASC",
            MachineSort::YearAsc => "m.year IS NULL, m.year ASC, m.description COLLATE NOCASE ASC",
            MachineSort::YearDesc => "m.year IS NULL, m.year DESC, m.description COLLATE NOCASE ASC",
            MachineSort::ManufacturerAsc => "m.manufacturer IS NULL, m.manufacturer COLLATE NOCASE ASC, m.description COLLATE NOCASE ASC",
            MachineSort::ManufacturerDesc => "m.manufacturer IS NULL, m.manufacturer COLLATE NOCASE DESC, m.description COLLATE NOCASE ASC",
        }
    }
}

pub open spec fn clone_filter_name(f: CloneFilter) -> Seq<char> {
    match f {
        CloneFilter::All => "all"@,
        CloneFilter::ParentsOnly => "parents"@,
        CloneFilter::ClonesOnly => "clones"@,
    }
}

impl CloneFilter {
    /// The token of this selection in queries.
    pub fn as_token(self) -> (r: &'static str)
        ensures
            r@ == clone_filter_name(self),
    {
        match self {
            CloneFilter::All => "all",
            CloneFilter::ParentsOnly => "parents",
            CloneFilter::ClonesOnly => "clones",
        }
    }
}

/// Availability selection in the catalog.
#[derive(Debug, Clone, Copy, PartialEq, Eq, Structural)]
pub enum AvailabilityFilter {
    All,
    Available,
    Missing,
    Unknown,
}

pub open spec fn availability_filter_name(f: AvailabilityFilter) -> Seq<char> {
    match f {
        AvailabilityFilter::All => "all"@,
        AvailabilityFilter::Available => "available"@,
        AvailabilityFilter::Missing => "missing"@,
        AvailabilityFilter::Unknown => "unknown"@,
    }
}

impl AvailabilityFilter {
    /// The token of this selection in queries.
    pub fn as_token(self) -> (r: &'static str)
        ensures
            r@ == availability_filter_name(self),
    {
        match self {
            AvailabilityFilter::All => "all",
            AvailabilityFilter::Available => "available",
            AvailabilityFilter::Missing => "missing",
            AvailabilityFilter::Unknown => "unknown",
        }
    }
}

/// An availability selection with the audit provenance it is judged against, if any.
#[derive(Debug, Clone, PartialEq, Eq)]
pub struct MachineAvailabilityQuery {
    pub filter: AvailabilityFilter,
    pub mame_identity_json: Option<String>,
    pub content_paths_json: Option<String>,
}

impl MachineAvailabilityQuery {
    /// A selection with no provenance: no stored audit result counts.
    pub fn unverified(filter: AvailabilityFilter) -> (r: Self)
        ensures
            r.filter == filter && r.mame_identity_json is None && r.content_paths_json is None,
    {
        MachineAvailabilityQuery { filter, mame_identity_json: None, content_paths_json: None }
    }

    /// A selection judged against the current executable and content paths.
    pub fn current(filter: AvailabilityFilter, mame_identity_json: String, content_paths_json: String) -> (r:
        Self)
        ensures
            r.filter == filter,
            r.mame_identity_json == Some(mame_identity_json),
            r.content_paths_json == Some(content_paths_json),
    {
        MachineAvailabilityQuery {
            filter,
            mame_identity_json: Some(mame_identity_json),
            content_paths_json: Some(content_paths_json),
        }
    }
}

/// A validated library query.
#[derive(Debug, Clone, PartialEq, Eq)]
pub struct MachineQuery {
    pub text: Option<String>,
    pub manufacturer: Option<String>,
    pub year: Option<String>,
    pub driver_status: Option<String>,
    pub clone_filter: CloneFilter,
    pub sort: MachineSort,
    pub include_devices: bool,
    pub limit: u32,
    pub offset: u32,
}

pub open spec fn clone_filter_for(f: CloneFilterRequest) -> CloneFilter {
    match f {
        CloneFilterRequest::All => CloneFilter::All,
        CloneFilterRequest::ParentsOnly => CloneFilter::ParentsOnly,
        CloneFilterRequest::ClonesOnly => CloneFilter::ClonesOnly,
    }
}

pub open spec fn sort_for(s: MachineSortRequest) -> MachineSort {
    match s {
        MachineSortRequest::DescriptionAsc => MachineSort::DescriptionAsc,
        MachineSortRequest::DescriptionDesc => MachineSort::DescriptionDesc,
        MachineSortRequest::ShortNameAsc => MachineSort::ShortNameAsc,
        MachineSortRequest::YearAsc => MachineSort::YearAsc,
        MachineSortRequest::YearDesc => MachineSort::YearDesc,
        MachineSortRequest::ManufacturerAsc => MachineSort::ManufacturerAsc,
        MachineSortRequest::ManufacturerDesc => MachineSort::ManufacturerDesc,
    }
}

/// The driver statuses a search may filter on.
pub open spec fn supported_driver_status(s: Seq<char>) -> bool {
    s == "good"@ || s == "imperfect"@ || s == "preliminary"@
}

/// The page size used when a request names none.
pub fn default_page_size() -> (r: u32)
    ensures
        r == DEFAULT_PAGE_SIZE,
{
    DEFAULT_PAGE_SIZE
}

/// Validate a library search: fields are trimmed (blank means absent) and bounded, and a
/// driver status must be one MAME reports.
pub fn validated_query(request: MachineSearchRequest) -> (r: AppResult<MachineQuery>)
    ensures
        match r {
            Ok(q) => {
                &&& normalized(text_of(request.text), MAX_SEARCH_TEXT_LENGTH as nat) == Ok::<
                    Option<Seq<char>>,
                    (),
                >(text_of(q.text))
                &&& normalized(text_of(request.manufacturer), MAX_FILTER_TEXT_LENGTH as nat) == Ok::<
                    Option<Seq<char>>,
                    (),
                >(text_of(q.manufacturer))
                &&& normalized(text_of(request.year), MAX_YEAR_TEXT_LENGTH as nat) == Ok::<
                    Option<Seq<char>>,
                    (),
                >(text_of(q.year))
                &&& normalized(text_of(request.driver_status), MAX_FILTER_TEXT_LENGTH as nat) == Ok::<
                    Option<Seq<char>>,
                    (),
                >(text_of(q.driver_status))
                &&& q.driver_status matches Some(s) ==> supported_driver_status(s@)
                &&& q.clone_filter == clone_filter_for(request.clone_filter)
                &&& q.sort == sort_for(request.sort)
                &&& q.include_devices == request.include_devices
                &&& q.limit == request.limit && q.offset == request.offset
            },
            Err(e) => {
                ||| normalized(text_of(request.text), MAX_SEARCH_TEXT_LENGTH as nat) is Err
                ||| normalized(text_of(request.manufacturer), MAX_FILTER_TEXT_LENGTH as nat) is Err
                ||| normalized(text_of(request.year), MAX_YEAR_TEXT_LENGTH as nat) is Err
                ||| normalized(text_of(request.driver_status), MAX_FILTER_TEXT_LENGTH as nat) is Err
                ||| (normalized(text_of(request.driver_status), MAX_FILTER_TEXT_LENGTH as nat) matches Ok(
                    Some(s),
                ) && !supported_driver_status(s) && e.code@ == "CATALOG_QUERY_STATUS_INVALID"@)
            },
        },
{
    let text = normalize_optional(request.text, "text", MAX_SEARCH_TEXT_LENGTH)?;
    let manufacturer = normalize_optional(request.manufacturer, "manufacturer", MAX_FILTER_TEXT_LENGTH)?;
    let year = normalize_optional(request.year, "year", MAX_YEAR_TEXT_LENGTH)?;
    let driver_status = normalize_optional(request.driver_status, "driverStatus", MAX_FILTER_TEXT_LENGTH)?;
    match &driver_status {
        Some(status) => {
            let s = status.as_str();
            if !(str_equal(s, "good") || str_equal(s, "imperfect") || str_equal(s, "preliminary")) {
                return Err(
                    AppError::new(
                        "CATALOG_QUERY_STATUS_INVALID",
                        "The requested MAME driver status filter is not supported.",
                    ).with_detail("driverStatus", status.clone()),
                );
            }
        },
        None => {},
    }
    Ok(
        MachineQuery {
            text,
            manufacturer,
            year,
            driver_status,
            clone_filter: match request.clone_filter {
                CloneFilterRequest::All => CloneFilter::All,
                CloneFilterRequest::ParentsOnly => CloneFilter::ParentsOnly,
                CloneFilterRequest::ClonesOnly => CloneFilter::ClonesOnly,
            },
            sort: match request.sort {
                MachineSortRequest::DescriptionAsc => MachineSort::DescriptionAsc,
                MachineSortRequest::DescriptionDesc => MachineSort::DescriptionDesc,
                MachineSortRequest::ShortNameAsc => MachineSort::ShortNameAsc,
                MachineSortRequest::YearAsc => MachineSort::YearAsc,
                MachineSortRequest::YearDesc => MachineSort::YearDesc,
                MachineSortRequest::ManufacturerAsc => MachineSort::ManufacturerAsc,
                MachineSortRequest::ManufacturerDesc => MachineSort::ManufacturerDesc,
            },
            include_devices: request.include_devices,
            limit: request.limit,
            offset: request.offset,
        },
    )
}

/// A machine short name: after trimming, one to sixteen identifier characters.
pub open spec fn valid_machine_short_name(s: Seq<char>) -> bool {
    trim(s).len() > 0 && trim(s).len() <= MAX_MACHINE_SHORT_NAME_LENGTH && identifier_chars(trim(s))
}

/// Validate a machine short name from the front end and return it trimmed.
pub fn validate_machine_short_name(value: String) -> (r: AppResult<String>)
    ensures
        r is Ok <==> valid_machine_short_name(value@),
        r matches Ok(v) ==> v@ == trim(value@),
        r matches Err(e) ==> e.code@ == "CATALOG_MACHINE_IDENTIFIER_INVALID"@,
{
    let chars = chars_of(value.as_str());
    let trimmed = crate::text::trim_chars(chars.as_slice());
    let trimmed_text = string_from(trimmed.as_slice());
    let valid = trimmed.len() > 0 && trimmed.len() <= MAX_MACHINE_SHORT_NAME_LENGTH
        && crate::argv::all_identifier_chars(trimmed.as_slice());
    if !valid {
        return Err(
            AppError::new(
                "CATALOG_MACHINE_IDENTIFIER_INVALID",
                "The machine short name is not a valid MAME identifier.",
            ).with_detail("shortName", trimmed_text),
        );
    }
    Ok(trimmed_text)
}

/// What a catalog generation records of the executable that produced it.
#[derive(Debug, Clone, PartialEq, Eq)]
pub struct MetadataGenerationSummary {
    pub generation_id: i64,
    pub source_kind: String,
    pub trust: String,
    pub executable_path: String,
    pub mame_version: String,
    pub mame_build: Option<String>,
    pub raw_version_line: String,
    pub listxml_build: Option<String>,
    pub mame_config: Option<String>,
    pub generated_at_epoch_ms: u64,
    pub imported_at_epoch_ms: u64,
    pub machine_count: u64,
}

pub open spec fn source_kind_name(k: MameExecutableSourceKind) -> Seq<char> {
    match k {
        MameExecutableSourceKind::Bundled => "bundled"@,
        MameExecutableSourceKind::External => "external"@,
        MameExecutableSourceKind::DevelopmentTree => "developmentTree"@,
    }
}

pub open spec fn trust_name(t: MameExecutableTrust) -> Seq<char> {
    match t {
        MameExecutableTrust::QualifiedBundled => "qualifiedBundled"@,
        MameExecutableTrust::UserConfigured => "userConfigured"@,
        MameExecutableTrust::Development => "development"@,
    }
}

/// The stored token of a source kind.
pub fn source_kind_token(source: MameExecutableSourceKind) -> (r: &'static str)
    ensures
        r@ == source_kind_name(source),
{
    match source {
        MameExecutableSourceKind::Bundled => "bundled",
        MameExecutableSourceKind::External => "external",
        MameExecutableSourceKind::DevelopmentTree => "developmentTree",
    }
}

/// The stored token of a trust level.
pub fn trust_token(trust: MameExecutableTrust) -> (r: &'static str)
    ensures
        r@ == trust_name(trust),
{
    match trust {
        MameExecutableTrust::QualifiedBundled => "qualifiedBundled",
        MameExecutableTrust::UserConfigured => "userConfigured",
        MameExecutableTrust::Development => "development",
    }
}

/// A stored boolean.
pub fn bool_i64(value: bool) -> (r: i64)
    ensures
        r == if value {
            1i64
        } else {
            0i64
        },
{
    if value {
        1
    } else {
        0
    }
}

/// The executable a generation may launch. Only an external or development executable,
/// with its matching trust, can be taken from the catalog; a bundled one must be resolved
/// from the package, and any other pairing is refused.
pub fn launch_source_from_generation(generation: &MetadataGenerationSummary) -> (r: AppResult<
    MameExecutableSource,
>)
    ensures
        (generation.source_kind@ == "external"@ && generation.trust@ == "userConfigured"@) ==> (r matches Ok(
            s,
        ) && s.spec_kind() == MameExecutableSourceKind::External && s.spec_path()
            == generation.executable_path@),
        (generation.source_kind@ == "developmentTree"@ && generation.trust@ == "development"@) ==> (r matches Ok(
            s,
        ) && s.spec_kind() == MameExecutableSourceKind::DevelopmentTree && s.spec_path()
            == generation.executable_path@),
        (generation.source_kind@ == "bundled"@ && generation.trust@ == "qualifiedBundled"@) ==> (r matches Err(
            e,
        ) && e.code@ == "CATALOG_BUNDLED_EXECUTABLE_RESOLUTION_REQUIRED"@),
        !((generation.source_kind@ == "external"@ && generation.trust@ == "userConfigured"@) || (
        generation.source_kind@ == "developmentTree"@ && generation.trust@ == "development"@) || (
        generation.source_kind@ == "bundled"@ && generation.trust@ == "qualifiedBundled"@)) ==> (r matches Err(
            e,
        ) && e.code@ == "CATALOG_EXECUTABLE_PROVENANCE_INVALID"@),
{
    let kind = generation.source_kind.as_str();
    let trust = generation.trust.as_str();
    proof {
        reveal_strlit("external");
        reveal_strlit("developmentTree");
        reveal_strlit("bundled");
        reveal_strlit("userConfigured");
        reveal_strlit("development");
        reveal_strlit("qualifiedBundled");
        assert("external"@.len() != "developmentTree"@.len());
        assert("external"@.len() != "bundled"@.len());
        assert("developmentTree"@.len() != "bundled"@.len());
        assert("userConfigured"@.len() != "development"@.len());
        assert("userConfigured"@.len() != "qualifiedBundled"@.len());
        assert("development"@.len() != "qualifiedBundled"@.len());
    }
    if str_equal(kind, "external") && str_equal(trust, "userConfigured") {
        Ok(MameExecutableSource::external(generation.executable_path.clone()))
    } else if str_equal(kind, "developmentTree") && str_equal(trust, "development") {
        Ok(MameExecutableSource::development_tree(generation.executable_path.clone()))
    } else if str_equal(kind, "bundled") && str_equal(trust, "qualifiedBundled") {
        Err(
            AppError::new(
                "CATALOG_BUNDLED_EXECUTABLE_RESOLUTION_REQUIRED",
                "Bundled MAME launch requires package-owned executable resolution.",
            ),
        )
    } else {
        Err(
            AppError::new(
                "CATALOG_EXECUTABLE_PROVENANCE_INVALID",
                "The active catalog has an invalid executable source/trust pairing.",
            ).with_detail("sourceKind", generation.source_kind.clone()).with_detail(
                "trust",
                generation.trust.clone(),
            ),
        )
    }
}

fn optional_text_equal(a: &Option<String>, b: &Option<String>) -> (r: bool)
    ensures
        r == (text_view(*a) == text_view(*b)),
{
    match (a, b) {
        (Some(x), Some(y)) => str_equal(x.as_str(), y.as_str()),
        (None, None) => true,
        _ => false,
    }
}

/// A generation was produced by this executable: same path, version, build and version
/// line.
pub open spec fn generation_matches(g: MetadataGenerationSummary, i: MameExecutableIdentity) -> bool {
    &&& g.executable_path@ == i.path@
    &&& g.mame_version@ == i.version@
    &&& text_view(g.mame_build) == text_view(i.build)
    &&& g.raw_version_line@ == i.raw_version_line@
}

/// Whether a generation was produced by the given executable.
pub fn generation_matches_identity(generation: &MetadataGenerationSummary, identity: &MameExecutableIdentity) -> (r:
    bool)
    ensures
        r == generation_matches(*generation, *identity),
{
    str_equal(generation.executable_path.as_str(), identity.path.as_str()) && str_equal(
        generation.mame_version.as_str(),
        identity.version.as_str(),
    ) && optional_text_equal(&generation.mame_build, &identity.build) && str_equal(
        generation.raw_version_line.as_str(),
        identity.raw_version_line.as_str(),
    )
}

/// A launch or audit may use the catalog only when it was produced by the executable that
/// will run; otherwise the catalog is stale.
pub fn ensure_generation_matches_executable(
    generation: &MetadataGenerationSummary,
    identity: &MameExecutableIdentity,
) -> (r: AppResult<()>)
    ensures
        r is Ok <==> generation_matches(*generation, *identity),
        r matches Err(e) ==> e.code@ == "MAME_METADATA_STALE"@,
{
    if generation_matches_identity(generation, identity) {
        return Ok(());
    }
    Err(
        AppError::new(
            "MAME_METADATA_STALE",
            "The selected MAME executable no longer matches the active metadata generation.",
        ).with_detail("catalogPath", generation.executable_path.clone()).with_detail(
            "catalogVersion",
            generation.mame_version.clone(),
        ).with_detail("currentPath", identity.path.clone()).with_detail(
            "currentVersion",
            identity.version.clone(),
        ),
    )
}

} // verus!
