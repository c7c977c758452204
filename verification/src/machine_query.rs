//! The library's machine query against the active catalog generation: the limit check,
//! the statement texts and the parameters bound to them.

use vstd::prelude::*;

use crate::catalog_query::{like_escape, like_pattern};
use crate::errors::{AppError, AppResult};
use crate::library::{
    availability_filter_name, clone_filter_name, order_by_of, MachineAvailabilityQuery, MachineQuery,
};
use crate::text::{concat_strs, decimal, decimal_string};

verus! {

broadcast use vstd::string::group_string_axioms;

pub const MAX_QUERY_PAGE_SIZE: u32 = 200;

/// The join that attaches each machine's audit result for the executable and content
/// paths being queried.
pub const LIBRARY_AUDIT_JOIN: &'static str = "\nLEFT JOIN machine_audit_results ar\n  ON ar.machine_short_name = m.short_name\n AND ar.mame_identity_json = ?8\n AND ar.content_paths_json = ?9\n";

/// The conditions of a library query; every one but the generation is optional.
pub const QUERY_WHERE: &'static str = "\nm.generation_id = ?1\nAND (\n    ?2 IS NULL\n    OR m.short_name LIKE ?2 ESCAPE '\\' COLLATE NOCASE\n    OR m.description LIKE ?2 ESCAPE '\\' COLLATE NOCASE\n    OR m.manufacturer LIKE ?2 ESCAPE '\\' COLLATE NOCASE\n)\nAND (?3 IS NULL OR m.manufacturer = ?3 COLLATE NOCASE)\nAND (?4 IS NULL OR m.year = ?4)\nAND (?5 IS NULL OR m.driver_status = ?5)\nAND (\n    ?6 = 'all'\n    OR (?6 = 'parents' AND m.clone_of IS NULL)\n    OR (?6 = 'clones' AND m.clone_of IS NOT NULL)\n)\nAND (?7 = 1 OR m.is_device = 0)\nAND (\n    ?10 = 'all'\n    OR (?10 = 'available' AND ar.classification IN ('complete', 'bestAvailable'))\n    OR (?10 = 'missing' AND ar.classification IN ('missingRequired', 'incorrect', 'mixedFailure'))\n    OR (?10 = 'unknown' AND (ar.classification IS NULL OR ar.classification = 'unknown'))\n)\n";

pub const LIBRARY_PAGE_HEAD: &'static str = "SELECT\n                m.short_name,\n                m.description,\n                m.year,\n                m.manufacturer,\n                m.source_file,\n                m.clone_of,\n                m.runnable,\n                m.is_device,\n                m.driver_status,\n                CASE\n                    WHEN ar.classification IN ('complete', 'bestAvailable') THEN 'available'\n                    WHEN ar.classification IN ('missingRequired', 'incorrect', 'mixedFailure') THEN 'missing'\n                    ELSE 'unknown'\n                END AS availability,\n                (SELECT COUNT(*) FROM displays d\n                    WHERE d.generation_id = m.generation_id\n                      AND d.machine_short_name = m.short_name) AS display_count,\n                (SELECT COUNT(*) FROM machine_software_lists sl\n                    WHERE sl.generation_id = m.generation_id\n                      AND sl.machine_short_name = m.short_name) AS software_list_count\n            FROM machines m\n            ";

pub const LIBRARY_PAGE_TAIL: &'static str = "\n            LIMIT ?11 OFFSET ?12";

/// Everything a library query sends to the catalog: the two statements and the values
/// bound to their numbered parameters.
#[derive(Debug, Clone, PartialEq, Eq)]
pub struct LibraryQueryPlan {
    pub total_sql: String,
    pub page_sql: String,
    pub search_pattern: Option<String>,
    pub manufacturer: Option<String>,
    pub year: Option<String>,
    pub driver_status: Option<String>,
    pub clone_filter: &'static str,
    pub include_devices: i64,
    pub audit_identity_json: Option<String>,
    pub audit_content_paths_json: Option<String>,
    pub availability_filter: &'static str,
    pub limit: i64,
    pub offset: i64,
}

pub open spec fn total_sql_text() -> Seq<char> {
    "SELECT COUNT(*) FROM machines m "@ + LIBRARY_AUDIT_JOIN@ + " WHERE "@ + QUERY_WHERE@
}

pub open spec fn page_sql_text(q: MachineQuery) -> Seq<char> {
    LIBRARY_PAGE_HEAD@ + LIBRARY_AUDIT_JOIN@ + "\n            WHERE "@ + QUERY_WHERE@ + "\n            ORDER BY "@
        + order_by_of(q.sort) + LIBRARY_PAGE_TAIL@
}

/// The plan of a query: text searched anywhere (taken literally), exact filters, the
/// clone, device and availability selections, the audit identity that decides
/// availability, and the page.
pub open spec fn plan_of(q: MachineQuery, a: MachineAvailabilityQuery, p: LibraryQueryPlan) -> bool {
    &&& p.total_sql@ == total_sql_text()
    &&& p.page_sql@ == page_sql_text(q)
    &&& match q.text {
        Some(t) => p.search_pattern matches Some(s) && s@ == seq!['%'] + like_escape(t@) + seq!['%'],
        None => p.search_pattern is None,
    }
    &&& p.manufacturer == q.manufacturer && p.year == q.year && p.driver_status == q.driver_status
    &&& p.clone_filter@ == clone_filter_name(q.clone_filter)
    &&& p.include_devices == (if q.include_devices { 1i64 } else { 0i64 })
    &&& p.audit_identity_json == a.mame_identity_json
    &&& p.audit_content_paths_json == a.content_paths_json
    &&& p.availability_filter@ == availability_filter_name(a.filter)
    &&& p.limit == q.limit && p.offset == q.offset
}

fn copy_text(s: &Option<String>) -> (r: Option<String>)
    ensures
        r == *s,
{
    match s {
        Some(v) => Some(v.clone()),
        None => None,
    }
}

/// Plan a library query; the page size must be between 1 and the maximum.
pub fn library_query_plan(query: &MachineQuery, availability: &MachineAvailabilityQuery) -> (r: AppResult<
    LibraryQueryPlan,
>)
    ensures
        r is Ok <==> 1 <= query.limit <= MAX_QUERY_PAGE_SIZE,
        r matches Ok(p) ==> plan_of(*query, *availability, p),
        r matches Err(e) ==> {
            &&& e.code@ == "CATALOG_QUERY_LIMIT_INVALID"@
            &&& e.details@.len() == 2
            &&& e.details@[0].key@ == "limit"@ && e.details@[0].value@ == decimal(query.limit as nat)
            &&& e.details@[1].key@ == "maxLimit"@ && e.details@[1].value@ == decimal(
                MAX_QUERY_PAGE_SIZE as nat,
            )
        },
{
    if query.limit == 0 || query.limit > MAX_QUERY_PAGE_SIZE {
        return Err(
            AppError::new(
                "CATALOG_QUERY_LIMIT_INVALID",
                "Catalog query limit must be between 1 and 200.",
            ).with_detail("limit", decimal_string(query.limit as u64)).with_detail(
                "maxLimit",
                decimal_string(MAX_QUERY_PAGE_SIZE as u64),
            ),
        );
    }
    let search_pattern = match &query.text {
        Some(t) => Some(like_pattern(t.as_str())),
        None => None,
    };
    let t1 = concat_strs("SELECT COUNT(*) FROM machines m ", LIBRARY_AUDIT_JOIN);
    let t2 = concat_strs(t1.as_str(), " WHERE ");
    let total_sql = concat_strs(t2.as_str(), QUERY_WHERE);
    let p1 = concat_strs(LIBRARY_PAGE_HEAD, LIBRARY_AUDIT_JOIN);
    let p2 = concat_strs(p1.as_str(), "\n            WHERE ");
    let p3 = concat_strs(p2.as_str(), QUERY_WHERE);
    let p4 = concat_strs(p3.as_str(), "\n            ORDER BY ");
    let p5 = concat_strs(p4.as_str(), query.sort.order_by());
    let page_sql = concat_strs(p5.as_str(), LIBRARY_PAGE_TAIL);
    Ok(
        LibraryQueryPlan {
            total_sql,
            page_sql,
            search_pattern,
            manufacturer: copy_text(&query.manufacturer),
            year: copy_text(&query.year),
            driver_status: copy_text(&query.driver_status),
            clone_filter: query.clone_filter.as_token(),
            include_devices: if query.include_devices {
                1
            } else {
                0
            },
            audit_identity_json: copy_text(&availability.mame_identity_json),
            audit_content_paths_json: copy_text(&availability.content_paths_json),
            availability_filter: availability.filter.as_token(),
            limit: query.limit as i64,
            offset: query.offset as i64,
        },
    )
}

} // verus!
