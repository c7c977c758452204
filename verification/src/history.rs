//! Recent-launch history: the retention bound kept before each new entry, the checks on
//! stored history rows and the pages the front end reads.

use vstd::prelude::*;

use crate::catalog_query::MachineListItem;
use crate::errors::{AppError, AppResult};
use crate::text::{decimal, decimal_string, signed_decimal_string};

verus! {

broadcast use vstd::string::group_string_axioms;

/// At most this many launches are kept.
pub const HISTORY_RETENTION_LIMIT: u32 = 500;

pub const MAX_HISTORY_PAGE_SIZE: u32 = 200;

pub const DEFAULT_HISTORY_PAGE_SIZE: u32 = 50;

#[derive(Debug, Clone, PartialEq, Eq)]
pub struct RecentHistoryPageRequest {
    pub limit: u32,
    pub offset: u32,
}

impl Default for RecentHistoryPageRequest {
    fn default() -> (r: Self)
        ensures
            r.limit == DEFAULT_HISTORY_PAGE_SIZE,
            r.offset == 0,
    {
        RecentHistoryPageRequest { limit: DEFAULT_HISTORY_PAGE_SIZE, offset: 0 }
    }
}

#[derive(Debug, Clone, PartialEq, Eq)]
pub struct RecentHistoryEntry {
    pub id: i64,
    pub machine_short_name: String,
    pub software_item: Option<String>,
    pub launched_at_epoch_ms: u64,
    pub succeeded: Option<bool>,
    pub machine: Option<MachineListItem>,
}

#[derive(Debug, Clone, PartialEq, Eq)]
pub struct RecentHistoryPage {
    pub schema_version: u32,
    pub total: u64,
    pub offset: u32,
    pub limit: u32,
    pub retention_limit: u32,
    pub items: Vec<RecentHistoryEntry>,
}

/// A history row joined with its machine in the active generation, if it is there.
#[derive(Debug, Clone, PartialEq, Eq)]
pub struct StoredHistory {
    pub id: i64,
    pub machine_short_name: String,
    pub software_item: Option<String>,
    pub launched_at_epoch_ms: i64,
    pub succeeded: Option<i64>,
    pub active_machine_short_name: Option<String>,
    pub description: Option<String>,
    pub year: Option<String>,
    pub manufacturer: Option<String>,
    pub source_file: Option<String>,
    pub clone_of: Option<String>,
    pub runnable: Option<i64>,
    pub is_device: Option<i64>,
    pub driver_status: Option<String>,
    pub display_count: i64,
    pub software_list_count: i64,
}

/// How many of the newest entries are kept before one more is inserted.
pub fn history_keep_before_insert() -> (r: i64)
    ensures
        r == HISTORY_RETENTION_LIMIT - 1,
{
    (HISTORY_RETENTION_LIMIT - 1) as i64
}

/// The number of entries after pruning `len` entries to the newest ones kept and
/// inserting one.
pub open spec fn count_after_insert(len: nat) -> nat {
    (if len < HISTORY_RETENTION_LIMIT - 1 {
        len
    } else {
        (HISTORY_RETENTION_LIMIT - 1) as nat
    }) + 1
}

/// However many launches came before, the history never holds more than the retention
/// limit, and it grows by one until it reaches it.
pub proof fn law_history_retention_bound(len: nat)
    ensures
        count_after_insert(len) <= HISTORY_RETENTION_LIMIT,
        len < HISTORY_RETENTION_LIMIT ==> count_after_insert(len) == len + 1,
{
}

pub open spec fn is_data_error(e: AppError) -> bool {
    e.code@ == "CATALOG_HISTORY_DATA_INVALID"@
}

/// The stored launch time of a new entry, which must fit SQLite's integers.
pub fn to_i64(value: u64, field: &str) -> (r: AppResult<i64>)
    ensures
        r is Ok <==> value <= i64::MAX,
        r matches Ok(v) ==> v == value,
        r matches Err(e) ==> e.code@ == "CATALOG_HISTORY_VALUE_INVALID"@,
{
    if value <= i64::MAX as u64 {
        Ok(value as i64)
    } else {
        Err(
            AppError::new(
                "CATALOG_HISTORY_VALUE_INVALID",
                "The play-history value is outside SQLite's supported range.",
            ).with_detail("field", field.to_string()).with_detail("value", decimal_string(value)),
        )
    }
}

fn data_error(field: &str, value: i64, message: &str) -> (e: AppError)
    ensures
        is_data_error(e),
{
    AppError::new("CATALOG_HISTORY_DATA_INVALID", message).with_detail("field", field.to_string()).with_detail(
        "value",
        signed_decimal_string(value),
    )
}

/// A stored outcome flag, which must be 0 or 1.
pub fn stored_bool(value: i64, field: &str) -> (r: AppResult<bool>)
    ensures
        r is Ok <==> (value == 0 || value == 1),
        r matches Ok(b) ==> b == (value == 1),
        r matches Err(e) ==> is_data_error(e),
{
    if value == 0 {
        Ok(false)
    } else if value == 1 {
        Ok(true)
    } else {
        Err(data_error(field, value, "Stored play-history data contains an invalid boolean value."))
    }
}

/// A stored number that must not be negative.
pub fn stored_u64(value: i64, field: &str) -> (r: AppResult<u64>)
    ensures
        r is Ok <==> value >= 0,
        r matches Ok(v) ==> v == value,
        r matches Err(e) ==> is_data_error(e),
{
    if value >= 0 {
        Ok(value as u64)
    } else {
        Err(data_error(field, value, "Stored play-history data is outside the supported range."))
    }
}

/// A stored count that must fit in `u32`.
pub fn stored_u32(value: i64, field: &str) -> (r: AppResult<u32>)
    ensures
        r is Ok <==> 0 <= value <= u32::MAX,
        r matches Ok(v) ==> v == value,
        r matches Err(e) ==> is_data_error(e),
{
    if 0 <= value && value <= u32::MAX as i64 {
        Ok(value as u32)
    } else {
        Err(data_error(field, value, "Stored play-history data is outside the supported range."))
    }
}

/// A history page holds between one and the maximum number of rows.
pub fn validate_history_page_size(limit: u32) -> (r: AppResult<()>)
    ensures
        r is Ok <==> 1 <= limit <= MAX_HISTORY_PAGE_SIZE,
        r matches Err(e) ==> {
            &&& e.code@ == "CATALOG_HISTORY_LIMIT_INVALID"@
            &&& e.details@.len() == 2
            &&& e.details@[0].key@ == "limit"@ && e.details@[0].value@ == decimal(limit as nat)
            &&& e.details@[1].key@ == "maxLimit"@ && e.details@[1].value@ == decimal(
                MAX_HISTORY_PAGE_SIZE as nat,
            )
        },
{
    if limit == 0 || limit > MAX_HISTORY_PAGE_SIZE {
        return Err(
            AppError::new(
                "CATALOG_HISTORY_LIMIT_INVALID",
                "History page size must be between 1 and 200.",
            ).with_detail("limit", decimal_string(limit as u64)).with_detail(
                "maxLimit",
                decimal_string(MAX_HISTORY_PAGE_SIZE as u64),
            ),
        );
    }
    Ok(())
}

/// Finishing an entry must update exactly that entry.
pub fn check_history_finished(history_id: i64, updated: usize) -> (r: AppResult<()>)
    ensures
        r is Ok <==> updated == 1,
        r matches Err(e) ==> e.code@ == "CATALOG_HISTORY_ENTRY_NOT_FOUND"@,
{
    if updated != 1 {
        return Err(
            AppError::new(
                "CATALOG_HISTORY_ENTRY_NOT_FOUND",
                "The play-history entry could not be finalized because it no longer exists.",
            ).with_detail("historyId", signed_decimal_string(history_id)),
        );
    }
    Ok(())
}

/// The stored outcome of a finished launch.
pub fn outcome_flag(succeeded: bool) -> (r: i64)
    ensures
        r == (if succeeded { 1i64 } else { 0i64 }),
{
    if succeeded {
        1
    } else {
        0
    }
}

pub open spec fn history_valid(h: StoredHistory) -> bool {
    &&& h.active_machine_short_name is Some ==> 0 <= h.display_count <= u32::MAX
    &&& h.active_machine_short_name is Some ==> 0 <= h.software_list_count <= u32::MAX
    &&& h.succeeded matches Some(v) ==> (v == 0 || v == 1)
    &&& h.launched_at_epoch_ms >= 0
}

pub open spec fn flag_of(v: Option<i64>) -> bool {
    match v {
        Some(x) => x != 0,
        None => false,
    }
}

pub open spec fn history_machine(h: StoredHistory, short_name: String) -> MachineListItem {
    MachineListItem {
        short_name,
        description: match h.description {
            Some(d) => d,
            None => short_name,
        },
        year: h.year,
        manufacturer: h.manufacturer,
        source_file: h.source_file,
        clone_of: h.clone_of,
        runnable: flag_of(h.runnable),
        is_device: flag_of(h.is_device),
        driver_status: h.driver_status,
        display_count: h.display_count as u32,
        software_list_count: h.software_list_count as u32,
    }
}

/// The entry a stored row describes; a launch that never finished has no outcome, and
/// a machine that left the catalog keeps its name with no machine.
pub open spec fn history_entry_of(h: StoredHistory) -> RecentHistoryEntry {
    RecentHistoryEntry {
        id: h.id,
        machine_short_name: h.machine_short_name,
        software_item: h.software_item,
        launched_at_epoch_ms: h.launched_at_epoch_ms as u64,
        succeeded: match h.succeeded {
            Some(v) => Some(v == 1),
            None => None,
        },
        machine: match h.active_machine_short_name {
            Some(n) => Some(history_machine(h, n)),
            None => None,
        },
    }
}

fn flag_set(value: Option<i64>) -> (b: bool)
    ensures
        b == flag_of(value),
{
    match value {
        Some(v) => v != 0,
        None => false,
    }
}

impl StoredHistory {
    pub fn into_entry(self) -> (r: AppResult<RecentHistoryEntry>)
        ensures
            r is Ok <==> history_valid(self),
            r matches Ok(e) ==> e == history_entry_of(self),
            r matches Err(e) ==> is_data_error(e),
    {
        let machine = match self.active_machine_short_name {
            Some(short_name) => {
                let display_count = stored_u32(self.display_count, "displayCount")?;
                let software_list_count = stored_u32(self.software_list_count, "softwareListCount")?;
                let description = match self.description {
                    Some(d) => d,
                    None => short_name.clone(),
                };
                Some(
                    MachineListItem {
                        description,
                        short_name,
                        year: self.year,
                        manufacturer: self.manufacturer,
                        source_file: self.source_file,
                        clone_of: self.clone_of,
                        runnable: flag_set(self.runnable),
                        is_device: flag_set(self.is_device),
                        driver_status: self.driver_status,
                        display_count,
                        software_list_count,
                    },
                )
            },
            None => None,
        };
        let succeeded = match self.succeeded {
            Some(v) => Some(stored_bool(v, "succeeded")?),
            None => None,
        };
        let launched_at_epoch_ms = stored_u64(self.launched_at_epoch_ms, "launchedAtEpochMs")?;
        Ok(
            RecentHistoryEntry {
                id: self.id,
                machine_short_name: self.machine_short_name,
                software_item: self.software_item,
                launched_at_epoch_ms,
                succeeded,
                machine,
            },
        )
    }
}

/// Assemble a history page from the stored count and rows, newest first as stored.
pub fn history_page(total: i64, offset: u32, limit: u32, rows: Vec<StoredHistory>) -> (r: AppResult<
    RecentHistoryPage,
>)
    ensures
        r is Ok <==> total >= 0 && forall|i: int| 0 <= i < rows@.len() ==> history_valid(#[trigger] rows@[i]),
        r matches Ok(p) ==> {
            &&& p.schema_version == 1 && p.total == total && p.offset == offset && p.limit == limit
            &&& p.retention_limit == HISTORY_RETENTION_LIMIT
            &&& p.items@.len() == rows@.len()
            &&& forall|i: int| 0 <= i < rows@.len() ==> p.items@[i] == history_entry_of(#[trigger] rows@[i])
        },
        r matches Err(e) ==> is_data_error(e),
{
    let total = stored_u64(total, "total")?;
    let mut items: Vec<RecentHistoryEntry> = Vec::new();
    let mut rest = rows;
    let ghost all = rest@;
    let n: usize = rest.len();
    let mut k: usize = 0;
    while rest.len() > 0
        invariant
            all == rows@,
            n == all.len(),
            k + rest@.len() == all.len(),
            rest@ == all.subrange(k as int, all.len() as int),
            items@.len() == k,
            forall|i: int| 0 <= i < k ==> history_valid(#[trigger] all[i]),
            forall|i: int| 0 <= i < k ==> items@[i] == history_entry_of(#[trigger] all[i]),
        decreases rest.len(),
    {
        let row = rest.remove(0);
        assert(row == all[k as int]);
        let entry = row.into_entry()?;
        items.push(entry);
        k += 1;
    }
    Ok(RecentHistoryPage { schema_version: 1, total, offset, limit, retention_limit: HISTORY_RETENTION_LIMIT, items })
}

} // verus!
