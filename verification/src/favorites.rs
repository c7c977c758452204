//! Favorite machines: the stored favorite rows checked and turned into the state and
//! pages the front end reads.

use vstd::prelude::*;

use crate::catalog_query::MachineListItem;
use crate::errors::{AppError, AppResult};
use crate::text::{decimal, decimal_string, signed_decimal_string};

verus! {

broadcast use vstd::string::group_string_axioms;

pub const MAX_FAVORITES_PAGE_SIZE: u32 = 200;

#[derive(Debug, Clone, PartialEq, Eq)]
pub struct FavoriteState {
    pub schema_version: u32,
    pub short_name: String,
    pub favorite: bool,
    pub created_at_epoch_ms: Option<u64>,
}

#[derive(Debug, Clone, PartialEq, Eq)]
pub struct FavoriteEntry {
    pub short_name: String,
    pub created_at_epoch_ms: u64,
    pub machine: Option<MachineListItem>,
}

#[derive(Debug, Clone, PartialEq, Eq)]
pub struct FavoritePage {
    pub schema_version: u32,
    pub total: u64,
    pub offset: u32,
    pub limit: u32,
    pub items: Vec<FavoriteEntry>,
}

/// A favorite row joined with its machine in the active generation, if it is there.
#[derive(Debug, Clone, PartialEq, Eq)]
pub struct StoredFavorite {
    pub short_name: String,
    pub created_at_epoch_ms: i64,
    pub machine_short_name: Option<String>,
    pub description: Option<String>,
    pub year: Option<String>,
    pub manufacturer: Option<String>,
    pub source_file: Option<String>,
    pub clone_of: Option<String>,
    pub runnable: Option<i64>,
    pub is_device: Option<i64>,
    pub driver_status: Option<String>,
    pub display_count: i64,
    pub software_list_count: i64,
}

pub open spec fn is_value_error(e: AppError) -> bool {
    e.code@ == "CATALOG_FAVORITE_VALUE_INVALID"@
}

/// A stored number that must not be negative.
pub fn stored_u64(value: i64, field: &str) -> (r: AppResult<u64>)
    ensures
        r is Ok <==> value >= 0,
        r matches Ok(v) ==> v == value,
        r matches Err(e) ==> is_value_error(e),
{
    if value >= 0 {
        Ok(value as u64)
    } else {
        Err(
            AppError::new(
                "CATALOG_FAVORITE_VALUE_INVALID",
                "The favorites database contains an invalid numeric value.",
            ).with_detail("field", field.to_string()).with_detail("value", signed_decimal_string(value)),
        )
    }
}

/// A stored count that must fit in `u32`.
pub fn stored_u32(value: i64, field: &str) -> (r: AppResult<u32>)
    ensures
        r is Ok <==> 0 <= value <= u32::MAX,
        r matches Ok(v) ==> v == value,
        r matches Err(e) ==> is_value_error(e),
{
    if 0 <= value && value <= u32::MAX as i64 {
        Ok(value as u32)
    } else {
        Err(
            AppError::new(
                "CATALOG_FAVORITE_VALUE_INVALID",
                "The favorites database contains an invalid numeric value.",
            ).with_detail("field", field.to_string()).with_detail("value", signed_decimal_string(value)),
        )
    }
}

/// A favorites page holds between one and the maximum number of rows.
pub fn validate_favorites_page_size(limit: u32) -> (r: AppResult<()>)
    ensures
        r is Ok <==> 1 <= limit <= MAX_FAVORITES_PAGE_SIZE,
        r matches Err(e) ==> {
            &&& e.code@ == "CATALOG_FAVORITES_LIMIT_INVALID"@
            &&& e.details@.len() == 2
            &&& e.details@[0].key@ == "limit"@ && e.details@[0].value@ == decimal(limit as nat)
            &&& e.details@[1].key@ == "maxLimit"@ && e.details@[1].value@ == decimal(
                MAX_FAVORITES_PAGE_SIZE as nat,
            )
        },
{
    if limit == 0 || limit > MAX_FAVORITES_PAGE_SIZE {
        return Err(
            AppError::new(
                "CATALOG_FAVORITES_LIMIT_INVALID",
                "Favorites page size must be between 1 and 200.",
            ).with_detail("limit", decimal_string(limit as u64)).with_detail(
                "maxLimit",
                decimal_string(MAX_FAVORITES_PAGE_SIZE as u64),
            ),
        );
    }
    Ok(())
}

/// The stored timestamp of a new favorite, which must fit SQLite's integers.
pub fn favorite_timestamp(created_at_epoch_ms: u64) -> (r: AppResult<i64>)
    ensures
        r is Ok <==> created_at_epoch_ms <= i64::MAX,
        r matches Ok(v) ==> v == created_at_epoch_ms,
        r matches Err(e) ==> e.code@ == "CATALOG_FAVORITE_TIMESTAMP_INVALID"@,
{
    if created_at_epoch_ms <= i64::MAX as u64 {
        Ok(created_at_epoch_ms as i64)
    } else {
        Err(
            AppError::new(
                "CATALOG_FAVORITE_TIMESTAMP_INVALID",
                "The favorite timestamp is outside SQLite's supported range.",
            ),
        )
    }
}

/// The favorite state of a machine, from the stored time it was marked, if it is.
pub fn favorite_state(short_name: &str, created_at: Option<i64>) -> (r: AppResult<FavoriteState>)
    ensures
        r is Ok <==> (created_at matches Some(t) ==> t >= 0),
        r matches Ok(s) ==> {
            &&& s.schema_version == 1
            &&& s.short_name@ == short_name@
            &&& s.favorite == created_at is Some
            &&& s.created_at_epoch_ms == (match created_at {
                Some(t) => Some(t as u64),
                None => None::<u64>,
            })
        },
        r matches Err(e) ==> is_value_error(e),
{
    let created_at_epoch_ms = match created_at {
        Some(t) => Some(stored_u64(t, "createdAtEpochMs")?),
        None => None,
    };
    Ok(
        FavoriteState {
            schema_version: 1,
            short_name: short_name.to_string(),
            favorite: created_at.is_some(),
            created_at_epoch_ms,
        },
    )
}

pub open spec fn favorite_valid(f: StoredFavorite) -> bool {
    &&& f.machine_short_name is Some ==> 0 <= f.display_count <= u32::MAX
    &&& f.machine_short_name is Some ==> 0 <= f.software_list_count <= u32::MAX
    &&& f.created_at_epoch_ms >= 0
}

pub open spec fn flag_of(v: Option<i64>) -> bool {
    match v {
        Some(x) => x != 0,
        None => false,
    }
}

/// The catalog machine of a favorite present in the active generation.
pub open spec fn favorite_machine(f: StoredFavorite, short_name: String) -> MachineListItem {
    MachineListItem {
        short_name,
        description: match f.description {
            Some(d) => d,
            None => short_name,
        },
        year: f.year,
        manufacturer: f.manufacturer,
        source_file: f.source_file,
        clone_of: f.clone_of,
        runnable: flag_of(f.runnable),
        is_device: flag_of(f.is_device),
        driver_status: f.driver_status,
        display_count: f.display_count as u32,
        software_list_count: f.software_list_count as u32,
    }
}

pub open spec fn favorite_entry_of(f: StoredFavorite) -> FavoriteEntry {
    FavoriteEntry {
        short_name: f.short_name,
        created_at_epoch_ms: f.created_at_epoch_ms as u64,
        machine: match f.machine_short_name {
            Some(n) => Some(favorite_machine(f, n)),
            None => None,
        },
    }
}

fn flag_set(value: Option<i64>) -> (b: bool)
    ensures
        b == flag_of(value),
{
    match value {
        Some(v) => v != 0,
        None => false,
    }
}

impl StoredFavorite {
    /// The entry the front end reads; a favorite whose machine left the catalog keeps
    /// its name with no machine.
    pub fn into_entry(self) -> (r: AppResult<FavoriteEntry>)
        ensures
            r is Ok <==> favorite_valid(self),
            r matches Ok(e) ==> e == favorite_entry_of(self),
            r matches Err(e) ==> is_value_error(e),
    {
        let machine = match self.machine_short_name {
            Some(short_name) => {
                let display_count = stored_u32(self.display_count, "displayCount")?;
                let software_list_count = stored_u32(self.software_list_count, "softwareListCount")?;
                let description = match self.description {
                    Some(d) => d,
                    None => short_name.clone(),
                };
                Some(
                    MachineListItem {
                        description,
                        short_name,
                        year: self.year,
                        manufacturer: self.manufacturer,
                        source_file: self.source_file,
                        clone_of: self.clone_of,
                        runnable: flag_set(self.runnable),
                        is_device: flag_set(self.is_device),
                        driver_status: self.driver_status,
                        display_count,
                        software_list_count,
                    },
                )
            },
            None => None,
        };
        let created_at_epoch_ms = stored_u64(self.created_at_epoch_ms, "createdAtEpochMs")?;
        Ok(FavoriteEntry { short_name: self.short_name, created_at_epoch_ms, machine })
    }
}

/// Assemble a favorites page from the stored count and rows.
pub fn favorite_page(total: i64, offset: u32, limit: u32, rows: Vec<StoredFavorite>) -> (r: AppResult<FavoritePage>)
    ensures
        r is Ok <==> total >= 0 && forall|i: int| 0 <= i < rows@.len() ==> favorite_valid(#[trigger] rows@[i]),
        r matches Ok(p) ==> {
            &&& p.schema_version == 1 && p.total == total && p.offset == offset && p.limit == limit
            &&& p.items@.len() == rows@.len()
            &&& forall|i: int| 0 <= i < rows@.len() ==> p.items@[i] == favorite_entry_of(#[trigger] rows@[i])
        },
        r matches Err(e) ==> is_value_error(e),
{
    let total = stored_u64(total, "total")?;
    let mut items: Vec<FavoriteEntry> = Vec::new();
    let mut rest = rows;
    let ghost all = rest@;
    let n: usize = rest.len();
    let mut k: usize = 0;
    while rest.len() > 0
        invariant
            all == rows@,
            n == all.len(),
            k + rest@.len() == all.len(),
            rest@ == all.subrange(k as int, all.len() as int),
            items@.len() == k,
            forall|i: int| 0 <= i < k ==> favorite_valid(#[trigger] all[i]),
            forall|i: int| 0 <= i < k ==> items@[i] == favorite_entry_of(#[trigger] all[i]),
        decreases rest.len(),
    {
        let row = rest.remove(0);
        assert(row == all[k as int]);
        let entry = row.into_entry()?;
        items.push(entry);
        k += 1;
    }
    Ok(FavoritePage { schema_version: 1, total, offset, limit, items })
}

} // verus!
