//! User collections of machines: request validation, the checks made against the
//! catalog, and the conversion of stored rows into the pages the front end reads.

use vstd::prelude::*;

use crate::catalog_query::MachineListItem;
use crate::errors::{AppError, AppResult};
use crate::text::{chars_of, signed_decimal, signed_decimal_string, string_from, trim, trim_chars};

pub use crate::library::validate_machine_short_name;

verus! {

broadcast use vstd::string::group_string_axioms;

pub const DEFAULT_PAGE_SIZE: u32 = 50;

pub const MAX_COLLECTION_NAME_LENGTH: usize = 80;

pub const MAX_COLLECTION_PAGE_SIZE: u32 = 200;

#[derive(Debug, Clone, PartialEq, Eq)]
pub struct CreateCollectionRequest {
    pub name: String,
}

#[derive(Debug, Clone, PartialEq, Eq)]
pub struct RenameCollectionRequest {
    pub collection_id: i64,
    pub name: String,
}

#[derive(Debug, Clone, PartialEq, Eq)]
pub struct CollectionRequest {
    pub collection_id: i64,
}

#[derive(Debug, Clone, PartialEq, Eq)]
pub struct CollectionPageRequest {
    pub collection_id: i64,
    pub limit: u32,
    pub offset: u32,
}

#[derive(Debug, Clone, PartialEq, Eq)]
pub struct CollectionListRequest {
    pub limit: u32,
    pub offset: u32,
}

#[derive(Debug, Clone, PartialEq, Eq)]
pub struct SetCollectionMachineRequest {
    pub collection_id: i64,
    pub short_name: String,
    pub member: bool,
}

#[derive(Debug, Clone, PartialEq, Eq)]
pub struct DeleteCollectionResult {
    pub schema_version: u32,
    pub collection_id: i64,
    pub deleted: bool,
}

#[derive(Debug, Clone, PartialEq, Eq)]
pub struct CollectionSummary {
    pub id: i64,
    pub name: String,
    pub created_at_epoch_ms: u64,
    pub updated_at_epoch_ms: u64,
    pub member_count: u64,
}

#[derive(Debug, Clone, PartialEq, Eq)]
pub struct CollectionListPage {
    pub schema_version: u32,
    pub total: u64,
    pub offset: u32,
    pub limit: u32,
    pub items: Vec<CollectionSummary>,
}

#[derive(Debug, Clone, PartialEq, Eq)]
pub struct CollectionMemberEntry {
    pub short_name: String,
    pub added_at_epoch_ms: u64,
    pub machine: Option<MachineListItem>,
}

#[derive(Debug, Clone, PartialEq, Eq)]
pub struct CollectionMemberPage {
    pub schema_version: u32,
    pub collection: CollectionSummary,
    pub total: u64,
    pub offset: u32,
    pub limit: u32,
    pub items: Vec<CollectionMemberEntry>,
}

#[derive(Debug, Clone, PartialEq, Eq)]
pub struct CollectionMembershipState {
    pub schema_version: u32,
    pub collection_id: i64,
    pub short_name: String,
    pub member: bool,
    pub added_at_epoch_ms: Option<u64>,
}

/// A collection row as the catalog stores it.
#[derive(Debug, Clone, PartialEq, Eq)]
pub struct StoredCollectionSummary {
    pub id: i64,
    pub name: String,
    pub created_at_epoch_ms: i64,
    pub updated_at_epoch_ms: i64,
    pub member_count: i64,
}

/// A member row as the catalog stores it; the machine columns are absent when the
/// member is not in the active catalog generation.
#[derive(Debug, Clone, PartialEq, Eq)]
pub struct StoredCollectionMember {
    pub short_name: String,
    pub added_at_epoch_ms: i64,
    pub machine_short_name: Option<String>,
    pub description: Option<String>,
    pub year: Option<String>,
    pub manufacturer: Option<String>,
    pub source_file: Option<String>,
    pub clone_of: Option<String>,
    pub runnable: Option<i64>,
    pub is_device: Option<i64>,
    pub driver_status: Option<String>,
    pub display_count: i64,
    pub software_list_count: i64,
}

/// A Unicode control character (general category Cc), as `char::is_control`.
pub open spec fn is_control(c: char) -> bool {
    (c as u32) <= 0x1f || (0x7f <= (c as u32) && (c as u32) <= 0x9f)
}

pub open spec fn printable(s: Seq<char>) -> bool {
    forall|i: int| 0 <= i < s.len() ==> !is_control(#[trigger] s[i])
}

/// A name is acceptable when, trimmed, it is non-empty, at most the maximum length in
/// characters and free of control characters.
pub open spec fn valid_collection_name(s: Seq<char>) -> bool {
    &&& trim(s).len() > 0
    &&& trim(s).len() <= MAX_COLLECTION_NAME_LENGTH
    &&& printable(trim(s))
}

pub fn is_control_char(c: char) -> (b: bool)
    ensures
        b == is_control(c),
{
    let code = c as u32;
    code <= 0x1f || (0x7f <= code && code <= 0x9f)
}

fn all_printable(v: &[char]) -> (b: bool)
    ensures
        b == printable(v@),
{
    let mut i: usize = 0;
    while i < v.len()
        invariant
            i <= v@.len(),
            forall|j: int| 0 <= j < i ==> !is_control(#[trigger] v@[j]),
        decreases v.len() - i,
    {
        if is_control_char(v[i]) {
            return false;
        }
        i += 1;
    }
    true
}

/// Validate a collection name and return it trimmed.
pub fn validate_collection_name(value: String) -> (r: AppResult<String>)
    ensures
        r is Ok <==> valid_collection_name(value@),
        r matches Ok(v) ==> v@ == trim(value@),
        r matches Err(e) ==> e.code@ == "CATALOG_COLLECTION_NAME_INVALID"@,
{
    let chars = chars_of(value.as_str());
    let trimmed = trim_chars(chars.as_slice());
    if trimmed.len() == 0 || trimmed.len() > MAX_COLLECTION_NAME_LENGTH || !all_printable(
        trimmed.as_slice(),
    ) {
        return Err(
            AppError::new(
                "CATALOG_COLLECTION_NAME_INVALID",
                "Collection names must be non-empty, printable text within the supported length.",
            ).with_detail("maxLength", crate::text::decimal_string(MAX_COLLECTION_NAME_LENGTH as u64)),
        );
    }
    Ok(string_from(trimmed.as_slice()))
}

/// Validate a collection identifier: it must be positive.
pub fn validate_collection_id(value: i64) -> (r: AppResult<i64>)
    ensures
        r is Ok <==> value > 0,
        r matches Ok(v) ==> v == value,
        r matches Err(e) ==> e.code@ == "CATALOG_COLLECTION_ID_INVALID"@,
{
    if value <= 0 {
        return Err(
            AppError::new(
                "CATALOG_COLLECTION_ID_INVALID",
                "The collection identifier must be a positive integer.",
            ),
        );
    }
    Ok(value)
}

/// A page of collections or members holds between one and the maximum number of rows.
pub fn validate_page_size(limit: u32) -> (r: AppResult<()>)
    ensures
        r is Ok <==> 1 <= limit <= MAX_COLLECTION_PAGE_SIZE,
        r matches Err(e) ==> e.code@ == "CATALOG_COLLECTION_LIMIT_INVALID"@,
{
    if limit == 0 || limit > MAX_COLLECTION_PAGE_SIZE {
        return Err(
            AppError::new(
                "CATALOG_COLLECTION_LIMIT_INVALID",
                "Collection page size must be between 1 and 200.",
            ),
        );
    }
    Ok(())
}

pub open spec fn is_value_error(e: AppError) -> bool {
    e.code@ == "CATALOG_COLLECTION_VALUE_INVALID"@
}

/// A timestamp the front end supplies, checked against SQLite's integer range.
pub fn to_i64(value: u64, field: &str) -> (r: AppResult<i64>)
    ensures
        r is Ok <==> value <= i64::MAX,
        r matches Ok(v) ==> v == value,
        r matches Err(e) ==> is_value_error(e),
{
    if value <= i64::MAX as u64 {
        Ok(value as i64)
    } else {
        Err(
            AppError::new(
                "CATALOG_COLLECTION_VALUE_INVALID",
                "A collection numeric value is outside SQLite's supported range.",
            ).with_detail("field", field.to_string()).with_detail(
                "value",
                crate::text::decimal_string(value),
            ),
        )
    }
}

/// A stored count or timestamp, which must not be negative.
pub fn stored_u64(value: i64, field: &str) -> (r: AppResult<u64>)
    ensures
        r is Ok <==> value >= 0,
        r matches Ok(v) ==> v == value,
        r matches Err(e) ==> is_value_error(e),
{
    if value >= 0 {
        Ok(value as u64)
    } else {
        Err(
            AppError::new(
                "CATALOG_COLLECTION_VALUE_INVALID",
                "The collections database contains an invalid numeric value.",
            ).with_detail("field", field.to_string()).with_detail("value", signed_decimal_string(value)),
        )
    }
}

/// A stored count that must fit in `u32`.
pub fn stored_u32(value: i64, field: &str) -> (r: AppResult<u32>)
    ensures
        r is Ok <==> 0 <= value <= u32::MAX,
        r matches Ok(v) ==> v == value,
        r matches Err(e) ==> is_value_error(e),
{
    if 0 <= value && value <= u32::MAX as i64 {
        Ok(value as u32)
    } else {
        Err(
            AppError::new(
                "CATALOG_COLLECTION_VALUE_INVALID",
                "The collections database contains an invalid numeric value.",
            ).with_detail("field", field.to_string()).with_detail("value", signed_decimal_string(value)),
        )
    }
}

pub open spec fn summary_valid(s: StoredCollectionSummary) -> bool {
    s.created_at_epoch_ms >= 0 && s.updated_at_epoch_ms >= 0 && s.member_count >= 0
}

pub open spec fn summary_of(s: StoredCollectionSummary) -> CollectionSummary {
    CollectionSummary {
        id: s.id,
        name: s.name,
        created_at_epoch_ms: s.created_at_epoch_ms as u64,
        updated_at_epoch_ms: s.updated_at_epoch_ms as u64,
        member_count: s.member_count as u64,
    }
}

impl StoredCollectionSummary {
    /// The summary the front end reads, when every stored number is non-negative.
    pub fn into_summary(self) -> (r: AppResult<CollectionSummary>)
        ensures
            r is Ok <==> summary_valid(self),
            r matches Ok(s) ==> s == summary_of(self),
            r matches Err(e) ==> is_value_error(e),
    {
        let created = stored_u64(self.created_at_epoch_ms, "createdAtEpochMs")?;
        let updated = stored_u64(self.updated_at_epoch_ms, "updatedAtEpochMs")?;
        let member_count = stored_u64(self.member_count, "memberCount")?;
        Ok(
            CollectionSummary {
                id: self.id,
                name: self.name,
                created_at_epoch_ms: created,
                updated_at_epoch_ms: updated,
                member_count,
            },
        )
    }
}

pub open spec fn member_valid(m: StoredCollectionMember) -> bool {
    &&& m.machine_short_name is Some ==> 0 <= m.display_count <= u32::MAX
    &&& m.machine_short_name is Some ==> 0 <= m.software_list_count <= u32::MAX
    &&& m.added_at_epoch_ms >= 0
}

/// The catalog machine a present member row describes; the description falls back to
/// the short name, absent flags read as false.
pub open spec fn member_machine(m: StoredCollectionMember, short_name: String) -> MachineListItem {
    MachineListItem {
        short_name,
        description: match m.description {
            Some(d) => d,
            None => short_name,
        },
        year: m.year,
        manufacturer: m.manufacturer,
        source_file: m.source_file,
        clone_of: m.clone_of,
        runnable: match m.runnable {
            Some(v) => v != 0,
            None => false,
        },
        is_device: match m.is_device {
            Some(v) => v != 0,
            None => false,
        },
        driver_status: m.driver_status,
        display_count: m.display_count as u32,
        software_list_count: m.software_list_count as u32,
    }
}

pub open spec fn entry_of(m: StoredCollectionMember) -> CollectionMemberEntry {
    CollectionMemberEntry {
        short_name: m.short_name,
        added_at_epoch_ms: m.added_at_epoch_ms as u64,
        machine: match m.machine_short_name {
            Some(n) => Some(member_machine(m, n)),
            None => None,
        },
    }
}

fn flag_set(value: Option<i64>) -> (b: bool)
    ensures
        b == (match value {
            Some(v) => v != 0,
            None => false,
        }),
{
    match value {
        Some(v) => v != 0,
        None => false,
    }
}

impl StoredCollectionMember {
    /// The entry the front end reads, with the catalog machine when the member is in
    /// the active generation.
    pub fn into_entry(self) -> (r: AppResult<CollectionMemberEntry>)
        ensures
            r is Ok <==> member_valid(self),
            r matches Ok(e) ==> e == entry_of(self),
            r matches Err(e) ==> is_value_error(e),
    {
        let ghost old_self = self;
        let machine = match self.machine_short_name {
            Some(short_name) => {
                let display_count = stored_u32(self.display_count, "displayCount")?;
                let software_list_count = stored_u32(self.software_list_count, "softwareListCount")?;
                let description = match self.description {
                    Some(d) => d,
                    None => short_name.clone(),
                };
                Some(
                    MachineListItem {
                        description,
                        short_name,
                        year: self.year,
                        manufacturer: self.manufacturer,
                        source_file: self.source_file,
                        clone_of: self.clone_of,
                        runnable: flag_set(self.runnable),
                        is_device: flag_set(self.is_device),
                        driver_status: self.driver_status,
                        display_count,
                        software_list_count,
                    },
                )
            },
            None => None,
        };
        let added_at_epoch_ms = stored_u64(self.added_at_epoch_ms, "addedAtEpochMs")?;
        Ok(CollectionMemberEntry { short_name: self.short_name, added_at_epoch_ms, machine })
    }
}

pub open spec fn all_summaries_valid(rows: Seq<StoredCollectionSummary>) -> bool {
    forall|i: int| 0 <= i < rows.len() ==> summary_valid(#[trigger] rows[i])
}

pub open spec fn all_members_valid(rows: Seq<StoredCollectionMember>) -> bool {
    forall|i: int| 0 <= i < rows.len() ==> member_valid(#[trigger] rows[i])
}

/// Assemble a page of collections from the stored count and rows.
pub fn collection_list_page(
    total: i64,
    offset: u32,
    limit: u32,
    rows: Vec<StoredCollectionSummary>,
) -> (r: AppResult<CollectionListPage>)
    ensures
        r is Ok <==> total >= 0 && all_summaries_valid(rows@),
        r matches Ok(p) ==> {
            &&& p.schema_version == 1
            &&& p.total == total
            &&& p.offset == offset
            &&& p.limit == limit
            &&& p.items@.len() == rows@.len()
            &&& forall|i: int| 0 <= i < rows@.len() ==> p.items@[i] == summary_of(#[trigger] rows@[i])
        },
        r matches Err(e) ==> is_value_error(e),
{
    let total = stored_u64(total, "total")?;
    let mut items: Vec<CollectionSummary> = Vec::new();
    let mut rest = rows;
    let ghost all = rest@;
    let n: usize = rest.len();
    let mut k: usize = 0;
    while rest.len() > 0
        invariant
            all == rows@,
            n == all.len(),
            k + rest@.len() == all.len(),
            rest@ == all.subrange(k as int, all.len() as int),
            items@.len() == k,
            forall|i: int| 0 <= i < k ==> summary_valid(#[trigger] all[i]),
            forall|i: int| 0 <= i < k ==> items@[i] == summary_of(#[trigger] all[i]),
        decreases rest.len(),
    {
        let row = rest.remove(0);
        assert(row == all[k as int]);
        let summary = match row.into_summary() {
            Ok(s) => s,
            Err(e) => {
                return Err(e);
            },
        };
        items.push(summary);
        k += 1;
    }
    Ok(CollectionListPage { schema_version: 1, total, offset, limit, items })
}

/// Assemble a page of members of a collection from the stored count and rows.
pub fn collection_member_page(
    collection: CollectionSummary,
    total: i64,
    offset: u32,
    limit: u32,
    rows: Vec<StoredCollectionMember>,
) -> (r: AppResult<CollectionMemberPage>)
    ensures
        r is Ok <==> total >= 0 && all_members_valid(rows@),
        r matches Ok(p) ==> {
            &&& p.schema_version == 1
            &&& p.collection == collection
            &&& p.total == total
            &&& p.offset == offset
            &&& p.limit == limit
            &&& p.items@.len() == rows@.len()
            &&& forall|i: int| 0 <= i < rows@.len() ==> p.items@[i] == entry_of(#[trigger] rows@[i])
        },
        r matches Err(e) ==> is_value_error(e),
{
    let total = stored_u64(total, "total")?;
    let mut items: Vec<CollectionMemberEntry> = Vec::new();
    let mut rest = rows;
    let ghost all = rest@;
    let n: usize = rest.len();
    let mut k: usize = 0;
    while rest.len() > 0
        invariant
            all == rows@,
            n == all.len(),
            k + rest@.len() == all.len(),
            rest@ == all.subrange(k as int, all.len() as int),
            items@.len() == k,
            forall|i: int| 0 <= i < k ==> member_valid(#[trigger] all[i]),
            forall|i: int| 0 <= i < k ==> items@[i] == entry_of(#[trigger] all[i]),
        decreases rest.len(),
    {
        let row = rest.remove(0);
        assert(row == all[k as int]);
        let entry = match row.into_entry() {
            Ok(e) => e,
            Err(e) => {
                return Err(e);
            },
        };
        items.push(entry);
        k += 1;
    }
    Ok(CollectionMemberPage { schema_version: 1, collection, total, offset, limit, items })
}

/// The error for a collection that does not exist.
pub fn collection_not_found(collection_id: i64) -> (r: AppError)
    ensures
        r.code@ == "CATALOG_COLLECTION_NOT_FOUND"@,
        r.details@.len() == 1,
        r.details@[0].key@ == "collectionId"@,
        r.details@[0].value@ == signed_decimal(collection_id as int),
{
    AppError::new("CATALOG_COLLECTION_NOT_FOUND", "The requested collection does not exist.").with_detail(
        "collectionId",
        signed_decimal_string(collection_id),
    )
}

/// The answer of the existence query for a collection: zero means it does not exist.
pub fn require_collection(collection_id: i64, exists: i64) -> (r: AppResult<()>)
    ensures
        r is Ok <==> exists != 0,
        r matches Err(e) ==> {
            &&& e.code@ == "CATALOG_COLLECTION_NOT_FOUND"@
            &&& e.details@.len() == 1
            &&& e.details@[0].value@ == signed_decimal(collection_id as int)
        },
{
    if exists == 0 {
        return Err(collection_not_found(collection_id));
    }
    Ok(())
}

/// Names are unique among collections, compared without case: a rename may keep its own
/// name. `existing` is the collection that already holds the name, if any.
pub fn ensure_collection_name_available(
    name: &str,
    existing: Option<i64>,
    excluding_id: Option<i64>,
) -> (r: AppResult<()>)
    ensures
        r is Err <==> (existing matches Some(id) && Some(id) != excluding_id),
        r matches Err(e) ==> e.code@ == "CATALOG_COLLECTION_NAME_EXISTS"@,
{
    match existing {
        Some(id) => {
            let same = match excluding_id {
                Some(x) => x == id,
                None => false,
            };
            if !same {
                return Err(
                    AppError::new(
                        "CATALOG_COLLECTION_NAME_EXISTS",
                        "A collection with that name already exists.",
                    ).with_detail("name", name.to_string()),
                );
            }
            Ok(())
        },
        None => Ok(()),
    }
}

/// Adding a member needs an active catalog generation; this returns its identifier.
pub fn require_active_generation(generation_id: Option<i64>) -> (r: AppResult<i64>)
    ensures
        r is Ok <==> generation_id is Some,
        r matches Ok(g) ==> generation_id == Some(g),
        r matches Err(e) ==> e.code@ == "MAME_METADATA_NOT_READY"@,
{
    match generation_id {
        Some(g) => Ok(g),
        None => Err(
            AppError::new(
                "MAME_METADATA_NOT_READY",
                "No successfully imported MAME metadata generation is active.",
            ),
        ),
    }
}

/// Adding a member needs the machine in the active generation: `exists` is zero when
/// it is not.
pub fn require_active_machine(short_name: &str, exists: i64) -> (r: AppResult<()>)
    ensures
        r is Ok <==> exists != 0,
        r matches Err(e) ==> e.code@ == "CATALOG_MACHINE_NOT_FOUND"@,
{
    if exists == 0 {
        return Err(
            AppError::new(
                "CATALOG_MACHINE_NOT_FOUND",
                "The requested machine is not present in the active MAME catalog.",
            ).with_detail("shortName", short_name.to_string()),
        );
    }
    Ok(())
}

/// The membership of a machine in a collection, from the stored time it was added.
pub fn collection_membership_state(
    collection_id: i64,
    short_name: &str,
    added_at: Option<i64>,
) -> (r: AppResult<CollectionMembershipState>)
    ensures
        r is Ok <==> (added_at matches Some(t) ==> t >= 0),
        r matches Ok(s) ==> {
            &&& s.schema_version == 1
            &&& s.collection_id == collection_id
            &&& s.short_name@ == short_name@
            &&& s.member == added_at is Some
            &&& s.added_at_epoch_ms == (match added_at {
                Some(t) => Some(t as u64),
                None => None::<u64>,
            })
        },
        r matches Err(e) ==> is_value_error(e),
{
    let added_at_epoch_ms = match added_at {
        Some(t) => Some(stored_u64(t, "addedAtEpochMs")?),
        None => None,
    };
    Ok(
        CollectionMembershipState {
            schema_version: 1,
            collection_id,
            short_name: short_name.to_string(),
            member: added_at.is_some(),
            added_at_epoch_ms,
        },
    )
}

/// The answer to a completed deletion.
pub fn delete_collection_result(collection_id: i64) -> (r: DeleteCollectionResult)
    ensures
        r == (DeleteCollectionResult { schema_version: 1, collection_id, deleted: true }),
{
    DeleteCollectionResult { schema_version: 1, collection_id, deleted: true }
}

} // verus!
