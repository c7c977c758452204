//! Importing parsed `-listxml` metadata into a catalog generation: the rows written for
//! each machine, the machine count kept while importing, and the checks and summary
//! that complete a generation.

use vstd::prelude::*;

use crate::errors::{AppError, AppResult};
use crate::executable::MameExecutableIdentity;
use crate::library::{
    bool_i64, generation_matches, source_kind_name, source_kind_token, trust_name, trust_token,
    MetadataGenerationSummary,
};
use crate::listxml::{
    ChipMetadata, DeviceMetadata, DisplayMetadata, ListXmlSummary, MachineMetadata, SoftwareListAssociation,
};
use crate::text::{decimal, decimal_string};

verus! {

broadcast use vstd::string::group_string_axioms;

/// The `machines` row of one machine.
#[derive(Debug, Clone, PartialEq, Eq)]
pub struct MachineRow {
    pub short_name: String,
    pub description: String,
    pub year: Option<String>,
    pub manufacturer: Option<String>,
    pub source_file: Option<String>,
    pub clone_of: Option<String>,
    pub rom_of: Option<String>,
    pub is_bios: i64,
    pub is_device: i64,
    pub is_mechanical: i64,
    pub runnable: i64,
    pub driver_status: Option<String>,
    pub driver_emulation: Option<String>,
    pub driver_cocktail: Option<String>,
    pub driver_savestate: Option<String>,
    pub driver_requires_artwork: i64,
    pub driver_unofficial: i64,
    pub driver_no_sound_hardware: i64,
    pub driver_incomplete: i64,
}

/// A `chips` row.
#[derive(Debug, Clone, PartialEq, Eq)]
pub struct ChipRow {
    pub chip_type: String,
    pub name: String,
    pub tag: Option<String>,
    pub clock_hz: Option<i64>,
}

/// A `displays` row; the refresh rate is kept as the text MAME reported.
#[derive(Debug, Clone, PartialEq, Eq)]
pub struct DisplayRow {
    pub tag: Option<String>,
    pub display_type: String,
    pub rotate: Option<i64>,
    pub flip_x: i64,
    pub width: Option<i64>,
    pub height: Option<i64>,
    pub refresh: String,
    pub pixel_clock_hz: Option<i64>,
}

/// Every row written for one machine, in the order they are written.
#[derive(Debug, Clone, PartialEq, Eq)]
pub struct MachineInsertPlan {
    pub machine: MachineRow,
    pub chips: Vec<ChipRow>,
    pub displays: Vec<DisplayRow>,
    pub devices: Vec<DeviceMetadata>,
    pub software_lists: Vec<SoftwareListAssociation>,
}

pub open spec fn flag(b: bool) -> i64 {
    if b {
        1
    } else {
        0
    }
}

pub open spec fn is_overflow_error(e: AppError) -> bool {
    e.code@ == "CATALOG_INTEGER_OVERFLOW"@
}

/// A value to store, which must fit SQLite's signed integers.
pub fn to_i64(value: u64, field: &str) -> (r: AppResult<i64>)
    ensures
        r is Ok <==> value <= i64::MAX,
        r matches Ok(v) ==> v == value,
        r matches Err(e) ==> {
            &&& is_overflow_error(e)
            &&& e.details@.len() == 2
            &&& e.details@[0].key@ == "field"@ && e.details@[0].value@ == field@
            &&& e.details@[1].key@ == "value"@ && e.details@[1].value@ == decimal(value as nat)
        },
{
    if value <= i64::MAX as u64 {
        Ok(value as i64)
    } else {
        Err(
            AppError::new(
                "CATALOG_INTEGER_OVERFLOW",
                "A catalog integer value exceeds SQLite's supported range.",
            ).with_detail("field", field.to_string()).with_detail("value", decimal_string(value)),
        )
    }
}

fn optional_i64(value: Option<u64>, field: &str) -> (r: AppResult<Option<i64>>)
    ensures
        r is Ok <==> (value matches Some(v) ==> v <= i64::MAX),
        r matches Ok(o) ==> o == (match value {
            Some(v) => Some(v as i64),
            None => None::<i64>,
        }),
        r matches Err(e) ==> is_overflow_error(e),
{
    match value {
        Some(v) => Ok(Some(to_i64(v, field)?)),
        None => Ok(None),
    }
}

fn copy_text(s: &Option<String>) -> (r: Option<String>)
    ensures
        r == *s,
{
    match s {
        Some(v) => Some(v.clone()),
        None => None,
    }
}

/// The machine's own row: flags stored as 0 or 1, the driver's columns absent (and its
/// flags 0) when MAME reported no driver element.
pub open spec fn machine_row_of(m: MachineMetadata, r: MachineRow) -> bool {
    &&& r.short_name == m.short_name && r.description == m.description
    &&& r.year == m.year && r.manufacturer == m.manufacturer && r.source_file == m.source_file
    &&& r.clone_of == m.clone_of && r.rom_of == m.rom_of
    &&& r.is_bios == flag(m.is_bios) && r.is_device == flag(m.is_device)
    &&& r.is_mechanical == flag(m.is_mechanical) && r.runnable == flag(m.runnable)
    &&& match m.driver {
        Some(d) => {
            &&& r.driver_status == Some(d.status)
            &&& r.driver_emulation == Some(d.emulation)
            &&& r.driver_cocktail == d.cocktail
            &&& r.driver_savestate == Some(d.savestate)
            &&& r.driver_requires_artwork == flag(d.requires_artwork)
            &&& r.driver_unofficial == flag(d.unofficial)
            &&& r.driver_no_sound_hardware == flag(d.no_sound_hardware)
            &&& r.driver_incomplete == flag(d.incomplete)
        },
        None => {
            &&& r.driver_status is None && r.driver_emulation is None
            &&& r.driver_cocktail is None && r.driver_savestate is None
            &&& r.driver_requires_artwork == 0 && r.driver_unofficial == 0
            &&& r.driver_no_sound_hardware == 0 && r.driver_incomplete == 0
        },
    }
}

/// The `machines` row of a parsed machine.
pub fn machine_row(m: &MachineMetadata) -> (r: MachineRow)
    ensures
        machine_row_of(*m, r),
{
    let (status, emulation, cocktail, savestate, requires_artwork, unofficial, no_sound, incomplete) = match &m.driver {
        Some(d) => (
            Some(d.status.clone()),
            Some(d.emulation.clone()),
            copy_text(&d.cocktail),
            Some(d.savestate.clone()),
            d.requires_artwork,
            d.unofficial,
            d.no_sound_hardware,
            d.incomplete,
        ),
        None => (None, None, None, None, false, false, false, false),
    };
    MachineRow {
        short_name: m.short_name.clone(),
        description: m.description.clone(),
        year: copy_text(&m.year),
        manufacturer: copy_text(&m.manufacturer),
        source_file: copy_text(&m.source_file),
        clone_of: copy_text(&m.clone_of),
        rom_of: copy_text(&m.rom_of),
        is_bios: bool_i64(m.is_bios),
        is_device: bool_i64(m.is_device),
        is_mechanical: bool_i64(m.is_mechanical),
        runnable: bool_i64(m.runnable),
        driver_status: status,
        driver_emulation: emulation,
        driver_cocktail: cocktail,
        driver_savestate: savestate,
        driver_requires_artwork: bool_i64(requires_artwork),
        driver_unofficial: bool_i64(unofficial),
        driver_no_sound_hardware: bool_i64(no_sound),
        driver_incomplete: bool_i64(incomplete),
    }
}

pub open spec fn chip_valid(c: ChipMetadata) -> bool {
    c.clock_hz matches Some(v) ==> v <= i64::MAX
}

pub open spec fn chip_row_of(c: ChipMetadata) -> ChipRow {
    ChipRow {
        chip_type: c.chip_type,
        name: c.name,
        tag: c.tag,
        clock_hz: match c.clock_hz {
            Some(v) => Some(v as i64),
            None => None,
        },
    }
}

/// The `chips` row of a chip; its clock must fit a signed integer.
pub fn chip_row(c: &ChipMetadata) -> (r: AppResult<ChipRow>)
    ensures
        r is Ok <==> chip_valid(*c),
        r matches Ok(row) ==> row == chip_row_of(*c),
        r matches Err(e) ==> is_overflow_error(e),
{
    let clock_hz = optional_i64(c.clock_hz, "chipClockHz")?;
    Ok(ChipRow { chip_type: c.chip_type.clone(), name: c.name.clone(), tag: copy_text(&c.tag), clock_hz })
}

pub open spec fn display_valid(d: DisplayMetadata) -> bool {
    d.pixel_clock_hz matches Some(v) ==> v <= i64::MAX
}

pub open spec fn widen_u16(v: Option<u16>) -> Option<i64> {
    match v {
        Some(x) => Some(x as i64),
        None => None,
    }
}

pub open spec fn widen_u32(v: Option<u32>) -> Option<i64> {
    match v {
        Some(x) => Some(x as i64),
        None => None,
    }
}

pub open spec fn display_row_of(d: DisplayMetadata) -> DisplayRow {
    DisplayRow {
        tag: d.tag,
        display_type: d.display_type,
        rotate: widen_u16(d.rotate),
        flip_x: flag(d.flip_x),
        width: widen_u32(d.width),
        height: widen_u32(d.height),
        refresh: d.refresh,
        pixel_clock_hz: match d.pixel_clock_hz {
            Some(v) => Some(v as i64),
            None => None,
        },
    }
}

/// The `displays` row of a display; its pixel clock must fit a signed integer.
pub fn display_row(d: &DisplayMetadata) -> (r: AppResult<DisplayRow>)
    ensures
        r is Ok <==> display_valid(*d),
        r matches Ok(row) ==> row == display_row_of(*d),
        r matches Err(e) ==> is_overflow_error(e),
{
    let pixel_clock_hz = optional_i64(d.pixel_clock_hz, "displayPixelClockHz")?;
    let rotate = match d.rotate {
        Some(x) => Some(x as i64),
        None => None,
    };
    let width = match d.width {
        Some(x) => Some(x as i64),
        None => None,
    };
    let height = match d.height {
        Some(x) => Some(x as i64),
        None => None,
    };
    Ok(
        DisplayRow {
            tag: copy_text(&d.tag),
            display_type: d.display_type.clone(),
            rotate,
            flip_x: bool_i64(d.flip_x),
            width,
            height,
            refresh: d.refresh.clone(),
            pixel_clock_hz,
        },
    )
}

pub open spec fn machine_valid(m: MachineMetadata) -> bool {
    &&& forall|i: int| 0 <= i < m.chips@.len() ==> chip_valid(#[trigger] m.chips@[i])
    &&& forall|i: int| 0 <= i < m.displays@.len() ==> display_valid(#[trigger] m.displays@[i])
}

/// The rows written for a machine: its own row, a row per chip and per display in
/// order, and its devices and software-list associations as parsed.
pub fn machine_insert_plan(m: MachineMetadata) -> (r: AppResult<MachineInsertPlan>)
    ensures
        r is Ok <==> machine_valid(m),
        r matches Ok(p) ==> {
            &&& machine_row_of(m, p.machine)
            &&& p.chips@.len() == m.chips@.len()
            &&& forall|i: int| 0 <= i < m.chips@.len() ==> p.chips@[i] == chip_row_of(#[trigger] m.chips@[i])
            &&& p.displays@.len() == m.displays@.len()
            &&& forall|i: int| 0 <= i < m.displays@.len() ==> p.displays@[i] == display_row_of(
                #[trigger] m.displays@[i],
            )
            &&& p.devices == m.devices
            &&& p.software_lists == m.software_lists
        },
        r matches Err(e) ==> is_overflow_error(e),
{
    let row = machine_row(&m);
    let mut chips: Vec<ChipRow> = Vec::new();
    let mut i: usize = 0;
    while i < m.chips.len()
        invariant
            i <= m.chips@.len(),
            chips@.len() == i,
            forall|j: int| 0 <= j < i ==> chip_valid(#[trigger] m.chips@[j]),
            forall|j: int| 0 <= j < i ==> chips@[j] == chip_row_of(#[trigger] m.chips@[j]),
        decreases m.chips.len() - i,
    {
        let c = chip_row(&m.chips[i])?;
        chips.push(c);
        i += 1;
    }
    let mut displays: Vec<DisplayRow> = Vec::new();
    let mut k: usize = 0;
    while k < m.displays.len()
        invariant
            k <= m.displays@.len(),
            displays@.len() == k,
            forall|j: int| 0 <= j < m.chips@.len() ==> chip_valid(#[trigger] m.chips@[j]),
            forall|j: int| 0 <= j < k ==> display_valid(#[trigger] m.displays@[j]),
            forall|j: int| 0 <= j < k ==> displays@[j] == display_row_of(#[trigger] m.displays@[j]),
        decreases m.displays.len() - k,
    {
        let d = display_row(&m.displays[k])?;
        displays.push(d);
        k += 1;
    }
    Ok(
        MachineInsertPlan {
            machine: row,
            chips,
            displays,
            devices: m.devices,
            software_lists: m.software_lists,
        },
    )
}

/// The count of imported machines after one more; it must not overflow.
pub fn next_machine_count(count: u64) -> (r: AppResult<u64>)
    ensures
        r is Ok <==> count < u64::MAX,
        r matches Ok(n) ==> n == count + 1,
        r matches Err(e) ==> e.code@ == "CATALOG_MACHINE_COUNT_OVERFLOW"@,
{
    if count == u64::MAX {
        return Err(
            AppError::new(
                "CATALOG_MACHINE_COUNT_OVERFLOW",
                "The imported catalog contains more machines than can be counted.",
            ),
        );
    }
    Ok(count + 1)
}

/// The importer must have stored exactly as many machines as the parser reported.
pub fn check_import_count(inserted: u64, parsed: u64) -> (r: AppResult<()>)
    ensures
        r is Ok <==> inserted == parsed,
        r matches Err(e) ==> {
            &&& e.code@ == "CATALOG_IMPORT_COUNT_MISMATCH"@
            &&& e.details@.len() == 2
            &&& e.details@[0].key@ == "parsed"@ && e.details@[0].value@ == decimal(parsed as nat)
            &&& e.details@[1].key@ == "inserted"@ && e.details@[1].value@ == decimal(inserted as nat)
        },
{
    if inserted != parsed {
        return Err(
            AppError::new(
                "CATALOG_IMPORT_COUNT_MISMATCH",
                "The parser and catalog importer disagree on the number of imported machines.",
            ).with_detail("parsed", decimal_string(parsed)).with_detail("inserted", decimal_string(inserted)),
        );
    }
    Ok(())
}

/// Activating the completed generation must change exactly its own row.
pub fn check_activation(activated: usize) -> (r: AppResult<()>)
    ensures
        r is Ok <==> activated == 1,
        r matches Err(e) ==> e.code@ == "CATALOG_IMPORT_ACTIVATION_FAILED"@,
{
    if activated != 1 {
        return Err(
            AppError::new(
                "CATALOG_IMPORT_ACTIVATION_FAILED",
                "The completed metadata generation could not be activated.",
            ),
        );
    }
    Ok(())
}

/// The summary of a completed generation: who produced it, what the document said,
/// and when and how many machines were imported.
pub open spec fn summary_of_import(
    generation_id: i64,
    identity: MameExecutableIdentity,
    listxml: ListXmlSummary,
    generated_at_epoch_ms: u64,
    imported_at_epoch_ms: u64,
    s: MetadataGenerationSummary,
) -> bool {
    &&& s.generation_id == generation_id
    &&& s.source_kind@ == source_kind_name(identity.source)
    &&& s.trust@ == trust_name(identity.trust)
    &&& s.executable_path == identity.path
    &&& s.mame_version == identity.version
    &&& s.mame_build == identity.build
    &&& s.raw_version_line == identity.raw_version_line
    &&& s.listxml_build == listxml.build
    &&& s.mame_config == listxml.mame_config
    &&& s.generated_at_epoch_ms == generated_at_epoch_ms
    &&& s.imported_at_epoch_ms == imported_at_epoch_ms
    &&& s.machine_count == listxml.machine_count
}

/// Complete an import: the counts must agree and both the import time and the count
/// must fit the catalog's integers; the summary then describes the new generation.
pub fn import_summary(
    generation_id: i64,
    identity: &MameExecutableIdentity,
    inserted: u64,
    listxml: ListXmlSummary,
    generated_at_epoch_ms: u64,
    imported_at_epoch_ms: u64,
) -> (r: AppResult<MetadataGenerationSummary>)
    ensures
        r is Ok <==> inserted == listxml.machine_count && imported_at_epoch_ms <= i64::MAX && inserted
            <= i64::MAX,
        inserted != listxml.machine_count ==> (r matches Err(e) && e.code@
            == "CATALOG_IMPORT_COUNT_MISMATCH"@),
        r matches Ok(s) ==> summary_of_import(
            generation_id,
            *identity,
            listxml,
            generated_at_epoch_ms,
            imported_at_epoch_ms,
            s,
        ),
{
    check_import_count(inserted, listxml.machine_count)?;
    to_i64(imported_at_epoch_ms, "importedAtEpochMs")?;
    to_i64(inserted, "machineCount")?;
    Ok(
        MetadataGenerationSummary {
            generation_id,
            source_kind: source_kind_token(identity.source).to_string(),
            trust: trust_token(identity.trust).to_string(),
            executable_path: identity.path.clone(),
            mame_version: identity.version.clone(),
            mame_build: copy_text(&identity.build),
            raw_version_line: identity.raw_version_line.clone(),
            listxml_build: listxml.build,
            mame_config: listxml.mame_config,
            generated_at_epoch_ms,
            imported_at_epoch_ms,
            machine_count: inserted,
        },
    )
}

/// A generation imported from an executable's output is recognised as produced by that
/// same executable, so launches and audits with it are not refused as stale.
pub proof fn law_imported_generation_matches_its_executable(
    generation_id: i64,
    identity: MameExecutableIdentity,
    listxml: ListXmlSummary,
    generated_at_epoch_ms: u64,
    imported_at_epoch_ms: u64,
    s: MetadataGenerationSummary,
)
    requires
        summary_of_import(generation_id, identity, listxml, generated_at_epoch_ms, imported_at_epoch_ms, s),
    ensures
        generation_matches(s, identity),
{
}

} // verus!
