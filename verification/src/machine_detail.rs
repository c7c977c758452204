//! The detail view of one machine in the active catalog generation: the stored machine,
//! display and software-list rows checked and turned into the view the front end reads.
//!
//! A display's refresh rate is carried as the bit pattern of the stored floating-point
//! value; nothing here reads it.

use vstd::prelude::*;

use crate::errors::{AppError, AppResult};
use crate::metadata_status::MachineSoftwareListInfo;
use crate::text::signed_decimal_string;

verus! {

broadcast use vstd::string::group_string_axioms;

/// A `machines` row joined with its parent's description.
#[derive(Debug, Clone, PartialEq, Eq)]
pub struct StoredMachineDetail {
    pub short_name: String,
    pub description: String,
    pub year: Option<String>,
    pub manufacturer: Option<String>,
    pub source_file: Option<String>,
    pub clone_of: Option<String>,
    pub parent_description: Option<String>,
    pub rom_of: Option<String>,
    pub is_bios: i64,
    pub is_device: i64,
    pub is_mechanical: i64,
    pub runnable: i64,
    pub driver_status: Option<String>,
    pub driver_emulation: Option<String>,
    pub driver_cocktail: Option<String>,
    pub driver_savestate: Option<String>,
    pub driver_requires_artwork: i64,
    pub driver_unofficial: i64,
    pub driver_no_sound_hardware: i64,
    pub driver_incomplete: i64,
}

/// A `displays` row.
#[derive(Debug, Clone, PartialEq, Eq)]
pub struct StoredDisplay {
    pub tag: Option<String>,
    pub display_type: String,
    pub rotate: Option<i64>,
    pub flip_x: i64,
    pub width: Option<i64>,
    pub height: Option<i64>,
    pub refresh_hz_bits: u64,
    pub pixel_clock_hz: Option<i64>,
}

#[derive(Debug, Clone, PartialEq, Eq)]
pub struct MachineDisplayInfo {
    pub tag: Option<String>,
    pub display_type: String,
    pub rotate: Option<i64>,
    pub flip_x: bool,
    pub width: Option<i64>,
    pub height: Option<i64>,
    pub refresh_hz_bits: u64,
    pub pixel_clock_hz: Option<i64>,
}

#[derive(Debug, Clone, PartialEq, Eq)]
pub struct MachineDetail {
    pub schema_version: u32,
    pub generation_id: i64,
    pub short_name: String,
    pub description: String,
    pub year: Option<String>,
    pub manufacturer: Option<String>,
    pub source_file: Option<String>,
    pub clone_of: Option<String>,
    pub parent_description: Option<String>,
    pub rom_of: Option<String>,
    pub is_bios: bool,
    pub is_device: bool,
    pub is_mechanical: bool,
    pub runnable: bool,
    pub driver_status: Option<String>,
    pub driver_emulation: Option<String>,
    pub driver_cocktail: Option<String>,
    pub driver_savestate: Option<String>,
    pub driver_requires_artwork: bool,
    pub driver_unofficial: bool,
    pub driver_no_sound_hardware: bool,
    pub driver_incomplete: bool,
    pub displays: Vec<MachineDisplayInfo>,
    pub software_lists: Vec<MachineSoftwareListInfo>,
}

pub open spec fn is_detail_invalid(e: AppError) -> bool {
    e.code@ == "CATALOG_DETAIL_RESULT_INVALID"@
}

pub open spec fn is_flag(v: i64) -> bool {
    v == 0 || v == 1
}

/// A stored boolean, which must be 0 or 1.
pub fn detail_bool(value: i64, field: &str) -> (r: AppResult<bool>)
    ensures
        r is Ok <==> is_flag(value),
        r matches Ok(b) ==> b == (value == 1),
        r matches Err(e) ==> is_detail_invalid(e),
{
    if value == 0 {
        Ok(false)
    } else if value == 1 {
        Ok(true)
    } else {
        Err(
            AppError::new(
                "CATALOG_DETAIL_RESULT_INVALID",
                "The catalog contains an invalid boolean value.",
            ).with_detail("field", field.to_string()).with_detail("value", signed_decimal_string(value)),
        )
    }
}

pub open spec fn display_info_of(d: StoredDisplay) -> MachineDisplayInfo {
    MachineDisplayInfo {
        tag: d.tag,
        display_type: d.display_type,
        rotate: d.rotate,
        flip_x: d.flip_x == 1,
        width: d.width,
        height: d.height,
        refresh_hz_bits: d.refresh_hz_bits,
        pixel_clock_hz: d.pixel_clock_hz,
    }
}

impl StoredDisplay {
    /// The display as shown; its flip flag must be 0 or 1.
    pub fn into_info(self) -> (r: AppResult<MachineDisplayInfo>)
        ensures
            r is Ok <==> is_flag(self.flip_x),
            r matches Ok(i) ==> i == display_info_of(self),
            r matches Err(e) ==> is_detail_invalid(e),
    {
        let flip_x = detail_bool(self.flip_x, "display.flipX")?;
        Ok(
            MachineDisplayInfo {
                tag: self.tag,
                display_type: self.display_type,
                rotate: self.rotate,
                flip_x,
                width: self.width,
                height: self.height,
                refresh_hz_bits: self.refresh_hz_bits,
                pixel_clock_hz: self.pixel_clock_hz,
            },
        )
    }
}

pub open spec fn detail_flags_valid(s: StoredMachineDetail) -> bool {
    &&& is_flag(s.is_bios) && is_flag(s.is_device) && is_flag(s.is_mechanical) && is_flag(s.runnable)
    &&& is_flag(s.driver_requires_artwork) && is_flag(s.driver_unofficial)
    &&& is_flag(s.driver_no_sound_hardware) && is_flag(s.driver_incomplete)
}

/// The detail view assembled from a stored machine and its displays and software lists.
pub open spec fn detail_of(
    s: StoredMachineDetail,
    generation_id: i64,
    displays: Seq<MachineDisplayInfo>,
    software_lists: Seq<MachineSoftwareListInfo>,
    d: MachineDetail,
) -> bool {
    &&& d.schema_version == 1 && d.generation_id == generation_id
    &&& d.short_name == s.short_name && d.description == s.description
    &&& d.year == s.year && d.manufacturer == s.manufacturer && d.source_file == s.source_file
    &&& d.clone_of == s.clone_of && d.parent_description == s.parent_description && d.rom_of == s.rom_of
    &&& d.is_bios == (s.is_bios == 1) && d.is_device == (s.is_device == 1)
    &&& d.is_mechanical == (s.is_mechanical == 1) && d.runnable == (s.runnable == 1)
    &&& d.driver_status == s.driver_status && d.driver_emulation == s.driver_emulation
    &&& d.driver_cocktail == s.driver_cocktail && d.driver_savestate == s.driver_savestate
    &&& d.driver_requires_artwork == (s.driver_requires_artwork == 1)
    &&& d.driver_unofficial == (s.driver_unofficial == 1)
    &&& d.driver_no_sound_hardware == (s.driver_no_sound_hardware == 1)
    &&& d.driver_incomplete == (s.driver_incomplete == 1)
    &&& d.displays@ == displays && d.software_lists@ == software_lists
}

impl StoredMachineDetail {
    /// The detail view; every stored flag must be 0 or 1.
    pub fn into_detail(
        self,
        generation_id: i64,
        displays: Vec<MachineDisplayInfo>,
        software_lists: Vec<MachineSoftwareListInfo>,
    ) -> (r: AppResult<MachineDetail>)
        ensures
            r is Ok <==> detail_flags_valid(self),
            r matches Ok(d) ==> detail_of(self, generation_id, displays@, software_lists@, d),
            r matches Err(e) ==> is_detail_invalid(e),
    {
        let is_bios = detail_bool(self.is_bios, "isBios")?;
        let is_device = detail_bool(self.is_device, "isDevice")?;
        let is_mechanical = detail_bool(self.is_mechanical, "isMechanical")?;
        let runnable = detail_bool(self.runnable, "runnable")?;
        let driver_requires_artwork = detail_bool(self.driver_requires_artwork, "driverRequiresArtwork")?;
        let driver_unofficial = detail_bool(self.driver_unofficial, "driverUnofficial")?;
        let driver_no_sound_hardware = detail_bool(self.driver_no_sound_hardware, "driverNoSoundHardware")?;
        let driver_incomplete = detail_bool(self.driver_incomplete, "driverIncomplete")?;
        Ok(
            MachineDetail {
                schema_version: 1,
                generation_id,
                short_name: self.short_name,
                description: self.description,
                year: self.year,
                manufacturer: self.manufacturer,
                source_file: self.source_file,
                clone_of: self.clone_of,
                parent_description: self.parent_description,
                rom_of: self.rom_of,
                is_bios,
                is_device,
                is_mechanical,
                runnable,
                driver_status: self.driver_status,
                driver_emulation: self.driver_emulation,
                driver_cocktail: self.driver_cocktail,
                driver_savestate: self.driver_savestate,
                driver_requires_artwork,
                driver_unofficial,
                driver_no_sound_hardware,
                driver_incomplete,
                displays,
                software_lists,
            },
        )
    }
}

pub open spec fn all_displays_valid(rows: Seq<StoredDisplay>) -> bool {
    forall|i: int| 0 <= i < rows.len() ==> is_flag(#[trigger] rows[i].flip_x)
}

/// The machine's detail: it must be present in the active generation, and every stored
/// flag valid; displays keep their stored order.
pub fn machine_detail(
    short_name: &str,
    generation_id: i64,
    stored: Option<StoredMachineDetail>,
    display_rows: Vec<StoredDisplay>,
    software_lists: Vec<MachineSoftwareListInfo>,
) -> (r: AppResult<MachineDetail>)
    ensures
        stored is None ==> (r matches Err(e) && e.code@ == "CATALOG_MACHINE_NOT_FOUND"@),
        stored matches Some(s) ==> (r is Ok <==> all_displays_valid(display_rows@) && detail_flags_valid(s)),
        r matches Ok(d) ==> {
            &&& stored matches Some(s) && detail_of(
                s,
                generation_id,
                d.displays@,
                software_lists@,
                d,
            )
            &&& d.displays@.len() == display_rows@.len()
            &&& forall|i: int| 0 <= i < display_rows@.len() ==> d.displays@[i] == display_info_of(
                #[trigger] display_rows@[i],
            )
        },
{
    let machine = match stored {
        Some(s) => s,
        None => {
            return Err(
                AppError::new(
                    "CATALOG_MACHINE_NOT_FOUND",
                    "The requested machine is not present in the active MAME catalog.",
                ).with_detail("shortName", short_name.to_string()),
            );
        },
    };
    let mut displays: Vec<MachineDisplayInfo> = Vec::new();
    let mut rest = display_rows;
    let ghost all = rest@;
    let n: usize = rest.len();
    let mut k: usize = 0;
    while rest.len() > 0
        invariant
            all == display_rows@,
            stored is Some,
            n == all.len(),
            k + rest@.len() == all.len(),
            rest@ == all.subrange(k as int, all.len() as int),
            displays@.len() == k,
            forall|i: int| 0 <= i < k ==> is_flag(#[trigger] all[i].flip_x),
            forall|i: int| 0 <= i < k ==> displays@[i] == display_info_of(#[trigger] all[i]),
        decreases rest.len(),
    {
        let row = rest.remove(0);
        assert(row == all[k as int]);
        let info = row.into_info()?;
        displays.push(info);
        k += 1;
    }
    machine.into_detail(generation_id, displays, software_lists)
}

} // verus!
