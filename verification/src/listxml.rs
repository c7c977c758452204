//! Machine metadata read from MAME's `-listxml` document.
//!
//! The document is consumed one event at a time by [`ListXmlParser`], which hands back each
//! machine as soon as its element closes, so a caller can store machines as they arrive.
//! A display's refresh rate is kept as the text MAME wrote; checking that it is a finite
//! positive number is floating-point work, left to the caller.

use vstd::prelude::*;

use crate::errors::{AppError, AppResult};
use crate::text::{chars_of, decimal, law_parse_decimal_round_trip, parse_bounded, parse_unsigned, str_equal, string_from, trim};
use crate::xml::{
    append_fragment, append_optional_fragment, attr_value, event_from, find_attribute, is_final_event, joined,
    read_events, terminated, xml_document_events, RawXmlEvent, XmlAttribute, XmlEvent, XmlEventReader, XmlFault,
};

verus! {

broadcast use vstd::string::group_string_axioms;

#[derive(Debug, Clone, PartialEq, Eq)]
pub struct DriverMetadata {
    pub status: String,
    pub emulation: String,
    pub cocktail: Option<String>,
    pub savestate: String,
    pub requires_artwork: bool,
    pub unofficial: bool,
    pub no_sound_hardware: bool,
    pub incomplete: bool,
}

#[derive(Debug, Clone, PartialEq, Eq)]
pub struct ChipMetadata {
    pub chip_type: String,
    pub name: String,
    pub tag: Option<String>,
    pub clock_hz: Option<u64>,
}

#[derive(Debug, Clone, PartialEq, Eq)]
pub struct DisplayMetadata {
    pub tag: Option<String>,
    pub display_type: String,
    pub rotate: Option<u16>,
    pub flip_x: bool,
    pub width: Option<u32>,
    pub height: Option<u32>,
    /// The refresh rate in hertz, as written in the document.
    pub refresh: String,
    pub pixel_clock_hz: Option<u64>,
}

#[derive(Debug, Clone, PartialEq, Eq)]
pub struct DeviceMetadata {
    pub device_type: String,
    pub tag: Option<String>,
    pub fixed_image: Option<String>,
    pub mandatory: Option<String>,
    pub interface: Option<String>,
    pub instance_name: Option<String>,
    pub instance_brief_name: Option<String>,
    pub extensions: Vec<String>,
}

#[derive(Debug, Clone, PartialEq, Eq)]
pub struct SoftwareListAssociation {
    pub tag: String,
    pub name: String,
    pub status: String,
    pub filter: Option<String>,
}

#[derive(Debug, Clone, PartialEq, Eq)]
pub struct MachineMetadata {
    pub short_name: String,
    pub description: String,
    pub year: Option<String>,
    pub manufacturer: Option<String>,
    pub source_file: Option<String>,
    pub clone_of: Option<String>,
    pub rom_of: Option<String>,
    pub is_bios: bool,
    pub is_device: bool,
    pub is_mechanical: bool,
    pub runnable: bool,
    pub driver: Option<DriverMetadata>,
    pub chips: Vec<ChipMetadata>,
    pub displays: Vec<DisplayMetadata>,
    pub devices: Vec<DeviceMetadata>,
    pub software_lists: Vec<SoftwareListAssociation>,
}

/// What the root element and the document as a whole say.
#[derive(Debug, Clone, PartialEq, Eq)]
pub struct ListXmlSummary {
    pub build: Option<String>,
    pub mame_config: Option<String>,
    pub machine_count: u64,
}

pub open spec fn is_structure_error(e: AppError) -> bool {
    e.code@ == "MAME_METADATA_XML_STRUCTURE_INVALID"@
}

fn structure_error(message: &str) -> (e: AppError)
    ensures
        is_structure_error(e),
        e.message@ == message@,
{
    AppError::new("MAME_METADATA_XML_STRUCTURE_INVALID", message)
}

/// The error code of an XML fault met while reading `-listxml` output.
pub open spec fn metadata_fault_code(fault: XmlFault) -> Seq<char> {
    match fault {
        XmlFault::Syntax => "MAME_METADATA_XML_INVALID"@,
        XmlFault::AttributeMalformed => "MAME_METADATA_XML_ATTRIBUTE_INVALID"@,
        XmlFault::AttributeValueInvalid => "MAME_METADATA_XML_ATTRIBUTE_INVALID"@,
        XmlFault::AttributeDuplicate(_) => "MAME_METADATA_XML_ATTRIBUTE_DUPLICATE"@,
        XmlFault::TextEscapeInvalid => "MAME_METADATA_XML_TEXT_INVALID"@,
        XmlFault::CharacterReferenceInvalid => "MAME_METADATA_XML_TEXT_INVALID"@,
        XmlFault::EntityUnsupported(_) => "MAME_METADATA_XML_ENTITY_UNSUPPORTED"@,
    }
}

/// The error for a fault met while reading the document.
pub fn fault_error(fault: XmlFault) -> (e: AppError)
    ensures
        e.code@ == metadata_fault_code(fault),
{
    match fault {
        XmlFault::Syntax => AppError::new(
            "MAME_METADATA_XML_INVALID",
            "MAME -listxml output is not valid XML.",
        ),
        XmlFault::AttributeMalformed => AppError::new(
            "MAME_METADATA_XML_ATTRIBUTE_INVALID",
            "MAME -listxml contains a malformed XML attribute.",
        ),
        XmlFault::AttributeValueInvalid => AppError::new(
            "MAME_METADATA_XML_ATTRIBUTE_INVALID",
            "MAME -listxml contains an XML attribute value that cannot be decoded.",
        ),
        XmlFault::AttributeDuplicate(key) => AppError::new(
            "MAME_METADATA_XML_ATTRIBUTE_DUPLICATE",
            "MAME -listxml contains a duplicate XML attribute.",
        ).with_detail("attribute", key),
        XmlFault::TextEscapeInvalid => AppError::new(
            "MAME_METADATA_XML_TEXT_INVALID",
            "MAME -listxml contains invalid XML text escaping.",
        ),
        XmlFault::CharacterReferenceInvalid => AppError::new(
            "MAME_METADATA_XML_TEXT_INVALID",
            "MAME -listxml contains an invalid XML character reference.",
        ),
        XmlFault::EntityUnsupported(name) => AppError::new(
            "MAME_METADATA_XML_ENTITY_UNSUPPORTED",
            "MAME -listxml contains an unsupported XML entity reference.",
        ).with_detail("entity", name),
    }
}

/// A required attribute: present and not empty.
pub open spec fn required(attrs: Seq<XmlAttribute>, name: Seq<char>) -> Option<Seq<char>> {
    match attr_value(attrs, name) {
        Some(v) => if v.len() > 0 {
            Some(v)
        } else {
            None
        },
        None => None,
    }
}

/// The value of a required attribute.
pub fn required_attr(attrs: &[XmlAttribute], name: &str) -> (r: AppResult<String>)
    ensures
        match r {
            Ok(v) => required(attrs@, name@) == Some(v@),
            Err(e) => required(attrs@, name@) is None && e.code@
                == "MAME_METADATA_REQUIRED_ATTRIBUTE_MISSING"@,
        },
{
    match find_attribute(attrs, name) {
        Some(v) => {
            if chars_of(v).len() > 0 {
                return Ok(v.to_owned());
            }
        },
        None => {},
    }
    Err(
        AppError::new(
            "MAME_METADATA_REQUIRED_ATTRIBUTE_MISSING",
            "MAME -listxml is missing a required metadata attribute.",
        ).with_detail("attribute", name.to_owned()),
    )
}

/// The value of an optional attribute.
pub fn optional_attr(attrs: &[XmlAttribute], name: &str) -> (r: Option<String>)
    ensures
        crate::bulk_audit::text_view(r) == attr_value(attrs@, name@),
{
    match find_attribute(attrs, name) {
        Some(v) => Some(v.to_owned()),
        None => None,
    }
}

pub open spec fn is_invalid_attribute(e: AppError) -> bool {
    e.code@ == "MAME_METADATA_ATTRIBUTE_INVALID"@
}

fn invalid_attribute(element: &str, attribute: &str, value: String) -> (e: AppError)
    ensures
        is_invalid_attribute(e),
{
    AppError::new(
        "MAME_METADATA_ATTRIBUTE_INVALID",
        "MAME -listxml contains an invalid metadata attribute value.",
    ).with_detail("element", element.to_owned()).with_detail("attribute", attribute.to_owned()).with_detail(
        "value",
        value,
    )
}

/// A `yes`/`no` attribute, with its default when absent; any other value is invalid.
pub open spec fn yes_no(attrs: Seq<XmlAttribute>, name: Seq<char>, default: bool) -> Option<bool> {
    match attr_value(attrs, name) {
        None => Some(default),
        Some(v) => if v == "yes"@ {
            Some(true)
        } else if v == "no"@ {
            Some(false)
        } else {
            None
        },
    }
}

/// The value of a `yes`/`no` attribute.
pub fn yes_no_attr(attrs: &[XmlAttribute], name: &str, default: bool) -> (r: AppResult<bool>)
    ensures
        match r {
            Ok(b) => yes_no(attrs@, name@, default) == Some(b),
            Err(e) => yes_no(attrs@, name@, default) is None && is_invalid_attribute(e),
        },
{
    match find_attribute(attrs, name) {
        None => Ok(default),
        Some(v) => if str_equal(v, "yes") {
            Ok(true)
        } else if str_equal(v, "no") {
            Ok(false)
        } else {
            Err(invalid_attribute("boolean", name, v.to_owned()))
        },
    }
}

/// An optional unsigned attribute no larger than `max`; a value that is not such a number
/// is invalid.
pub open spec fn number_attr(attrs: Seq<XmlAttribute>, name: Seq<char>, max: nat) -> Option<Option<nat>> {
    match attr_value(attrs, name) {
        None => Some(None),
        Some(v) => match parse_unsigned(v) {
            Some(n) => if n <= max {
                Some(Some(n))
            } else {
                None
            },
            None => None,
        },
    }
}

/// The value of an optional unsigned attribute.
pub fn optional_number(attrs: &[XmlAttribute], name: &str, max: u64) -> (r: AppResult<Option<u64>>)
    ensures
        match r {
            Ok(Some(n)) => number_attr(attrs@, name@, max as nat) == Some(Some(n as nat)),
            Ok(None) => number_attr(attrs@, name@, max as nat) == Some(None::<nat>),
            Err(e) => number_attr(attrs@, name@, max as nat) is None && is_invalid_attribute(e),
        },
{
    match find_attribute(attrs, name) {
        None => Ok(None),
        Some(v) => {
            let chars = chars_of(v);
            match parse_bounded(chars.as_slice(), max) {
                Some(n) => Ok(Some(n)),
                None => Err(invalid_attribute("numeric", name, v.to_owned())),
            }
        },
    }
}

/// The attributes of a `<driver>` element that it accepts.
pub open spec fn driver_accepted(attrs: Seq<XmlAttribute>) -> bool {
    &&& required(attrs, "status"@) is Some
    &&& required(attrs, "emulation"@) is Some
    &&& required(attrs, "savestate"@) is Some
    &&& yes_no(attrs, "requiresartwork"@, false) is Some
    &&& yes_no(attrs, "unofficial"@, false) is Some
    &&& yes_no(attrs, "nosoundhardware"@, false) is Some
    &&& yes_no(attrs, "incomplete"@, false) is Some
}

/// A driver read from the attributes of a `<driver>` element.
pub open spec fn driver_read(attrs: Seq<XmlAttribute>, d: DriverMetadata) -> bool {
    &&& required(attrs, "status"@) == Some(d.status@)
    &&& required(attrs, "emulation"@) == Some(d.emulation@)
    &&& crate::bulk_audit::text_view(d.cocktail) == attr_value(attrs, "cocktail"@)
    &&& required(attrs, "savestate"@) == Some(d.savestate@)
    &&& yes_no(attrs, "requiresartwork"@, false) == Some(d.requires_artwork)
    &&& yes_no(attrs, "unofficial"@, false) == Some(d.unofficial)
    &&& yes_no(attrs, "nosoundhardware"@, false) == Some(d.no_sound_hardware)
    &&& yes_no(attrs, "incomplete"@, false) == Some(d.incomplete)
}

/// A `<driver>` element.
pub fn parse_driver(attrs: &[XmlAttribute]) -> (r: AppResult<DriverMetadata>)
    ensures
        r is Ok <==> driver_accepted(attrs@),
        r matches Ok(d) ==> driver_read(attrs@, d),
{
    let status = required_attr(attrs, "status")?;
    let emulation = required_attr(attrs, "emulation")?;
    let cocktail = optional_attr(attrs, "cocktail");
    let savestate = required_attr(attrs, "savestate")?;
    let requires_artwork = yes_no_attr(attrs, "requiresartwork", false)?;
    let unofficial = yes_no_attr(attrs, "unofficial", false)?;
    let no_sound_hardware = yes_no_attr(attrs, "nosoundhardware", false)?;
    let incomplete = yes_no_attr(attrs, "incomplete", false)?;
    Ok(
        DriverMetadata {
            status,
            emulation,
            cocktail,
            savestate,
            requires_artwork,
            unofficial,
            no_sound_hardware,
            incomplete,
        },
    )
}

/// The attributes of a `<chip>` element that it accepts.
pub open spec fn chip_accepted(attrs: Seq<XmlAttribute>) -> bool {
    required(attrs, "type"@) is Some && required(attrs, "name"@) is Some && number_attr(
        attrs,
        "clock"@,
        u64::MAX as nat,
    ) is Some
}

/// A chip read from the attributes of a `<chip>` element.
pub open spec fn chip_read(attrs: Seq<XmlAttribute>, c: ChipMetadata) -> bool {
    &&& required(attrs, "type"@) == Some(c.chip_type@)
    &&& required(attrs, "name"@) == Some(c.name@)
    &&& crate::bulk_audit::text_view(c.tag) == attr_value(attrs, "tag"@)
    &&& number_attr(attrs, "clock"@, u64::MAX as nat) == Some(
        match c.clock_hz {
            Some(n) => Some(n as nat),
            None => None::<nat>,
        },
    )
}

/// A `<chip>` element.
pub fn parse_chip(attrs: &[XmlAttribute]) -> (r: AppResult<ChipMetadata>)
    ensures
        r is Ok <==> chip_accepted(attrs@),
        r matches Ok(c) ==> chip_read(attrs@, c),
{
    let chip_type = required_attr(attrs, "type")?;
    let name = required_attr(attrs, "name")?;
    let tag = optional_attr(attrs, "tag");
    let clock_hz = optional_number(attrs, "clock", u64::MAX)?;
    Ok(ChipMetadata { chip_type, name, tag, clock_hz })
}

/// A rotation MAME can report.
pub open spec fn valid_rotation(n: nat) -> bool {
    n == 0 || n == 90 || n == 180 || n == 270
}

/// The attributes of a `<display>` element that it accepts.
pub open spec fn display_accepted(attrs: Seq<XmlAttribute>) -> bool {
    &&& number_attr(attrs, "rotate"@, u16::MAX as nat) matches Some(rot) && (rot matches Some(n) ==> valid_rotation(n))
    &&& required(attrs, "refresh"@) is Some
    &&& required(attrs, "type"@) is Some
    &&& yes_no(attrs, "flipx"@, false) is Some
    &&& number_attr(attrs, "width"@, u32::MAX as nat) is Some
    &&& number_attr(attrs, "height"@, u32::MAX as nat) is Some
    &&& number_attr(attrs, "pixclock"@, u64::MAX as nat) is Some
}

/// An optional number as a mathematical value.
pub open spec fn opt_nat<T: Integer>(o: Option<T>) -> Option<nat> {
    match o {
        Some(n) => Some(n as nat),
        None => None,
    }
}

/// A display read from the attributes of a `<display>` element: each field from the
/// attribute of its name.
pub open spec fn display_read(attrs: Seq<XmlAttribute>, d: DisplayMetadata) -> bool {
    &&& required(attrs, "type"@) == Some(d.display_type@)
    &&& required(attrs, "refresh"@) == Some(d.refresh@)
    &&& crate::bulk_audit::text_view(d.tag) == attr_value(attrs, "tag"@)
    &&& yes_no(attrs, "flipx"@, false) == Some(d.flip_x)
    &&& number_attr(attrs, "rotate"@, u16::MAX as nat) == Some(opt_nat(d.rotate))
    &&& number_attr(attrs, "width"@, u32::MAX as nat) == Some(opt_nat(d.width))
    &&& number_attr(attrs, "height"@, u32::MAX as nat) == Some(opt_nat(d.height))
    &&& number_attr(attrs, "pixclock"@, u64::MAX as nat) == Some(opt_nat(d.pixel_clock_hz))
}

/// A display's size is the one its element writes: the `width` and `height` attributes,
/// written as the decimal numbers `w` and `h`, give a display `w` wide and `h` high, and a
/// `rotate` attribute written as `n` gives rotation `n`; an absent attribute gives no value.
pub proof fn law_display_size_is_its_attributes(attrs: Seq<XmlAttribute>, d: DisplayMetadata, w: nat, h: nat, n: nat)
    requires
        display_read(attrs, d),
    ensures
        attr_value(attrs, "width"@) == Some(decimal(w)) ==> opt_nat(d.width) == Some(w),
        attr_value(attrs, "height"@) == Some(decimal(h)) ==> opt_nat(d.height) == Some(h),
        attr_value(attrs, "rotate"@) == Some(decimal(n)) ==> opt_nat(d.rotate) == Some(n),
        attr_value(attrs, "width"@) is None ==> d.width is None,
        attr_value(attrs, "height"@) is None ==> d.height is None,
        attr_value(attrs, "rotate"@) is None ==> d.rotate is None,
{
    law_parse_decimal_round_trip(w);
    law_parse_decimal_round_trip(h);
    law_parse_decimal_round_trip(n);
}

/// A `<display>` element. Its refresh rate must be present; whether it is a positive
/// number is checked by the caller.
pub fn parse_display(attrs: &[XmlAttribute]) -> (r: AppResult<DisplayMetadata>)
    ensures
        r is Ok <==> display_accepted(attrs@),
        r matches Ok(d) ==> display_read(attrs@, d),
{
    let rotate = optional_number(attrs, "rotate", u16::MAX as u64)?;
    match rotate {
        Some(n) => {
            if !(n == 0 || n == 90 || n == 180 || n == 270) {
                return Err(invalid_attribute("display", "rotate", crate::text::decimal_string(n)));
            }
        },
        None => {},
    }
    let refresh = match find_attribute(attrs, "refresh") {
        Some(v) => {
            if chars_of(v).len() == 0 {
                return Err(required_attr(attrs, "refresh").unwrap_err());
            }
            v.to_owned()
        },
        None => return Err(required_attr(attrs, "refresh").unwrap_err()),
    };
    let tag = optional_attr(attrs, "tag");
    let display_type = required_attr(attrs, "type")?;
    let flip_x = yes_no_attr(attrs, "flipx", false)?;
    let width = optional_number(attrs, "width", u32::MAX as u64)?;
    let height = optional_number(attrs, "height", u32::MAX as u64)?;
    let pixel_clock_hz = optional_number(attrs, "pixclock", u64::MAX)?;
    Ok(
        DisplayMetadata {
            tag,
            display_type,
            rotate: match rotate {
                Some(n) => Some(n as u16),
                None => None,
            },
            flip_x,
            width: match width {
                Some(n) => Some(n as u32),
                None => None,
            },
            height: match height {
                Some(n) => Some(n as u32),
                None => None,
            },
            refresh,
            pixel_clock_hz,
        },
    )
}

/// A device read from the attributes of a `<device>` element, before its instance and
/// extensions.
pub open spec fn device_read(attrs: Seq<XmlAttribute>, d: DeviceMetadata) -> bool {
    &&& required(attrs, "type"@) == Some(d.device_type@)
    &&& crate::bulk_audit::text_view(d.tag) == attr_value(attrs, "tag"@)
    &&& crate::bulk_audit::text_view(d.fixed_image) == attr_value(attrs, "fixed_image"@)
    &&& crate::bulk_audit::text_view(d.mandatory) == attr_value(attrs, "mandatory"@)
    &&& crate::bulk_audit::text_view(d.interface) == attr_value(attrs, "interface"@)
    &&& d.instance_name is None && d.instance_brief_name is None
    &&& d.extensions@.len() == 0
}

/// A `<device>` element, before its instance and extensions.
pub fn parse_device(attrs: &[XmlAttribute]) -> (r: AppResult<DeviceMetadata>)
    ensures
        r is Ok <==> required(attrs@, "type"@) is Some,
        r matches Ok(d) ==> device_read(attrs@, d),
{
    let device_type = required_attr(attrs, "type")?;
    Ok(
        DeviceMetadata {
            device_type,
            tag: optional_attr(attrs, "tag"),
            fixed_image: optional_attr(attrs, "fixed_image"),
            mandatory: optional_attr(attrs, "mandatory"),
            interface: optional_attr(attrs, "interface"),
            instance_name: None,
            instance_brief_name: None,
            extensions: Vec::new(),
        },
    )
}

/// The attributes of a machine's `<softwarelist>` element that it accepts.
pub open spec fn list_accepted(attrs: Seq<XmlAttribute>) -> bool {
    required(attrs, "tag"@) is Some && required(attrs, "name"@) is Some && required(attrs, "status"@) is Some
}

/// A software list association read from the attributes of a `<softwarelist>` element.
pub open spec fn list_read(attrs: Seq<XmlAttribute>, l: SoftwareListAssociation) -> bool {
    &&& required(attrs, "tag"@) == Some(l.tag@)
    &&& required(attrs, "name"@) == Some(l.name@)
    &&& required(attrs, "status"@) == Some(l.status@)
    &&& crate::bulk_audit::text_view(l.filter) == attr_value(attrs, "filter"@)
}

/// A `<softwarelist>` element of a machine.
pub fn parse_software_list_association(attrs: &[XmlAttribute]) -> (r: AppResult<SoftwareListAssociation>)
    ensures
        r is Ok <==> list_accepted(attrs@),
        r matches Ok(l) ==> list_read(attrs@, l),
{
    let tag = required_attr(attrs, "tag")?;
    let name = required_attr(attrs, "name")?;
    let status = required_attr(attrs, "status")?;
    let filter = optional_attr(attrs, "filter");
    Ok(SoftwareListAssociation { tag, name, status, filter })
}

/// The attributes of a `<machine>` element that it accepts.
pub open spec fn machine_accepted(attrs: Seq<XmlAttribute>) -> bool {
    &&& required(attrs, "name"@) is Some
    &&& yes_no(attrs, "isbios"@, false) is Some
    &&& yes_no(attrs, "isdevice"@, false) is Some
    &&& yes_no(attrs, "ismechanical"@, false) is Some
    &&& yes_no(attrs, "runnable"@, true) is Some
}

/// A machine started from the attributes of its element: name, source file, parents and
/// flags from the attributes; no text, driver, chips, displays, devices or software lists.
pub open spec fn machine_started(attrs: Seq<XmlAttribute>, b: MachineBuilder) -> bool {
    let m = b.machine;
    &&& b.current_device is None
    &&& required(attrs, "name"@) == Some(m.short_name@)
    &&& m.description@.len() == 0 && m.year is None && m.manufacturer is None
    &&& crate::bulk_audit::text_view(m.source_file) == attr_value(attrs, "sourcefile"@)
    &&& crate::bulk_audit::text_view(m.clone_of) == attr_value(attrs, "cloneof"@)
    &&& crate::bulk_audit::text_view(m.rom_of) == attr_value(attrs, "romof"@)
    &&& yes_no(attrs, "isbios"@, false) == Some(m.is_bios)
    &&& yes_no(attrs, "isdevice"@, false) == Some(m.is_device)
    &&& yes_no(attrs, "ismechanical"@, false) == Some(m.is_mechanical)
    &&& yes_no(attrs, "runnable"@, true) == Some(m.runnable)
    &&& m.driver is None
    &&& m.chips@.len() == 0 && m.displays@.len() == 0
    &&& m.devices@.len() == 0 && m.software_lists@.len() == 0
}

/// A machine being read: its metadata so far and the device element that is open, if any.
#[derive(Debug)]
pub struct MachineBuilder {
    pub machine: MachineMetadata,
    pub current_device: Option<DeviceMetadata>,
}

impl MachineBuilder {
    /// Start a machine from its element's attributes.
    pub fn new(attrs: &[XmlAttribute]) -> (r: AppResult<MachineBuilder>)
        ensures
            r is Ok <==> machine_accepted(attrs@),
            r matches Ok(b) ==> machine_started(attrs@, b),
    {
        let short_name = required_attr(attrs, "name")?;
        let source_file = optional_attr(attrs, "sourcefile");
        let clone_of = optional_attr(attrs, "cloneof");
        let rom_of = optional_attr(attrs, "romof");
        let is_bios = yes_no_attr(attrs, "isbios", false)?;
        let is_device = yes_no_attr(attrs, "isdevice", false)?;
        let is_mechanical = yes_no_attr(attrs, "ismechanical", false)?;
        let runnable = yes_no_attr(attrs, "runnable", true)?;
        Ok(
            MachineBuilder {
                machine: MachineMetadata {
                    short_name,
                    description: String::new(),
                    year: None,
                    manufacturer: None,
                    source_file,
                    clone_of,
                    rom_of,
                    is_bios,
                    is_device,
                    is_mechanical,
                    runnable,
                    driver: None,
                    chips: Vec::new(),
                    displays: Vec::new(),
                    devices: Vec::new(),
                    software_lists: Vec::new(),
                },
                current_device: None,
            },
        )
    }

    /// The finished machine: no device may be open and the description may not be blank.
    pub fn finish(self) -> (r: AppResult<MachineMetadata>)
        ensures
            r is Ok <==> self.current_device is None && trim(self.machine.description@).len() > 0,
            r matches Ok(m) ==> m == self.machine,
            r matches Err(e) ==> (self.current_device is Some ==> is_structure_error(e)),
            r matches Err(e) ==> (self.current_device is None ==> e.code@
                == "MAME_METADATA_MACHINE_DESCRIPTION_MISSING"@),
    {
        if self.current_device.is_some() {
            return Err(
                structure_error(
                    "MAME -listxml ended a machine before its device element was complete.",
                ),
            );
        }
        let chars = chars_of(self.machine.description.as_str());
        if crate::text::trim_chars(chars.as_slice()).len() == 0 {
            return Err(
                AppError::new(
                    "MAME_METADATA_MACHINE_DESCRIPTION_MISSING",
                    "A MAME machine record has no description.",
                ).with_detail("machine", self.machine.short_name),
            );
        }
        Ok(self.machine)
    }
}

/// Which text element is open.
#[derive(Debug, Clone, Copy, PartialEq, Eq, Structural)]
pub enum TextTarget {
    Description,
    Year,
    Manufacturer,
}

/// The machine after the text `value` of the element `target`: its trimmed text joined to
/// that field, all else kept; blank text changes nothing.
pub open spec fn text_added(b: MachineBuilder, nb: MachineBuilder, target: TextTarget, value: Seq<char>) -> bool {
    let t = trim(value);
    if t.len() == 0 {
        nb == b
    } else {
        match target {
            TextTarget::Description => nb.machine.description@ == joined(b.machine.description@, t)
                && nb == (MachineBuilder {
                machine: MachineMetadata { description: nb.machine.description, ..b.machine },
                ..b
            }),
            TextTarget::Year => (nb.machine.year matches Some(y) && y@ == match b.machine.year {
                Some(o) => joined(o@, t),
                None => t,
            }) && nb == (MachineBuilder { machine: MachineMetadata { year: nb.machine.year, ..b.machine }, ..b }),
            TextTarget::Manufacturer => (nb.machine.manufacturer matches Some(m) && m@ == match b.machine.manufacturer {
                Some(o) => joined(o@, t),
                None => t,
            }) && nb == (MachineBuilder {
                machine: MachineMetadata { manufacturer: nb.machine.manufacturer, ..b.machine },
                ..b
            }),
        }
    }
}

/// Add the trimmed text of an element to the field it fills; blank text adds nothing.
pub fn append_text(machine: &mut MachineBuilder, target: TextTarget, value: &str)
    ensures
        text_added(*old(machine), *final(machine), target, value@),
{
    let chars = chars_of(value);
    let trimmed_chars = crate::text::trim_chars(chars.as_slice());
    if trimmed_chars.len() == 0 {
        return;
    }
    let trimmed = string_from(trimmed_chars.as_slice());
    match target {
        TextTarget::Description => append_fragment(&mut machine.machine.description, trimmed.as_str()),
        TextTarget::Year => append_optional_fragment(&mut machine.machine.year, trimmed.as_str()),
        TextTarget::Manufacturer => append_optional_fragment(
            &mut machine.machine.manufacturer,
            trimmed.as_str(),
        ),
    }
}

/// The reading state of a `-listxml` document.
#[derive(Debug)]
pub struct ListXmlParser {
    pub root_seen: bool,
    pub root_closed: bool,
    pub root_build: Option<String>,
    pub mame_config: Option<String>,
    pub current: Option<MachineBuilder>,
    pub text_target: Option<TextTarget>,
    pub machine_count: u64,
}

/// The parser's invariant: text is read only inside a machine.
pub open spec fn parser_wf(p: ListXmlParser) -> bool {
    p.text_target is Some ==> p.current is Some
}

pub open spec fn is_start(e: XmlEvent, tag: Seq<char>) -> bool {
    e matches XmlEvent::Start { name, .. } && name@ == tag
}

pub open spec fn is_end(e: XmlEvent, tag: Seq<char>) -> bool {
    e matches XmlEvent::End { name } && name@ == tag
}

/// The parser after a step that changed only the machine being read.
pub open spec fn only_current_changed(old: ListXmlParser, new: ListXmlParser) -> bool {
    new == (ListXmlParser { current: new.current, ..old })
}

/// The empty elements of a machine that carry its metadata.
pub open spec fn machine_element(name: Seq<char>) -> bool {
    name == "driver"@ || name == "chip"@ || name == "display"@ || name == "device"@ || name
        == "instance"@ || name == "extension"@ || name == "softwarelist"@
}

/// What an empty metadata element `name` does to the machine `b` being read: whether it
/// is accepted (`ok`) and the machine after it (`next`). A driver replaces the machine's
/// driver; a chip, display, device or software list is appended to its list; an instance
/// names the open device and an extension is appended to it.
pub open spec fn element_read(b: MachineBuilder, name: Seq<char>, attrs: Seq<XmlAttribute>, ok: bool, next: Option<MachineBuilder>) -> bool {
    if name == "driver"@ {
        &&& ok <==> driver_accepted(attrs)
        &&& ok ==> (next matches Some(nb) && nb.machine.driver matches Some(d) && driver_read(attrs, d)
            && nb == (MachineBuilder { machine: MachineMetadata { driver: Some(d), ..b.machine }, ..b }))
    } else if name == "chip"@ {
        &&& ok <==> chip_accepted(attrs)
        &&& ok ==> (next matches Some(nb) && nb.machine.chips@.len() == b.machine.chips@.len() + 1
            && nb.machine.chips@.drop_last() == b.machine.chips@ && chip_read(attrs, nb.machine.chips@.last())
            && nb == (MachineBuilder { machine: MachineMetadata { chips: nb.machine.chips, ..b.machine }, ..b }))
    } else if name == "display"@ {
        &&& ok <==> display_accepted(attrs)
        &&& ok ==> (next matches Some(nb) && nb.machine.displays@.len() == b.machine.displays@.len() + 1
            && nb.machine.displays@.drop_last() == b.machine.displays@ && display_read(
            attrs,
            nb.machine.displays@.last(),
        ) && nb == (MachineBuilder {
            machine: MachineMetadata { displays: nb.machine.displays, ..b.machine },
            ..b
        }))
    } else if name == "device"@ {
        &&& ok <==> required(attrs, "type"@) is Some
        &&& ok ==> (next matches Some(nb) && nb.machine.devices@.len() == b.machine.devices@.len() + 1
            && nb.machine.devices@.drop_last() == b.machine.devices@ && device_read(
            attrs,
            nb.machine.devices@.last(),
        ) && nb == (MachineBuilder { machine: MachineMetadata { devices: nb.machine.devices, ..b.machine }, ..b }))
    } else if name == "softwarelist"@ {
        &&& ok <==> list_accepted(attrs)
        &&& ok ==> (next matches Some(nb) && nb.machine.software_lists@.len() == b.machine.software_lists@.len()
            + 1 && nb.machine.software_lists@.drop_last() == b.machine.software_lists@ && list_read(
            attrs,
            nb.machine.software_lists@.last(),
        ) && nb == (MachineBuilder {
            machine: MachineMetadata { software_lists: nb.machine.software_lists, ..b.machine },
            ..b
        }))
    } else {
        match b.current_device {
            None => !ok,
            Some(dev) => if name == "instance"@ {
                &&& ok <==> required(attrs, "name"@) is Some && required(attrs, "briefname"@) is Some
                &&& ok ==> (next matches Some(nb) && nb.current_device matches Some(nd)
                    && crate::bulk_audit::text_view(nd.instance_name) == required(attrs, "name"@)
                    && crate::bulk_audit::text_view(nd.instance_brief_name) == required(attrs, "briefname"@)
                    && nd == (DeviceMetadata {
                    instance_name: nd.instance_name,
                    instance_brief_name: nd.instance_brief_name,
                    ..dev
                }) && nb == (MachineBuilder { current_device: Some(nd), ..b }))
            } else {
                &&& ok <==> required(attrs, "name"@) is Some
                &&& ok ==> (next matches Some(nb) && nb.current_device matches Some(nd) && nd.extensions@.len()
                    == dev.extensions@.len() + 1 && nd.extensions@.drop_last() == dev.extensions@
                    && required(attrs, "name"@) == Some(nd.extensions@.last()@) && nd == (DeviceMetadata {
                    extensions: nd.extensions,
                    ..dev
                }) && nb == (MachineBuilder { current_device: Some(nd), ..b }))
            },
        }
    }
}

/// A step that failed with a structure error.
pub open spec fn structure_failure<T>(r: AppResult<T>) -> bool {
    r matches Err(e) && is_structure_error(e)
}

/// A step that failed with this error code.
pub open spec fn failure_with<T>(r: AppResult<T>, code: Seq<char>) -> bool {
    r matches Err(e) && e.code@ == code
}

/// A step that succeeded, handed back no machine and changed nothing.
pub open spec fn unchanged(old: ListXmlParser, r: AppResult<Option<MachineMetadata>>, new: ListXmlParser) -> bool {
    r == Ok::<Option<MachineMetadata>, AppError>(None) && new == old
}

/// A step that succeeded and handed back no machine.
pub open spec fn quiet(r: AppResult<Option<MachineMetadata>>) -> bool {
    r == Ok::<Option<MachineMetadata>, AppError>(None)
}

/// The start of a text element: only inside a machine, with no other text element open.
pub open spec fn start_text(old: ListXmlParser, target: TextTarget, r: AppResult<Option<MachineMetadata>>, new: ListXmlParser) -> bool {
    if old.current is Some && old.text_target is None {
        quiet(r) && new == (ListXmlParser { text_target: Some(target), ..old })
    } else {
        structure_failure(r)
    }
}

/// The start of a `<device>` element: only inside a machine with no device open; it opens
/// the device read from its attributes.
pub open spec fn start_device(old: ListXmlParser, attributes: Result<Vec<XmlAttribute>, XmlFault>, r: AppResult<Option<MachineMetadata>>, new: ListXmlParser) -> bool {
    match old.current {
        None => structure_failure(r),
        Some(b) => if b.current_device is Some {
            structure_failure(r)
        } else {
            match attributes {
                Err(f) => failure_with(r, metadata_fault_code(f)),
                Ok(a) => (r is Ok <==> required(a@, "type"@) is Some) && (r is Ok ==> quiet(r) && (new.current matches Some(nb)
                    && nb.current_device matches Some(d) && device_read(a@, d)
                    && nb == (MachineBuilder { current_device: Some(d), ..b }) && new == (ListXmlParser {
                    current: new.current,
                    ..old
                }))),
            }
        },
    }
}

/// An empty element: its attributes must decode; a metadata element is read into the
/// machine as `element_read` says; any other element is passed over.
pub open spec fn empty_step(old: ListXmlParser, name: Seq<char>, attributes: Result<Vec<XmlAttribute>, XmlFault>, r: AppResult<Option<MachineMetadata>>, new: ListXmlParser) -> bool {
    match attributes {
        Err(f) => failure_with(r, metadata_fault_code(f)),
        Ok(a) => if !machine_element(name) {
            unchanged(old, r, new)
        } else {
            match old.current {
                None => structure_failure(r),
                Some(b) => element_read(b, name, a@, r is Ok, new.current) && ((name == "instance"@ || name
                    == "extension"@) && b.current_device is None ==> structure_failure(r)) && (r is Ok ==> (
                quiet(r) && new == (ListXmlParser { current: new.current, ..old }))),
            }
        },
    }
}

/// Text: kept only while a text element is open, joined to that field of the machine.
pub open spec fn text_step(old: ListXmlParser, text: Result<String, XmlFault>, r: AppResult<Option<MachineMetadata>>, new: ListXmlParser) -> bool {
    match old.text_target {
        None => unchanged(old, r, new),
        Some(t) => match text {
            Err(f) => failure_with(r, metadata_fault_code(f)),
            Ok(v) => quiet(r) && (old.current matches Some(b) && new.current matches Some(nb) && text_added(
                b,
                nb,
                t,
                v@,
            ) && new == (ListXmlParser { current: new.current, ..old })),
        },
    }
}

/// The end of an element: it closes the open text element of its name, the open device
/// (appending it to the machine), the machine (handing it back once complete) or the
/// root; any other end changes nothing.
pub open spec fn end_step(old: ListXmlParser, name: Seq<char>, r: AppResult<Option<MachineMetadata>>, new: ListXmlParser) -> bool {
    if name == "description"@ && old.text_target == Some(TextTarget::Description) || name == "year"@
        && old.text_target == Some(TextTarget::Year) || name == "manufacturer"@ && old.text_target == Some(
        TextTarget::Manufacturer,
    ) {
        quiet(r) && new == (ListXmlParser { text_target: None, ..old })
    } else if name == "device"@ {
        match old.current {
            None => structure_failure(r),
            Some(b) => match b.current_device {
                None => structure_failure(r),
                Some(d) => quiet(r) && (new.current matches Some(nb) && nb.machine.devices@ == b.machine.devices@.push(d)
                    && nb == (MachineBuilder {
                    machine: MachineMetadata { devices: nb.machine.devices, ..b.machine },
                    current_device: None,
                }) && new == (ListXmlParser { current: new.current, ..old })),
            },
        }
    } else if name == "machine"@ {
        if old.text_target is Some {
            structure_failure(r)
        } else {
            match old.current {
                None => structure_failure(r),
                Some(b) => if b.current_device is Some {
                    structure_failure(r)
                } else if trim(b.machine.description@).len() == 0 {
                    failure_with(r, "MAME_METADATA_MACHINE_DESCRIPTION_MISSING"@)
                } else if old.machine_count == u64::MAX {
                    failure_with(r, "MAME_METADATA_MACHINE_COUNT_OVERFLOW"@)
                } else {
                    r == Ok::<Option<MachineMetadata>, AppError>(Some(b.machine)) && new == (ListXmlParser {
                        current: None,
                        machine_count: (old.machine_count + 1) as u64,
                        ..old
                    })
                },
            }
        }
    } else if name == "mame"@ {
        if old.current is Some {
            structure_failure(r)
        } else {
            quiet(r) && new == (ListXmlParser { root_closed: true, ..old })
        }
    } else {
        unchanged(old, r, new)
    }
}

/// One event of a `-listxml` document.
pub open spec fn listxml_step(old: ListXmlParser, event: XmlEvent, r: AppResult<Option<MachineMetadata>>, new: ListXmlParser) -> bool {
    match event {
        XmlEvent::Start { name, attributes } => if name@ == "mame"@ {
            if old.root_seen {
                structure_failure(r)
            } else {
                match attributes {
                    Err(f) => failure_with(r, metadata_fault_code(f)),
                    Ok(a) => quiet(r) && crate::bulk_audit::text_view(new.root_build) == attr_value(a@, "build"@)
                        && crate::bulk_audit::text_view(new.mame_config) == attr_value(a@, "mameconfig"@) && new == (
                    ListXmlParser {
                        root_build: new.root_build,
                        mame_config: new.mame_config,
                        root_seen: true,
                        ..old
                    }),
                }
            }
        } else if name@ == "machine"@ {
            if !old.root_seen || old.root_closed || old.current is Some {
                structure_failure(r)
            } else {
                match attributes {
                    Err(f) => failure_with(r, metadata_fault_code(f)),
                    Ok(a) => (r is Ok <==> machine_accepted(a@)) && (r is Ok ==> quiet(r) && (new.current matches Some(
                        b,
                    ) && machine_started(a@, b) && new == (ListXmlParser { current: new.current, ..old }))),
                }
            }
        } else if name@ == "description"@ {
            start_text(old, TextTarget::Description, r, new)
        } else if name@ == "year"@ {
            start_text(old, TextTarget::Year, r, new)
        } else if name@ == "manufacturer"@ {
            start_text(old, TextTarget::Manufacturer, r, new)
        } else if name@ == "device"@ {
            start_device(old, attributes, r, new)
        } else {
            unchanged(old, r, new)
        },
        XmlEvent::Empty { name, attributes } => empty_step(old, name@, attributes, r, new),
        XmlEvent::Text(text) => text_step(old, text, r, new),
        XmlEvent::End { name } => end_step(old, name@, r, new),
        _ => unchanged(old, r, new),
    }
}

impl ListXmlParser {
    /// A parser before the first event.
    pub fn new() -> (r: ListXmlParser)
        ensures
            !r.root_seen && !r.root_closed && r.current is None && r.text_target is None,
            r.root_build is None && r.mame_config is None,
            r.machine_count == 0,
            parser_wf(r),
    {
        ListXmlParser {
            root_seen: false,
            root_closed: false,
            root_build: None,
            mame_config: None,
            current: None,
            text_target: None,
            machine_count: 0,
        }
    }

    fn open_text(&mut self, target: TextTarget) -> (r: AppResult<()>)
        requires
            parser_wf(*old(self)),
        ensures
            parser_wf(*final(self)),
            r is Ok <==> old(self).current is Some && old(self).text_target is None,
            r is Ok ==> *final(self) == (ListXmlParser { text_target: Some(target), ..*old(self) }),
            r is Err ==> *final(self) == *old(self),
            r matches Err(e) ==> is_structure_error(e),
            final(self).root_seen == old(self).root_seen,
            final(self).root_closed == old(self).root_closed,
            final(self).current == old(self).current,
            final(self).machine_count == old(self).machine_count,
    {
        if self.current.is_none() || self.text_target.is_some() {
            return Err(
                structure_error("MAME -listxml contains an invalid metadata text element position."),
            );
        }
        self.text_target = Some(target);
        Ok(())
    }

    /// Take in one event. A machine is handed back when its element closes; the count of
    /// machines grows by exactly the machines handed back.
    pub fn feed(&mut self, event: XmlEvent) -> (r: AppResult<Option<MachineMetadata>>)
        requires
            parser_wf(*old(self)),
        ensures
            parser_wf(*final(self)),
            r matches Ok(Some(_)) ==> is_end(event, "machine"@) && old(self).current is Some
                && final(self).current is None && final(self).machine_count == old(self).machine_count
                + 1,
            r matches Ok(Some(m)) ==> old(self).current matches Some(b) && m == b.machine
                && b.current_device is None && trim(m.description@).len() > 0,
            r matches Ok(None) ==> final(self).machine_count == old(self).machine_count,
            is_start(event, "mame"@) && old(self).root_seen ==> (r matches Err(e) && is_structure_error(e)),
            is_start(event, "mame"@) && !old(self).root_seen && r is Ok ==> final(self).root_seen
                && final(self).current == old(self).current,
            is_start(event, "machine"@) && (!old(self).root_seen || old(self).root_closed
                || old(self).current is Some) ==> (r matches Err(e) && is_structure_error(e)),
            is_start(event, "machine"@) && r is Ok ==> (final(self).current matches Some(b)
                && b.current_device is None),
            is_end(event, "machine"@) && old(self).text_target is Some ==> (r matches Err(e)
                && is_structure_error(e)),
            is_end(event, "machine"@) && old(self).current is None ==> (r matches Err(e) && is_structure_error(e)),
            is_end(event, "machine"@) && r is Ok ==> r matches Ok(Some(_)),
            is_end(event, "mame"@) && old(self).current is Some ==> (r matches Err(e) && is_structure_error(e)),
            is_end(event, "mame"@) && old(self).current is None ==> r == Ok::<Option<MachineMetadata>, AppError>(None)
                && final(self).root_closed && final(self).root_seen == old(self).root_seen,
            event is Eof || event is Other ==> r == Ok::<Option<MachineMetadata>, AppError>(None)
                && *final(self) == *old(self),
            listxml_step(*old(self), event, r, *final(self)),
    {
        proof {
            reveal_strlit("machine");
            reveal_strlit("mame");
            reveal_strlit("description");
            reveal_strlit("year");
            reveal_strlit("manufacturer");
            reveal_strlit("device");
            assert("machine"@.len() != "mame"@.len());
            assert("machine"@.len() != "description"@.len());
            assert("machine"@.len() != "year"@.len());
            assert("machine"@.len() != "manufacturer"@.len());
            assert("machine"@[0] != "device"@[0]);
            assert("mame"@[1] != "year"@[1]);
            assert("mame"@.len() != "description"@.len());
            assert("mame"@.len() != "manufacturer"@.len());
            assert("mame"@.len() != "device"@.len());
        }
        match event {
            XmlEvent::Start { name, attributes } => {
                let n = name.as_str();
                if str_equal(n, "mame") {
                    if self.root_seen {
                        return Err(structure_error("MAME -listxml contains multiple root elements."));
                    }
                    let attrs = match attributes {
                        Ok(a) => a,
                        Err(f) => return Err(fault_error(f)),
                    };
                    self.root_build = optional_attr(attrs.as_slice(), "build");
                    self.mame_config = optional_attr(attrs.as_slice(), "mameconfig");
                    self.root_seen = true;
                    Ok(None)
                } else if str_equal(n, "machine") {
                    if !self.root_seen || self.root_closed || self.current.is_some() {
                        return Err(
                            structure_error(
                                "MAME -listxml contains an invalid machine element position.",
                            ),
                        );
                    }
                    let attrs = match attributes {
                        Ok(a) => a,
                        Err(f) => return Err(fault_error(f)),
                    };
                    let builder = MachineBuilder::new(attrs.as_slice())?;
                    self.current = Some(builder);
                    Ok(None)
                } else if str_equal(n, "description") {
                    self.open_text(TextTarget::Description)?;
                    Ok(None)
                } else if str_equal(n, "year") {
                    self.open_text(TextTarget::Year)?;
                    Ok(None)
                } else if str_equal(n, "manufacturer") {
                    self.open_text(TextTarget::Manufacturer)?;
                    Ok(None)
                } else if str_equal(n, "device") {
                    self.open_device(attributes)?;
                    Ok(None)
                } else {
                    Ok(None)
                }
            },
            XmlEvent::Empty { name, attributes } => {
                let attrs = match attributes {
                    Ok(a) => a,
                    Err(f) => return Err(fault_error(f)),
                };
                self.empty_element(name.as_str(), attrs.as_slice())?;
                Ok(None)
            },
            XmlEvent::Text(text) => {
                self.text(text)?;
                Ok(None)
            },
            XmlEvent::End { name } => self.end_element(name.as_str()),
            XmlEvent::Eof => Ok(None),
            XmlEvent::Other => Ok(None),
        }
    }
}

impl ListXmlParser {
    fn open_device(&mut self, attributes: Result<Vec<XmlAttribute>, XmlFault>) -> (r: AppResult<()>)
        requires
            parser_wf(*old(self)),
        ensures
            parser_wf(*final(self)),
            final(self).root_seen == old(self).root_seen,
            final(self).root_closed == old(self).root_closed,
            final(self).text_target == old(self).text_target,
            final(self).machine_count == old(self).machine_count,
            final(self).current is Some <==> old(self).current is Some,
            old(self).current is None ==> (r matches Err(e) && is_structure_error(e)),
            old(self).current matches Some(b) ==> (b.current_device is Some ==> (r matches Err(e)
                && is_structure_error(e))),
            old(self).current matches Some(b) ==> (b.current_device is None ==> match attributes {
                Err(f) => r matches Err(e) && e.code@ == metadata_fault_code(f),
                Ok(a) => (r is Ok <==> required(a@, "type"@) is Some) && (r is Ok ==> (final(self).current matches Some(nb)
                    && nb.current_device matches Some(d) && device_read(a@, d)
                    && nb == (MachineBuilder { current_device: Some(d), ..b }))),
            }),
            r is Ok ==> only_current_changed(*old(self), *final(self)),
    {
        let machine = match &mut self.current {
            Some(m) => m,
            None => {
                return Err(
                    structure_error(
                        "MAME -listxml contains machine metadata outside a machine element.",
                    ),
                );
            },
        };
        if machine.current_device.is_some() {
            return Err(structure_error("MAME -listxml contains a nested device element."));
        }
        let attrs = match attributes {
            Ok(a) => a,
            Err(f) => return Err(fault_error(f)),
        };
        let device = parse_device(attrs.as_slice())?;
        machine.current_device = Some(device);
        Ok(())
    }

    #[verifier::rlimit(50)]
    fn empty_element(&mut self, name: &str, attrs: &[XmlAttribute]) -> (r: AppResult<()>)
        requires
            parser_wf(*old(self)),
        ensures
            parser_wf(*final(self)),
            final(self).root_seen == old(self).root_seen,
            final(self).root_closed == old(self).root_closed,
            final(self).text_target == old(self).text_target,
            final(self).machine_count == old(self).machine_count,
            final(self).current is Some <==> old(self).current is Some,
            !machine_element(name@) ==> r is Ok && *final(self) == *old(self),
            machine_element(name@) && old(self).current is None ==> (r matches Err(e) && is_structure_error(e)),
            old(self).current matches Some(b) ==> (machine_element(name@) ==> element_read(
                b,
                name@,
                attrs@,
                r is Ok,
                final(self).current,
            )),
            old(self).current matches Some(b) ==> ((name@ == "instance"@ || name@ == "extension"@)
                && b.current_device is None ==> (r matches Err(e) && is_structure_error(e))),
            r is Ok ==> only_current_changed(*old(self), *final(self)),
    {
        proof {
            reveal_strlit("driver");
            reveal_strlit("chip");
            reveal_strlit("display");
            reveal_strlit("device");
            reveal_strlit("instance");
            reveal_strlit("extension");
            reveal_strlit("softwarelist");
            assert("driver"@[1] != "device"@[1]);
            assert("chip"@.len() != "instance"@.len() && "chip"@.len() != "extension"@.len());
            assert("driver"@.len() != "instance"@.len() && "driver"@.len() != "extension"@.len());
            assert("display"@.len() != "instance"@.len() && "display"@.len() != "extension"@.len());
            assert("device"@.len() != "instance"@.len() && "device"@.len() != "extension"@.len());
            assert("softwarelist"@.len() != "instance"@.len() && "softwarelist"@.len() != "extension"@.len());
            assert("instance"@.len() != "extension"@.len());
        }
        let known = str_equal(name, "driver") || str_equal(name, "chip") || str_equal(name, "display")
            || str_equal(name, "device") || str_equal(name, "instance") || str_equal(name, "extension")
            || str_equal(name, "softwarelist");
        if !known {
            return Ok(());
        }
        let machine = match &mut self.current {
            Some(m) => m,
            None => {
                return Err(
                    structure_error(
                        "MAME -listxml contains machine metadata outside a machine element.",
                    ),
                );
            },
        };
        if str_equal(name, "driver") {
            let driver = parse_driver(attrs)?;
            machine.machine.driver = Some(driver);
        } else if str_equal(name, "chip") {
            let chip = parse_chip(attrs)?;
            let ghost before = machine.machine.chips@;
            machine.machine.chips.push(chip);
            assert(machine.machine.chips@.drop_last() =~= before);
        } else if str_equal(name, "display") {
            let display = parse_display(attrs)?;
            let ghost before = machine.machine.displays@;
            machine.machine.displays.push(display);
            assert(machine.machine.displays@.drop_last() =~= before);
        } else if str_equal(name, "device") {
            let device = parse_device(attrs)?;
            let ghost before = machine.machine.devices@;
            machine.machine.devices.push(device);
            assert(machine.machine.devices@.drop_last() =~= before);
        } else if str_equal(name, "softwarelist") {
            let list = parse_software_list_association(attrs)?;
            let ghost before = machine.machine.software_lists@;
            machine.machine.software_lists.push(list);
            assert(machine.machine.software_lists@.drop_last() =~= before);
        } else {
            let device = match &mut machine.current_device {
                Some(d) => d,
                None => {
                    return Err(
                        structure_error(
                            "MAME -listxml contains device details outside a device element.",
                        ),
                    );
                },
            };
            if str_equal(name, "instance") {
                let instance_name = required_attr(attrs, "name")?;
                device.instance_name = Some(instance_name);
                let brief_name = required_attr(attrs, "briefname")?;
                device.instance_brief_name = Some(brief_name);
            } else {
                let extension = required_attr(attrs, "name")?;
                let ghost before = device.extensions@;
                device.extensions.push(extension);
                assert(device.extensions@.drop_last() =~= before);
            }
        }
        Ok(())
    }

    fn text(&mut self, text: Result<String, XmlFault>) -> (r: AppResult<()>)
        requires
            parser_wf(*old(self)),
        ensures
            parser_wf(*final(self)),
            final(self).root_seen == old(self).root_seen,
            final(self).root_closed == old(self).root_closed,
            final(self).text_target == old(self).text_target,
            final(self).machine_count == old(self).machine_count,
            final(self).current is Some <==> old(self).current is Some,
            old(self).text_target is None ==> r is Ok && *final(self) == *old(self),
            old(self).text_target matches Some(t) ==> match text {
                Err(f) => r matches Err(e) && e.code@ == metadata_fault_code(f),
                Ok(v) => r is Ok && (old(self).current matches Some(b) && final(self).current matches Some(nb)
                    && text_added(b, nb, t, v@)),
            },
            r is Ok ==> only_current_changed(*old(self), *final(self)),
    {
        let target = match self.text_target {
            Some(t) => t,
            None => return Ok(()),
        };
        let machine = match &mut self.current {
            Some(m) => m,
            None => {
                return Err(
                    structure_error(
                        "MAME -listxml contains machine metadata outside a machine element.",
                    ),
                );
            },
        };
        let value = match text {
            Ok(v) => v,
            Err(f) => return Err(fault_error(f)),
        };
        append_text(machine, target, value.as_str());
        Ok(())
    }

    fn end_element(&mut self, name: &str) -> (r: AppResult<Option<MachineMetadata>>)
        requires
            parser_wf(*old(self)),
        ensures
            parser_wf(*final(self)),
            r matches Ok(Some(_)) ==> name@ == "machine"@ && old(self).current is Some
                && final(self).current is None && final(self).machine_count == old(self).machine_count
                + 1,
            r matches Ok(Some(m)) ==> old(self).current matches Some(b) && m == b.machine
                && b.current_device is None && trim(m.description@).len() > 0,
            r matches Ok(None) ==> final(self).machine_count == old(self).machine_count,
            name@ == "machine"@ && old(self).text_target is Some ==> (r matches Err(e) && is_structure_error(e)),
            name@ == "machine"@ && old(self).current is None ==> (r matches Err(e) && is_structure_error(e)),
            name@ == "machine"@ && r is Ok ==> r matches Ok(Some(_)),
            name@ == "mame"@ && old(self).current is Some ==> (r matches Err(e) && is_structure_error(e)),
            name@ == "mame"@ && old(self).current is None ==> r == Ok::<Option<MachineMetadata>, AppError>(None)
                && final(self).root_closed && final(self).root_seen == old(self).root_seen,
            end_step(*old(self), name@, r, *final(self)),
    {
        proof {
            reveal_strlit("machine");
            reveal_strlit("mame");
            reveal_strlit("description");
            reveal_strlit("year");
            reveal_strlit("manufacturer");
            reveal_strlit("device");
            assert("machine"@.len() != "mame"@.len());
            assert("machine"@.len() != "description"@.len());
            assert("machine"@.len() != "year"@.len());
            assert("machine"@.len() != "manufacturer"@.len());
            assert("machine"@[0] != "device"@[0]);
            assert("mame"@[1] != "year"@[1]);
            assert("mame"@.len() != "description"@.len());
            assert("mame"@.len() != "manufacturer"@.len());
            assert("mame"@.len() != "device"@.len());
        }
        if str_equal(name, "description") && self.text_target == Some(TextTarget::Description) {
            self.text_target = None;
            Ok(None)
        } else if str_equal(name, "year") && self.text_target == Some(TextTarget::Year) {
            self.text_target = None;
            Ok(None)
        } else if str_equal(name, "manufacturer") && self.text_target == Some(TextTarget::Manufacturer) {
            self.text_target = None;
            Ok(None)
        } else if str_equal(name, "device") {
            let machine = match &mut self.current {
                Some(m) => m,
                None => {
                    return Err(
                        structure_error(
                            "MAME -listxml contains machine metadata outside a machine element.",
                        ),
                    );
                },
            };
            let device = match machine.current_device.take() {
                Some(d) => d,
                None => {
                    return Err(structure_error("MAME -listxml closed a device that was not open."));
                },
            };
            machine.machine.devices.push(device);
            Ok(None)
        } else if str_equal(name, "machine") {
            if self.text_target.is_some() {
                return Err(
                    structure_error(
                        "MAME -listxml closed a machine while a text field was still open.",
                    ),
                );
            }
            let builder = match self.current.take() {
                Some(b) => b,
                None => {
                    return Err(structure_error("MAME -listxml closed a machine that was not open."));
                },
            };
            let machine = builder.finish()?;
            if self.machine_count == u64::MAX {
                return Err(
                    AppError::new(
                        "MAME_METADATA_MACHINE_COUNT_OVERFLOW",
                        "MAME metadata contains more machines than can be counted.",
                    ),
                );
            }
            self.machine_count = self.machine_count + 1;
            Ok(Some(machine))
        } else if str_equal(name, "mame") {
            if self.current.is_some() {
                return Err(
                    structure_error("MAME -listxml closed its root while a machine was still open."),
                );
            }
            self.root_closed = true;
            Ok(None)
        } else {
            Ok(None)
        }
    }
}

impl ListXmlParser {
    /// The summary once the document has ended: exactly one complete root, no machine left
    /// open, and at least one machine.
    pub fn finish(&self) -> (r: AppResult<ListXmlSummary>)
        ensures
            r is Ok <==> self.root_seen && self.root_closed && self.current is None
                && self.machine_count > 0,
            r matches Ok(s) ==> s.machine_count == self.machine_count
                && crate::bulk_audit::text_view(s.build) == crate::bulk_audit::text_view(self.root_build)
                && crate::bulk_audit::text_view(s.mame_config) == crate::bulk_audit::text_view(self.mame_config),
            r matches Err(e) ==> (!self.root_seen || !self.root_closed || self.current is Some)
                == is_structure_error(e),
            r matches Err(e) ==> (self.root_seen && self.root_closed && self.current is None ==> e.code@
                == "MAME_METADATA_EMPTY"@),
    {
        if !self.root_seen || !self.root_closed {
            return Err(
                structure_error("MAME -listxml did not contain one complete mame root element."),
            );
        }
        if self.current.is_some() {
            return Err(
                structure_error("MAME -listxml ended before the current machine was complete."),
            );
        }
        if self.machine_count == 0 {
            proof {
                reveal_strlit("MAME_METADATA_EMPTY");
                reveal_strlit("MAME_METADATA_XML_STRUCTURE_INVALID");
                assert("MAME_METADATA_EMPTY"@.len() != "MAME_METADATA_XML_STRUCTURE_INVALID"@.len());
            }
            return Err(
                AppError::new(
                    "MAME_METADATA_EMPTY",
                    "MAME -listxml did not contain any machine records.",
                ),
            );
        }
        Ok(
            ListXmlSummary {
                build: crate::bulk_audit::copy_text(&self.root_build),
                mame_config: crate::bulk_audit::copy_text(&self.mame_config),
                machine_count: self.machine_count,
            },
        )
    }
}

/// A whole `-listxml` document: its summary and its machines in document order.
#[derive(Debug)]
pub struct ParsedListXml {
    pub summary: ListXmlSummary,
    pub machines: Vec<MachineMetadata>,
}

/// A parser before the first event.
pub open spec fn listxml_initial(p: ListXmlParser) -> bool {
    &&& !p.root_seen && !p.root_closed && p.current is None && p.text_target is None
    &&& p.root_build is None && p.mame_config is None && p.machine_count == 0
}

/// Taking in `events` one by one from a new parser, each step succeeding as `listxml_step`
/// says, passes through `states` and hands back `outs` (a machine or none per event).
pub open spec fn listxml_trace(events: Seq<XmlEvent>, states: Seq<ListXmlParser>, outs: Seq<Option<MachineMetadata>>) -> bool {
    &&& states.len() == events.len() + 1
    &&& outs.len() == events.len()
    &&& listxml_initial(states[0])
    &&& forall|i: int|
        0 <= i < events.len() ==> #[trigger] listxml_step(
            states[i],
            events[i],
            Ok::<Option<MachineMetadata>, AppError>(outs[i]),
            states[i + 1],
        )
}

/// The machines handed back, in order.
pub open spec fn delivered(outs: Seq<Option<MachineMetadata>>) -> Seq<MachineMetadata>
    decreases outs.len(),
{
    if outs.len() == 0 {
        Seq::empty()
    } else {
        match outs.last() {
            Some(m) => delivered(outs.drop_last()).push(m),
            None => delivered(outs.drop_last()),
        }
    }
}

/// The result once the document has ended in parser `p` with `machines` handed back:
/// exactly one complete root, no machine open, at least one machine.
pub open spec fn listxml_finish(p: ListXmlParser, machines: Seq<MachineMetadata>, r: AppResult<ParsedListXml>) -> bool {
    if !p.root_seen || !p.root_closed || p.current is Some {
        r matches Err(e) && is_structure_error(e)
    } else if p.machine_count == 0 {
        r matches Err(e) && e.code@ == "MAME_METADATA_EMPTY"@
    } else {
        r matches Ok(x) && x.machines@ == machines && x.summary.machine_count == p.machine_count
            && crate::bulk_audit::text_view(x.summary.build) == crate::bulk_audit::text_view(p.root_build)
            && crate::bulk_audit::text_view(x.summary.mame_config) == crate::bulk_audit::text_view(p.mame_config)
    }
}

/// How reading a document ends, given `events`, the events read before it ended: a step
/// failed on the last of them; or all were taken in and the next is the end of the
/// document, where `listxml_finish` decides; or the next is a reader error.
pub open spec fn listxml_outcome(doc: Seq<RawXmlEvent>, events: Seq<XmlEvent>, r: AppResult<ParsedListXml>) -> bool {
    ||| (r matches Err(e) && events.len() > 0 && exists|
        states: Seq<ListXmlParser>,
        outs: Seq<Option<MachineMetadata>>,
        p: ListXmlParser,
    |
        #[trigger] listxml_trace(events.drop_last(), states, outs) && #[trigger] listxml_step(
            states.last(),
            events.last(),
            Err::<Option<MachineMetadata>, AppError>(e),
            p,
        ))
    ||| exists|states: Seq<ListXmlParser>, outs: Seq<Option<MachineMetadata>>|
        #[trigger] listxml_trace(events, states, outs) && doc[events.len() as int] is Eof && listxml_finish(
            states.last(),
            delivered(outs),
            r,
        )
    ||| exists|states: Seq<ListXmlParser>, outs: Seq<Option<MachineMetadata>>|
        #[trigger] listxml_trace(events, states, outs) && doc[events.len() as int] is Error && (r matches Err(e)
            && e.code@ == "MAME_METADATA_XML_INVALID"@)
}

/// Read a whole `-listxml` document: the parser takes in the document's events as
/// `listxml_outcome` says. The summary counts exactly the machines returned.
pub fn parse_listxml(input: &[u8]) -> (r: AppResult<ParsedListXml>)
    ensures
        exists|events: Seq<XmlEvent>|
            #[trigger] read_events(xml_document_events(input@), events) && listxml_outcome(
                xml_document_events(input@),
                events,
                r,
            ),
        r matches Ok(p) ==> p.summary.machine_count == p.machines@.len() && p.machines@.len() > 0,
{
    let ghost doc = xml_document_events(input@);
    let mut reader = XmlEventReader::new(input);
    let mut parser = ListXmlParser::new();
    let mut machines: Vec<MachineMetadata> = Vec::new();
    let ghost mut read: Seq<XmlEvent> = Seq::empty();
    let ghost mut states: Seq<ListXmlParser> = seq![parser];
    let ghost mut outs: Seq<Option<MachineMetadata>> = Seq::empty();
    assert(doc.skip(0) =~= doc);
    loop
        invariant_except_break
            reader.pending() == doc.skip(read.len() as int),
            terminated(reader.pending()),
        invariant
            parser_wf(parser),
            parser.machine_count == machines@.len(),
            doc == xml_document_events(input@),
            terminated(doc),
            read_events(doc, read),
            listxml_trace(read, states, outs),
            states.last() == parser,
            delivered(outs) == machines@,
        ensures
            doc[read.len() as int] is Eof,
        decreases reader.pending().len(),
    {
        let ghost k = read.len() as int;
        assert(doc.skip(k)[0] == doc[k]);
        let event = match reader.next_event() {
            Ok(e) => e,
            Err(f) => {
                assert(doc[k] is Error);
                let r = Err(fault_error(f));
                assert(listxml_trace(read, states, outs));
                assert(listxml_outcome(doc, read, r));
                return r;
            },
        };
        if let XmlEvent::Eof = event {
            break;
        }
        let ghost prev = read;
        let ghost before = parser;
        let ghost ev = event;
        proof {
            read = read.push(event);
            assert(read.drop_last() =~= prev);
            assert(!is_final_event(doc[k]));
            assert forall|i: int| 0 <= i < read.len() implies !is_final_event(#[trigger] doc[i]) && event_from(
                doc[i],
                Ok::<XmlEvent, XmlFault>(read[i]),
            ) by {
                if i < k {
                    assert(read[i] == prev[i]);
                }
            }
            assert(doc.skip(k).drop_first() =~= doc.skip(k + 1));
        }
        let step = parser.feed(event);
        let ghost out_step = step;
        match step {
            Ok(out) => {
                proof {
                    let old_states = states;
                    let old_outs = outs;
                    states = states.push(parser);
                    outs = outs.push(out);
                    assert forall|i: int| 0 <= i < read.len() implies #[trigger] listxml_step(
                        states[i],
                        read[i],
                        Ok::<Option<MachineMetadata>, AppError>(outs[i]),
                        states[i + 1],
                    ) by {
                        if i < k {
                            assert(states[i] == old_states[i] && states[i + 1] == old_states[i + 1]);
                            assert(read[i] == prev[i] && outs[i] == old_outs[i]);
                            assert(listxml_step(
                                old_states[i],
                                prev[i],
                                Ok::<Option<MachineMetadata>, AppError>(old_outs[i]),
                                old_states[i + 1],
                            ));
                        } else {
                            assert(states[i] == before && read[i] == ev && states[i + 1] == parser);
                        }
                    }
                    assert(outs.drop_last() =~= old_outs);
                }
                match out {
                    Some(machine) => machines.push(machine),
                    None => {},
                }
            },
            Err(e) => {
                let r = Err(e);
                assert(r matches Err(e2) && e2 == e);
                assert(listxml_trace(read.drop_last(), states, outs));
                assert(listxml_step(states.last(), read.last(), Err::<Option<MachineMetadata>, AppError>(e), parser));
                assert(exists|
                    st: Seq<ListXmlParser>,
                    os: Seq<Option<MachineMetadata>>,
                    p: ListXmlParser,
                |
                    #[trigger] listxml_trace(read.drop_last(), st, os) && #[trigger] listxml_step(
                        st.last(),
                        read.last(),
                        Err::<Option<MachineMetadata>, AppError>(e),
                        p,
                    ));
                assert(read_events(doc, read));
                assert(listxml_outcome(doc, read, r));
                return r;
            },
        }
    }
    let summary = match parser.finish() {
        Ok(s) => s,
        Err(e) => {
            let r = Err(e);
            assert(listxml_trace(read, states, outs));
            assert(listxml_finish(states.last(), delivered(outs), r));
            assert(listxml_outcome(doc, read, r));
            return r;
        },
    };
    let r = Ok(ParsedListXml { summary, machines });
    assert(listxml_trace(read, states, outs));
    assert(listxml_finish(states.last(), delivered(outs), r));
    assert(listxml_outcome(doc, read, r));
    r
}

} // verus!
