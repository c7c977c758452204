//! Software list pages read from MAME's `-getsoftlist` document: filtering by text, by a
//! list filter and by exact name, and the page window over the matching items.

use vstd::prelude::*;

use crate::errors::{AppError, AppResult};
use crate::text::{chars_of, contains, str_equal, string_from, trim};
use crate::xml::{
    attr_value, event_from, find_attribute, is_final_event, joined, read_events, terminated, xml_document_events,
    RawXmlEvent, XmlAttribute, XmlEvent, XmlEventReader, XmlFault,
};

verus! {

broadcast use vstd::string::group_string_axioms;

/// A list filter as the front end names it.
#[derive(Debug, Clone, Copy, PartialEq, Eq, Structural)]
pub enum SoftwareListFilter {
    All,
    Parents,
    Clones,
    Year,
    Publisher,
    Supported,
    PartiallySupported,
    Unsupported,
}

impl Default for SoftwareListFilter {
    fn default() -> (r: Self)
        ensures
            r == SoftwareListFilter::All,
    {
        SoftwareListFilter::All
    }
}

impl SoftwareListFilter {
    /// Filters that compare against a user-supplied value.
    pub fn requires_value(self) -> (r: bool)
        ensures
            r == (self == SoftwareListFilter::Year || self == SoftwareListFilter::Publisher),
    {
        match self {
            SoftwareListFilter::Year | SoftwareListFilter::Publisher => true,
            _ => false,
        }
    }
}

#[derive(Debug, Clone, PartialEq, Eq)]
pub struct SoftwarePartSummary {
    pub name: String,
    pub interface: String,
}

#[derive(Debug, Clone, PartialEq, Eq)]
pub struct SoftwareItemSummary {
    pub short_name: String,
    pub description: String,
    pub year: String,
    pub publisher: String,
    pub clone_of: Option<String>,
    pub supported: String,
    pub parts: Vec<SoftwarePartSummary>,
}

/// One page of a software list.
#[derive(Debug, Clone, PartialEq, Eq)]
pub struct ParsedSoftwareList {
    pub name: String,
    pub description: Option<String>,
    pub total: u64,
    pub items: Vec<SoftwareItemSummary>,
}

/// `str::to_lowercase`: the Unicode lower-case mapping of a text, a function of the text
/// alone.
pub uninterp spec fn lowercase(s: Seq<char>) -> Seq<char>;

/// `str::to_lowercase`.
#[verifier::external_body]
fn to_lowercase(s: &str) -> (r: String)
    ensures
        r@ == lowercase(s@),
{
    s.to_lowercase()
}

/// ASCII letters folded to lower case; other characters unchanged.
pub open spec fn ascii_lower(c: char) -> char {
    if 'A' <= c <= 'Z' {
        ((c as u32) + 32) as char
    } else {
        c
    }
}

/// Equality ignoring ASCII case, as `str::eq_ignore_ascii_case`.
pub open spec fn eq_ignore_ascii_case(a: Seq<char>, b: Seq<char>) -> bool {
    a.len() == b.len() && forall|i: int| 0 <= i < a.len() ==> #[trigger] ascii_lower(a[i]) == ascii_lower(b[i])
}

pub fn ascii_lower_exec(c: char) -> (r: char)
    ensures
        r == ascii_lower(c),
{
    if 'A' <= c && c <= 'Z' {
        (((c as u32) + 32) as u8) as char
    } else {
        c
    }
}

/// Whether two texts are equal ignoring ASCII case.
pub fn eq_ignore_ascii_case_exec(a: &str, b: &str) -> (r: bool)
    ensures
        r == eq_ignore_ascii_case(a@, b@),
{
    let x = chars_of(a);
    let y = chars_of(b);
    if x.len() != y.len() {
        return false;
    }
    let mut i: usize = 0;
    while i < x.len()
        invariant
            x@ == a@,
            y@ == b@,
            x@.len() == y@.len(),
            i <= x@.len(),
            forall|k: int| 0 <= k < i ==> #[trigger] ascii_lower(x@[k]) == ascii_lower(y@[k]),
        decreases x.len() - i,
    {
        if ascii_lower_exec(x[i]) != ascii_lower_exec(y[i]) {
            return false;
        }
        i += 1;
    }
    true
}

/// Whether an item passes the text search (already lower-cased), the list filter and its
/// value: the search matches the lower-cased name, description, year or publisher.
pub open spec fn item_passes(
    item: SoftwareItemSummary,
    text_filter: Option<Seq<char>>,
    filter: SoftwareListFilter,
    filter_value: Option<Seq<char>>,
) -> bool {
    let text_ok = match text_filter {
        None => true,
        Some(t) => contains(lowercase(item.short_name@), t) || contains(lowercase(item.description@), t)
            || contains(lowercase(item.year@), t) || contains(lowercase(item.publisher@), t),
    };
    text_ok && match filter {
        SoftwareListFilter::All => true,
        SoftwareListFilter::Parents => item.clone_of is None,
        SoftwareListFilter::Clones => item.clone_of is Some,
        SoftwareListFilter::Year => filter_value matches Some(v) && item.year@ == v,
        SoftwareListFilter::Publisher => filter_value matches Some(v) && eq_ignore_ascii_case(
            item.publisher@,
            v,
        ),
        SoftwareListFilter::Supported => item.supported@ == "yes"@,
        SoftwareListFilter::PartiallySupported => item.supported@ == "partial"@,
        SoftwareListFilter::Unsupported => item.supported@ == "no"@,
    }
}

/// The support filters select items by their support status, as written in the list:
/// `Supported` keeps the items marked `yes`, `PartiallySupported` those marked `partial` and
/// `Unsupported` those marked `no`. So an item with one of those statuses passes exactly
/// one of the three, and no item passes two of them.
pub proof fn law_support_filters_follow_the_status(item: SoftwareItemSummary)
    ensures
        item_passes(item, None, SoftwareListFilter::Supported, None) <==> item.supported@ == "yes"@,
        item_passes(item, None, SoftwareListFilter::PartiallySupported, None) <==> item.supported@ == "partial"@,
        item_passes(item, None, SoftwareListFilter::Unsupported, None) <==> item.supported@ == "no"@,
        !(item_passes(item, None, SoftwareListFilter::Supported, None) && item_passes(
            item,
            None,
            SoftwareListFilter::PartiallySupported,
            None,
        )),
        !(item_passes(item, None, SoftwareListFilter::Supported, None) && item_passes(
            item,
            None,
            SoftwareListFilter::Unsupported,
            None,
        )),
        !(item_passes(item, None, SoftwareListFilter::PartiallySupported, None) && item_passes(
            item,
            None,
            SoftwareListFilter::Unsupported,
            None,
        )),
        (item.supported@ == "yes"@ || item.supported@ == "partial"@ || item.supported@ == "no"@) ==> (
        item_passes(item, None, SoftwareListFilter::Supported, None) || item_passes(
            item,
            None,
            SoftwareListFilter::PartiallySupported,
            None,
        ) || item_passes(item, None, SoftwareListFilter::Unsupported, None)),
{
    reveal_strlit("yes");
    reveal_strlit("partial");
    reveal_strlit("no");
    assert("yes"@.len() != "partial"@.len() && "yes"@.len() != "no"@.len() && "partial"@.len() != "no"@.len());
}

/// The list filters select items by their own fields: `All` keeps every item; `Parents`
/// keeps the items that are no clone and `Clones` those that are, so each item is in exactly
/// one of the two; `Year` keeps the items of the year asked for and `Publisher` those of the
/// publisher asked for (ignoring ASCII case), and neither keeps anything without a value. A
/// search only narrows what a filter keeps.
pub proof fn law_list_filters_follow_the_item(item: SoftwareItemSummary, v: Seq<char>, t: Seq<char>, f: SoftwareListFilter)
    ensures
        item_passes(item, None, SoftwareListFilter::All, None),
        item_passes(item, None, SoftwareListFilter::Parents, None) <==> item.clone_of is None,
        item_passes(item, None, SoftwareListFilter::Clones, None) <==> item.clone_of is Some,
        item_passes(item, None, SoftwareListFilter::Parents, None) != item_passes(
            item,
            None,
            SoftwareListFilter::Clones,
            None,
        ),
        item_passes(item, None, SoftwareListFilter::Year, Some(v)) <==> item.year@ == v,
        item_passes(item, None, SoftwareListFilter::Publisher, Some(v)) <==> eq_ignore_ascii_case(
            item.publisher@,
            v,
        ),
        !item_passes(item, None, SoftwareListFilter::Year, None),
        !item_passes(item, None, SoftwareListFilter::Publisher, None),
        item_passes(item, Some(t), f, Some(v)) ==> item_passes(item, None, f, Some(v)),
        item_passes(item, Some(t), f, None) ==> item_passes(item, None, f, None),
{
}

fn lower_contains(value: &str, needle: &str) -> (r: bool)
    ensures
        r == contains(lowercase(value@), needle@),
{
    let lower = to_lowercase(value);
    let chars = chars_of(lower.as_str());
    crate::text::contains_str(chars.as_slice(), needle)
}

/// Whether an item passes the search and the filter.
pub fn item_matches(
    item: &SoftwareItemSummary,
    text_filter: Option<&str>,
    filter: SoftwareListFilter,
    filter_value: Option<&str>,
) -> (r: bool)
    ensures
        r == item_passes(
            *item,
            match text_filter {
                Some(t) => Some(t@),
                None => None,
            },
            filter,
            match filter_value {
                Some(v) => Some(v@),
                None => None,
            },
        ),
{
    let text_matches = match text_filter {
        None => true,
        Some(t) => lower_contains(item.short_name.as_str(), t) || lower_contains(
            item.description.as_str(),
            t,
        ) || lower_contains(item.year.as_str(), t) || lower_contains(item.publisher.as_str(), t),
    };
    if !text_matches {
        return false;
    }
    match filter {
        SoftwareListFilter::All => true,
        SoftwareListFilter::Parents => item.clone_of.is_none(),
        SoftwareListFilter::Clones => item.clone_of.is_some(),
        SoftwareListFilter::Year => match filter_value {
            Some(v) => str_equal(item.year.as_str(), v),
            None => false,
        },
        SoftwareListFilter::Publisher => match filter_value {
            Some(v) => eq_ignore_ascii_case_exec(item.publisher.as_str(), v),
            None => false,
        },
        SoftwareListFilter::Supported => str_equal(item.supported.as_str(), "yes"),
        SoftwareListFilter::PartiallySupported => str_equal(item.supported.as_str(), "partial"),
        SoftwareListFilter::Unsupported => str_equal(item.supported.as_str(), "no"),
    }
}

pub open spec fn is_structure_error(e: AppError) -> bool {
    e.code@ == "MAME_SOFTWARE_XML_STRUCTURE_INVALID"@
}

fn structure_error(message: &str) -> (e: AppError)
    ensures
        is_structure_error(e),
{
    AppError::new("MAME_SOFTWARE_XML_STRUCTURE_INVALID", message)
}

/// The error code of an XML fault met while reading `-getsoftlist` output.
pub open spec fn software_fault_code(fault: XmlFault) -> Seq<char> {
    match fault {
        XmlFault::Syntax => "MAME_SOFTWARE_XML_INVALID"@,
        XmlFault::AttributeMalformed => "MAME_SOFTWARE_XML_ATTRIBUTE_INVALID"@,
        XmlFault::AttributeValueInvalid => "MAME_SOFTWARE_XML_ATTRIBUTE_INVALID"@,
        XmlFault::AttributeDuplicate(_) => "MAME_SOFTWARE_XML_ATTRIBUTE_DUPLICATE"@,
        XmlFault::TextEscapeInvalid => "MAME_SOFTWARE_XML_TEXT_INVALID"@,
        XmlFault::CharacterReferenceInvalid => "MAME_SOFTWARE_XML_TEXT_INVALID"@,
        XmlFault::EntityUnsupported(_) => "MAME_SOFTWARE_XML_ENTITY_UNSUPPORTED"@,
    }
}

/// The error for a fault met while reading the document.
pub fn fault_error(fault: XmlFault) -> (e: AppError)
    ensures
        e.code@ == software_fault_code(fault),
{
    match fault {
        XmlFault::Syntax => AppError::new(
            "MAME_SOFTWARE_XML_INVALID",
            "MAME -getsoftlist output is not valid XML.",
        ),
        XmlFault::AttributeMalformed => AppError::new(
            "MAME_SOFTWARE_XML_ATTRIBUTE_INVALID",
            "MAME -getsoftlist contains a malformed XML attribute.",
        ),
        XmlFault::AttributeValueInvalid => AppError::new(
            "MAME_SOFTWARE_XML_ATTRIBUTE_INVALID",
            "MAME -getsoftlist contains an XML attribute value that cannot be decoded.",
        ),
        XmlFault::AttributeDuplicate(key) => AppError::new(
            "MAME_SOFTWARE_XML_ATTRIBUTE_DUPLICATE",
            "MAME -getsoftlist contains a duplicate XML attribute.",
        ).with_detail("attribute", key),
        XmlFault::TextEscapeInvalid => AppError::new(
            "MAME_SOFTWARE_XML_TEXT_INVALID",
            "MAME -getsoftlist contains text that cannot be decoded.",
        ),
        XmlFault::CharacterReferenceInvalid => AppError::new(
            "MAME_SOFTWARE_XML_TEXT_INVALID",
            "MAME -getsoftlist contains text that cannot be decoded.",
        ),
        XmlFault::EntityUnsupported(name) => AppError::new(
            "MAME_SOFTWARE_XML_ENTITY_UNSUPPORTED",
            "MAME -getsoftlist contains an unsupported XML entity reference.",
        ).with_detail("entity", name),
    }
}

/// A required attribute: present and not empty.
pub open spec fn required(attrs: Seq<XmlAttribute>, name: Seq<char>) -> Option<Seq<char>> {
    match attr_value(attrs, name) {
        Some(v) => if v.len() > 0 {
            Some(v)
        } else {
            None
        },
        None => None,
    }
}

fn required_attr(attrs: &[XmlAttribute], name: &str) -> (r: AppResult<String>)
    ensures
        match r {
            Ok(v) => required(attrs@, name@) == Some(v@),
            Err(e) => required(attrs@, name@) is None && e.code@
                == "MAME_SOFTWARE_REQUIRED_ATTRIBUTE_MISSING"@,
        },
{
    match find_attribute(attrs, name) {
        Some(v) => {
            if chars_of(v).len() > 0 {
                return Ok(v.to_owned());
            }
        },
        None => {},
    }
    Err(
        AppError::new(
            "MAME_SOFTWARE_REQUIRED_ATTRIBUTE_MISSING",
            "MAME -getsoftlist is missing a required attribute.",
        ).with_detail("attribute", name.to_owned()),
    )
}

/// The attributes of a `<part>` element that it accepts.
pub open spec fn part_accepted(attrs: Seq<XmlAttribute>) -> bool {
    required(attrs, "name"@) is Some && required(attrs, "interface"@) is Some
}

/// A part read from the attributes of a `<part>` element.
pub open spec fn part_read(attrs: Seq<XmlAttribute>, p: SoftwarePartSummary) -> bool {
    required(attrs, "name"@) == Some(p.name@) && required(attrs, "interface"@) == Some(p.interface@)
}

/// A `<part>` of a software item.
pub fn parse_part(attrs: &[XmlAttribute]) -> (r: AppResult<SoftwarePartSummary>)
    ensures
        r is Ok <==> part_accepted(attrs@),
        r matches Ok(p) ==> part_read(attrs@, p),
{
    let name = required_attr(attrs, "name")?;
    let interface = required_attr(attrs, "interface")?;
    Ok(SoftwarePartSummary { name, interface })
}

/// The support status of an item: `yes` when absent; only `yes`, `partial` and `no` are valid.
pub open spec fn support_of(attrs: Seq<XmlAttribute>) -> Option<Seq<char>> {
    match attr_value(attrs, "supported"@) {
        None => Some("yes"@),
        Some(v) => if v == "yes"@ || v == "partial"@ || v == "no"@ {
            Some(v)
        } else {
            None
        },
    }
}

/// The attributes of a `<software>` element that it accepts.
pub open spec fn item_accepted(attrs: Seq<XmlAttribute>) -> bool {
    support_of(attrs) is Some && required(attrs, "name"@) is Some
}

/// An item started from the attributes of a `<software>` element, with no text or parts yet.
pub open spec fn item_started(attrs: Seq<XmlAttribute>, b: SoftwareItemBuilder) -> bool {
    &&& Some(b.supported@) == support_of(attrs)
    &&& required(attrs, "name"@) == Some(b.short_name@)
    &&& crate::bulk_audit::text_view(b.clone_of) == attr_value(attrs, "cloneof"@)
    &&& b.description@.len() == 0 && b.year@.len() == 0 && b.publisher@.len() == 0
    &&& b.parts@.len() == 0
}

/// A software item being read.
#[derive(Debug)]
pub struct SoftwareItemBuilder {
    pub short_name: String,
    pub description: String,
    pub year: String,
    pub publisher: String,
    pub clone_of: Option<String>,
    pub supported: String,
    pub parts: Vec<SoftwarePartSummary>,
}

impl SoftwareItemBuilder {
    /// Start an item from its element's attributes.
    pub fn new(attrs: &[XmlAttribute]) -> (r: AppResult<SoftwareItemBuilder>)
        ensures
            r is Ok <==> item_accepted(attrs@),
            r matches Ok(b) ==> item_started(attrs@, b),
            r matches Err(e) ==> (support_of(attrs@) is None ==> e.code@
                == "MAME_SOFTWARE_ATTRIBUTE_INVALID"@),
    {
        let supported: &str = match find_attribute(attrs, "supported") {
            Some(v) => v,
            None => "yes",
        };
        if !(str_equal(supported, "yes") || str_equal(supported, "partial") || str_equal(supported, "no")) {
            return Err(
                AppError::new(
                    "MAME_SOFTWARE_ATTRIBUTE_INVALID",
                    "MAME -getsoftlist returned an invalid support status.",
                ).with_detail("supported", supported.to_owned()),
            );
        }
        let short_name = required_attr(attrs, "name")?;
        let clone_of = match find_attribute(attrs, "cloneof") {
            Some(v) => Some(v.to_owned()),
            None => None,
        };
        Ok(
            SoftwareItemBuilder {
                short_name,
                description: String::new(),
                year: String::new(),
                publisher: String::new(),
                clone_of,
                supported: supported.to_owned(),
                parts: Vec::new(),
            },
        )
    }

    /// The finished item: description, year and publisher must not be blank.
    pub fn finish(self) -> (r: AppResult<SoftwareItemSummary>)
        ensures
            r is Ok <==> trim(self.description@).len() > 0 && trim(self.year@).len() > 0 && trim(
                self.publisher@,
            ).len() > 0,
            r matches Ok(i) ==> i.short_name == self.short_name && i.description == self.description
                && i.year == self.year && i.publisher == self.publisher && i.clone_of == self.clone_of
                && i.supported == self.supported && i.parts == self.parts,
            r matches Err(e) ==> e.code@ == "MAME_SOFTWARE_METADATA_INCOMPLETE"@,
    {
        let d = chars_of(self.description.as_str());
        let y = chars_of(self.year.as_str());
        let p = chars_of(self.publisher.as_str());
        if crate::text::trim_chars(d.as_slice()).len() == 0 || crate::text::trim_chars(y.as_slice()).len() == 0
            || crate::text::trim_chars(p.as_slice()).len() == 0 {
            return Err(
                AppError::new(
                    "MAME_SOFTWARE_METADATA_INCOMPLETE",
                    "A MAME software item is missing required descriptive metadata.",
                ).with_detail("shortName", self.short_name),
            );
        }
        Ok(
            SoftwareItemSummary {
                short_name: self.short_name,
                description: self.description,
                year: self.year,
                publisher: self.publisher,
                clone_of: self.clone_of,
                supported: self.supported,
                parts: self.parts,
            },
        )
    }
}

/// Which text element of an item is open.
#[derive(Debug, Clone, Copy, PartialEq, Eq, Structural)]
pub enum SoftwareTextTarget {
    Description,
    Year,
    Publisher,
}

/// The item after the text `value` of the element `target`: its trimmed text joined to
/// that field, all else kept; blank text changes nothing.
pub open spec fn item_text_added(b: SoftwareItemBuilder, nb: SoftwareItemBuilder, target: SoftwareTextTarget, value: Seq<char>) -> bool {
    let t = trim(value);
    if t.len() == 0 {
        nb == b
    } else {
        match target {
            SoftwareTextTarget::Description => nb.description@ == joined(b.description@, t) && nb == (
            SoftwareItemBuilder { description: nb.description, ..b }),
            SoftwareTextTarget::Year => nb.year@ == joined(b.year@, t) && nb == (SoftwareItemBuilder {
                year: nb.year,
                ..b
            }),
            SoftwareTextTarget::Publisher => nb.publisher@ == joined(b.publisher@, t) && nb == (
            SoftwareItemBuilder { publisher: nb.publisher, ..b }),
        }
    }
}

/// Add the trimmed text of an element to its field; blank text adds nothing.
pub fn append_item_text(item: &mut SoftwareItemBuilder, target: SoftwareTextTarget, value: &str)
    ensures
        item_text_added(*old(item), *final(item), target, value@),
{
    let chars = chars_of(value);
    let trimmed_chars = crate::text::trim_chars(chars.as_slice());
    if trimmed_chars.len() == 0 {
        return;
    }
    let trimmed = string_from(trimmed_chars.as_slice());
    match target {
        SoftwareTextTarget::Description => crate::xml::append_fragment(
            &mut item.description,
            trimmed.as_str(),
        ),
        SoftwareTextTarget::Year => crate::xml::append_fragment(&mut item.year, trimmed.as_str()),
        SoftwareTextTarget::Publisher => crate::xml::append_fragment(&mut item.publisher, trimmed.as_str()),
    }
}

/// The items of `m` from position `start` up to `end`, as far as `m` reaches.
pub open spec fn window(m: Seq<SoftwareItemSummary>, start: int, end: int) -> Seq<SoftwareItemSummary> {
    let a = if start <= m.len() {
        start
    } else {
        m.len() as int
    };
    let b = if end <= m.len() {
        end
    } else {
        m.len() as int
    };
    m.subrange(a, b)
}

pub open spec fn opt_text(o: Option<String>) -> Option<Seq<char>> {
    crate::bulk_audit::text_view(o)
}

/// An item is selected: it has the exact name asked for, if any, and passes the filters.
pub open spec fn selected(
    item: SoftwareItemSummary,
    exact: Option<Seq<char>>,
    text_filter: Option<Seq<char>>,
    filter: SoftwareListFilter,
    filter_value: Option<Seq<char>>,
) -> bool {
    (exact matches Some(n) ==> item.short_name@ == n) && item_passes(item, text_filter, filter, filter_value)
}

/// The reading state of a `-getsoftlist` document.
pub struct SoftwareListParser {
    pub expected_list: String,
    pub text_filter: Option<String>,
    pub filter: SoftwareListFilter,
    pub filter_value: Option<String>,
    pub exact_short_name: Option<String>,
    pub page_start: u64,
    pub page_end: u64,
    pub root_seen: bool,
    pub root_closed: bool,
    pub list_seen: bool,
    pub list_closed: bool,
    pub list_description: Option<String>,
    pub current: Option<SoftwareItemBuilder>,
    pub text_target: Option<SoftwareTextTarget>,
    pub total: u64,
    pub items: Vec<SoftwareItemSummary>,
    /// Every selected item so far, in document order.
    pub matched: Ghost<Seq<SoftwareItemSummary>>,
}

/// The parser's invariant: the total counts the selected items, the kept items are the
/// page window over them, and text is read only inside an item.
pub open spec fn software_wf(p: SoftwareListParser) -> bool {
    &&& p.total == p.matched@.len()
    &&& p.page_start <= p.page_end
    &&& p.items@ == window(p.matched@, p.page_start as int, p.page_end as int)
    &&& forall|i: int|
        0 <= i < p.matched@.len() ==> #[trigger] selected(
            p.matched@[i],
            opt_text(p.exact_short_name),
            opt_text(p.text_filter),
            p.filter,
            opt_text(p.filter_value),
        )
    &&& p.text_target is Some ==> p.current is Some
}

/// The unchanging parameters of a parser.
pub open spec fn same_request(a: SoftwareListParser, b: SoftwareListParser) -> bool {
    &&& a.expected_list == b.expected_list
    &&& a.text_filter == b.text_filter
    &&& a.filter == b.filter
    &&& a.filter_value == b.filter_value
    &&& a.exact_short_name == b.exact_short_name
    &&& a.page_start == b.page_start
    &&& a.page_end == b.page_end
}

/// A step of the parser that failed with a structure error.
pub open spec fn structure_failure(r: AppResult<()>) -> bool {
    r matches Err(e) && is_structure_error(e)
}

/// A step of the parser that failed with this error code.
pub open spec fn failure_with(r: AppResult<()>, code: Seq<char>) -> bool {
    r matches Err(e) && e.code@ == code
}

/// A step of the parser that succeeded and changed nothing.
pub open spec fn unchanged(old: SoftwareListParser, r: AppResult<()>, new: SoftwareListParser) -> bool {
    r is Ok && new == old
}

/// Opening a text element: only inside an item, with no other text element open.
pub open spec fn open_text_result(old: SoftwareListParser, target: SoftwareTextTarget, r: AppResult<()>, new: SoftwareListParser) -> bool {
    if old.current is Some && old.text_target is None {
        r is Ok && new == (SoftwareListParser { text_target: Some(target), ..old })
    } else {
        structure_failure(r)
    }
}

/// A `<part>`: only inside an item, where its part is appended to the item's parts.
pub open spec fn add_part_result(old: SoftwareListParser, attributes: Result<Vec<XmlAttribute>, XmlFault>, r: AppResult<()>, new: SoftwareListParser) -> bool {
    match old.current {
        None => structure_failure(r),
        Some(b) => match attributes {
            Err(f) => failure_with(r, software_fault_code(f)),
            Ok(a) => (r is Ok <==> part_accepted(a@)) && (r is Ok ==> (new.current matches Some(nb)
                && nb.parts@.len() == b.parts@.len() + 1 && nb.parts@.drop_last() == b.parts@ && part_read(
                a@,
                nb.parts@.last(),
            ) && nb == (SoftwareItemBuilder { parts: nb.parts, ..b }) && new == (SoftwareListParser {
                current: new.current,
                ..old
            }))),
        },
    }
}

/// The item an item builder finishes as.
pub open spec fn item_of(b: SoftwareItemBuilder) -> SoftwareItemSummary {
    SoftwareItemSummary {
        short_name: b.short_name,
        description: b.description,
        year: b.year,
        publisher: b.publisher,
        clone_of: b.clone_of,
        supported: b.supported,
        parts: b.parts,
    }
}

/// Closing an item: no text element may be open; its description, year and publisher
/// must not be blank; a selected item is counted, and kept when it falls in the page.
pub open spec fn close_item_result(old: SoftwareListParser, r: AppResult<()>, new: SoftwareListParser) -> bool {
    if old.text_target is Some {
        structure_failure(r)
    } else {
        match old.current {
            None => structure_failure(r),
            Some(b) => if !(trim(b.description@).len() > 0 && trim(b.year@).len() > 0 && trim(b.publisher@).len()
                > 0) {
                failure_with(r, "MAME_SOFTWARE_METADATA_INCOMPLETE"@)
            } else {
                let item = item_of(b);
                if selected(
                    item,
                    opt_text(old.exact_short_name),
                    opt_text(old.text_filter),
                    old.filter,
                    opt_text(old.filter_value),
                ) {
                    if old.total == u64::MAX {
                        failure_with(r, "MAME_SOFTWARE_RESULT_COUNT_OVERFLOW"@)
                    } else {
                        &&& r is Ok
                        &&& new.matched@ == old.matched@.push(item)
                        &&& new.total == old.total + 1
                        &&& new.items@ == if old.page_start <= old.total && old.total < old.page_end {
                            old.items@.push(item)
                        } else {
                            old.items@
                        }
                        &&& new == (SoftwareListParser {
                            current: None,
                            total: new.total,
                            items: new.items,
                            matched: new.matched,
                            ..old
                        })
                    }
                } else {
                    r is Ok && new == (SoftwareListParser { current: None, ..old })
                }
            },
        }
    }
}

/// A `<softwarelist>` start: inside the root, before any other list and outside an item;
/// it must be the list asked for, and its description is kept.
pub open spec fn start_list_result(old: SoftwareListParser, attributes: Result<Vec<XmlAttribute>, XmlFault>, r: AppResult<()>, new: SoftwareListParser) -> bool {
    if !old.root_seen || old.root_closed || old.list_seen || old.current is Some {
        structure_failure(r)
    } else {
        match attributes {
            Err(f) => failure_with(r, software_fault_code(f)),
            Ok(a) => match required(a@, "name"@) {
                None => failure_with(r, "MAME_SOFTWARE_REQUIRED_ATTRIBUTE_MISSING"@),
                Some(n) => if n != old.expected_list@ {
                    failure_with(r, "MAME_SOFTWARE_LIST_MISMATCH"@)
                } else {
                    r is Ok && crate::bulk_audit::text_view(new.list_description) == attr_value(a@, "description"@)
                        && new == (SoftwareListParser {
                        list_description: new.list_description,
                        list_seen: true,
                        ..old
                    })
                },
            },
        }
    }
}

/// A `<software>` start: inside the list, outside another item; it starts an item.
pub open spec fn start_item_result(old: SoftwareListParser, attributes: Result<Vec<XmlAttribute>, XmlFault>, r: AppResult<()>, new: SoftwareListParser) -> bool {
    if !old.list_seen || old.list_closed || old.current is Some {
        structure_failure(r)
    } else {
        match attributes {
            Err(f) => failure_with(r, software_fault_code(f)),
            Ok(a) => (r is Ok <==> item_accepted(a@)) && (support_of(a@) is None ==> failure_with(
                r,
                "MAME_SOFTWARE_ATTRIBUTE_INVALID"@,
            )) && (r is Ok ==> (new.current matches Some(b) && item_started(a@, b) && new == (
            SoftwareListParser { current: new.current, ..old }))),
        }
    }
}

/// Text: kept only while a text element is open, joined to that field of the item.
pub open spec fn text_result(old: SoftwareListParser, text: Result<String, XmlFault>, r: AppResult<()>, new: SoftwareListParser) -> bool {
    match old.text_target {
        None => unchanged(old, r, new),
        Some(t) => match text {
            Err(f) => failure_with(r, software_fault_code(f)),
            Ok(v) => r is Ok && (old.current matches Some(b) && new.current matches Some(nb) && item_text_added(
                b,
                nb,
                t,
                v@,
            ) && new == (SoftwareListParser { current: new.current, ..old })),
        },
    }
}

/// The end of an element: it closes the open text element of its name, an item, the
/// list or the root; any other end changes nothing.
pub open spec fn end_result(old: SoftwareListParser, name: Seq<char>, r: AppResult<()>, new: SoftwareListParser) -> bool {
    if name == "description"@ && old.text_target == Some(SoftwareTextTarget::Description) || name == "year"@
        && old.text_target == Some(SoftwareTextTarget::Year) || name == "publisher"@ && old.text_target == Some(
        SoftwareTextTarget::Publisher,
    ) {
        r is Ok && new == (SoftwareListParser { text_target: None, ..old })
    } else if name == "software"@ {
        close_item_result(old, r, new)
    } else if name == "softwarelist"@ {
        if old.current is Some {
            structure_failure(r)
        } else {
            r is Ok && new == (SoftwareListParser { list_closed: true, ..old })
        }
    } else if name == "softwarelists"@ {
        if old.current is Some || (old.list_seen && !old.list_closed) {
            structure_failure(r)
        } else {
            r is Ok && new == (SoftwareListParser { root_closed: true, ..old })
        }
    } else {
        unchanged(old, r, new)
    }
}

/// One event of a `-getsoftlist` document.
pub open spec fn software_step(old: SoftwareListParser, event: XmlEvent, r: AppResult<()>, new: SoftwareListParser) -> bool {
    match event {
        XmlEvent::Start { name, attributes } => if name@ == "softwarelists"@ {
            if old.root_seen {
                structure_failure(r)
            } else {
                r is Ok && new == (SoftwareListParser { root_seen: true, ..old })
            }
        } else if name@ == "softwarelist"@ {
            start_list_result(old, attributes, r, new)
        } else if name@ == "software"@ {
            start_item_result(old, attributes, r, new)
        } else if name@ == "description"@ {
            open_text_result(old, SoftwareTextTarget::Description, r, new)
        } else if name@ == "year"@ {
            open_text_result(old, SoftwareTextTarget::Year, r, new)
        } else if name@ == "publisher"@ {
            open_text_result(old, SoftwareTextTarget::Publisher, r, new)
        } else if name@ == "part"@ {
            add_part_result(old, attributes, r, new)
        } else {
            unchanged(old, r, new)
        },
        XmlEvent::Empty { name, attributes } => if name@ == "part"@ {
            add_part_result(old, attributes, r, new)
        } else {
            unchanged(old, r, new)
        },
        XmlEvent::Text(text) => text_result(old, text, r, new),
        XmlEvent::End { name } => end_result(old, name@, r, new),
        _ => unchanged(old, r, new),
    }
}

impl SoftwareListParser {
    fn open_text(&mut self, target: SoftwareTextTarget) -> (r: AppResult<()>)
        requires
            software_wf(*old(self)),
        ensures
            software_wf(*final(self)),
            same_request(*final(self), *old(self)),
            final(self).total == old(self).total,
            final(self).root_seen == old(self).root_seen && final(self).root_closed == old(self).root_closed,
            final(self).list_seen == old(self).list_seen && final(self).list_closed == old(self).list_closed,
            final(self).current is Some <==> old(self).current is Some,
            open_text_result(*old(self), target, r, *final(self)),
    {
        if self.current.is_none() || self.text_target.is_some() {
            return Err(
                structure_error("MAME -getsoftlist returned descriptive metadata outside a software item."),
            );
        }
        self.text_target = Some(target);
        Ok(())
    }

    fn add_part(&mut self, attributes: Result<Vec<XmlAttribute>, XmlFault>) -> (r: AppResult<()>)
        requires
            software_wf(*old(self)),
        ensures
            software_wf(*final(self)),
            same_request(*final(self), *old(self)),
            final(self).total == old(self).total,
            final(self).root_seen == old(self).root_seen && final(self).root_closed == old(self).root_closed,
            final(self).list_seen == old(self).list_seen && final(self).list_closed == old(self).list_closed,
            final(self).current is Some <==> old(self).current is Some,
            final(self).text_target == old(self).text_target,
            add_part_result(*old(self), attributes, r, *final(self)),
    {
        if self.current.is_none() {
            return Err(
                structure_error("MAME -getsoftlist returned software metadata outside a software item."),
            );
        }
        let attrs = match attributes {
            Ok(a) => a,
            Err(f) => return Err(fault_error(f)),
        };
        let part = parse_part(attrs.as_slice())?;
        match &mut self.current {
            Some(item) => {
                let ghost before = item.parts@;
                item.parts.push(part);
                assert(item.parts@.drop_last() =~= before);
            },
            None => {},
        }
        Ok(())
    }

    fn close_item(&mut self) -> (r: AppResult<()>)
        requires
            software_wf(*old(self)),
        ensures
            software_wf(*final(self)),
            same_request(*final(self), *old(self)),
            final(self).root_seen == old(self).root_seen && final(self).root_closed == old(self).root_closed,
            final(self).list_seen == old(self).list_seen && final(self).list_closed == old(self).list_closed,
            r is Ok ==> final(self).current is None,
            old(self).text_target is Some ==> (r matches Err(e) && is_structure_error(e)),
            old(self).current is None ==> (r matches Err(e) && is_structure_error(e)),
            close_item_result(*old(self), r, *final(self)),
    {
        if self.text_target.is_some() {
            return Err(
                structure_error("MAME -getsoftlist closed a software item while metadata text was open."),
            );
        }
        let builder = match self.current.take() {
            Some(b) => b,
            None => return Err(structure_error("MAME closed a software item that was not open.")),
        };
        let item = builder.finish()?;
        let exact_matches = match &self.exact_short_name {
            Some(n) => str_equal(item.short_name.as_str(), n.as_str()),
            None => true,
        };
        let text_filter: Option<&str> = match &self.text_filter {
            Some(t) => Some(t.as_str()),
            None => None,
        };
        let filter_value: Option<&str> = match &self.filter_value {
            Some(v) => Some(v.as_str()),
            None => None,
        };
        if exact_matches && item_matches(&item, text_filter, self.filter, filter_value) {
            if self.total == u64::MAX {
                return Err(
                    AppError::new(
                        "MAME_SOFTWARE_RESULT_COUNT_OVERFLOW",
                        "The software list contains more matching items than can be counted.",
                    ),
                );
            }
            let ghost before = self.matched@;
            let ghost after = before.push(item);
            let in_page = self.total >= self.page_start && self.total < self.page_end;
            proof {
                assert(selected(
                    item,
                    opt_text(self.exact_short_name),
                    opt_text(self.text_filter),
                    self.filter,
                    opt_text(self.filter_value),
                ));
            }
            if in_page {
                self.items.push(item);
            }
            proof {
                let s = self.page_start as int;
                let e = self.page_end as int;
                assert(self.items@ =~= window(after, s, e));
            }
            self.matched = Ghost(after);
            self.total = self.total + 1;
        }
        Ok(())
    }

    /// Take in one event.
    pub fn feed(&mut self, event: XmlEvent) -> (r: AppResult<()>)
        requires
            software_wf(*old(self)),
        ensures
            software_wf(*final(self)),
            same_request(*final(self), *old(self)),
            event is Eof || event is Other ==> r is Ok && *final(self) == *old(self),
            software_step(*old(self), event, r, *final(self)),
    {
        match event {
            XmlEvent::Start { name, attributes } => {
                let n = name.as_str();
                if str_equal(n, "softwarelists") {
                    if self.root_seen {
                        return Err(structure_error("MAME -getsoftlist returned multiple root elements."));
                    }
                    self.root_seen = true;
                } else if str_equal(n, "softwarelist") {
                    if !self.root_seen || self.root_closed || self.list_seen || self.current.is_some() {
                        return Err(
                            structure_error(
                                "MAME -getsoftlist returned an invalid softwarelist element position.",
                            ),
                        );
                    }
                    let attrs = match attributes {
                        Ok(a) => a,
                        Err(f) => return Err(fault_error(f)),
                    };
                    let list_name = required_attr(attrs.as_slice(), "name")?;
                    if !str_equal(list_name.as_str(), self.expected_list.as_str()) {
                        return Err(
                            AppError::new(
                                "MAME_SOFTWARE_LIST_MISMATCH",
                                "MAME returned a software list different from the requested list.",
                            ).with_detail("requested", self.expected_list.clone()).with_detail(
                                "returned",
                                list_name,
                            ),
                        );
                    }
                    self.list_description = match find_attribute(attrs.as_slice(), "description") {
                        Some(d) => Some(d.to_owned()),
                        None => None,
                    };
                    self.list_seen = true;
                } else if str_equal(n, "software") {
                    if !self.list_seen || self.list_closed || self.current.is_some() {
                        return Err(
                            structure_error("MAME -getsoftlist returned an invalid software item position."),
                        );
                    }
                    let attrs = match attributes {
                        Ok(a) => a,
                        Err(f) => return Err(fault_error(f)),
                    };
                    let builder = SoftwareItemBuilder::new(attrs.as_slice())?;
                    self.current = Some(builder);
                } else if str_equal(n, "description") {
                    self.open_text(SoftwareTextTarget::Description)?;
                } else if str_equal(n, "year") {
                    self.open_text(SoftwareTextTarget::Year)?;
                } else if str_equal(n, "publisher") {
                    self.open_text(SoftwareTextTarget::Publisher)?;
                } else if str_equal(n, "part") {
                    self.add_part(attributes)?;
                }
                Ok(())
            },
            XmlEvent::Empty { name, attributes } => {
                if str_equal(name.as_str(), "part") {
                    self.add_part(attributes)?;
                }
                Ok(())
            },
            XmlEvent::Text(text) => {
                let target = match self.text_target {
                    Some(t) => t,
                    None => return Ok(()),
                };
                let value = match text {
                    Ok(v) => v,
                    Err(f) => return Err(fault_error(f)),
                };
                match &mut self.current {
                    Some(item) => append_item_text(item, target, value.as_str()),
                    None => {
                        return Err(
                            structure_error(
                                "MAME -getsoftlist returned software metadata outside a software item.",
                            ),
                        );
                    },
                }
                Ok(())
            },
            XmlEvent::End { name } => {
                let n = name.as_str();
                if str_equal(n, "description") && self.text_target == Some(SoftwareTextTarget::Description) {
                    self.text_target = None;
                } else if str_equal(n, "year") && self.text_target == Some(SoftwareTextTarget::Year) {
                    self.text_target = None;
                } else if str_equal(n, "publisher") && self.text_target == Some(SoftwareTextTarget::Publisher) {
                    self.text_target = None;
                } else if str_equal(n, "software") {
                    self.close_item()?;
                } else if str_equal(n, "softwarelist") {
                    if self.current.is_some() {
                        return Err(
                            structure_error(
                                "MAME -getsoftlist closed the list while a software item was open.",
                            ),
                        );
                    }
                    self.list_closed = true;
                } else if str_equal(n, "softwarelists") {
                    if self.current.is_some() || (self.list_seen && !self.list_closed) {
                        return Err(
                            structure_error(
                                "MAME -getsoftlist closed its root before the list was complete.",
                            ),
                        );
                    }
                    self.root_closed = true;
                }
                Ok(())
            },
            XmlEvent::Eof => Ok(()),
            XmlEvent::Other => Ok(()),
        }
    }

    /// The page once the document has ended: one complete root holding one complete list.
    pub fn finish(self) -> (r: AppResult<ParsedSoftwareList>)
        requires
            software_wf(self),
        ensures
            r is Ok <==> self.root_seen && self.root_closed && self.list_seen && self.list_closed,
            r matches Ok(p) ==> p.name == self.expected_list && p.description == self.list_description
                && p.total == self.total && p.items == self.items,
            r matches Err(e) ==> is_structure_error(e),
    {
        if !self.root_seen || !self.root_closed || !self.list_seen || !self.list_closed {
            return Err(
                structure_error("MAME -getsoftlist did not return one complete software list document."),
            );
        }
        Ok(
            ParsedSoftwareList {
                name: self.expected_list,
                description: self.list_description,
                total: self.total,
                items: self.items,
            },
        )
    }
}

/// The filter value as it is compared: trimmed, and absent when blank.
pub open spec fn normalized_value(v: Option<Seq<char>>) -> Option<Seq<char>> {
    match v {
        Some(t) => if trim(t).len() > 0 {
            Some(trim(t))
        } else {
            None
        },
        None => None,
    }
}

/// The search text as it is compared: lower-cased.
pub open spec fn lowered(o: Option<&str>) -> Option<Seq<char>> {
    match o {
        Some(t) => Some(lowercase(t@)),
        None => None,
    }
}

pub open spec fn opt_str(o: Option<&str>) -> Option<Seq<char>> {
    match o {
        Some(s) => Some(s@),
        None => None,
    }
}

/// The parser before the first event of a request: the list asked for, the search text
/// lower-cased, the filter value trimmed (absent when blank), the exact name, the page.
pub open spec fn software_start(
    p: SoftwareListParser,
    expected_list: Seq<char>,
    text_filter: Option<&str>,
    filter: SoftwareListFilter,
    filter_value: Option<&str>,
    limit: u32,
    offset: u32,
    exact_short_name: Option<&str>,
) -> bool {
    &&& p.expected_list@ == expected_list
    &&& opt_text(p.exact_short_name) == opt_str(exact_short_name)
    &&& opt_text(p.text_filter) == lowered(text_filter)
    &&& opt_text(p.filter_value) == normalized_value(opt_str(filter_value))
    &&& p.filter == filter && p.page_start == offset && p.page_end == offset + limit
    &&& !p.root_seen && !p.root_closed && !p.list_seen && !p.list_closed
    &&& p.list_description is None && p.current is None && p.text_target is None
    &&& p.total == 0 && p.items@.len() == 0 && p.matched@.len() == 0
}

/// Taking in `events` one by one from `init`, each step succeeding as `software_step`
/// says, passes through `states` (the first is `init`, the last is where it ends).
pub open spec fn software_trace(init: SoftwareListParser, events: Seq<XmlEvent>, states: Seq<SoftwareListParser>) -> bool {
    &&& states.len() == events.len() + 1
    &&& states[0] == init
    &&& forall|i: int|
        0 <= i < events.len() ==> #[trigger] software_step(states[i], events[i], Ok::<(), AppError>(()), states[i + 1])
}

/// The page once the document has ended: one complete root holding one complete list.
pub open spec fn software_finish(p: SoftwareListParser, r: AppResult<ParsedSoftwareList>) -> bool {
    if p.root_seen && p.root_closed && p.list_seen && p.list_closed {
        r matches Ok(x) && x.name == p.expected_list && x.description == p.list_description && x.total
            == p.total && x.items == p.items
    } else {
        r matches Err(e) && is_structure_error(e)
    }
}

/// How reading a document ends, given `events`, the events read before it ended: a step
/// failed on the last of them; or all were taken in and the next is the end of the
/// document, where `software_finish` decides; or the next is a reader error.
pub open spec fn software_outcome(init: SoftwareListParser, doc: Seq<RawXmlEvent>, events: Seq<XmlEvent>, r: AppResult<ParsedSoftwareList>) -> bool {
    ||| (r matches Err(e) && events.len() > 0 && exists|states: Seq<SoftwareListParser>, p: SoftwareListParser|
        software_trace(init, events.drop_last(), states) && #[trigger] software_step(
            states.last(),
            events.last(),
            Err::<(), AppError>(e),
            p,
        ))
    ||| exists|states: Seq<SoftwareListParser>|
        #[trigger] software_trace(init, events, states) && doc[events.len() as int] is Eof && software_finish(
            states.last(),
            r,
        )
    ||| exists|states: Seq<SoftwareListParser>|
        #[trigger] software_trace(init, events, states) && doc[events.len() as int] is Error && (r matches Err(e)
            && e.code@ == "MAME_SOFTWARE_XML_INVALID"@)
}

/// The result of a request on a document: a parser started for the request takes in the
/// document's events as `software_outcome` says.
pub open spec fn software_document(
    input: Seq<u8>,
    expected_list: Seq<char>,
    text_filter: Option<&str>,
    filter: SoftwareListFilter,
    filter_value: Option<&str>,
    limit: u32,
    offset: u32,
    exact_short_name: Option<&str>,
    r: AppResult<ParsedSoftwareList>,
) -> bool {
    exists|init: SoftwareListParser, events: Seq<XmlEvent>|
        software_start(init, expected_list, text_filter, filter, filter_value, limit, offset, exact_short_name)
            && read_events(xml_document_events(input), events) && #[trigger] software_outcome(
            init,
            xml_document_events(input),
            events,
            r,
        )
}

/// Read a software list document and keep the page `offset .. offset + limit` of the items
/// that have the exact name (if one is given) and pass the search and the filter. The total
/// counts every such item: filtering happens before the page is cut.
pub fn parse_software_list(
    input: &[u8],
    expected_list: &str,
    text_filter: Option<&str>,
    filter: SoftwareListFilter,
    filter_value: Option<&str>,
    limit: u32,
    offset: u32,
    exact_short_name: Option<&str>,
) -> (r: AppResult<ParsedSoftwareList>)
    ensures
        (filter == SoftwareListFilter::Year || filter == SoftwareListFilter::Publisher)
            && filter_value is None ==> (r matches Err(e) && e.code@
            == "MAME_SOFTWARE_FILTER_VALUE_REQUIRED"@),
        !((filter == SoftwareListFilter::Year || filter == SoftwareListFilter::Publisher) && filter_value is None)
            ==> software_document(
            input@,
            expected_list@,
            text_filter,
            filter,
            filter_value,
            limit,
            offset,
            exact_short_name,
            r,
        ),
        r matches Ok(p) ==> {
            &&& p.name@ == expected_list@
            &&& exists|m: Seq<SoftwareItemSummary>|
                {
                    &&& m.len() == p.total
                    &&& p.items@ == window(m, offset as int, offset + limit)
                    &&& forall|i: int|
                        0 <= i < m.len() ==> #[trigger] selected(
                            m[i],
                            opt_str(exact_short_name),
                            lowered(text_filter),
                            filter,
                            normalized_value(opt_str(filter_value)),
                        )
                }
        },
{
    if filter.requires_value() && filter_value.is_none() {
        return Err(
            AppError::new(
                "MAME_SOFTWARE_FILTER_VALUE_REQUIRED",
                "The selected software filter requires a value.",
            ),
        );
    }
    let search: Option<String> = match text_filter {
        Some(t) => Some(to_lowercase(t)),
        None => None,
    };
    let normalized: Option<String> = match filter_value {
        Some(v) => {
            let chars = chars_of(v);
            let t = crate::text::trim_chars(chars.as_slice());
            if t.len() > 0 {
                Some(string_from(t.as_slice()))
            } else {
                None
            }
        },
        None => None,
    };
    let mut parser = SoftwareListParser {
        expected_list: expected_list.to_owned(),
        text_filter: search,
        filter,
        filter_value: normalized,
        exact_short_name: match exact_short_name {
            Some(n) => Some(n.to_owned()),
            None => None,
        },
        page_start: offset as u64,
        page_end: offset as u64 + limit as u64,
        root_seen: false,
        root_closed: false,
        list_seen: false,
        list_closed: false,
        list_description: None,
        current: None,
        text_target: None,
        total: 0,
        items: Vec::new(),
        matched: Ghost(Seq::empty()),
    };
    assert(parser.items@ =~= window(Seq::empty(), offset as int, offset + limit));
    let ghost doc = xml_document_events(input@);
    let mut reader = XmlEventReader::new(input);
    let ghost first = parser;
    let ghost mut read: Seq<XmlEvent> = Seq::empty();
    let ghost mut states: Seq<SoftwareListParser> = seq![parser];
    assert(doc.skip(0) =~= doc);
    assert(software_start(first, expected_list@, text_filter, filter, filter_value, limit, offset, exact_short_name));
    loop
        invariant_except_break
            reader.pending() == doc.skip(read.len() as int),
            terminated(reader.pending()),
        invariant
            software_wf(parser),
            same_request(parser, first),
            parser.expected_list@ == expected_list@,
            opt_text(parser.exact_short_name) == opt_str(exact_short_name),
            opt_text(parser.text_filter) == lowered(text_filter),
            opt_text(parser.filter_value) == normalized_value(opt_str(filter_value)),
            parser.filter == filter,
            !((filter == SoftwareListFilter::Year || filter == SoftwareListFilter::Publisher)
                && filter_value is None),
            parser.page_start == offset,
            parser.page_end == offset + limit,
            doc == xml_document_events(input@),
            terminated(doc),
            read_events(doc, read),
            software_start(first, expected_list@, text_filter, filter, filter_value, limit, offset, exact_short_name),
            software_trace(first, read, states),
            states.last() == parser,
        ensures
            doc[read.len() as int] is Eof,
        decreases reader.pending().len(),
    {
        let ghost k = read.len() as int;
        assert(doc.skip(k)[0] == doc[k]);
        let event = match reader.next_event() {
            Ok(e) => e,
            Err(f) => {
                assert(doc[k] is Error);
                let r = Err(fault_error(f));
                assert(software_outcome(first, doc, read, r));
                return r;
            },
        };
        if let XmlEvent::Eof = event {
            break;
        }
        let ghost prev = read;
        let ghost before = parser;
        let ghost ev = event;
        proof {
            read = read.push(event);
            assert(read.drop_last() =~= prev);
            assert(!is_final_event(doc[k]));
            assert forall|i: int| 0 <= i < read.len() implies !is_final_event(#[trigger] doc[i]) && event_from(
                doc[i],
                Ok::<XmlEvent, XmlFault>(read[i]),
            ) by {
                if i < k {
                    assert(read[i] == prev[i]);
                }
            }
            assert(doc.skip(k).drop_first() =~= doc.skip(k + 1));
        }
        match parser.feed(event) {
            Ok(()) => {
                proof {
                    let old_states = states;
                    states = states.push(parser);
                    assert forall|i: int| 0 <= i < read.len() implies #[trigger] software_step(
                        states[i],
                        read[i],
                        Ok::<(), AppError>(()),
                        states[i + 1],
                    ) by {
                        if i < k {
                            assert(states[i] == old_states[i] && states[i + 1] == old_states[i + 1]);
                            assert(read[i] == prev[i]);
                            assert(software_step(old_states[i], prev[i], Ok::<(), AppError>(()), old_states[i + 1]));
                        } else {
                            assert(states[i] == before && read[i] == ev && states[i + 1] == parser);
                        }
                    }
                }
            },
            Err(e) => {
                let r = Err(e);
                assert(read.drop_last() =~= prev);
                assert(read.last() == ev);
                assert(software_trace(first, read.drop_last(), states));
                assert(software_step(states.last(), read.last(), Err::<(), AppError>(e), parser));
                assert(r matches Err(e2) && e2 == e);
                assert(exists|st: Seq<SoftwareListParser>, p: SoftwareListParser|
                    software_trace(first, read.drop_last(), st) && #[trigger] software_step(
                        st.last(),
                        read.last(),
                        Err::<(), AppError>(e),
                        p,
                    ));
                assert(software_outcome(first, doc, read, r));
                return r;
            },
        }
    }
    let ghost matched = parser.matched@;
    let ghost last = parser;
    let result = match parser.finish() {
        Ok(x) => x,
        Err(e) => {
            let r = Err(e);
            assert(software_outcome(first, doc, read, r));
            return r;
        },
    };
    assert(result.total == matched.len());
    let r = Ok(result);
    assert(software_outcome(first, doc, read, r));
    r
}

/// A page of a software list.
pub fn parse_software_list_page(
    input: &[u8],
    expected_list: &str,
    text_filter: Option<&str>,
    filter: SoftwareListFilter,
    filter_value: Option<&str>,
    limit: u32,
    offset: u32,
) -> (r: AppResult<ParsedSoftwareList>)
    ensures
        (filter == SoftwareListFilter::Year || filter == SoftwareListFilter::Publisher)
            && filter_value is None ==> (r matches Err(e) && e.code@
            == "MAME_SOFTWARE_FILTER_VALUE_REQUIRED"@),
        !((filter == SoftwareListFilter::Year || filter == SoftwareListFilter::Publisher) && filter_value is None)
            ==> software_document(input@, expected_list@, text_filter, filter, filter_value, limit, offset, None, r),
        r matches Ok(p) ==> p.name@ == expected_list@ && p.items@.len() <= limit,
{
    let r = parse_software_list(input, expected_list, text_filter, filter, filter_value, limit, offset, None);
    proof {
        if r is Ok {
            let p = r->Ok_0;
            let m = choose|m: Seq<SoftwareItemSummary>| m.len() == p.total && p.items@ == window(m, offset as int, offset + limit)
                && forall|i: int|
                    0 <= i < m.len() ==> #[trigger] selected(
                        m[i],
                        opt_str(None),
                        lowered(text_filter),
                        filter,
                        normalized_value(opt_str(filter_value)),
                    );
            assert(p.items@.len() <= limit);
        }
    }
    r
}

/// The item a one-item page gives: its first item, or none when it is empty.
pub open spec fn item_result(parsed: AppResult<ParsedSoftwareList>, r: AppResult<Option<SoftwareItemSummary>>) -> bool {
    match parsed {
        Err(e) => r matches Err(e2) && e2 == e,
        Ok(p) => if p.items@.len() == 0 {
            r == Ok::<Option<SoftwareItemSummary>, AppError>(None)
        } else {
            r == Ok::<Option<SoftwareItemSummary>, AppError>(Some(p.items@[0]))
        },
    }
}

/// The item with exactly this name, if the list holds it: the first item of the page of
/// size one of the items with that name.
pub fn parse_software_item(input: &[u8], expected_list: &str, exact_short_name: &str) -> (r: AppResult<
    Option<SoftwareItemSummary>,
>)
    ensures
        r matches Ok(Some(item)) ==> item.short_name@ == exact_short_name@,
        exists|parsed: AppResult<ParsedSoftwareList>|
            #[trigger] item_result(parsed, r) && software_document(
                input@,
                expected_list@,
                None,
                SoftwareListFilter::All,
                None,
                1,
                0,
                Some(exact_short_name),
                parsed,
            ),
{
    let res = parse_software_list(
        input,
        expected_list,
        None,
        SoftwareListFilter::All,
        None,
        1,
        0,
        Some(exact_short_name),
    );
    let ghost g = res;
    let parsed = match res {
        Ok(p) => p,
        Err(e) => {
            let r = Err(e);
            assert(item_result(g, r));
            return r;
        },
    };
    let mut items = parsed.items;
    if items.len() == 0 {
        assert(item_result(g, Ok(None)));
        return Ok(None);
    }
    proof {
        let m = choose|m: Seq<SoftwareItemSummary>| m.len() == parsed.total && items@ == window(m, 0, 1)
            && forall|i: int|
                0 <= i < m.len() ==> #[trigger] selected(
                    m[i],
                    opt_str(Some(exact_short_name)),
                    None,
                    SoftwareListFilter::All,
                    normalized_value(opt_str(None)),
                );
        assert(items@[0] == m[0]);
        assert(selected(m[0], opt_str(Some(exact_short_name)), None, SoftwareListFilter::All, normalized_value(opt_str(None))));
    }
    let ghost first_item = items@[0];
    let item = items.remove(0);
    assert(item_result(g, Ok(Some(item))));
    Ok(Some(item))
}

/// The arguments of the software-list query: MAME's own configuration is not read and
/// the list name must be a valid identifier; it is passed as one argument, never
/// through a shell.
pub fn software_list_query_args(software_list: &str) -> (r: AppResult<Vec<String>>)
    ensures
        r is Ok <==> crate::argv::valid_identifier_segment(software_list@, 64),
        r matches Ok(args) ==> args@.len() == 3 && args@[0]@ == "-noreadconfig"@ && args@[1]@ == "-getsoftlist"@
            && args@[2]@ == software_list@,
        r matches Err(e) ==> e.code@ == "MAME_IDENTIFIER_INVALID"@,
{
    crate::argv::validate_software_list_identifier(software_list)?;
    let mut args: Vec<String> = Vec::new();
    args.push("-noreadconfig".to_string());
    args.push("-getsoftlist".to_string());
    args.push(software_list.to_string());
    Ok(args)
}

/// Whether a finished software-list query may be parsed: MAME must have succeeded, its
/// output must be complete and not blank.
pub fn check_software_query_output(success: bool, stdout_truncated: bool, stdout: &str, software_list: &str) -> (r:
    AppResult<()>)
    ensures
        r is Ok <==> success && !stdout_truncated && trim(stdout@).len() > 0,
        r matches Err(e) ==> e.code@ == if !success {
            "MAME_SOFTWARE_QUERY_FAILED"@
        } else if stdout_truncated {
            "MAME_SOFTWARE_QUERY_TOO_LARGE"@
        } else {
            "MAME_SOFTWARE_QUERY_EMPTY"@
        },
{
    if !success {
        return Err(
            AppError::new(
                "MAME_SOFTWARE_QUERY_FAILED",
                "MAME rejected the requested software-list query.",
            ).with_detail("softwareList", software_list.to_string()),
        );
    }
    if stdout_truncated {
        return Err(
            AppError::new(
                "MAME_SOFTWARE_QUERY_TOO_LARGE",
                "MAME software-list metadata exceeded the bounded capture limit.",
            ).with_detail("softwareList", software_list.to_string()),
        );
    }
    let chars = chars_of(stdout);
    if crate::text::trim_chars(chars.as_slice()).len() == 0 {
        return Err(
            AppError::new(
                "MAME_SOFTWARE_QUERY_EMPTY",
                "MAME returned no software-list metadata for the requested list.",
            ).with_detail("softwareList", software_list.to_string()),
        );
    }
    Ok(())
}

} // verus!
