//! BIOS choices of a machine, read from MAME's `-listxml` output for that machine, and the
//! checks on a selected BIOS.

use vstd::prelude::*;

use crate::errors::{AppError, AppResult};
use crate::text::{chars_of, str_equal, trim};
use crate::xml::{
    attr_value, event_from, find_attribute, is_final_event, read_events, terminated, xml_document_events, RawXmlEvent,
    XmlAttribute, XmlEvent, XmlEventReader, XmlFault,
};

verus! {

broadcast use vstd::string::group_string_axioms;

pub const BIOS_STDOUT_LIMIT: usize = 4194304;

pub const BIOS_STDERR_LIMIT: usize = 262144;

/// One BIOS a machine can boot.
#[derive(Debug, Clone, PartialEq, Eq)]
pub struct BiosChoice {
    pub name: String,
    pub description: String,
    pub is_default: bool,
}

/// A character allowed in a BIOS name.
pub open spec fn bios_char(c: char) -> bool {
    ('a' <= c <= 'z') || ('0' <= c <= '9') || c == '_' || c == '-' || c == '.'
}

/// A BIOS name that is safe to pass as a MAME option value: one to sixty-four allowed
/// characters, not starting with `-`.
pub open spec fn valid_bios_identifier(s: Seq<char>) -> bool {
    &&& s.len() > 0
    &&& s.len() <= 64
    &&& s[0] != '-'
    &&& forall|i: int| 0 <= i < s.len() ==> #[trigger] bios_char(s[i])
}

/// Check a BIOS name.
pub fn validate_bios_identifier(value: &str) -> (r: AppResult<()>)
    ensures
        r is Ok <==> valid_bios_identifier(value@),
        r matches Err(e) ==> e.code@ == "MAME_BIOS_IDENTIFIER_INVALID"@,
{
    let chars = chars_of(value);
    let mut valid = chars.len() > 0 && chars.len() <= 64 && chars[0] != '-';
    let mut i: usize = 0;
    while i < chars.len()
        invariant
            chars@ == value@,
            i <= chars@.len(),
            valid == (chars@.len() > 0 && chars@.len() <= 64 && chars@[0] != '-' && forall|k: int|
                0 <= k < i ==> #[trigger] bios_char(chars@[k])),
        decreases chars.len() - i,
    {
        let c = chars[i];
        let ok = ('a' <= c && c <= 'z') || ('0' <= c && c <= '9') || c == '_' || c == '-' || c == '.';
        assert(ok == bios_char(chars@[i as int]));
        valid = valid && ok;
        i += 1;
    }
    if valid {
        return Ok(());
    }
    Err(
        AppError::new(
            "MAME_BIOS_IDENTIFIER_INVALID",
            "The BIOS identifier contains unsupported characters or exceeds the bounded length.",
        ).with_detail("bios", value.to_owned()),
    )
}

/// A selected BIOS must be one MAME reported for the machine.
pub fn validate_bios_selection(choices: &[BiosChoice], selected: &str) -> (r: AppResult<()>)
    ensures
        r is Ok <==> exists|i: int| 0 <= i < choices@.len() && #[trigger] choices@[i].name@ == selected@,
        r matches Err(e) ==> e.code@ == "MAME_BIOS_SELECTION_INVALID"@,
{
    let mut i: usize = 0;
    while i < choices.len()
        invariant
            i <= choices@.len(),
            forall|k: int| 0 <= k < i ==> #[trigger] choices@[k].name@ != selected@,
        decreases choices.len() - i,
    {
        if str_equal(choices[i].name.as_str(), selected) {
            return Ok(());
        }
        i += 1;
    }
    Err(
        AppError::new(
            "MAME_BIOS_SELECTION_INVALID",
            "The selected BIOS is not reported for the requested machine.",
        ).with_detail("bios", selected.to_owned()),
    )
}

/// The error code of an XML fault met while reading BIOS metadata.
pub open spec fn bios_fault_code(fault: XmlFault) -> Seq<char> {
    if fault == XmlFault::Syntax {
        "MAME_BIOS_XML_INVALID"@
    } else {
        "MAME_BIOS_XML_ATTRIBUTE_INVALID"@
    }
}

fn bios_fault(fault: &XmlFault) -> (e: AppError)
    ensures
        e.code@ == bios_fault_code(*fault),
{
    match fault {
        XmlFault::Syntax => AppError::new("MAME_BIOS_XML_INVALID", "MAME BIOS metadata is not valid XML."),
        _ => AppError::new(
            "MAME_BIOS_XML_ATTRIBUTE_INVALID",
            "MAME BIOS metadata contains an attribute value that cannot be decoded.",
        ),
    }
}

pub open spec fn required(attrs: Seq<XmlAttribute>, name: Seq<char>) -> Option<Seq<char>> {
    match attr_value(attrs, name) {
        Some(v) => if v.len() > 0 {
            Some(v)
        } else {
            None
        },
        None => None,
    }
}

fn required_attr(attrs: &[XmlAttribute], name: &str) -> (r: AppResult<String>)
    ensures
        match r {
            Ok(v) => required(attrs@, name@) == Some(v@),
            Err(e) => required(attrs@, name@) is None && e.code@ == "MAME_BIOS_REQUIRED_ATTRIBUTE_MISSING"@,
        },
{
    match find_attribute(attrs, name) {
        Some(v) => {
            if chars_of(v).len() > 0 {
                return Ok(v.to_owned());
            }
        },
        None => {},
    }
    Err(
        AppError::new(
            "MAME_BIOS_REQUIRED_ATTRIBUTE_MISSING",
            "MAME BIOS metadata is missing a required attribute.",
        ).with_detail("attribute", name.to_owned()),
    )
}

/// The default flag of a `<biosset>`: absent or `no` is false, `yes` is true.
pub open spec fn default_flag(attrs: Seq<XmlAttribute>) -> Option<bool> {
    match attr_value(attrs, "default"@) {
        None => Some(false),
        Some(v) => if v == "no"@ {
            Some(false)
        } else if v == "yes"@ {
            Some(true)
        } else {
            None
        },
    }
}

/// A BIOS choice as plain values: its name, description and default flag.
pub type ChoiceView = (Seq<char>, Seq<char>, bool);

pub open spec fn choice_view(c: BiosChoice) -> ChoiceView {
    (c.name@, c.description@, c.is_default)
}

pub open spec fn choice_views(cs: Seq<BiosChoice>) -> Seq<ChoiceView> {
    cs.map_values(|c: BiosChoice| choice_view(c))
}

/// What one `<biosset>` element gives: its choice, or the code of the error refusing it.
/// The name is checked first, then the description, then the default flag.
pub open spec fn biosset_outcome(attrs: Seq<XmlAttribute>) -> Result<ChoiceView, Seq<char>> {
    match required(attrs, "name"@) {
        None => Err("MAME_BIOS_REQUIRED_ATTRIBUTE_MISSING"@),
        Some(n) => if !valid_bios_identifier(n) {
            Err("MAME_BIOS_IDENTIFIER_INVALID"@)
        } else {
            match required(attrs, "description"@) {
                None => Err("MAME_BIOS_REQUIRED_ATTRIBUTE_MISSING"@),
                Some(d) => match default_flag(attrs) {
                    None => Err("MAME_BIOS_METADATA_INVALID"@),
                    Some(f) => Ok((n, d, f)),
                },
            }
        },
    }
}

/// One `<biosset>` element.
pub fn parse_biosset(attrs: &[XmlAttribute]) -> (r: AppResult<BiosChoice>)
    ensures
        r matches Ok(c) ==> biosset_outcome(attrs@) == Ok::<ChoiceView, Seq<char>>(choice_view(c)),
        r matches Err(e) ==> biosset_outcome(attrs@) == Err::<ChoiceView, Seq<char>>(e.code@),
{
    let name = match required_attr(attrs, "name") {
        Ok(n) => n,
        Err(e) => return Err(e),
    };
    match validate_bios_identifier(name.as_str()) {
        Ok(()) => {},
        Err(e) => return Err(e),
    }
    let description = match required_attr(attrs, "description") {
        Ok(d) => d,
        Err(e) => return Err(e),
    };
    let is_default = match find_attribute(attrs, "default") {
        None => false,
        Some(v) => if str_equal(v, "no") {
            false
        } else if str_equal(v, "yes") {
            true
        } else {
            return Err(
                AppError::new(
                    "MAME_BIOS_METADATA_INVALID",
                    "MAME reported an invalid BIOS default flag.",
                ).with_detail("default", v.to_owned()),
            );
        },
    };
    Ok(BiosChoice { name, description, is_default })
}

/// How many choices are marked default.
pub open spec fn defaults_in(cs: Seq<ChoiceView>) -> nat
    decreases cs.len(),
{
    if cs.len() == 0 {
        0
    } else {
        defaults_in(cs.drop_last()) + if cs.last().2 {
            1nat
        } else {
            0nat
        }
    }
}

/// The state of a scan: inside the requested machine, whether it was met, and the choices
/// read so far.
pub type ScanView = (bool, bool, Seq<ChoiceView>);

/// One event of the scan. A `<machine>` start enters or leaves the requested machine by its
/// name; a `<biosset>` inside it adds a choice; its end leaves it; all else is passed over.
pub open spec fn bios_step(s: ScanView, event: XmlEvent, machine: Seq<char>) -> Result<ScanView, Seq<char>> {
    match event {
        XmlEvent::Start { name, attributes } => if name@ == "machine"@ {
            match attributes {
                Err(f) => Err(bios_fault_code(f)),
                Ok(a) => {
                    let hit = attr_value(a@, "name"@) == Some(machine);
                    Ok((hit, s.1 || hit, s.2))
                },
            }
        } else {
            Ok(s)
        },
        XmlEvent::Empty { name, attributes } => if s.0 && name@ == "biosset"@ {
            match attributes {
                Err(f) => Err(bios_fault_code(f)),
                Ok(a) => match biosset_outcome(a@) {
                    Err(code) => Err(code),
                    Ok(c) => Ok((s.0, s.1, s.2.push(c))),
                },
            }
        } else {
            Ok(s)
        },
        XmlEvent::End { name } => if name@ == "machine"@ {
            Ok((false, s.1, s.2))
        } else {
            Ok(s)
        },
        _ => Ok(s),
    }
}

/// The scan over events read before the end of the document, stopping at the first error.
pub open spec fn bios_scan(events: Seq<XmlEvent>, machine: Seq<char>) -> Result<ScanView, Seq<char>>
    decreases events.len(),
{
    if events.len() == 0 {
        Ok((false, false, Seq::<ChoiceView>::empty()))
    } else {
        match bios_scan(events.drop_last(), machine) {
            Err(code) => Err(code),
            Ok(s) => bios_step(s, events.last(), machine),
        }
    }
}

/// The result of a finished scan: the machine must have been met and at most one choice
/// may be the default.
pub open spec fn bios_final(s: ScanView) -> Result<Seq<ChoiceView>, Seq<char>> {
    if !s.1 {
        Err("MAME_BIOS_MACHINE_MISMATCH"@)
    } else if defaults_in(s.2) > 1 {
        Err("MAME_BIOS_METADATA_INVALID"@)
    } else {
        Ok(s.2)
    }
}

/// The BIOS choices that a document with these events gives for the requested machine.
pub open spec fn bios_result(events: Seq<XmlEvent>, machine: Seq<char>) -> Result<Seq<ChoiceView>, Seq<char>> {
    match bios_scan(events, machine) {
        Err(code) => Err(code),
        Ok(s) => bios_final(s),
    }
}

/// Every choice that a scan keeps has a valid BIOS name.
proof fn lemma_scan_names_valid(events: Seq<XmlEvent>, machine: Seq<char>)
    ensures
        bios_scan(events, machine) matches Ok(s) ==> forall|i: int|
            0 <= i < s.2.len() ==> valid_bios_identifier(#[trigger] s.2[i].0),
    decreases events.len(),
{
    if events.len() > 0 {
        lemma_scan_names_valid(events.drop_last(), machine);
    }
}

/// The choices of a successful scan all have valid BIOS names, and at most one of them is
/// the default.
pub proof fn law_bios_choices_are_valid(events: Seq<XmlEvent>, machine: Seq<char>)
    ensures
        bios_result(events, machine) matches Ok(cs) ==> defaults_in(cs) <= 1 && forall|i: int|
            0 <= i < cs.len() ==> valid_bios_identifier(#[trigger] cs[i].0),
{
    lemma_scan_names_valid(events, machine);
}

/// Once the scan of a prefix has failed, the scan of the whole fails the same way.
proof fn lemma_scan_error_persists(events: Seq<XmlEvent>, machine: Seq<char>, n: int)
    requires
        0 <= n <= events.len(),
        bios_scan(events.take(n), machine) is Err,
    ensures
        bios_scan(events, machine) == bios_scan(events.take(n), machine),
    decreases events.len() - n,
{
    if n < events.len() {
        assert(events.take(n + 1).drop_last() == events.take(n));
        lemma_scan_error_persists(events, machine, n + 1);
    } else {
        assert(events.take(n) == events);
    }
}

/// A scan of one document for the `<biosset>` elements of one machine.
pub struct BiosScan {
    pub in_machine: bool,
    pub seen: bool,
    pub choices: Vec<BiosChoice>,
}

impl BiosScan {
    pub open spec fn scan_view(&self) -> ScanView {
        (self.in_machine, self.seen, choice_views(self.choices@))
    }

    /// A scan before the first event.
    pub fn new() -> (r: BiosScan)
        ensures
            r.scan_view() == (false, false, Seq::<ChoiceView>::empty()),
    {
        let r = BiosScan { in_machine: false, seen: false, choices: Vec::new() };
        assert(choice_views(r.choices@) == Seq::<ChoiceView>::empty());
        r
    }

    /// Take in one event, as `bios_step` says.
    pub fn feed(&mut self, event: &XmlEvent, expected_machine: &str) -> (r: AppResult<()>)
        ensures
            bios_step(old(self).scan_view(), *event, expected_machine@) matches Ok(s) ==> r is Ok
                && final(self).scan_view() == s,
            bios_step(old(self).scan_view(), *event, expected_machine@) matches Err(code) ==> r matches Err(
                e,
            ) && e.code@ == code,
    {
        match event {
            XmlEvent::Start { name, attributes } => {
                if str_equal(name.as_str(), "machine") {
                    match attributes {
                        Err(f) => {
                            return Err(bios_fault(f));
                        },
                        Ok(attrs) => {
                            let hit = match find_attribute(attrs.as_slice(), "name") {
                                Some(n) => str_equal(n, expected_machine),
                                None => false,
                            };
                            self.in_machine = hit;
                            self.seen = self.seen || hit;
                        },
                    }
                }
                Ok(())
            },
            XmlEvent::Empty { name, attributes } => {
                if self.in_machine && str_equal(name.as_str(), "biosset") {
                    match attributes {
                        Err(f) => {
                            return Err(bios_fault(f));
                        },
                        Ok(attrs) => {
                            let choice = match parse_biosset(attrs.as_slice()) {
                                Ok(c) => c,
                                Err(e) => return Err(e),
                            };
                            let ghost before = self.choices@;
                            self.choices.push(choice);
                            assert(choice_views(self.choices@) =~= choice_views(before).push(
                                choice_view(choice),
                            ));
                        },
                    }
                }
                Ok(())
            },
            XmlEvent::End { name } => {
                if str_equal(name.as_str(), "machine") {
                    self.in_machine = false;
                }
                Ok(())
            },
            _ => Ok(()),
        }
    }

    /// The choices once the document has ended, as `bios_final` says.
    pub fn finish(self, expected_machine: &str) -> (r: AppResult<Vec<BiosChoice>>)
        ensures
            bios_final(self.scan_view()) matches Ok(cs) ==> r matches Ok(v) && choice_views(v@) == cs,
            bios_final(self.scan_view()) matches Err(code) ==> r matches Err(e) && e.code@ == code,
    {
        if !self.seen {
            return Err(
                AppError::new(
                    "MAME_BIOS_MACHINE_MISMATCH",
                    "MAME BIOS metadata did not contain the requested machine.",
                ).with_detail("machine", expected_machine.to_owned()),
            );
        }
        let ghost views = choice_views(self.choices@);
        let mut defaults: usize = 0;
        let mut i: usize = 0;
        while i < self.choices.len()
            invariant
                views == choice_views(self.choices@),
                i <= self.choices@.len(),
                defaults == defaults_in(views.take(i as int)),
                defaults <= i,
            decreases self.choices.len() - i,
        {
            assert(views.take(i + 1).drop_last() == views.take(i as int));
            assert(views.take(i + 1).last() == choice_view(self.choices@[i as int]));
            if self.choices[i].is_default {
                defaults = defaults + 1;
            }
            i += 1;
        }
        assert(views.take(views.len() as int) == views);
        if defaults > 1 {
            return Err(
                AppError::new(
                    "MAME_BIOS_METADATA_INVALID",
                    "MAME reported more than one default BIOS for the machine.",
                ),
            );
        }
        Ok(self.choices)
    }
}

/// The BIOS choices of the requested machine from the events of a document read before its
/// end, exactly as `bios_result` says.
pub fn bios_choices_from_events(events: &[XmlEvent], expected_machine: &str) -> (r: AppResult<
    Vec<BiosChoice>,
>)
    ensures
        bios_result(events@, expected_machine@) matches Ok(cs) ==> r matches Ok(v) && choice_views(v@)
            == cs,
        bios_result(events@, expected_machine@) matches Err(code) ==> r matches Err(e) && e.code@
            == code,
{
    let mut scan = BiosScan::new();
    let mut i: usize = 0;
    assert(events@.take(0) == Seq::<XmlEvent>::empty());
    while i < events.len()
        invariant
            i <= events@.len(),
            bios_scan(events@.take(i as int), expected_machine@) == Ok::<ScanView, Seq<char>>(
                scan.scan_view(),
            ),
        decreases events.len() - i,
    {
        assert(events@.take(i + 1).drop_last() == events@.take(i as int));
        assert(events@.take(i + 1).last() == events@[i as int]);
        match scan.feed(&events[i], expected_machine) {
            Ok(()) => {},
            Err(e) => {
                proof {
                    lemma_scan_error_persists(events@, expected_machine@, i + 1);
                }
                return Err(e);
            },
        }
        i += 1;
    }
    assert(events@.take(events@.len() as int) == events@);
    scan.finish(expected_machine)
}

/// How reading a document ends, given `events`, the events read before it ended: a step of
/// the scan failed on the last of them; or the scan took them all and the next is the end
/// of the document, where `bios_final` decides; or the next is a reader error.
pub open spec fn bios_outcome(doc: Seq<RawXmlEvent>, events: Seq<XmlEvent>, machine: Seq<char>, r: AppResult<Vec<BiosChoice>>) -> bool {
    match bios_scan(events, machine) {
        Err(code) => events.len() > 0 && bios_scan(events.drop_last(), machine) is Ok && (r matches Err(e)
            && e.code@ == code),
        Ok(s) => if doc[events.len() as int] is Eof {
            match bios_final(s) {
                Ok(cs) => r matches Ok(v) && choice_views(v@) == cs,
                Err(code) => r matches Err(e) && e.code@ == code,
            }
        } else {
            doc[events.len() as int] is Error && (r matches Err(e) && e.code@ == "MAME_BIOS_XML_INVALID"@)
        },
    }
}

/// The BIOS choices of the requested machine, in document order: the scan `bios_scan` over
/// the events of the document, as `bios_outcome` says; the choices have valid names, with
/// at most one default.
pub fn parse_bios_choices(xml: &[u8], expected_machine: &str) -> (r: AppResult<Vec<BiosChoice>>)
    ensures
        exists|events: Seq<XmlEvent>|
            #[trigger] read_events(xml_document_events(xml@), events) && bios_outcome(
                xml_document_events(xml@),
                events,
                expected_machine@,
                r,
            ),
        r matches Ok(cs) ==> defaults_in(choice_views(cs@)) <= 1 && forall|i: int|
            0 <= i < cs@.len() ==> valid_bios_identifier(#[trigger] cs@[i].name@),
{
    let ghost doc = xml_document_events(xml@);
    let mut reader = XmlEventReader::new(xml);
    let mut scan = BiosScan::new();
    let ghost mut read: Seq<XmlEvent> = Seq::empty();
    assert(doc.skip(0) =~= doc);
    loop
        invariant_except_break
            reader.pending() == doc.skip(read.len() as int),
            terminated(reader.pending()),
        invariant
            doc == xml_document_events(xml@),
            terminated(doc),
            read_events(doc, read),
            bios_scan(read, expected_machine@) == Ok::<ScanView, Seq<char>>(scan.scan_view()),
        ensures
            doc[read.len() as int] is Eof,
        decreases reader.pending().len(),
    {
        let ghost k = read.len() as int;
        assert(doc.skip(k)[0] == doc[k]);
        let event = match reader.next_event() {
            Ok(e) => e,
            Err(f) => {
                assert(doc[k] is Error);
                let r = Err(bios_fault(&f));
                assert(read_events(doc, read) && bios_outcome(doc, read, expected_machine@, r));
                return r;
            },
        };
        if let XmlEvent::Eof = event {
            break;
        }
        proof {
            let prev = read;
            read = read.push(event);
            assert(read.drop_last() =~= prev);
            assert(!is_final_event(doc[k]));
            assert forall|i: int| 0 <= i < read.len() implies !is_final_event(#[trigger] doc[i]) && event_from(
                doc[i],
                Ok::<XmlEvent, XmlFault>(read[i]),
            ) by {
                if i < k {
                    assert(read[i] == prev[i]);
                }
            }
            assert(doc.skip(k).drop_first() =~= doc.skip(k + 1));
        }
        match scan.feed(&event, expected_machine) {
            Ok(()) => {},
            Err(e) => {
                let r = Err(e);
                assert(read_events(doc, read) && bios_outcome(doc, read, expected_machine@, r));
                return r;
            },
        }
    }
    let r = scan.finish(expected_machine);
    proof {
        law_bios_choices_are_valid(read, expected_machine@);
        assert(doc[read.len() as int] is Eof);
        assert(read_events(doc, read) && bios_outcome(doc, read, expected_machine@, r));
        if let Ok(cs) = &r {
            assert(bios_result(read, expected_machine@) == Ok::<Seq<ChoiceView>, Seq<char>>(choice_views(cs@)));
            assert forall|i: int| 0 <= i < cs@.len() implies valid_bios_identifier(#[trigger] cs@[i].name@) by {
                assert(choice_views(cs@)[i].0 == cs@[i].name@);
            }
        }
    }
    r
}

/// Whether a finished BIOS query may be parsed: MAME must have succeeded, its output must
/// be complete and not blank.
pub fn check_bios_query_output(success: bool, stdout_truncated: bool, stdout: &str, machine: &str) -> (r:
    AppResult<()>)
    ensures
        r is Ok <==> success && !stdout_truncated && trim(stdout@).len() > 0,
        r matches Err(e) ==> e.code@ == if !success {
            "MAME_BIOS_QUERY_FAILED"@
        } else if stdout_truncated {
            "MAME_BIOS_QUERY_TOO_LARGE"@
        } else {
            "MAME_BIOS_QUERY_EMPTY"@
        },
{
    if !success {
        return Err(
            AppError::new("MAME_BIOS_QUERY_FAILED", "MAME rejected the requested BIOS query.").with_detail(
                "machine",
                machine.to_owned(),
            ),
        );
    }
    if stdout_truncated {
        return Err(
            AppError::new(
                "MAME_BIOS_QUERY_TOO_LARGE",
                "MAME BIOS metadata exceeded the bounded capture limit.",
            ).with_detail("machine", machine.to_owned()),
        );
    }
    let chars = chars_of(stdout);
    if crate::text::trim_chars(chars.as_slice()).len() == 0 {
        return Err(
            AppError::new(
                "MAME_BIOS_QUERY_EMPTY",
                "MAME returned no metadata for the requested machine.",
            ).with_detail("machine", machine.to_owned()),
        );
    }
    Ok(())
}

/// The arguments of the BIOS query for a machine: MAME's own configuration is not read
/// and the machine must be a valid short identifier, passed as one argument.
pub fn bios_query_args(machine: &str) -> (r: AppResult<Vec<String>>)
    ensures
        r is Ok <==> crate::argv::valid_identifier_segment(machine@, 16),
        r matches Ok(args) ==> args@.len() == 3 && args@[0]@ == "-noreadconfig"@ && args@[1]@ == "-listxml"@
            && args@[2]@ == machine@,
        r matches Err(e) ==> e.code@ == "MAME_IDENTIFIER_INVALID"@,
{
    crate::argv::validate_short_identifier("machine", machine)?;
    let mut args: Vec<String> = Vec::new();
    args.push("-noreadconfig".to_string());
    args.push("-listxml".to_string());
    args.push(machine.to_string());
    Ok(args)
}

} // verus!
