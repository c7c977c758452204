//! XML events as plain values, read with `quick_xml`.
//!
//! The reader is `quick_xml`'s. The events it yields are a function of the document's
//! bytes; that sequence is named (`xml_document_events`) and each trusted function below
//! states its result over such names. Turning a read event into an [`XmlEvent`], and every
//! decision made on it, is verified code.

use vstd::prelude::*;

use quick_xml::events::Event;

use self::RawXmlEvent::{CData, Empty, End, Eof, Error, Other, Reference, Start, Text};

use crate::text::string_from;

verus! {

broadcast use vstd::string::group_string_axioms;

#[verifier::external_type_specification]
#[verifier::external_body]
#[verifier::reject_recursive_types(R)]
pub struct ExXmlReader<R>(quick_xml::Reader<R>);

#[verifier::external_type_specification]
#[verifier::external_body]
pub struct ExXmlAttributes<'a>(quick_xml::events::attributes::Attributes<'a>);

#[verifier::external_type_specification]
#[verifier::external_body]
pub struct ExXmlAttribute<'a>(quick_xml::events::attributes::Attribute<'a>);

#[verifier::external_type_specification]
#[verifier::external_body]
pub struct ExXmlAttrError(quick_xml::events::attributes::AttrError);

/// An event as the reader yields it, as plain values: the name and the undecoded attribute
/// text of a start or empty element, the name of an end element, the EOL-normalized content of text and CDATA, the name of a
/// reference; a reader error is `Error`.
#[derive(Debug, PartialEq, Eq)]
pub enum RawXmlEvent {
    Start(String, String),
    Empty(String, String),
    End(String),
    Text(String),
    CData(String),
    Reference(String),
    Other,
    Eof,
    Error,
}

/// The end of what a reader yields: the end of the document or an error.
pub open spec fn is_final_event(e: RawXmlEvent) -> bool {
    e is Eof || e is Error
}

/// A sequence of events that ends with its first end or error.
pub open spec fn terminated(events: Seq<RawXmlEvent>) -> bool {
    &&& events.len() > 0
    &&& is_final_event(events.last())
    &&& forall|i: int| 0 <= i < events.len() - 1 ==> !is_final_event(#[trigger] events[i])
}

/// The events `quick_xml` reads from a document (with text trimmed), in order, up to and
/// including the first end of document or error.
pub uninterp spec fn xml_document_events(input: Seq<u8>) -> Seq<RawXmlEvent>;

/// The events a reader yields from its current position, up to and including the first
/// end of document or error.
pub uninterp spec fn pending_xml_events(reader: quick_xml::Reader<&[u8]>) -> Seq<RawXmlEvent>;

/// `quick_xml::Reader::from_reader` over a document, with `trim_text(true)`: text events
/// come without surrounding white space, and white-space-only text yields no event. What it
/// will yield are the document's events, which end with an end of document or an error.
#[verifier::external_body]
fn trimmed_reader<'a>(input: &'a [u8]) -> (r: quick_xml::Reader<&'a [u8]>)
    ensures
        pending_xml_events(r) == xml_document_events(input@),
        terminated(pending_xml_events(r)),
{
    let mut reader = quick_xml::Reader::from_reader(input);
    reader.config_mut().trim_text(true);
    reader
}

/// `quick_xml::Reader::read_event`, as plain values: the next pending event. After any
/// event but the last the reader is positioned at the one after it.
#[verifier::external_body]
fn read_raw_event<'a>(reader: &mut quick_xml::Reader<&'a [u8]>) -> (r: RawXmlEvent)
    requires
        terminated(pending_xml_events(*old(reader))),
    ensures
        r == pending_xml_events(*old(reader))[0],
        !is_final_event(r) ==> pending_xml_events(*final(reader)) == pending_xml_events(*old(reader)).drop_first(),
{
    match reader.read_event() {
        Ok(Event::Start(e)) => Start(e.name().0.into(), e.attributes_raw().into()),
        Ok(Event::Empty(e)) => Empty(e.name().0.into(), e.attributes_raw().into()),
        Ok(Event::End(e)) => End(e.name().0.into()),
        Ok(Event::Text(t)) => Text(t.xml10_content().into()),
        Ok(Event::CData(c)) => CData(c.xml10_content().into()),
        Ok(Event::GeneralRef(g)) => Reference(g.as_ref().into()),
        Ok(Event::Eof) => Eof,
        Ok(_) => Other,
        Err(_) => Error,
    }
}

/// The attributes `quick_xml` reads from the attribute text of a tag, in order, each as
/// its name and undecoded value (`None` for a malformed one), up to and including the
/// first malformed one.
pub uninterp spec fn xml_attribute_items(text: Seq<char>) -> Seq<Option<(Seq<char>, Seq<char>)>>;

/// The attributes an attribute iterator yields from its current position, as in
/// `xml_attribute_items`.
pub uninterp spec fn pending_attribute_items(attributes: quick_xml::events::attributes::Attributes) -> Seq<
    Option<(Seq<char>, Seq<char>)>,
>;

/// `quick_xml::events::attributes::Attributes::new` over the attribute text of a tag (the
/// same iteration `BytesStart::attributes` makes).
#[verifier::external_body]
fn attribute_iterator<'b>(text: &'b str) -> (r: quick_xml::events::attributes::Attributes<'b>)
    ensures
        pending_attribute_items(r) == xml_attribute_items(text@),
{
    quick_xml::events::attributes::Attributes::new(text, 0)
}

/// `Iterator::next` of `Attributes`, as plain values: the next pending attribute (its name
/// and undecoded value), `Err` for a malformed one, `None` when there are no more.
#[verifier::external_body]
fn next_attribute<'b>(attributes: &mut quick_xml::events::attributes::Attributes<'b>) -> (r: Option<
    Result<(String, String), ()>,
>)
    ensures
        pending_attribute_items(*old(attributes)).len() == 0 ==> r is None,
        pending_attribute_items(*old(attributes)).len() > 0 ==> match pending_attribute_items(*old(attributes))[0] {
            None => r == Some(Err::<(String, String), ()>(())),
            Some((k, v)) => r matches Some(Ok((rk, rv))) && rk@ == k && rv@ == v && pending_attribute_items(
                *final(attributes),
            ) == pending_attribute_items(*old(attributes)).drop_first(),
        },
{
    match attributes.next() {
        None => None,
        Some(Ok(a)) => Some(Ok((a.key.0.to_owned(), a.value.into_owned()))),
        Some(Err(_)) => Some(Err(())),
    }
}

/// The value of an attribute as `Attribute::normalized_value` gives it for XML 1.0 (the
/// predefined entities and character references resolved, line breaks and tabs made
/// spaces), or `None` where it cannot be normalized.
pub uninterp spec fn normalized_attribute_value(raw: Seq<char>) -> Option<Seq<char>>;

/// `quick_xml::events::attributes::Attribute::normalized_value` for XML 1.0 of an undecoded
/// value (it depends on the value alone).
#[verifier::external_body]
fn normalize_attribute_value(raw: &str) -> (r: Result<String, ()>)
    ensures
        match r {
            Ok(v) => normalized_attribute_value(raw@) == Some(v@),
            Err(_) => normalized_attribute_value(raw@) is None,
        },
{
    let attribute = quick_xml::events::attributes::Attribute {
        key: quick_xml::name::QName(""),
        value: std::borrow::Cow::Borrowed(raw),
    };
    attribute.normalized_value(quick_xml::XmlVersion::Implicit1_0).map(|v| v.into_owned()).map_err(|_| ())
}

/// The text `quick_xml::escape::unescape` gives (predefined entities and character references
/// resolved), or `None` for a malformed or unknown reference.
pub uninterp spec fn unescaped_text(text: Seq<char>) -> Option<Seq<char>>;

/// `quick_xml::escape::unescape`.
#[verifier::external_body]
fn unescape_text(text: &str) -> (r: Result<String, ()>)
    ensures
        match r {
            Ok(v) => unescaped_text(text@) == Some(v@),
            Err(_) => unescaped_text(text@) is None,
        },
{
    quick_xml::escape::unescape(text).map(|v| v.into_owned()).map_err(|_| ())
}

/// The value of a digit in base 10 or 16 (either case of letter).
pub open spec fn digit_value(c: char, radix: nat) -> Option<nat> {
    if '0' <= c && c <= '9' {
        Some((c as nat - '0' as nat) as nat)
    } else if radix == 16 && 'a' <= c && c <= 'f' {
        Some((c as nat - 'a' as nat + 10) as nat)
    } else if radix == 16 && 'A' <= c && c <= 'F' {
        Some((c as nat - 'A' as nat + 10) as nat)
    } else {
        None
    }
}

/// The value of a string of digits, or `None` if one is not a digit.
pub open spec fn digits_value(s: Seq<char>, radix: nat) -> Option<nat>
    decreases s.len(),
{
    if s.len() == 0 {
        Some(0)
    } else {
        match (digits_value(s.drop_last(), radix), digit_value(s.last(), radix)) {
            (Some(v), Some(d)) => Some(v * radix + d),
            _ => None,
        }
    }
}

/// `u32::from_str_radix` on an unsigned number: at least one digit, all digits, and the value
/// fits a `u32`.
pub open spec fn number_of(s: Seq<char>, radix: nat) -> Option<nat> {
    if s.len() == 0 {
        None
    } else {
        match digits_value(s, radix) {
            Some(v) => if v <= u32::MAX {
                Some(v)
            } else {
                None
            },
            None => None,
        }
    }
}

/// What `BytesRef::resolve_char_ref` gives for a reference name: `Some(None)` for a name with
/// no leading `#`; for `#` and a decimal number, or `#x` and a hexadecimal one, the
/// character with that code (`Some(Some(c))`), or `None` when the number is malformed, zero,
/// or not the code of a character.
pub open spec fn char_reference(name: Seq<char>) -> Option<Option<char>> {
    if name.len() > 0 && name[0] == '#' {
        let num = name.drop_first();
        let code = if num.len() > 0 && num[0] == 'x' {
            number_of(num.drop_first(), 16)
        } else {
            number_of(num, 10)
        };
        match code {
            None => None,
            Some(n) => if n == 0 || n > 0x10FFFF || (0xD800 <= n && n <= 0xDFFF) {
                None
            } else {
                Some(Some(n as char))
            },
        }
    } else {
        Some(None)
    }
}

/// `quick_xml::events::BytesRef::resolve_char_ref` of a reference name.
#[verifier::external_body]
fn resolve_char_reference(name: &str) -> (r: Result<Option<char>, ()>)
    ensures
        match r {
            Ok(c) => char_reference(name@) == Some(c),
            Err(_) => char_reference(name@) is None,
        },
{
    quick_xml::events::BytesRef::new(name).resolve_char_ref().map_err(|_| ())
}

/// The replacement text of the five predefined XML entities.
pub open spec fn predefined_entity_text(name: Seq<char>) -> Option<Seq<char>> {
    if name == "lt"@ {
        Some("<"@)
    } else if name == "gt"@ {
        Some(">"@)
    } else if name == "amp"@ {
        Some("&"@)
    } else if name == "apos"@ {
        Some("'"@)
    } else if name == "quot"@ {
        Some("\""@)
    } else {
        None
    }
}

/// The replacement of `lt`, `gt`, `amp`, `apos` and `quot` (as quick_xml's
/// `resolve_predefined_entity` gives it without HTML entities), and nothing for any other
/// name.
fn predefined_entity(name: &str) -> (r: Option<&'static str>)
    ensures
        match r {
            Some(t) => predefined_entity_text(name@) == Some(t@),
            None => predefined_entity_text(name@) is None,
        },
{
    proof {
        reveal_strlit("lt");
        reveal_strlit("gt");
        reveal_strlit("amp");
        reveal_strlit("apos");
        reveal_strlit("quot");
        assert("lt"@[0] != "gt"@[0]);
        assert("amp"@.len() != "apos"@.len() && "amp"@.len() != "quot"@.len() && "apos"@[0] != "quot"@[0]);
    }
    if crate::text::str_equal(name, "lt") {
        Some("<")
    } else if crate::text::str_equal(name, "gt") {
        Some(">")
    } else if crate::text::str_equal(name, "amp") {
        Some("&")
    } else if crate::text::str_equal(name, "apos") {
        Some("'")
    } else if crate::text::str_equal(name, "quot") {
        Some("\"")
    } else {
        None
    }
}

/// One attribute of an element: its name and its decoded value.
#[derive(Debug, Clone, PartialEq, Eq)]
pub struct XmlAttribute {
    pub key: String,
    pub value: String,
}

/// Why an event or part of one could not be read.
#[derive(Debug, Clone, PartialEq, Eq)]
pub enum XmlFault {
    /// The document is not well-formed XML.
    Syntax,
    /// An attribute is malformed.
    AttributeMalformed,
    /// An attribute value cannot be decoded.
    AttributeValueInvalid,
    /// An attribute occurs twice on one element.
    AttributeDuplicate(String),
    /// Text has invalid escaping.
    TextEscapeInvalid,
    /// A character reference is invalid.
    CharacterReferenceInvalid,
    /// An entity other than the predefined ones.
    EntityUnsupported(String),
}

/// One event of a document, as plain values. The attributes and text are decoded when the
/// event is read; whether a decoding failure matters is for the parser to decide.
#[derive(Debug, PartialEq, Eq)]
pub enum XmlEvent {
    Start { name: String, attributes: Result<Vec<XmlAttribute>, XmlFault> },
    Empty { name: String, attributes: Result<Vec<XmlAttribute>, XmlFault> },
    End { name: String },
    Text(Result<String, XmlFault>),
    Eof,
    Other,
}

/// No two attributes share a name.
pub open spec fn distinct_keys(attrs: Seq<XmlAttribute>) -> bool {
    forall|i: int, j: int| 0 <= i < j < attrs.len() ==> attrs[i].key@ != attrs[j].key@
}

fn key_present(attrs: &Vec<XmlAttribute>, key: &str) -> (r: bool)
    ensures
        r == exists|i: int| 0 <= i < attrs@.len() && #[trigger] attrs@[i].key@ == key@,
{
    let mut i: usize = 0;
    while i < attrs.len()
        invariant
            i <= attrs@.len(),
            forall|k: int| 0 <= k < i ==> #[trigger] attrs@[k].key@ != key@,
        decreases attrs.len() - i,
    {
        if crate::text::str_equal(attrs[i].key.as_str(), key) {
            return true;
        }
        i += 1;
    }
    false
}


/// What decoding the attribute items up to `n` gives: the attributes so far as (name,
/// value) pairs, or the first failure as a kind (`0` malformed, `1` undecodable value, `2`
/// a repeated name) with the repeated name.
pub open spec fn decoded_attributes(items: Seq<Option<(Seq<char>, Seq<char>)>>, n: int) -> Result<
    Seq<(Seq<char>, Seq<char>)>,
    (int, Seq<char>),
>
    decreases n,
{
    if n <= 0 {
        Ok(Seq::empty())
    } else {
        match decoded_attributes(items, n - 1) {
            Err(e) => Err(e),
            Ok(acc) => match items[n - 1] {
                None => Err((0, Seq::empty())),
                Some((k, raw)) => match normalized_attribute_value(raw) {
                    None => Err((1, Seq::empty())),
                    Some(v) => if exists|i: int| 0 <= i < acc.len() && #[trigger] acc[i].0 == k {
                        Err((2, k))
                    } else if acc.len() >= usize::MAX {
                        Err((0, Seq::empty()))
                    } else {
                        Ok(acc.push((k, v)))
                    },
                },
            },
        }
    }
}

/// The attributes as (name, value) pairs.
pub open spec fn attribute_pairs(attrs: Seq<XmlAttribute>) -> Seq<(Seq<char>, Seq<char>)> {
    attrs.map_values(|a: XmlAttribute| (a.key@, a.value@))
}

/// A decoded attribute list is what `decoded_attributes` gives for the attribute text.
pub open spec fn attributes_from(text: Seq<char>, r: Result<Vec<XmlAttribute>, XmlFault>) -> bool {
    let items = xml_attribute_items(text);
    match decoded_attributes(items, items.len() as int) {
        Ok(pairs) => r matches Ok(v) && attribute_pairs(v@) == pairs,
        Err((kind, key)) => if kind == 0 {
            r == Err::<Vec<XmlAttribute>, XmlFault>(XmlFault::AttributeMalformed)
        } else if kind == 1 {
            r == Err::<Vec<XmlAttribute>, XmlFault>(XmlFault::AttributeValueInvalid)
        } else {
            r matches Err(XmlFault::AttributeDuplicate(d)) && d@ == key
        },
    }
}

proof fn lemma_decoded_error_persists(items: Seq<Option<(Seq<char>, Seq<char>)>>, n: int, m: int)
    requires
        0 <= n <= m,
        decoded_attributes(items, n) is Err,
    ensures
        decoded_attributes(items, m) == decoded_attributes(items, n),
    decreases m - n,
{
    if n < m {
        lemma_decoded_error_persists(items, n, m - 1);
    }
}

/// The attributes of a start or empty element, in document order, as `attributes_from`
/// says; their names are distinct.
fn decode_attributes(text: &str) -> (r: Result<Vec<XmlAttribute>, XmlFault>)
    ensures
        attributes_from(text@, r),
        r matches Ok(attrs) ==> distinct_keys(attrs@),
{
    let ghost items = xml_attribute_items(text@);
    let mut iter = attribute_iterator(text);
    let mut attrs: Vec<XmlAttribute> = Vec::new();
    let ghost mut k: int = 0;
    assert(items.skip(0) =~= items);
    assert(attribute_pairs(attrs@) =~= Seq::<(Seq<char>, Seq<char>)>::empty());
    loop
        invariant
            items == xml_attribute_items(text@),
            0 <= k <= items.len(),
            pending_attribute_items(iter) == items.skip(k),
            decoded_attributes(items, k) == Ok::<Seq<(Seq<char>, Seq<char>)>, (int, Seq<char>)>(
                attribute_pairs(attrs@),
            ),
            distinct_keys(attrs@),
        decreases items.len() - k,
    {
        let ghost before = attrs@;
        let next = next_attribute(&mut iter);
        let (key, raw) = match next {
            None => {
                assert(items.skip(k).len() == 0);
                assert(k == items.len());
                assert(decoded_attributes(items, items.len() as int) == Ok::<Seq<(Seq<char>, Seq<char>)>, (int, Seq<char>)>(
                    attribute_pairs(attrs@),
                ));
                return Ok(attrs);
            },
            Some(Err(_)) => {
                assert(items[k] is None);
                assert(decoded_attributes(items, k + 1) == Err::<Seq<(Seq<char>, Seq<char>)>, (int, Seq<char>)>((0, Seq::empty())));
                proof {
                    lemma_decoded_error_persists(items, k + 1, items.len() as int);
                }
                return Err(XmlFault::AttributeMalformed);
            },
            Some(Ok(pair)) => pair,
        };
        assert(items.skip(k)[0] == items[k]);
        assert(items.skip(k).drop_first() =~= items.skip(k + 1));
        let value = match normalize_attribute_value(raw.as_str()) {
            Ok(v) => v,
            Err(_) => {
                proof {
                    lemma_decoded_error_persists(items, k + 1, items.len() as int);
                }
                return Err(XmlFault::AttributeValueInvalid);
            },
        };
        let present = key_present(&attrs, key.as_str());
        proof {
            let acc = attribute_pairs(attrs@);
            assert(present == exists|i: int| 0 <= i < acc.len() && #[trigger] acc[i].0 == key@) by {
                if present {
                    let i = choose|i: int| 0 <= i < attrs@.len() && #[trigger] attrs@[i].key@ == key@;
                    assert(acc[i].0 == key@);
                }
                if exists|i: int| 0 <= i < acc.len() && #[trigger] acc[i].0 == key@ {
                    let i = choose|i: int| 0 <= i < acc.len() && #[trigger] acc[i].0 == key@;
                    assert(attrs@[i].key@ == key@);
                }
            }
        }
        if present {
            proof {
                lemma_decoded_error_persists(items, k + 1, items.len() as int);
            }
            return Err(XmlFault::AttributeDuplicate(key));
        }
        if attrs.len() == usize::MAX {
            proof {
                lemma_decoded_error_persists(items, k + 1, items.len() as int);
            }
            return Err(XmlFault::AttributeMalformed);
        }
        attrs.push(XmlAttribute { key, value });
        assert(attribute_pairs(attrs@) =~= attribute_pairs(before).push((key@, value@)));
        assert forall|i: int, j: int| 0 <= i < j < attrs@.len() implies attrs@[i].key@ != attrs@[j].key@ by {
            if j == attrs@.len() - 1 {
                assert(attrs@[i] == before[i]);
                assert(attribute_pairs(before)[i].0 == before[i].key@);
            } else {
                assert(attrs@[i] == before[i]);
                assert(attrs@[j] == before[j]);
            }
        }
        proof {
            k = k + 1;
        }
    }
}

/// The text a reference stands for: the character of a character reference, or the
/// replacement of a predefined entity; any other entity is refused by its name.
pub open spec fn reference_from(name: Seq<char>, r: Result<String, XmlFault>) -> bool {
    match char_reference(name) {
        None => r == Err::<String, XmlFault>(XmlFault::CharacterReferenceInvalid),
        Some(Some(c)) => r matches Ok(t) && t@ == seq![c],
        Some(None) => match predefined_entity_text(name) {
            Some(t) => r matches Ok(v) && v@ == t,
            None => r matches Err(XmlFault::EntityUnsupported(n)) && n@ == name,
        },
    }
}

/// The text a reference stands for: one character, either the one a character reference
/// gives or the replacement of one of the five predefined entities.
fn reference_text(name: &str) -> (r: Result<String, XmlFault>)
    ensures
        reference_from(name@, r),
        r matches Ok(t) ==> t@.len() == 1,
{
    proof {
        reveal_strlit("<");
        reveal_strlit(">");
        reveal_strlit("&");
        reveal_strlit("'");
        reveal_strlit("\"");
    }
    match resolve_char_reference(name) {
        Ok(Some(c)) => {
            let t = string_from(&[c]);
            assert(t@ =~= seq![c]);
            Ok(t)
        },
        Err(_) => Err(XmlFault::CharacterReferenceInvalid),
        Ok(None) => match predefined_entity(name) {
            Some(t) => Ok(t.to_owned()),
            None => {
                let n = name.to_owned();
                assert(n@ == name@);
                Err(XmlFault::EntityUnsupported(n))
            },
        },
    }
}

/// The event a read event becomes.
pub open spec fn event_from(raw: RawXmlEvent, r: Result<XmlEvent, XmlFault>) -> bool {
    match raw {
        RawXmlEvent::Start(name, attributes) => r matches Ok(XmlEvent::Start { name: n, attributes: a })
            && n@ == name@ && attributes_from(attributes@, a),
        RawXmlEvent::Empty(name, attributes) => r matches Ok(XmlEvent::Empty { name: n, attributes: a })
            && n@ == name@ && attributes_from(attributes@, a),
        RawXmlEvent::End(name) => r matches Ok(XmlEvent::End { name: n }) && n@ == name@,
        RawXmlEvent::Text(t) => r matches Ok(XmlEvent::Text(x)) && match unescaped_text(t@) {
            Some(u) => x matches Ok(v) && v@ == u,
            None => x == Err::<String, XmlFault>(XmlFault::TextEscapeInvalid),
        },
        RawXmlEvent::CData(t) => r matches Ok(XmlEvent::Text(Ok(v))) && v@ == t@,
        RawXmlEvent::Reference(n) => r matches Ok(XmlEvent::Text(x)) && reference_from(n@, x),
        RawXmlEvent::Other => r == Ok::<XmlEvent, XmlFault>(XmlEvent::Other),
        RawXmlEvent::Eof => r == Ok::<XmlEvent, XmlFault>(XmlEvent::Eof),
        RawXmlEvent::Error => r == Err::<XmlEvent, XmlFault>(XmlFault::Syntax),
    }
}

/// `events` are what the document's first events become, in order, and none of them is the
/// end of the document or an error.
pub open spec fn read_events(doc: Seq<RawXmlEvent>, events: Seq<XmlEvent>) -> bool {
    &&& events.len() < doc.len()
    &&& forall|i: int| 0 <= i < events.len() ==> !is_final_event(#[trigger] doc[i])
    &&& forall|i: int| 0 <= i < events.len() ==> event_from(#[trigger] doc[i], Ok::<XmlEvent, XmlFault>(events[i]))
}

/// A reader of XML events over a document's bytes, with text trimmed.
pub struct XmlEventReader<'a> {
    reader: quick_xml::Reader<&'a [u8]>,
}

impl<'a> XmlEventReader<'a> {
    /// The events the reader has yet to give, up to and including the last.
    pub closed spec fn pending(&self) -> Seq<RawXmlEvent> {
        pending_xml_events(self.reader)
    }

    /// A reader positioned at the start of the document.
    pub fn new(input: &'a [u8]) -> (r: Self)
        ensures
            r.pending() == xml_document_events(input@),
            terminated(r.pending()),
    {
        let reader = trimmed_reader(input);
        XmlEventReader { reader }
    }

    /// The next event, converted as `event_from` says; a reader error is `Syntax`. After
    /// any event but the end of the document the reader moves on to the next one.
    pub fn next_event(&mut self) -> (r: Result<XmlEvent, XmlFault>)
        requires
            terminated(old(self).pending()),
        ensures
            event_from(old(self).pending()[0], r),
            r matches Ok(XmlEvent::Start { attributes: Ok(attrs), .. }) ==> distinct_keys(attrs@),
            r matches Ok(XmlEvent::Empty { attributes: Ok(attrs), .. }) ==> distinct_keys(attrs@),
            r is Err ==> r == Err::<XmlEvent, XmlFault>(XmlFault::Syntax),
            !is_final_event(old(self).pending()[0]) ==> final(self).pending() == old(self).pending().drop_first(),
            !is_final_event(old(self).pending()[0]) ==> terminated(final(self).pending()),
            r matches Ok(XmlEvent::Eof) <==> old(self).pending()[0] is Eof,
    {
        let raw = read_raw_event(&mut self.reader);
        proof {
            let p = old(self).pending();
            if !is_final_event(raw) {
                let q = p.drop_first();
                assert forall|i: int| 0 <= i < q.len() - 1 implies !is_final_event(#[trigger] q[i]) by {
                    assert(q[i] == p[i + 1]);
                }
                assert(q.len() > 0 && q.last() == p.last());
            }
        }
        match raw {
            RawXmlEvent::Start(name, attributes) => Ok(
                XmlEvent::Start { name, attributes: decode_attributes(attributes.as_str()) },
            ),
            RawXmlEvent::Empty(name, attributes) => Ok(
                XmlEvent::Empty { name, attributes: decode_attributes(attributes.as_str()) },
            ),
            RawXmlEvent::End(name) => Ok(XmlEvent::End { name }),
            RawXmlEvent::Text(t) => match unescape_text(t.as_str()) {
                Ok(u) => Ok(XmlEvent::Text(Ok(u))),
                Err(_) => Ok(XmlEvent::Text(Err(XmlFault::TextEscapeInvalid))),
            },
            RawXmlEvent::CData(t) => Ok(XmlEvent::Text(Ok(t))),
            RawXmlEvent::Reference(n) => Ok(XmlEvent::Text(reference_text(n.as_str()))),
            RawXmlEvent::Other => Ok(XmlEvent::Other),
            RawXmlEvent::Eof => Ok(XmlEvent::Eof),
            RawXmlEvent::Error => Err(XmlFault::Syntax),
        }
    }
}

/// The value of the first attribute with this name.
pub open spec fn attr_value(attrs: Seq<XmlAttribute>, key: Seq<char>) -> Option<Seq<char>>
    decreases attrs.len(),
{
    if attrs.len() == 0 {
        None
    } else if attrs[0].key@ == key {
        Some(attrs[0].value@)
    } else {
        attr_value(attrs.drop_first(), key)
    }
}

/// The value of the attribute with this name, if present.
pub fn find_attribute<'v>(attrs: &'v [XmlAttribute], key: &str) -> (r: Option<&'v str>)
    ensures
        match r {
            Some(v) => attr_value(attrs@, key@) == Some(v@),
            None => attr_value(attrs@, key@) is None,
        },
{
    let mut i: usize = 0;
    assert(attrs@.skip(0) == attrs@);
    while i < attrs.len()
        invariant
            i <= attrs@.len(),
            attr_value(attrs@, key@) == attr_value(attrs@.skip(i as int), key@),
        decreases attrs.len() - i,
    {
        assert(attrs@.skip(i as int)[0] == attrs@[i as int]);
        if crate::text::str_equal(attrs[i].key.as_str(), key) {
            return Some(attrs[i].value.as_str());
        }
        assert(attrs@.skip(i as int).drop_first() == attrs@.skip(i + 1));
        i += 1;
    }
    assert(attrs@.skip(i as int).len() == 0);
    None
}

/// Text joined to existing text with one space, as the parsers accumulate element text.
pub open spec fn joined(existing: Seq<char>, value: Seq<char>) -> Seq<char> {
    if existing.len() == 0 {
        value
    } else {
        existing + seq![' '] + value
    }
}

/// Add a fragment of text, separated by a space from what is already there.
pub fn append_fragment(target: &mut String, value: &str)
    ensures
        final(target)@ == joined(old(target)@, value@),
{
    let existing = crate::text::chars_of(target.as_str());
    let v = crate::text::chars_of(value);
    let combined = if existing.len() == 0 {
        v
    } else {
        let mut with_space = existing;
        with_space.push(' ');
        crate::text::concat_chars(with_space.as_slice(), v.as_slice())
    };
    *target = string_from(combined.as_slice());
}

/// Add a fragment to an optional text, starting it when absent.
pub fn append_optional_fragment(target: &mut Option<String>, value: &str)
    ensures
        match *old(target) {
            Some(t) => *final(target) matches Some(n) && n@ == joined(t@, value@),
            None => *final(target) matches Some(n) && n@ == value@,
        },
{
    match target {
        Some(existing) => append_fragment(existing, value),
        None => {
            *target = Some(value.to_owned());
        },
    }
}

} // verus!
