use mame_frontend::listxml::parse_listxml;
use mame_frontend::software_list::{
    item_matches, parse_software_item, parse_software_list_page, SoftwareItemSummary,
    SoftwareListFilter,
};

const FIXTURE: &str = r#"<?xml version="1.0"?>
<softwarelists>
  <softwarelist name="apple2_flop_orig" description="Apple II original disks">
    <software name="agentusa">
      <description>Agent U.S.A.</description>
      <year>1984</year>
      <publisher>Scholastic</publisher>
      <part name="flop1" interface="floppy_5_25"><dataarea name="flop" size="1"/></part>
    </software>
    <software name="airheart" supported="partial">
      <description>Airheart</description>
      <year>1986</year>
      <publisher>Broderbund</publisher>
      <part name="flop1" interface="floppy_5_25"/>
      <part name="flop2" interface="floppy_5_25"/>
    </software>
    <software name="archon2" cloneof="archon" supported="no">
      <description>Archon II: Adept</description>
      <year>1984</year>
      <publisher>Electronic Arts</publisher>
    </software>
    <software name="archon">
      <description>Archon</description>
      <year>1983</year>
      <publisher>Free Fall Associates</publisher>
      <part name="flop1" interface="floppy_5_25"/>
    </software>
  </softwarelist>
</softwarelists>"#;

#[test]
fn unknown_elements_are_ignored_without_losing_known_fields() {
    let xml = r#"<?xml version="1.0"?>
<mame build="test" mameconfig="10">
  <machine name="future" sourcefile="future.cpp">
    <description>Future Machine</description>
    <future-container><future-child answer="42"/></future-container>
    <year>2026</year>
    <manufacturer>Example</manufacturer>
    <driver status="good" emulation="good" savestate="supported"/>
  </machine>
</mame>"#;
    let parsed = parse_listxml(xml.as_bytes()).expect("unknown elements must be forward-compatible");
    let machines = parsed.machines;

    assert_eq!(machines[0].year.as_deref(), Some("2026"));
    assert_eq!(machines[0].manufacturer.as_deref(), Some("Example"));
}

#[test]
fn unicode_text_round_trips_without_loss() {
    let xml = r#"<?xml version="1.0" encoding="UTF-8"?>
<mame build="unicode-test" mameconfig="10">
  <machine name="unicode" sourcefile="unicode.cpp">
    <description>日本語テスト – Café</description>
    <year>2026</year>
    <manufacturer>株式会社テスト &amp; Société</manufacturer>
    <driver status="good" emulation="good" savestate="supported"/>
  </machine>
</mame>"#;
    let parsed = parse_listxml(xml.as_bytes()).expect("Unicode metadata must parse");
    let machines = parsed.machines;

    assert_eq!(machines[0].description, "日本語テスト – Café");
    assert_eq!(
        machines[0].manufacturer.as_deref(),
        Some("株式会社テスト & Société")
    );
}

#[test]
fn malformed_xml_is_rejected() {
    let xml = b"<mame><machine name='bad'><description>Broken</mame>";
    let error = parse_listxml(xml.as_slice()).expect_err("malformed XML must fail");
    assert!(matches!(
        error.code.as_str(),
        "MAME_METADATA_XML_INVALID" | "MAME_METADATA_XML_STRUCTURE_INVALID"
    ));
}

#[test]
fn empty_catalog_is_rejected_explicitly() {
    let xml = b"<mame build='test' mameconfig='10'></mame>";
    let error = parse_listxml(xml.as_slice()).expect_err("empty catalog must fail");
    assert_eq!(error.code, "MAME_METADATA_EMPTY");
}

#[test]
fn listxml_reads_devices_displays_and_summary() {
    let xml = r#"<mame build="0.288 (x)" mameconfig="10">
  <machine name="apple2e" sourcefile="apple2e.cpp" cloneof="apple2" isbios="no" runnable="yes">
    <description>Apple //e</description>
    <chip type="cpu" tag="maincpu" name="6502" clock="1021800"/>
    <display type="raster" rotate="90" width="560" height="192" refresh="60.0"/>
    <device type="floppydisk" tag="flop1" interface="floppy_5_25">
      <instance name="floppydisk1" briefname="flop1"/>
      <extension name="dsk"/>
      <extension name="do"/>
    </device>
    <softwarelist tag="flop" name="apple2_flop_orig" status="original"/>
  </machine>
  <machine name="z80" isdevice="yes" runnable="no"><description>Z80</description></machine>
</mame>"#;
    let parsed = parse_listxml(xml.as_bytes()).expect("document parses");
    assert_eq!(parsed.summary.machine_count, 2);
    assert_eq!(parsed.summary.build.as_deref(), Some("0.288 (x)"));
    assert_eq!(parsed.summary.mame_config.as_deref(), Some("10"));
    let apple = &parsed.machines[0];
    assert_eq!(apple.clone_of.as_deref(), Some("apple2"));
    assert_eq!(apple.chips[0].clock_hz, Some(1021800));
    assert_eq!(apple.displays[0].rotate, Some(90));
    assert_eq!(apple.displays[0].refresh, "60.0");
    assert_eq!(apple.devices[0].extensions, vec!["dsk", "do"]);
    assert_eq!(apple.devices[0].instance_brief_name.as_deref(), Some("flop1"));
    assert_eq!(apple.software_lists.len(), 1);
    assert!(parsed.machines[1].is_device);
    assert!(!parsed.machines[1].runnable);
}

#[test]
fn listxml_rejects_bad_attribute_values() {
    let bad_rotation = r#"<mame><machine name="m"><description>M</description><display type="raster" rotate="45" refresh="60"/></machine></mame>"#;
    assert_eq!(
        parse_listxml(bad_rotation.as_bytes()).expect_err("rotation").code,
        "MAME_METADATA_ATTRIBUTE_INVALID"
    );
    let no_description = r#"<mame><machine name="m"></machine></mame>"#;
    assert_eq!(
        parse_listxml(no_description.as_bytes()).expect_err("description").code,
        "MAME_METADATA_MACHINE_DESCRIPTION_MISSING"
    );
}

#[test]
fn parses_filters_pages_and_parts() {
    let parsed = parse_software_list_page(
        FIXTURE.as_bytes(),
        "apple2_flop_orig",
        Some("1984"),
        SoftwareListFilter::All,
        None,
        1,
        1,
    )
    .expect("software fixture must parse");
    assert_eq!(parsed.description.as_deref(), Some("Apple II original disks"));
    assert_eq!(parsed.total, 2);
    assert_eq!(parsed.items.len(), 1);
    assert_eq!(parsed.items[0].short_name, "archon2");
    assert_eq!(parsed.items[0].clone_of.as_deref(), Some("archon"));
}

#[test]
fn applies_exact_mame_software_filters_before_pagination() {
    let parsed = parse_software_list_page(
        FIXTURE.as_bytes(),
        "apple2_flop_orig",
        None,
        SoftwareListFilter::PartiallySupported,
        None,
        20,
        0,
    )
    .expect("support filter");
    assert_eq!(parsed.total, 1);
    assert_eq!(parsed.items[0].short_name, "airheart");
    assert_eq!(parsed.items[0].parts.len(), 2);

    let publisher = parse_software_list_page(
        FIXTURE.as_bytes(),
        "apple2_flop_orig",
        None,
        SoftwareListFilter::Publisher,
        Some("electronic arts"),
        20,
        0,
    )
    .expect("publisher filter");
    assert_eq!(publisher.total, 1);
    assert_eq!(publisher.items[0].short_name, "archon2");
}

#[test]
fn exact_item_lookup_is_not_displaced_by_an_earlier_fuzzy_match() {
    let fuzzy = parse_software_list_page(
        FIXTURE.as_bytes(),
        "apple2_flop_orig",
        Some("archon"),
        SoftwareListFilter::All,
        None,
        1,
        0,
    )
    .expect("fuzzy search");
    assert_eq!(fuzzy.items[0].short_name, "archon2");

    let exact = parse_software_item(FIXTURE.as_bytes(), "apple2_flop_orig", "archon")
        .expect("exact item lookup")
        .expect("exact item must exist");
    assert_eq!(exact.short_name, "archon");
    assert_eq!(exact.parts.len(), 1);
}

#[test]
fn rejects_missing_filter_values() {
    let error = parse_software_list_page(
        FIXTURE.as_bytes(),
        "apple2_flop_orig",
        None,
        SoftwareListFilter::Year,
        None,
        20,
        0,
    )
    .expect_err("value filter must fail closed");
    assert_eq!(error.code, "MAME_SOFTWARE_FILTER_VALUE_REQUIRED");
}

#[test]
fn rejects_a_different_list_than_requested() {
    let error = parse_software_list_page(
        FIXTURE.as_bytes(),
        "different_list",
        None,
        SoftwareListFilter::All,
        None,
        50,
        0,
    )
    .expect_err("mismatched list must fail");
    assert_eq!(error.code, "MAME_SOFTWARE_LIST_MISMATCH");
}

#[test]
fn item_search_is_case_insensitive() {
    let item = SoftwareItemSummary {
        short_name: "archon".to_owned(),
        description: "Archon".to_owned(),
        year: "1983".to_owned(),
        publisher: "Free Fall Associates".to_owned(),
        clone_of: None,
        supported: "yes".to_owned(),
        parts: Vec::new(),
    };
    assert!(item_matches(&item, Some("free fall"), SoftwareListFilter::All, None));
    assert!(item_matches(&item, None, SoftwareListFilter::Publisher, Some("FREE FALL ASSOCIATES")));
    assert!(!item_matches(&item, None, SoftwareListFilter::Clones, None));
    assert!(item_matches(&item, None, SoftwareListFilter::Supported, None));
}

#[test]
fn character_references_resolve_to_their_character() {
    let xml = r#"<mame build="t"><machine name="refs"><description>&#x41;&#66;</description><year>&#x31;&#57;&#56;&#48;</year></machine></mame>"#;
    let parsed = parse_listxml(xml.as_bytes()).expect("document");
    assert_eq!(parsed.machines[0].description, "A B");
    assert_eq!(parsed.machines[0].year.as_deref(), Some("1 9 8 0"));
    for bad in ["&#0;", "&#xD800;", "&#x110000;", "&#X41;", "&#+5;", "&#x;"] {
        let doc = format!(r#"<mame><machine name="bad"><description>{bad}</description></machine></mame>"#);
        let error = parse_listxml(doc.as_bytes()).expect_err("invalid character reference");
        assert!(
            error.code == "MAME_METADATA_XML_TEXT_INVALID" || error.code == "MAME_METADATA_XML_INVALID",
            "{bad}: {}",
            error.code
        );
    }
}
