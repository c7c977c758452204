use mame_frontend::catalog_query::{
    filter_predicate, like_pattern, machine_availability_from_token, machine_page,
    mame_ui_query_sql, preferred_page_offset, sqlite_bool, to_u32, validate_mame_ui_limit,
    MachineAvailability, StoredMameUiMachineItem,
};
use mame_frontend::mame_ui::{
    map_filter, normalize_optional, validated_query, MameUiMachineFilter,
    MameUiMachineFilterRequest, MameUiMachineSearchRequest,
};
use mame_frontend::mame_ui_export::{
    csv_field, csv_row, export_search_request, export_step, ExportMameUiDisplayedListRequest,
    ExportStep, EXPORT_PAGE_SIZE,
};

fn all_filters() -> [MameUiMachineFilter; 19] {
    [
        MameUiMachineFilter::All,
        MameUiMachineFilter::Available,
        MameUiMachineFilter::Unavailable,
        MameUiMachineFilter::Working,
        MameUiMachineFilter::NotWorking,
        MameUiMachineFilter::Mechanical,
        MameUiMachineFilter::NotMechanical,
        MameUiMachineFilter::Favorites,
        MameUiMachineFilter::Bios,
        MameUiMachineFilter::NotBios,
        MameUiMachineFilter::Parents,
        MameUiMachineFilter::Clones,
        MameUiMachineFilter::Manufacturer,
        MameUiMachineFilter::Year,
        MameUiMachineFilter::SourceFile,
        MameUiMachineFilter::SaveSupported,
        MameUiMachineFilter::SaveUnsupported,
        MameUiMachineFilter::VerticalScreen,
        MameUiMachineFilter::HorizontalScreen,
    ]
}

#[test]
fn request_filters_map_one_to_one_to_catalog_filters() {
    assert_eq!(
        map_filter(MameUiMachineFilterRequest::Favorites),
        MameUiMachineFilter::Favorites
    );
    assert_eq!(
        map_filter(MameUiMachineFilterRequest::HorizontalScreen),
        MameUiMachineFilter::HorizontalScreen
    );
}

#[test]
fn every_canonical_filter_has_a_nonempty_predicate() {
    for filter in all_filters() {
        assert!(!filter_predicate(filter).trim().is_empty());
    }
}

#[test]
fn text_search_escapes_sql_like_metacharacters() {
    assert_eq!(like_pattern(r"a%b_c\d"), r"%a\%b\_c\\d%");
}

#[test]
fn horizontal_filter_requires_a_display_and_excludes_rotated_displays() {
    let predicate = filter_predicate(MameUiMachineFilter::HorizontalScreen);
    assert!(predicate.contains("EXISTS"));
    assert!(predicate.contains("NOT EXISTS"));
}

#[test]
fn csv_encoding_quotes_delimiters_quotes_and_newlines() {
    assert_eq!(csv_field("plain"), "plain");
    assert_eq!(csv_field("a,b"), "\"a,b\"");
    assert_eq!(csv_field("a\"b"), "\"a\"\"b\"");
    assert_eq!(csv_field("a\nb"), "\"a\nb\"");
}

#[test]
fn export_reuses_browser_query_semantics_without_paging_or_preferred_selection() {
    let request = export_search_request(ExportMameUiDisplayedListRequest {
        text: Some("galax".to_owned()),
        filter: MameUiMachineFilterRequest::Manufacturer,
        filter_value: Some("Namco".to_owned()),
    });
    assert_eq!(request.text.as_deref(), Some("galax"));
    assert_eq!(request.filter, MameUiMachineFilterRequest::Manufacturer);
    assert_eq!(request.filter_value.as_deref(), Some("Namco"));
    assert_eq!(request.preferred_machine, None);
    assert_eq!(request.limit, EXPORT_PAGE_SIZE);
    assert_eq!(request.offset, 0);
}

#[test]
fn csv_rows_join_encoded_fields() {
    assert_eq!(csv_row(&["a", "b,c", ""]), "a,\"b,c\",\n");
    let empty: [&str; 0] = [];
    assert_eq!(csv_row(&empty), "\n");
}

#[test]
fn export_paging_stops_at_the_total_and_is_bounded() {
    assert_eq!(export_step(0, 3, 3).expect("one page"), ExportStep::Finished(3));
    assert_eq!(export_step(0, 500, 200).expect("more pages"), ExportStep::Continue(200));
    assert_eq!(export_step(7, 500, 0).expect("empty page"), ExportStep::Finished(7));
    assert_eq!(
        export_step(0, 100_001, 200).expect_err("too many").code,
        "MAME_UI_EXPORT_RESULT_LIMIT_EXCEEDED"
    );
}

#[test]
fn value_filters_require_a_value_and_fields_are_trimmed() {
    let request = MameUiMachineSearchRequest {
        text: Some("  galax ".to_owned()),
        filter: MameUiMachineFilterRequest::Year,
        filter_value: Some("   ".to_owned()),
        preferred_machine: None,
        limit: 100,
        offset: 0,
    };
    assert_eq!(
        validated_query(request, None, None).expect_err("value required").code,
        "MAME_UI_FILTER_VALUE_REQUIRED"
    );
    let request = MameUiMachineSearchRequest {
        text: Some("  galax ".to_owned()),
        filter: MameUiMachineFilterRequest::Year,
        filter_value: Some(" 1981 ".to_owned()),
        preferred_machine: Some("galaxian".to_owned()),
        limit: 100,
        offset: 0,
    };
    let query = validated_query(request, Some("id".to_owned()), None).expect("valid query");
    assert_eq!(query.text.as_deref(), Some("galax"));
    assert_eq!(query.filter_value.as_deref(), Some("1981"));
    assert_eq!(query.filter, MameUiMachineFilter::Year);
    assert_eq!(query.preferred_machine.as_deref(), Some("galaxian"));
    assert_eq!(
        normalize_optional(Some("x".repeat(300)), "text", 256).expect_err("too long").code,
        "CATALOG_QUERY_TEXT_TOO_LONG"
    );
}

#[test]
fn query_rows_are_checked_when_read() {
    assert!(sqlite_bool(1, "runnable").expect("true"));
    assert!(sqlite_bool(2, "runnable").is_err());
    assert_eq!(to_u32(7, "count").expect("fits"), 7);
    assert!(to_u32(-1, "count").is_err());
    assert_eq!(
        machine_availability_from_token("missing").expect("token"),
        MachineAvailability::Missing
    );
    assert!(machine_availability_from_token("gone").is_err());
    assert!(validate_mame_ui_limit(0).is_err());
    assert!(validate_mame_ui_limit(200).is_ok());
    assert!(validate_mame_ui_limit(201).is_err());
    assert_eq!(preferred_page_offset(250, 100).expect("page"), 200);
    assert!(preferred_page_offset(-1, 100).is_err());
}

#[test]
fn pages_convert_rows_in_order() {
    let row = StoredMameUiMachineItem {
        short_name: "pacman".to_owned(),
        description: "Pac-Man".to_owned(),
        year: Some("1980".to_owned()),
        manufacturer: Some("Namco".to_owned()),
        source_file: None,
        clone_of: None,
        runnable: 1,
        is_device: 0,
        driver_status: Some("good".to_owned()),
        availability: "available".to_owned(),
        display_count: 1,
        software_list_count: 0,
    };
    let page = machine_page(3, 1, 0, 100, vec![row.clone()]).expect("page");
    assert_eq!(page.items.len(), 1);
    assert_eq!(page.items[0].short_name, "pacman");
    assert!(page.items[0].runnable);
    assert_eq!(page.availability, vec![MachineAvailability::Available]);
    let mut bad = row;
    bad.is_device = 5;
    assert_eq!(
        machine_page(3, 1, 0, 100, vec![bad]).expect_err("bad row").code,
        "CATALOG_QUERY_RESULT_INVALID"
    );
}

#[test]
fn every_statement_applies_the_filter_condition() {
    let sql = mame_ui_query_sql(MameUiMachineFilter::Bios);
    assert!(sql.total_sql.starts_with("SELECT COUNT(*) FROM machines m"));
    assert!(sql.total_sql.contains("AND (m.is_bios = 1)"));
    assert!(sql.page_sql.contains("AND (m.is_bios = 1)"));
    assert!(sql.page_sql.contains("LIMIT :limit OFFSET :offset"));
    assert!(sql.preferred_sql.contains("WHERE short_name = :preferred_machine"));
}
