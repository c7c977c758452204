//! Export of the displayed machine list as CSV: the query it reuses, the CSV encoding and
//! the bounded paging of the export.

use vstd::prelude::*;

use crate::catalog_query::{availability_name, availability_token, MachineAvailability, MachineListItem};
use crate::errors::{AppError, AppResult};
use crate::mame_ui::{MameUiMachineFilterRequest, MameUiMachineSearchRequest};
use crate::text::{chars_of, decimal_string, string_from};

verus! {

broadcast use vstd::string::group_string_axioms;

pub const EXPORT_PAGE_SIZE: u32 = 200;

pub const MAX_EXPORT_ROWS: u64 = 100000;

/// The browser state to export.
#[derive(Debug, Clone, PartialEq, Eq)]
pub struct ExportMameUiDisplayedListRequest {
    pub text: Option<String>,
    pub filter: MameUiMachineFilterRequest,
    pub filter_value: Option<String>,
}

/// The outcome of an export.
#[derive(Debug, Clone, PartialEq, Eq)]
pub struct ExportMameUiDisplayedListResult {
    pub schema_version: u32,
    pub canceled: bool,
    pub rows: u64,
    pub path: Option<String>,
}

/// The browser search an export runs: the same text and filter, from the first row, in
/// pages of the export size, with no preferred machine.
pub fn export_search_request(request: ExportMameUiDisplayedListRequest) -> (r: MameUiMachineSearchRequest)
    ensures
        r.text == request.text,
        r.filter == request.filter,
        r.filter_value == request.filter_value,
        r.preferred_machine is None,
        r.limit == EXPORT_PAGE_SIZE,
        r.offset == 0,
{
    MameUiMachineSearchRequest {
        text: request.text,
        filter: request.filter,
        filter_value: request.filter_value,
        preferred_machine: None,
        limit: EXPORT_PAGE_SIZE,
        offset: 0,
    }
}

/// A character that forces a CSV field to be quoted.
pub open spec fn csv_special(c: char) -> bool {
    c == ',' || c == '"' || c == '\n' || c == '\r'
}

/// `"` doubled.
pub open spec fn double_quotes(s: Seq<char>) -> Seq<char>
    decreases s.len(),
{
    if s.len() == 0 {
        Seq::empty()
    } else {
        double_quotes(s.drop_last()) + if s.last() == '"' {
            seq!['"', '"']
        } else {
            seq![s.last()]
        }
    }
}

/// A CSV field: quoted, with quotes doubled, when it holds a delimiter, quote or line break.
pub open spec fn csv_encoded(s: Seq<char>) -> Seq<char> {
    if exists|i: int| 0 <= i < s.len() && #[trigger] csv_special(s[i]) {
        seq!['"'] + double_quotes(s) + seq!['"']
    } else {
        s
    }
}

/// Encode one CSV field.
pub fn csv_field(value: &str) -> (r: String)
    ensures
        r@ == csv_encoded(value@),
{
    let chars = chars_of(value);
    let mut special = false;
    let mut quoted: Vec<char> = Vec::new();
    quoted.push('"');
    let mut i: usize = 0;
    while i < chars.len()
        invariant
            chars@ == value@,
            i <= chars@.len(),
            special == exists|k: int| 0 <= k < i && #[trigger] csv_special(chars@[k]),
            quoted@ == seq!['"'] + double_quotes(chars@.take(i as int)),
        decreases chars.len() - i,
    {
        let c = chars[i];
        if c == ',' || c == '"' || c == '\n' || c == '\r' {
            special = true;
            assert(csv_special(chars@[i as int]));
        } else {
            assert(!csv_special(chars@[i as int]));
        }
        let ghost before = quoted@;
        if c == '"' {
            quoted.push('"');
            quoted.push('"');
        } else {
            quoted.push(c);
        }
        assert(chars@.take(i + 1).drop_last() == chars@.take(i as int));
        assert(quoted@ =~= seq!['"'] + double_quotes(chars@.take(i + 1)));
        i += 1;
    }
    assert(chars@.take(chars@.len() as int) == chars@);
    if special {
        quoted.push('"');
        string_from(quoted.as_slice())
    } else {
        value.to_owned()
    }
}

/// Fields joined with commas.
pub open spec fn csv_join(fields: Seq<Seq<char>>) -> Seq<char>
    decreases fields.len(),
{
    if fields.len() == 0 {
        Seq::empty()
    } else if fields.len() == 1 {
        fields[0]
    } else {
        csv_join(fields.drop_last()) + seq![','] + fields.last()
    }
}

/// One CSV line: the encoded fields joined with commas, then a newline.
pub fn csv_row(values: &[&str]) -> (r: String)
    ensures
        r@ == csv_join(values@.map_values(|v: &str| csv_encoded(v@))) + seq!['\n'],
{
    let ghost enc = values@.map_values(|v: &str| csv_encoded(v@));
    let mut out: Vec<char> = Vec::new();
    let mut i: usize = 0;
    while i < values.len()
        invariant
            enc == values@.map_values(|v: &str| csv_encoded(v@)),
            i <= values@.len(),
            out@ == csv_join(enc.take(i as int)),
        decreases values.len() - i,
    {
        let field = csv_field(values[i]);
        let f = chars_of(field.as_str());
        let ghost before = out@;
        if i > 0 {
            out.push(',');
        }
        let mut k: usize = 0;
        while k < f.len()
            invariant
                k <= f@.len(),
                out@ == before + (if i > 0 {
                    seq![',']
                } else {
                    Seq::empty()
                }) + f@.take(k as int),
            decreases f.len() - k,
        {
            out.push(f[k]);
            assert(f@.take(k + 1) == f@.take(k as int).push(f@[k as int]));
            k += 1;
        }
        assert(f@.take(f@.len() as int) == f@);
        assert(enc.take(i + 1).drop_last() == enc.take(i as int));
        assert(enc.take(i + 1).last() == enc[i as int]);
        assert(enc[i as int] == f@);
        if i == 0 {
            assert(enc.take(1) =~= seq![enc[0]]);
        }
        assert(out@ =~= csv_join(enc.take(i + 1)));
        i += 1;
    }
    assert(enc.take(values@.len() as int) == enc);
    out.push('\n');
    string_from(out.as_slice())
}

/// The header line of an export.
pub fn export_header() -> (r: [&'static str; 8])
    ensures
        r@ == seq![
            "Description",
            "Short name",
            "Year",
            "Manufacturer",
            "Driver status",
            "Availability",
            "Parent",
            "Source file",
        ],
{
    [
        "Description",
        "Short name",
        "Year",
        "Manufacturer",
        "Driver status",
        "Availability",
        "Parent",
        "Source file",
    ]
}

fn text_or_empty(value: &Option<String>) -> (r: &str)
    ensures
        r@ == match value {
            Some(s) => s@,
            None => Seq::empty(),
        },
{
    proof {
        reveal_strlit("");
    }
    match value {
        Some(s) => s.as_str(),
        None => "",
    }
}

/// The CSV line for one machine of the displayed list.
pub fn export_row(item: &MachineListItem, availability: MachineAvailability) -> (r: String)
    ensures
        r@ == csv_join(
            seq![
                item.description@,
                item.short_name@,
                crate::bulk_audit::text_view(item.year).unwrap_or(Seq::empty()),
                crate::bulk_audit::text_view(item.manufacturer).unwrap_or(Seq::empty()),
                crate::bulk_audit::text_view(item.driver_status).unwrap_or(Seq::empty()),
                availability_name(availability),
                crate::bulk_audit::text_view(item.clone_of).unwrap_or(Seq::empty()),
                crate::bulk_audit::text_view(item.source_file).unwrap_or(Seq::empty()),
            ].map_values(|v: Seq<char>| csv_encoded(v)),
        ) + seq!['\n'],
{
    let values = [
        item.description.as_str(),
        item.short_name.as_str(),
        text_or_empty(&item.year),
        text_or_empty(&item.manufacturer),
        text_or_empty(&item.driver_status),
        availability_token(availability),
        text_or_empty(&item.clone_of),
        text_or_empty(&item.source_file),
    ];
    let r = csv_row(&values);
    proof {
        let a = values@.map_values(|v: &str| csv_encoded(v@));
        let b = seq![
            item.description@,
            item.short_name@,
            crate::bulk_audit::text_view(item.year).unwrap_or(Seq::empty()),
            crate::bulk_audit::text_view(item.manufacturer).unwrap_or(Seq::empty()),
            crate::bulk_audit::text_view(item.driver_status).unwrap_or(Seq::empty()),
            availability_name(availability),
            crate::bulk_audit::text_view(item.clone_of).unwrap_or(Seq::empty()),
            crate::bulk_audit::text_view(item.source_file).unwrap_or(Seq::empty()),
        ].map_values(|v: Seq<char>| csv_encoded(v));
        assert(a =~= b);
    }
    r
}

/// What to do after reading one page of the export.
#[derive(Debug, Clone, Copy, PartialEq, Eq, Structural)]
pub enum ExportStep {
    /// Every row has been written; this many in all.
    Finished(u64),
    /// Read the next page from this row.
    Continue(u64),
}

/// The export offset for the rows written so far, which must fit a query offset.
pub fn export_offset(rows: u64) -> (r: AppResult<u32>)
    ensures
        r is Ok <==> rows <= u32::MAX,
        r matches Ok(o) ==> o == rows,
        r matches Err(e) ==> e.code@ == "MAME_UI_EXPORT_RESULT_LIMIT_EXCEEDED"@,
{
    if rows <= u32::MAX as u64 {
        Ok(rows as u32)
    } else {
        Err(
            AppError::new(
                "MAME_UI_EXPORT_RESULT_LIMIT_EXCEEDED",
                "The displayed-list export exceeds the supported row range.",
            ),
        )
    }
}

/// Decide after a page: a list over the bound is refused before anything is written; an
/// empty page ends the export; otherwise its rows are counted and the export goes on until
/// the count reaches the total.
pub fn export_step(rows: u64, page_total: u64, page_rows: usize) -> (r: AppResult<ExportStep>)
    ensures
        page_total > MAX_EXPORT_ROWS ==> (r matches Err(e) && e.code@
            == "MAME_UI_EXPORT_RESULT_LIMIT_EXCEEDED"@),
        page_total <= MAX_EXPORT_ROWS ==> if page_rows == 0 {
            r == Ok::<ExportStep, AppError>(ExportStep::Finished(rows))
        } else if rows + page_rows > u64::MAX {
            r is Err
        } else if rows + page_rows >= page_total {
            r == Ok::<ExportStep, AppError>(ExportStep::Finished((rows + page_rows) as u64))
        } else {
            r == Ok::<ExportStep, AppError>(ExportStep::Continue((rows + page_rows) as u64))
        },
{
    if page_total > MAX_EXPORT_ROWS {
        return Err(
            AppError::new(
                "MAME_UI_EXPORT_RESULT_LIMIT_EXCEEDED",
                "Displayed-list export is limited to 100000 machines.",
            ).with_detail("rows", decimal_string(page_total)).with_detail(
                "maxRows",
                decimal_string(MAX_EXPORT_ROWS),
            ),
        );
    }
    if page_rows == 0 {
        return Ok(ExportStep::Finished(rows));
    }
    let added = page_rows as u64;
    match rows.checked_add(added) {
        None => Err(
            AppError::new(
                "MAME_UI_EXPORT_RESULT_LIMIT_EXCEEDED",
                "The displayed-list export row count overflowed.",
            ),
        ),
        Some(total_rows) => if total_rows >= page_total {
            Ok(ExportStep::Finished(total_rows))
        } else {
            Ok(ExportStep::Continue(total_rows))
        },
    }
}

/// The result reported after a cancelled destination choice.
pub fn export_canceled() -> (r: ExportMameUiDisplayedListResult)
    ensures
        r.schema_version == 1 && r.canceled && r.rows == 0 && r.path is None,
{
    ExportMameUiDisplayedListResult { schema_version: 1, canceled: true, rows: 0, path: None }
}

} // verus!
