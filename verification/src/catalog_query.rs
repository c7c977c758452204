//! The catalog query behind the machine browser: the SQL it runs for each filter, the
//! escaping of search text, the preferred-machine page, and the checked conversion of rows.

use vstd::prelude::*;

use crate::errors::{AppError, AppResult};
use crate::mame_ui::{MameUiMachineFilter, MameUiMachineQuery, MAX_MAME_UI_PAGE_SIZE};
use crate::text::{chars_of, concat_strs, str_equal, string_from};

verus! {

broadcast use vstd::string::group_string_axioms;

/// The SQL condition selecting the machines a filter shows.
pub open spec fn predicate_of(f: MameUiMachineFilter) -> Seq<char> {
    match f {
        MameUiMachineFilter::All => "1 = 1"@,
        MameUiMachineFilter::Available => "ar.classification IN ('complete', 'bestAvailable')"@,
        MameUiMachineFilter::Unavailable => "ar.classification IN ('missingRequired', 'incorrect', 'mixedFailure')"@,
        MameUiMachineFilter::Working => "m.driver_status IS NOT NULL AND m.driver_status <> 'preliminary'"@,
        MameUiMachineFilter::NotWorking => "m.driver_status = 'preliminary'"@,
        MameUiMachineFilter::Mechanical => "m.is_mechanical = 1"@,
        MameUiMachineFilter::NotMechanical => "m.is_mechanical = 0"@,
        MameUiMachineFilter::Favorites => "EXISTS (SELECT 1 FROM user_favorites uf WHERE uf.machine_short_name = m.short_name)"@,
        MameUiMachineFilter::Bios => "m.is_bios = 1"@,
        MameUiMachineFilter::NotBios => "m.is_bios = 0"@,
        MameUiMachineFilter::Parents => "m.clone_of IS NULL OR EXISTS (SELECT 1 FROM machines p WHERE p.generation_id = m.generation_id AND p.short_name = m.clone_of AND p.is_bios = 1)"@,
        MameUiMachineFilter::Clones => "m.clone_of IS NOT NULL AND NOT EXISTS (SELECT 1 FROM machines p WHERE p.generation_id = m.generation_id AND p.short_name = m.clone_of AND p.is_bios = 1)"@,
        MameUiMachineFilter::Manufacturer => "(:filter_value IS NOT NULL AND (m.manufacturer = :filter_value COLLATE NOCASE OR (instr(m.manufacturer, ' (') > 0 AND substr(m.manufacturer, 1, instr(m.manufacturer, ' (') - 1) = :filter_value COLLATE NOCASE)))"@,
        MameUiMachineFilter::Year => ":filter_value IS NOT NULL AND m.year = :filter_value"@,
        MameUiMachineFilter::SourceFile => ":filter_value IS NOT NULL AND m.source_file = :filter_value COLLATE NOCASE"@,
        MameUiMachineFilter::SaveSupported => "m.driver_savestate IS NOT NULL AND m.driver_savestate <> 'unsupported'"@,
        MameUiMachineFilter::SaveUnsupported => "m.driver_savestate IS NULL OR m.driver_savestate = 'unsupported'"@,
        MameUiMachineFilter::VerticalScreen => "EXISTS (SELECT 1 FROM displays d WHERE d.generation_id = m.generation_id AND d.machine_short_name = m.short_name AND d.rotate IN (90, 270))"@,
        MameUiMachineFilter::HorizontalScreen => "EXISTS (SELECT 1 FROM displays d WHERE d.generation_id = m.generation_id AND d.machine_short_name = m.short_name) AND NOT EXISTS (SELECT 1 FROM displays d WHERE d.generation_id = m.generation_id AND d.machine_short_name = m.short_name AND d.rotate IN (90, 270))"@,
    }
}

/// The SQL condition of a filter.
pub fn filter_predicate(filter: MameUiMachineFilter) -> (r: &'static str)
    ensures
        r@ == predicate_of(filter),
{
    match filter {
        MameUiMachineFilter::All => "1 = 1",
        MameUiMachineFilter::Available => "ar.classification IN ('complete', 'bestAvailable')",
        MameUiMachineFilter::Unavailable => "ar.classification IN ('missingRequired', 'incorrect', 'mixedFailure')",
        MameUiMachineFilter::Working => "m.driver_status IS NOT NULL AND m.driver_status <> 'preliminary'",
        MameUiMachineFilter::NotWorking => "m.driver_status = 'preliminary'",
        MameUiMachineFilter::Mechanical => "m.is_mechanical = 1",
        MameUiMachineFilter::NotMechanical => "m.is_mechanical = 0",
        MameUiMachineFilter::Favorites => "EXISTS (SELECT 1 FROM user_favorites uf WHERE uf.machine_short_name = m.short_name)",
        MameUiMachineFilter::Bios => "m.is_bios = 1",
        MameUiMachineFilter::NotBios => "m.is_bios = 0",
        MameUiMachineFilter::Parents => "m.clone_of IS NULL OR EXISTS (SELECT 1 FROM machines p WHERE p.generation_id = m.generation_id AND p.short_name = m.clone_of AND p.is_bios = 1)",
        MameUiMachineFilter::Clones => "m.clone_of IS NOT NULL AND NOT EXISTS (SELECT 1 FROM machines p WHERE p.generation_id = m.generation_id AND p.short_name = m.clone_of AND p.is_bios = 1)",
        MameUiMachineFilter::Manufacturer => "(:filter_value IS NOT NULL AND (m.manufacturer = :filter_value COLLATE NOCASE OR (instr(m.manufacturer, ' (') > 0 AND substr(m.manufacturer, 1, instr(m.manufacturer, ' (') - 1) = :filter_value COLLATE NOCASE)))",
        MameUiMachineFilter::Year => ":filter_value IS NOT NULL AND m.year = :filter_value",
        MameUiMachineFilter::SourceFile => ":filter_value IS NOT NULL AND m.source_file = :filter_value COLLATE NOCASE",
        MameUiMachineFilter::SaveSupported => "m.driver_savestate IS NOT NULL AND m.driver_savestate <> 'unsupported'",
        MameUiMachineFilter::SaveUnsupported => "m.driver_savestate IS NULL OR m.driver_savestate = 'unsupported'",
        MameUiMachineFilter::VerticalScreen => "EXISTS (SELECT 1 FROM displays d WHERE d.generation_id = m.generation_id AND d.machine_short_name = m.short_name AND d.rotate IN (90, 270))",
        MameUiMachineFilter::HorizontalScreen => "EXISTS (SELECT 1 FROM displays d WHERE d.generation_id = m.generation_id AND d.machine_short_name = m.short_name) AND NOT EXISTS (SELECT 1 FROM displays d WHERE d.generation_id = m.generation_id AND d.machine_short_name = m.short_name AND d.rotate IN (90, 270))",
    }
}

/// Each filter has a condition of its own: no two filters share a condition, so a filter
/// and its negation never select the same machines.
#[verifier::rlimit(60)]
pub proof fn law_filters_have_distinct_conditions(f: MameUiMachineFilter, g: MameUiMachineFilter)
    ensures
        predicate_of(f) == predicate_of(g) ==> f == g,
{
    reveal_strlit("1 = 1");
    reveal_strlit("ar.classification IN ('complete', 'bestAvailable')");
    reveal_strlit("ar.classification IN ('missingRequired', 'incorrect', 'mixedFailure')");
    reveal_strlit("m.driver_status IS NOT NULL AND m.driver_status <> 'preliminary'");
    reveal_strlit("m.driver_status = 'preliminary'");
    reveal_strlit("m.is_mechanical = 1");
    reveal_strlit("m.is_mechanical = 0");
    reveal_strlit("EXISTS (SELECT 1 FROM user_favorites uf WHERE uf.machine_short_name = m.short_name)");
    reveal_strlit("m.is_bios = 1");
    reveal_strlit("m.is_bios = 0");
    reveal_strlit("m.clone_of IS NULL OR EXISTS (SELECT 1 FROM machines p WHERE p.generation_id = m.generation_id AND p.short_name = m.clone_of AND p.is_bios = 1)");
    reveal_strlit("m.clone_of IS NOT NULL AND NOT EXISTS (SELECT 1 FROM machines p WHERE p.generation_id = m.generation_id AND p.short_name = m.clone_of AND p.is_bios = 1)");
    reveal_strlit("(:filter_value IS NOT NULL AND (m.manufacturer = :filter_value COLLATE NOCASE OR (instr(m.manufacturer, ' (') > 0 AND substr(m.manufacturer, 1, instr(m.manufacturer, ' (') - 1) = :filter_value COLLATE NOCASE)))");
    reveal_strlit(":filter_value IS NOT NULL AND m.year = :filter_value");
    reveal_strlit(":filter_value IS NOT NULL AND m.source_file = :filter_value COLLATE NOCASE");
    reveal_strlit("m.driver_savestate IS NOT NULL AND m.driver_savestate <> 'unsupported'");
    reveal_strlit("m.driver_savestate IS NULL OR m.driver_savestate = 'unsupported'");
    reveal_strlit("EXISTS (SELECT 1 FROM displays d WHERE d.generation_id = m.generation_id AND d.machine_short_name = m.short_name AND d.rotate IN (90, 270))");
    reveal_strlit("EXISTS (SELECT 1 FROM displays d WHERE d.generation_id = m.generation_id AND d.machine_short_name = m.short_name) AND NOT EXISTS (SELECT 1 FROM displays d WHERE d.generation_id = m.generation_id AND d.machine_short_name = m.short_name AND d.rotate IN (90, 270))");
    reveal_strlit("m.driver_status = 'preliminary'");
    assert("m.is_mechanical = 1"@[18] != "m.is_mechanical = 0"@[18]);
    assert("m.is_bios = 1"@[12] != "m.is_bios = 0"@[12]);
    assert(predicate_of(MameUiMachineFilter::Working)[10] != predicate_of(MameUiMachineFilter::SaveUnsupported)[10]);
    if predicate_of(f) == predicate_of(g) {
        assert(predicate_of(f).len() == predicate_of(g).len());
        assert(predicate_of(f)[10] == predicate_of(g)[10]);
        assert(predicate_of(f)[12] == predicate_of(g)[12]);
        if predicate_of(f).len() == 19 {
            assert(predicate_of(f)[18] == predicate_of(g)[18]);
        }
    }
}

/// The flag filters select on their flag: `Mechanical` alone on `m.is_mechanical = 1` and
/// `NotMechanical` alone on `m.is_mechanical = 0`, likewise `Bios` and `NotBios` on
/// `m.is_bios`, and `NotWorking` alone on a preliminary driver.
pub proof fn law_flag_filters_select_their_flag(f: MameUiMachineFilter)
    ensures
        predicate_of(f) == "m.is_mechanical = 1"@ <==> f == MameUiMachineFilter::Mechanical,
        predicate_of(f) == "m.is_mechanical = 0"@ <==> f == MameUiMachineFilter::NotMechanical,
        predicate_of(f) == "m.is_bios = 1"@ <==> f == MameUiMachineFilter::Bios,
        predicate_of(f) == "m.is_bios = 0"@ <==> f == MameUiMachineFilter::NotBios,
        predicate_of(f) == "m.driver_status = 'preliminary'"@ <==> f == MameUiMachineFilter::NotWorking,
{
    law_filters_have_distinct_conditions(f, MameUiMachineFilter::Mechanical);
    law_filters_have_distinct_conditions(f, MameUiMachineFilter::NotMechanical);
    law_filters_have_distinct_conditions(f, MameUiMachineFilter::Bios);
    law_filters_have_distinct_conditions(f, MameUiMachineFilter::NotBios);
    law_filters_have_distinct_conditions(f, MameUiMachineFilter::NotWorking);
}

/// `needle` occurs somewhere in `hay`.
pub open spec fn text_occurs(hay: Seq<char>, needle: Seq<char>) -> bool {
    exists|i: int| 0 <= i && i + needle.len() <= hay.len() && #[trigger] hay.subrange(i, i + needle.len()) == needle
}

/// Filters that are each other's negation select complementary machines: `Clones` is the
/// negation of `Parents` over the same test of a BIOS parent, `HorizontalScreen` keeps the
/// machines with a display that `VerticalScreen` does not keep, `SaveUnsupported` negates
/// `SaveSupported`, and `Available` and `Unavailable` are exactly the conditions under which a
/// page marks a machine `available` and `missing`.
pub proof fn law_negated_filters_are_complements()
    ensures
        exists|e: Seq<char>|
            #![auto]
            predicate_of(MameUiMachineFilter::Parents) == "m.clone_of IS NULL OR "@ + e && predicate_of(
                MameUiMachineFilter::Clones,
            ) == "m.clone_of IS NOT NULL AND NOT "@ + e,
        exists|d: Seq<char>|
            #![auto]
            predicate_of(MameUiMachineFilter::HorizontalScreen) == d + " AND NOT "@ + predicate_of(
                MameUiMachineFilter::VerticalScreen,
            ),
        exists|c: Seq<char>|
            #![auto]
            predicate_of(MameUiMachineFilter::SaveSupported) == c + " IS NOT NULL AND "@ + c + " <> 'unsupported'"@
                && predicate_of(MameUiMachineFilter::SaveUnsupported) == c + " IS NULL OR "@ + c + " = 'unsupported'"@,
        text_occurs(PAGE_SELECT@, "WHEN "@ + predicate_of(MameUiMachineFilter::Available) + " THEN 'available'"@),
        text_occurs(PAGE_SELECT@, "WHEN "@ + predicate_of(MameUiMachineFilter::Unavailable) + " THEN 'missing'"@),
{
    reveal_strlit("m.clone_of IS NULL OR EXISTS (SELECT 1 FROM machines p WHERE p.generation_id = m.generation_id AND p.short_name = m.clone_of AND p.is_bios = 1)");
    reveal_strlit("m.clone_of IS NOT NULL AND NOT EXISTS (SELECT 1 FROM machines p WHERE p.generation_id = m.generation_id AND p.short_name = m.clone_of AND p.is_bios = 1)");
    reveal_strlit("EXISTS (SELECT 1 FROM displays d WHERE d.generation_id = m.generation_id AND d.machine_short_name = m.short_name) AND NOT EXISTS (SELECT 1 FROM displays d WHERE d.generation_id = m.generation_id AND d.machine_short_name = m.short_name AND d.rotate IN (90, 270))");
    reveal_strlit("EXISTS (SELECT 1 FROM displays d WHERE d.generation_id = m.generation_id AND d.machine_short_name = m.short_name AND d.rotate IN (90, 270))");
    reveal_strlit("m.driver_savestate IS NOT NULL AND m.driver_savestate <> 'unsupported'");
    reveal_strlit("m.driver_savestate IS NULL OR m.driver_savestate = 'unsupported'");
    reveal_strlit("ar.classification IN ('complete', 'bestAvailable')");
    reveal_strlit("ar.classification IN ('missingRequired', 'incorrect', 'mixedFailure')");
    reveal_strlit("\n            SELECT\n                m.short_name,\n                m.description,\n                m.year,\n                m.manufacturer,\n                m.source_file,\n                m.clone_of,\n                m.runnable,\n                m.is_device,\n                m.driver_status,\n                CASE\n                    WHEN ar.classification IN ('complete', 'bestAvailable') THEN 'available'\n                    WHEN ar.classification IN ('missingRequired', 'incorrect', 'mixedFailure') THEN 'missing'\n                    ELSE 'unknown'\n                END AS availability,\n                (SELECT COUNT(*) FROM displays d\n                    WHERE d.generation_id = m.generation_id\n                      AND d.machine_short_name = m.short_name) AS display_count,\n                (SELECT COUNT(*) FROM machine_software_lists sl\n                    WHERE sl.generation_id = m.generation_id\n                      AND sl.machine_short_name = m.short_name) AS software_list_count\n            FROM machines m\n            ");
    reveal_strlit("m.clone_of IS NULL OR ");
    reveal_strlit("m.clone_of IS NOT NULL AND NOT ");
    reveal_strlit(" AND NOT ");
    reveal_strlit(" IS NOT NULL AND ");
    reveal_strlit(" <> 'unsupported'");
    reveal_strlit(" IS NULL OR ");
    reveal_strlit(" = 'unsupported'");
    reveal_strlit("WHEN ");
    reveal_strlit(" THEN 'available'");
    reveal_strlit(" THEN 'missing'");
    reveal_strlit("EXISTS (SELECT 1 FROM machines p WHERE p.generation_id = m.generation_id AND p.short_name = m.clone_of AND p.is_bios = 1)");
    reveal_strlit("EXISTS (SELECT 1 FROM displays d WHERE d.generation_id = m.generation_id AND d.machine_short_name = m.short_name)");
    reveal_strlit("m.driver_savestate");
    let e = "EXISTS (SELECT 1 FROM machines p WHERE p.generation_id = m.generation_id AND p.short_name = m.clone_of AND p.is_bios = 1)"@;
    assert(predicate_of(MameUiMachineFilter::Parents) =~= "m.clone_of IS NULL OR "@ + e);
    assert(predicate_of(MameUiMachineFilter::Clones) =~= "m.clone_of IS NOT NULL AND NOT "@ + e);
    let d = "EXISTS (SELECT 1 FROM displays d WHERE d.generation_id = m.generation_id AND d.machine_short_name = m.short_name)"@;
    assert(predicate_of(MameUiMachineFilter::HorizontalScreen) =~= d + " AND NOT "@ + predicate_of(
        MameUiMachineFilter::VerticalScreen,
    ));
    let c = "m.driver_savestate"@;
    assert(predicate_of(MameUiMachineFilter::SaveSupported) =~= c + " IS NOT NULL AND "@ + c + " <> 'unsupported'"@);
    assert(predicate_of(MameUiMachineFilter::SaveUnsupported) =~= c + " IS NULL OR "@ + c + " = 'unsupported'"@);
    let a = "WHEN "@ + predicate_of(MameUiMachineFilter::Available) + " THEN 'available'"@;
    assert(PAGE_SELECT@.subrange(327, 327 + a.len() as int) =~= a);
    let u = "WHEN "@ + predicate_of(MameUiMachineFilter::Unavailable) + " THEN 'missing'"@;
    assert(PAGE_SELECT@.subrange(420, 420 + u.len() as int) =~= u);
}

/// Every filter has a condition that is not blank.
pub proof fn law_every_filter_has_a_condition(f: MameUiMachineFilter)
    ensures
        predicate_of(f).len() > 0,
        !crate::text::is_white_space(predicate_of(f)[0]),
{
    reveal_strlit("1 = 1");
    reveal_strlit("ar.classification IN ('complete', 'bestAvailable')");
    reveal_strlit("ar.classification IN ('missingRequired', 'incorrect', 'mixedFailure')");
    reveal_strlit("m.driver_status IS NOT NULL AND m.driver_status <> 'preliminary'");
    reveal_strlit("m.driver_status = 'preliminary'");
    reveal_strlit("m.is_mechanical = 1");
    reveal_strlit("m.is_mechanical = 0");
    reveal_strlit("EXISTS (SELECT 1 FROM user_favorites uf WHERE uf.machine_short_name = m.short_name)");
    reveal_strlit("m.is_bios = 1");
    reveal_strlit("m.is_bios = 0");
    reveal_strlit("m.clone_of IS NULL OR EXISTS (SELECT 1 FROM machines p WHERE p.generation_id = m.generation_id AND p.short_name = m.clone_of AND p.is_bios = 1)");
    reveal_strlit("m.clone_of IS NOT NULL AND NOT EXISTS (SELECT 1 FROM machines p WHERE p.generation_id = m.generation_id AND p.short_name = m.clone_of AND p.is_bios = 1)");
    reveal_strlit("(:filter_value IS NOT NULL AND (m.manufacturer = :filter_value COLLATE NOCASE OR (instr(m.manufacturer, ' (') > 0 AND substr(m.manufacturer, 1, instr(m.manufacturer, ' (') - 1) = :filter_value COLLATE NOCASE)))");
    reveal_strlit(":filter_value IS NOT NULL AND m.year = :filter_value");
    reveal_strlit(":filter_value IS NOT NULL AND m.source_file = :filter_value COLLATE NOCASE");
    reveal_strlit("m.driver_savestate IS NOT NULL AND m.driver_savestate <> 'unsupported'");
    reveal_strlit("m.driver_savestate IS NULL OR m.driver_savestate = 'unsupported'");
    reveal_strlit("EXISTS (SELECT 1 FROM displays d WHERE d.generation_id = m.generation_id AND d.machine_short_name = m.short_name AND d.rotate IN (90, 270))");
    reveal_strlit("EXISTS (SELECT 1 FROM displays d WHERE d.generation_id = m.generation_id AND d.machine_short_name = m.short_name) AND NOT EXISTS (SELECT 1 FROM displays d WHERE d.generation_id = m.generation_id AND d.machine_short_name = m.short_name AND d.rotate IN (90, 270))");
}

/// A search character escaped for `LIKE ... ESCAPE '\'`.
pub open spec fn like_escape_char(c: char) -> Seq<char> {
    if c == '\\' || c == '%' || c == '_' {
        seq!['\\', c]
    } else {
        seq![c]
    }
}

/// Search text with the `LIKE` metacharacters escaped.
pub open spec fn like_escape(s: Seq<char>) -> Seq<char>
    decreases s.len(),
{
    if s.len() == 0 {
        Seq::empty()
    } else {
        like_escape(s.drop_last()) + like_escape_char(s.last())
    }
}

/// The `LIKE` pattern that finds the text anywhere, taken literally.
pub fn like_pattern(value: &str) -> (r: String)
    ensures
        r@ == seq!['%'] + like_escape(value@) + seq!['%'],
{
    let chars = chars_of(value);
    let mut out: Vec<char> = Vec::new();
    out.push('%');
    let mut i: usize = 0;
    while i < chars.len()
        invariant
            chars@ == value@,
            i <= chars@.len(),
            out@ == seq!['%'] + like_escape(chars@.take(i as int)),
        decreases chars.len() - i,
    {
        let c = chars[i];
        let ghost before = out@;
        if c == '\\' || c == '%' || c == '_' {
            out.push('\\');
            out.push(c);
        } else {
            out.push(c);
        }
        assert(chars@.take(i + 1).drop_last() == chars@.take(i as int));
        assert(out@ =~= seq!['%'] + like_escape(chars@.take(i + 1)));
        i += 1;
    }
    out.push('%');
    assert(chars@.take(chars@.len() as int) == chars@);
    string_from(out.as_slice())
}

/// The page size must be between one and the maximum.
pub fn validate_mame_ui_limit(limit: u32) -> (r: AppResult<()>)
    ensures
        r is Ok <==> 1 <= limit <= MAX_MAME_UI_PAGE_SIZE,
        r matches Err(e) ==> e.code@ == "CATALOG_QUERY_LIMIT_INVALID"@ && e.message@
            == "MAME UI catalog query limit must be between 1 and 200."@,
{
    if limit == 0 || limit > MAX_MAME_UI_PAGE_SIZE {
        Err(
            AppError::new(
                "CATALOG_QUERY_LIMIT_INVALID",
                "MAME UI catalog query limit must be between 1 and 200.",
            ),
        )
    } else {
        Ok(())
    }
}

pub const WHERE_HEAD: &'static str = "\n                m.generation_id = :generation_id\n                AND m.is_device = 0\n                AND (\n                    :search_pattern IS NULL\n                    OR m.short_name LIKE :search_pattern ESCAPE '\\\\' COLLATE NOCASE\n                    OR m.description LIKE :search_pattern ESCAPE '\\\\' COLLATE NOCASE\n                    OR m.manufacturer LIKE :search_pattern ESCAPE '\\\\' COLLATE NOCASE\n                )\n                AND (:filter_value IS NULL OR :filter_value IS NOT NULL)\n                AND (";

pub const WHERE_TAIL: &'static str = ")\n            ";

pub const AUDIT_JOIN: &'static str = "\n            LEFT JOIN machine_audit_results ar\n              ON ar.machine_short_name = m.short_name\n             AND ar.mame_identity_json = :audit_identity\n             AND ar.content_paths_json = :audit_paths\n        ";

pub const PAGE_SELECT: &'static str = "\n            SELECT\n                m.short_name,\n                m.description,\n                m.year,\n                m.manufacturer,\n                m.source_file,\n                m.clone_of,\n                m.runnable,\n                m.is_device,\n                m.driver_status,\n                CASE\n                    WHEN ar.classification IN ('complete', 'bestAvailable') THEN 'available'\n                    WHEN ar.classification IN ('missingRequired', 'incorrect', 'mixedFailure') THEN 'missing'\n                    ELSE 'unknown'\n                END AS availability,\n                (SELECT COUNT(*) FROM displays d\n                    WHERE d.generation_id = m.generation_id\n                      AND d.machine_short_name = m.short_name) AS display_count,\n                (SELECT COUNT(*) FROM machine_software_lists sl\n                    WHERE sl.generation_id = m.generation_id\n                      AND sl.machine_short_name = m.short_name) AS software_list_count\n            FROM machines m\n            ";

pub const PAGE_ORDER: &'static str = "\n            ORDER BY m.description COLLATE NOCASE ASC, m.short_name COLLATE NOCASE ASC\n            LIMIT :limit OFFSET :offset\n            ";

pub const PREFERRED_HEAD: &'static str = "\n            WITH filtered AS (\n                SELECT\n                    m.short_name,\n                    ROW_NUMBER() OVER (\n                        ORDER BY m.description COLLATE NOCASE ASC, m.short_name COLLATE NOCASE ASC\n                    ) - 1 AS row_position\n                FROM machines m\n                ";

pub const PREFERRED_TAIL: &'static str = "\n            )\n            SELECT row_position\n            FROM filtered\n            WHERE short_name = :preferred_machine\n            LIMIT 1\n            ";

/// The three statements of a browser query: the count, the page, and the position of the
/// preferred machine.
#[derive(Debug, Clone, PartialEq, Eq)]
pub struct MameUiQuerySql {
    pub total_sql: String,
    pub page_sql: String,
    pub preferred_sql: String,
}

pub open spec fn where_of(f: MameUiMachineFilter) -> Seq<char> {
    WHERE_HEAD@ + predicate_of(f) + WHERE_TAIL@
}

/// The statements for a filter; every one applies the same conditions.
pub fn mame_ui_query_sql(filter: MameUiMachineFilter) -> (r: MameUiQuerySql)
    ensures
        r.total_sql@ == "SELECT COUNT(*) FROM machines m "@ + AUDIT_JOIN@ + " WHERE "@ + where_of(filter),
        r.page_sql@ == PAGE_SELECT@ + AUDIT_JOIN@ + "\n            WHERE "@ + where_of(filter) + PAGE_ORDER@,
        r.preferred_sql@ == PREFERRED_HEAD@ + AUDIT_JOIN@ + "\n                WHERE "@ + where_of(filter)
            + PREFERRED_TAIL@,
{
    let a = concat_strs(WHERE_HEAD, filter_predicate(filter));
    let sql_where = concat_strs(a.as_str(), WHERE_TAIL);
    let t1 = concat_strs("SELECT COUNT(*) FROM machines m ", AUDIT_JOIN);
    let t2 = concat_strs(t1.as_str(), " WHERE ");
    let total_sql = concat_strs(t2.as_str(), sql_where.as_str());
    let p1 = concat_strs(PAGE_SELECT, AUDIT_JOIN);
    let p2 = concat_strs(p1.as_str(), "\n            WHERE ");
    let p3 = concat_strs(p2.as_str(), sql_where.as_str());
    let page_sql = concat_strs(p3.as_str(), PAGE_ORDER);
    let q1 = concat_strs(PREFERRED_HEAD, AUDIT_JOIN);
    let q2 = concat_strs(q1.as_str(), "\n                WHERE ");
    let q3 = concat_strs(q2.as_str(), sql_where.as_str());
    let preferred_sql = concat_strs(q3.as_str(), PREFERRED_TAIL);
    MameUiQuerySql { total_sql, page_sql, preferred_sql }
}

/// Whether a machine's content is known to be present.
#[derive(Debug, Clone, Copy, PartialEq, Eq, Structural)]
pub enum MachineAvailability {
    Available,
    Missing,
    Unknown,
}

/// The token of an availability, as the query and the export write it.
pub open spec fn availability_name(a: MachineAvailability) -> Seq<char> {
    match a {
        MachineAvailability::Available => "available"@,
        MachineAvailability::Missing => "missing"@,
        MachineAvailability::Unknown => "unknown"@,
    }
}

/// The token of an availability.
pub fn availability_token(value: MachineAvailability) -> (r: &'static str)
    ensures
        r@ == availability_name(value),
{
    match value {
        MachineAvailability::Available => "available",
        MachineAvailability::Missing => "missing",
        MachineAvailability::Unknown => "unknown",
    }
}

/// The availability a token names, if any.
pub open spec fn availability_of_token(t: Seq<char>) -> Option<MachineAvailability> {
    if t == "available"@ {
        Some(MachineAvailability::Available)
    } else if t == "missing"@ {
        Some(MachineAvailability::Missing)
    } else if t == "unknown"@ {
        Some(MachineAvailability::Unknown)
    } else {
        None
    }
}

pub open spec fn is_invalid_result(e: AppError) -> bool {
    e.code@ == "CATALOG_QUERY_RESULT_INVALID"@
}

/// Read back the availability token the query computed.
pub fn machine_availability_from_token(value: &str) -> (r: AppResult<MachineAvailability>)
    ensures
        match r {
            Ok(a) => availability_of_token(value@) == Some(a),
            Err(e) => availability_of_token(value@) is None && is_invalid_result(e),
        },
{
    if str_equal(value, "available") {
        Ok(MachineAvailability::Available)
    } else if str_equal(value, "missing") {
        Ok(MachineAvailability::Missing)
    } else if str_equal(value, "unknown") {
        Ok(MachineAvailability::Unknown)
    } else {
        Err(
            AppError::new(
                "CATALOG_QUERY_RESULT_INVALID",
                "The MAME UI catalog query produced an invalid availability value.",
            ).with_detail("availability", value.to_owned()),
        )
    }
}

/// Every availability reads back from its own token.
pub proof fn law_availability_token_round_trip(a: MachineAvailability)
    ensures
        availability_of_token(availability_name(a)) == Some(a),
{
    reveal_strlit("available");
    reveal_strlit("missing");
    reveal_strlit("unknown");
    assert("available"@.len() != "missing"@.len());
    assert("available"@.len() != "unknown"@.len());
    assert("missing"@[0] != "unknown"@[0]);
}

/// A stored SQLite boolean: 0 or 1.
pub fn sqlite_bool(value: i64, field: &str) -> (r: AppResult<bool>)
    ensures
        r is Ok <==> (value == 0 || value == 1),
        r matches Ok(b) ==> b == (value == 1),
        r matches Err(e) ==> is_invalid_result(e),
{
    if value == 0 {
        Ok(false)
    } else if value == 1 {
        Ok(true)
    } else {
        Err(
            AppError::new(
                "CATALOG_QUERY_RESULT_INVALID",
                "The catalog contains an invalid boolean value.",
            ).with_detail("field", field.to_owned()),
        )
    }
}

/// A stored count that must fit in `u32`.
pub fn to_u32(value: i64, field: &str) -> (r: AppResult<u32>)
    ensures
        r is Ok <==> 0 <= value <= u32::MAX,
        r matches Ok(v) ==> v == value,
        r matches Err(e) ==> is_invalid_result(e),
{
    if 0 <= value && value <= u32::MAX as i64 {
        Ok(value as u32)
    } else {
        Err(
            AppError::new(
                "CATALOG_QUERY_RESULT_INVALID",
                "The catalog contains an integer outside the supported result range.",
            ).with_detail("field", field.to_owned()),
        )
    }
}

/// A result row as the database returns it.
#[derive(Debug, Clone, PartialEq, Eq)]
pub struct StoredMameUiMachineItem {
    pub short_name: String,
    pub description: String,
    pub year: Option<String>,
    pub manufacturer: Option<String>,
    pub source_file: Option<String>,
    pub clone_of: Option<String>,
    pub runnable: i64,
    pub is_device: i64,
    pub driver_status: Option<String>,
    pub availability: String,
    pub display_count: i64,
    pub software_list_count: i64,
}

/// One machine in a result page.
#[derive(Debug, Clone, PartialEq, Eq)]
pub struct MachineListItem {
    pub short_name: String,
    pub description: String,
    pub year: Option<String>,
    pub manufacturer: Option<String>,
    pub source_file: Option<String>,
    pub clone_of: Option<String>,
    pub runnable: bool,
    pub is_device: bool,
    pub driver_status: Option<String>,
    pub display_count: u32,
    pub software_list_count: u32,
}

/// A row is well formed: booleans are 0 or 1, counts fit, the availability is a token.
pub open spec fn row_valid(row: StoredMameUiMachineItem) -> bool {
    &&& (row.runnable == 0 || row.runnable == 1)
    &&& (row.is_device == 0 || row.is_device == 1)
    &&& 0 <= row.display_count <= u32::MAX
    &&& 0 <= row.software_list_count <= u32::MAX
    &&& availability_of_token(row.availability@) is Some
}

/// The item a well-formed row converts to: every field carried over, booleans from 0/1.
pub open spec fn item_from_row(item: MachineListItem, row: StoredMameUiMachineItem) -> bool {
    &&& item.short_name == row.short_name && item.description == row.description
    &&& item.year == row.year && item.manufacturer == row.manufacturer
    &&& item.source_file == row.source_file && item.clone_of == row.clone_of
    &&& item.driver_status == row.driver_status
    &&& item.runnable == (row.runnable == 1) && item.is_device == (row.is_device == 1)
    &&& item.display_count == row.display_count
    &&& item.software_list_count == row.software_list_count
}

/// Check and convert one result row.
pub fn machine_list_item(row: StoredMameUiMachineItem) -> (r: AppResult<(MachineListItem, MachineAvailability)>)
    ensures
        r is Ok <==> row_valid(row),
        r matches Ok((item, a)) ==> item_from_row(item, row) && availability_of_token(row.availability@)
            == Some(a),
        r matches Err(e) ==> is_invalid_result(e),
{
    let availability = machine_availability_from_token(row.availability.as_str())?;
    let runnable = sqlite_bool(row.runnable, "runnable")?;
    let is_device = sqlite_bool(row.is_device, "isDevice")?;
    let display_count = to_u32(row.display_count, "displayCount")?;
    let software_list_count = to_u32(row.software_list_count, "softwareListCount")?;
    Ok(
        (
            MachineListItem {
                short_name: row.short_name,
                description: row.description,
                year: row.year,
                manufacturer: row.manufacturer,
                source_file: row.source_file,
                clone_of: row.clone_of,
                runnable,
                is_device,
                driver_status: row.driver_status,
                display_count,
                software_list_count,
            },
            availability,
        ),
    )
}

/// The total a count query returned, which may not be negative.
pub fn result_total(count: i64) -> (r: AppResult<u64>)
    ensures
        r is Ok <==> count >= 0,
        r matches Ok(t) ==> t == count,
        r matches Err(e) ==> is_invalid_result(e),
{
    if count < 0 {
        Err(
            AppError::new(
                "CATALOG_QUERY_RESULT_INVALID",
                "The catalog returned an invalid negative result count.",
            ),
        )
    } else {
        Ok(count as u64)
    }
}

/// The offset of the page holding a row position: the position rounded down to a whole
/// number of pages.
pub fn preferred_page_offset(position: i64, limit: u32) -> (r: AppResult<u32>)
    requires
        limit > 0,
    ensures
        r is Ok <==> position >= 0 && ((position as int) / (limit as int)) * limit <= u32::MAX,
        r matches Ok(o) ==> o == ((position as int) / (limit as int)) * limit,
        r matches Err(e) ==> is_invalid_result(e),
{
    if position < 0 {
        return Err(
            AppError::new(
                "CATALOG_QUERY_RESULT_INVALID",
                "The catalog returned an invalid preferred-machine position.",
            ),
        );
    }
    let page_size = limit as u64;
    let p = position as u64;
    let q = p / page_size;
    assert(q * page_size <= p) by (nonlinear_arith)
        requires
            q == p / page_size,
            page_size > 0,
    ;
    let offset = q * page_size;
    if offset > u32::MAX as u64 {
        return Err(
            AppError::new(
                "CATALOG_QUERY_RESULT_INVALID",
                "The preferred-machine page offset exceeds the supported query range.",
            ),
        );
    }
    Ok(offset as u32)
}

/// The offset a page is read from: a request for the first page opens on the page that
/// holds the preferred machine, when there is one and it is shown.
pub fn effective_offset(query: &MameUiMachineQuery, preferred_offset: Option<u32>) -> (r: u32)
    ensures
        r == if query.offset == 0 {
            match preferred_offset {
                Some(o) => o,
                None => query.offset,
            }
        } else {
            query.offset
        },
{
    if query.offset == 0 {
        match preferred_offset {
            Some(o) => o,
            None => query.offset,
        }
    } else {
        query.offset
    }
}

/// One page of browser results.
#[derive(Debug, Clone, PartialEq, Eq)]
pub struct MachinePage {
    pub schema_version: u32,
    pub generation_id: i64,
    pub total: u64,
    pub offset: u32,
    pub limit: u32,
    pub items: Vec<MachineListItem>,
    pub availability: Vec<MachineAvailability>,
}

/// Convert the rows of a page, in order; the first bad row fails the page.
#[verifier::spinoff_prover]
pub fn machine_page(
    generation_id: i64,
    total: u64,
    offset: u32,
    limit: u32,
    rows: Vec<StoredMameUiMachineItem>,
) -> (r: AppResult<MachinePage>)
    ensures
        r is Ok <==> forall|i: int| 0 <= i < rows@.len() ==> #[trigger] row_valid(rows@[i]),
        r matches Ok(p) ==> {
            &&& p.schema_version == 1 && p.generation_id == generation_id && p.total == total
            &&& p.offset == offset && p.limit == limit
            &&& p.items@.len() == rows@.len() && p.availability@.len() == rows@.len()
            &&& forall|i: int|
                0 <= i < rows@.len() ==> item_from_row(#[trigger] p.items@[i], rows@[i])
                    && availability_of_token(rows@[i].availability@) == Some(p.availability@[i])
        },
        r matches Err(e) ==> is_invalid_result(e),
{
    let mut items: Vec<MachineListItem> = Vec::new();
    let mut availability: Vec<MachineAvailability> = Vec::new();
    let ghost original = rows@;
    let mut pending = rows;
    let mut k: usize = 0;
    let n = pending.len();
    while pending.len() > 0
        invariant
            n == original.len(),
            original == rows@,
            pending@.len() + k == n,
            forall|j: int| 0 <= j < pending@.len() ==> pending@[j] == original[k + j],
            items@.len() == k && availability@.len() == k,
            forall|i: int| 0 <= i < k ==> #[trigger] row_valid(original[i]),
            forall|i: int|
                0 <= i < k ==> item_from_row(#[trigger] items@[i], original[i])
                    && availability_of_token(original[i].availability@) == Some(availability@[i]),
        decreases pending.len(),
    {
        let row = pending.remove(0);
        assert(row == original[k as int]);
        let (item, a) = match machine_list_item(row) {
            Ok(converted) => converted,
            Err(e) => {
                assert(!row_valid(original[k as int]));
                return Err(e);
            },
        };
        let ghost old_items = items@;
        let ghost old_availability = availability@;
        items.push(item);
        availability.push(a);
        assert forall|i: int| 0 <= i < k + 1 implies item_from_row(#[trigger] items@[i], original[i])
            && availability_of_token(original[i].availability@) == Some(availability@[i]) by {
            if i < k {
                assert(items@[i] == old_items[i]);
                assert(availability@[i] == old_availability[i]);
            }
        }
        k += 1;
    }
    Ok(MachinePage { schema_version: 1, generation_id, total, offset, limit, items, availability })
}

} // verus!
