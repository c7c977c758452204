//! Classification of MAME `-verifyroms` / `-verifysoftware` output.
//!
//! The parser never infers media availability from the filesystem. Unknown,
//! contradictory, or insufficient output stays `Unknown`.

use vstd::prelude::*;

use crate::text::{
    chars_of, contains, contains_str, ends_with, ends_with_str, fit_count, fit_prefix, lemma_utf8_len_concat,
    lines, lines_of, occurs_at, starts_with, starts_with_str, string_from, trim, trim_bounds, trim_chars, utf8_len,
};

verus! {

/// Upper bound, in UTF-8 bytes, of the retained raw diagnostic excerpt.
pub const RAW_EXCERPT_LIMIT: usize = 16384;

/// Aggregate result derived from MAME's audit output and exit status.
#[derive(Debug, Clone, Copy, PartialEq, Eq)]
pub enum MameAuditClassification {
    Complete,
    BestAvailable,
    MissingRequired,
    Incorrect,
    MixedFailure,
    Unknown,
}

/// Fine-grained facts that remain useful even when the aggregate result is acceptable.
#[derive(Debug, Clone, Copy, PartialEq, Eq)]
pub struct MameAuditFacts {
    pub optional_missing: bool,
    pub no_good_dump_known: bool,
    pub needs_redump: bool,
    pub missing_required: bool,
    pub incorrect_checksum: bool,
    pub incorrect_length: bool,
    pub target_not_found: bool,
}

impl Default for MameAuditFacts {
    fn default() -> (r: Self)
        ensures
            r == no_facts(),
    {
        MameAuditFacts {
            optional_missing: false,
            no_good_dump_known: false,
            needs_redump: false,
            missing_required: false,
            incorrect_checksum: false,
            incorrect_length: false,
            target_not_found: false,
        }
    }
}

/// Conservative parse result for a completed MAME audit process.
#[derive(Debug, Clone, PartialEq, Eq)]
pub struct MameAuditParseResult {
    pub classification: MameAuditClassification,
    pub facts: MameAuditFacts,
    pub exit_code: Option<i32>,
    pub raw_excerpt: String,
    pub raw_truncated: bool,
}

/// Everything the line scan observes: the facts and the three romset summaries.
#[derive(Debug, Clone, Copy, PartialEq, Eq)]
pub struct AuditObservations {
    pub facts: MameAuditFacts,
    pub saw_good_summary: bool,
    pub saw_best_available_summary: bool,
    pub saw_bad_summary: bool,
}

pub open spec fn no_facts() -> MameAuditFacts {
    MameAuditFacts {
        optional_missing: false,
        no_good_dump_known: false,
        needs_redump: false,
        missing_required: false,
        incorrect_checksum: false,
        incorrect_length: false,
        target_not_found: false,
    }
}

/// The line names a system, list or software that MAME does not know.
pub open spec fn line_target_not_found(l: Seq<char>) -> bool {
    ||| starts_with(l, "No matching systems found for '"@)
    ||| starts_with(l, "No matching software lists found for '"@)
    ||| starts_with(l, "No software list items are defined for systems matching '"@)
}

/// The line says a whole set or list has no media at all.
pub open spec fn line_missing_set_summary(l: Seq<char>) -> bool {
    ||| (starts_with(l, "romset \""@) && ends_with(l, "\" not found!"@))
    ||| starts_with(l, "No software items found for systems matching '"@)
    ||| starts_with(l, "no romsets found for software list \""@)
}

pub open spec fn line_optional_missing(l: Seq<char>) -> bool {
    contains(l, "NOT FOUND BUT OPTIONAL"@)
}

pub open spec fn line_no_good_dump_known(l: Seq<char>) -> bool {
    contains(l, "NO GOOD DUMP KNOWN"@)
}

/// A required file is missing: a `- NOT FOUND` line that is neither optional nor
/// undumped, or a whole-set summary.
pub open spec fn line_missing_required(l: Seq<char>) -> bool {
    &&& !contains(l, "NOT FOUND BUT OPTIONAL"@)
    &&& !contains(l, "NOT FOUND - NO GOOD DUMP KNOWN"@)
    &&& (contains(l, " - NOT FOUND"@) || line_missing_set_summary(l))
}

pub open spec fn line_incorrect_checksum(l: Seq<char>) -> bool {
    contains(l, "INCORRECT CHECKSUM:"@)
}

pub open spec fn line_incorrect_length(l: Seq<char>) -> bool {
    contains(l, "INCORRECT LENGTH:"@)
}

pub open spec fn line_needs_redump(l: Seq<char>) -> bool {
    contains(l, "NEEDS REDUMP"@)
}

pub open spec fn line_good_summary(l: Seq<char>) -> bool {
    starts_with(l, "romset "@) && ends_with(l, " is good"@)
}

pub open spec fn line_best_available_summary(l: Seq<char>) -> bool {
    starts_with(l, "romset "@) && !ends_with(l, " is good"@) && ends_with(
        l,
        " is best available"@,
    )
}

pub open spec fn line_bad_summary(l: Seq<char>) -> bool {
    &&& starts_with(l, "romset "@)
    &&& !ends_with(l, " is good"@)
    &&& !ends_with(l, " is best available"@)
    &&& ends_with(l, " is bad"@)
}

/// Some line of `ls`, once trimmed, satisfies `p`.
pub open spec fn any_line(ls: Seq<Seq<char>>, p: spec_fn(Seq<char>) -> bool) -> bool {
    exists|i: int| 0 <= i < ls.len() && #[trigger] p(trim(ls[i]))
}

/// What the scan of `ls` observes.
pub open spec fn observe(ls: Seq<Seq<char>>) -> AuditObservations {
    AuditObservations {
        facts: MameAuditFacts {
            optional_missing: any_line(ls, |l: Seq<char>| line_optional_missing(l)),
            no_good_dump_known: any_line(ls, |l: Seq<char>| line_no_good_dump_known(l)),
            needs_redump: any_line(ls, |l: Seq<char>| line_needs_redump(l)),
            missing_required: any_line(ls, |l: Seq<char>| line_missing_required(l)),
            incorrect_checksum: any_line(ls, |l: Seq<char>| line_incorrect_checksum(l)),
            incorrect_length: any_line(ls, |l: Seq<char>| line_incorrect_length(l)),
            target_not_found: any_line(ls, |l: Seq<char>| line_target_not_found(l)),
        },
        saw_good_summary: any_line(ls, |l: Seq<char>| line_good_summary(l)),
        saw_best_available_summary: any_line(ls, |l: Seq<char>| line_best_available_summary(l)),
        saw_bad_summary: any_line(ls, |l: Seq<char>| line_bad_summary(l)),
    }
}

/// The observations of stdout followed by those of stderr.
pub open spec fn observe_output(stdout: Seq<char>, stderr: Seq<char>) -> AuditObservations {
    observe(lines(stdout) + lines(stderr))
}

/// The aggregate classification for an exit code and the observed output.
pub open spec fn classification_of(
    exit_code: Option<i32>,
    facts: MameAuditFacts,
    saw_good_summary: bool,
    saw_best_available_summary: bool,
    saw_bad_summary: bool,
) -> MameAuditClassification {
    let has_incorrect_content = facts.incorrect_checksum || facts.incorrect_length;
    match exit_code {
        Some(0) => {
            if facts.target_not_found || facts.missing_required || has_incorrect_content
                || saw_bad_summary {
                MameAuditClassification::Unknown
            } else if saw_best_available_summary || facts.optional_missing
                || facts.no_good_dump_known || facts.needs_redump {
                MameAuditClassification::BestAvailable
            } else if saw_good_summary {
                MameAuditClassification::Complete
            } else {
                MameAuditClassification::Unknown
            }
        },
        Some(2) => {
            if facts.target_not_found {
                MameAuditClassification::Unknown
            } else if facts.missing_required && has_incorrect_content {
                MameAuditClassification::MixedFailure
            } else if has_incorrect_content {
                MameAuditClassification::Incorrect
            } else if facts.missing_required {
                MameAuditClassification::MissingRequired
            } else {
                MameAuditClassification::Unknown
            }
        },
        _ => MameAuditClassification::Unknown,
    }
}

/// Append `value` to the excerpt while it stays within `RAW_EXCERPT_LIMIT` bytes; a value
/// that does not fit is cut at the last whole character that does, and marks truncation.
pub open spec fn append_bounded_spec(state: (Seq<char>, bool), value: Seq<char>) -> (
    Seq<char>,
    bool,
) {
    let remaining = RAW_EXCERPT_LIMIT - utf8_len(state.0);
    if remaining <= 0 {
        (state.0, state.1 || value.len() > 0)
    } else if utf8_len(value) <= remaining {
        (state.0 + value, state.1)
    } else {
        (state.0 + fit_prefix(value, remaining), true)
    }
}

/// Append one labelled stream (`stdout:` / `stderr:`) unless it is blank.
pub open spec fn append_stream_spec(state: (Seq<char>, bool), label: Seq<char>, stream: Seq<char>) -> (
    Seq<char>,
    bool,
) {
    if trim(stream).len() == 0 {
        state
    } else {
        let separator = if state.0.len() == 0 {
            Seq::empty()
        } else {
            seq!['\n']
        };
        let s1 = append_bounded_spec(state, separator);
        let s2 = append_bounded_spec(s1, label);
        let s3 = append_bounded_spec(s2, seq![':', '\n']);
        append_bounded_spec(s3, stream)
    }
}

/// The bounded raw excerpt of both streams and whether anything was cut.
pub open spec fn raw_excerpt_of(stdout: Seq<char>, stderr: Seq<char>) -> (Seq<char>, bool) {
    append_stream_spec(
        append_stream_spec((Seq::empty(), false), "stdout"@, stdout),
        "stderr"@,
        stderr,
    )
}

/// Parse MAME audit stdout/stderr together with the process exit code.
pub fn parse_mame_audit_output(stdout: &str, stderr: &str, exit_code: Option<i32>) -> (r:
    MameAuditParseResult)
    ensures
        r.facts == observe_output(stdout@, stderr@).facts,
        r.classification == classification_of(
            exit_code,
            observe_output(stdout@, stderr@).facts,
            observe_output(stdout@, stderr@).saw_good_summary,
            observe_output(stdout@, stderr@).saw_best_available_summary,
            observe_output(stdout@, stderr@).saw_bad_summary,
        ),
        r.exit_code == exit_code,
        (r.raw_excerpt@, r.raw_truncated) == raw_excerpt_of(stdout@, stderr@),
        utf8_len(r.raw_excerpt@) <= RAW_EXCERPT_LIMIT,
{
    let out_chars = chars_of(stdout);
    let err_chars = chars_of(stderr);
    let mut all_lines = lines_of(out_chars.as_slice());
    let mut err_lines = lines_of(err_chars.as_slice());
    let ghost out_view = all_lines.deep_view();
    let ghost err_view = err_lines.deep_view();
    all_lines.append(&mut err_lines);
    assert(all_lines.deep_view() =~= out_view + err_view);
    let observed = scan_lines(&all_lines);
    let classification = classify(
        exit_code,
        observed.facts,
        observed.saw_good_summary,
        observed.saw_best_available_summary,
        observed.saw_bad_summary,
    );
    let (raw_excerpt, raw_truncated) = build_raw_excerpt(out_chars.as_slice(), err_chars.as_slice());
    MameAuditParseResult {
        classification,
        facts: observed.facts,
        exit_code,
        raw_excerpt,
        raw_truncated,
    }
}

proof fn lemma_any_line_step(ls: Seq<Seq<char>>, i: int, p: spec_fn(Seq<char>) -> bool)
    requires
        0 <= i < ls.len(),
    ensures
        any_line(ls.take(i + 1), p) == (any_line(ls.take(i), p) || p(trim(ls[i]))),
{
    let a = ls.take(i);
    let b = ls.take(i + 1);
    if any_line(a, p) {
        let k = choose|k: int| 0 <= k < a.len() && #[trigger] p(trim(a[k]));
        assert(b[k] == a[k]);
    }
    if any_line(b, p) {
        let k = choose|k: int| 0 <= k < b.len() && #[trigger] p(trim(b[k]));
        if k < i {
            assert(a[k] == b[k]);
        }
    }
    if p(trim(ls[i])) {
        assert(b[i] == ls[i]);
    }
}

proof fn lemma_no_good_dump_variants(l: Seq<char>)
    ensures
        contains(l, "NOT FOUND - NO GOOD DUMP KNOWN"@) ==> contains(l, "NO GOOD DUMP KNOWN"@),
{
    reveal_strlit("NOT FOUND - NO GOOD DUMP KNOWN");
    reveal_strlit("NO GOOD DUMP KNOWN");
    if contains(l, "NOT FOUND - NO GOOD DUMP KNOWN"@) {
        let long = "NOT FOUND - NO GOOD DUMP KNOWN"@;
        let short = "NO GOOD DUMP KNOWN"@;
        let i = choose|i: int| occurs_at(l, long, i);
        assert(l.subrange(i + 12, i + 12 + short.len()) =~= long.subrange(12, 30));
        assert(long.subrange(12, 30) =~= short);
        assert(occurs_at(l, short, i + 12));
    }
}

/// Observations after also seeing the trimmed line `l`.
pub open spec fn observe_one(obs: AuditObservations, l: Seq<char>) -> AuditObservations {
    AuditObservations {
        facts: MameAuditFacts {
            optional_missing: obs.facts.optional_missing || line_optional_missing(l),
            no_good_dump_known: obs.facts.no_good_dump_known || line_no_good_dump_known(l),
            needs_redump: obs.facts.needs_redump || line_needs_redump(l),
            missing_required: obs.facts.missing_required || line_missing_required(l),
            incorrect_checksum: obs.facts.incorrect_checksum || line_incorrect_checksum(l),
            incorrect_length: obs.facts.incorrect_length || line_incorrect_length(l),
            target_not_found: obs.facts.target_not_found || line_target_not_found(l),
        },
        saw_good_summary: obs.saw_good_summary || line_good_summary(l),
        saw_best_available_summary: obs.saw_best_available_summary || line_best_available_summary(
            l,
        ),
        saw_bad_summary: obs.saw_bad_summary || line_bad_summary(l),
    }
}

proof fn lemma_observe_step(ls: Seq<Seq<char>>, i: int)
    requires
        0 <= i < ls.len(),
    ensures
        observe(ls.take(i + 1)) == observe_one(observe(ls.take(i)), trim(ls[i])),
{
    lemma_any_line_step(ls, i, |l: Seq<char>| line_optional_missing(l));
    lemma_any_line_step(ls, i, |l: Seq<char>| line_no_good_dump_known(l));
    lemma_any_line_step(ls, i, |l: Seq<char>| line_needs_redump(l));
    lemma_any_line_step(ls, i, |l: Seq<char>| line_missing_required(l));
    lemma_any_line_step(ls, i, |l: Seq<char>| line_incorrect_checksum(l));
    lemma_any_line_step(ls, i, |l: Seq<char>| line_incorrect_length(l));
    lemma_any_line_step(ls, i, |l: Seq<char>| line_target_not_found(l));
    lemma_any_line_step(ls, i, |l: Seq<char>| line_good_summary(l));
    lemma_any_line_step(ls, i, |l: Seq<char>| line_best_available_summary(l));
    lemma_any_line_step(ls, i, |l: Seq<char>| line_bad_summary(l));
}

proof fn lemma_empty_line_observes_nothing(l: Seq<char>)
    requires
        l.len() == 0,
    ensures
        !line_target_not_found(l),
        !line_missing_set_summary(l),
        !line_optional_missing(l),
        !line_no_good_dump_known(l),
        !line_missing_required(l),
        !line_incorrect_checksum(l),
        !line_incorrect_length(l),
        !line_needs_redump(l),
        !line_good_summary(l),
        !line_best_available_summary(l),
        !line_bad_summary(l),
{
    reveal_strlit("No matching systems found for '");
    reveal_strlit("No matching software lists found for '");
    reveal_strlit("No software list items are defined for systems matching '");
    reveal_strlit("romset \"");
    reveal_strlit("No software items found for systems matching '");
    reveal_strlit("no romsets found for software list \"");
    reveal_strlit(" - NOT FOUND");
    reveal_strlit("NOT FOUND BUT OPTIONAL");
    reveal_strlit("INCORRECT CHECKSUM:");
    reveal_strlit("INCORRECT LENGTH:");
    reveal_strlit("NEEDS REDUMP");
    reveal_strlit("NO GOOD DUMP KNOWN");
    reveal_strlit("romset ");
}

/// Account for one trimmed line.
fn observe_line(obs: AuditObservations, line: &[char]) -> (r: AuditObservations)
    ensures
        r == observe_one(obs, line@),
{
    if line.len() == 0 {
        proof {
            lemma_empty_line_observes_nothing(line@);
        }
        return obs;
    }
    let mut obs = obs;
    if is_target_not_found(line) {
        obs.facts.target_not_found = true;
    }
    if contains_str(line, "NOT FOUND BUT OPTIONAL") {
        obs.facts.optional_missing = true;
    } else if contains_str(line, "NOT FOUND - NO GOOD DUMP KNOWN") {
        obs.facts.no_good_dump_known = true;
    } else if contains_str(line, " - NOT FOUND") || is_missing_set_summary(line) {
        obs.facts.missing_required = true;
    }
    if contains_str(line, "INCORRECT CHECKSUM:") {
        obs.facts.incorrect_checksum = true;
    }
    if contains_str(line, "INCORRECT LENGTH:") {
        obs.facts.incorrect_length = true;
    }
    if contains_str(line, "NEEDS REDUMP") {
        obs.facts.needs_redump = true;
    }
    if contains_str(line, "NO GOOD DUMP KNOWN") {
        obs.facts.no_good_dump_known = true;
    }
    if starts_with_str(line, "romset ") {
        if ends_with_str(line, " is good") {
            obs.saw_good_summary = true;
        } else if ends_with_str(line, " is best available") {
            obs.saw_best_available_summary = true;
        } else if ends_with_str(line, " is bad") {
            obs.saw_bad_summary = true;
        }
    }
    proof {
        lemma_no_good_dump_variants(line@);
    }
    obs
}

/// Scan the trimmed lines, accumulating facts and romset summaries.
fn scan_lines(all_lines: &Vec<Vec<char>>) -> (r: AuditObservations)
    ensures
        r == observe(all_lines.deep_view()),
{
    let ghost ls = all_lines.deep_view();
    let mut obs = AuditObservations {
        facts: MameAuditFacts::default(),
        saw_good_summary: false,
        saw_best_available_summary: false,
        saw_bad_summary: false,
    };
    proof {
        assert(ls.take(0).len() == 0);
    }
    let mut i: usize = 0;
    while i < all_lines.len()
        invariant
            i <= all_lines@.len(),
            ls == all_lines.deep_view(),
            ls.len() == all_lines@.len(),
            obs == observe(ls.take(i as int)),
        decreases all_lines.len() - i,
    {
        let line = trim_chars(all_lines[i].as_slice());
        assert(all_lines[i as int]@ == ls[i as int]);
        obs = observe_line(obs, line.as_slice());
        proof {
            lemma_observe_step(ls, i as int);
        }
        i += 1;
    }
    assert(ls.take(ls.len() as int) == ls);
    obs
}

/// The aggregate classification for an exit code and the observed output.
pub fn classify(
    exit_code: Option<i32>,
    facts: MameAuditFacts,
    saw_good_summary: bool,
    saw_best_available_summary: bool,
    saw_bad_summary: bool,
) -> (r: MameAuditClassification)
    ensures
        r == classification_of(
            exit_code,
            facts,
            saw_good_summary,
            saw_best_available_summary,
            saw_bad_summary,
        ),
{
    let has_incorrect_content = facts.incorrect_checksum || facts.incorrect_length;
    match exit_code {
        Some(0) => {
            if facts.target_not_found || facts.missing_required || has_incorrect_content
                || saw_bad_summary {
                MameAuditClassification::Unknown
            } else if saw_best_available_summary || facts.optional_missing
                || facts.no_good_dump_known || facts.needs_redump {
                MameAuditClassification::BestAvailable
            } else if saw_good_summary {
                MameAuditClassification::Complete
            } else {
                MameAuditClassification::Unknown
            }
        },
        Some(2) => {
            if facts.target_not_found {
                MameAuditClassification::Unknown
            } else if facts.missing_required && has_incorrect_content {
                MameAuditClassification::MixedFailure
            } else if has_incorrect_content {
                MameAuditClassification::Incorrect
            } else if facts.missing_required {
                MameAuditClassification::MissingRequired
            } else {
                MameAuditClassification::Unknown
            }
        },
        _ => MameAuditClassification::Unknown,
    }
}

/// Whether a trimmed line reports an unknown audit target.
pub fn is_target_not_found(line: &[char]) -> (b: bool)
    ensures
        b == line_target_not_found(line@),
{
    starts_with_str(line, "No matching systems found for '") || starts_with_str(
        line,
        "No matching software lists found for '",
    ) || starts_with_str(line, "No software list items are defined for systems matching '")
}

/// Whether a trimmed line reports that a whole set or list is absent.
pub fn is_missing_set_summary(line: &[char]) -> (b: bool)
    ensures
        b == line_missing_set_summary(line@),
{
    (starts_with_str(line, "romset \"") && ends_with_str(line, "\" not found!")) || starts_with_str(
        line,
        "No software items found for systems matching '",
    ) || starts_with_str(line, "no romsets found for software list \"")
}

/// Bounded excerpt of both output streams.
pub fn build_raw_excerpt(stdout: &[char], stderr: &[char]) -> (r: (String, bool))
    ensures
        (r.0@, r.1) == raw_excerpt_of(stdout@, stderr@),
        utf8_len(r.0@) <= RAW_EXCERPT_LIMIT,
{
    let mut excerpt: Vec<char> = Vec::new();
    let mut used: usize = 0;
    let mut truncated = false;
    let stdout_label = chars_of("stdout");
    let stderr_label = chars_of("stderr");
    append_stream(&mut excerpt, &mut used, &mut truncated, stdout_label.as_slice(), stdout);
    append_stream(&mut excerpt, &mut used, &mut truncated, stderr_label.as_slice(), stderr);
    (string_from(excerpt.as_slice()), truncated)
}

/// Append one labelled stream unless it is blank.
pub fn append_stream(
    excerpt: &mut Vec<char>,
    used: &mut usize,
    truncated: &mut bool,
    label: &[char],
    stream: &[char],
)
    requires
        *old(used) == utf8_len(old(excerpt)@),
        *old(used) <= RAW_EXCERPT_LIMIT,
    ensures
        (final(excerpt)@, *final(truncated)) == append_stream_spec(
            (old(excerpt)@, *old(truncated)),
            label@,
            stream@,
        ),
        *final(used) == utf8_len(final(excerpt)@),
        *final(used) <= RAW_EXCERPT_LIMIT,
{
    let (a, b) = trim_bounds(stream);
    if a == b {
        return;
    }
    let separator: Vec<char> = if excerpt.len() == 0 {
        Vec::new()
    } else {
        vec!['\n']
    };
    assert(separator@ =~= (if old(excerpt)@.len() == 0 {
        Seq::<char>::empty()
    } else {
        seq!['\n']
    }));
    append_bounded(excerpt, used, truncated, separator.as_slice());
    append_bounded(excerpt, used, truncated, label);
    let colon_newline = vec![':', '\n'];
    assert(colon_newline@ =~= seq![':', '\n']);
    append_bounded(excerpt, used, truncated, colon_newline.as_slice());
    append_bounded(excerpt, used, truncated, stream);
}

/// Append `value` within the byte budget, cutting at a character boundary.
pub fn append_bounded(excerpt: &mut Vec<char>, used: &mut usize, truncated: &mut bool, value: &[char])
    requires
        *old(used) == utf8_len(old(excerpt)@),
        *old(used) <= RAW_EXCERPT_LIMIT,
    ensures
        (final(excerpt)@, *final(truncated)) == append_bounded_spec(
            (old(excerpt)@, *old(truncated)),
            value@,
        ),
        *final(used) == utf8_len(final(excerpt)@),
        *final(used) <= RAW_EXCERPT_LIMIT,
{
    let remaining = RAW_EXCERPT_LIMIT - *used;
    if remaining == 0 {
        if value.len() > 0 {
            *truncated = true;
        }
        return;
    }
    let (count, bytes) = fit_count(value, remaining);
    let ghost before = excerpt@;
    let mut k: usize = 0;
    while k < count
        invariant
            k <= count <= value@.len(),
            excerpt@ == before + value@.take(k as int),
        decreases count - k,
    {
        excerpt.push(value[k]);
        assert(value@.take(k + 1) == value@.take(k as int).push(value@[k as int]));
        k += 1;
    }
    proof {
        lemma_utf8_len_concat(before, value@.take(count as int));
    }
    *used = *used + bytes;
    if count < value.len() {
        *truncated = true;
    } else {
        assert(value@.take(count as int) == value@);
    }
}

} // verus!
