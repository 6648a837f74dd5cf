use crate::context::{lemma_prefix_transitive, condition_report, default_report, parse_report, ReportView};
use crate::env::{lookup, RawInputView, VarErrorView};
use crate::from_env::{discriminant_outcome, index_of_first, shown_value, spec_parse_bool, str_outcome, EnvDisplay, EnvInput, FromEnv};
use crate::issue::{issue_text, IssueKindView, IssueView};
use vstd::prelude::*;

verus! {

/// Reading a variable gives the value it was last set to; setting a
/// variable leaves every other variable as it was.
pub proof fn law_set_then_lookup(
    entries: Seq<(Seq<char>, RawInputView)>,
    key: Seq<char>,
    value: RawInputView,
    other: Seq<char>,
)
    requires
        other != key,
    ensures
        lookup(entries.push((key, value)), key) == Some(value),
        lookup(entries.push((key, value)), other) == lookup(entries, other),
{
    assert(entries.push((key, value)).drop_last() == entries);
}

/// No parse, validation, default or merge removes or rewrites an issue
/// already reported: each only appends.
pub proof fn law_reports_only_grow<V>(
    rep: ReportView,
    key: Seq<char>,
    optional: bool,
    o: Result<V, IssueKindView>,
    issue: IssueView,
    d: Seq<char>,
    invalid: Option<Seq<char>>,
    cond_o: Result<bool, IssueKindView>,
    other: ReportView,
)
    ensures
        rep.is_prefix_of(parse_report(rep, key, optional, o)),
        rep.is_prefix_of(default_report(rep, issue, d, invalid)),
        rep.is_prefix_of(condition_report(rep, key, cond_o)),
        rep.is_prefix_of(rep.concat(other)),
{
    assert((rep.errs + other.errs).subrange(0, rep.errs.len() as int) =~= rep.errs);
    assert((rep.warnings + other.warnings).subrange(0, rep.warnings.len() as int) =~= rep.warnings);
    assert((rep.infos + other.infos).subrange(0, rep.infos.len() as int) =~= rep.infos);
}

/// A merged context has an error exactly when one of the two merged had one.
pub proof fn law_merge_has_errors(a: ReportView, b: ReportView)
    ensures
        (a.concat(b).errs.len() > 0) <==> (a.errs.len() > 0 || b.errs.len() > 0),
{
}

/// An optional value that is missing or invalid is reported nowhere; a
/// required value that is missing or invalid is reported as exactly one
/// error, and nothing else.
pub proof fn law_missing_values<V>(rep: ReportView, key: Seq<char>, k: IssueKindView)
    ensures
        parse_report(rep, key, true, Err::<V, IssueKindView>(k)) == rep,
        parse_report(rep, key, false, Err::<V, IssueKindView>(k)) == rep.with_error(
            IssueView { var: key, kind: k, recovery: None },
        ),
{
}

/// A value replaced by a default that is valid is never an error: a missing
/// value is reported as information, an invalid one as a warning.
pub proof fn law_valid_default_is_no_error(rep: ReportView, issue: IssueView, d: Seq<char>)
    ensures
        default_report(rep, issue, d, None).errs == rep.errs,
        issue.kind is NotFound ==> default_report(rep, issue, d, None).infos.len() == rep.infos.len()
            + 1,
        !(issue.kind is NotFound) ==> default_report(rep, issue, d, None).warnings.len()
            == rep.warnings.len() + 1,
{
}

/// A secret value never appears in what its parse reports: an invalid
/// secret value is shown as `<REDACTED>`.
pub proof fn law_secret_is_redacted<V>(
    input: EnvInput,
    f: spec_fn(Seq<char>) -> Result<V, Seq<char>>,
)
    requires
        input.secret,
    ensures
        str_outcome(input, f) matches Err(IssueKindView::InvalidValue { value, .. }) ==> value
            == "<REDACTED>"@,
{
}

/// A value that is set is never reported missing, and a value that is
/// missing is always reported missing.
pub proof fn law_missing_iff_not_set<V>(
    input: EnvInput,
    f: spec_fn(Seq<char>) -> Result<V, Seq<char>>,
)
    ensures
        (str_outcome(input, f) == Err::<V, IssueKindView>(IssueKindView::NotFound)) <==> (
        input.input == Err::<Seq<char>, VarErrorView>(VarErrorView::NotPresent)),
{
}

/// A string value is read back exactly as it was set.
pub proof fn law_string_reads_back(secret: bool, s: Seq<char>)
    ensures
        <String as FromEnv>::spec_from_env(EnvInput { secret, input: Ok(s) }) == Ok::<
            Seq<char>,
            IssueKindView,
        >(s),
{
}

/// A boolean's text parses back to the boolean.
pub proof fn law_bool_roundtrip(secret: bool, b: bool)
    ensures
        <bool as FromEnv>::spec_from_env(EnvInput { secret, input: Ok(b.spec_text()) }) == Ok::<
            bool,
            IssueKindView,
        >(b),
{
    reveal_strlit("true");
    reveal_strlit("TRUE");
    reveal_strlit("yes");
    reveal_strlit("YES");
    reveal_strlit("1");
    reveal_strlit("false");
    if b {
        assert(spec_parse_bool(b.spec_text()) == Ok::<bool, Seq<char>>(true));
    } else {
        assert(b.spec_text().len() == 5);
        assert(spec_parse_bool(b.spec_text()) == Ok::<bool, Seq<char>>(false));
    }
}

/// The recovery of an issue is shown after its description.
pub proof fn law_recovery_is_appended(i: IssueView, r: Seq<char>)
    ensures
        issue_text(IssueView { recovery: Some(r), ..i }) == issue_text(
            IssueView { recovery: None, ..i },
        ) + ": "@ + r,
{
}

} // verus!

verus! {

/// Among distinct values, each value selects its own position.
pub proof fn law_distinct_values_select_themselves(values: Seq<Seq<char>>, j: int)
    requires
        0 <= j < values.len(),
        forall|a: int, b: int| 0 <= a < b < values.len() ==> values[a] != values[b],
    ensures
        index_of_first(values, values[j]) == Some(j),
    decreases values.len(),
{
    if j < values.len() - 1 {
        let prefix = values.drop_last();
        assert(prefix[j] == values[j]);
        law_distinct_values_select_themselves(prefix, j);
    } else {
        lemma_absent_from_prefix(values.drop_last(), values[j]);
    }
}

/// A value that none of `values` is selects no position.
proof fn lemma_absent_from_prefix(values: Seq<Seq<char>>, s: Seq<char>)
    requires
        forall|a: int| 0 <= a < values.len() ==> values[a] != s,
    ensures
        index_of_first(values, s) is None,
    decreases values.len(),
{
    if values.len() > 0 {
        lemma_absent_from_prefix(values.drop_last(), s);
    }
}

/// Setting the variable of an enum to the value of one of its variants
/// selects that variant, when the values are distinct, as the derive
/// requires of them.
pub proof fn law_variant_value_selects_variant(
    values: Seq<Seq<char>>,
    enum_name: Seq<char>,
    secret: bool,
    j: int,
)
    requires
        0 <= j < values.len(),
        forall|a: int, b: int| 0 <= a < b < values.len() ==> values[a] != values[b],
    ensures
        discriminant_outcome(EnvInput { secret, input: Ok(values[j]) }, values, enum_name) == Ok::<
            int,
            IssueKindView,
        >(j),
{
    law_distinct_values_select_themselves(values, j);
}

} // verus!

verus! {

/// Once a context has found an error it keeps it: every call on a context
/// (parses, defaults, nested loads, merges) leaves what it held as a prefix
/// of what it holds, so along any sequence of calls `has_errors` never turns
/// back to `false`, and no issue is lost.
pub proof fn law_errors_persist(steps: Seq<ReportView>, i: int, j: int)
    requires
        forall|k: int| 0 <= k < steps.len() - 1 ==> (#[trigger] steps[k]).is_prefix_of(steps[k + 1]),
        0 <= i <= j < steps.len(),
    ensures
        steps[i].is_prefix_of(steps[j]),
        steps[i].errs.len() > 0 ==> steps[j].errs.len() > 0,
    decreases j - i,
{
    if i == j {
        assert(steps[i].errs.subrange(0, steps[i].errs.len() as int) =~= steps[i].errs);
        assert(steps[i].warnings.subrange(0, steps[i].warnings.len() as int) =~= steps[i].warnings);
        assert(steps[i].infos.subrange(0, steps[i].infos.len() as int) =~= steps[i].infos);
    } else {
        law_errors_persist(steps, i + 1, j);
        assert(steps[i].is_prefix_of(steps[i + 1]));
        lemma_prefix_transitive(steps[i], steps[i + 1], steps[j]);
    }
}

/// Reading the condition of a nested load never reports an error: a
/// condition that reads as a boolean adds nothing, a missing one is
/// information and an invalid one a warning, each recovered as `false`.
pub proof fn law_condition_is_never_an_error(rep: ReportView, cond: Seq<char>, o: Result<bool, IssueKindView>)
    ensures
        condition_report(rep, cond, o).errs == rep.errs,
        o is Ok ==> condition_report(rep, cond, o) == rep,
        o == Err::<bool, IssueKindView>(IssueKindView::NotFound) ==> condition_report(rep, cond, o)
            == (ReportView {
            infos: rep.infos.push(IssueView { var: cond, kind: IssueKindView::NotFound, recovery: Some("false"@) }),
            ..rep
        }),
        o matches Err(k) && !(k is NotFound) ==> condition_report(rep, cond, o) == (ReportView {
            warnings: rep.warnings.push(IssueView { var: cond, kind: o->Err_0, recovery: Some("false"@) }),
            ..rep
        }),
{
}

/// A variable reads as `true` exactly when it is one of `true`, `TRUE`,
/// `yes`, `YES` and `1`, as `false` exactly when it is one of `false`,
/// `FALSE`, `no`, `NO` and `0`, and every other text is an invalid value.
pub proof fn law_bool_spellings(secret: bool, s: Seq<char>)
    ensures
        (<bool as FromEnv>::spec_from_env(EnvInput { secret, input: Ok(s) }) == Ok::<bool, IssueKindView>(true))
            <==> (s == "true"@ || s == "TRUE"@ || s == "yes"@ || s == "YES"@ || s == "1"@),
        (<bool as FromEnv>::spec_from_env(EnvInput { secret, input: Ok(s) }) == Ok::<bool, IssueKindView>(false))
            <==> (s == "false"@ || s == "FALSE"@ || s == "no"@ || s == "NO"@ || s == "0"@),
        !(s == "true"@ || s == "TRUE"@ || s == "yes"@ || s == "YES"@ || s == "1"@ || s == "false"@ || s
            == "FALSE"@ || s == "no"@ || s == "NO"@ || s == "0"@) ==> <bool as FromEnv>::spec_from_env(
            EnvInput { secret, input: Ok(s) },
        ) == Err::<bool, IssueKindView>(
            IssueKindView::InvalidValue {
                value: shown_value(RawInputView::String(s), secret),
                msg: "not a valid boolean"@,
            },
        ),
{
    reveal_strlit("true");
    reveal_strlit("TRUE");
    reveal_strlit("yes");
    reveal_strlit("YES");
    reveal_strlit("1");
    reveal_strlit("false");
    reveal_strlit("FALSE");
    reveal_strlit("no");
    reveal_strlit("NO");
    reveal_strlit("0");
    // Spellings of different lengths differ; "0" and "1" differ in their character.
    assert("true"@.len() == 4 && "TRUE"@.len() == 4 && "yes"@.len() == 3 && "YES"@.len() == 3);
    assert("false"@.len() == 5 && "FALSE"@.len() == 5 && "no"@.len() == 2 && "NO"@.len() == 2);
    assert("0"@[0] != "1"@[0]);
}

} // verus!
