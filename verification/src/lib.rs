//! Loading structured configuration from environment variables, with
//! every missing or invalid variable reported as an issue.

mod context;
pub mod derive;
mod env;
mod from_env;
pub mod ints;
mod issue;
pub mod laws;
pub mod nonzero;

pub use context::{
    condition_report, default_report, issues_view, lemma_prefix_transitive, nested_report,
    parse_report, refusal,
    EnvStructure, ParseCtx, ReportView,
};
pub use env::{
    lookup, var_result, Environment, OsStringView, RawInput, RawInputView, RawOsString, VarError,
    VarErrorView,
};
pub use from_env::{
    discriminant_outcome, index_of_first, outcome, raw_of, shown_value, spec_debug_text,
    spec_discriminant, spec_parse_bool, str_outcome, texts, DisplayWrapper, EnvDisplay, EnvInput,
    FromEnv, FromEnvCtx, FromEnvResult, InvalidValueError,
};
pub use issue::{issue_text, IssueKindView, IssueView, ParseIssue, ParseIssueKind};

use vstd::prelude::*;
use vstd::string::*;

verus! {

/// Error returned when the environment could not be loaded.
pub struct EnvLoadError;

impl EnvLoadError {
    /// The message by which the error is shown.
    pub fn to_text(&self) -> (r: String)
        ensures
            r@ == "failed to load environment"@,
    {
        String::from_str("failed to load environment")
    }
}

/// The severity with which a line is traced.
#[derive(Clone, Copy, PartialEq, Eq, Structural)]
pub enum TraceLevel {
    Info,
    Warn,
    Error,
}

/// A line to trace.
pub struct TraceEntry {
    pub level: TraceLevel,
    pub text: String,
}

/// The lines traced while loading, in order.
pub struct TraceLog {
    pub entries: Vec<TraceEntry>,
}

impl View for TraceLog {
    type V = Seq<(TraceLevel, Seq<char>)>;

    open spec fn view(&self) -> Seq<(TraceLevel, Seq<char>)> {
        self.entries@.map_values(|e: TraceEntry| (e.level, e.text@))
    }
}

/// The lines that trace the issues `issues` at `level`.
pub open spec fn traced(issues: Seq<IssueView>, level: TraceLevel) -> Seq<(TraceLevel, Seq<char>)> {
    issues.map_values(|i: IssueView| (level, issue_text(i)))
}

/// The lines that trace a report: its information, then its warnings, then
/// its errors.
pub open spec fn trace_lines(rep: ReportView) -> Seq<(TraceLevel, Seq<char>)> {
    traced(rep.infos, TraceLevel::Info) + traced(rep.warnings, TraceLevel::Warn) + traced(
        rep.errs,
        TraceLevel::Error,
    )
}

impl TraceLog {
    pub fn new() -> (r: Self)
        ensures
            r@ == Seq::<(TraceLevel, Seq<char>)>::empty(),
    {
        let r = TraceLog { entries: Vec::new() };
        assert(r@ =~= Seq::<(TraceLevel, Seq<char>)>::empty());
        r
    }

    fn trace_all(&mut self, issues: &Vec<ParseIssue>, level: TraceLevel)
        ensures
            final(self)@ == old(self)@ + traced(issues_view(issues@), level),
    {
        let n = issues.len();
        for i in 0..n
            invariant
                n == issues@.len(),
                self@ == old(self)@ + traced(issues_view(issues@.take(i as int)), level),
        {
            let ghost before = self@;
            let text = issues[i].to_text();
            self.entries.push(TraceEntry { level, text });
            assert(issues_view(issues@.take(i + 1)) =~= issues_view(issues@.take(i as int)).push(
                issues@[i as int]@,
            ));
            assert(traced(issues_view(issues@.take(i + 1)), level) =~= traced(
                issues_view(issues@.take(i as int)),
                level,
            ).push((level, issue_text(issues@[i as int]@))));
            assert(self@ =~= before.push((level, issue_text(issues@[i as int]@))));
        }
        assert(issues@.take(n as int) =~= issues@);
    }
}

/// Finishes a load that gave `item` and filled `ctx`: traces its
/// information, then its warnings, then its errors, and fails if it found an
/// error or gave no item.
pub fn finish_load<T>(item: Option<T>, ctx: &ParseCtx, log: &mut TraceLog) -> (r: Result<
    T,
    EnvLoadError,
>)
    ensures
        final(log)@ == old(log)@ + trace_lines(ctx@),
        (r is Err) <==> (ctx@.errs.len() > 0 || item is None),
        r matches Ok(v) ==> item == Some(v),
{
    log.trace_all(ctx.infos(), TraceLevel::Info);
    log.trace_all(ctx.warnings(), TraceLevel::Warn);
    log.trace_all(ctx.errors(), TraceLevel::Error);
    assert(log@ =~= old(log)@ + trace_lines(ctx@));
    if ctx.has_errors() {
        return Err(EnvLoadError);
    }
    match item {
        Some(item) => Ok(item),
        None => Err(EnvLoadError),
    }
}

/// `after` is `before` followed by the lines that trace what loading a `T`
/// on `env` reported, and `r` is what the load gave unless it failed: it
/// fails exactly when it reported an error, and a load that gave no item
/// reported one.
pub open spec fn load_trace<T: EnvStructure>(
    env: Seq<(Seq<char>, RawInputView)>,
    before: Seq<(TraceLevel, Seq<char>)>,
    after: Seq<(TraceLevel, Seq<char>)>,
    r: Result<T, EnvLoadError>,
) -> bool {
    exists|added: ReportView, item: Option<T>|
        #[trigger] T::loads(env, added, item) && after == before + trace_lines(added) && (item
            is None ==> added.errs.len() > 0) && ((r is Err) <==> added.errs.len() > 0) && (
        r matches Ok(v) ==> item == Some(v))
}

/// Loads `T` from `env`, tracing every issue found; fails if any of them
/// is an error.
pub fn load_and_trace<T: EnvStructure>(env: &Environment, log: &mut TraceLog) -> (r: Result<
    T,
    EnvLoadError,
>)
    ensures
        load_trace(env@, old(log)@, final(log)@, r),
{
    let mut ctx = ParseCtx::new(env);
    let item = T::parse(&mut ctx);
    proof {
        let added = choose|added: ReportView|
            #[trigger] T::loads(env@, added, item) && ctx@ == ReportView::empty().concat(added);
        assert(ctx@ =~= added);
    }
    finish_load(item, &ctx, log)
}

} // verus!
