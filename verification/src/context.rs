use crate::env::{Environment, RawInputView, VarErrorView};
use crate::from_env::{discriminant_outcome, texts, EnvDisplay, EnvInput, FromEnv, FromEnvCtx};
use crate::issue::{IssueKindView, IssueView, ParseIssue, ParseIssueKind};
use vstd::prelude::*;
use vstd::string::*;

verus! {

/// The issues a context has reported, sorted by severity.
#[verifier::ext_equal]
pub struct ReportView {
    pub errs: Seq<IssueView>,
    pub warnings: Seq<IssueView>,
    pub infos: Seq<IssueView>,
}

impl ReportView {
    pub open spec fn empty() -> ReportView {
        ReportView { errs: Seq::empty(), warnings: Seq::empty(), infos: Seq::empty() }
    }

    pub open spec fn with_error(self, i: IssueView) -> ReportView {
        ReportView { errs: self.errs.push(i), ..self }
    }

    pub open spec fn with_warning(self, i: IssueView) -> ReportView {
        ReportView { warnings: self.warnings.push(i), ..self }
    }

    pub open spec fn with_info(self, i: IssueView) -> ReportView {
        ReportView { infos: self.infos.push(i), ..self }
    }

    /// An issue that was recovered from: a missing variable is reported as
    /// information, an invalid one as a warning.
    pub open spec fn with_recovered(self, i: IssueView) -> ReportView {
        if i.kind is NotFound {
            self.with_info(i)
        } else {
            self.with_warning(i)
        }
    }

    pub open spec fn concat(self, other: ReportView) -> ReportView {
        ReportView {
            errs: self.errs + other.errs,
            warnings: self.warnings + other.warnings,
            infos: self.infos + other.infos,
        }
    }

    /// Every list of `self` begins `other`'s list of the same severity.
    pub open spec fn is_prefix_of(self, other: ReportView) -> bool {
        &&& self.errs.is_prefix_of(other.errs)
        &&& self.warnings.is_prefix_of(other.warnings)
        &&& self.infos.is_prefix_of(other.infos)
    }
}

/// `after` is `before` followed by what loading a `T` on the environment
/// `env` reported, in a context of its own, when the load gave `r`; a load
/// that failed has reported an error.
pub open spec fn nested_report<T: EnvStructure>(
    env: Seq<(Seq<char>, RawInputView)>,
    before: ReportView,
    after: ReportView,
    r: Option<T>,
) -> bool {
    exists|child: ReportView|
        #[trigger] T::loads(env, child, r) && after == before.concat(child) && (r is None
            ==> child.errs.len() > 0)
}

/// The report after the condition variable of a nested load was read,
/// whose parse as a boolean gave `o`; a missing or invalid condition is `false`.
pub open spec fn condition_report(rep: ReportView, cond: Seq<char>, o: Result<bool, IssueKindView>) -> ReportView {
    match o {
        Ok(_) => rep,
        Err(k) => rep.with_recovered(IssueView { var: cond, kind: k, recovery: Some("false"@) }),
    }
}

/// Every step a context takes keeps what it held as a prefix.
proof fn lemma_report_grows(rep: ReportView)
    ensures
        rep.is_prefix_of(rep),
        forall|i: IssueView| rep.is_prefix_of(#[trigger] rep.with_error(i)),
        forall|i: IssueView| rep.is_prefix_of(#[trigger] rep.with_recovered(i)),
        forall|o: ReportView| rep.is_prefix_of(#[trigger] rep.concat(o)),
{
    assert(rep.errs.subrange(0, rep.errs.len() as int) =~= rep.errs);
    assert(rep.warnings.subrange(0, rep.warnings.len() as int) =~= rep.warnings);
    assert(rep.infos.subrange(0, rep.infos.len() as int) =~= rep.infos);
    assert forall|i: IssueView| rep.is_prefix_of(#[trigger] rep.with_error(i)) by {
        assert(rep.errs.push(i).subrange(0, rep.errs.len() as int) =~= rep.errs);
    }
    assert forall|i: IssueView| rep.is_prefix_of(#[trigger] rep.with_recovered(i)) by {
        assert(rep.warnings.push(i).subrange(0, rep.warnings.len() as int) =~= rep.warnings);
        assert(rep.infos.push(i).subrange(0, rep.infos.len() as int) =~= rep.infos);
    }
    assert forall|o: ReportView| rep.is_prefix_of(#[trigger] rep.concat(o)) by {
        assert((rep.errs + o.errs).subrange(0, rep.errs.len() as int) =~= rep.errs);
        assert((rep.warnings + o.warnings).subrange(0, rep.warnings.len() as int) =~= rep.warnings);
        assert((rep.infos + o.infos).subrange(0, rep.infos.len() as int) =~= rep.infos);
    }
}

/// A prefix of a prefix is a prefix.
pub proof fn lemma_prefix_transitive(a: ReportView, b: ReportView, c: ReportView)
    requires
        a.is_prefix_of(b),
        b.is_prefix_of(c),
    ensures
        a.is_prefix_of(c),
{
    assert(c.errs.subrange(0, a.errs.len() as int) =~= b.errs.subrange(0, a.errs.len() as int));
    assert(c.warnings.subrange(0, a.warnings.len() as int) =~= b.warnings.subrange(
        0,
        a.warnings.len() as int,
    ));
    assert(c.infos.subrange(0, a.infos.len() as int) =~= b.infos.subrange(0, a.infos.len() as int));
}

/// The views of a list of issues.
pub open spec fn issues_view<'a>(v: Seq<ParseIssue<'a>>) -> Seq<IssueView> {
    v.map_values(|i: ParseIssue<'a>| i@)
}

/// The report after parsing `key`, whose parse gave `o`: an optional value
/// may be missing or invalid, and is then reported nowhere.
pub open spec fn parse_report<V>(
    rep: ReportView,
    key: Seq<char>,
    optional: bool,
    o: Result<V, IssueKindView>,
) -> ReportView {
    match o {
        Ok(_) => rep,
        Err(k) => if optional {
            rep
        } else {
            rep.with_error(IssueView { var: key, kind: k, recovery: None })
        },
    }
}

/// The report after a default value with text `d` replaced a value that had
/// `issue`; `invalid` is the message of the validator if it refused the default.
pub open spec fn default_report(
    rep: ReportView,
    issue: IssueView,
    d: Seq<char>,
    invalid: Option<Seq<char>>,
) -> ReportView {
    match invalid {
        Some(m) => rep.with_error(
            IssueView { recovery: Some("default value '"@ + d + "' is invalid: "@ + m), ..issue },
        ),
        None => rep.with_recovered(IssueView { recovery: Some("defaulting to '"@ + d), ..issue }),
    }
}

/// What the validation of a value gave: `None` if it accepted the value, or
/// the text of its message.
pub open spec fn refusal<E: EnvDisplay>(vr: Result<(), E>) -> Option<Seq<char>> {
    match vr {
        Ok(_) => None,
        Err(m) => Some(m.spec_text()),
    }
}

/// Context that helps parse and report things during environment loading.
pub struct ParseCtx<'a> {
    env: &'a Environment,
    errs: Vec<ParseIssue<'a>>,
    warnings: Vec<ParseIssue<'a>>,
    infos: Vec<ParseIssue<'a>>,
}

impl<'a> View for ParseCtx<'a> {
    type V = ReportView;

    closed spec fn view(&self) -> ReportView {
        ReportView {
            errs: issues_view(self.errs@),
            warnings: issues_view(self.warnings@),
            infos: issues_view(self.infos@),
        }
    }
}

/// An object that can be loaded from the environment.
pub trait EnvStructure: Sized {
    /// Loading the object on the environment `env` may report `added` and
    /// give `r`. An implementation that does not describe its load allows
    /// every outcome.
    open spec fn loads(env: Seq<(Seq<char>, RawInputView)>, added: ReportView, r: Option<Self>) -> bool {
        true
    }

    /// Loads the object, reporting into `ctx`: what it reports is appended to
    /// what `ctx` held, and a load that fails has reported an error.
    fn parse(ctx: &mut ParseCtx) -> (r: Option<Self>)
        ensures
            exists|added: ReportView|
                #[trigger] Self::loads(old(ctx).env(), added, r) && final(ctx)@ == old(ctx)@.concat(
                    added,
                ),
            r is None ==> final(ctx)@.errs.len() > 0,
            final(ctx).env() == old(ctx).env(),
    ;
}

impl<'a> ParseCtx<'a> {
    /// The environment the context reads.
    pub closed spec fn env(&self) -> Seq<(Seq<char>, RawInputView)> {
        self.env@
    }

    /// What reading `key` gives in the context's environment.
    pub closed spec fn spec_var(&self, key: Seq<char>) -> Result<Seq<char>, VarErrorView> {
        self.env.spec_var(key)
    }

    /// What parsing `key` as a `T` gives.
    pub open spec fn spec_parse<T: FromEnv>(&self, key: Seq<char>) -> Result<T::V, IssueKindView> {
        T::spec_from_env(EnvInput { secret: false, input: self.spec_var(key) })
    }

    /// A context on `env` that has reported nothing.
    pub fn new(env: &'a Environment) -> (r: Self)
        ensures
            r@ == ReportView::empty(),
            r.env() == env@,
            forall|key: Seq<char>| r.spec_var(key) == env.spec_var(key),
    {
        let r = ParseCtx { env, errs: Vec::new(), warnings: Vec::new(), infos: Vec::new() };
        assert(r@ =~= ReportView::empty());
        r
    }

    /// Returns `true` if the context found an error.
    pub fn has_errors(&self) -> (r: bool)
        ensures
            r == (self@.errs.len() > 0),
    {
        !self.errs.is_empty()
    }

    /// The errors reported, in order.
    pub fn errors(&self) -> (r: &Vec<ParseIssue<'a>>)
        ensures
            issues_view(r@) == self@.errs,
    {
        &self.errs
    }

    /// The warnings reported, in order.
    pub fn warnings(&self) -> (r: &Vec<ParseIssue<'a>>)
        ensures
            issues_view(r@) == self@.warnings,
    {
        &self.warnings
    }

    /// The information reported, in order.
    pub fn infos(&self) -> (r: &Vec<ParseIssue<'a>>)
        ensures
            issues_view(r@) == self@.infos,
    {
        &self.infos
    }

    /// Merges this context's reports with another's.
    pub fn merge(&mut self, other: Self)
        ensures
            final(self)@ == old(self)@.concat(other@),
            old(self)@.is_prefix_of(final(self)@),
            final(self).env() == old(self).env(),
            forall|key: Seq<char>| final(self).spec_var(key) == old(self).spec_var(key),
    {
        proof {
            lemma_report_grows(self@);
        }
        let mut other = other;
        let ghost e = self.errs@;
        let ghost w = self.warnings@;
        let ghost i = self.infos@;
        let ghost oe = other.errs@;
        let ghost ow = other.warnings@;
        let ghost oi = other.infos@;
        self.errs.append(&mut other.errs);
        self.warnings.append(&mut other.warnings);
        self.infos.append(&mut other.infos);
        assert(issues_view(e + oe) =~= issues_view(e) + issues_view(oe));
        assert(issues_view(w + ow) =~= issues_view(w) + issues_view(ow));
        assert(issues_view(i + oi) =~= issues_view(i) + issues_view(oi));
    }

    fn push_error(&mut self, issue: ParseIssue<'a>)
        ensures
            final(self)@ == old(self)@.with_error(issue@),
            old(self)@.is_prefix_of(final(self)@),
            final(self).env() == old(self).env(),
            forall|key: Seq<char>| final(self).spec_var(key) == old(self).spec_var(key),
    {
        proof {
            lemma_report_grows(self@);
        }
        let ghost iv = issue@;
        self.errs.push(issue);
        assert(final(self)@.errs =~= old(self)@.errs.push(iv));
        assert(final(self)@ =~= old(self)@.with_error(iv));
    }

    fn push_recovered(&mut self, issue: ParseIssue<'a>)
        ensures
            final(self)@ == old(self)@.with_recovered(issue@),
            old(self)@.is_prefix_of(final(self)@),
            final(self).env() == old(self).env(),
            forall|key: Seq<char>| final(self).spec_var(key) == old(self).spec_var(key),
    {
        proof {
            lemma_report_grows(self@);
        }
        let ghost iv = issue@;
        if issue.kind.is_not_found() {
            self.infos.push(issue);
            assert(final(self)@.infos =~= old(self)@.infos.push(iv));
            assert(final(self)@ =~= old(self)@.with_info(iv));
        } else {
            self.warnings.push(issue);
            assert(final(self)@.warnings =~= old(self)@.warnings.push(iv));
            assert(final(self)@ =~= old(self)@.with_warning(iv));
        }
    }
}


impl<'a> ParseCtx<'a> {
    /// Parses a nested [`EnvStructure`] in a context of its own, and merges
    /// what it reported into this one.
    pub fn parse_nested<T: EnvStructure>(&mut self) -> (r: Option<T>)
        ensures
            nested_report(old(self).env(), old(self)@, final(self)@, r),
            old(self)@.is_prefix_of(final(self)@),
            final(self).env() == old(self).env(),
            forall|key: Seq<char>| final(self).spec_var(key) == old(self).spec_var(key),
    {
        proof {
            lemma_report_grows(self@);
        }
        let mut child = Self::new(self.env);
        let nested = T::parse(&mut child);
        let ghost c = child@;
        self.merge(child);
        assert(final(self)@ == old(self)@.concat(c));
        assert(nested is None ==> c.errs.len() > 0);
        nested
    }

    /// Parses a nested [`EnvStructure`] if the condition variable `cond` is
    /// `true`; a missing or invalid condition is taken as `false`.
    pub fn parse_nested_if<T: EnvStructure>(&mut self, cond: &'a str) -> (r: Option<T>)
        ensures
            old(self).spec_parse::<bool>(cond@) == Ok::<bool, IssueKindView>(true) ==> nested_report(
                old(self).env(),
                old(self)@,
                final(self)@,
                r,
            ),
            old(self).spec_parse::<bool>(cond@) != Ok::<bool, IssueKindView>(true) ==> r is None
                && final(self)@ == condition_report(old(self)@, cond@, old(self).spec_parse::<bool>(cond@)),
            old(self).spec_parse::<bool>(cond@) != Ok::<bool, IssueKindView>(true) ==> final(self)@.errs
                == old(self)@.errs,
            old(self)@.is_prefix_of(final(self)@),
            final(self).env() == old(self).env(),
            forall|key: Seq<char>| final(self).spec_var(key) == old(self).spec_var(key),
    {
        proof {
            lemma_report_grows(self@);
        }
        let default_false = || -> (b: bool)
            ensures
                !b,
        { false };
        let cond_val: bool = self.parse_with_default(cond, default_false);
        proof {
            reveal_strlit("false");
        }
        if cond_val {
            let ghost mid = self@;
            assert(old(self).spec_parse::<bool>(cond@) == Ok::<bool, IssueKindView>(true));
            assert(mid == old(self)@);
            let mut child = Self::new(self.env);
            let nested = T::parse(&mut child);
            let ghost c = child@;
            self.merge(child);
            assert(self@ == mid.concat(c));
            assert(nested is None ==> c.errs.len() > 0);
            assert(nested_report(old(self).env(), mid, self@, nested));
            return nested;
        }
        None
    }

    /// Parses an environment value; a missing or invalid value is no error if
    /// it is optional.
    pub fn parse<T: FromEnv>(&mut self, key: &'a str, optional: bool) -> (r: Option<T>)
        ensures
            match old(self).spec_parse::<T>(key@) {
                Ok(v) => r matches Some(x) && x@ == v,
                Err(_) => r is None,
            },
            final(self)@ == parse_report(old(self)@, key@, optional, old(self).spec_parse::<T>(key@)),
            old(self)@.is_prefix_of(final(self)@),
            final(self).env() == old(self).env(),
            forall|k: Seq<char>| final(self).spec_var(k) == old(self).spec_var(k),
    {
        proof {
            lemma_report_grows(self@);
        }
        match FromEnvCtx::new(self.env, key, false).parse::<T>() {
            Ok(val) => Some(val),
            Err(issue_kind) => {
                if optional {
                    return None;
                }
                self.push_error(ParseIssue::new(key, issue_kind));
                None
            },
        }
    }

    /// Parses an environment value and ensures it is valid; a missing,
    /// invalid or refused value is no error if it is optional.
    pub fn parse_validated<T: FromEnv, V, E: EnvDisplay>(
        &mut self,
        key: &'a str,
        validate: V,
        optional: bool,
    ) -> (r: Option<T>) where V: Fn(&T) -> Result<(), E>
        requires
            forall|t: &T| validate.requires((t,)),
        ensures
            match old(self).spec_parse::<T>(key@) {
                Ok(v) => exists|t: T, vr: Result<(), E>|
                    t@ == v && #[trigger] validate.ensures((&t,), vr) && match vr {
                        Ok(_) => r == Some(t) && final(self)@ == old(self)@,
                        Err(m) => r is None && final(self)@ == parse_report(
                            old(self)@,
                            key@,
                            optional,
                            Err::<T::V, IssueKindView>(
                                IssueKindView::InvalidValue {
                                    value: t.spec_text(),
                                    msg: m.spec_text(),
                                },
                            ),
                        ),
                    },
                Err(k) => r is None && final(self)@ == parse_report(
                    old(self)@,
                    key@,
                    optional,
                    Err::<T::V, IssueKindView>(k),
                ),
            },
            old(self)@.is_prefix_of(final(self)@),
            final(self).env() == old(self).env(),
            forall|k: Seq<char>| final(self).spec_var(k) == old(self).spec_var(k),
    {
        proof {
            lemma_report_grows(self@);
        }
        match self.parse::<T>(key, optional) {
            Some(val) => match validate(&val) {
                Ok(_) => Some(val),
                Err(msg) => {
                    if optional {
                        return None;
                    }
                    let issue = ParseIssue::invalid_value(key, val.display(), msg.display());
                    self.push_error(issue);
                    None
                },
            },
            None => None,
        }
    }

    /// Parses an environment value and inserts a default one if it is missing or invalid.
    pub fn parse_with_default<T: FromEnv, D>(&mut self, key: &'a str, default: D) -> (r: T) where
        D: FnOnce() -> T,

        requires
            default.requires(()),
        ensures
            match old(self).spec_parse::<T>(key@) {
                Ok(v) => r@ == v && final(self)@ == old(self)@,
                Err(k) => default.ensures((), r) && final(self)@ == old(self)@.with_recovered(
                    IssueView { var: key@, kind: k, recovery: Some(r.spec_text()) },
                ),
            },
            old(self)@.is_prefix_of(final(self)@),
            final(self).env() == old(self).env(),
            forall|k: Seq<char>| final(self).spec_var(k) == old(self).spec_var(k),
    {
        proof {
            lemma_report_grows(self@);
        }
        match FromEnvCtx::new(self.env, key, false).parse::<T>() {
            Ok(val) => val,
            Err(issue_kind) => {
                let default = default();
                let issue = ParseIssue::new(key, issue_kind).with_recovery(default.display());
                self.push_recovered(issue);
                default
            },
        }
    }

    /// Parses and validates an environment value and inserts a default if it
    /// is missing or invalid.
    pub fn parse_validated_with_default<T, V, E, D>(
        &mut self,
        key: &'a str,
        validate: V,
        default: D,
    ) -> (r: T) where T: FromEnv, V: Fn(&T) -> Result<(), E>, E: EnvDisplay, D: FnOnce() -> T
        requires
            forall|t: &T| validate.requires((t,)),
            default.requires(()),
        ensures
            match old(self).spec_parse::<T>(key@) {
                Ok(v) => exists|t: T, vr: Result<(), E>|
                    t@ == v && #[trigger] validate.ensures((&t,), vr) && match vr {
                        Ok(_) => r == t && final(self)@ == old(self)@,
                        Err(m) => default.ensures((), r) && exists|dr: Result<(), E>|
                            #[trigger] validate.ensures((&r,), dr) && final(self)@
                                == default_report(
                                old(self)@,
                                IssueView {
                                    var: key@,
                                    kind: IssueKindView::InvalidValue {
                                        value: t.spec_text(),
                                        msg: m.spec_text(),
                                    },
                                    recovery: None,
                                },
                                r.spec_text(),
                                refusal(dr),
                            ),
                    },
                Err(k) => default.ensures((), r) && exists|dr: Result<(), E>|
                    #[trigger] validate.ensures((&r,), dr) && final(self)@ == default_report(
                        old(self)@,
                        IssueView { var: key@, kind: k, recovery: None },
                        r.spec_text(),
                        refusal(dr),
                    ),
            },
            old(self)@.is_prefix_of(final(self)@),
            final(self).env() == old(self).env(),
            forall|k: Seq<char>| final(self).spec_var(k) == old(self).spec_var(k),
    {
        proof {
            lemma_report_grows(self@);
        }
        match FromEnvCtx::new(self.env, key, false).parse::<T>() {
            Ok(val) => match validate(&val) {
                Ok(_) => val,
                Err(msg) => {
                    let issue = ParseIssue::invalid_value(key, val.display(), msg.display());
                    self.report_and_default(issue, validate, default)
                },
            },
            Err(issue_kind) => {
                self.report_and_default(ParseIssue::new(key, issue_kind), validate, default)
            },
        }
    }

    /// Properly reports and sets a default value of a validated environment var.
    pub fn report_and_default<T, V, E, D>(&mut self, issue: ParseIssue<'a>, validate: V, default: D) -> (r:
        T) where T: FromEnv, V: Fn(&T) -> Result<(), E>, E: EnvDisplay, D: FnOnce() -> T
        requires
            forall|t: &T| validate.requires((t,)),
            default.requires(()),
        ensures
            default.ensures((), r),
            exists|dr: Result<(), E>|
                #[trigger] validate.ensures((&r,), dr) && final(self)@ == default_report(
                    old(self)@,
                    issue@,
                    r.spec_text(),
                    refusal(dr),
                ),
            old(self)@.is_prefix_of(final(self)@),
            final(self).env() == old(self).env(),
            forall|k: Seq<char>| final(self).spec_var(k) == old(self).spec_var(k),
    {
        proof {
            lemma_report_grows(self@);
        }
        let default = default();
        let checked = validate(&default);
        match checked {
            Err(msg) => {
                let mut recovery = String::from_str("default value '");
                let shown = default.display();
                recovery.append(shown.as_str());
                recovery.append("' is invalid: ");
                let why = msg.display();
                recovery.append(why.as_str());
                self.push_error(issue.with_recovery(recovery));
            },
            Ok(_) => {
                let mut recovery = String::from_str("defaulting to '");
                let shown = default.display();
                recovery.append(shown.as_str());
                self.push_recovered(issue.with_recovery(recovery));
            },
        }
        default
    }
}


impl<'a> ParseCtx<'a> {
    /// What parsing `key` as the discriminant of an enum gives.
    pub open spec fn spec_discriminant_of(
        &self,
        key: Seq<char>,
        values: Seq<Seq<char>>,
        enum_name: Seq<char>,
    ) -> Result<int, IssueKindView> {
        discriminant_outcome(EnvInput { secret: false, input: self.spec_var(key) }, values, enum_name)
    }

    /// Parses the variable that selects a variant of the enum `enum_name`:
    /// the position of its value among `values`.
    pub fn parse_discriminant(&mut self, key: &'a str, values: &[&str], enum_name: &str, optional: bool) -> (r:
        Option<usize>)
        ensures
            match old(self).spec_discriminant_of(key@, texts(values@), enum_name@) {
                Ok(j) => r matches Some(i) && i as int == j,
                Err(_) => r is None,
            },
            final(self)@ == parse_report(
                old(self)@,
                key@,
                optional,
                old(self).spec_discriminant_of(key@, texts(values@), enum_name@),
            ),
            old(self)@.is_prefix_of(final(self)@),
            final(self).env() == old(self).env(),
            forall|k: Seq<char>| final(self).spec_var(k) == old(self).spec_var(k),
    {
        proof {
            lemma_report_grows(self@);
        }
        match FromEnvCtx::new(self.env, key, false).parse_discriminant(values, enum_name) {
            Ok(j) => Some(j),
            Err(issue_kind) => {
                if optional {
                    return None;
                }
                self.push_error(ParseIssue::new(key, issue_kind));
                None
            },
        }
    }

    /// Parses the variable that selects a variant of the enum `enum_name`,
    /// taking the variant at `default` if it is missing or invalid.
    pub fn parse_discriminant_with_default(
        &mut self,
        key: &'a str,
        values: &[&str],
        enum_name: &str,
        default: usize,
    ) -> (r: usize)
        requires
            default < values@.len(),
        ensures
            match old(self).spec_discriminant_of(key@, texts(values@), enum_name@) {
                Ok(j) => r as int == j && final(self)@ == old(self)@,
                Err(k) => r == default && final(self)@ == old(self)@.with_recovered(
                    IssueView { var: key@, kind: k, recovery: Some(values@[default as int]@) },
                ),
            },
            old(self)@.is_prefix_of(final(self)@),
            final(self).env() == old(self).env(),
            forall|k: Seq<char>| final(self).spec_var(k) == old(self).spec_var(k),
    {
        proof {
            lemma_report_grows(self@);
        }
        match FromEnvCtx::new(self.env, key, false).parse_discriminant(values, enum_name) {
            Ok(j) => j,
            Err(issue_kind) => {
                let issue = ParseIssue::new(key, issue_kind).with_recovery(String::from_str(values[default]));
                self.push_recovered(issue);
                default
            },
        }
    }
}

} // verus!
