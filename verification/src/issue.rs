use crate::env::{VarError, VarErrorView};
use crate::from_env::EnvDisplay;
use vstd::prelude::*;
use vstd::string::*;

verus! {

/// What an issue kind says, over mathematical strings.
pub enum IssueKindView {
    NotFound,
    InvalidValue { value: Seq<char>, msg: Seq<char> },
}

/// The issue with the environment variable.
pub enum ParseIssueKind {
    NotFound,
    InvalidValue { value: String, msg: String },
}

impl View for ParseIssueKind {
    type V = IssueKindView;

    open spec fn view(&self) -> IssueKindView {
        match self {
            ParseIssueKind::NotFound => IssueKindView::NotFound,
            ParseIssueKind::InvalidValue { value, msg } => IssueKindView::InvalidValue {
                value: value@,
                msg: msg@,
            },
        }
    }
}

impl ParseIssueKind {
    /// An invalid-value issue, with the value and the message rendered as text.
    pub fn invalid_value<V: EnvDisplay, M: EnvDisplay>(value: V, msg: M) -> (r: Self)
        ensures
            r@ == (IssueKindView::InvalidValue { value: value.spec_text(), msg: msg.spec_text() }),
    {
        ParseIssueKind::InvalidValue { value: value.display(), msg: msg.display() }
    }

    /// The issue with a variable that could not be read: missing, or not unicode.
    pub fn from_var_error(err: VarError) -> (r: Self)
        ensures
            r@ == match err@ {
                VarErrorView::NotPresent => IssueKindView::NotFound,
                VarErrorView::NotUnicode(o) => IssueKindView::InvalidValue {
                    value: o.debug,
                    msg: "not valid unicode"@,
                },
            },
    {
        match err {
            VarError::NotPresent => ParseIssueKind::NotFound,
            VarError::NotUnicode(x) => Self::invalid_value(x.debug, "not valid unicode"),
        }
    }

    /// Returns `true` if the variable was missing.
    pub fn is_not_found(&self) -> (r: bool)
        ensures
            r == (self@ is NotFound),
    {
        match self {
            ParseIssueKind::NotFound => true,
            ParseIssueKind::InvalidValue { .. } => false,
        }
    }
}

/// What an issue says, over mathematical strings.
pub struct IssueView {
    pub var: Seq<char>,
    pub kind: IssueKindView,
    pub recovery: Option<Seq<char>>,
}

/// An issue with an environment value.
pub struct ParseIssue<'a> {
    /// The variable key.
    pub var: &'a str,
    /// The kind of issue.
    pub kind: ParseIssueKind,
    /// How the issue was attempted (successfully or not) to be resolved.
    pub recovery: Option<String>,
}

impl<'a> View for ParseIssue<'a> {
    type V = IssueView;

    open spec fn view(&self) -> IssueView {
        IssueView {
            var: self.var@,
            kind: self.kind@,
            recovery: match self.recovery {
                Some(r) => Some(r@),
                None => None,
            },
        }
    }
}

/// The text by which an issue is reported.
pub open spec fn issue_text(i: IssueView) -> Seq<char> {
    let base = match i.kind {
        IssueKindView::NotFound => i.var + " not found in environment"@,
        IssueKindView::InvalidValue { value, msg } => i.var + "="@ + value + "; "@ + msg,
    };
    match i.recovery {
        Some(r) => base + ": "@ + r,
        None => base,
    }
}

impl<'a> ParseIssue<'a> {
    pub fn new(var: &'a str, kind: ParseIssueKind) -> (r: Self)
        ensures
            r@ == (IssueView { var: var@, kind: kind@, recovery: None }),
    {
        ParseIssue { var, kind, recovery: None }
    }

    pub fn invalid_value(var: &'a str, val: String, msg: String) -> (r: Self)
        ensures
            r@ == (IssueView {
                var: var@,
                kind: IssueKindView::InvalidValue { value: val@, msg: msg@ },
                recovery: None,
            }),
    {
        ParseIssue { var, kind: ParseIssueKind::InvalidValue { value: val, msg }, recovery: None }
    }

    pub fn with_recovery(self, recovery: String) -> (r: Self)
        ensures
            r@ == (IssueView { recovery: Some(recovery@), ..self@ }),
    {
        let mut s = self;
        s.recovery = Some(recovery);
        s
    }

    /// Renders the issue as the line that reports it.
    pub fn to_text(&self) -> (r: String)
        ensures
            r@ == issue_text(self@),
    {
        let mut s = String::from_str(self.var);
        match &self.kind {
            ParseIssueKind::NotFound => {
                s.append(" not found in environment");
            },
            ParseIssueKind::InvalidValue { value, msg } => {
                s.append("=");
                s.append(value.as_str());
                s.append("; ");
                s.append(msg.as_str());
            },
        }
        match &self.recovery {
            Some(rec) => {
                s.append(": ");
                s.append(rec.as_str());
            },
            None => {},
        }
        s
    }
}

} // verus!
