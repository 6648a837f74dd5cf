use vstd::prelude::*;
use vstd::string::*;

verus! {

/// A value that is not valid unicode: its bytes, and the text by which it is
/// shown (the `Debug` rendering of the operating-system string).
pub struct RawOsString {
    pub bytes: Vec<u8>,
    pub debug: String,
}

pub struct OsStringView {
    pub bytes: Seq<u8>,
    pub debug: Seq<char>,
}

impl View for RawOsString {
    type V = OsStringView;

    open spec fn view(&self) -> OsStringView {
        OsStringView { bytes: self.bytes@, debug: self.debug@ }
    }
}

impl RawOsString {
    pub fn duplicate(&self) -> (r: Self)
        ensures
            r@ == self@,
    {
        let mut bytes: Vec<u8> = Vec::new();
        let n = self.bytes.len();
        for i in 0..n
            invariant
                n == self.bytes@.len(),
                bytes@ == self.bytes@.take(i as int),
        {
            bytes.push(self.bytes[i]);
            assert(self.bytes@.take(i + 1) == self.bytes@.take(i as int).push(self.bytes@[i as int]));
        }
        assert(self.bytes@.take(n as int) == self.bytes@);
        RawOsString { bytes, debug: self.debug.clone() }
    }
}

/// The raw value of an environment variable.
pub enum RawInput {
    String(String),
    OsString(RawOsString),
}

pub enum RawInputView {
    String(Seq<char>),
    OsString(OsStringView),
}

impl View for RawInput {
    type V = RawInputView;

    open spec fn view(&self) -> RawInputView {
        match self {
            RawInput::String(s) => RawInputView::String(s@),
            RawInput::OsString(o) => RawInputView::OsString(o@),
        }
    }
}

impl RawInput {
    pub fn duplicate(&self) -> (r: Self)
        ensures
            r@ == self@,
    {
        match self {
            RawInput::String(s) => RawInput::String(s.clone()),
            RawInput::OsString(o) => RawInput::OsString(o.duplicate()),
        }
    }
}

/// Why a variable could not be read as a unicode string.
pub enum VarError {
    NotPresent,
    NotUnicode(RawOsString),
}

pub enum VarErrorView {
    NotPresent,
    NotUnicode(OsStringView),
}

impl View for VarError {
    type V = VarErrorView;

    open spec fn view(&self) -> VarErrorView {
        match self {
            VarError::NotPresent => VarErrorView::NotPresent,
            VarError::NotUnicode(o) => VarErrorView::NotUnicode(o@),
        }
    }
}

/// The value of the variable named `key` among `entries`: a later entry
/// overrides an earlier one.
pub open spec fn lookup(entries: Seq<(Seq<char>, RawInputView)>, key: Seq<char>) -> Option<
    RawInputView,
>
    decreases entries.len(),
{
    if entries.len() == 0 {
        None
    } else if entries.last().0 == key {
        Some(entries.last().1)
    } else {
        lookup(entries.drop_last(), key)
    }
}

/// What reading a variable gives, from its raw value.
pub open spec fn var_result(v: Option<RawInputView>) -> Result<Seq<char>, VarErrorView> {
    match v {
        None => Err(VarErrorView::NotPresent),
        Some(RawInputView::String(s)) => Ok(s),
        Some(RawInputView::OsString(o)) => Err(VarErrorView::NotUnicode(o)),
    }
}

/// A snapshot of the environment variables that are read.
pub struct Environment {
    vars: Vec<(String, RawInput)>,
}

impl View for Environment {
    type V = Seq<(Seq<char>, RawInputView)>;

    closed spec fn view(&self) -> Seq<(Seq<char>, RawInputView)> {
        self.vars@.map_values(|e: (String, RawInput)| (e.0@, e.1@))
    }
}

impl Environment {
    /// The raw value of `key`, if it is set.
    pub open spec fn get(&self, key: Seq<char>) -> Option<RawInputView> {
        lookup(self@, key)
    }

    /// What reading `key` gives.
    pub open spec fn spec_var(&self, key: Seq<char>) -> Result<Seq<char>, VarErrorView> {
        var_result(self.get(key))
    }

    /// An environment with no variables set.
    pub fn new() -> (r: Self)
        ensures
            r@ == Seq::<(Seq<char>, RawInputView)>::empty(),
    {
        let r = Environment { vars: Vec::new() };
        assert(r@ =~= Seq::<(Seq<char>, RawInputView)>::empty());
        r
    }

    /// Sets `key` to `value`, overriding any earlier value.
    pub fn set(&mut self, key: String, value: RawInput)
        ensures
            final(self)@ == old(self)@.push((key@, value@)),
    {
        let ghost k = key@;
        let ghost v = value@;
        self.vars.push((key, value));
        assert(self@ =~= old(self)@.push((k, v)));
    }

    /// Sets `key` to the unicode string `value`.
    pub fn set_str(&mut self, key: &str, value: &str)
        ensures
            final(self)@ == old(self)@.push((key@, RawInputView::String(value@))),
    {
        self.set(String::from_str(key), RawInput::String(String::from_str(value)));
    }

    /// Reads `key`: its value if it is set to a unicode string.
    pub fn var(&self, key: &str) -> (r: Result<String, VarError>)
        ensures
            match r {
                Ok(s) => self.spec_var(key@) == Ok::<Seq<char>, VarErrorView>(s@),
                Err(e) => self.spec_var(key@) == Err::<Seq<char>, VarErrorView>(e@),
            },
    {
        let wanted = String::from_str(key);
        let mut i = self.vars.len();
        assert(self@.take(i as int) =~= self@);
        while i > 0
            invariant
                i <= self.vars@.len(),
                self@.len() == self.vars@.len(),
                wanted@ == key@,
                lookup(self@, key@) == lookup(self@.take(i as int), key@),
            decreases i,
        {
            let ghost pre = self@.take(i as int);
            assert(pre.drop_last() == self@.take(i - 1));
            assert(pre.last() == (self.vars@[i - 1].0@, self.vars@[i - 1].1@));
            if self.vars[i - 1].0 == wanted {
                return match &self.vars[i - 1].1 {
                    RawInput::String(s) => Ok(s.clone()),
                    RawInput::OsString(o) => Err(VarError::NotUnicode(o.duplicate())),
                };
            }
            i = i - 1;
        }
        Err(VarError::NotPresent)
    }
}

} // verus!
