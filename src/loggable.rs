use vstd::prelude::*;
use vstd::string::StringExecFns;

verus! {

/// A value that can render itself, once, as text.
pub trait Loggable: Sized {
    /// The text that this value renders to.
    spec fn rendered(&self) -> Seq<char>;

    /// Consumes the value and appends its text to `out`.
    fn log_to(self, out: &mut String)
        ensures
            final(out)@ == old(out)@ + self.rendered(),
    ;

    /// Moves the value into a uniform container, without rendering it.
    fn into_erased(self) -> (r: ErasedLoggable)
        ensures
            r@ == self.rendered(),
    ;
}

impl Loggable for &'static str {
    open spec fn rendered(&self) -> Seq<char> {
        (*self)@
    }

    fn log_to(self, out: &mut String) {
        out.append(self);
    }

    fn into_erased(self) -> (r: ErasedLoggable) {
        ErasedLoggable::Borrowed(self)
    }
}

impl Loggable for String {
    open spec fn rendered(&self) -> Seq<char> {
        self@
    }

    fn log_to(self, out: &mut String) {
        out.append(self.as_str());
    }

    fn into_erased(self) -> (r: ErasedLoggable) {
        ErasedLoggable::Owned(self)
    }
}

/// A payload of any `Loggable` type, held uniformly so that it can travel to the
/// worker: a text with static lifetime is kept by reference, an owned one is
/// moved in. It is rendered, once, by `log_to`.
pub enum ErasedLoggable {
    Borrowed(&'static str),
    Owned(String),
}

impl View for ErasedLoggable {
    type V = Seq<char>;

    open spec fn view(&self) -> Seq<char> {
        match self {
            ErasedLoggable::Borrowed(s) => (*s)@,
            ErasedLoggable::Owned(s) => s@,
        }
    }
}

impl ErasedLoggable {
    /// Takes `value` into the container; its text is what `value` renders to.
    pub fn new<L: Loggable>(value: L) -> (r: Self)
        ensures
            r@ == value.rendered(),
    {
        value.into_erased()
    }
}

impl Loggable for ErasedLoggable {
    open spec fn rendered(&self) -> Seq<char> {
        self@
    }

    fn log_to(self, out: &mut String) {
        match self {
            ErasedLoggable::Borrowed(s) => out.append(s),
            ErasedLoggable::Owned(s) => out.append(s.as_str()),
        }
    }

    fn into_erased(self) -> (r: ErasedLoggable) {
        self
    }
}

} // verus!
