//! Parse failures: an ordered stack of (remaining input, kind) entries, the
//! innermost failure first, each enclosing field pushing its own context on
//! top, so a caller can report which field was being decoded when the parse
//! stopped and can fall back to showing the raw line.
use vstd::prelude::*;

verus! {

/// What kind of expectation failed at one level of the parse.
#[derive(Debug, Clone, Copy, PartialEq, Eq)]
pub enum ErrorKind {
    /// A literal was expected and not found.
    Tag,
    /// At least one character of a name-like class was expected.
    AlphaNumeric,
    /// At least one decimal digit was expected.
    Digit,
    /// At least one letter was expected.
    Alpha,
    /// A character from a fixed set was expected.
    OneOf,
    /// A repetition needed at least one element.
    Many1,
    /// A scanned value could not be converted (for example, it overflows).
    MapRes,
    /// A fixed number of characters was expected.
    Count,
    /// The name of the field that was being decoded.
    Context(&'static str),
}

/// The spec-level value of an [`ErrorKind`], with the context name as a
/// character sequence.
pub ghost enum ErrorKindV {
    Tag,
    AlphaNumeric,
    Digit,
    Alpha,
    OneOf,
    Many1,
    MapRes,
    Count,
    Context(Seq<char>),
}

pub open spec fn kind_view(k: ErrorKind) -> ErrorKindV {
    match k {
        ErrorKind::Tag => ErrorKindV::Tag,
        ErrorKind::AlphaNumeric => ErrorKindV::AlphaNumeric,
        ErrorKind::Digit => ErrorKindV::Digit,
        ErrorKind::Alpha => ErrorKindV::Alpha,
        ErrorKind::OneOf => ErrorKindV::OneOf,
        ErrorKind::Many1 => ErrorKindV::Many1,
        ErrorKind::MapRes => ErrorKindV::MapRes,
        ErrorKind::Count => ErrorKindV::Count,
        ErrorKind::Context(name) => ErrorKindV::Context(name@),
    }
}

/// A failed parse: the stack of failure sites, innermost first.  Each entry
/// holds the input that remained at that level and what was expected of it.
#[derive(Debug, PartialEq, Eq)]
pub struct ParseError<'a> {
    pub errors: Vec<(&'a str, ErrorKind)>,
}

impl<'a> View for ParseError<'a> {
    type V = Seq<(Seq<char>, ErrorKindV)>;

    open spec fn view(&self) -> Seq<(Seq<char>, ErrorKindV)> {
        self.errors@.map_values(|e: (&'a str, ErrorKind)| (e.0@, kind_view(e.1)))
    }
}

impl<'a> ParseError<'a> {
    /// A single innermost failure at `input`.
    pub fn leaf(input: &'a str, kind: ErrorKind) -> (r: ParseError<'a>)
        ensures
            r@ =~= seq![(input@, kind_view(kind))],
    {
        let mut errors: Vec<(&'a str, ErrorKind)> = Vec::new();
        errors.push((input, kind));
        ParseError { errors }
    }

    /// The same failure with one more entry on top of the stack.
    pub fn push(self, input: &'a str, kind: ErrorKind) -> (r: ParseError<'a>)
        ensures
            r@ =~= self@.push((input@, kind_view(kind))),
    {
        let mut errors = self.errors;
        errors.push((input, kind));
        ParseError { errors }
    }

    /// The same failure wrapped in the context of the field named `name`,
    /// which was being decoded from `input`.
    pub fn context(self, input: &'a str, name: &'static str) -> (r: ParseError<'a>)
        ensures
            r@ =~= self@.push((input@, ErrorKindV::Context(name@))),
    {
        self.push(input, ErrorKind::Context(name))
    }

    /// Whether some level of this failure is the context of the field named
    /// `name`: the parse stopped while that field was being decoded.
    pub open spec fn spec_mentions(self, name: Seq<char>) -> bool {
        exists|i: int| 0 <= i < self@.len() && self@[i].1 == ErrorKindV::Context(name)
    }

    /// Whether the parse stopped while the field named `name` was being
    /// decoded.
    pub fn mentions(&self, name: &str) -> (r: bool)
        ensures
            r == self.spec_mentions(name@),
    {
        let n = self.errors.len();
        let mut i: usize = 0;
        while i < n
            invariant
                0 <= i <= n,
                n == self.errors.len(),
                forall|j: int| 0 <= j < i ==> self@[j].1 != ErrorKindV::Context(name@),
            decreases n - i,
        {
            let (_, kind) = self.errors[i];
            if let ErrorKind::Context(c) = kind {
                if str_eq(c, name) {
                    assert(self@[i as int].1 == ErrorKindV::Context(name@));
                    return true;
                }
            }
            i += 1;
        }
        false
    }
}

/// Character-for-character equality of two string slices.
pub fn str_eq(a: &str, b: &str) -> (r: bool)
    ensures
        r == (a@ == b@),
{
    let alen = a.unicode_len();
    let blen = b.unicode_len();
    if alen != blen {
        assert(a@ != b@);
        return false;
    }
    let mut i: usize = 0;
    while i < alen
        invariant
            0 <= i <= alen,
            alen == a@.len(),
            alen == b@.len(),
            forall|j: int| 0 <= j < i ==> a@[j] == b@[j],
        decreases alen - i,
    {
        if a.get_char(i) != b.get_char(i) {
            assert(a@ != b@);
            return false;
        }
        i += 1;
    }
    assert(a@ =~= b@);
    true
}

} // verus!
