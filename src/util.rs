use std::sync::Arc;
use vstd::prelude::*;
use vstd::string::StringExecFns;

verus! {

/// A string that either borrows a `&'static str` or shares an owned `String`.
/// Both are handy at times; build one with `str_ref` or `string_ref`. Two
/// string refs are equal when they hold the same characters, whichever way
/// they hold them.
#[derive(Debug, Clone)]
pub enum StringRef {
    Static(&'static str),
    NonStatic(Arc<String>),
}

impl View for StringRef {
    type V = Seq<char>;

    open spec fn view(&self) -> Seq<char> {
        match self {
            StringRef::Static(s) => s@,
            StringRef::NonStatic(owned) => owned@,
        }
    }
}

impl StringRef {
    /// Borrows the characters of this string.
    pub fn to_str(&self) -> (r: &str)
        ensures
            r@ == self@,
    {
        match self {
            StringRef::Static(static_ref) => static_ref,
            StringRef::NonStatic(owned) => owned.as_str(),
        }
    }
}

impl StringRef {
    /// A new string that holds the characters of this one followed by those
    /// of `other`.
    pub fn concat(&self, other: &StringRef) -> (r: StringRef)
        ensures
            r@ == self@ + other@,
    {
        string_ref(self.to_str().to_owned().concat(other.to_str()))
    }
}

/// Whether two strings hold the same characters.
pub(crate) fn str_eq(a: &str, b: &str) -> (r: bool)
    ensures
        r == (a@ == b@),
{
    a.to_owned() == b.to_owned()
}

impl PartialEq for StringRef {
    fn eq(&self, other: &StringRef) -> (r: bool) {
        str_eq(self.to_str(), other.to_str())
    }
}

impl vstd::std_specs::cmp::PartialEqSpecImpl for StringRef {
    open spec fn obeys_eq_spec() -> bool {
        true
    }

    open spec fn eq_spec(&self, other: &StringRef) -> bool {
        self@ == other@
    }
}

impl Eq for StringRef {

}

impl PartialEq<&str> for StringRef {
    fn eq(&self, other: &&str) -> (r: bool) {
        str_eq(self.to_str(), *other)
    }
}

impl vstd::std_specs::cmp::PartialEqSpecImpl<&str> for StringRef {
    open spec fn obeys_eq_spec() -> bool {
        true
    }

    open spec fn eq_spec(&self, other: &&str) -> bool {
        self@ == (*other)@
    }
}

/// Creates a `StringRef` that borrows the given static string.
pub fn str_ref(string: &'static str) -> (r: StringRef)
    ensures
        r@ == string@,
{
    StringRef::Static(string)
}

/// Creates a `StringRef` that owns the given string.
pub fn string_ref(string: String) -> (r: StringRef)
    ensures
        r@ == string@,
{
    StringRef::NonStatic(Arc::new(string))
}

} // verus!
