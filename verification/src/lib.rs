//! A reference-counted, immutable string with value semantics.
//!
//! `RcString` is a handle to a shared, immutable text buffer. Copying a
//! handle is an atomic increment; the bytes are never duplicated. Every
//! observable operation (equality, ordering, conversion, serialization)
//! is a function of the referenced text alone, never of buffer identity.

use vstd::prelude::*;

pub mod codec;
pub mod laws;
pub mod order;

verus! {

use vstd::string::StringExecFns;

/// A handle to a shared, immutable text buffer.
///
/// The view of an `RcString` is the character sequence of the referenced
/// text; two handles are equal exactly when their views are equal.
#[derive(Debug, Hash, Ord)]
pub struct RcString {
    rc_string: std::sync::Arc<String>,
}

impl View for RcString {
    type V = Seq<char>;

    closed spec fn view(&self) -> Seq<char> {
        self.rc_string@
    }
}

impl RcString {
    /// Constructs a fresh buffer holding a copy of the given text.
    pub fn new(s: &str) -> (r: RcString)
        ensures
            r@ == s@,
    {
        RcString { rc_string: std::sync::Arc::new(s.to_owned()) }
    }

    /// Constructs a fresh buffer holding a copy of the given text.
    pub fn from(s: &str) -> (r: RcString)
        ensures
            r@ == s@,
    {
        RcString { rc_string: std::sync::Arc::new(s.to_owned()) }
    }

    /// Borrows the referenced text.
    pub fn as_str(&self) -> (r: &str)
        ensures
            r@ == self@,
    {
        self.rc_string.as_str()
    }

    /// The number of live handles referencing the same buffer as `self`,
    /// `self` included. A diagnostic accessor: under concurrent copying
    /// and releasing the count is a snapshot, so nothing more than its
    /// lower bound is promised.
    ///
    /// Relies on `Arc::strong_count`: the number of strong handles to the
    /// shared allocation.
    #[verifier::external_body]
    pub fn ref_count(&self) -> (r: usize)
        ensures
            r >= 1,
    {
        std::sync::Arc::strong_count(&self.rc_string)
    }

    /// Copies the referenced text into an independently owned string.
    pub fn to_string(&self) -> (r: String)
        ensures
            r@ == self@,
    {
        self.rc_string.as_str().to_owned()
    }

    /// Appends the given text to a copy of the referenced text, yielding
    /// a new owned string. The shared buffer is unchanged.
    pub fn concat(&self, other: &str) -> (r: String)
        ensures
            r@ == self@ + other@,
    {
        let owned: String = self.rc_string.as_str().to_owned();
        owned.concat(other)
    }
}

/// Relies on `Arc::clone`: the returned handle references the same
/// allocation as the argument, so it carries the same inner value.
#[verifier::external_body]
fn arc_clone(a: &std::sync::Arc<String>) -> (r: std::sync::Arc<String>)
    ensures
        r == a,
{
    std::sync::Arc::clone(a)
}

impl Clone for RcString {
    /// Copying a handle shares the buffer: no text is duplicated, and the
    /// copy references the same content.
    fn clone(&self) -> (r: Self)
        ensures
            r@ == self@,
    {
        RcString { rc_string: arc_clone(&self.rc_string) }
    }
}

impl PartialEq for RcString {
    /// Handles are equal exactly when their referenced texts are equal,
    /// whether or not they share a buffer.
    fn eq(&self, other: &Self) -> (r: bool)
        ensures
            r == (self@ == other@),
    {
        crate::order::str_eq(self.as_str(), other.as_str())
    }
}

impl vstd::std_specs::cmp::PartialEqSpecImpl for RcString {
    open spec fn obeys_eq_spec() -> bool {
        true
    }

    open spec fn eq_spec(&self, other: &Self) -> bool {
        self@ == other@
    }
}

impl Eq for RcString {}

impl PartialEq<str> for RcString {
    fn eq(&self, other: &str) -> (r: bool)
        ensures
            r == (self@ == other@),
    {
        crate::order::str_eq(self.as_str(), other)
    }
}

impl vstd::std_specs::cmp::PartialEqSpecImpl<str> for RcString {
    open spec fn obeys_eq_spec() -> bool {
        true
    }

    open spec fn eq_spec(&self, other: &str) -> bool {
        self@ == other@
    }
}

impl<'a> PartialEq<&'a str> for RcString {
    fn eq(&self, other: &&'a str) -> (r: bool)
        ensures
            r == (self@ == (*other)@),
    {
        crate::order::str_eq(self.as_str(), *other)
    }
}

impl<'a> vstd::std_specs::cmp::PartialEqSpecImpl<&'a str> for RcString {
    open spec fn obeys_eq_spec() -> bool {
        true
    }

    open spec fn eq_spec(&self, other: &&'a str) -> bool {
        self@ == (*other)@
    }
}

impl PartialEq<String> for RcString {
    fn eq(&self, other: &String) -> (r: bool)
        ensures
            r == (self@ == other@),
    {
        crate::order::str_eq(self.as_str(), other.as_str())
    }
}

impl vstd::std_specs::cmp::PartialEqSpecImpl<String> for RcString {
    open spec fn obeys_eq_spec() -> bool {
        true
    }

    open spec fn eq_spec(&self, other: &String) -> bool {
        self@ == other@
    }
}

impl PartialEq<RcString> for String {
    fn eq(&self, other: &RcString) -> (r: bool)
        ensures
            r == (self@ == other@),
    {
        crate::order::str_eq(self.as_str(), other.as_str())
    }
}

impl vstd::std_specs::cmp::PartialEqSpecImpl<RcString> for String {
    open spec fn obeys_eq_spec() -> bool {
        true
    }

    open spec fn eq_spec(&self, other: &RcString) -> bool {
        self@ == other@
    }
}

impl PartialOrd for RcString {
    /// The total order on handles: lexicographic comparison of the UTF-8
    /// bytes of the referenced texts, independent of buffer identity.
    fn partial_cmp(&self, other: &Self) -> (r: Option<core::cmp::Ordering>)
        ensures
            r == Some(crate::order::text_cmp(self@, other@)),
    {
        Some(crate::order::str_cmp(self.as_str(), other.as_str()))
    }
}

impl vstd::std_specs::cmp::PartialOrdSpecImpl for RcString {
    open spec fn obeys_partial_cmp_spec() -> bool {
        true
    }

    open spec fn partial_cmp_spec(&self, other: &Self) -> Option<core::cmp::Ordering> {
        Some(crate::order::text_cmp(self@, other@))
    }
}

impl<'a> From<&'a str> for RcString {
    /// Converting text into a handle builds a fresh buffer holding a copy
    /// of the text.
    fn from(v: &'a str) -> (r: RcString)
        ensures
            r@ == v@,
    {
        RcString::new(v)
    }
}

impl<'a> vstd::std_specs::convert::FromSpecImpl<&'a str> for RcString {
    open spec fn obeys_from_spec() -> bool {
        false
    }

    open spec fn from_spec(v: &'a str) -> RcString {
        arbitrary()
    }
}

impl From<RcString> for String {
    /// Converting a handle into an owned string copies the referenced
    /// text; no sharing remains.
    fn from(v: RcString) -> (r: String)
        ensures
            r@ == v@,
    {
        v.to_string()
    }
}

impl vstd::std_specs::convert::FromSpecImpl<RcString> for String {
    open spec fn obeys_from_spec() -> bool {
        false
    }

    open spec fn from_spec(v: RcString) -> String {
        arbitrary()
    }
}

impl<'a> From<&'a RcString> for String {
    /// Converting a borrowed handle into an owned string copies the
    /// referenced text; the handle and its buffer are unaffected.
    fn from(v: &'a RcString) -> (r: String)
        ensures
            r@ == v@,
    {
        v.to_string()
    }
}

impl<'a> vstd::std_specs::convert::FromSpecImpl<&'a RcString> for String {
    open spec fn obeys_from_spec() -> bool {
        false
    }

    open spec fn from_spec(v: &'a RcString) -> String {
        arbitrary()
    }
}

} // verus!
