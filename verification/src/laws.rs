//! The value-semantics laws of the library, stated over the contracts of
//! the public operations.
//!
//! The law that relates sorting ascending to sorting by the swapped
//! comparator lives with the order itself, in [`crate::order`].

use vstd::prelude::*;

verus! {

use core::cmp::Ordering;
use vstd::std_specs::cmp::{PartialEqSpec, PartialOrdSpec};
use crate::RcString;
use crate::codec::json_text_of;

/// Round-trip identity: converting text into a value and back to owned
/// text yields the text exactly.
pub proof fn lemma_round_trip(t: &str, v: RcString, out: String)
    requires
        call_ensures(RcString::from, (t,), v),
        call_ensures(RcString::to_string, (&v,), out),
    ensures
        out@ == t@,
{
}

/// Cross-type equality: a value built from text equals that text, and the
/// text equals the value, against borrowed and owned text alike.
pub proof fn lemma_cross_type_equality(t: &str, s: String, v: RcString)
    requires
        v@ == t@,
        s@ == t@,
    ensures
        v.eq_spec(t),
        v.eq_spec(&t),
        v.eq_spec(&s),
        s.eq_spec(&v),
{
}

/// The order agrees with equality: two handles compare as `Equal` exactly
/// when their referenced texts are equal, whichever buffers they
/// reference.
pub proof fn lemma_order_agrees_with_equality(a: &RcString, b: &RcString)
    ensures
        (a.partial_cmp_spec(b) == Some(Ordering::Equal)) <==> a.eq_spec(b),
{
    crate::order::lemma_text_cmp_equal(a@, b@);
}

/// Serialization fidelity: deserializing the serialization of a value
/// restores a value with the same text.
pub proof fn lemma_json_round_trip(v: RcString, s: String, t: &str, r: Option<RcString>)
    requires
        call_ensures(RcString::to_json, (&v,), s),
        t@ == s@,
        call_ensures(RcString::from_json, (t,), r),
    ensures
        r matches Some(w) && w@ == v@,
{
    assert(t@ == json_text_of(v@));
}

} // verus!
