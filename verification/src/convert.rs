use crate::date::Date;
use crate::expr::{items_view, Expr, ExprView};
use crate::object::Object;
use crate::reference::Ref;
use crate::set::MatchSet;
use crate::timestamp::Timestamp;
use vstd::prelude::*;
use vstd::slice::slice_to_vec;
use vstd::std_specs::convert::FromSpecImpl;
use vstd::string::StringExecFns;

verus! {

impl<'a> From<&'a str> for Expr {
    /// The string value with the characters of `s`.
    fn from(s: &'a str) -> (r: Expr)
        ensures
            r@ == ExprView::String(s@),
    {
        Expr::String(String::from_str(s))
    }
}

impl<'a> FromSpecImpl<&'a str> for Expr {
    /// The copy that the conversion makes has no name in specifications:
    /// the contract of `from` speaks of its view.
    open spec fn obeys_from_spec() -> bool {
        false
    }

    open spec fn from_spec(s: &'a str) -> Expr {
        Expr::Null
    }
}

impl From<String> for Expr {
    /// The string value `s`.
    fn from(s: String) -> (r: Expr)
        ensures
            r@ == ExprView::String(s@),
    {
        Expr::String(s)
    }
}

impl FromSpecImpl<String> for Expr {
    open spec fn obeys_from_spec() -> bool {
        true
    }

    open spec fn from_spec(s: String) -> Expr {
        Expr::String(s)
    }
}

impl From<i8> for Expr {
    /// The integer `i`, widened to 64 bits.
    fn from(i: i8) -> (r: Expr)
        ensures
            r@ == ExprView::Int(i as int),
    {
        Expr::Int(i as i64)
    }
}

impl FromSpecImpl<i8> for Expr {
    open spec fn obeys_from_spec() -> bool {
        true
    }

    open spec fn from_spec(i: i8) -> Expr {
        Expr::Int(i as i64)
    }
}

impl From<i16> for Expr {
    /// The integer `i`, widened to 64 bits.
    fn from(i: i16) -> (r: Expr)
        ensures
            r@ == ExprView::Int(i as int),
    {
        Expr::Int(i as i64)
    }
}

impl FromSpecImpl<i16> for Expr {
    open spec fn obeys_from_spec() -> bool {
        true
    }

    open spec fn from_spec(i: i16) -> Expr {
        Expr::Int(i as i64)
    }
}

impl From<i32> for Expr {
    /// The integer `i`, widened to 64 bits.
    fn from(i: i32) -> (r: Expr)
        ensures
            r@ == ExprView::Int(i as int),
    {
        Expr::Int(i as i64)
    }
}

impl FromSpecImpl<i32> for Expr {
    open spec fn obeys_from_spec() -> bool {
        true
    }

    open spec fn from_spec(i: i32) -> Expr {
        Expr::Int(i as i64)
    }
}

impl From<i64> for Expr {
    /// The integer `i`.
    fn from(i: i64) -> (r: Expr)
        ensures
            r@ == ExprView::Int(i as int),
    {
        Expr::Int(i)
    }
}

impl FromSpecImpl<i64> for Expr {
    open spec fn obeys_from_spec() -> bool {
        true
    }

    open spec fn from_spec(i: i64) -> Expr {
        Expr::Int(i)
    }
}

impl From<isize> for Expr {
    /// The integer `i`, widened to 64 bits.
    fn from(i: isize) -> (r: Expr)
        ensures
            r@ == ExprView::Int(i as int),
    {
        Expr::Int(i as i64)
    }
}

impl FromSpecImpl<isize> for Expr {
    open spec fn obeys_from_spec() -> bool {
        true
    }

    open spec fn from_spec(i: isize) -> Expr {
        Expr::Int(i as i64)
    }
}

impl From<u8> for Expr {
    /// The unsigned integer `u`, widened to 64 bits.
    fn from(u: u8) -> (r: Expr)
        ensures
            r@ == ExprView::UInt(u as int),
    {
        Expr::UInt(u as u64)
    }
}

impl FromSpecImpl<u8> for Expr {
    open spec fn obeys_from_spec() -> bool {
        true
    }

    open spec fn from_spec(u: u8) -> Expr {
        Expr::UInt(u as u64)
    }
}

impl From<u16> for Expr {
    /// The unsigned integer `u`, widened to 64 bits.
    fn from(u: u16) -> (r: Expr)
        ensures
            r@ == ExprView::UInt(u as int),
    {
        Expr::UInt(u as u64)
    }
}

impl FromSpecImpl<u16> for Expr {
    open spec fn obeys_from_spec() -> bool {
        true
    }

    open spec fn from_spec(u: u16) -> Expr {
        Expr::UInt(u as u64)
    }
}

impl From<u32> for Expr {
    /// The unsigned integer `u`, widened to 64 bits.
    fn from(u: u32) -> (r: Expr)
        ensures
            r@ == ExprView::UInt(u as int),
    {
        Expr::UInt(u as u64)
    }
}

impl FromSpecImpl<u32> for Expr {
    open spec fn obeys_from_spec() -> bool {
        true
    }

    open spec fn from_spec(u: u32) -> Expr {
        Expr::UInt(u as u64)
    }
}

impl From<u64> for Expr {
    /// The unsigned integer `u`.
    fn from(u: u64) -> (r: Expr)
        ensures
            r@ == ExprView::UInt(u as int),
    {
        Expr::UInt(u)
    }
}

impl FromSpecImpl<u64> for Expr {
    open spec fn obeys_from_spec() -> bool {
        true
    }

    open spec fn from_spec(u: u64) -> Expr {
        Expr::UInt(u)
    }
}

impl From<usize> for Expr {
    /// The unsigned integer `u`, widened to 64 bits.
    fn from(u: usize) -> (r: Expr)
        ensures
            r@ == ExprView::UInt(u as int),
    {
        Expr::UInt(u as u64)
    }
}

impl FromSpecImpl<usize> for Expr {
    open spec fn obeys_from_spec() -> bool {
        true
    }

    open spec fn from_spec(u: usize) -> Expr {
        Expr::UInt(u as u64)
    }
}

impl From<bool> for Expr {
    /// The boolean `b`.
    fn from(b: bool) -> (r: Expr)
        ensures
            r@ == ExprView::Boolean(b),
    {
        Expr::Boolean(b)
    }
}

impl FromSpecImpl<bool> for Expr {
    open spec fn obeys_from_spec() -> bool {
        true
    }

    open spec fn from_spec(b: bool) -> Expr {
        Expr::Boolean(b)
    }
}

impl From<Object> for Expr {
    /// The object `object`.
    fn from(object: Object) -> (r: Expr)
        ensures
            r@ == ExprView::Object(object@),
    {
        Expr::Object(object)
    }
}

impl FromSpecImpl<Object> for Expr {
    open spec fn obeys_from_spec() -> bool {
        true
    }

    open spec fn from_spec(object: Object) -> Expr {
        Expr::Object(object)
    }
}

impl From<Vec<u8>> for Expr {
    /// The byte string `bytes`.
    fn from(bytes: Vec<u8>) -> (r: Expr)
        ensures
            r@ == ExprView::Bytes(bytes@),
    {
        Expr::Bytes(bytes)
    }
}

impl FromSpecImpl<Vec<u8>> for Expr {
    open spec fn obeys_from_spec() -> bool {
        true
    }

    open spec fn from_spec(bytes: Vec<u8>) -> Expr {
        Expr::Bytes(bytes)
    }
}

impl<'a> From<&'a [u8]> for Expr {
    /// The byte string with the bytes of `bytes`.
    fn from(bytes: &'a [u8]) -> (r: Expr)
        ensures
            r@ == ExprView::Bytes(bytes@),
    {
        Expr::Bytes(slice_to_vec(bytes))
    }
}

impl<'a> FromSpecImpl<&'a [u8]> for Expr {
    /// The copy that the conversion makes has no name in specifications:
    /// the contract of `from` speaks of its view.
    open spec fn obeys_from_spec() -> bool {
        false
    }

    open spec fn from_spec(bytes: &'a [u8]) -> Expr {
        Expr::Null
    }
}

impl From<Vec<Expr>> for Expr {
    /// The array of `items`, in their order.
    fn from(items: Vec<Expr>) -> (r: Expr)
        ensures
            r@ == ExprView::Array(items_view(items)),
    {
        Expr::Array(items)
    }
}

impl FromSpecImpl<Vec<Expr>> for Expr {
    open spec fn obeys_from_spec() -> bool {
        true
    }

    open spec fn from_spec(items: Vec<Expr>) -> Expr {
        Expr::Array(items)
    }
}

impl From<Ref> for Expr {
    /// The reference `reference`.
    fn from(reference: Ref) -> (r: Expr)
        ensures
            r@ == ExprView::Ref(reference@),
    {
        Expr::Ref(reference)
    }
}

impl FromSpecImpl<Ref> for Expr {
    open spec fn obeys_from_spec() -> bool {
        true
    }

    open spec fn from_spec(reference: Ref) -> Expr {
        Expr::Ref(reference)
    }
}

impl From<Date> for Expr {
    /// The date `date`.
    fn from(date: Date) -> (r: Expr)
        ensures
            r@ == ExprView::Date(date@),
    {
        Expr::Date(date)
    }
}

impl FromSpecImpl<Date> for Expr {
    open spec fn obeys_from_spec() -> bool {
        true
    }

    open spec fn from_spec(date: Date) -> Expr {
        Expr::Date(date)
    }
}

impl From<MatchSet> for Expr {
    /// The match predicate `set`.
    fn from(set: MatchSet) -> (r: Expr)
        ensures
            r@ == ExprView::MatchSet(Box::new(set@)),
    {
        Expr::MatchSet(Box::new(set))
    }
}

impl FromSpecImpl<MatchSet> for Expr {
    open spec fn obeys_from_spec() -> bool {
        true
    }

    open spec fn from_spec(set: MatchSet) -> Expr {
        Expr::MatchSet(Box::new(set))
    }
}

impl From<Timestamp> for Expr {
    /// The instant `instant`.
    fn from(instant: Timestamp) -> (r: Expr)
        ensures
            r@ == ExprView::Timestamp(instant@),
    {
        Expr::Timestamp(instant)
    }
}

impl FromSpecImpl<Timestamp> for Expr {
    open spec fn obeys_from_spec() -> bool {
        true
    }

    open spec fn from_spec(instant: Timestamp) -> Expr {
        Expr::Timestamp(instant)
    }
}

} // verus!
