use crate::bytes::{base64_encode, base64_fits, base64_text, check_base64_fits};
use crate::date::{Date, DateView};
use crate::json::{Json, JsonView};
use crate::object::{entries_encodable, entries_wire, Object};
use crate::reference::{ref_wire, Ref};
use crate::set::{MatchSet, MatchSetView};
use crate::timestamp::{Timestamp, TimestampView};
use vstd::prelude::*;

verus! {

/// A value expression as a mathematical value.
pub enum ExprView {
    String(Seq<char>),
    Double(int),
    Float(int),
    Int(int),
    UInt(int),
    Boolean(bool),
    Null,
    Object(Seq<(Seq<char>, ExprView)>),
    Bytes(Seq<u8>),
    Date(DateView),
    Ref(Seq<Seq<char>>),
    Array(Seq<ExprView>),
    MatchSet(Box<MatchSetView>),
    Timestamp(TimestampView),
}

impl ExprView {
    /// Whether the value is a string, a number, a boolean or null.
    pub open spec fn is_scalar(self) -> bool {
        ||| self is String
        ||| self is Double
        ||| self is Float
        ||| self is Int
        ||| self is UInt
        ||| self is Boolean
        ||| self is Null
    }

    /// The wire form of the value. Scalars and arrays are plain JSON; every
    /// other kind is an object with one reserved key.
    pub open spec fn wire(self) -> JsonView
        decreases self,
    {
        match self {
            ExprView::String(s) => JsonView::String(s),
            ExprView::Double(bits) => JsonView::Double(bits),
            ExprView::Float(bits) => JsonView::Float(bits),
            ExprView::Int(i) => JsonView::Int(i),
            ExprView::UInt(u) => JsonView::UInt(u),
            ExprView::Boolean(b) => JsonView::Bool(b),
            ExprView::Null => JsonView::Null,
            ExprView::Object(entries) => JsonView::tagged(
                "object"@,
                JsonView::Object(entries_wire(entries)),
            ),
            ExprView::Bytes(bytes) => JsonView::tagged(
                "@bytes"@,
                JsonView::String(base64_text(bytes)),
            ),
            ExprView::Date(date) => JsonView::tagged("@date"@, JsonView::String(date.text())),
            ExprView::Ref(names) => ref_wire(names),
            ExprView::Array(items) => JsonView::Array(items_wire(items)),
            ExprView::MatchSet(set) => JsonView::tagged("@set"@, (*set).wire()),
            ExprView::Timestamp(instant) => JsonView::tagged(
                "@ts"@,
                JsonView::String(instant.text()),
            ),
        }
    }

    /// Whether the base64 text of every byte string in the value has a
    /// length that a string can have.
    pub open spec fn encodable(self) -> bool
        decreases self,
    {
        match self {
            ExprView::Object(entries) => entries_encodable(entries),
            ExprView::Bytes(bytes) => base64_fits(bytes.len()),
            ExprView::Array(items) => items_encodable(items),
            ExprView::MatchSet(set) => (*set).terms.encodable(),
            _ => true,
        }
    }
}

/// The value that a scalar JSON document stands for. A number is an `Int`
/// where it fits in 64 bits with a sign, a `UInt` where it only fits
/// without one, and otherwise a `Double` or a `Float`, as it was given.
pub open spec fn scalar_from_json(value: JsonView) -> ExprView {
    match value {
        JsonView::Null => ExprView::Null,
        JsonView::Bool(b) => ExprView::Boolean(b),
        JsonView::Int(i) => ExprView::Int(i),
        JsonView::UInt(u) => if u <= i64::MAX {
            ExprView::Int(u)
        } else {
            ExprView::UInt(u)
        },
        JsonView::Double(bits) => ExprView::Double(bits),
        JsonView::Float(bits) => ExprView::Float(bits),
        JsonView::String(s) => ExprView::String(s),
        _ => ExprView::Null,
    }
}

/// The wire forms of the items of an array, in their order.
pub open spec fn items_wire(items: Seq<ExprView>) -> Seq<JsonView>
    decreases items,
{
    Seq::new(
        items.len(),
        |i: int|
            if 0 <= i < items.len() {
                items[i].wire()
            } else {
                JsonView::Null
            },
    )
}

/// Whether every item of an array is encodable.
pub open spec fn items_encodable(items: Seq<ExprView>) -> bool
    decreases items,
{
    forall|i: int| 0 <= i < items.len() ==> (#[trigger] items[i]).encodable()
}

/// A value of the document model: a scalar, a byte string, a date, an
/// instant, a reference, an object, an array or a set. `Double` and `Float`
/// hold the bits of an IEEE 754 number of 64 and of 32 bits.
#[derive(Debug)]
pub enum Expr {
    String(String),
    Double(u64),
    Float(u32),
    Int(i64),
    UInt(u64),
    Boolean(bool),
    Null,
    Object(Object),
    Bytes(Vec<u8>),
    Date(Date),
    Ref(Ref),
    Array(Vec<Expr>),
    MatchSet(Box<MatchSet>),
    Timestamp(Timestamp),
}

impl View for Expr {
    type V = ExprView;

    open spec fn view(&self) -> ExprView
        decreases self,
    {
        match self {
            Expr::String(s) => ExprView::String(s@),
            Expr::Double(bits) => ExprView::Double(*bits as int),
            Expr::Float(bits) => ExprView::Float(*bits as int),
            Expr::Int(i) => ExprView::Int(*i as int),
            Expr::UInt(u) => ExprView::UInt(*u as int),
            Expr::Boolean(b) => ExprView::Boolean(*b),
            Expr::Null => ExprView::Null,
            Expr::Object(object) => ExprView::Object(object.view()),
            Expr::Bytes(bytes) => ExprView::Bytes(bytes@),
            Expr::Date(date) => ExprView::Date(date@),
            Expr::Ref(reference) => ExprView::Ref(reference@),
            Expr::Array(items) => ExprView::Array(items_view(*items)),
            Expr::MatchSet(set) => ExprView::MatchSet(Box::new((**set).view())),
            Expr::Timestamp(instant) => ExprView::Timestamp(instant@),
        }
    }
}

/// The items of an array as mathematical values, in their order.
pub open spec fn items_view(items: Vec<Expr>) -> Seq<ExprView>
    decreases items,
{
    Seq::new(
        items@.len(),
        |i: int|
            if 0 <= i < items@.len() {
                items[i].view()
            } else {
                ExprView::Null
            },
    )
}

impl Clone for Expr {
    /// A copy of the value.
    fn clone(&self) -> (r: Expr)
        ensures
            r@ == self@,
        decreases self,
    {
        match self {
            Expr::String(s) => Expr::String(s.clone()),
            Expr::Double(bits) => Expr::Double(*bits),
            Expr::Float(bits) => Expr::Float(*bits),
            Expr::Int(i) => Expr::Int(*i),
            Expr::UInt(u) => Expr::UInt(*u),
            Expr::Boolean(b) => Expr::Boolean(*b),
            Expr::Null => Expr::Null,
            Expr::Object(object) => Expr::Object(object.clone()),
            Expr::Bytes(bytes) => Expr::Bytes(bytes.clone()),
            Expr::Date(date) => Expr::Date(*date),
            Expr::Ref(reference) => Expr::Ref(reference.clone()),
            Expr::Array(items) => {
                let mut out: Vec<Expr> = Vec::new();
                let mut i: usize = 0;
                while i < items.len()
                    invariant
                        i <= items.len(),
                        self is Array && self->Array_0 == *items,
                        out@.len() == i,
                        forall|j: int| 0 <= j < i ==> (#[trigger] out@[j])@ == items@[j]@,
                    decreases items.len() - i,
                {
                    out.push(items[i].clone());
                    i += 1;
                }
                assert(items_view(out) =~= items_view(*items));
                Expr::Array(out)
            },
            Expr::MatchSet(set) => {
                let copy: MatchSet = (**set).clone();
                Expr::MatchSet(Box::new(copy))
            },
            Expr::Timestamp(instant) => Expr::Timestamp(*instant),
        }
    }
}

impl Expr {
    /// The value that a scalar JSON document stands for. Arrays and objects
    /// are not converted: the caller takes them apart first.
    pub fn from_json(value: Json) -> (r: Expr)
        requires
            value@.is_scalar(),
        ensures
            r@ == scalar_from_json(value@),
    {
        match value {
            Json::Null => Expr::Null,
            Json::Bool(b) => Expr::Boolean(b),
            Json::Int(i) => Expr::Int(i),
            Json::UInt(u) => {
                if u <= i64::MAX as u64 {
                    Expr::Int(u as i64)
                } else {
                    Expr::UInt(u)
                }
            },
            Json::Double(bits) => Expr::Double(bits),
            Json::Float(bits) => Expr::Float(bits),
            Json::String(s) => Expr::String(s),
            Json::Array(_) => unreached(),
            Json::Object(_) => unreached(),
        }
    }

    /// The wire form of the value.
    pub fn encode(&self) -> (r: Json)
        requires
            self@.encodable(),
        ensures
            r@ == self@.wire(),
        decreases self,
    {
        match self {
            Expr::String(s) => Json::String(s.clone()),
            Expr::Double(bits) => Json::Double(*bits),
            Expr::Float(bits) => Json::Float(*bits),
            Expr::Int(i) => Json::Int(*i),
            Expr::UInt(u) => Json::UInt(*u),
            Expr::Boolean(b) => Json::Bool(*b),
            Expr::Null => Json::Null,
            Expr::Object(object) => Json::tagged("object", object.encode()),
            Expr::Bytes(bytes) => Json::tagged(
                "@bytes",
                Json::String(base64_encode(bytes.as_slice())),
            ),
            Expr::Date(date) => Json::tagged("@date", Json::String(date.text())),
            Expr::Ref(reference) => reference.encode(),
            Expr::Array(items) => {
                let mut out: Vec<Json> = Vec::new();
                let mut i: usize = 0;
                while i < items.len()
                    invariant
                        i <= items.len(),
                        self is Array && self->Array_0 == *items,
                        items_encodable(items_view(*items)),
                        out@.len() == i,
                        forall|j: int|
                            0 <= j < i ==> (#[trigger] out@[j])@ == items_view(*items)[j].wire(),
                    decreases items.len() - i,
                {
                    assert(items_view(*items)[i as int].encodable());
                    out.push(items[i].encode());
                    i += 1;
                }
                assert(crate::json::items_view(out) =~= items_wire(items_view(*items)));
                Json::Array(out)
            },
            Expr::MatchSet(set) => Json::tagged("@set", set.encode()),
            Expr::Timestamp(instant) => Json::tagged("@ts", Json::String(instant.text())),
        }
    }

    /// Whether the value can be encoded: whether the base64 text of each of
    /// its byte strings has a length that a string can have.
    pub fn is_encodable(&self) -> (r: bool)
        ensures
            r == self@.encodable(),
        decreases self,
    {
        match self {
            Expr::Object(object) => object.is_encodable(),
            Expr::Bytes(bytes) => check_base64_fits(bytes.len()),
            Expr::Array(items) => {
                let mut i: usize = 0;
                while i < items.len()
                    invariant
                        i <= items.len(),
                        self is Array && self->Array_0 == *items,
                        self@.encodable() == items_encodable(items_view(*items)),
                        forall|j: int|
                            0 <= j < i ==> (#[trigger] items_view(*items)[j]).encodable(),
                    decreases items.len() - i,
                {
                    if !items[i].is_encodable() {
                        assert(!items_view(*items)[i as int].encodable());
                        return false;
                    }
                    i += 1;
                }
                true
            },
            Expr::MatchSet(set) => {
                set.terms.is_encodable()
            },
            _ => true,
        }
    }

    /// The wire form of the value, where the value can be encoded.
    pub fn try_encode(&self) -> (r: Option<Json>)
        ensures
            r is Some <==> self@.encodable(),
            r is Some ==> r->0@ == self@.wire(),
    {
        if self.is_encodable() {
            Some(self.encode())
        } else {
            None
        }
    }
}

} // verus!
