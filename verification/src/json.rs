use vstd::prelude::*;
use vstd::string::StringExecFns;

verus! {

/// A JSON document as a mathematical value. `Double` and `Float` hold the
/// bits of an IEEE 754 number, read as an integer.
pub enum JsonView {
    Null,
    Bool(bool),
    Int(int),
    UInt(int),
    Double(int),
    Float(int),
    String(Seq<char>),
    Array(Seq<JsonView>),
    Object(Seq<(Seq<char>, JsonView)>),
}

impl JsonView {
    /// Whether the document is null, a boolean, a number or a string.
    pub open spec fn is_scalar(self) -> bool {
        !(self is Array) && !(self is Object)
    }

    /// The object with the single entry `key: value`.
    pub open spec fn tagged(key: Seq<char>, value: JsonView) -> JsonView {
        JsonView::Object(seq![(key, value)])
    }
}

/// A JSON document. An object keeps its entries in the order in which they
/// are written; `Double` and `Float` hold the bits of an IEEE 754 number of
/// 64 and of 32 bits.
#[derive(Debug)]
pub enum Json {
    Null,
    Bool(bool),
    Int(i64),
    UInt(u64),
    Double(u64),
    Float(u32),
    String(String),
    Array(Vec<Json>),
    Object(Vec<(String, Json)>),
}

impl View for Json {
    type V = JsonView;

    open spec fn view(&self) -> JsonView
        decreases self,
    {
        match self {
            Json::Null => JsonView::Null,
            Json::Bool(b) => JsonView::Bool(*b),
            Json::Int(i) => JsonView::Int(*i as int),
            Json::UInt(u) => JsonView::UInt(*u as int),
            Json::Double(bits) => JsonView::Double(*bits as int),
            Json::Float(bits) => JsonView::Float(*bits as int),
            Json::String(s) => JsonView::String(s@),
            Json::Array(items) => JsonView::Array(items_view(*items)),
            Json::Object(entries) => JsonView::Object(entries_view(*entries)),
        }
    }
}

/// The items of an array as mathematical values, in their order.
pub open spec fn items_view(items: Vec<Json>) -> Seq<JsonView>
    decreases items,
{
    Seq::new(
        items@.len(),
        |i: int|
            if 0 <= i < items@.len() {
                items[i].view()
            } else {
                JsonView::Null
            },
    )
}

/// The entries of an object as mathematical values, in their order.
pub open spec fn entries_view(entries: Vec<(String, Json)>) -> Seq<(Seq<char>, JsonView)>
    decreases entries,
{
    Seq::new(
        entries@.len(),
        |i: int|
            if 0 <= i < entries@.len() {
                (entries[i].0@, entries[i].1.view())
            } else {
                (Seq::empty(), JsonView::Null)
            },
    )
}

impl Clone for Json {
    /// A copy of the document.
    fn clone(&self) -> (r: Json)
        ensures
            r@ == self@,
        decreases self,
    {
        match self {
            Json::Null => Json::Null,
            Json::Bool(b) => Json::Bool(*b),
            Json::Int(i) => Json::Int(*i),
            Json::UInt(u) => Json::UInt(*u),
            Json::Double(bits) => Json::Double(*bits),
            Json::Float(bits) => Json::Float(*bits),
            Json::String(s) => Json::String(s.clone()),
            Json::Array(items) => {
                let mut out: Vec<Json> = Vec::new();
                let mut i: usize = 0;
                while i < items.len()
                    invariant
                        i <= items.len(),
                        self is Array && self->Array_0 == *items,
                        out@.len() == i,
                        forall|j: int| 0 <= j < i ==> (#[trigger] out@[j])@ == items@[j]@,
                    decreases items.len() - i,
                {
                    out.push(items[i].clone());
                    i += 1;
                }
                assert(items_view(out) =~= items_view(*items));
                Json::Array(out)
            },
            Json::Object(entries) => {
                let mut out: Vec<(String, Json)> = Vec::new();
                let mut i: usize = 0;
                while i < entries.len()
                    invariant
                        i <= entries.len(),
                        self is Object && self->Object_0 == *entries,
                        out@.len() == i,
                        forall|j: int|
                            0 <= j < i ==> (#[trigger] out@[j]).0@ == entries@[j].0@ && out@[j].1@
                                == entries@[j].1@,
                    decreases entries.len() - i,
                {
                    out.push((entries[i].0.clone(), entries[i].1.clone()));
                    i += 1;
                }
                assert(entries_view(out) =~= entries_view(*entries));
                Json::Object(out)
            },
        }
    }
}

impl Json {
    /// Whether the document is null, a boolean, a number or a string.
    pub fn is_scalar(&self) -> (r: bool)
        ensures
            r == self@.is_scalar(),
    {
        match self {
            Json::Array(_) => false,
            Json::Object(_) => false,
            _ => true,
        }
    }

    /// The object with the single entry `key: value`.
    pub fn tagged(key: &str, value: Json) -> (r: Json)
        ensures
            r@ == JsonView::tagged(key@, value@),
    {
        let mut entries: Vec<(String, Json)> = Vec::new();
        entries.push((String::from_str(key), value));
        assert(entries_view(entries) =~= seq![(key@, value@)]);
        Json::Object(entries)
    }
}

} // verus!
