use crate::expr::{Expr, ExprView};
use crate::json::{Json, JsonView};
use vstd::prelude::*;
use vstd::string::StringExecFns;

verus! {

/// Whether some entry has the key `key`.
pub open spec fn has_key<V>(entries: Seq<(Seq<char>, V)>, key: Seq<char>) -> bool {
    exists|i: int| 0 <= i < entries.len() && (#[trigger] entries[i]).0 == key
}

/// The position of the first entry with the key `key`, where there is one.
pub open spec fn index_of<V>(entries: Seq<(Seq<char>, V)>, key: Seq<char>) -> int {
    choose|i: int|
        0 <= i < entries.len() && (#[trigger] entries[i]).0 == key && forall|j: int|
            0 <= j < i ==> (#[trigger] entries[j]).0 != key
}

/// Whether no two entries have the same key.
pub open spec fn distinct_keys<V>(entries: Seq<(Seq<char>, V)>) -> bool {
    forall|i: int, j: int|
        0 <= i < j < entries.len() ==> (#[trigger] entries[i]).0 != (#[trigger] entries[j]).0
}

/// The entries after an insertion: the value takes the place of the one
/// that the key had, or the new entry comes last.
pub open spec fn inserted<V>(entries: Seq<(Seq<char>, V)>, key: Seq<char>, value: V) -> Seq<
    (Seq<char>, V),
> {
    if has_key(entries, key) {
        entries.update(index_of(entries, key), (key, value))
    } else {
        entries.push((key, value))
    }
}

/// Where some entry at or before `i` has the key, one of them is the first.
proof fn lemma_first_exists<V>(entries: Seq<(Seq<char>, V)>, key: Seq<char>, i: int)
    requires
        0 <= i < entries.len(),
        entries[i].0 == key,
    ensures
        exists|k: int|
            0 <= k <= i && (#[trigger] entries[k]).0 == key && forall|j: int|
                0 <= j < k ==> (#[trigger] entries[j]).0 != key,
    decreases i,
{
    if exists|j: int| 0 <= j < i && (#[trigger] entries[j]).0 == key {
        let j = choose|j: int| 0 <= j < i && (#[trigger] entries[j]).0 == key;
        lemma_first_exists(entries, key, j);
    }
}

/// Where the key is present, `index_of` is the first position that holds
/// it.
pub proof fn lemma_index_of<V>(entries: Seq<(Seq<char>, V)>, key: Seq<char>)
    requires
        has_key(entries, key),
    ensures
        0 <= index_of(entries, key) < entries.len(),
        entries[index_of(entries, key)].0 == key,
        forall|j: int| 0 <= j < index_of(entries, key) ==> (#[trigger] entries[j]).0 != key,
{
    let i = choose|i: int| 0 <= i < entries.len() && (#[trigger] entries[i]).0 == key;
    lemma_first_exists(entries, key, i);
}

/// An insertion changes one place: the entry of the key where it had one,
/// the end where it had none. The other entries stay as they are and where
/// they are, the key is present afterwards, and keys that were distinct
/// stay distinct.
pub proof fn lemma_inserted<V>(entries: Seq<(Seq<char>, V)>, key: Seq<char>, value: V)
    ensures
        has_key(inserted(entries, key, value), key),
        inserted(entries, key, value)[index_of(inserted(entries, key, value), key)] == (key, value),
        has_key(entries, key) ==> {
            &&& inserted(entries, key, value).len() == entries.len()
            &&& index_of(inserted(entries, key, value), key) == index_of(entries, key)
            &&& forall|i: int|
                0 <= i < entries.len() && i != index_of(entries, key) ==> inserted(
                    entries,
                    key,
                    value,
                )[i] == entries[i]
        },
        !has_key(entries, key) ==> {
            &&& inserted(entries, key, value).len() == entries.len() + 1
            &&& index_of(inserted(entries, key, value), key) == entries.len()
            &&& forall|i: int|
                0 <= i < entries.len() ==> inserted(entries, key, value)[i] == entries[i]
        },
        distinct_keys(entries) ==> distinct_keys(inserted(entries, key, value)),
{
    let after = inserted(entries, key, value);
    if has_key(entries, key) {
        lemma_index_of(entries, key);
        assert(after[index_of(entries, key)].0 == key);
    } else {
        assert(after[entries.len() as int].0 == key);
    }
    lemma_index_of(after, key);
}

/// The wire forms of the entries of an object: the same keys in the same
/// order, each with the wire form of its value.
pub open spec fn entries_wire(entries: Seq<(Seq<char>, ExprView)>) -> Seq<(Seq<char>, JsonView)>
    decreases entries,
{
    Seq::new(
        entries.len(),
        |i: int|
            if 0 <= i < entries.len() {
                (entries[i].0, entries[i].1.wire())
            } else {
                (Seq::empty(), JsonView::Null)
            },
    )
}

/// The wire form of an object keeps its keys where they are: it has as
/// many entries, each with the key of the entry at its place, and keys that
/// are distinct stay distinct.
pub proof fn lemma_wire_keeps_keys(entries: Seq<(Seq<char>, ExprView)>)
    ensures
        entries_wire(entries).len() == entries.len(),
        forall|i: int|
            0 <= i < entries.len() ==> (#[trigger] entries_wire(entries)[i]).0 == entries[i].0,
        distinct_keys(entries) ==> distinct_keys(entries_wire(entries)),
{
}

/// A key is present in the wire form of an object exactly where it is
/// present in the object, and first at the same place.
pub proof fn lemma_wire_keeps_index(entries: Seq<(Seq<char>, ExprView)>, key: Seq<char>)
    ensures
        has_key(entries_wire(entries), key) <==> has_key(entries, key),
        has_key(entries, key) ==> index_of(entries_wire(entries), key) == index_of(entries, key),
{
    let wire = entries_wire(entries);
    if has_key(entries, key) {
        lemma_index_of(entries, key);
        assert(wire[index_of(entries, key)].0 == key);
        lemma_index_of(wire, key);
    }
}

/// Whether the value of every entry is encodable.
pub open spec fn entries_encodable(entries: Seq<(Seq<char>, ExprView)>) -> bool
    decreases entries,
{
    forall|i: int| 0 <= i < entries.len() ==> (#[trigger] entries[i]).1.encodable()
}

/// A map from text keys to values that keeps its entries in the order in
/// which their keys were first inserted.
#[derive(Debug)]
pub struct Object {
    entries: Vec<(String, Expr)>,
}

impl View for Object {
    type V = Seq<(Seq<char>, ExprView)>;

    /// The entries in insertion order.
    closed spec fn view(&self) -> Seq<(Seq<char>, ExprView)>
        decreases self,
    {
        entries_seq(self.entries)
    }
}

/// The entries of an object as mathematical values, in their order.
pub open spec fn entries_seq(entries: Vec<(String, Expr)>) -> Seq<(Seq<char>, ExprView)>
    decreases entries,
{
    Seq::new(
        entries@.len(),
        |i: int|
            if 0 <= i < entries@.len() {
                (entries[i].0@, entries[i].1.view())
            } else {
                (Seq::empty(), ExprView::Null)
            },
    )
}

impl Clone for Object {
    /// A copy of the object.
    fn clone(&self) -> (r: Object)
        ensures
            r@ == self@,
        decreases self,
    {
        let mut entries: Vec<(String, Expr)> = Vec::new();
        let mut i: usize = 0;
        while i < self.entries.len()
            invariant
                i <= self.entries@.len(),
                entries@.len() == i,
                forall|j: int|
                    0 <= j < i ==> (#[trigger] entries@[j]).0@ == self.entries@[j].0@
                        && entries@[j].1@ == self.entries@[j].1@,
            decreases self.entries.len() - i,
        {
            entries.push((self.entries[i].0.clone(), self.entries[i].1.clone()));
            i += 1;
        }
        proof {
            use_type_invariant(self);
            assert(entries_seq(entries) =~= self@);
        }
        Object { entries }
    }
}

impl Object {
    /// No two entries of an object have the same key.
    #[verifier::type_invariant]
    spec fn well_formed(self) -> bool {
        distinct_keys(self@)
    }

    /// The object without entries.
    pub fn new() -> (r: Object)
        ensures
            r@ == Seq::<(Seq<char>, ExprView)>::empty(),
    {
        let r = Object { entries: Vec::new() };
        r
    }

    /// The number of entries. No two of them have the same key.
    pub fn len(&self) -> (r: usize)
        ensures
            r == self@.len(),
            distinct_keys(self@),
    {
        proof {
            use_type_invariant(self);
            self.lemma_view();
        }
        self.entries.len()
    }

    /// The view holds, at each position, the key and the value of the entry
    /// at that position.
    proof fn lemma_view(&self)
        ensures
            self@.len() == self.entries@.len(),
            forall|i: int|
                0 <= i < self.entries@.len() ==> #[trigger] self@[i] == (
                    self.entries@[i].0@,
                    self.entries@[i].1@,
                ),
    {
    }

    /// The position of the first entry with the key `key`, if there is one.
    fn find(&self, key: &String) -> (r: Option<usize>)
        ensures
            r is Some <==> has_key(self@, key@),
            r is Some ==> r->0 < self@.len() && r->0 == index_of(self@, key@),
    {
        let mut i: usize = 0;
        while i < self.entries.len()
            invariant
                i <= self.entries@.len(),
                forall|j: int| 0 <= j < i ==> (#[trigger] self@[j]).0 != key@,
            decreases self.entries.len() - i,
        {
            if self.entries[i].0 == *key {
                assert(self@[i as int].0 == key@);
                assert(index_of(self@, key@) == i as int);
                return Some(i);
            }
            i += 1;
        }
        None
    }

    /// Gives `key` the value `value`. The value takes the place of the one
    /// that the key had; a new key comes last.
    pub fn insert_expr(&mut self, key: &str, value: Expr)
        ensures
            final(self)@ == inserted(old(self)@, key@, value@),
            distinct_keys(final(self)@),
    {
        proof {
            use_type_invariant(&*self);
        }
        let key = String::from_str(key);
        let ghost before = self@;
        let found = self.find(&key);
        // The entries leave the object while they change, so that the
        // object holds distinct keys at every step.
        let mut entries: Vec<(String, Expr)> = Vec::new();
        core::mem::swap(&mut self.entries, &mut entries);
        match found {
            Some(i) => {
                entries.set(i, (key, value));
            },
            None => {
                entries.push((key, value));
            },
        }
        proof {
            lemma_inserted(before, key@, value@);
            assert(entries_seq(entries) =~= inserted(before, key@, value@));
        }
        core::mem::swap(&mut self.entries, &mut entries);
    }

    /// Gives `key` the value that `value` converts to. The value takes the
    /// place of the one that the key had; a new key comes last.
    pub fn insert<E: Into<Expr>>(&mut self, key: &str, value: E)
        ensures
            exists|e: Expr| #[trigger]
                call_ensures(<E as Into<Expr>>::into, (value,), e) && final(self)@ == inserted(
                    old(self)@,
                    key@,
                    e@,
                ),
            distinct_keys(final(self)@),
    {
        self.insert_expr(key, value.into());
    }

    /// Whether the value of every entry can be encoded.
    pub fn is_encodable(&self) -> (r: bool)
        ensures
            r == entries_encodable(self@),
        decreases self,
    {
        let mut i: usize = 0;
        while i < self.entries.len()
            invariant
                i <= self.entries@.len(),
                forall|j: int| 0 <= j < i ==> (#[trigger] self@[j]).1.encodable(),
            decreases self.entries.len() - i,
        {
            if !self.entries[i].1.is_encodable() {
                assert(!self@[i as int].1.encodable());
                return false;
            }
            i += 1;
        }
        true
    }

    /// The wire form of the entries: a JSON object with the same keys in the
    /// same order, each with the wire form of its value.
    pub fn encode(&self) -> (r: Json)
        requires
            entries_encodable(self@),
        ensures
            r@ == JsonView::Object(entries_wire(self@)),
            distinct_keys(entries_wire(self@)),
        decreases self,
    {
        proof {
            use_type_invariant(self);
            lemma_wire_keeps_keys(self@);
        }
        let mut out: Vec<(String, Json)> = Vec::new();
        let mut i: usize = 0;
        while i < self.entries.len()
            invariant
                i <= self.entries@.len(),
                entries_encodable(self@),
                out@.len() == i,
                forall|j: int|
                    0 <= j < i ==> (#[trigger] out@[j]).0@ == self@[j].0 && out@[j].1@
                        == self@[j].1.wire(),
            decreases self.entries.len() - i,
        {
            assert(self@[i as int].1.encodable());
            let key = self.entries[i].0.clone();
            let value = self.entries[i].1.encode();
            out.push((key, value));
            i += 1;
        }
        let r = Json::Object(out);
        assert(r@->Object_0 =~= entries_wire(self@));
        r
    }
}

} // verus!
