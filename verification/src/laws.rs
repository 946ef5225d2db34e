use crate::expr::{scalar_from_json, Expr, ExprView};
use crate::json::Json;
use crate::object::{
    distinct_keys, entries_wire, has_key, index_of, inserted, lemma_index_of, lemma_inserted,
    lemma_wire_keeps_index, lemma_wire_keeps_keys,
};
use crate::reference::path_text;
use vstd::prelude::*;

verus! {

/// Whether `key` is one of the keys that the wire format keeps for itself.
pub open spec fn is_reserved_key(key: Seq<char>) -> bool {
    ||| key == "@bytes"@
    ||| key == "@date"@
    ||| key == "@ts"@
    ||| key == "@ref"@
    ||| key == "@set"@
    ||| key == "object"@
}

/// Encoding is a function of the value: whenever two values are equal,
/// whatever `encode` returns for the one equals whatever it returns for the
/// other.
pub proof fn lemma_encode_deterministic(a: Expr, b: Expr, first: Json, second: Json)
    requires
        a@ == b@,
        call_ensures(Expr::encode, (&a,), first),
        call_ensures(Expr::encode, (&b,), second),
    ensures
        first@ == second@,
{
}

/// A scalar encodes to a JSON scalar, an array to a JSON array, and every
/// other value to an object with exactly one entry, whose key is reserved:
/// the wire form is never a bare map of the caller's keys.
pub proof fn lemma_wire_shape(value: ExprView)
    ensures
        value.wire().is_scalar() <==> value.is_scalar(),
        value.wire() is Array <==> value is Array,
        value.wire() is Object ==> {
            &&& value.wire()->Object_0.len() == 1
            &&& is_reserved_key(value.wire()->Object_0[0].0)
        },
{
}

/// What the encoder writes for a scalar, the conversion from generic JSON
/// reads back: the same value, but for an unsigned integer that fits in 64
/// bits with a sign, which comes back as the signed integer of the same
/// number.
pub proof fn lemma_scalar_round_trip(value: ExprView)
    requires
        value.is_scalar(),
    ensures
        value.wire().is_scalar(),
        value is UInt && value->UInt_0 <= i64::MAX ==> scalar_from_json(value.wire())
            == ExprView::Int(value->UInt_0),
        !(value is UInt && value->UInt_0 <= i64::MAX) ==> scalar_from_json(value.wire()) == value,
{
}

/// The wire form of an array keeps the order of its items: it has as many
/// items, each the wire form of the item at its place.
pub proof fn lemma_wire_keeps_order(items: Seq<ExprView>)
    ensures
        ExprView::Array(items).wire() is Array,
        ExprView::Array(items).wire()->Array_0.len() == items.len(),
        forall|i: int|
            0 <= i < items.len() ==> (#[trigger] ExprView::Array(items).wire()->Array_0[i])
                == items[i].wire(),
{
}

/// The path of a reference under a parent is the path of the parent, a
/// `/`, and the name of the reference.
pub proof fn lemma_path_of_child(parent: Seq<Seq<char>>, name: Seq<char>)
    requires
        parent.len() >= 1,
    ensures
        path_text(parent.push(name)) == path_text(parent) + seq!['/'] + name,
{
    assert(parent.push(name).drop_last() =~= parent);
}

/// Encoding follows insertion: the wire form of the entries after an
/// insertion is the wire form of the entries before it, with the wire form
/// of the value inserted under the same key.
pub proof fn lemma_wire_of_inserted(
    entries: Seq<(Seq<char>, ExprView)>,
    key: Seq<char>,
    value: ExprView,
)
    ensures
        entries_wire(inserted(entries, key, value)) == inserted(
            entries_wire(entries),
            key,
            value.wire(),
        ),
{
    lemma_wire_keeps_index(entries, key);
    if has_key(entries, key) {
        lemma_index_of(entries, key);
    }
    assert(entries_wire(inserted(entries, key, value)) =~= inserted(
        entries_wire(entries),
        key,
        value.wire(),
    ));
}

/// A key that is inserted a second time is not written a second time: the
/// object has as many entries as after the first insertion, with the same
/// keys in the same places, and its wire form has the key once, with the
/// wire form of the second value.
pub proof fn lemma_duplicate_insert(
    entries: Seq<(Seq<char>, ExprView)>,
    key: Seq<char>,
    first: ExprView,
    second: ExprView,
)
    requires
        distinct_keys(entries),
    ensures
        ({
            let once = inserted(entries, key, first);
            let twice = inserted(once, key, second);
            let encoded = entries_wire(twice);
            &&& twice.len() == once.len()
            &&& encoded.len() == once.len()
            &&& forall|i: int| 0 <= i < once.len() ==> (#[trigger] encoded[i]).0 == once[i].0
            &&& distinct_keys(encoded)
            &&& has_key(encoded, key)
            &&& encoded[index_of(encoded, key)] == (key, second.wire())
            &&& forall|i: int|
                0 <= i < encoded.len() && (#[trigger] encoded[i]).0 == key ==> i == index_of(
                    encoded,
                    key,
                )
        }),
{
    let once = inserted(entries, key, first);
    let twice = inserted(once, key, second);
    let encoded = entries_wire(twice);
    lemma_inserted(entries, key, first);
    lemma_inserted(once, key, second);
    lemma_index_of(once, key);
    lemma_index_of(twice, key);
    lemma_wire_keeps_keys(twice);
    lemma_wire_keeps_index(twice, key);
    lemma_index_of(encoded, key);
}

} // verus!
