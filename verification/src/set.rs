use crate::expr::{Expr, ExprView};
use crate::json::{Json, JsonView};
use crate::reference::{ref_wire, Ref};
use vstd::prelude::*;
use vstd::string::StringExecFns;

verus! {

/// A set as a mathematical value: the names of the reference to match, and
/// the terms.
pub struct MatchSetView {
    pub target: Seq<Seq<char>>,
    pub terms: ExprView,
}

impl MatchSetView {
    /// The wire form of the predicate: the reference under `match`, then the
    /// terms under `terms`.
    pub open spec fn wire(self) -> JsonView
        decreases self,
    {
        JsonView::Object(seq![("match"@, ref_wire(self.target)), ("terms"@, self.terms.wire())])
    }
}

/// A match predicate as a value: the documents that an index or a class
/// holds for the given terms.
#[derive(Debug)]
pub struct MatchSet {
    pub target: Ref,
    pub terms: Expr,
}

impl View for MatchSet {
    type V = MatchSetView;

    open spec fn view(&self) -> MatchSetView
        decreases self,
    {
        MatchSetView { target: self.target@, terms: self.terms.view() }
    }
}

impl Clone for MatchSet {
    /// A copy of the predicate.
    fn clone(&self) -> (r: MatchSet)
        ensures
            r@ == self@,
        decreases self,
    {
        MatchSet { target: self.target.clone(), terms: self.terms.clone() }
    }
}

impl MatchSet {
    /// The predicate that matches `target` with `terms`.
    pub fn new(target: Ref, terms: Expr) -> (r: MatchSet)
        ensures
            r@ == (MatchSetView { target: target@, terms: terms@ }),
    {
        MatchSet { target, terms }
    }

    /// The predicate that matches `target` with the value that `terms`
    /// converts to.
    pub fn matching<E: Into<Expr>>(target: Ref, terms: E) -> (r: MatchSet)
        ensures
            exists|e: Expr| #[trigger]
                call_ensures(<E as Into<Expr>>::into, (terms,), e) && r@ == (MatchSetView {
                    target: target@,
                    terms: e@,
                }),
    {
        MatchSet::new(target, terms.into())
    }

    /// The wire form of the predicate: `{"match": <reference>, "terms": <terms>}`.
    pub fn encode(&self) -> (r: Json)
        requires
            self@.terms.encodable(),
        ensures
            r@ == self@.wire(),
        decreases self,
    {
        let mut entries: Vec<(String, Json)> = Vec::new();
        entries.push((String::from_str("match"), self.target.encode()));
        entries.push((String::from_str("terms"), self.terms.encode()));
        let r = Json::Object(entries);
        assert(r@->Object_0 =~= self@.wire()->Object_0);
        r
    }
}

} // verus!
