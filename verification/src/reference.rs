use crate::json::{Json, JsonView};
use vstd::prelude::*;
use vstd::string::StringExecFns;

verus! {

/// The names of a reference from the outermost parent to the leaf, joined
/// by `/`.
pub open spec fn path_text(names: Seq<Seq<char>>) -> Seq<char>
    decreases names.len(),
{
    if names.len() == 0 {
        Seq::empty()
    } else if names.len() == 1 {
        names[0]
    } else {
        path_text(names.drop_last()) + seq!['/'] + names.last()
    }
}

/// The wire form of a reference: its path under the key `@ref`.
pub open spec fn ref_wire(names: Seq<Seq<char>>) -> JsonView {
    JsonView::tagged("@ref"@, JsonView::String(path_text(names)))
}

/// An address in the database: a name, and the reference it lies under.
#[derive(Debug)]
pub struct Ref {
    pub name: String,
    pub parent: Option<Box<Ref>>,
}

impl View for Ref {
    type V = Seq<Seq<char>>;

    /// The names from the outermost parent to the leaf.
    open spec fn view(&self) -> Seq<Seq<char>>
        decreases self,
    {
        match self.parent {
            Some(parent) => (*parent).view().push(self.name@),
            None => seq![self.name@],
        }
    }
}

impl Clone for Ref {
    /// A copy of the reference.
    fn clone(&self) -> (r: Ref)
        ensures
            r@ == self@,
        decreases self,
    {
        match &self.parent {
            Some(parent) => {
                let above: Ref = (**parent).clone();
                Ref { name: self.name.clone(), parent: Some(Box::new(above)) }
            },
            None => Ref { name: self.name.clone(), parent: None },
        }
    }
}

impl Ref {
    /// A reference without a parent.
    pub fn root(name: &str) -> (r: Ref)
        ensures
            r@ == seq![name@],
    {
        Ref { name: String::from_str(name), parent: None }
    }

    /// The reference called `name` under `parent`.
    pub fn new(name: &str, parent: Ref) -> (r: Ref)
        ensures
            r@ == parent@.push(name@),
    {
        Ref { name: String::from_str(name), parent: Some(Box::new(parent)) }
    }

    /// The class (collection) called `name`: `classes/<name>`.
    pub fn class(name: &str) -> (r: Ref)
        ensures
            r@ == seq!["classes"@, name@],
    {
        Ref::new(name, Ref::root("classes"))
    }

    /// The index called `name`: `indexes/<name>`.
    pub fn index(name: &str) -> (r: Ref)
        ensures
            r@ == seq!["indexes"@, name@],
    {
        Ref::new(name, Ref::root("indexes"))
    }

    /// The database called `name`: `databases/<name>`.
    pub fn database(name: &str) -> (r: Ref)
        ensures
            r@ == seq!["databases"@, name@],
    {
        Ref::new(name, Ref::root("databases"))
    }

    /// The function called `name`: `functions/<name>`.
    pub fn function(name: &str) -> (r: Ref)
        ensures
            r@ == seq!["functions"@, name@],
    {
        Ref::new(name, Ref::root("functions"))
    }

    /// The path of the reference: its names from the outermost parent to the
    /// leaf, joined by `/`.
    pub fn path(&self) -> (r: String)
        ensures
            r@ == path_text(self@),
        decreases self,
    {
        match &self.parent {
            Some(parent) => {
                let mut text = parent.path();
                text.append("/");
                text.append(self.name.as_str());
                proof {
                    reveal_strlit("/");
                    assert(self@.drop_last() =~= parent@);
                    parent.lemma_view_nonempty();
                }
                text
            },
            None => self.name.clone(),
        }
    }

    /// A reference has at least one name.
    pub proof fn lemma_view_nonempty(self)
        ensures
            self@.len() >= 1,
        decreases self,
    {
        match self.parent {
            Some(parent) => parent.lemma_view_nonempty(),
            None => {},
        }
    }

    /// The wire form of the reference: `{"@ref": <path>}`.
    pub fn encode(&self) -> (r: Json)
        ensures
            r@ == ref_wire(self@),
    {
        Json::tagged("@ref", Json::String(self.path()))
    }
}

} // verus!
