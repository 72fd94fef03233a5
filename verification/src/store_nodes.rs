//! Nodes of a store definition that name reducers kept outside the template.

use vstd::prelude::*;

verus! {

/// A module of reducers that are defined outside the template.
#[derive(Debug, Clone, PartialEq, Eq, Hash)]
pub struct ExternReducerModuleNode(String);

/// One reducer that is defined outside the template.
#[derive(Debug, Clone, PartialEq, Eq, Hash)]
pub struct ExternReducerNode(String);

impl View for ExternReducerModuleNode {
    type V = Seq<char>;

    closed spec fn view(&self) -> Seq<char> {
        self.0@
    }
}

impl View for ExternReducerNode {
    type V = Seq<char>;

    closed spec fn view(&self) -> Seq<char> {
        self.0@
    }
}

impl ExternReducerModuleNode {
    /// The node of the module `name`.
    pub fn new(name: String) -> (r: Self)
        ensures
            r@ == name@,
    {
        ExternReducerModuleNode(name)
    }

    /// The module's name.
    pub fn name(&self) -> (r: &str)
        ensures
            r@ == self@,
    {
        self.0.as_str()
    }
}

impl ExternReducerNode {
    /// The node of the reducer `name`.
    pub fn new(name: String) -> (r: Self)
        ensures
            r@ == name@,
    {
        ExternReducerNode(name)
    }

    /// The reducer's name.
    pub fn name(&self) -> (r: &str)
        ensures
            r@ == self@,
    {
        self.0.as_str()
    }
}

} // verus!
