//! Symbol tables: the names that one scope binds, and the table that it was created under.

use crate::assoc::{has_key, lemma_put_last_value, value_of};
use crate::ast::{Symbol, SymbolModel};
use crate::ids::allocate_element_key;
use crate::store::LinkedStore;
use crate::text::{opt_str_text, own_opt_text};
use crate::traits::ScopeParentId;
use vstd::prelude::*;

verus! {

/// The names of one scope and their symbols.
#[derive(Debug)]
pub struct Symbols {
    map_id: String,
    parent_map_id: Option<String>,
    symbol_map: LinkedStore<Symbol>,
}

/// The model of a symbol table: its identity, its parent's identity, and its bindings.
pub struct SymbolsView {
    pub map_id: Seq<char>,
    pub parent_map_id: Option<Seq<char>>,
    pub symbols: Map<Seq<char>, SymbolModel>,
}

/// The bindings that a sequence of entries stands for.
pub open spec fn bindings_of(entries: Seq<(Seq<char>, Symbol)>) -> Map<Seq<char>, SymbolModel> {
    Map::new(|k: Seq<char>| has_key(entries, k), |k: Seq<char>| value_of(entries, k)->0@)
}

impl View for Symbols {
    type V = SymbolsView;

    closed spec fn view(&self) -> SymbolsView {
        SymbolsView {
            map_id: self.map_id@,
            parent_map_id: crate::ast::opt_text(self.parent_map_id),
            symbols: bindings_of(self.symbol_map.entries()),
        }
    }
}

impl Symbols {
    /// The table's collection of bindings is well-formed.
    pub closed spec fn wf(&self) -> bool {
        self.symbol_map.wf()
    }

    /// An empty table with the given identity and parent.
    pub fn with_map_id(map_id: &str, parent_map_id: Option<&str>) -> (r: Symbols)
        ensures
            r.wf(),
            r@ == (SymbolsView {
                map_id: map_id@,
                parent_map_id: opt_str_text(parent_map_id),
                symbols: Map::empty(),
            }),
    {
        let r = Symbols {
            map_id: map_id.to_owned(),
            parent_map_id: own_opt_text(parent_map_id),
            symbol_map: LinkedStore::new(),
        };
        assert(r@.symbols =~= Map::empty());
        r
    }

    /// An empty table with a fresh identity and the given parent.
    pub fn new(parent_map_id: Option<&str>) -> (r: Symbols)
        ensures
            r.wf(),
            r@ == (SymbolsView {
                map_id: r@.map_id,
                parent_map_id: opt_str_text(parent_map_id),
                symbols: Map::empty(),
            }),
    {
        let key = allocate_element_key();
        Symbols::with_map_id(key.as_str(), parent_map_id)
    }

    /// The table's identity.
    pub fn map_id(&self) -> (r: &str)
        ensures
            r@ == self@.map_id,
    {
        self.map_id.as_str()
    }

    /// The identity of the table that this one was created under.
    pub fn parent_map_id(&self) -> (r: Option<&str>)
        ensures
            opt_str_text(r) == self@.parent_map_id,
    {
        match &self.parent_map_id {
            Some(s) => Some(s.as_str()),
            None => None,
        }
    }

    /// Binds `key` to `sym` in this table, in place of what `key` was bound to.
    pub fn add_sym(&mut self, key: &str, sym: Symbol)
        requires
            old(self).wf(),
        ensures
            final(self).wf(),
            final(self)@ == (SymbolsView {
                symbols: old(self)@.symbols.insert(key@, sym@),
                ..old(self)@
            }),
    {
        let ghost before = self.symbol_map.entries();
        self.symbol_map.insert(key.to_owned(), sym);
        proof {
            old(self).symbol_map.lemma_distinct();
            let after = self.symbol_map.entries();
            let a = self@.symbols;
            let b = old(self)@.symbols.insert(key@, sym@);
            assert forall|q: Seq<char>| #[trigger]
                a.dom().contains(q) == b.dom().contains(q) && (a.dom().contains(q) ==> a[q]
                    == b[q]) by {
                lemma_put_last_value(before, key@, sym, q);
            }
            assert(self@.symbols =~= old(self)@.symbols.insert(key@, sym@));
        }
    }

    /// What `key` is bound to in this table itself.
    pub fn get_sym(&self, key: &str) -> (r: Option<&Symbol>)
        requires
            self.wf(),
        ensures
            match r {
                Some(s) => self@.symbols.contains_key(key@) && self@.symbols[key@] == s@,
                None => !self@.symbols.contains_key(key@),
            },
    {
        self.symbol_map.get(key)
    }
}

impl Default for Symbols {
    fn default() -> (r: Symbols)
        ensures
            r.wf(),
            r@.parent_map_id is None,
            r@.symbols == Map::<Seq<char>, SymbolModel>::empty(),
    {
        Symbols::new(None)
    }
}

impl ScopeParentId for Symbols {
    fn parent_id(&self) -> (r: Option<&str>)
        ensures
            opt_str_text(r) == self@.parent_map_id,
    {
        self.parent_map_id()
    }
}

} // verus!
