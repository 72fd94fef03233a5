//! The context: the stack of active scopes, every symbol table created so far, and the
//! queries that the tree walk and the code generators ask of them.

use crate::assoc::{
    distinct_keys, has_key, index_of, lemma_index_of, lemma_map_vals_distinct,
    lemma_map_vals_index_of, lemma_map_vals_put_last, map_vals, put_last, value_of,
};
use crate::ast::{ExprValue, Symbol, SymbolModel};
use crate::ids::allocate_element_key;
use crate::scope::{Scope, ScopeView};
use crate::store::LinkedStore;
use crate::symbol_paths::PathComponentModel;
use crate::symbols::{Symbols, SymbolsView};
use crate::text::same_text;
use vstd::prelude::*;
use vstd::string::{StrSliceExecFns, StringExecFns};

verus! {

/// The active scopes, innermost last, and all symbol tables, newest last.
#[derive(Debug)]
pub struct Context {
    scopes: LinkedStore<Scope>,
    symbol_maps: LinkedStore<Symbols>,
}

/// The model of a context. Each entry is keyed by the identity of its value.
pub struct ContextView {
    /// The active scopes: the root first, the current scope last.
    pub scopes: Seq<(Seq<char>, ScopeView)>,
    /// Every symbol table that was registered, in the order of registration.
    pub tables: Seq<(Seq<char>, SymbolsView)>,
}

/// A scope without path segments.
pub open spec fn empty_scope(id: Seq<char>) -> ScopeView {
    ScopeView { id, symbol_path: Seq::empty(), action_path: Seq::empty() }
}

/// A symbol table without bindings.
pub open spec fn empty_table(id: Seq<char>, parent: Option<Seq<char>>) -> SymbolsView {
    SymbolsView { map_id: id, parent_map_id: parent, symbols: Map::empty() }
}

impl ContextView {
    /// No two scopes and no two tables share an identity, and each is keyed by its own.
    pub open spec fn valid(self) -> bool {
        &&& distinct_keys(self.scopes)
        &&& distinct_keys(self.tables)
        &&& forall|i: int| 0 <= i < self.scopes.len() ==> (#[trigger] self.scopes[i]).0 == self.scopes[i].1.id
        &&& forall|i: int| 0 <= i < self.tables.len() ==> (#[trigger] self.tables[i]).0 == self.tables[i].1.map_id
    }

    /// The identity of the current scope.
    pub open spec fn current_id(self) -> Seq<char>
        recommends
            self.scopes.len() > 0,
    {
        self.scopes.last().0
    }

    /// The context after `scope` became the current scope. A scope that was active under
    /// the same identity is replaced.
    pub open spec fn with_scope(self, scope: ScopeView) -> ContextView {
        ContextView { scopes: put_last(self.scopes, scope.id, scope), ..self }
    }

    /// The context after `table` was registered. A table that was registered under the
    /// same identity is replaced.
    pub open spec fn with_table(self, table: SymbolsView) -> ContextView {
        ContextView { tables: put_last(self.tables, table.map_id, table), ..self }
    }

    /// The context after a child scope `id` was pushed: a new empty table whose parent is
    /// the current scope's table, and a new current scope over it.
    pub open spec fn with_child(self, id: Seq<char>) -> ContextView
        recommends
            self.scopes.len() > 0,
    {
        self.with_table(empty_table(id, Some(self.current_id()))).with_scope(empty_scope(id))
    }

    /// The context after the current scope was popped. The tables stay.
    pub open spec fn popped(self) -> ContextView
        recommends
            self.scopes.len() > 0,
    {
        ContextView { scopes: self.scopes.drop_last(), ..self }
    }

    /// The context after `key` was bound to `sym` in the current scope's table. Nothing
    /// changes where that table was never registered.
    pub open spec fn with_binding(self, key: Seq<char>, sym: SymbolModel) -> ContextView
        recommends
            self.scopes.len() > 0,
    {
        match index_of(self.tables, self.current_id()) {
            Some(i) => ContextView {
                tables: self.tables.update(
                    i,
                    (
                        self.tables[i].0,
                        SymbolsView {
                            symbols: self.tables[i].1.symbols.insert(key, sym),
                            ..self.tables[i].1
                        },
                    ),
                ),
                ..self
            },
            None => self,
        }
    }

    /// The context after the current scope was replaced by `scope`, in place.
    pub open spec fn with_current(self, scope: ScopeView) -> ContextView
        recommends
            self.scopes.len() > 0,
    {
        ContextView {
            scopes: self.scopes.update(self.scopes.len() - 1, (self.scopes.last().0, scope)),
            ..self
        }
    }
}

/// An identity is fresh in a context where no scope and no table has it and no table
/// names it as its parent.
pub open spec fn fresh(ctx: ContextView, id: Seq<char>) -> bool {
    &&& !has_key(ctx.scopes, id)
    &&& !has_key(ctx.tables, id)
    &&& forall|i: int| 0 <= i < ctx.tables.len() ==> (#[trigger] ctx.tables[i]).1.parent_map_id != Some(id)
}

/// The symbol that `key` resolves to when the lookup starts at the table `start` and
/// follows parent links for at most `fuel` tables.
pub open spec fn resolve_from(
    tables: Seq<(Seq<char>, SymbolsView)>,
    start: Option<Seq<char>>,
    key: Seq<char>,
    fuel: nat,
) -> Option<SymbolModel>
    decreases fuel,
{
    if fuel == 0 {
        None
    } else {
        match start {
            None => None,
            Some(id) => match value_of(tables, id) {
                None => None,
                Some(table) => if table.symbols.contains_key(key) {
                    Some(table.symbols[key])
                } else {
                    resolve_from(tables, table.parent_map_id, key, (fuel - 1) as nat)
                },
            },
        }
    }
}

/// The symbol that `key` resolves to in a context: the lookup starts at the current
/// scope's table and follows parent links through the registered tables. A chain of
/// parents that is longer than the number of tables has run into a cycle and finds nothing.
pub open spec fn resolve(ctx: ContextView, key: Seq<char>) -> Option<SymbolModel> {
    if ctx.scopes.len() == 0 {
        None
    } else {
        resolve_from(ctx.tables, Some(ctx.current_id()), key, ctx.tables.len())
    }
}

impl View for Context {
    type V = ContextView;

    closed spec fn view(&self) -> ContextView {
        ContextView {
            scopes: map_vals(self.scopes.entries(), |s: Scope| s@),
            tables: map_vals(self.symbol_maps.entries(), |t: Symbols| t@),
        }
    }
}

impl Context {
    /// Both collections are well-formed, so is every table, and the model is valid.
    pub closed spec fn wf(&self) -> bool {
        &&& self.scopes.wf()
        &&& self.symbol_maps.wf()
        &&& self@.valid()
        &&& forall|i: int|
            0 <= i < self.symbol_maps.entries().len() ==> (#[trigger] self.symbol_maps.entries()[i]).1.wf()
    }

    /// The model of a well-formed context is valid.
    pub proof fn lemma_valid(&self)
        requires
            self.wf(),
        ensures
            self@.valid(),
    {
    }

    /// A context with `base_scope` as its only scope and `symbols` as its only table.
    pub fn new(base_scope: Scope, symbols: Symbols) -> (ctx: Context)
        requires
            symbols.wf(),
        ensures
            ctx.wf(),
            ctx@ == (ContextView {
                scopes: seq![(base_scope@.id, base_scope@)],
                tables: seq![(symbols@.map_id, symbols@)],
            }),
    {
        let mut ctx = Context { scopes: LinkedStore::new(), symbol_maps: LinkedStore::new() };
        assert(ctx@.scopes =~= Seq::empty());
        assert(ctx@.tables =~= Seq::empty());
        ctx.push_scope(base_scope);
        ctx.add_symbol_map(symbols);
        proof {
            let e = Seq::<(Seq<char>, ScopeView)>::empty();
            assert(put_last(e, base_scope@.id, base_scope@) =~= seq![(base_scope@.id, base_scope@)]);
            let t = Seq::<(Seq<char>, SymbolsView)>::empty();
            assert(put_last(t, symbols@.map_id, symbols@) =~= seq![(symbols@.map_id, symbols@)]);
        }
        ctx
    }

    /// The number of active scopes.
    pub fn depth(&self) -> (n: usize)
        ensures
            n == self@.scopes.len(),
    {
        self.scopes.len()
    }

    /// The current scope, if any scope is active.
    pub fn scope_ref(&self) -> (r: Option<&Scope>)
        requires
            self.wf(),
        ensures
            match r {
                Some(s) => self@.scopes.len() > 0 && s@ == self@.scopes.last().1,
                None => self@.scopes.len() == 0,
            },
    {
        self.scopes.back()
    }

    /// A copy of the current scope.
    pub fn scope(&self) -> (r: Scope)
        requires
            self.wf(),
            self@.scopes.len() > 0,
        ensures
            r@ == self@.scopes.last().1,
            r@.id == self@.current_id(),
    {
        let r = self.scopes.back().unwrap().clone();
        assert(self@.scopes.last().0 == self@.scopes[self@.scopes.len() - 1].1.id);
        r
    }

    /// Makes `scope` the current scope. A scope that is active under the same identity
    /// leaves its place in the stack.
    pub fn push_scope(&mut self, scope: Scope)
        requires
            old(self).wf(),
        ensures
            final(self).wf(),
            final(self)@ == old(self)@.with_scope(scope@),
    {
        let ghost f = |s: Scope| s@;
        let ghost before = self.scopes.entries();
        let key = scope.id().to_owned();
        self.scopes.insert(key, scope);
        proof {
            lemma_map_vals_put_last(before, f, scope@.id, scope);
            old(self).scopes.lemma_distinct();
            self.scopes.lemma_distinct();
            lemma_map_vals_distinct(self.scopes.entries(), f);
            lemma_put_last_keyed(old(self)@.scopes, scope@.id, scope@, |s: ScopeView| s.id);
            assert(self@.tables == old(self)@.tables);
        }
    }

    /// Removes the current scope from the stack. Its symbol table stays registered.
    pub fn pop_scope(&mut self)
        requires
            old(self).wf(),
            old(self)@.scopes.len() > 0,
        ensures
            final(self).wf(),
            final(self)@ == old(self)@.popped(),
    {
        self.scopes.pop_back();
        proof {
            assert(self@.scopes =~= old(self)@.scopes.drop_last());
            assert(self@.tables == old(self)@.tables);
            let a = self@.scopes;
            let b = old(self)@.scopes;
            assert forall|i: int, j: int| 0 <= i < j < a.len() implies (#[trigger] a[i]).0 != (
            #[trigger] a[j]).0 by {
                assert(a[i] == b[i] && a[j] == b[j]);
            }
            assert forall|i: int| 0 <= i < a.len() implies (#[trigger] a[i]).0 == a[i].1.id by {
                assert(a[i] == b[i]);
            }
        }
    }

    /// Registers a symbol table. A table that is registered under the same identity is
    /// replaced.
    pub fn add_symbol_map(&mut self, map: Symbols)
        requires
            old(self).wf(),
            map.wf(),
        ensures
            final(self).wf(),
            final(self)@ == old(self)@.with_table(map@),
    {
        let ghost f = |t: Symbols| t@;
        let ghost before = self.symbol_maps.entries();
        let key = map.map_id().to_owned();
        self.symbol_maps.insert(key, map);
        proof {
            lemma_map_vals_put_last(before, f, map@.map_id, map);
            old(self).symbol_maps.lemma_distinct();
            self.symbol_maps.lemma_distinct();
            lemma_map_vals_distinct(self.symbol_maps.entries(), f);
            lemma_put_last_keyed(old(self)@.tables, map@.map_id, map@, |t: SymbolsView| t.map_id);
            assert(self@.scopes == old(self)@.scopes);
            lemma_put_last_all(before, map@.map_id, map, |t: Symbols| t.wf());
        }
    }
}

/// Where every entry is keyed by `id_of` its value, it still is after an entry keyed so
/// was put last.
pub proof fn lemma_put_last_keyed<T>(
    s: Seq<(Seq<char>, T)>,
    k: Seq<char>,
    v: T,
    id_of: spec_fn(T) -> Seq<char>,
)
    requires
        distinct_keys(s),
        forall|i: int| 0 <= i < s.len() ==> (#[trigger] s[i]).0 == id_of(s[i].1),
        k == id_of(v),
    ensures
        forall|i: int|
            0 <= i < put_last(s, k, v).len() ==> (#[trigger] put_last(s, k, v)[i]).0 == id_of(
                put_last(s, k, v)[i].1,
            ),
{
    lemma_put_last_all(s, k, v, |e: T| true);
    let p = put_last(s, k, v);
    crate::assoc::lemma_without_key(s, k);
    lemma_index_of(s, k);
    assert forall|i: int| 0 <= i < p.len() implies (#[trigger] p[i]).0 == id_of(p[i].1) by {
        if i < p.len() - 1 {
            match index_of(s, k) {
                Some(x) => {
                    let i2 = if i < x { i } else { i + 1 };
                    assert(p[i] == s[i2]);
                },
                None => {
                    assert(p[i] == s[i]);
                },
            }
        }
    }
}

/// Where every value satisfies `good`, every value still does after a good one was put last.
pub proof fn lemma_put_last_all<T>(
    s: Seq<(Seq<char>, T)>,
    k: Seq<char>,
    v: T,
    good: spec_fn(T) -> bool,
)
    requires
        distinct_keys(s),
        forall|i: int| 0 <= i < s.len() ==> good((#[trigger] s[i]).1),
        good(v),
    ensures
        forall|i: int| 0 <= i < put_last(s, k, v).len() ==> good((#[trigger] put_last(s, k, v)[i]).1),
{
    let p = put_last(s, k, v);
    crate::assoc::lemma_without_key(s, k);
    lemma_index_of(s, k);
    assert forall|i: int| 0 <= i < p.len() implies good((#[trigger] p[i]).1) by {
        if i < p.len() - 1 {
            match index_of(s, k) {
                Some(x) => {
                    let i2 = if i < x { i } else { i + 1 };
                    assert(p[i] == s[i2]);
                },
                None => {
                    assert(p[i] == s[i]);
                },
            }
        }
    }
}

impl Context {
    /// Whether an identity is fresh in this context.
    pub fn is_fresh(&self, id: &str) -> (r: bool)
        requires
            self.wf(),
        ensures
            r == fresh(self@, id@),
    {
        let ghost f = |t: Symbols| t@;
        proof {
            lemma_map_vals_index_of(self.scopes.entries(), |s: Scope| s@, id@);
            lemma_map_vals_index_of(self.symbol_maps.entries(), f, id@);
        }
        if self.scopes.contains_key(id) || self.symbol_maps.contains_key(id) {
            return false;
        }
        let tables = self.symbol_maps.items();
        let mut i: usize = 0;
        while i < tables.len()
            invariant
                i <= tables@.len(),
                tables@.len() == self@.tables.len(),
                forall|j: int| 0 <= j < tables@.len() ==> tables@[j]@ == (#[trigger] self@.tables[j]).1,
                forall|j: int| 0 <= j < i ==> (#[trigger] self@.tables[j]).1.parent_map_id != Some(id@),
            decreases tables@.len() - i,
        {
            match tables[i].parent_map_id() {
                Some(parent) => {
                    if same_text(parent, id) {
                        assert(self@.tables[i as int].1.parent_map_id == Some(id@));
                        return false;
                    }
                },
                None => {},
            }
            i += 1;
        }
        true
    }

    /// A length that no identity in this context exceeds.
    fn longest_identity(&self) -> (m: usize)
        requires
            self.wf(),
        ensures
            forall|j: int| 0 <= j < self@.scopes.len() ==> (#[trigger] self@.scopes[j]).0.len() <= m,
            forall|j: int| 0 <= j < self@.tables.len() ==> (#[trigger] self@.tables[j]).0.len() <= m,
            forall|j: int|
                0 <= j < self@.tables.len() ==> match (#[trigger] self@.tables[j]).1.parent_map_id {
                    Some(p) => p.len() <= m,
                    None => true,
                },
    {
        let mut m: usize = 0;
        let scopes = self.scopes.items();
        let mut i: usize = 0;
        while i < scopes.len()
            invariant
                self.wf(),
                i <= scopes@.len(),
                scopes@.len() == self@.scopes.len(),
                forall|j: int| 0 <= j < scopes@.len() ==> scopes@[j]@ == (#[trigger] self@.scopes[j]).1,
                forall|j: int| 0 <= j < i ==> (#[trigger] self@.scopes[j]).0.len() <= m,
            decreases scopes@.len() - i,
        {
            let n = scopes[i].id().unicode_len();
            if n > m {
                m = n;
            }
            i += 1;
        }
        let tables = self.symbol_maps.items();
        let mut k: usize = 0;
        while k < tables.len()
            invariant
                self.wf(),
                k <= tables@.len(),
                tables@.len() == self@.tables.len(),
                forall|j: int| 0 <= j < tables@.len() ==> tables@[j]@ == (#[trigger] self@.tables[j]).1,
                forall|j: int| 0 <= j < self@.scopes.len() ==> (#[trigger] self@.scopes[j]).0.len() <= m,
                forall|j: int| 0 <= j < k ==> (#[trigger] self@.tables[j]).0.len() <= m,
                forall|j: int|
                    0 <= j < k ==> match (#[trigger] self@.tables[j]).1.parent_map_id {
                        Some(p) => p.len() <= m,
                        None => true,
                    },
            decreases tables@.len() - k,
        {
            let n = tables[k].map_id().unicode_len();
            if n > m {
                m = n;
            }
            match tables[k].parent_map_id() {
                Some(parent) => {
                    let n = parent.unicode_len();
                    if n > m {
                        m = n;
                    }
                },
                None => {},
            }
            k += 1;
        }
        m
    }

    /// An identity that is fresh in this context: a new random key, made longer than
    /// every identity of the context in the event that it is not fresh.
    pub fn fresh_key(&self) -> (key: String)
        requires
            self.wf(),
        ensures
            fresh(self@, key@),
    {
        let mut key = allocate_element_key();
        if self.is_fresh(key.as_str()) {
            return key;
        }
        let m = self.longest_identity();
        while key.as_str().unicode_len() <= m
            invariant
                self.wf(),
            decreases m - key@.len() + 1,
        {
            proof {
                reveal_strlit("-");
            }
            key.append("-");
        }
        proof {
            lemma_index_of(self@.scopes, key@);
            lemma_index_of(self@.tables, key@);
        }
        key
    }

    /// Registers a new empty table under the current scope's table and returns a scope
    /// over it. The scope is not pushed. The identity of the two is fresh.
    pub fn create_child_scope(&mut self) -> (r: Scope)
        requires
            old(self).wf(),
            old(self)@.scopes.len() > 0,
        ensures
            final(self).wf(),
            fresh(old(self)@, r@.id),
            r@ == empty_scope(r@.id),
            final(self)@ == old(self)@.with_table(
                empty_table(r@.id, Some(old(self)@.current_id())),
            ),
    {
        let parent_scope = self.scope();
        let map_id = self.fresh_key();
        let symbols = Symbols::with_map_id(map_id.as_str(), Some(parent_scope.map_id()));
        self.add_symbol_map(symbols);
        Scope::new_from_parent(map_id.as_str(), &parent_scope)
    }

    /// Pushes a child of the current scope: a new empty table whose parent is the current
    /// scope's table, and a new current scope over it, without path segments. The
    /// identity of the two is fresh, so every name resolves in the child to what it
    /// resolved to before.
    pub fn push_child_scope(&mut self)
        requires
            old(self).wf(),
            old(self)@.scopes.len() > 0,
        ensures
            final(self).wf(),
            final(self)@.scopes.len() > 0,
            fresh(old(self)@, final(self)@.current_id()),
            final(self)@ == old(self)@.with_child(final(self)@.current_id()),
            forall|key: Seq<char>| resolve(final(self)@, key) == resolve(old(self)@, key),
    {
        let scope = self.create_child_scope();
        let ghost id = scope@.id;
        self.push_scope(scope);
        proof {
            let sc = old(self)@.with_child(id).scopes;
            assert(sc.last() == (id, empty_scope(id)));
            assert forall|key: Seq<char>| resolve(self@, key) == resolve(old(self)@, key) by {
                crate::laws::law_child_scope_inherits(old(self)@, id, key);
            }
        }
    }

    /// Looks `key` up: first in the current scope's table, then in the table that it was
    /// created under, and so on. The active stack plays no part beyond naming the start.
    pub fn resolve_sym(&self, key: &str) -> (r: Option<Symbol>)
        requires
            self.wf(),
        ensures
            crate::ast::opt_symbol_model(r) == resolve(self@, key@),
    {
        let start = self.scopes.back_key();
        if start.is_none() {
            return None;
        }
        let mut cur: Option<String> = start;
        let mut fuel: usize = self.symbol_maps.len();
        let ghost f = |t: Symbols| t@;
        while fuel > 0
            invariant
                self.wf(),
                f == (|t: Symbols| t@),
                self@.scopes.len() > 0,
                resolve(self@, key@) == resolve_from(
                    self@.tables,
                    crate::ast::opt_text(cur),
                    key@,
                    fuel as nat,
                ),
            decreases fuel,
        {
            let id = match &cur {
                Some(id) => id,
                None => {
                    return None;
                },
            };
            proof {
                lemma_map_vals_index_of(self.symbol_maps.entries(), f, id@);
                lemma_index_of(self.symbol_maps.entries(), id@);
            }
            match self.symbol_maps.get(id.as_str()) {
                None => {
                    return None;
                },
                Some(table) => {
                    match table.get_sym(key) {
                        Some(sym) => {
                            return Some(sym.clone());
                        },
                        None => {
                            let next = crate::text::own_opt_text(table.parent_map_id());
                            cur = next;
                            fuel = fuel - 1;
                        },
                    }
                },
            }
        }
        None
    }

    /// Binds `key` to `sym` in the current scope's table, in place of what it was bound to
    /// there. Tables of enclosing scopes are not touched.
    pub fn add_sym(&mut self, key: &str, sym: Symbol)
        requires
            old(self).wf(),
            old(self)@.scopes.len() > 0,
        ensures
            final(self).wf(),
            final(self)@ == old(self)@.with_binding(key@, sym@),
    {
        let map_id = self.scopes.back_key().unwrap();
        let ghost f = |t: Symbols| t@;
        let ghost before = self.symbol_maps.entries();
        proof {
            lemma_map_vals_index_of(before, f, map_id@);
            lemma_index_of(before, map_id@);
        }
        if self.symbol_maps.contains_key(map_id.as_str()) {
            let ghost i = index_of(before, map_id@)->0;
            let table = self.symbol_maps.get_mut(map_id.as_str());
            table.add_sym(key, sym);
            proof {
                let after = self.symbol_maps.entries();
                assert(after[i].1@.map_id == before[i].1@.map_id);
                assert(self@.tables =~= old(self)@.with_binding(key@, sym@).tables);
                assert(self@.scopes == old(self)@.scopes);
                let a = self@.tables;
                let b = old(self)@.tables;
                assert forall|x: int, y: int| 0 <= x < y < a.len() implies (#[trigger] a[x]).0 != (
                #[trigger] a[y]).0 by {
                    assert(a[x].0 == b[x].0 && a[y].0 == b[y].0);
                }
                assert forall|x: int| 0 <= x < a.len() implies (#[trigger] a[x]).0
                    == a[x].1.map_id by {
                    assert(a[x].0 == b[x].0);
                    if x != i {
                        assert(a[x] == b[x]);
                    }
                }
                assert forall|x: int| 0 <= x < after.len() implies (#[trigger] after[x]).1.wf() by {
                    if x != i {
                        assert(after[x] == before[x]);
                    }
                }
            }
        }
    }

    /// Replacing the current scope by one of the same identity keeps the context
    /// well-formed.
    proof fn lemma_replace_current(before: &Context, after: &Context, scope: Scope)
        requires
            before.wf(),
            before@.scopes.len() > 0,
            after.symbol_maps == before.symbol_maps,
            after.scopes.wf(),
            scope@.id == before@.scopes.last().1.id,
            after.scopes.entries() == before.scopes.entries().update(
                before.scopes.entries().len() - 1,
                (before.scopes.entries().last().0, scope),
            ),
        ensures
            after.wf(),
            after@ == before@.with_current(scope@),
    {
        let a = after@.scopes;
        let b = before@.scopes;
        assert(a =~= before@.with_current(scope@).scopes);
        assert forall|x: int, y: int| 0 <= x < y < a.len() implies (#[trigger] a[x]).0 != (
        #[trigger] a[y]).0 by {
            assert(a[x].0 == b[x].0 && a[y].0 == b[y].0);
        }
        assert forall|x: int| 0 <= x < a.len() implies (#[trigger] a[x]).0 == a[x].1.id by {
            assert(a[x].0 == b[x].0);
            if x != a.len() - 1 {
                assert(a[x] == b[x]);
            }
        }
    }

    /// Appends an evaluated segment to the current scope's element-key path. Nothing
    /// happens where no scope is active.
    pub fn append_path_expr(&mut self, expr: &ExprValue)
        requires
            old(self).wf(),
        ensures
            final(self).wf(),
            final(self)@ == if old(self)@.scopes.len() > 0 {
                old(self)@.with_current(
                    ScopeView {
                        symbol_path: old(self)@.scopes.last().1.symbol_path.push(
                            PathComponentModel::EvalPathComponent(expr@),
                        ),
                        ..old(self)@.scopes.last().1
                    },
                )
            } else {
                old(self)@
            },
    {
        if self.scopes.len() > 0 {
            let scope = self.scopes.back_mut();
            scope.append_path_expr(expr);
            proof {
                Self::lemma_replace_current(old(self), self, self.scopes.entries().last().1);
            }
        }
    }

    /// Appends a fixed segment to the current scope's element-key path. Nothing happens
    /// where no scope is active.
    pub fn append_path_str(&mut self, s: &str)
        requires
            old(self).wf(),
        ensures
            final(self).wf(),
            final(self)@ == if old(self)@.scopes.len() > 0 {
                old(self)@.with_current(
                    ScopeView {
                        symbol_path: old(self)@.scopes.last().1.symbol_path.push(
                            PathComponentModel::StaticPathComponent(s@),
                        ),
                        ..old(self)@.scopes.last().1
                    },
                )
            } else {
                old(self)@
            },
    {
        if self.scopes.len() > 0 {
            let scope = self.scopes.back_mut();
            scope.append_path_str(s);
            proof {
                Self::lemma_replace_current(old(self), self, self.scopes.entries().last().1);
            }
        }
    }

    /// Appends an evaluated segment to the current scope's action path. Nothing happens
    /// where no scope is active.
    pub fn append_action_path_expr(&mut self, expr: &ExprValue)
        requires
            old(self).wf(),
        ensures
            final(self).wf(),
            final(self)@ == if old(self)@.scopes.len() > 0 {
                old(self)@.with_current(
                    ScopeView {
                        action_path: old(self)@.scopes.last().1.action_path.push(
                            PathComponentModel::EvalPathComponent(expr@),
                        ),
                        ..old(self)@.scopes.last().1
                    },
                )
            } else {
                old(self)@
            },
    {
        if self.scopes.len() > 0 {
            let scope = self.scopes.back_mut();
            scope.append_action_path_expr(expr);
            proof {
                Self::lemma_replace_current(old(self), self, self.scopes.entries().last().1);
            }
        }
    }

    /// Appends a fixed segment to the current scope's action path. Nothing happens where
    /// no scope is active.
    pub fn append_action_path_str(&mut self, s: &str)
        requires
            old(self).wf(),
        ensures
            final(self).wf(),
            final(self)@ == if old(self)@.scopes.len() > 0 {
                old(self)@.with_current(
                    ScopeView {
                        action_path: old(self)@.scopes.last().1.action_path.push(
                            PathComponentModel::StaticPathComponent(s@),
                        ),
                        ..old(self)@.scopes.last().1
                    },
                )
            } else {
                old(self)@
            },
    {
        if self.scopes.len() > 0 {
            let scope = self.scopes.back_mut();
            scope.append_action_path_str(s);
            proof {
                Self::lemma_replace_current(old(self), self, self.scopes.entries().last().1);
            }
        }
    }
}

impl Context {
    /// The active scopes, the root first.
    pub fn scopes_in_order(&self) -> (r: Vec<&Scope>)
        requires
            self.wf(),
        ensures
            r@.len() == self@.scopes.len(),
            forall|i: int| 0 <= i < r@.len() ==> r@[i]@ == (#[trigger] self@.scopes[i]).1,
    {
        self.scopes.items()
    }

    /// The number of registered tables.
    pub fn table_count(&self) -> (n: usize)
        ensures
            n == self@.tables.len(),
    {
        self.symbol_maps.len()
    }

    /// The table that is registered under `id`, if any.
    pub fn symbol_map(&self, id: &str) -> (r: Option<&Symbols>)
        requires
            self.wf(),
        ensures
            match r {
                Some(t) => t.wf() && value_of(self@.tables, id@) == Some(t@),
                None => value_of(self@.tables, id@) is None,
            },
    {
        proof {
            lemma_map_vals_index_of(self.symbol_maps.entries(), |t: Symbols| t@, id@);
            lemma_index_of(self.symbol_maps.entries(), id@);
        }
        self.symbol_maps.get(id)
    }
}

impl Default for Context {
    /// A context with one scope over one empty table without a parent.
    fn default() -> (ctx: Context)
        ensures
            ctx.wf(),
            ctx@.scopes.len() == 1,
            ctx@.tables.len() == 1,
            ctx@.scopes[0] == (ctx@.current_id(), empty_scope(ctx@.current_id())),
            ctx@.tables[0] == (ctx@.current_id(), empty_table(ctx@.current_id(), None)),
    {
        let symbols = Symbols::default();
        let base_scope = Scope::with_map_id(symbols.map_id());
        Context::new(base_scope, symbols)
    }
}

} // verus!
