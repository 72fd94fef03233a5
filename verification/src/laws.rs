//! Laws of resolution: what pushing, binding and popping do to the names that resolve.

use crate::assoc::{
    distinct_keys, has_key, index_of, lemma_index_of, lemma_index_of_unique, lemma_without_key,
    put_last, value_of,
};
use crate::ast::{ExprModel, SymbolModel};
use crate::context::{empty_scope, empty_table, fresh, resolve, resolve_from, ContextView};
use crate::join::stack_operands;
use crate::reduce::{reduce_model, reduce_or_same};
use crate::scope::ScopeView;
use crate::symbol_paths::{path_operands, PathComponentModel};
use crate::symbols::SymbolsView;
use vstd::prelude::*;

verus! {

/// The tables.
pub type Tables = Seq<(Seq<char>, SymbolsView)>;

/// The lookup that never visits a table twice: each table that was searched is set aside.
pub open spec fn resolve_once(tables: Tables, start: Option<Seq<char>>, key: Seq<char>) -> Option<SymbolModel>
    decreases tables.len(),
{
    match start {
        None => None,
        Some(id) => match index_of(tables, id) {
            None => None,
            Some(i) => if 0 <= i < tables.len() {
                if tables[i].1.symbols.contains_key(key) {
                    Some(tables[i].1.symbols[key])
                } else {
                    resolve_once(tables.remove(i), tables[i].1.parent_map_id, key)
                }
            } else {
                None
            },
        },
    }
}

/// Removing an entry keeps the keys distinct.
pub proof fn lemma_remove_distinct<T>(s: Seq<(Seq<char>, T)>, i: int)
    requires
        distinct_keys(s),
        0 <= i < s.len(),
    ensures
        distinct_keys(s.remove(i)),
{
    let r = s.remove(i);
    assert forall|a: int, b: int| 0 <= a < b < r.len() implies (#[trigger] r[a]).0 != (#[trigger] r[b]).0 by {
        let a2 = if a < i { a } else { a + 1 };
        let b2 = if b < i { b } else { b + 1 };
        assert(r[a] == s[a2] && r[b] == s[b2]);
    }
}

/// What a key finds once an entry was removed: nothing for the key of that entry, and
/// for any other key what it found before.
pub proof fn lemma_remove_value<T>(s: Seq<(Seq<char>, T)>, i: int, q: Seq<char>)
    requires
        distinct_keys(s),
        0 <= i < s.len(),
    ensures
        value_of(s.remove(i), q) == if q == s[i].0 {
            None
        } else {
            value_of(s, q)
        },
{
    let r = s.remove(i);
    lemma_remove_distinct(s, i);
    lemma_index_of(s, q);
    lemma_index_of(r, q);
    if index_of(r, q) is Some {
        let z = index_of(r, q)->0;
        let z2 = if z < i { z } else { z + 1 };
        assert(r[z] == s[z2]);
        assert(s[z2].0 != s[i].0);
        lemma_index_of_unique(s, z2);
    } else {
        if q != s[i].0 && index_of(s, q) is Some {
            let y = index_of(s, q)->0;
            let y2 = if y < i { y } else { y - 1 };
            assert(r[y2] == s[y]);
        }
    }
}

/// A lookup that found a symbol finds it with any larger bound too.
pub proof fn lemma_more_fuel_keeps_found(tables: Tables, start: Option<Seq<char>>, key: Seq<char>, f: nat, g: nat)
    requires
        resolve_from(tables, start, key, f) is Some,
        f <= g,
    ensures
        resolve_from(tables, start, key, g) == resolve_from(tables, start, key, f),
    decreases f,
{
    if f > 0 {
        match start {
            None => {},
            Some(id) => match value_of(tables, id) {
                None => {},
                Some(table) => {
                    if !table.symbols.contains_key(key) {
                        lemma_more_fuel_keeps_found(
                            tables,
                            table.parent_map_id,
                            key,
                            (f - 1) as nat,
                            (g - 1) as nat,
                        );
                    }
                },
            },
        }
    }
}

/// A lookup that finds nothing finds nothing with any smaller bound either.
pub proof fn lemma_less_fuel_finds_nothing(tables: Tables, start: Option<Seq<char>>, key: Seq<char>, f: nat, g: nat)
    requires
        resolve_from(tables, start, key, g) is None,
        f <= g,
    ensures
        resolve_from(tables, start, key, f) is None,
{
    if resolve_from(tables, start, key, f) is Some {
        lemma_more_fuel_keeps_found(tables, start, key, f, g);
    }
}

/// What is found without the table at `i` is found with it.
pub proof fn lemma_found_without_is_found(tables: Tables, i: int, start: Option<Seq<char>>, key: Seq<char>, f: nat)
    requires
        distinct_keys(tables),
        0 <= i < tables.len(),
        resolve_from(tables.remove(i), start, key, f) is Some,
    ensures
        resolve_from(tables, start, key, f) == resolve_from(tables.remove(i), start, key, f),
    decreases f,
{
    if f > 0 {
        match start {
            None => {},
            Some(id) => {
                lemma_remove_value(tables, i, id);
                match value_of(tables.remove(i), id) {
                    None => {},
                    Some(table) => {
                        if !table.symbols.contains_key(key) {
                            lemma_found_without_is_found(
                                tables,
                                i,
                                table.parent_map_id,
                                key,
                                (f - 1) as nat,
                            );
                        }
                    },
                }
            },
        }
    }
}

/// Where the table at `i` does not bind the key, and neither the lookup from `start`
/// nor the one from that table's parent finds the key without that table, the lookup
/// from `start` does not find it with that table either.
pub proof fn lemma_nothing_without_is_nothing(tables: Tables, i: int, start: Option<Seq<char>>, key: Seq<char>, f: nat)
    requires
        distinct_keys(tables),
        0 <= i < tables.len(),
        !tables[i].1.symbols.contains_key(key),
        resolve_from(tables.remove(i), start, key, f) is None,
        resolve_from(tables.remove(i), tables[i].1.parent_map_id, key, f) is None,
    ensures
        resolve_from(tables, start, key, f) is None,
    decreases f,
{
    if f > 0 {
        let parent = tables[i].1.parent_map_id;
        let g = (f - 1) as nat;
        lemma_less_fuel_finds_nothing(tables.remove(i), parent, key, g, f);
        match start {
            None => {},
            Some(id) => {
                lemma_remove_value(tables, i, id);
                if id == tables[i].0 {
                    lemma_index_of_unique(tables, i);
                    lemma_nothing_without_is_nothing(tables, i, parent, key, g);
                } else {
                    match value_of(tables, id) {
                        None => {},
                        Some(table) => {
                            lemma_nothing_without_is_nothing(tables, i, table.parent_map_id, key, g);
                        },
                    }
                }
            },
        }
    }
}

/// A lookup bounded by at least the number of tables is the lookup that never visits a
/// table twice.
pub proof fn lemma_bounded_is_once(tables: Tables, start: Option<Seq<char>>, key: Seq<char>, f: nat)
    requires
        distinct_keys(tables),
        f >= tables.len(),
    ensures
        resolve_from(tables, start, key, f) == resolve_once(tables, start, key),
    decreases tables.len(),
{
    match start {
        None => {},
        Some(id) => {
            lemma_index_of(tables, id);
            match index_of(tables, id) {
                None => {},
                Some(i) => {
                    let table = tables[i].1;
                    if !table.symbols.contains_key(key) {
                        let rest = tables.remove(i);
                        let g = (f - 1) as nat;
                        lemma_remove_distinct(tables, i);
                        lemma_bounded_is_once(rest, table.parent_map_id, key, g);
                        if resolve_from(rest, table.parent_map_id, key, g) is Some {
                            lemma_found_without_is_found(tables, i, table.parent_map_id, key, g);
                        } else {
                            lemma_nothing_without_is_nothing(
                                tables,
                                i,
                                table.parent_map_id,
                                key,
                                g,
                            );
                        }
                    }
                },
            }
        },
    }
}

/// A bound beyond the number of tables changes nothing: a chain of parents that is
/// longer than that has run into a cycle.
pub proof fn law_bound_is_enough(tables: Tables, start: Option<Seq<char>>, key: Seq<char>, f: nat)
    requires
        distinct_keys(tables),
        f >= tables.len(),
    ensures
        resolve_from(tables, start, key, f) == resolve_from(tables, start, key, tables.len()),
{
    lemma_bounded_is_once(tables, start, key, f);
    lemma_bounded_is_once(tables, start, key, tables.len());
}

/// A table that is registered last under a fresh identity, whatever it binds, is never
/// reached by a lookup that starts elsewhere.
pub proof fn lemma_fresh_table_is_unreachable(
    tables: Tables,
    id: Seq<char>,
    table: SymbolsView,
    start: Option<Seq<char>>,
    key: Seq<char>,
    f: nat,
)
    requires
        distinct_keys(tables),
        !has_key(tables, id),
        forall|i: int| 0 <= i < tables.len() ==> (#[trigger] tables[i]).1.parent_map_id != Some(id),
        start != Some(id),
    ensures
        resolve_from(tables.push((id, table)), start, key, f) == resolve_from(tables, start, key, f),
    decreases f,
{
    if f > 0 {
        match start {
            None => {},
            Some(s) => {
                let more = tables.push((id, table));
                assert(more.drop_last() =~= tables);
                lemma_index_of(tables, s);
                match value_of(tables, s) {
                    None => {},
                    Some(t) => {
                        lemma_fresh_table_is_unreachable(
                            tables,
                            id,
                            table,
                            t.parent_map_id,
                            key,
                            (f - 1) as nat,
                        );
                    },
                }
            },
        }
    }
}

/// Putting an entry last under a key that no entry has appends it.
pub proof fn lemma_put_last_fresh<T>(s: Seq<(Seq<char>, T)>, k: Seq<char>, v: T)
    requires
        distinct_keys(s),
        !has_key(s, k),
    ensures
        put_last(s, k, v) == s.push((k, v)),
{
    lemma_without_key(s, k);
}

/// A child scope inherits: after a child scope was pushed under a fresh identity, every
/// name resolves to what it resolved to before.
pub proof fn law_child_scope_inherits(ctx: ContextView, id: Seq<char>, key: Seq<char>)
    requires
        ctx.valid(),
        ctx.scopes.len() > 0,
        fresh(ctx, id),
    ensures
        resolve(ctx.with_child(id), key) == resolve(ctx, key),
{
    let table = empty_table(id, Some(ctx.current_id()));
    let child = ctx.with_child(id);
    lemma_put_last_fresh(ctx.tables, id, table);
    lemma_put_last_fresh(ctx.scopes, id, empty_scope(id));
    assert(child.tables.drop_last() =~= ctx.tables);
    assert(child.current_id() == id);
    let n = ctx.tables.len();
    assert(value_of(child.tables, id) == Some(table));
    assert(resolve(child, key) == resolve_from(child.tables, Some(ctx.current_id()), key, n));
    assert(ctx.current_id() != id) by {
        lemma_index_of(ctx.scopes, id);
    }
    lemma_fresh_table_is_unreachable(ctx.tables, id, table, Some(ctx.current_id()), key, n);
}

/// Popping removes local visibility: after a child scope was pushed under a fresh
/// identity, a name was bound in it and the scope was popped, every name resolves to
/// what it resolved to before the push.
pub proof fn law_pop_forgets_child_bindings(
    ctx: ContextView,
    id: Seq<char>,
    bound: Seq<char>,
    sym: SymbolModel,
    key: Seq<char>,
)
    requires
        ctx.valid(),
        ctx.scopes.len() > 0,
        fresh(ctx, id),
    ensures
        resolve(ctx.with_child(id).with_binding(bound, sym).popped(), key) == resolve(ctx, key),
{
    let table = empty_table(id, Some(ctx.current_id()));
    let child = ctx.with_child(id);
    lemma_put_last_fresh(ctx.tables, id, table);
    lemma_put_last_fresh(ctx.scopes, id, empty_scope(id));
    assert(child.tables.drop_last() =~= ctx.tables);
    assert(child.scopes.drop_last() =~= ctx.scopes);
    assert(child.current_id() == id);
    let n = ctx.tables.len();
    assert(index_of(child.tables, id) == Some(n as int));
    let filled = SymbolsView { symbols: table.symbols.insert(bound, sym), ..table };
    let after = child.with_binding(bound, sym).popped();
    assert(after.tables =~= ctx.tables.push((id, filled)));
    assert(after.scopes == ctx.scopes);
    assert(ctx.current_id() != id) by {
        lemma_index_of(ctx.scopes, id);
    }
    lemma_fresh_table_is_unreachable(
        ctx.tables,
        id,
        filled,
        Some(ctx.current_id()),
        key,
        (n + 1) as nat,
    );
    law_bound_is_enough(ctx.tables, Some(ctx.current_id()), key, (n + 1) as nat);
}

/// Whatever was bound in a popped child is forgotten: where the table of a child scope
/// was registered under a fresh identity and the scope was popped again, every name
/// resolves to what it resolved to before the push, whatever the child's table holds by
/// then.
pub proof fn law_pop_restores_resolution(ctx: ContextView, id: Seq<char>, table: SymbolsView, key: Seq<char>)
    requires
        ctx.valid(),
        ctx.scopes.len() > 0,
        fresh(ctx, id),
    ensures
        resolve(ContextView { tables: ctx.tables.push((id, table)), ..ctx }, key) == resolve(
            ctx,
            key,
        ),
{
    let n = ctx.tables.len();
    assert(ctx.current_id() != id) by {
        lemma_index_of(ctx.scopes, id);
    }
    lemma_fresh_table_is_unreachable(
        ctx.tables,
        id,
        table,
        Some(ctx.current_id()),
        key,
        (n + 1) as nat,
    );
    law_bound_is_enough(ctx.tables, Some(ctx.current_id()), key, (n + 1) as nat);
}

/// Changing what one table binds under `bound` changes no lookup of another name.
pub proof fn lemma_binding_leaves_other_names(
    tables: Tables,
    i: int,
    bound: Seq<char>,
    sym: SymbolModel,
    start: Option<Seq<char>>,
    key: Seq<char>,
    f: nat,
)
    requires
        distinct_keys(tables),
        0 <= i < tables.len(),
        key != bound,
    ensures
        resolve_from(
            tables.update(
                i,
                (
                    tables[i].0,
                    SymbolsView { symbols: tables[i].1.symbols.insert(bound, sym), ..tables[i].1 },
                ),
            ),
            start,
            key,
            f,
        ) == resolve_from(tables, start, key, f),
    decreases f,
{
    let filled = SymbolsView { symbols: tables[i].1.symbols.insert(bound, sym), ..tables[i].1 };
    let after = tables.update(i, (tables[i].0, filled));
    if f > 0 {
        match start {
            None => {},
            Some(id) => {
                lemma_index_of(tables, id);
                crate::assoc::lemma_index_of_same_keys(after, tables, id);
                match value_of(tables, id) {
                    None => {},
                    Some(t) => {
                        lemma_binding_leaves_other_names(
                            tables,
                            i,
                            bound,
                            sym,
                            t.parent_map_id,
                            key,
                            (f - 1) as nat,
                        );
                    },
                }
            },
        }
    }
}

/// A binding resolves: a name that was bound in the current scope resolves to the symbol
/// that it was bound to, and every other name resolves as before. Binding several names
/// to one symbol therefore makes each of them resolve to that symbol.
pub proof fn law_binding_resolves(ctx: ContextView, bound: Seq<char>, sym: SymbolModel, key: Seq<char>)
    requires
        ctx.valid(),
        ctx.scopes.len() > 0,
        has_key(ctx.tables, ctx.current_id()),
    ensures
        resolve(ctx.with_binding(bound, sym), key) == if key == bound {
            Some(sym)
        } else {
            resolve(ctx, key)
        },
{
    let id = ctx.current_id();
    lemma_index_of(ctx.tables, id);
    let i = index_of(ctx.tables, id)->0;
    let after = ctx.with_binding(bound, sym);
    crate::assoc::lemma_index_of_same_keys(after.tables, ctx.tables, id);
    if key == bound {
        assert(after.tables[i].1.symbols.contains_key(key));
    } else {
        lemma_binding_leaves_other_names(
            ctx.tables,
            i,
            bound,
            sym,
            Some(id),
            key,
            ctx.tables.len(),
        );
    }
}

/// The operands of a stack with one more scope on top.
pub proof fn lemma_stack_operands_push(scopes: Seq<(Seq<char>, ScopeView)>, id: Seq<char>, scope: ScopeView, action: bool)
    ensures
        stack_operands(scopes.push((id, scope)), action) == stack_operands(scopes, action)
            + path_operands(
            if action {
                scope.action_path
            } else {
                scope.symbol_path
            },
            action,
        ),
{
    assert(scopes.push((id, scope)).drop_last() =~= scopes);
}

/// Nested keys join in order: after a child scope was pushed under a fresh identity and
/// a fixed segment was appended to it, the element-key path has that segment as one
/// more text operand after those of the enclosing scopes. Nothing is concatenated.
pub proof fn law_child_segment_is_joined_last(ctx: ContextView, id: Seq<char>, segment: Seq<char>)
    requires
        ctx.valid(),
        ctx.scopes.len() > 0,
        fresh(ctx, id),
    ensures
        stack_operands(
            ctx.with_child(id).with_current(
                ScopeView {
                    symbol_path: seq![PathComponentModel::StaticPathComponent(segment)],
                    ..empty_scope(id)
                },
            ).scopes,
            false,
        ) == stack_operands(ctx.scopes, false).push(ExprModel::LiteralString(segment)),
{
    let scope = ScopeView {
        symbol_path: seq![PathComponentModel::StaticPathComponent(segment)],
        ..empty_scope(id)
    };
    lemma_put_last_fresh(ctx.scopes, id, empty_scope(id));
    let after = ctx.with_child(id).with_current(scope).scopes;
    assert(after =~= ctx.scopes.push((id, scope)));
    lemma_stack_operands_push(ctx.scopes, id, scope, false);
    assert(path_operands(scope.symbol_path, false) =~= seq![ExprModel::LiteralString(segment)]);
    assert(stack_operands(ctx.scopes, false) + seq![ExprModel::LiteralString(segment)]
        =~= stack_operands(ctx.scopes, false).push(ExprModel::LiteralString(segment)));
}

/// No oscillation: an expression that has no reduction in a context is kept as it is,
/// and reducing it again in that context gives no reduction again. A reduction reads the
/// context and never changes it.
pub proof fn law_no_progress_is_stable(ctx: ContextView, e: ExprModel)
    requires
        reduce_model(ctx, e) is None,
    ensures
        reduce_or_same(ctx, e) == e,
        reduce_model(ctx, reduce_or_same(ctx, e)) is None,
{
}

} // verus!
