//! Scopes: the identity of a lexical region and the path segments that it contributes.

use crate::ast::{ExprModel, ExprValue, Symbol, SymbolModel};
use crate::symbol_paths::{
    join_of, join_operands, path_operands, push_operands, PathComponentModel, SymbolPathScope,
};
use crate::text::opt_str_text;
use vstd::prelude::*;

verus! {

/// A lexical region: a component body, an element, a loop body or an action.
#[derive(Debug, PartialEq)]
pub struct Scope {
    map_id: String,
    symbol_path: SymbolPathScope,
    action_path: SymbolPathScope,
}

/// The model of a scope: its identity, which is that of its symbol table, and the
/// segments that it appended to the element-key path and to the action path.
pub struct ScopeView {
    pub id: Seq<char>,
    pub symbol_path: Seq<PathComponentModel>,
    pub action_path: Seq<PathComponentModel>,
}

impl View for Scope {
    type V = ScopeView;

    closed spec fn view(&self) -> ScopeView {
        ScopeView {
            id: self.map_id@,
            symbol_path: self.symbol_path@,
            action_path: self.action_path@,
        }
    }
}

impl Clone for Scope {
    fn clone(&self) -> (r: Self)
        ensures
            r@ == self@,
    {
        Scope {
            map_id: self.map_id.clone(),
            symbol_path: self.symbol_path.clone(),
            action_path: self.action_path.clone(),
        }
    }
}

/// The symbol of a formal parameter `key` that the scope `scope_id` declares.
pub open spec fn unbound_formal_param_model(key: Seq<char>, scope_id: Option<Seq<char>>) -> SymbolModel {
    SymbolModel {
        sym_ref: crate::ast::SymbolRefModel::ResolvedReference(
            key,
            crate::ast::ResolvedModel::ReferenceToKeyInScope(
                crate::ast::KeyReferenceType::UnboundFormalParam,
                scope_id,
            ),
            None,
        ),
        ty: None,
        value: None,
    }
}

impl Scope {
    /// A scope over the symbol table `map_id`, with no path segments.
    pub fn with_map_id(map_id: &str) -> (r: Scope)
        ensures
            r@ == (ScopeView {
                id: map_id@,
                symbol_path: Seq::empty(),
                action_path: Seq::empty(),
            }),
    {
        Scope {
            map_id: map_id.to_owned(),
            symbol_path: SymbolPathScope::default(),
            action_path: SymbolPathScope::default(),
        }
    }

    /// A scope over the symbol table `map_id` that is nested in `parent`. It starts
    /// without path segments of its own: a join walks the enclosing scopes.
    pub fn new_from_parent(map_id: &str, parent: &Scope) -> (r: Scope)
        ensures
            r@ == (ScopeView {
                id: map_id@,
                symbol_path: Seq::empty(),
                action_path: Seq::empty(),
            }),
    {
        Scope::with_map_id(map_id)
    }

    /// The scope's identity.
    pub fn id(&self) -> (r: &str)
        ensures
            r@ == self@.id,
    {
        self.map_id.as_str()
    }

    /// The identity of the scope's symbol table, which is the scope's own.
    pub fn map_id(&self) -> (r: &str)
        ensures
            r@ == self@.id,
    {
        self.map_id.as_str()
    }

    /// The segments of the element-key path.
    pub fn symbol_path(&self) -> (r: &SymbolPathScope)
        ensures
            r@ == self@.symbol_path,
    {
        &self.symbol_path
    }

    /// The segments of the action path.
    pub fn action_path(&self) -> (r: &SymbolPathScope)
        ensures
            r@ == self@.action_path,
    {
        &self.action_path
    }

    /// Appends an evaluated segment to the element-key path.
    pub fn append_path_expr(&mut self, expr: &ExprValue)
        ensures
            final(self)@ == (ScopeView {
                symbol_path: old(self)@.symbol_path.push(
                    PathComponentModel::EvalPathComponent(expr@),
                ),
                ..old(self)@
            }),
    {
        self.symbol_path.append_expr(expr);
    }

    /// Appends a fixed segment to the element-key path.
    pub fn append_path_str(&mut self, s: &str)
        ensures
            final(self)@ == (ScopeView {
                symbol_path: old(self)@.symbol_path.push(
                    PathComponentModel::StaticPathComponent(s@),
                ),
                ..old(self)@
            }),
    {
        self.symbol_path.append_str(s);
    }

    /// Appends an evaluated segment to the action path.
    pub fn append_action_path_expr(&mut self, expr: &ExprValue)
        ensures
            final(self)@ == (ScopeView {
                action_path: old(self)@.action_path.push(
                    PathComponentModel::EvalPathComponent(expr@),
                ),
                ..old(self)@
            }),
    {
        self.action_path.append_expr(expr);
    }

    /// Appends a fixed segment to the action path.
    pub fn append_action_path_str(&mut self, s: &str)
        ensures
            final(self)@ == (ScopeView {
                action_path: old(self)@.action_path.push(
                    PathComponentModel::StaticPathComponent(s@),
                ),
                ..old(self)@
            }),
    {
        self.action_path.append_str(s);
    }

    /// The scope's own element-key segments as one deferred join.
    pub fn join_path_as_expr(&self, s: Option<&str>) -> (r: ExprValue)
        ensures
            r@ == join_of(opt_str_text(s), path_operands(self@.symbol_path, false)),
    {
        self.symbol_path.join_as_expr(s).unwrap()
    }

    /// The scope's own element-key segments and then the text `last`, as one deferred join.
    pub fn join_path_as_expr_with(&self, sep: Option<&str>, last: &str) -> (r: ExprValue)
        ensures
            r@ == join_of(
                opt_str_text(sep),
                path_operands(self@.symbol_path, false).push(ExprModel::LiteralString(last@)),
            ),
    {
        let mut operands: Vec<Box<ExprValue>> = Vec::new();
        assert(crate::ast::boxed_exprs_model(operands@) =~= Seq::<ExprModel>::empty());
        push_operands(&mut operands, self.symbol_path.components(), false);
        let ghost before = crate::ast::boxed_exprs_model(operands@);
        operands.push(Box::new(ExprValue::LiteralString(last.to_owned())));
        assert(crate::ast::boxed_exprs_model(operands@) =~= path_operands(
            self@.symbol_path,
            false,
        ).push(ExprModel::LiteralString(last@)));
        join_operands(sep, operands)
    }

    /// The scope's own action segments as one deferred join, fixed texts upper-cased.
    pub fn join_action_path_as_expr(&self, s: Option<&str>) -> (r: ExprValue)
        ensures
            r@ == join_of(opt_str_text(s), path_operands(self@.action_path, true)),
    {
        self.action_path.join_as_action_expr(s)
    }

    /// The symbol of a formal parameter that this scope declares.
    pub fn unbound_formal_param(&self, key: &str) -> (r: Symbol)
        ensures
            r@ == unbound_formal_param_model(key@, Some(self@.id)),
    {
        Symbol::unbound_formal_param(key, Some(self.map_id.as_str()))
    }
}

} // verus!
