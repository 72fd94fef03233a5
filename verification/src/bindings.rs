//! Registering the bindings of the current scope, and following symbols to what they
//! stand for.

use crate::ast::{
    plain_symbol, BindingModel, BindingType, ExprValue, ResolvedModel, Symbol, SymbolModel,
    SymbolRefModel, SymbolReferenceType,
};
use crate::context::{resolve, Context, ContextView};
use crate::scope::unbound_formal_param_model;
use crate::text::opt_str_text;
use vstd::prelude::*;

verus! {

/// The symbol that `sym` stands for: what its name resolves to where it was not looked
/// up yet and resolves, else `sym` itself.
pub open spec fn resolved_symbol(ctx: ContextView, sym: SymbolModel) -> SymbolModel {
    match sym.sym_ref {
        SymbolRefModel::UnresolvedReference(key) => match resolve(ctx, key) {
            Some(s) => s,
            None => sym,
        },
        _ => sym,
    }
}

impl Context {
    /// The symbol of a formal parameter `key` that the current scope declares.
    pub fn unbound_formal_param(&self, key: &str) -> (r: Symbol)
        requires
            self.wf(),
            self@.scopes.len() > 0,
        ensures
            r@ == unbound_formal_param_model(key@, Some(self@.current_id())),
    {
        self.scope().unbound_formal_param(key)
    }

    /// Binds `key` in the current scope to a formal parameter that the scope declares.
    pub fn add_unbound_formal_param(&mut self, key: &str)
        requires
            old(self).wf(),
            old(self)@.scopes.len() > 0,
        ensures
            final(self).wf(),
            final(self)@ == old(self)@.with_binding(
                key@,
                unbound_formal_param_model(key@, Some(old(self)@.current_id())),
            ),
    {
        let formal = self.unbound_formal_param(key);
        self.add_sym(key, formal);
    }

    /// Binds `key` in the current scope to the property `prop_key` as seen from the
    /// scope `scope_id`.
    pub fn add_element_prop_ref(&mut self, key: &str, prop_key: &str, scope_id: Option<&str>)
        requires
            old(self).wf(),
            old(self)@.scopes.len() > 0,
        ensures
            final(self).wf(),
            final(self)@ == old(self)@.with_binding(
                key@,
                plain_symbol(
                    SymbolRefModel::ResolvedReference(
                        key@,
                        ResolvedModel::PropReference(prop_key@),
                        opt_str_text(scope_id),
                    ),
                ),
            ),
    {
        let prop = Symbol::element_prop(key, prop_key, scope_id);
        self.add_sym(key, prop);
    }

    /// Binds `key` in the current scope to the expression that a caller supplied for it.
    pub fn add_invocation_prop(&mut self, key: &str, expr: Option<&ExprValue>)
        requires
            old(self).wf(),
            old(self)@.scopes.len() > 0,
        ensures
            final(self).wf(),
            final(self)@ == old(self)@.with_binding(
                key@,
                SymbolModel {
                    sym_ref: SymbolRefModel::ResolvedReference(
                        key@,
                        ResolvedModel::InvocationProp,
                        None,
                    ),
                    ty: None,
                    value: match expr {
                        Some(e) => Some(Box::new(e@)),
                        None => None,
                    },
                },
            ),
    {
        let invocation_prop = Symbol::invocation_prop(key, expr);
        self.add_sym(key, invocation_prop);
    }

    /// Binds `key` in the current scope to the action parameter of that name.
    pub fn add_action_param(&mut self, key: &str)
        requires
            old(self).wf(),
            old(self)@.scopes.len() > 0,
        ensures
            final(self).wf(),
            final(self)@ == old(self)@.with_binding(
                key@,
                plain_symbol(SymbolRefModel::Binding(BindingModel::ActionParamBinding(key@))),
            ),
    {
        let binding = BindingType::ActionParamBinding(key.to_owned());
        self.add_sym(key, Symbol::binding(&binding));
    }

    /// The symbol that `sym` stands for: what its name resolves to where it was not
    /// looked up yet and resolves, else a copy of `sym`.
    pub fn resolve_symbol_to_symbol(&self, sym: &Symbol) -> (r: Symbol)
        requires
            self.wf(),
        ensures
            r@ == resolved_symbol(self@, sym@),
    {
        match sym.sym_ref() {
            SymbolReferenceType::UnresolvedReference(key) => {
                match self.resolve_sym(key.as_str()) {
                    Some(found) => found,
                    None => sym.clone(),
                }
            },
            _ => sym.clone(),
        }
    }

    /// The expression that `sym` evaluates to. No symbol evaluates to an expression on
    /// its own: a formal parameter gets its value by shadowing, when the invoking scope
    /// binds its name, so `resolve_sym` finds what a caller supplied and there is
    /// nothing left to follow here. The result is `None` for every symbol.
    pub fn eval_sym(&self, sym: &Symbol) -> (r: Option<ExprValue>)
        requires
            self.wf(),
        ensures
            r is None,
    {
        None
    }
}

} // verus!
