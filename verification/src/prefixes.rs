//! Prefixes of one scope as texts: its element key with an optional index, its action
//! scope, its variable prefix, its default variable and a prefix expression injected by
//! a caller.

use crate::ast::{copy_symbol, opt_expr_model, opt_text, ExprModel, ExprOp, ExprValue, Symbol};
use crate::text::{copy_opt_text, decimal_text, dotted, number_text, upper, uppercase_text};
use vstd::prelude::*;

verus! {

/// The element key that a scope has accumulated.
#[derive(Debug)]
pub enum ElementKeyPrefixType {
    ScopeElementKeyPrefix(String),
}

/// The action scope that a scope has accumulated.
#[derive(Debug)]
pub enum ActionPrefixType {
    ScopeActionPrefix(String),
}

/// The prefix of the variables of a scope.
#[derive(Debug)]
pub enum VarPrefixType {
    ScopeVarPrefix(String),
}

pub type KeyPrefix = Option<ElementKeyPrefixType>;

pub type ActionPrefix = Option<ActionPrefixType>;

pub type VarPrefix = Option<VarPrefixType>;

pub type VarDefault = Option<String>;

pub type ExprPrefix = Option<ExprValue>;

pub type ElementIndex = Option<i32>;

/// The prefixes of one scope.
#[derive(Debug)]
pub struct ScopePrefixes(KeyPrefix, ActionPrefix, VarPrefix, VarDefault, ExprPrefix, ElementIndex);

/// The model of the prefixes of one scope.
pub struct ScopePrefixesView {
    pub key: Option<Seq<char>>,
    pub action_scope: Option<Seq<char>>,
    pub var_prefix: Option<Seq<char>>,
    pub default_var: Option<Seq<char>>,
    pub prefix_expr: Option<ExprModel>,
    pub index: Option<int>,
}

impl View for ScopePrefixes {
    type V = ScopePrefixesView;

    closed spec fn view(&self) -> ScopePrefixesView {
        ScopePrefixesView {
            key: match self.0 {
                Some(ElementKeyPrefixType::ScopeElementKeyPrefix(p)) => Some(p@),
                None => None,
            },
            action_scope: match self.1 {
                Some(ActionPrefixType::ScopeActionPrefix(p)) => Some(p@),
                None => None,
            },
            var_prefix: match self.2 {
                Some(VarPrefixType::ScopeVarPrefix(p)) => Some(p@),
                None => None,
            },
            default_var: opt_text(self.3),
            prefix_expr: opt_expr_model(self.4),
            index: match self.5 {
                Some(i) => Some(i as int),
                None => None,
            },
        }
    }
}

/// A text after a prefix and a dot, or alone where there is no prefix.
pub open spec fn prefixed(prefix: Option<Seq<char>>, key: Seq<char>) -> Seq<char> {
    match prefix {
        Some(p) => p + "."@ + key,
        None => key,
    }
}

impl ScopePrefixesView {
    /// The element key: the accumulated key, then a dot and the index where one is set.
    pub open spec fn element_key(self) -> Seq<char> {
        let key = match self.key {
            Some(p) => p,
            None => Seq::empty(),
        };
        match self.index {
            Some(i) => key + "."@ + decimal_text(i),
            None => key,
        }
    }

    /// The element key after `key` was appended: after a dot where the element key was
    /// not empty.
    pub open spec fn appended_key(self, key: Seq<char>) -> Seq<char> {
        if self.element_key().len() > 0 {
            self.element_key() + "."@ + key
        } else {
            key
        }
    }

    /// The type of the action `key` in this scope: upper case throughout, after the
    /// action scope and a dot where there is an action scope.
    pub open spec fn action_type(self, key: Seq<char>) -> Seq<char> {
        match self.action_scope {
            Some(p) => uppercase_text(p) + "."@ + uppercase_text(key),
            None => uppercase_text(key),
        }
    }

    /// The prefix expression joined to `value` by a sum, and then to a reference to the
    /// index symbol where one is given. `None` where no prefix expression is set.
    pub open spec fn prefix_expr_with(self, value: ExprModel, idx_sym: Option<crate::ast::SymbolModel>) -> Option<ExprModel> {
        match self.prefix_expr {
            Some(p) => {
                let sum = ExprModel::Expr(ExprOp::Add, Box::new(p), Box::new(value));
                match idx_sym {
                    Some(s) => Some(
                        ExprModel::Expr(
                            ExprOp::Add,
                            Box::new(sum),
                            Box::new(ExprModel::SymbolReference(s)),
                        ),
                    ),
                    None => Some(sum),
                }
            },
            None => None,
        }
    }
}

/// The type of an action from the upper-case forms of the action scope and of its key.
pub fn action_type_of(scope_upper: Option<String>, key_upper: String) -> (r: String)
    ensures
        r@ == prefixed(opt_text(scope_upper), key_upper@),
{
    match scope_upper {
        Some(p) => dotted(p.as_str(), key_upper.as_str()),
        None => key_upper,
    }
}

impl Default for ScopePrefixes {
    fn default() -> (r: ScopePrefixes)
        ensures
            r@ == (ScopePrefixesView {
                key: None,
                action_scope: None,
                var_prefix: None,
                default_var: None,
                prefix_expr: None,
                index: None,
            }),
    {
        ScopePrefixes(None, None, None, None, None, None)
    }
}

impl Clone for ScopePrefixes {
    fn clone(&self) -> (r: Self)
        ensures
            r@ == self@,
    {
        ScopePrefixes(
            match &self.0 {
                Some(ElementKeyPrefixType::ScopeElementKeyPrefix(p)) => Some(
                    ElementKeyPrefixType::ScopeElementKeyPrefix(p.clone()),
                ),
                None => None,
            },
            match &self.1 {
                Some(ActionPrefixType::ScopeActionPrefix(p)) => Some(
                    ActionPrefixType::ScopeActionPrefix(p.clone()),
                ),
                None => None,
            },
            match &self.2 {
                Some(VarPrefixType::ScopeVarPrefix(p)) => Some(
                    VarPrefixType::ScopeVarPrefix(p.clone()),
                ),
                None => None,
            },
            copy_opt_text(&self.3),
            match &self.4 {
                Some(e) => Some(e.clone()),
                None => None,
            },
            self.5,
        )
    }
}

impl ScopePrefixes {
    /// Records the index of the element within its collection.
    pub fn set_index(&mut self, idx: i32) -> (r: &mut Self)
        ensures
            r@ == (ScopePrefixesView { index: Some(idx as int), ..old(self)@ }),
            *final(self) == *final(r),
    {
        self.5 = Some(idx);
        self
    }

    /// Forgets the index.
    pub fn clear_index(&mut self) -> (r: &mut Self)
        ensures
            r@ == (ScopePrefixesView { index: None, ..old(self)@ }),
            *final(self) == *final(r),
    {
        self.5 = None;
        self
    }

    /// Sets the prefix expression.
    pub fn set_prefix_expr(&mut self, expr: &ExprValue) -> (r: &mut Self)
        ensures
            r@ == (ScopePrefixesView { prefix_expr: Some(expr@), ..old(self)@ }),
            *final(self) == *final(r),
    {
        self.4 = Some(expr.clone());
        self
    }

    /// Forgets the index, so that the element key ends at the accumulated key.
    pub fn clear_key(&mut self) -> (r: &mut Self)
        ensures
            r@ == (ScopePrefixesView { index: None, ..old(self)@ }),
            *final(self) == *final(r),
    {
        self.5 = None;
        self
    }

    /// Appends a key to the element key. An index that was set becomes part of the key
    /// and is then forgotten.
    pub fn append_key(&mut self, key: &str) -> (r: &mut Self)
        ensures
            r@ == (ScopePrefixesView {
                key: Some(old(self)@.appended_key(key@)),
                index: None,
                ..old(self)@
            }),
            *final(self) == *final(r),
    {
        let element_key = self.as_element_key();
        let key = if element_key.as_str().is_empty() {
            key.to_owned()
        } else {
            dotted(element_key.as_str(), key)
        };
        self.0 = Some(ElementKeyPrefixType::ScopeElementKeyPrefix(key));
        self.5 = None;
        self
    }

    /// Makes the type of the action `key` the action scope.
    pub fn append_action_scope(&mut self, key: &str) -> (r: &mut Self)
        ensures
            r@ == (ScopePrefixesView {
                action_scope: Some(old(self)@.action_type(key@)),
                ..old(self)@
            }),
            *final(self) == *final(r),
    {
        let action_scope = self.make_action_type(key);
        self.1 = Some(ActionPrefixType::ScopeActionPrefix(action_scope));
        self
    }

    /// Sets the default variable.
    pub fn set_default_var(&mut self, var_name: &str) -> (r: &mut Self)
        ensures
            r@ == (ScopePrefixesView { default_var: Some(var_name@), ..old(self)@ }),
            *final(self) == *final(r),
    {
        self.3 = Some(var_name.to_owned());
        self
    }

    /// The element key, with the index where one is set.
    pub fn as_element_key(&self) -> (r: String)
        ensures
            r@ == self@.element_key(),
    {
        self.complete_element_key()
    }

    /// The element key, with the index where one is set.
    pub fn complete_element_key(&self) -> (r: String)
        ensures
            r@ == self@.element_key(),
    {
        let key = match &self.0 {
            Some(ElementKeyPrefixType::ScopeElementKeyPrefix(prefix)) => prefix.clone(),
            None => {
                let e = String::new();
                e
            },
        };
        match self.5 {
            Some(idx) => {
                let digits = number_text(idx);
                dotted(key.as_str(), digits.as_str())
            },
            None => key,
        }
    }

    /// The prefix expression.
    pub fn prefix_expr(&self) -> (r: Option<&ExprValue>)
        ensures
            match r {
                Some(e) => self@.prefix_expr == Some(e@),
                None => self@.prefix_expr is None,
            },
    {
        self.4.as_ref()
    }

    /// The prefix expression joined to `value` by a sum, and then to a reference to
    /// `idx_sym` where one is given.
    pub fn make_prefix_expr(&self, value: &ExprValue, idx_sym: Option<&Symbol>) -> (r: Option<ExprValue>)
        ensures
            opt_expr_model(r) == self@.prefix_expr_with(
                value@,
                match idx_sym {
                    Some(s) => Some(s@),
                    None => None,
                },
            ),
    {
        match &self.4 {
            Some(s) => {
                let expr = ExprValue::Expr(ExprOp::Add, Box::new(s.clone()), Box::new(value.clone()));
                assert(expr@ == ExprModel::Expr(ExprOp::Add, Box::new(s@), Box::new(value@)));
                match idx_sym {
                    Some(idx_sym) => {
                        let sym = copy_symbol(idx_sym);
                        let reference = ExprValue::SymbolReference(sym);
                        assert(reference@ == ExprModel::SymbolReference(idx_sym@));
                        let whole = ExprValue::Expr(ExprOp::Add, Box::new(expr), Box::new(reference));
                        assert(whole@ == ExprModel::Expr(
                            ExprOp::Add,
                            Box::new(expr@),
                            Box::new(reference@),
                        ));
                        Some(whole)
                    },
                    None => Some(expr),
                }
            },
            None => None,
        }
    }

    /// The default variable.
    pub fn default_var(&self) -> (r: Option<String>)
        ensures
            opt_text(r) == self@.default_var,
    {
        copy_opt_text(&self.3)
    }

    /// The action scope.
    pub fn default_action_scope(&self) -> (r: Option<String>)
        ensures
            opt_text(r) == self@.action_scope,
    {
        match &self.1 {
            Some(ActionPrefixType::ScopeActionPrefix(prefix)) => Some(prefix.clone()),
            None => None,
        }
    }

    /// The type of the action `key` in this scope.
    pub fn make_action_type(&self, key: &str) -> (r: String)
        ensures
            r@ == self@.action_type(key@),
    {
        let scope_upper = match &self.1 {
            Some(ActionPrefixType::ScopeActionPrefix(prefix)) => Some(upper(prefix.as_str())),
            None => None,
        };
        action_type_of(scope_upper, upper(key))
    }

    /// The name of the variable `key` in this scope: after the variable prefix and a dot
    /// where there is a prefix.
    pub fn make_var_name(&self, key: &str) -> (r: String)
        ensures
            r@ == prefixed(self@.var_prefix, key@),
    {
        match &self.2 {
            Some(VarPrefixType::ScopeVarPrefix(prefix)) => dotted(prefix.as_str(), key),
            None => key.to_owned(),
        }
    }
}

} // verus!
