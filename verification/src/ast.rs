//! Expressions and symbols: the values that scopes bind and that the evaluator rewrites.
//!
//! Every executable type here has a mathematical model (`ExprModel`, `SymbolModel`, ...)
//! reached through `@`. Contracts throughout the crate are stated over these models.

use crate::text::copy_opt_text;
use vstd::prelude::*;

verus! {

/// Binary operators of the expression language.
#[derive(Debug, Clone, Copy, PartialEq, Eq, Structural)]
pub enum ExprOp {
    Add,
    Sub,
    Mul,
    Div,
    EqualTo,
    NotEqualTo,
    LessThan,
    LessThanOrEqualTo,
    GreaterThan,
    GreaterThanOrEqualTo,
}

/// Optional type tag carried on a binding. The resolver never inspects it.
#[derive(Debug, Clone, Copy, PartialEq, Eq, Structural)]
pub enum VarType {
    StringVar,
    NumberVar,
    BoolVar,
    ArrayVar,
    ObjectVar,
}

/// What kind of key a scoped reference stands for.
#[derive(Debug, Clone, Copy, PartialEq, Eq, Structural)]
pub enum KeyReferenceType {
    UnboundFormalParam,
    UnboundActionParam,
}

/// Operator of an `Apply` node.
#[derive(Debug, PartialEq)]
pub enum ExprApplyOp {
    /// Deferred string concatenation with an optional separator.
    JoinString(Option<String>),
}

/// Structural bindings supplied by the tree walk.
#[derive(Debug, PartialEq)]
pub enum BindingType {
    ReducerPathBinding(String),
    ActionStateBinding,
    ActionParamBinding(String),
    ComponentKeyBinding,
    LoopIndexBinding,
}

/// What a resolved name refers to.
#[derive(Debug, PartialEq)]
pub enum ResolvedSymbolType {
    ReducerKeyReference(String),
    PropReference(String),
    LoopVarReference(String),
    InvocationProp,
    ReferenceToKeyInScope(KeyReferenceType, Option<String>),
}

/// The binding state of a name.
#[derive(Debug, PartialEq)]
pub enum SymbolReferenceType {
    /// A name that has not been looked up yet.
    UnresolvedReference(String),
    /// A name, what it refers to, and the scope that the lookup starts from.
    ResolvedReference(String, ResolvedSymbolType, Option<String>),
    Binding(BindingType),
    /// The first symbol is the default, the second is used once it resolves.
    InitialValue(Box<Symbol>, Box<Symbol>),
}

/// A symbol: a reference, an optional type tag and an optional bound expression.
#[derive(Debug, PartialEq)]
pub struct Symbol(pub SymbolReferenceType, pub Option<VarType>, pub Option<Box<ExprValue>>);

/// An expression tree.
#[derive(Debug, PartialEq)]
pub enum ExprValue {
    LiteralNumber(i32),
    LiteralString(String),
    LiteralBool(bool),
    LiteralNull,
    LiteralArray(Option<Vec<ExprValue>>),
    VariableReference(String),
    DefaultVariableReference,
    SymbolReference(Symbol),
    Binding(BindingType),
    Expr(ExprOp, Box<ExprValue>, Box<ExprValue>),
    Apply(ExprApplyOp, Option<Vec<Box<ExprValue>>>),
}

/// A named property with an optional value.
pub type Prop = (String, Option<ExprValue>);

/// An operation that an event handler performs.
#[derive(Debug, PartialEq)]
pub enum ActionOpNode {
    /// Dispatches the named action with the given properties.
    DispatchAction(String, Option<Vec<Prop>>),
}

/// An event handler: its event name (or the default event), its parameters, its operations.
#[derive(Debug, PartialEq)]
pub enum EventHandler {
    Event(String, Option<Vec<String>>, Option<Vec<ActionOpNode>>),
    DefaultEvent(Option<Vec<String>>, Option<Vec<ActionOpNode>>),
}

// ---------------------------------------------------------------------------
// Models
// ---------------------------------------------------------------------------

pub enum ApplyOpModel {
    JoinString(Option<Seq<char>>),
}

pub enum BindingModel {
    ReducerPathBinding(Seq<char>),
    ActionStateBinding,
    ActionParamBinding(Seq<char>),
    ComponentKeyBinding,
    LoopIndexBinding,
}

pub enum ResolvedModel {
    ReducerKeyReference(Seq<char>),
    PropReference(Seq<char>),
    LoopVarReference(Seq<char>),
    InvocationProp,
    ReferenceToKeyInScope(KeyReferenceType, Option<Seq<char>>),
}

pub enum SymbolRefModel {
    UnresolvedReference(Seq<char>),
    ResolvedReference(Seq<char>, ResolvedModel, Option<Seq<char>>),
    Binding(BindingModel),
    InitialValue(Box<SymbolModel>, Box<SymbolModel>),
}

pub struct SymbolModel {
    pub sym_ref: SymbolRefModel,
    pub ty: Option<VarType>,
    pub value: Option<Box<ExprModel>>,
}

pub enum ExprModel {
    LiteralNumber(int),
    LiteralString(Seq<char>),
    LiteralBool(bool),
    LiteralNull,
    LiteralArray(Option<Seq<ExprModel>>),
    VariableReference(Seq<char>),
    DefaultVariableReference,
    SymbolReference(SymbolModel),
    Binding(BindingModel),
    Expr(ExprOp, Box<ExprModel>, Box<ExprModel>),
    Apply(ApplyOpModel, Option<Seq<ExprModel>>),
}

pub struct PropModel {
    pub key: Seq<char>,
    pub value: Option<ExprModel>,
}

pub enum ActionOpModel {
    DispatchAction(Seq<char>, Option<Seq<PropModel>>),
}

pub enum EventHandlerModel {
    Event(Seq<char>, Option<Seq<Seq<char>>>, Option<Seq<ActionOpModel>>),
    DefaultEvent(Option<Seq<Seq<char>>>, Option<Seq<ActionOpModel>>),
}

/// The characters of an optional text.
pub open spec fn opt_text(s: Option<String>) -> Option<Seq<char>> {
    match s {
        Some(s) => Some(s@),
        None => None,
    }
}

impl View for ExprApplyOp {
    type V = ApplyOpModel;

    open spec fn view(&self) -> ApplyOpModel {
        match *self {
            ExprApplyOp::JoinString(sep) => ApplyOpModel::JoinString(opt_text(sep)),
        }
    }
}

impl View for BindingType {
    type V = BindingModel;

    open spec fn view(&self) -> BindingModel {
        match *self {
            BindingType::ReducerPathBinding(k) => BindingModel::ReducerPathBinding(k@),
            BindingType::ActionStateBinding => BindingModel::ActionStateBinding,
            BindingType::ActionParamBinding(k) => BindingModel::ActionParamBinding(k@),
            BindingType::ComponentKeyBinding => BindingModel::ComponentKeyBinding,
            BindingType::LoopIndexBinding => BindingModel::LoopIndexBinding,
        }
    }
}

impl View for ResolvedSymbolType {
    type V = ResolvedModel;

    open spec fn view(&self) -> ResolvedModel {
        match *self {
            ResolvedSymbolType::ReducerKeyReference(k) => ResolvedModel::ReducerKeyReference(k@),
            ResolvedSymbolType::PropReference(k) => ResolvedModel::PropReference(k@),
            ResolvedSymbolType::LoopVarReference(k) => ResolvedModel::LoopVarReference(k@),
            ResolvedSymbolType::InvocationProp => ResolvedModel::InvocationProp,
            ResolvedSymbolType::ReferenceToKeyInScope(kind, scope) => ResolvedModel::ReferenceToKeyInScope(
                kind,
                opt_text(scope),
            ),
        }
    }
}

/// The model of a symbol reference.
pub open spec fn sym_ref_model(r: SymbolReferenceType) -> SymbolRefModel
    decreases r,
{
    match r {
        SymbolReferenceType::UnresolvedReference(k) => SymbolRefModel::UnresolvedReference(k@),
        SymbolReferenceType::ResolvedReference(k, what, scope) => SymbolRefModel::ResolvedReference(
            k@,
            what@,
            opt_text(scope),
        ),
        SymbolReferenceType::Binding(b) => SymbolRefModel::Binding(b@),
        SymbolReferenceType::InitialValue(first, second) => SymbolRefModel::InitialValue(
            Box::new(symbol_model(*first)),
            Box::new(symbol_model(*second)),
        ),
    }
}

/// The model of a symbol.
pub open spec fn symbol_model(s: Symbol) -> SymbolModel
    decreases s,
{
    SymbolModel {
        sym_ref: sym_ref_model(s.0),
        ty: s.1,
        value: match s.2 {
            Some(e) => Some(Box::new(expr_model(*e))),
            None => None,
        },
    }
}

/// The model of an expression.
pub open spec fn expr_model(e: ExprValue) -> ExprModel
    decreases e,
{
    match e {
        ExprValue::LiteralNumber(n) => ExprModel::LiteralNumber(n as int),
        ExprValue::LiteralString(s) => ExprModel::LiteralString(s@),
        ExprValue::LiteralBool(b) => ExprModel::LiteralBool(b),
        ExprValue::LiteralNull => ExprModel::LiteralNull,
        ExprValue::LiteralArray(items) => ExprModel::LiteralArray(
            match items {
                Some(v) => Some(
                    Seq::new(
                        v@.len(),
                        |i: int|
                            if 0 <= i < v@.len() {
                                expr_model(v@[i])
                            } else {
                                ExprModel::LiteralNull
                            },
                    ),
                ),
                None => None,
            },
        ),
        ExprValue::VariableReference(s) => ExprModel::VariableReference(s@),
        ExprValue::DefaultVariableReference => ExprModel::DefaultVariableReference,
        ExprValue::SymbolReference(s) => ExprModel::SymbolReference(symbol_model(s)),
        ExprValue::Binding(b) => ExprModel::Binding(b@),
        ExprValue::Expr(op, l, r) => ExprModel::Expr(
            op,
            Box::new(expr_model(*l)),
            Box::new(expr_model(*r)),
        ),
        ExprValue::Apply(op, args) => ExprModel::Apply(
            op@,
            match args {
                Some(v) => Some(
                    Seq::new(
                        v@.len(),
                        |i: int|
                            if 0 <= i < v@.len() {
                                expr_model(*v@[i])
                            } else {
                                ExprModel::LiteralNull
                            },
                    ),
                ),
                None => None,
            },
        ),
    }
}

impl View for SymbolReferenceType {
    type V = SymbolRefModel;

    open spec fn view(&self) -> SymbolRefModel {
        sym_ref_model(*self)
    }
}

impl View for Symbol {
    type V = SymbolModel;

    open spec fn view(&self) -> SymbolModel {
        symbol_model(*self)
    }
}

impl View for ExprValue {
    type V = ExprModel;

    open spec fn view(&self) -> ExprModel {
        expr_model(*self)
    }
}

/// The models of a sequence of expressions, element by element.
pub open spec fn exprs_model(v: Seq<ExprValue>) -> Seq<ExprModel> {
    Seq::new(v.len(), |i: int| expr_model(v[i]))
}

/// The models of a sequence of boxed expressions, element by element.
pub open spec fn boxed_exprs_model(v: Seq<Box<ExprValue>>) -> Seq<ExprModel> {
    Seq::new(v.len(), |i: int| expr_model(*v[i]))
}

/// The model of an array literal is the array of its items' models.
pub proof fn lemma_array_model(v: Vec<ExprValue>)
    ensures
        ExprValue::LiteralArray(Some(v))@ == ExprModel::LiteralArray(Some(exprs_model(v@))),
{
    let a = ExprValue::LiteralArray(Some(v))@->LiteralArray_0->0;
    assert(a =~= exprs_model(v@));
}

/// The model of an `Apply` node is its operator's model over its operands' models.
pub proof fn lemma_apply_model(op: ExprApplyOp, v: Vec<Box<ExprValue>>)
    ensures
        ExprValue::Apply(op, Some(v))@ == ExprModel::Apply(op@, Some(boxed_exprs_model(v@))),
{
    let a = ExprValue::Apply(op, Some(v))@->Apply_1->0;
    assert(a =~= boxed_exprs_model(v@));
}

/// The model of an optional symbol.
pub open spec fn opt_symbol_model(s: Option<Symbol>) -> Option<SymbolModel> {
    match s {
        Some(s) => Some(s@),
        None => None,
    }
}

/// The model of an optional expression.
pub open spec fn opt_expr_model(e: Option<ExprValue>) -> Option<ExprModel> {
    match e {
        Some(e) => Some(e@),
        None => None,
    }
}

/// The model of a property.
pub open spec fn prop_model(p: Prop) -> PropModel {
    PropModel { key: p.0@, value: opt_expr_model(p.1) }
}

/// The models of a sequence of properties.
pub open spec fn props_model(v: Seq<Prop>) -> Seq<PropModel> {
    Seq::new(v.len(), |i: int| prop_model(v[i]))
}

/// The models of optional properties.
pub open spec fn opt_props_model(v: Option<Vec<Prop>>) -> Option<Seq<PropModel>> {
    match v {
        Some(v) => Some(props_model(v@)),
        None => None,
    }
}

impl View for ActionOpNode {
    type V = ActionOpModel;

    open spec fn view(&self) -> ActionOpModel {
        match *self {
            ActionOpNode::DispatchAction(name, props) => ActionOpModel::DispatchAction(
                name@,
                opt_props_model(props),
            ),
        }
    }
}

/// The models of a sequence of operations.
pub open spec fn action_ops_model(v: Seq<ActionOpNode>) -> Seq<ActionOpModel> {
    Seq::new(v.len(), |i: int| v[i]@)
}

/// The models of optional operations.
pub open spec fn opt_action_ops_model(v: Option<Vec<ActionOpNode>>) -> Option<Seq<ActionOpModel>> {
    match v {
        Some(v) => Some(action_ops_model(v@)),
        None => None,
    }
}

/// The characters of each of a sequence of texts.
pub open spec fn texts_model(v: Seq<String>) -> Seq<Seq<char>> {
    Seq::new(v.len(), |i: int| v[i]@)
}

/// The characters of each of some optional texts.
pub open spec fn opt_texts_model(v: Option<Vec<String>>) -> Option<Seq<Seq<char>>> {
    match v {
        Some(v) => Some(texts_model(v@)),
        None => None,
    }
}

impl View for EventHandler {
    type V = EventHandlerModel;

    open spec fn view(&self) -> EventHandlerModel {
        match *self {
            EventHandler::Event(name, params, ops) => EventHandlerModel::Event(
                name@,
                opt_texts_model(params),
                opt_action_ops_model(ops),
            ),
            EventHandler::DefaultEvent(params, ops) => EventHandlerModel::DefaultEvent(
                opt_texts_model(params),
                opt_action_ops_model(ops),
            ),
        }
    }
}

// ---------------------------------------------------------------------------
// Copies
// ---------------------------------------------------------------------------

impl Clone for ExprApplyOp {
    fn clone(&self) -> (r: Self)
        ensures
            r@ == self@,
    {
        match self {
            ExprApplyOp::JoinString(sep) => ExprApplyOp::JoinString(copy_opt_text(sep)),
        }
    }
}

impl Clone for BindingType {
    fn clone(&self) -> (r: Self)
        ensures
            r@ == self@,
    {
        match self {
            BindingType::ReducerPathBinding(k) => BindingType::ReducerPathBinding(k.clone()),
            BindingType::ActionStateBinding => BindingType::ActionStateBinding,
            BindingType::ActionParamBinding(k) => BindingType::ActionParamBinding(k.clone()),
            BindingType::ComponentKeyBinding => BindingType::ComponentKeyBinding,
            BindingType::LoopIndexBinding => BindingType::LoopIndexBinding,
        }
    }
}

impl Clone for ResolvedSymbolType {
    fn clone(&self) -> (r: Self)
        ensures
            r@ == self@,
    {
        match self {
            ResolvedSymbolType::ReducerKeyReference(k) => ResolvedSymbolType::ReducerKeyReference(
                k.clone(),
            ),
            ResolvedSymbolType::PropReference(k) => ResolvedSymbolType::PropReference(k.clone()),
            ResolvedSymbolType::LoopVarReference(k) => ResolvedSymbolType::LoopVarReference(
                k.clone(),
            ),
            ResolvedSymbolType::InvocationProp => ResolvedSymbolType::InvocationProp,
            ResolvedSymbolType::ReferenceToKeyInScope(kind, scope) => {
                ResolvedSymbolType::ReferenceToKeyInScope(*kind, copy_opt_text(scope))
            },
        }
    }
}

/// A deep copy of a symbol reference.
pub fn copy_sym_ref(r: &SymbolReferenceType) -> (out: SymbolReferenceType)
    ensures
        out@ == r@,
    decreases *r,
{
    match r {
        SymbolReferenceType::UnresolvedReference(k) => SymbolReferenceType::UnresolvedReference(
            k.clone(),
        ),
        SymbolReferenceType::ResolvedReference(k, what, scope) => {
            SymbolReferenceType::ResolvedReference(k.clone(), what.clone(), copy_opt_text(scope))
        },
        SymbolReferenceType::Binding(b) => SymbolReferenceType::Binding(b.clone()),
        SymbolReferenceType::InitialValue(first, second) => {
            let a = copy_symbol(first);
            let b = copy_symbol(second);
            SymbolReferenceType::InitialValue(Box::new(a), Box::new(b))
        },
    }
}

/// A deep copy of a symbol.
pub fn copy_symbol(s: &Symbol) -> (out: Symbol)
    ensures
        out@ == s@,
    decreases *s,
{
    let r = copy_sym_ref(&s.0);
    let value = match &s.2 {
        Some(e) => Some(Box::new(copy_expr(e))),
        None => None,
    };
    Symbol(r, s.1, value)
}

/// A deep copy of a sequence of expressions.
pub fn copy_exprs(v: &Vec<ExprValue>) -> (out: Vec<ExprValue>)
    ensures
        exprs_model(out@) == exprs_model(v@),
    decreases *v,
{
    let mut out: Vec<ExprValue> = Vec::new();
    let mut i: usize = 0;
    while i < v.len()
        invariant
            i <= v.len(),
            out@.len() == i,
            forall|j: int| 0 <= j < i ==> (#[trigger] out@[j])@ == v@[j]@,
        decreases v.len() - i,
    {
        let item = copy_expr(&v[i]);
        out.push(item);
        i += 1;
    }
    assert(exprs_model(out@) =~= exprs_model(v@));
    out
}

/// A deep copy of a sequence of boxed expressions.
pub fn copy_boxed_exprs(v: &Vec<Box<ExprValue>>) -> (out: Vec<Box<ExprValue>>)
    ensures
        boxed_exprs_model(out@) == boxed_exprs_model(v@),
    decreases *v,
{
    let mut out: Vec<Box<ExprValue>> = Vec::new();
    let mut i: usize = 0;
    while i < v.len()
        invariant
            i <= v.len(),
            out@.len() == i,
            forall|j: int| 0 <= j < i ==> (*#[trigger] out@[j])@ == (*v@[j])@,
        decreases v.len() - i,
    {
        let item = copy_expr(&v[i]);
        out.push(Box::new(item));
        i += 1;
    }
    assert(boxed_exprs_model(out@) =~= boxed_exprs_model(v@));
    out
}

/// A deep copy of an expression.
pub fn copy_expr(e: &ExprValue) -> (out: ExprValue)
    ensures
        out@ == e@,
    decreases *e,
{
    match e {
        ExprValue::LiteralNumber(n) => ExprValue::LiteralNumber(*n),
        ExprValue::LiteralString(s) => ExprValue::LiteralString(s.clone()),
        ExprValue::LiteralBool(b) => ExprValue::LiteralBool(*b),
        ExprValue::LiteralNull => ExprValue::LiteralNull,
        ExprValue::LiteralArray(items) => match items {
            Some(v) => {
                let out = copy_exprs(v);
                proof {
                    lemma_array_model(*v);
                    lemma_array_model(out);
                }
                ExprValue::LiteralArray(Some(out))
            },
            None => ExprValue::LiteralArray(None),
        },
        ExprValue::VariableReference(s) => ExprValue::VariableReference(s.clone()),
        ExprValue::DefaultVariableReference => ExprValue::DefaultVariableReference,
        ExprValue::SymbolReference(s) => ExprValue::SymbolReference(copy_symbol(s)),
        ExprValue::Binding(b) => ExprValue::Binding(b.clone()),
        ExprValue::Expr(op, l, r) => {
            let a = copy_expr(l);
            let b = copy_expr(r);
            ExprValue::Expr(*op, Box::new(a), Box::new(b))
        },
        ExprValue::Apply(op, args) => match args {
            Some(v) => {
                let out = copy_boxed_exprs(v);
                let op2 = op.clone();
                proof {
                    lemma_apply_model(*op, *v);
                    lemma_apply_model(op2, out);
                }
                ExprValue::Apply(op2, Some(out))
            },
            None => ExprValue::Apply(op.clone(), None),
        },
    }
}

impl Clone for SymbolReferenceType {
    fn clone(&self) -> (r: Self)
        ensures
            r@ == self@,
    {
        copy_sym_ref(self)
    }
}

impl Clone for Symbol {
    fn clone(&self) -> (r: Self)
        ensures
            r@ == self@,
    {
        copy_symbol(self)
    }
}

impl Clone for ExprValue {
    fn clone(&self) -> (r: Self)
        ensures
            r@ == self@,
    {
        copy_expr(self)
    }
}

// ---------------------------------------------------------------------------
// Symbols and literals
// ---------------------------------------------------------------------------

/// Whether an expression is a literal: a number, a text, a truth value, null or an array.
pub open spec fn is_literal_model(e: ExprModel) -> bool {
    e is LiteralNumber || e is LiteralString || e is LiteralBool || e is LiteralNull
        || e is LiteralArray
}

/// A symbol with a reference and nothing else.
pub open spec fn plain_symbol(r: SymbolRefModel) -> SymbolModel {
    SymbolModel { sym_ref: r, ty: None, value: None }
}

impl ExprValue {
    /// Whether the expression is a literal.
    pub fn is_literal(&self) -> (r: bool)
        ensures
            r == is_literal_model(self@),
    {
        match self {
            ExprValue::LiteralNumber(_) => true,
            ExprValue::LiteralString(_) => true,
            ExprValue::LiteralBool(_) => true,
            ExprValue::LiteralNull => true,
            ExprValue::LiteralArray(_) => true,
            _ => false,
        }
    }
}

impl Symbol {
    /// The symbol's reference.
    pub fn sym_ref(&self) -> (r: &SymbolReferenceType)
        ensures
            r@ == self@.sym_ref,
    {
        &self.0
    }

    /// The symbol's type tag.
    pub fn ty(&self) -> (r: Option<VarType>)
        ensures
            r == self@.ty,
    {
        self.1
    }

    /// The expression bound to the symbol.
    pub fn value(&self) -> (r: Option<&ExprValue>)
        ensures
            match r {
                Some(e) => self@.value == Some(Box::new(e@)),
                None => self@.value is None,
            },
    {
        match &self.2 {
            Some(e) => Some(&**e),
            None => None,
        }
    }

    /// A name that has not been looked up yet.
    pub fn unresolved(key: &str) -> (r: Symbol)
        ensures
            r@ == plain_symbol(SymbolRefModel::UnresolvedReference(key@)),
    {
        Symbol(SymbolReferenceType::UnresolvedReference(key.to_owned()), None, None)
    }

    /// A property `key` of the scope `scope_id`.
    pub fn prop(key: &str, scope_id: &str) -> (r: Symbol)
        ensures
            r@ == plain_symbol(
                SymbolRefModel::ResolvedReference(
                    key@,
                    ResolvedModel::PropReference(key@),
                    Some(scope_id@),
                ),
            ),
    {
        Symbol(
            SymbolReferenceType::ResolvedReference(
                key.to_owned(),
                ResolvedSymbolType::PropReference(key.to_owned()),
                Some(scope_id.to_owned()),
            ),
            None,
            None,
        )
    }

    /// The name `key` on an element, standing for `prop_key` looked up from `scope_id`.
    pub fn element_prop(key: &str, prop_key: &str, scope_id: Option<&str>) -> (r: Symbol)
        ensures
            r@ == plain_symbol(
                SymbolRefModel::ResolvedReference(
                    key@,
                    ResolvedModel::PropReference(prop_key@),
                    crate::text::opt_str_text(scope_id),
                ),
            ),
    {
        Symbol(
            SymbolReferenceType::ResolvedReference(
                key.to_owned(),
                ResolvedSymbolType::PropReference(prop_key.to_owned()),
                crate::text::own_opt_text(scope_id),
            ),
            None,
            None,
        )
    }

    /// A formal parameter `key` that the scope `scope_id` declares and no caller has bound.
    pub fn unbound_formal_param(key: &str, scope_id: Option<&str>) -> (r: Symbol)
        ensures
            r@ == plain_symbol(
                SymbolRefModel::ResolvedReference(
                    key@,
                    ResolvedModel::ReferenceToKeyInScope(
                        KeyReferenceType::UnboundFormalParam,
                        crate::text::opt_str_text(scope_id),
                    ),
                    None,
                ),
            ),
    {
        Symbol(
            SymbolReferenceType::ResolvedReference(
                key.to_owned(),
                ResolvedSymbolType::ReferenceToKeyInScope(
                    KeyReferenceType::UnboundFormalParam,
                    crate::text::own_opt_text(scope_id),
                ),
                None,
            ),
            None,
            None,
        )
    }

    /// A parameter `key` of an action that the scope `scope_id` declares.
    pub fn unbound_action_param(key: &str, scope_id: Option<&str>) -> (r: Symbol)
        ensures
            r@ == plain_symbol(
                SymbolRefModel::ResolvedReference(
                    key@,
                    ResolvedModel::ReferenceToKeyInScope(
                        KeyReferenceType::UnboundActionParam,
                        crate::text::opt_str_text(scope_id),
                    ),
                    None,
                ),
            ),
    {
        Symbol(
            SymbolReferenceType::ResolvedReference(
                key.to_owned(),
                ResolvedSymbolType::ReferenceToKeyInScope(
                    KeyReferenceType::UnboundActionParam,
                    crate::text::own_opt_text(scope_id),
                ),
                None,
            ),
            None,
            None,
        )
    }

    /// The expression that a caller supplied for the formal parameter `key`.
    pub fn invocation_prop(key: &str, expr: Option<&ExprValue>) -> (r: Symbol)
        ensures
            r@ == (SymbolModel {
                sym_ref: SymbolRefModel::ResolvedReference(
                    key@,
                    ResolvedModel::InvocationProp,
                    None,
                ),
                ty: None,
                value: match expr {
                    Some(e) => Some(Box::new(e@)),
                    None => None,
                },
            }),
    {
        let value = match expr {
            Some(e) => Some(Box::new(e.clone())),
            None => None,
        };
        Symbol(
            SymbolReferenceType::ResolvedReference(
                key.to_owned(),
                ResolvedSymbolType::InvocationProp,
                None,
            ),
            None,
            value,
        )
    }

    /// The application state under the reducer key `key`.
    pub fn reducer_key(key: &str) -> (r: Symbol)
        ensures
            r@ == plain_symbol(
                SymbolRefModel::ResolvedReference(
                    key@,
                    ResolvedModel::ReducerKeyReference(key@),
                    None,
                ),
            ),
    {
        Symbol(
            SymbolReferenceType::ResolvedReference(
                key.to_owned(),
                ResolvedSymbolType::ReducerKeyReference(key.to_owned()),
                None,
            ),
            None,
            None,
        )
    }

    /// The variable `key` of a loop.
    pub fn loop_var(key: &str) -> (r: Symbol)
        ensures
            r@ == plain_symbol(
                SymbolRefModel::ResolvedReference(key@, ResolvedModel::LoopVarReference(key@), None),
            ),
    {
        Symbol(
            SymbolReferenceType::ResolvedReference(
                key.to_owned(),
                ResolvedSymbolType::LoopVarReference(key.to_owned()),
                None,
            ),
            None,
            None,
        )
    }

    /// A structural binding.
    pub fn binding(binding: &BindingType) -> (r: Symbol)
        ensures
            r@ == plain_symbol(SymbolRefModel::Binding(binding@)),
    {
        Symbol(SymbolReferenceType::Binding(binding.clone()), None, None)
    }

    /// A structural binding with a type tag.
    pub fn typed_binding(binding: &BindingType, ty: &VarType) -> (r: Symbol)
        ensures
            r@ == (SymbolModel {
                sym_ref: SymbolRefModel::Binding(binding@),
                ty: Some(*ty),
                value: None,
            }),
    {
        Symbol(SymbolReferenceType::Binding(binding.clone()), Some(*ty), None)
    }

    /// Use `default` unless and until `chained` resolves.
    pub fn initial_value(default: &Symbol, chained: &Symbol) -> (r: Symbol)
        ensures
            r@ == plain_symbol(
                SymbolRefModel::InitialValue(Box::new(default@), Box::new(chained@)),
            ),
    {
        Symbol(
            SymbolReferenceType::InitialValue(
                Box::new(default.clone()),
                Box::new(chained.clone()),
            ),
            None,
            None,
        )
    }
}

// ---------------------------------------------------------------------------
// Equality
// ---------------------------------------------------------------------------

/// Whether two optional texts hold the same characters, or are both absent.
pub fn same_opt_text(a: &Option<String>, b: &Option<String>) -> (r: bool)
    ensures
        r == (opt_text(*a) == opt_text(*b)),
{
    match a {
        Some(x) => match b {
            Some(y) => *x == *y,
            None => false,
        },
        None => b.is_none(),
    }
}

/// Whether two type tags are the same.
pub fn same_opt_type(a: Option<VarType>, b: Option<VarType>) -> (r: bool)
    ensures
        r == (a == b),
{
    match a {
        Some(x) => match b {
            Some(y) => x == y,
            None => false,
        },
        None => b.is_none(),
    }
}

/// Whether two bindings have the same model.
pub fn same_binding(a: &BindingType, b: &BindingType) -> (r: bool)
    ensures
        r == (a@ == b@),
{
    match a {
        BindingType::ReducerPathBinding(x) => match b {
            BindingType::ReducerPathBinding(y) => *x == *y,
            _ => false,
        },
        BindingType::ActionStateBinding => match b {
            BindingType::ActionStateBinding => true,
            _ => false,
        },
        BindingType::ActionParamBinding(x) => match b {
            BindingType::ActionParamBinding(y) => *x == *y,
            _ => false,
        },
        BindingType::ComponentKeyBinding => match b {
            BindingType::ComponentKeyBinding => true,
            _ => false,
        },
        BindingType::LoopIndexBinding => match b {
            BindingType::LoopIndexBinding => true,
            _ => false,
        },
    }
}

/// Whether two resolved references have the same model.
pub fn same_resolved(a: &ResolvedSymbolType, b: &ResolvedSymbolType) -> (r: bool)
    ensures
        r == (a@ == b@),
{
    match a {
        ResolvedSymbolType::ReducerKeyReference(x) => match b {
            ResolvedSymbolType::ReducerKeyReference(y) => *x == *y,
            _ => false,
        },
        ResolvedSymbolType::PropReference(x) => match b {
            ResolvedSymbolType::PropReference(y) => *x == *y,
            _ => false,
        },
        ResolvedSymbolType::LoopVarReference(x) => match b {
            ResolvedSymbolType::LoopVarReference(y) => *x == *y,
            _ => false,
        },
        ResolvedSymbolType::InvocationProp => match b {
            ResolvedSymbolType::InvocationProp => true,
            _ => false,
        },
        ResolvedSymbolType::ReferenceToKeyInScope(k1, s1) => match b {
            ResolvedSymbolType::ReferenceToKeyInScope(k2, s2) => *k1 == *k2 && same_opt_text(
                s1,
                s2,
            ),
            _ => false,
        },
    }
}

/// Whether two operators of an `Apply` node have the same model.
pub fn same_apply_op(a: &ExprApplyOp, b: &ExprApplyOp) -> (r: bool)
    ensures
        r == (a@ == b@),
{
    match a {
        ExprApplyOp::JoinString(x) => match b {
            ExprApplyOp::JoinString(y) => same_opt_text(x, y),
        },
    }
}

/// Whether two symbol references have the same model.
pub fn same_sym_ref(a: &SymbolReferenceType, b: &SymbolReferenceType) -> (r: bool)
    ensures
        r == (a@ == b@),
    decreases *a,
{
    match a {
        SymbolReferenceType::UnresolvedReference(x) => match b {
            SymbolReferenceType::UnresolvedReference(y) => *x == *y,
            _ => false,
        },
        SymbolReferenceType::ResolvedReference(k1, w1, s1) => match b {
            SymbolReferenceType::ResolvedReference(k2, w2, s2) => *k1 == *k2 && same_resolved(
                w1,
                w2,
            ) && same_opt_text(s1, s2),
            _ => false,
        },
        SymbolReferenceType::Binding(x) => match b {
            SymbolReferenceType::Binding(y) => same_binding(x, y),
            _ => false,
        },
        SymbolReferenceType::InitialValue(d1, c1) => match b {
            SymbolReferenceType::InitialValue(d2, c2) => same_symbol(d1, d2) && same_symbol(
                c1,
                c2,
            ),
            _ => false,
        },
    }
}

/// Whether two symbols have the same model.
pub fn same_symbol(a: &Symbol, b: &Symbol) -> (r: bool)
    ensures
        r == (a@ == b@),
    decreases *a,
{
    let values = match &a.2 {
        Some(x) => match &b.2 {
            Some(y) => same_expr(x, y),
            None => false,
        },
        None => b.2.is_none(),
    };
    values && same_opt_type(a.1, b.1) && same_sym_ref(&a.0, &b.0)
}

/// Whether two sequences of expressions have the same models.
pub fn same_exprs(a: &Vec<ExprValue>, b: &Vec<ExprValue>) -> (r: bool)
    ensures
        r == (exprs_model(a@) == exprs_model(b@)),
    decreases *a,
{
    if a.len() != b.len() {
        assert(exprs_model(a@).len() != exprs_model(b@).len());
        return false;
    }
    let mut i: usize = 0;
    while i < a.len()
        invariant
            i <= a@.len(),
            a@.len() == b@.len(),
            forall|j: int| 0 <= j < i ==> (#[trigger] a@[j])@ == b@[j]@,
        decreases a@.len() - i,
    {
        if !same_expr(&a[i], &b[i]) {
            assert(exprs_model(a@)[i as int] != exprs_model(b@)[i as int]);
            return false;
        }
        i += 1;
    }
    assert(exprs_model(a@) =~= exprs_model(b@));
    true
}

/// Whether two sequences of boxed expressions have the same models.
pub fn same_boxed_exprs(a: &Vec<Box<ExprValue>>, b: &Vec<Box<ExprValue>>) -> (r: bool)
    ensures
        r == (boxed_exprs_model(a@) == boxed_exprs_model(b@)),
    decreases *a,
{
    if a.len() != b.len() {
        assert(boxed_exprs_model(a@).len() != boxed_exprs_model(b@).len());
        return false;
    }
    let mut i: usize = 0;
    while i < a.len()
        invariant
            i <= a@.len(),
            a@.len() == b@.len(),
            forall|j: int| 0 <= j < i ==> (*#[trigger] a@[j])@ == (*b@[j])@,
        decreases a@.len() - i,
    {
        if !same_expr(&a[i], &b[i]) {
            assert(boxed_exprs_model(a@)[i as int] != boxed_exprs_model(b@)[i as int]);
            return false;
        }
        i += 1;
    }
    assert(boxed_exprs_model(a@) =~= boxed_exprs_model(b@));
    true
}

/// Whether two expressions have the same model: the same shape with the same texts,
/// numbers and symbols throughout.
pub fn same_expr(a: &ExprValue, b: &ExprValue) -> (r: bool)
    ensures
        r == (a@ == b@),
    decreases *a,
{
    match a {
        ExprValue::LiteralNumber(x) => match b {
            ExprValue::LiteralNumber(y) => *x == *y,
            _ => false,
        },
        ExprValue::LiteralString(x) => match b {
            ExprValue::LiteralString(y) => *x == *y,
            _ => false,
        },
        ExprValue::LiteralBool(x) => match b {
            ExprValue::LiteralBool(y) => *x == *y,
            _ => false,
        },
        ExprValue::LiteralNull => match b {
            ExprValue::LiteralNull => true,
            _ => false,
        },
        ExprValue::LiteralArray(x) => match b {
            ExprValue::LiteralArray(y) => match x {
                Some(v) => match y {
                    Some(w) => {
                        proof {
                            lemma_array_model(*v);
                            lemma_array_model(*w);
                        }
                        same_exprs(v, w)
                    },
                    None => false,
                },
                None => y.is_none(),
            },
            _ => false,
        },
        ExprValue::VariableReference(x) => match b {
            ExprValue::VariableReference(y) => *x == *y,
            _ => false,
        },
        ExprValue::DefaultVariableReference => match b {
            ExprValue::DefaultVariableReference => true,
            _ => false,
        },
        ExprValue::SymbolReference(x) => match b {
            ExprValue::SymbolReference(y) => same_symbol(x, y),
            _ => false,
        },
        ExprValue::Binding(x) => match b {
            ExprValue::Binding(y) => same_binding(x, y),
            _ => false,
        },
        ExprValue::Expr(op1, l1, r1) => match b {
            ExprValue::Expr(op2, l2, r2) => *op1 == *op2 && same_expr(l1, l2) && same_expr(r1, r2),
            _ => false,
        },
        ExprValue::Apply(op1, x) => match b {
            ExprValue::Apply(op2, y) => {
                let ops = same_apply_op(op1, op2);
                match x {
                    Some(v) => match y {
                        Some(w) => {
                            proof {
                                lemma_apply_model(*op1, *v);
                                lemma_apply_model(*op2, *w);
                            }
                            ops && same_boxed_exprs(v, w)
                        },
                        None => false,
                    },
                    None => ops && y.is_none(),
                }
            },
            _ => false,
        },
    }
}

} // verus!
