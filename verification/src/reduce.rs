//! The partial evaluator: constant folding of sums, deferred joins of texts, and the
//! resolution of names and of reducer defaults.

use crate::ast::{
    lemma_apply_model, opt_expr_model, same_expr, ApplyOpModel, BindingModel, BindingType,
    ExprApplyOp, ExprModel, ExprOp, ExprValue, ResolvedModel, ResolvedSymbolType, Symbol,
    SymbolModel, SymbolRefModel, SymbolReferenceType,
};
use crate::context::{resolve, Context, ContextView};
use crate::document::{default_of, Document, DocumentView};
use crate::text::{decimal_text, number_text};
use vstd::prelude::*;

verus! {

/// How many times `reduce_expr_to_string` reduces an expression before it gives up.
pub const REDUCTION_DEPTH_LIMIT: usize = 64;

/// Whether an integer is a 32-bit number.
pub open spec fn fits_i32(n: int) -> bool {
    -0x8000_0000 <= n <= 0x7fff_ffff
}

/// `r` if there is one, else `e`.
pub open spec fn or_same(r: Option<ExprModel>, e: ExprModel) -> ExprModel {
    match r {
        Some(x) => x,
        None => e,
    }
}

/// Whether a reduction changed the expression: there is one, and it differs from `e`.
/// A literal reduces to itself, which is no change.
pub open spec fn changed(r: Option<ExprModel>, e: ExprModel) -> bool {
    r is Some && r->0 != e
}

/// A reference to a symbol, if there is a symbol.
pub open spec fn symbol_ref(s: Option<SymbolModel>) -> Option<ExprModel> {
    match s {
        Some(s) => Some(ExprModel::SymbolReference(s)),
        None => None,
    }
}

/// The join of two operands without a separator.
pub open spec fn join_pair(l: ExprModel, r: ExprModel) -> ExprModel {
    ExprModel::Apply(ApplyOpModel::JoinString(None), Some(seq![l, r]))
}

/// What a binary operation reduces to once its operands were reduced to `l` and `r`;
/// `had` says whether the reduction changed either operand.
///
/// A sum with a text operand becomes a deferred join, also where both operands are texts.
/// A sum of two numbers is folded where it is a 32-bit number. Anything else keeps its
/// shape with the reduced operands where an operand changed, and is `None` where
/// neither did.
pub open spec fn reduce_binary(op: ExprOp, l: ExprModel, r: ExprModel, had: bool) -> Option<ExprModel> {
    if op == ExprOp::Add && (l is LiteralString || r is LiteralString) {
        Some(join_pair(l, r))
    } else if op == ExprOp::Add && l is LiteralNumber && r is LiteralNumber && fits_i32(
        l->LiteralNumber_0 + r->LiteralNumber_0,
    ) {
        Some(ExprModel::LiteralNumber(l->LiteralNumber_0 + r->LiteralNumber_0))
    } else if had {
        Some(ExprModel::Expr(op, Box::new(l), Box::new(r)))
    } else {
        None
    }
}

/// What a reference to `sym` reduces to: a name that was not looked up yet becomes a
/// reference to what it resolves to; any other symbol has no reduction.
pub open spec fn reduce_symbol(ctx: ContextView, sym: SymbolModel) -> Option<ExprModel> {
    match sym.sym_ref {
        SymbolRefModel::UnresolvedReference(key) => symbol_ref(resolve(ctx, key)),
        _ => None,
    }
}

/// What an expression reduces to in a context. `None` means that no progress can be made.
pub open spec fn reduce_model(ctx: ContextView, e: ExprModel) -> Option<ExprModel>
    decreases e,
{
    match e {
        ExprModel::LiteralNumber(_) => Some(e),
        ExprModel::LiteralString(_) => Some(e),
        ExprModel::LiteralBool(_) => Some(e),
        ExprModel::LiteralNull => Some(e),
        ExprModel::LiteralArray(_) => Some(e),
        ExprModel::Expr(op, l, r) => {
            let lr = reduce_model(ctx, *l);
            let rr = reduce_model(ctx, *r);
            reduce_binary(op, or_same(lr, *l), or_same(rr, *r), changed(lr, *l) || changed(rr, *r))
        },
        ExprModel::DefaultVariableReference => symbol_ref(resolve(ctx, "value"@)),
        ExprModel::SymbolReference(sym) => reduce_symbol(ctx, sym),
        _ => None,
    }
}

/// `reduce_model`, or the expression itself where it has no reduction.
pub open spec fn reduce_or_same(ctx: ContextView, e: ExprModel) -> ExprModel {
    or_same(reduce_model(ctx, e), e)
}

/// What a reference to a reducer key reduces to: the reduction of its default
/// expression where the document registers one, else that of `fallback`.
pub open spec fn reduce_reducer_key(
    ctx: ContextView,
    doc: DocumentView,
    key: Seq<char>,
    fallback: ExprModel,
) -> Option<ExprModel> {
    match default_of(doc, key) {
        Some(d) => reduce_model(ctx, d),
        None => reduce_model(ctx, fallback),
    }
}

/// What a reference to `sym` reduces to with a document at hand: an initial value is
/// chased to its chained symbol, a reducer key is replaced by its default expression,
/// and any other symbol reduces as it does without a document.
pub open spec fn reduce_symbol_with(ctx: ContextView, doc: DocumentView, sym: SymbolModel) -> Option<ExprModel>
    decreases sym,
{
    match sym.sym_ref {
        SymbolRefModel::InitialValue(_, after) => reduce_symbol_with(ctx, doc, *after),
        SymbolRefModel::Binding(BindingModel::ReducerPathBinding(k)) => reduce_reducer_key(
            ctx,
            doc,
            k,
            ExprModel::SymbolReference(sym),
        ),
        SymbolRefModel::ResolvedReference(_, ResolvedModel::ReducerKeyReference(k), _) => reduce_reducer_key(
            ctx,
            doc,
            k,
            ExprModel::SymbolReference(sym),
        ),
        _ => reduce_model(ctx, ExprModel::SymbolReference(sym)),
    }
}

/// What an expression reduces to with a document at hand: as `reduce_model`, but a
/// reference to a symbol is reduced with the document, and so are the operands of a
/// binary operation before the operation itself is reduced.
pub open spec fn reduce_and_resolve_model(ctx: ContextView, doc: DocumentView, e: ExprModel) -> Option<ExprModel>
    decreases e,
{
    match e {
        ExprModel::SymbolReference(sym) => reduce_symbol_with(ctx, doc, sym),
        ExprModel::Binding(BindingModel::ReducerPathBinding(k)) => reduce_reducer_key(
            ctx,
            doc,
            k,
            e,
        ),
        ExprModel::Expr(op, l, r) => {
            let lr = reduce_and_resolve_model(ctx, doc, *l);
            let rr = reduce_and_resolve_model(ctx, doc, *r);
            reduce_binary(op, or_same(lr, *l), or_same(rr, *r), changed(lr, *l) || changed(rr, *r))
        },
        _ => reduce_model(ctx, e),
    }
}

/// The text of an expression: a text literal is its text, a number literal its decimal
/// form, an array literal the text `[array]`. Any other expression is reduced, at most
/// `fuel` times in a row; what does not end in one of these is `undefined`.
pub open spec fn text_model(ctx: ContextView, e: ExprModel, fuel: nat) -> Seq<char>
    decreases fuel,
{
    match e {
        ExprModel::LiteralString(s) => s,
        ExprModel::LiteralNumber(n) => decimal_text(n),
        ExprModel::LiteralArray(_) => "[array]"@,
        _ => if fuel == 0 {
            "undefined"@
        } else {
            match reduce_model(ctx, e) {
                Some(next) => text_model(ctx, next, (fuel - 1) as nat),
                None => "undefined"@,
            }
        },
    }
}

/// The text of what an expression reduces to with a document at hand, if it reduces.
pub open spec fn resolved_text_model(ctx: ContextView, doc: DocumentView, e: ExprModel) -> Option<Seq<char>> {
    match reduce_and_resolve_model(ctx, doc, e) {
        Some(r) => Some(text_model(ctx, r, REDUCTION_DEPTH_LIMIT as nat)),
        None => None,
    }
}

/// Reduces a binary operation whose operands were reduced already.
pub fn reduce_binary_expr(op: ExprOp, l: ExprValue, r: ExprValue, had_reduction: bool) -> (out: Option<ExprValue>)
    ensures
        opt_expr_model(out) == reduce_binary(op, l@, r@, had_reduction),
{
    let is_add = match op {
        ExprOp::Add => true,
        _ => false,
    };
    let l_string = match &l {
        ExprValue::LiteralString(_) => true,
        _ => false,
    };
    let r_string = match &r {
        ExprValue::LiteralString(_) => true,
        _ => false,
    };
    if is_add && (l_string || r_string) {
        let ghost lm = l@;
        let ghost rm = r@;
        let mut operands: Vec<Box<ExprValue>> = Vec::new();
        operands.push(Box::new(l));
        operands.push(Box::new(r));
        let op = ExprApplyOp::JoinString(None);
        proof {
            lemma_apply_model(op, operands);
            assert(crate::ast::boxed_exprs_model(operands@) =~= seq![lm, rm]);
        }
        return Some(ExprValue::Apply(op, Some(operands)));
    }
    if is_add {
        match (&l, &r) {
            (ExprValue::LiteralNumber(a), ExprValue::LiteralNumber(b)) => {
                let sum: i64 = *a as i64 + *b as i64;
                if -0x8000_0000 <= sum && sum <= 0x7fff_ffff {
                    return Some(ExprValue::LiteralNumber(sum as i32));
                }
            },
            _ => {},
        }
    }
    if had_reduction {
        Some(ExprValue::Expr(op, Box::new(l), Box::new(r)))
    } else {
        None
    }
}

/// Whether a reduction changed the expression.
pub fn is_changed(reduced: &Option<ExprValue>, expr: &ExprValue) -> (r: bool)
    ensures
        r == changed(opt_expr_model(*reduced), expr@),
{
    match reduced {
        Some(e) => !same_expr(e, expr),
        None => false,
    }
}

/// Reduces a binary operation from its operands and what each of them reduced to.
pub fn reduce_operands(
    op: ExprOp,
    l_expr: &ExprValue,
    r_expr: &ExprValue,
    l_reduced: Option<ExprValue>,
    r_reduced: Option<ExprValue>,
) -> (out: Option<ExprValue>)
    ensures
        opt_expr_model(out) == reduce_binary(
            op,
            or_same(opt_expr_model(l_reduced), l_expr@),
            or_same(opt_expr_model(r_reduced), r_expr@),
            changed(opt_expr_model(l_reduced), l_expr@) || changed(
                opt_expr_model(r_reduced),
                r_expr@,
            ),
        ),
{
    let had_reduction = is_changed(&l_reduced, l_expr) || is_changed(&r_reduced, r_expr);
    let l = match l_reduced {
        Some(e) => e,
        None => l_expr.clone(),
    };
    let r = match r_reduced {
        Some(e) => e,
        None => r_expr.clone(),
    };
    reduce_binary_expr(op, l, r, had_reduction)
}

impl Context {
    /// Reduces an expression as far as the context allows. `None` means that no progress
    /// can be made: the caller keeps the expression. The context is only read, so the
    /// same call gives the same result until the context changes.
    pub fn reduce_expr(&self, expr: &ExprValue) -> (r: Option<ExprValue>)
        requires
            self.wf(),
        ensures
            opt_expr_model(r) == reduce_model(self@, expr@),
        decreases *expr,
    {
        match expr {
            ExprValue::LiteralNumber(_) => Some(expr.clone()),
            ExprValue::LiteralString(_) => Some(expr.clone()),
            ExprValue::LiteralBool(_) => Some(expr.clone()),
            ExprValue::LiteralNull => Some(expr.clone()),
            ExprValue::LiteralArray(_) => Some(expr.clone()),
            ExprValue::Expr(op, l_expr, r_expr) => {
                let l_reduced = self.reduce_expr(l_expr);
                let r_reduced = self.reduce_expr(r_expr);
                reduce_operands(*op, l_expr, r_expr, l_reduced, r_reduced)
            },
            ExprValue::DefaultVariableReference => {
                match self.resolve_sym("value") {
                    Some(sym) => Some(ExprValue::SymbolReference(sym)),
                    None => None,
                }
            },
            ExprValue::SymbolReference(sym) => self.reduce_symbol_ref(sym),
            _ => None,
        }
    }

    /// Reduces a reference to `sym`.
    pub fn reduce_symbol_ref(&self, sym: &Symbol) -> (r: Option<ExprValue>)
        requires
            self.wf(),
        ensures
            opt_expr_model(r) == reduce_symbol(self@, sym@),
    {
        match sym.sym_ref() {
            SymbolReferenceType::UnresolvedReference(key) => {
                match self.resolve_sym(key.as_str()) {
                    Some(found) => Some(ExprValue::SymbolReference(found)),
                    None => None,
                }
            },
            _ => None,
        }
    }

    /// The reduction of an expression, or a copy of the expression where it has none.
    pub fn reduce_expr_or_return_same(&self, expr: &ExprValue) -> (r: ExprValue)
        requires
            self.wf(),
        ensures
            r@ == reduce_or_same(self@, expr@),
    {
        match self.reduce_expr(expr) {
            Some(e) => e,
            None => expr.clone(),
        }
    }

    /// Reduces a reference to the reducer key `key`: to the reduction of its default
    /// expression where `doc` registers one, else to that of `fallback`.
    fn reduce_reducer_key_ref(&self, doc: &Document, key: &str, fallback: &ExprValue) -> (r: Option<ExprValue>)
        requires
            self.wf(),
            doc.wf(),
        ensures
            opt_expr_model(r) == reduce_reducer_key(self@, doc@, key@, fallback@),
    {
        match doc.default_expr(key) {
            Some(d) => self.reduce_expr(d),
            None => self.reduce_expr(fallback),
        }
    }

    /// Reduces a reference to `sym` with a document at hand. `whole` is that reference.
    fn reduce_symbol_ref_with(&self, doc: &Document, sym: &Symbol, whole: &ExprValue) -> (r: Option<ExprValue>)
        requires
            self.wf(),
            doc.wf(),
            whole@ == ExprModel::SymbolReference(sym@),
        ensures
            opt_expr_model(r) == reduce_symbol_with(self@, doc@, sym@),
        decreases *sym,
    {
        match &sym.0 {
            SymbolReferenceType::InitialValue(_, after) => {
                let next = ExprValue::SymbolReference((**after).clone());
                self.reduce_symbol_ref_with(doc, after, &next)
            },
            SymbolReferenceType::Binding(BindingType::ReducerPathBinding(k)) => {
                self.reduce_reducer_key_ref(doc, k.as_str(), whole)
            },
            SymbolReferenceType::ResolvedReference(_, ResolvedSymbolType::ReducerKeyReference(k), _) => {
                self.reduce_reducer_key_ref(doc, k.as_str(), whole)
            },
            _ => self.reduce_expr(whole),
        }
    }

    /// Reduces an expression with a document at hand: as `reduce_expr` does, and beyond
    /// that an initial value is chased to its chained symbol and a reducer key is
    /// replaced by the default expression that the document registers for it, at the
    /// top and in the operands of binary operations.
    pub fn reduce_expr_and_resolve(&self, doc: &Document, expr: &ExprValue) -> (r: Option<ExprValue>)
        requires
            self.wf(),
            doc.wf(),
        ensures
            opt_expr_model(r) == reduce_and_resolve_model(self@, doc@, expr@),
        decreases *expr,
    {
        match expr {
            ExprValue::SymbolReference(sym) => self.reduce_symbol_ref_with(doc, sym, expr),
            ExprValue::Binding(BindingType::ReducerPathBinding(k)) => {
                self.reduce_reducer_key_ref(doc, k.as_str(), expr)
            },
            ExprValue::Expr(op, l_expr, r_expr) => {
                let l_reduced = self.reduce_expr_and_resolve(doc, l_expr);
                let r_reduced = self.reduce_expr_and_resolve(doc, r_expr);
                reduce_operands(*op, l_expr, r_expr, l_reduced, r_reduced)
            },
            _ => self.reduce_expr(expr),
        }
    }

    /// The text of an expression; `undefined` for what does not reduce to a text, a
    /// number or an array.
    pub fn reduce_expr_to_string(&self, expr: &ExprValue) -> (r: String)
        requires
            self.wf(),
        ensures
            r@ == text_model(self@, expr@, REDUCTION_DEPTH_LIMIT as nat),
    {
        let mut cur = expr.clone();
        let mut fuel: usize = REDUCTION_DEPTH_LIMIT;
        loop
            invariant
                self.wf(),
                text_model(self@, expr@, REDUCTION_DEPTH_LIMIT as nat) == text_model(
                    self@,
                    cur@,
                    fuel as nat,
                ),
            decreases fuel,
        {
            match &cur {
                ExprValue::LiteralString(s) => {
                    return s.clone();
                },
                ExprValue::LiteralNumber(n) => {
                    return number_text(*n);
                },
                ExprValue::LiteralArray(_) => {
                    return "[array]".to_owned();
                },
                _ => {},
            }
            if fuel == 0 {
                return "undefined".to_owned();
            }
            match self.reduce_expr(&cur) {
                Some(next) => {
                    cur = next;
                    fuel = fuel - 1;
                },
                None => {
                    return "undefined".to_owned();
                },
            }
        }
    }

    /// The text of what an expression reduces to with a document at hand, or `None`
    /// where it does not reduce.
    pub fn reduce_expr_and_resolve_to_string(&self, doc: &Document, expr: &ExprValue) -> (r: Option<String>)
        requires
            self.wf(),
            doc.wf(),
        ensures
            crate::ast::opt_text(r) == resolved_text_model(self@, doc@, expr@),
    {
        match self.reduce_expr_and_resolve(doc, expr) {
            Some(e) => Some(self.reduce_expr_to_string(&e)),
            None => None,
        }
    }
}

} // verus!
