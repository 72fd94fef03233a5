//! Path segments: the pieces from which element keys and action types are joined.

use crate::ast::{
    lemma_apply_model, ApplyOpModel, ExprApplyOp, ExprModel, ExprValue,
};
use crate::text::{opt_str_text, own_opt_text, upper, uppercase_text};
use vstd::prelude::*;

verus! {

/// One segment of a path: a fixed text, or an expression that is evaluated later.
#[derive(Debug, PartialEq)]
pub enum SymbolPathComponent {
    StaticPathComponent(String),
    EvalPathComponent(ExprValue),
}

pub enum PathComponentModel {
    StaticPathComponent(Seq<char>),
    EvalPathComponent(ExprModel),
}

impl View for SymbolPathComponent {
    type V = PathComponentModel;

    open spec fn view(&self) -> PathComponentModel {
        match *self {
            SymbolPathComponent::StaticPathComponent(s) => PathComponentModel::StaticPathComponent(
                s@,
            ),
            SymbolPathComponent::EvalPathComponent(e) => PathComponentModel::EvalPathComponent(e@),
        }
    }
}

impl Clone for SymbolPathComponent {
    fn clone(&self) -> (r: Self)
        ensures
            r@ == self@,
    {
        match self {
            SymbolPathComponent::StaticPathComponent(s) => SymbolPathComponent::StaticPathComponent(
                s.clone(),
            ),
            SymbolPathComponent::EvalPathComponent(e) => SymbolPathComponent::EvalPathComponent(
                e.clone(),
            ),
        }
    }
}

/// The expression that a segment contributes to an element key.
pub open spec fn component_expr(c: PathComponentModel) -> ExprModel {
    match c {
        PathComponentModel::StaticPathComponent(s) => ExprModel::LiteralString(s),
        PathComponentModel::EvalPathComponent(e) => e,
    }
}

/// The expression that a segment contributes to an action type: a fixed text is
/// upper-cased.
pub open spec fn component_action_expr(c: PathComponentModel) -> ExprModel {
    match c {
        PathComponentModel::StaticPathComponent(s) => ExprModel::LiteralString(uppercase_text(s)),
        PathComponentModel::EvalPathComponent(e) => e,
    }
}

/// The operands of a join over the segments: one expression for each, in order.
pub open spec fn path_operands(comps: Seq<PathComponentModel>, action: bool) -> Seq<ExprModel> {
    Seq::new(
        comps.len(),
        |i: int|
            if action {
                component_action_expr(comps[i])
            } else {
                component_expr(comps[i])
            },
    )
}

/// The deferred join of some operands: always an `Apply` node, without operands when
/// there are none.
pub open spec fn join_of(sep: Option<Seq<char>>, operands: Seq<ExprModel>) -> ExprModel {
    ExprModel::Apply(
        ApplyOpModel::JoinString(sep),
        if operands.len() == 0 {
            None
        } else {
            Some(operands)
        },
    )
}

/// The models of a sequence of segments.
pub open spec fn components_model(v: Seq<SymbolPathComponent>) -> Seq<PathComponentModel> {
    Seq::new(v.len(), |i: int| v[i]@)
}

/// The segments that one scope has appended, in order.
#[derive(Debug, PartialEq)]
pub struct SymbolPathScope(Vec<SymbolPathComponent>);

impl View for SymbolPathScope {
    type V = Seq<PathComponentModel>;

    closed spec fn view(&self) -> Seq<PathComponentModel> {
        components_model(self.0@)
    }
}

impl Default for SymbolPathScope {
    fn default() -> (r: SymbolPathScope)
        ensures
            r@ == Seq::<PathComponentModel>::empty(),
    {
        let r = SymbolPathScope(Vec::new());
        assert(r@ =~= Seq::<PathComponentModel>::empty());
        r
    }
}

impl Clone for SymbolPathScope {
    fn clone(&self) -> (r: Self)
        ensures
            r@ == self@,
    {
        let mut out: Vec<SymbolPathComponent> = Vec::new();
        let mut i: usize = 0;
        while i < self.0.len()
            invariant
                i <= self.0@.len(),
                out@.len() == i,
                forall|j: int| 0 <= j < i ==> (#[trigger] out@[j])@ == self.0@[j]@,
            decreases self.0@.len() - i,
        {
            out.push(self.0[i].clone());
            i += 1;
        }
        let r = SymbolPathScope(out);
        assert(r@ =~= self@);
        r
    }
}

/// Appends to `out` the operand of each segment, a fixed text upper-cased if `action`.
pub fn push_operands(out: &mut Vec<Box<ExprValue>>, comps: &Vec<SymbolPathComponent>, action: bool)
    ensures
        crate::ast::boxed_exprs_model(final(out)@) == crate::ast::boxed_exprs_model(old(out)@)
            + path_operands(components_model(comps@), action),
{
    let ghost before = crate::ast::boxed_exprs_model(out@);
    let mut i: usize = 0;
    while i < comps.len()
        invariant
            i <= comps@.len(),
            crate::ast::boxed_exprs_model(out@) == before + path_operands(
                components_model(comps@),
                action,
            ).take(i as int),
        decreases comps@.len() - i,
    {
        let ghost cur = crate::ast::boxed_exprs_model(out@);
        let operand = match &comps[i] {
            SymbolPathComponent::StaticPathComponent(s) => {
                if action {
                    ExprValue::LiteralString(upper(s.as_str()))
                } else {
                    ExprValue::LiteralString(s.clone())
                }
            },
            SymbolPathComponent::EvalPathComponent(e) => e.clone(),
        };
        out.push(Box::new(operand));
        i += 1;
        proof {
            let all = path_operands(components_model(comps@), action);
            assert(crate::ast::boxed_exprs_model(out@) =~= cur.push(all[i - 1]));
            assert(all.take(i as int) =~= all.take(i - 1).push(all[i - 1]));
            assert(before + all.take(i as int) =~= (before + all.take(i - 1)).push(all[i - 1]));
        }
    }
    proof {
        let all = path_operands(components_model(comps@), action);
        assert(all.take(comps@.len() as int) =~= all);
    }
}

/// The deferred join of some operands that were collected with `push_operands`.
pub fn join_operands(sep: Option<&str>, operands: Vec<Box<ExprValue>>) -> (r: ExprValue)
    ensures
        r@ == join_of(opt_str_text(sep), crate::ast::boxed_exprs_model(operands@)),
{
    let op = ExprApplyOp::JoinString(own_opt_text(sep));
    if operands.len() > 0 {
        proof {
            lemma_apply_model(op, operands);
        }
        ExprValue::Apply(op, Some(operands))
    } else {
        ExprValue::Apply(op, None)
    }
}

impl SymbolPathScope {
    /// The segments, for reading.
    pub fn components(&self) -> (r: &Vec<SymbolPathComponent>)
        ensures
            components_model(r@) == self@,
    {
        &self.0
    }

    /// Appends a segment that is evaluated later.
    pub fn append_expr(&mut self, expr: &ExprValue)
        ensures
            final(self)@ == old(self)@.push(PathComponentModel::EvalPathComponent(expr@)),
    {
        self.0.push(SymbolPathComponent::EvalPathComponent(expr.clone()));
        assert(self@ =~= old(self)@.push(PathComponentModel::EvalPathComponent(expr@)));
    }

    /// Appends a fixed segment.
    pub fn append_str(&mut self, s: &str)
        ensures
            final(self)@ == old(self)@.push(PathComponentModel::StaticPathComponent(s@)),
    {
        self.0.push(SymbolPathComponent::StaticPathComponent(s.to_owned()));
        assert(self@ =~= old(self)@.push(PathComponentModel::StaticPathComponent(s@)));
    }

    /// The segments as one deferred join. The join is never carried out here, not even
    /// when every segment is a fixed text.
    pub fn join_as_expr(&self, s: Option<&str>) -> (r: Option<ExprValue>)
        ensures
            r is Some,
            r->0@ == join_of(opt_str_text(s), path_operands(self@, false)),
    {
        let mut operands: Vec<Box<ExprValue>> = Vec::new();
        assert(crate::ast::boxed_exprs_model(operands@) =~= Seq::<ExprModel>::empty());
        push_operands(&mut operands, &self.0, false);
        assert(Seq::<ExprModel>::empty() + path_operands(self@, false) =~= path_operands(
            self@,
            false,
        ));
        Some(join_operands(s, operands))
    }

    /// The segments as one deferred join for an action type: fixed texts are upper-cased.
    pub fn join_as_action_expr(&self, s: Option<&str>) -> (r: ExprValue)
        ensures
            r@ == join_of(opt_str_text(s), path_operands(self@, true)),
    {
        let mut operands: Vec<Box<ExprValue>> = Vec::new();
        assert(crate::ast::boxed_exprs_model(operands@) =~= Seq::<ExprModel>::empty());
        push_operands(&mut operands, &self.0, true);
        assert(Seq::<ExprModel>::empty() + path_operands(self@, true) =~= path_operands(
            self@,
            true,
        ));
        join_operands(s, operands)
    }
}

} // verus!
