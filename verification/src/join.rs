//! Joining the path segments of the active scopes into element keys and action types.

use crate::ast::{boxed_exprs_model, ExprModel, ExprValue};
use crate::context::{Context, ContextView};
use crate::reduce::{text_model, REDUCTION_DEPTH_LIMIT};
use crate::scope::ScopeView;
use crate::symbol_paths::{join_of, join_operands, path_operands, push_operands};
use crate::text::opt_str_text;
use vstd::prelude::*;
use vstd::string::StringExecFns;

verus! {

/// The operands that the active scopes contribute to a join, from the root to the
/// current scope. A scope without segments contributes nothing. For an action path
/// (`action`) the action segments are taken, fixed texts in upper case.
pub open spec fn stack_operands(scopes: Seq<(Seq<char>, ScopeView)>, action: bool) -> Seq<ExprModel>
    decreases scopes.len(),
{
    if scopes.len() == 0 {
        Seq::empty()
    } else {
        stack_operands(scopes.drop_last(), action) + path_operands(
            if action {
                scopes.last().1.action_path
            } else {
                scopes.last().1.symbol_path
            },
            action,
        )
    }
}

/// The texts put one after the other, with `sep` between each two.
pub open spec fn joined_text(sep: Seq<char>, texts: Seq<Seq<char>>) -> Seq<char>
    decreases texts.len(),
{
    if texts.len() == 0 {
        Seq::empty()
    } else if texts.len() == 1 {
        texts[0]
    } else {
        joined_text(sep, texts.drop_last()) + sep + texts.last()
    }
}

/// The text of each operand in a context.
pub open spec fn operand_texts(ctx: ContextView, operands: Seq<ExprModel>) -> Seq<Seq<char>> {
    Seq::new(operands.len(), |i: int| text_model(ctx, operands[i], REDUCTION_DEPTH_LIMIT as nat))
}

/// The separator of a join of texts: the given one, or nothing.
pub open spec fn separator_text(sep: Option<&str>) -> Seq<char> {
    match sep {
        Some(s) => s@,
        None => Seq::empty(),
    }
}

/// The path of the active scopes as one text.
pub open spec fn path_text(ctx: ContextView, sep: Option<&str>, action: bool) -> Seq<char> {
    joined_text(separator_text(sep), operand_texts(ctx, stack_operands(ctx.scopes, action)))
}

/// A path text with `last` appended after a dot; `last` alone where the path is empty.
pub open spec fn path_text_with(path: Seq<char>, last: Seq<char>) -> Seq<char> {
    if path.len() > 0 {
        path + "."@ + last
    } else {
        last
    }
}

/// Appends `last` to a path text after a dot; gives `last` alone where the path is empty.
pub fn append_to_path(path: String, last: &str) -> (r: String)
    ensures
        r@ == path_text_with(path@, last@),
{
    if path.as_str().is_empty() {
        last.to_owned()
    } else {
        let mut r = path;
        r.append(".");
        r.append(last);
        r
    }
}

impl Context {
    /// The operands that the active scopes contribute to a join.
    pub fn stack_operand_list(&self, action: bool) -> (out: Vec<Box<ExprValue>>)
        requires
            self.wf(),
        ensures
            boxed_exprs_model(out@) == stack_operands(self@.scopes, action),
    {
        let scopes = self.scopes_in_order();
        let mut out: Vec<Box<ExprValue>> = Vec::new();
        let mut i: usize = 0;
        assert(boxed_exprs_model(out@) =~= Seq::<ExprModel>::empty());
        assert(self@.scopes.take(0) =~= Seq::empty());
        while i < scopes.len()
            invariant
                i <= scopes@.len(),
                scopes@.len() == self@.scopes.len(),
                forall|j: int| 0 <= j < scopes@.len() ==> scopes@[j]@ == (#[trigger] self@.scopes[j]).1,
                boxed_exprs_model(out@) == stack_operands(self@.scopes.take(i as int), action),
            decreases scopes@.len() - i,
        {
            let path = if action {
                scopes[i].action_path()
            } else {
                scopes[i].symbol_path()
            };
            push_operands(&mut out, path.components(), action);
            proof {
                let next = self@.scopes.take(i + 1);
                assert(next.drop_last() =~= self@.scopes.take(i as int));
                assert(next.last() == self@.scopes[i as int]);
            }
            i += 1;
        }
        assert(self@.scopes.take(i as int) =~= self@.scopes);
        out
    }

    /// The texts of some operands, with `sep` between each two.
    pub fn join_operand_texts(&self, operands: &Vec<Box<ExprValue>>, sep: &str) -> (r: String)
        requires
            self.wf(),
        ensures
            r@ == joined_text(sep@, operand_texts(self@, boxed_exprs_model(operands@))),
    {
        let ghost texts = operand_texts(self@, boxed_exprs_model(operands@));
        let mut r = String::new();
        let mut i: usize = 0;
        assert(texts.take(0) =~= Seq::empty());
        while i < operands.len()
            invariant
                self.wf(),
                i <= operands@.len(),
                texts == operand_texts(self@, boxed_exprs_model(operands@)),
                r@ == joined_text(sep@, texts.take(i as int)),
            decreases operands@.len() - i,
        {
            let text = self.reduce_expr_to_string(&operands[i]);
            proof {
                let next = texts.take(i + 1);
                assert(next.drop_last() =~= texts.take(i as int));
                assert(next.last() == text@);
                if i == 0 {
                    assert(r@ + text@ =~= text@);
                }
            }
            if i > 0 {
                r.append(sep);
            }
            r.append(text.as_str());
            i += 1;
        }
        assert(texts.take(i as int) =~= texts);
        r
    }

    /// The element-key path of the active scopes as one deferred join. The join is never
    /// carried out here, not even where every segment is a fixed text.
    pub fn join_path_as_expr(&self, s: Option<&str>) -> (r: ExprValue)
        requires
            self.wf(),
        ensures
            r@ == join_of(opt_str_text(s), stack_operands(self@.scopes, false)),
    {
        let operands = self.stack_operand_list(false);
        join_operands(s, operands)
    }

    /// The element-key path of the active scopes and then the text `last`, as one
    /// deferred join.
    pub fn join_path_as_expr_with(&self, sep: Option<&str>, last: &str) -> (r: ExprValue)
        requires
            self.wf(),
        ensures
            r@ == join_of(
                opt_str_text(sep),
                stack_operands(self@.scopes, false).push(ExprModel::LiteralString(last@)),
            ),
    {
        let mut operands = self.stack_operand_list(false);
        operands.push(Box::new(ExprValue::LiteralString(last.to_owned())));
        assert(boxed_exprs_model(operands@) =~= stack_operands(self@.scopes, false).push(
            ExprModel::LiteralString(last@),
        ));
        join_operands(sep, operands)
    }

    /// The action path of the active scopes as one deferred join, fixed texts in upper
    /// case.
    pub fn join_action_path_as_expr(&self, s: Option<&str>) -> (r: ExprValue)
        requires
            self.wf(),
        ensures
            r@ == join_of(opt_str_text(s), stack_operands(self@.scopes, true)),
    {
        let operands = self.stack_operand_list(true);
        join_operands(s, operands)
    }

    /// The element-key path of the active scopes as one text.
    pub fn join_path(&self, s: Option<&str>) -> (r: String)
        requires
            self.wf(),
        ensures
            r@ == path_text(self@, s, false),
    {
        let operands = self.stack_operand_list(false);
        let sep = match s {
            Some(sep) => sep,
            None => "",
        };
        proof {
            reveal_strlit("");
            assert(sep@ =~= separator_text(s));
        }
        self.join_operand_texts(&operands, sep)
    }

    /// The element-key path as one text, with `last` after a dot.
    pub fn join_path_with(&self, s: Option<&str>, last: &str) -> (r: String)
        requires
            self.wf(),
        ensures
            r@ == path_text_with(path_text(self@, s, false), last@),
    {
        let key = self.join_path(s);
        append_to_path(key, last)
    }

    /// The action path of the active scopes as one text, fixed segments in upper case.
    pub fn join_action_path(&self, s: Option<&str>) -> (r: String)
        requires
            self.wf(),
        ensures
            r@ == path_text(self@, s, true),
    {
        let operands = self.stack_operand_list(true);
        let sep = match s {
            Some(sep) => sep,
            None => "",
        };
        proof {
            reveal_strlit("");
            assert(sep@ =~= separator_text(s));
        }
        self.join_operand_texts(&operands, sep)
    }

    /// The action path as one text, with `last` after a dot.
    pub fn join_action_path_with(&self, sep: Option<&str>, last: &str) -> (r: String)
        requires
            self.wf(),
        ensures
            r@ == path_text_with(path_text(self@, sep, true), last@),
    {
        let key = self.join_action_path(sep);
        append_to_path(key, last)
    }
}

} // verus!
