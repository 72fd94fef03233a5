//! Reducing the expressions that properties and event handlers carry.

use crate::ast::{
    action_ops_model, opt_action_ops_model, opt_expr_model, opt_props_model, opt_texts_model,
    prop_model, props_model, texts_model, ActionOpModel, ActionOpNode, EventHandler,
    EventHandlerModel, ExprModel, ExprValue, Prop, PropModel,
};
use crate::context::{resolve, Context, ContextView};
use crate::reduce::reduce_or_same;
use vstd::prelude::*;

verus! {

/// A property with its value reduced where it has a reduction.
pub open spec fn mapped_prop(ctx: ContextView, p: PropModel) -> PropModel {
    PropModel {
        key: p.key,
        value: match p.value {
            Some(e) => Some(reduce_or_same(ctx, e)),
            None => None,
        },
    }
}

/// Each of some properties with its value reduced.
pub open spec fn mapped_props(ctx: ContextView, props: Seq<PropModel>) -> Seq<PropModel> {
    Seq::new(props.len(), |i: int| mapped_prop(ctx, props[i]))
}

/// Some optional properties with their values reduced.
pub open spec fn mapped_opt_props(ctx: ContextView, props: Option<Seq<PropModel>>) -> Option<Seq<PropModel>> {
    match props {
        Some(p) => Some(mapped_props(ctx, p)),
        None => None,
    }
}

/// An operation with the values of its properties reduced.
pub open spec fn mapped_action_op(ctx: ContextView, op: ActionOpModel) -> ActionOpModel {
    match op {
        ActionOpModel::DispatchAction(name, props) => ActionOpModel::DispatchAction(
            name,
            mapped_opt_props(ctx, props),
        ),
    }
}

/// Each of some operations with the values of its properties reduced.
pub open spec fn mapped_action_ops(ctx: ContextView, ops: Seq<ActionOpModel>) -> Seq<ActionOpModel> {
    Seq::new(ops.len(), |i: int| mapped_action_op(ctx, ops[i]))
}

/// Some optional operations with the values of their properties reduced.
pub open spec fn mapped_opt_action_ops(ctx: ContextView, ops: Option<Seq<ActionOpModel>>) -> Option<Seq<ActionOpModel>> {
    match ops {
        Some(o) => Some(mapped_action_ops(ctx, o)),
        None => None,
    }
}

/// An event handler with the property values of its operations reduced.
pub open spec fn mapped_event_handler(ctx: ContextView, h: EventHandlerModel) -> EventHandlerModel {
    match h {
        EventHandlerModel::Event(name, params, ops) => EventHandlerModel::Event(
            name,
            params,
            mapped_opt_action_ops(ctx, ops),
        ),
        EventHandlerModel::DefaultEvent(params, ops) => EventHandlerModel::DefaultEvent(
            params,
            mapped_opt_action_ops(ctx, ops),
        ),
    }
}

/// A property whose key resolves stands for a reference to the symbol that it resolves
/// to; any other property stands for itself.
pub open spec fn resolved_prop(ctx: ContextView, p: PropModel) -> PropModel {
    match resolve(ctx, p.key) {
        Some(s) => PropModel { key: p.key, value: Some(ExprModel::SymbolReference(s)) },
        None => p,
    }
}

/// A copy of some texts.
pub fn copy_texts(v: &Vec<String>) -> (out: Vec<String>)
    ensures
        texts_model(out@) == texts_model(v@),
{
    let mut out: Vec<String> = Vec::new();
    let mut i: usize = 0;
    while i < v.len()
        invariant
            i <= v@.len(),
            out@.len() == i,
            forall|j: int| 0 <= j < i ==> (#[trigger] out@[j])@ == v@[j]@,
        decreases v@.len() - i,
    {
        out.push(v[i].clone());
        i += 1;
    }
    assert(texts_model(out@) =~= texts_model(v@));
    out
}

/// A copy of some optional texts.
pub fn copy_opt_texts(v: &Option<Vec<String>>) -> (out: Option<Vec<String>>)
    ensures
        opt_texts_model(out) == opt_texts_model(*v),
{
    match v {
        Some(v) => Some(copy_texts(v)),
        None => None,
    }
}

impl Context {
    /// A copy of a property, with its value reduced where it has a reduction.
    pub fn map_prop(&self, prop: &Prop) -> (r: Prop)
        requires
            self.wf(),
        ensures
            prop_model(r) == mapped_prop(self@, prop_model(*prop)),
    {
        let value = match &prop.1 {
            Some(e) => Some(self.reduce_expr_or_return_same(e)),
            None => None,
        };
        (prop.0.clone(), value)
    }

    /// Copies of some properties, each with its value reduced where it has a reduction.
    pub fn map_props(&self, props: &Vec<Prop>) -> (r: Vec<Prop>)
        requires
            self.wf(),
        ensures
            props_model(r@) == mapped_props(self@, props_model(props@)),
    {
        let mut out: Vec<Prop> = Vec::new();
        let mut i: usize = 0;
        while i < props.len()
            invariant
                self.wf(),
                i <= props@.len(),
                out@.len() == i,
                forall|j: int|
                    0 <= j < i ==> prop_model(#[trigger] out@[j]) == mapped_prop(
                        self@,
                        prop_model(props@[j]),
                    ),
            decreases props@.len() - i,
        {
            out.push(self.map_prop(&props[i]));
            i += 1;
        }
        assert(props_model(out@) =~= mapped_props(self@, props_model(props@)));
        out
    }

    /// Copies of some operations, the property values of each reduced.
    pub fn map_action_ops(&self, action_ops: &Vec<ActionOpNode>) -> (r: Vec<ActionOpNode>)
        requires
            self.wf(),
        ensures
            action_ops_model(r@) == mapped_action_ops(self@, action_ops_model(action_ops@)),
    {
        let mut out: Vec<ActionOpNode> = Vec::new();
        let mut i: usize = 0;
        while i < action_ops.len()
            invariant
                self.wf(),
                i <= action_ops@.len(),
                out@.len() == i,
                forall|j: int|
                    0 <= j < i ==> (#[trigger] out@[j])@ == mapped_action_op(
                        self@,
                        action_ops@[j]@,
                    ),
            decreases action_ops@.len() - i,
        {
            let mapped = match &action_ops[i] {
                ActionOpNode::DispatchAction(action_ty, props) => {
                    let props = match props {
                        Some(v) => Some(self.map_props(v)),
                        None => None,
                    };
                    ActionOpNode::DispatchAction(action_ty.clone(), props)
                },
            };
            out.push(mapped);
            i += 1;
        }
        assert(action_ops_model(out@) =~= mapped_action_ops(
            self@,
            action_ops_model(action_ops@),
        ));
        out
    }

    /// A copy of an event handler, the property values of its operations reduced.
    pub fn map_event_handler_symbols(&self, event_handler: &EventHandler) -> (r: EventHandler)
        requires
            self.wf(),
        ensures
            r@ == mapped_event_handler(self@, event_handler@),
    {
        match event_handler {
            EventHandler::Event(event_name, params, action_ops) => {
                let action_ops = match action_ops {
                    Some(ops) => Some(self.map_action_ops(ops)),
                    None => None,
                };
                EventHandler::Event(event_name.clone(), copy_opt_texts(params), action_ops)
            },
            EventHandler::DefaultEvent(params, action_ops) => {
                let action_ops = match action_ops {
                    Some(ops) => Some(self.map_action_ops(ops)),
                    None => None,
                };
                EventHandler::DefaultEvent(copy_opt_texts(params), action_ops)
            },
        }
    }
}

/// Walks over properties and hands each out resolved against a context.
pub struct SymbolResolver<'a> {
    ctx: &'a Context,
    props: Vec<Prop>,
    pos: usize,
}

impl<'a> SymbolResolver<'a> {
    /// The context that the properties are resolved against.
    pub closed spec fn context(&self) -> ContextView {
        self.ctx@
    }

    /// The properties that were not handed out yet.
    pub closed spec fn remaining(&self) -> Seq<PropModel> {
        props_model(self.props@).skip(self.pos as int)
    }

    /// The context is well-formed and the position is within the properties.
    pub closed spec fn wf(&self) -> bool {
        self.ctx.wf() && self.pos <= self.props@.len()
    }

    /// A resolver over `props` that resolves against `ctx`.
    pub fn new(ctx: &'a Context, props: Vec<Prop>) -> (r: Self)
        requires
            ctx.wf(),
        ensures
            r.wf(),
            r.context() == ctx@,
            r.remaining() == props_model(props@),
    {
        let r = SymbolResolver { ctx, props, pos: 0 };
        assert(r.remaining() =~= props_model(props@));
        r
    }

    /// The next property, resolved: where its key resolves, its value is a reference to
    /// the symbol; else it is a copy. `None` after the last one.
    pub fn next(&mut self) -> (r: Option<Prop>)
        requires
            old(self).wf(),
        ensures
            final(self).wf(),
            final(self).context() == old(self).context(),
            match r {
                Some(p) => old(self).remaining().len() > 0 && prop_model(p) == resolved_prop(
                    old(self).context(),
                    old(self).remaining()[0],
                ) && final(self).remaining() == old(self).remaining().drop_first(),
                None => old(self).remaining().len() == 0 && final(self).remaining() == old(
                    self,
                ).remaining(),
            },
    {
        if self.pos < self.props.len() {
            let prop = &self.props[self.pos];
            let out = match self.ctx.resolve_sym(prop.0.as_str()) {
                Some(sym) => (prop.0.clone(), Some(ExprValue::SymbolReference(sym))),
                None => {
                    let value = match &prop.1 {
                        Some(e) => Some(e.clone()),
                        None => None,
                    };
                    (prop.0.clone(), value)
                },
            };
            self.pos = self.pos + 1;
            assert(self.remaining() =~= old(self).remaining().drop_first());
            Some(out)
        } else {
            None
        }
    }
}

} // verus!
