use isymtope::ast::{BindingType, ExprApplyOp, ExprOp, ExprValue, Symbol};
use isymtope::context::Context;
use isymtope::scope::Scope;
use isymtope::symbols::Symbols;

type FormalProp<'a> = &'a str;
type FormalPropVec<'a> = Vec<FormalProp<'a>>;

type PropKeyRef = (String, String);
type PropKeyRefVec = Vec<PropKeyRef>;

type PropValue<'a> = (&'a str, Option<&'a ExprValue>);
type PropValueVec<'a> = Vec<PropValue<'a>>;

#[derive(Debug, Clone, Default)]
struct TestProcessor2 {}

#[derive(Debug, Clone, Default)]
struct TestOutput2 {}

impl TestProcessor2 {
    pub fn push_component_definition_scope<'a, I>(
        &mut self,
        ctx: &mut Context,
        _component_ty: &str,
        formals: I,
    ) where
        I: IntoIterator<Item = &'a FormalProp<'a>>,
    {
        ctx.push_child_scope();
        for formal in formals {
            ctx.add_unbound_formal_param(formal);
        }
    }

    pub fn push_element_parameter_definition_scope<'a, I>(
        &mut self,
        ctx: &mut Context,
        _element_id: &str,
        _element_ty: &str,
        props: I,
    ) where
        I: IntoIterator<Item = &'a PropKeyRef>,
    {
        let parent_scope_id = ctx.scope().id().to_owned();
        ctx.push_child_scope();
        for prop in props {
            ctx.add_element_prop_ref(&prop.0, &prop.1, Some(&parent_scope_id));
        }
    }

    pub fn push_element_scope(&mut self, ctx: &mut Context, element_id: &str, _element_ty: &str) {
        ctx.push_child_scope();
        ctx.append_path_str(element_id);
    }
}

impl TestOutput2 {
    pub fn push_component_instance_invocation_scope<'a, I>(
        &mut self,
        ctx: &mut Context,
        _component_ty: &str,
        props: I,
    ) where
        I: IntoIterator<Item = &'a PropValue<'a>>,
    {
        ctx.push_child_scope();
        for prop in props {
            ctx.add_invocation_prop(&prop.0, prop.1);
        }
    }

    pub fn push_component_instance_scope(
        &mut self,
        ctx: &mut Context,
        instance_id: &str,
        _component_ty: &str,
    ) {
        ctx.push_child_scope();
        ctx.append_path_str(instance_id);
    }

    pub fn push_element_parameter_definition_scope<'a, I>(
        &mut self,
        ctx: &mut Context,
        element_id: &str,
        _element_ty: &str,
        props: I,
    ) where
        I: IntoIterator<Item = &'a PropKeyRef>,
    {
        let parent_scope_id = ctx.scope().id().to_owned();
        ctx.push_child_scope();
        ctx.append_path_str(element_id);
        for prop in props {
            ctx.add_element_prop_ref(&prop.0, &prop.1, Some(&parent_scope_id));
        }
    }
}

#[test]
pub fn test_context_symbol_path_mixed1() {
    let mut ctx = Context::default();
    let mut scope = ctx.scope();

    let expr1 = ExprValue::Expr(
        ExprOp::Add,
        Box::new(ExprValue::LiteralNumber(1)),
        Box::new(ExprValue::LiteralNumber(2)),
    );
    scope.append_path_expr(&expr1);
    scope.append_path_str("test");

    ctx.push_scope(scope);

    let expr = ctx.join_path_as_expr(None);
    assert_eq!(
        expr,
        ExprValue::Apply(
            ExprApplyOp::JoinString(None),
            Some(vec![
                Box::new(ExprValue::Expr(
                    ExprOp::Add,
                    Box::new(ExprValue::LiteralNumber(1)),
                    Box::new(ExprValue::LiteralNumber(2))
                )),
                Box::new(ExprValue::LiteralString("test".to_owned()))
            ])
        )
    );
}

#[test]
pub fn test_context_scope_element_nesting1() {
    let mut ctx = Context::default();

    // Lm
    {
        ctx.push_child_scope();
        ctx.append_path_str("Lm");
    }

    // Lm.No
    {
        ctx.push_child_scope();
        ctx.append_path_str("No");
    }

    // Lm.No.Pq
    {
        ctx.push_child_scope();
        ctx.append_path_str("Pq");
    }

    // The joined path (dynamic) should be a string join operation
    let expr = ctx.join_path_as_expr(Some("."));
    assert_eq!(
        expr,
        ExprValue::Apply(
            ExprApplyOp::JoinString(Some(".".to_owned())),
            Some(vec![
                Box::new(ExprValue::LiteralString("Lm".to_owned())),
                Box::new(ExprValue::LiteralString("No".to_owned())),
                Box::new(ExprValue::LiteralString("Pq".to_owned()))
            ])
        )
    );
}

#[test]
pub fn test_context_reducers_and_actions() {
    let mut ctx = Context::default();

    // Define a new reducer `TODOS`
    {
        ctx.push_child_scope();
        ctx.append_action_path_str("TODOS");
    }

    // Define an action within this reducer
    {
        ctx.push_child_scope();
    }

    // Make the current state available using the reducer key, and as `state`, and `value`.
    {
        let binding = BindingType::ActionStateBinding;
        let sym = Symbol::binding(&binding);
        ctx.add_sym("todos", sym.clone());
        ctx.add_sym("state", sym.clone());
        ctx.add_sym("value", sym.clone());
    }

    // Define an action param `entry` within this action
    let _action_scope_id = ctx.scope().id().to_owned();
    {
        ctx.add_action_param("entry")
    }

    // Action ADD
    {
        ctx.push_child_scope();

        // Reference an action param `entry` within this action
        assert_eq!(
            ctx.resolve_sym("entry"),
            Some(Symbol::binding(&BindingType::ActionParamBinding(
                "entry".into()
            )))
        );

        // Reference the current state as local (state)
        assert_eq!(
            ctx.resolve_sym("state"),
            Some(Symbol::binding(&BindingType::ActionStateBinding))
        );

        // Reference the current state as local (todos)
        assert_eq!(
            ctx.resolve_sym("todos"),
            Some(Symbol::binding(&BindingType::ActionStateBinding))
        );

        // Reference the current state as local (state)
        assert_eq!(
            ctx.resolve_sym("value"),
            Some(Symbol::binding(&BindingType::ActionStateBinding))
        );
    }
}

#[test]
pub fn test_context_scope_component_processing1() {
    let mut ctx = Context::default();
    let mut processor = TestProcessor2::default();

    // component Component(todo)
    // Create new component context with unbound formal prop (todo)
    {
        let formals: FormalPropVec = vec![("todo")];
        processor.push_component_definition_scope(&mut ctx, "Component", formals.iter());
    }
    let comp_definition_scope_id = ctx.scope().id().to_owned();

    // within Component definition
    {
        // The local (todo) should be an unbound formal prop (todo)
        assert_eq!(
            ctx.resolve_sym("todo"),
            Some(Symbol::unbound_formal_param(
                "todo",
                Some(&comp_definition_scope_id)
            ))
        );
    }

    // element Pq invocation
    {
        let props: PropKeyRefVec = vec![("value".into(), "todo".into())];
        processor.push_element_parameter_definition_scope(&mut ctx, "Pq", "input", props.iter());
    }

    // element Pq scope
    {
        processor.push_element_scope(&mut ctx, "Pq", "input");

        // The local (todo) should still be an unbound formal param (todo)
        assert_eq!(
            ctx.resolve_sym("todo"),
            Some(Symbol::unbound_formal_param(
                "todo",
                Some(&comp_definition_scope_id)
            ))
        );
    }
}

#[test]
pub fn test_context_scope_component_nesting1() {
    let mut ctx = Context::default();
    let mut output = TestOutput2::default();

    // Lm
    {
        ctx.push_child_scope();
        ctx.append_path_str("Lm");

        // Our element path should be (Lm)
        let expr = ctx.join_path_as_expr(Some("."));
        assert_eq!(
            expr,
            ExprValue::Apply(
                ExprApplyOp::JoinString(Some(".".to_owned())),
                Some(vec![Box::new(ExprValue::LiteralString("Lm".to_owned()))])
            )
        );
    }

    // Lm
    // Invoke: CompNo(todo = store.getState().todo)
    {
        let todo_value = ExprValue::SymbolReference(Symbol::reducer_key("todo"));
        let props: PropValueVec = vec![("todo".into(), Some(&todo_value))];
        output.push_component_instance_invocation_scope(&mut ctx, "Component1", props.iter());

        // Our element path should still be the same (Lm)
        let expr = ctx.join_path_as_expr(Some("."));
        assert_eq!(
            expr,
            ExprValue::Apply(
                ExprApplyOp::JoinString(Some(".".to_owned())),
                Some(vec![Box::new(ExprValue::LiteralString("Lm".to_owned()))])
            )
        );
    }

    // Lm.Comp1
    // Component contents will be output
    {
        output.push_component_instance_scope(&mut ctx, "Comp1", "Component1");

        // The joined path (dynamic) should be a string join operation
        let expr = ctx.join_path_as_expr(Some("."));
        assert_eq!(
            expr,
            ExprValue::Apply(
                ExprApplyOp::JoinString(Some(".".to_owned())),
                Some(vec![
                    Box::new(ExprValue::LiteralString("Lm".to_owned())),
                    Box::new(ExprValue::LiteralString("Comp1".to_owned())),
                ])
            )
        );

        // The local (todo) should resolve to a reducer key reference (todo)
        assert_eq!(
            ctx.resolve_sym("todo"),
            Some(Symbol::invocation_prop(
                "todo",
                Some(&ExprValue::SymbolReference(Symbol::reducer_key("todo")))
            ))
        );
    }

    // Lm.Comp1.Pq
    // Element within component definition
    // Element parameter definition scope
    {
        let props: PropKeyRefVec = vec![("value".into(), "todo".into())];
        output.push_element_parameter_definition_scope(&mut ctx, "Pq", "input", props.iter());
    }

    // The joined path (dynamic) should be a string join operation
    let expr = ctx.join_path_as_expr(Some("."));
    assert_eq!(
        expr,
        ExprValue::Apply(
            ExprApplyOp::JoinString(Some(".".to_owned())),
            Some(vec![
                Box::new(ExprValue::LiteralString("Lm".to_owned())),
                Box::new(ExprValue::LiteralString("Comp1".to_owned())),
                Box::new(ExprValue::LiteralString("Pq".to_owned()))
            ])
        )
    );
}

#[test]
fn context_pop_removes_local_visibility() {
    let mut ctx = Context::default();
    ctx.push_child_scope();
    ctx.add_sym("x", Symbol::reducer_key("x"));
    assert_eq!(ctx.resolve_sym("x"), Some(Symbol::reducer_key("x")));
    let tables = ctx.table_count();
    ctx.pop_scope();
    assert_eq!(ctx.resolve_sym("x"), None);
    assert_eq!(ctx.depth(), 1);
    // the table of the popped scope stays registered
    assert_eq!(ctx.table_count(), tables);
}

#[test]
fn context_child_binding_shadows_and_pop_unshadows() {
    let mut ctx = Context::default();
    ctx.add_sym("x", Symbol::reducer_key("outer"));
    ctx.push_child_scope();
    assert_eq!(ctx.resolve_sym("x"), Some(Symbol::reducer_key("outer")));
    ctx.add_sym("x", Symbol::reducer_key("inner"));
    assert_eq!(ctx.resolve_sym("x"), Some(Symbol::reducer_key("inner")));
    ctx.pop_scope();
    assert_eq!(ctx.resolve_sym("x"), Some(Symbol::reducer_key("outer")));
}

#[test]
fn context_multi_alias_binding_resolves_to_equal_symbols() {
    let mut ctx = Context::default();
    ctx.push_child_scope();
    let sym = Symbol::binding(&BindingType::ActionStateBinding);
    ctx.add_sym("todos", sym.clone());
    ctx.add_sym("state", sym.clone());
    ctx.add_sym("value", sym.clone());
    let a = ctx.resolve_sym("todos");
    let b = ctx.resolve_sym("state");
    let c = ctx.resolve_sym("value");
    assert_eq!(a, Some(sym));
    assert_eq!(a, b);
    assert_eq!(b, c);
}

#[test]
fn context_resolution_follows_table_parents_not_the_stack() {
    // the table of the pushed scope hangs under a table that is not on the stack
    let mut detached = Symbols::with_map_id("detached", None);
    detached.add_sym("far", Symbol::reducer_key("far"));
    let hung = Symbols::with_map_id("hung", Some("detached"));
    let mut ctx = Context::default();
    ctx.add_sym("near", Symbol::reducer_key("near"));
    ctx.add_symbol_map(detached);
    ctx.add_symbol_map(hung);
    ctx.push_scope(Scope::with_map_id("hung"));
    assert_eq!(ctx.resolve_sym("far"), Some(Symbol::reducer_key("far")));
    assert_eq!(ctx.resolve_sym("near"), None);
    ctx.pop_scope();
    assert_eq!(ctx.resolve_sym("near"), Some(Symbol::reducer_key("near")));
    assert_eq!(ctx.resolve_sym("far"), None);
}

#[test]
fn context_resolution_ends_on_a_cycle_of_parents() {
    let a = Symbols::with_map_id("a", Some("b"));
    let mut b = Symbols::with_map_id("b", Some("a"));
    b.add_sym("in_b", Symbol::reducer_key("in_b"));
    let mut ctx = Context::new(Scope::with_map_id("a"), a);
    ctx.add_symbol_map(b);
    assert_eq!(ctx.resolve_sym("in_b"), Some(Symbol::reducer_key("in_b")));
    assert_eq!(ctx.resolve_sym("nowhere"), None);
}

#[test]
fn context_push_scope_replaces_an_active_scope_of_the_same_identity() {
    let mut ctx = Context::default();
    let base_id = ctx.scope().id().to_owned();
    ctx.push_child_scope();
    ctx.append_path_str("child");
    // pushing the base scope again moves it to the top
    let mut again = Scope::with_map_id(&base_id);
    again.append_path_str("base");
    ctx.push_scope(again);
    assert_eq!(ctx.depth(), 2);
    assert_eq!(ctx.scope().id(), base_id);
    assert_eq!(
        ctx.join_path_as_expr(Some("/")),
        ExprValue::Apply(
            ExprApplyOp::JoinString(Some("/".into())),
            Some(vec![
                Box::new(ExprValue::LiteralString("child".into())),
                Box::new(ExprValue::LiteralString("base".into()))
            ])
        )
    );
    ctx.pop_scope();
    ctx.pop_scope();
    assert_eq!(ctx.depth(), 0);
    assert!(ctx.scope_ref().is_none());
    assert_eq!(ctx.resolve_sym("x"), None);
    // without an active scope an append changes nothing
    ctx.append_path_str("lost");
    assert_eq!(
        ctx.join_path_as_expr(None),
        ExprValue::Apply(ExprApplyOp::JoinString(None), None)
    );
}

#[test]
fn context_join_skips_scopes_without_segments_and_keeps_dynamic_ones() {
    let mut ctx = Context::default();
    ctx.push_child_scope();
    ctx.append_path_str("a");
    ctx.push_child_scope();
    ctx.push_child_scope();
    let dynamic = ExprValue::SymbolReference(Symbol::loop_var("i"));
    ctx.append_path_expr(&dynamic);
    assert_eq!(
        ctx.join_path_as_expr_with(Some("."), "end"),
        ExprValue::Apply(
            ExprApplyOp::JoinString(Some(".".into())),
            Some(vec![
                Box::new(ExprValue::LiteralString("a".into())),
                Box::new(dynamic.clone()),
                Box::new(ExprValue::LiteralString("end".into()))
            ])
        )
    );
    assert_eq!(ctx.join_path(Some(".")), "a.undefined");
    assert_eq!(ctx.join_path_with(Some("."), "k"), "a.undefined.k");
    ctx.pop_scope();
    assert_eq!(ctx.join_path(None), "a");
    assert_eq!(ctx.join_path_with(None, "k"), "a.k");
    ctx.pop_scope();
    ctx.pop_scope();
    assert_eq!(ctx.join_path(Some(".")), "");
    assert_eq!(ctx.join_path_with(Some("."), "k"), "k");
}

#[test]
fn context_action_path_is_upper_case() {
    let mut ctx = Context::default();
    ctx.push_child_scope();
    ctx.append_action_path_str("todos");
    ctx.push_child_scope();
    ctx.append_action_path_str("add");
    ctx.append_action_path_expr(&ExprValue::LiteralNumber(2));
    assert_eq!(
        ctx.join_action_path_as_expr(Some(".")),
        ExprValue::Apply(
            ExprApplyOp::JoinString(Some(".".into())),
            Some(vec![
                Box::new(ExprValue::LiteralString("TODOS".into())),
                Box::new(ExprValue::LiteralString("ADD".into())),
                Box::new(ExprValue::LiteralNumber(2))
            ])
        )
    );
    assert_eq!(ctx.join_action_path(Some(".")), "TODOS.ADD.2");
    assert_eq!(ctx.join_action_path_with(Some("."), "done"), "TODOS.ADD.2.done");
    // the element-key path is untouched
    assert_eq!(ctx.join_path(Some(".")), "");
}

#[test]
fn context_create_child_scope_registers_without_pushing() {
    let mut ctx = Context::default();
    ctx.add_sym("x", Symbol::reducer_key("x"));
    let base_id = ctx.scope().id().to_owned();
    let child = ctx.create_child_scope();
    assert_eq!(ctx.depth(), 1);
    assert_eq!(ctx.table_count(), 2);
    assert_eq!(ctx.scope().id(), base_id);
    assert_ne!(child.id(), base_id);
    let table = ctx.symbol_map(child.id()).map(|t| t.parent_map_id().map(|s| s.to_owned()));
    assert_eq!(table, Some(Some(base_id)));
    ctx.push_scope(child);
    assert_eq!(ctx.resolve_sym("x"), Some(Symbol::reducer_key("x")));
}

#[test]
fn context_unbound_formal_param_names_the_current_scope() {
    let mut ctx = Context::default();
    ctx.push_child_scope();
    let id = ctx.scope().id().to_owned();
    assert_eq!(
        ctx.unbound_formal_param("p"),
        Symbol::unbound_formal_param("p", Some(&id))
    );
    assert_eq!(ctx.scopes_in_order().len(), 2);
}

#[test]
fn context_fresh_identities_are_told_from_used_ones() {
    let mut ctx = Context::new(
        Scope::with_map_id("root"),
        Symbols::with_map_id("root", Some("ghost")),
    );
    assert!(!ctx.is_fresh("root"));
    // named as a parent, though never registered
    assert!(!ctx.is_fresh("ghost"));
    assert!(ctx.is_fresh("other"));
    ctx.push_scope(Scope::with_map_id("other"));
    assert!(!ctx.is_fresh("other"));
    let key = ctx.fresh_key();
    assert!(ctx.is_fresh(&key));
    ctx.push_child_scope();
    let child = ctx.scope().id().to_owned();
    assert!(!ctx.is_fresh(&child));
    assert_ne!(child, "root");
    assert_ne!(child, "other");
}
