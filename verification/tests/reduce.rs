use isymtope::ast::{
    same_expr, same_symbol, ActionOpNode, BindingType, EventHandler, ExprApplyOp, ExprOp,
    ExprValue, Symbol,
};
use isymtope::context::Context;
use isymtope::document::{Document, ReducerActionData, ReducerKeyData};
use isymtope::props::SymbolResolver;
use isymtope::reduce::{is_changed, reduce_binary_expr, reduce_operands, REDUCTION_DEPTH_LIMIT};
use isymtope::text::number_text;
use isymtope::scope::Scope;
use isymtope::symbols::Symbols;

fn num(n: i32) -> ExprValue {
    ExprValue::LiteralNumber(n)
}

fn text(s: &str) -> ExprValue {
    ExprValue::LiteralString(s.to_owned())
}

fn bin(op: ExprOp, l: ExprValue, r: ExprValue) -> ExprValue {
    ExprValue::Expr(op, Box::new(l), Box::new(r))
}

fn join2(l: ExprValue, r: ExprValue) -> ExprValue {
    ExprValue::Apply(ExprApplyOp::JoinString(None), Some(vec![Box::new(l), Box::new(r)]))
}

#[test]
pub fn test_expr_two_numbers() {
    let expr1 = ExprValue::LiteralNumber(1);
    let expr2 = ExprValue::LiteralNumber(2);
    let expr = ExprValue::Expr(ExprOp::Add, Box::new(expr1), Box::new(expr2));

    let ctx = Context::default();

    assert_eq!(ctx.reduce_expr(&expr), Some(ExprValue::LiteralNumber(3)));
}

#[test]
fn reduce_defers_the_join_of_two_texts() {
    let ctx = Context::default();
    let r = ctx.reduce_expr(&bin(ExprOp::Add, text("a"), text("b")));
    assert_eq!(r, Some(join2(text("a"), text("b"))));
    assert_ne!(r, Some(text("ab")));
}

#[test]
fn reduce_defers_the_join_of_a_number_and_a_text() {
    let ctx = Context::default();
    assert_eq!(
        ctx.reduce_expr(&bin(ExprOp::Add, num(1), text("x"))),
        Some(join2(num(1), text("x")))
    );
    assert_eq!(
        ctx.reduce_expr(&bin(ExprOp::Add, text("x"), num(1))),
        Some(join2(text("x"), num(1)))
    );
}

#[test]
fn reduce_literals_reduce_to_themselves() {
    let ctx = Context::default();
    for e in [
        num(5),
        text("t"),
        ExprValue::LiteralBool(false),
        ExprValue::LiteralNull,
        ExprValue::LiteralArray(None),
        ExprValue::LiteralArray(Some(vec![num(1)])),
    ] {
        assert_eq!(ctx.reduce_expr(&e), Some(e.clone()));
    }
}

#[test]
fn reduce_folds_nested_sums_and_keeps_other_operators() {
    let ctx = Context::default();
    let nested = bin(ExprOp::Add, bin(ExprOp::Add, num(1), num(2)), num(4));
    assert_eq!(ctx.reduce_expr(&nested), Some(num(7)));
    // an operand of another operator is folded, the operator stays
    let partial = bin(ExprOp::Mul, bin(ExprOp::Add, num(1), num(2)), ExprValue::VariableReference("v".into()));
    assert_eq!(
        ctx.reduce_expr(&partial),
        Some(bin(ExprOp::Mul, num(3), ExprValue::VariableReference("v".into())))
    );
    // a sum whose text part shows up after reduction is joined
    let late = bin(ExprOp::Add, bin(ExprOp::Add, num(1), num(2)), text("x"));
    assert_eq!(ctx.reduce_expr(&late), Some(join2(num(3), text("x"))));
    // literal operands reduce to themselves: no operand changed, so no progress
    let sub = bin(ExprOp::Sub, num(3), num(1));
    assert_eq!(ctx.reduce_expr(&sub), None);
    let mixed = bin(ExprOp::Mul, num(3), ExprValue::VariableReference("v".into()));
    assert_eq!(ctx.reduce_expr(&mixed), None);
    assert_eq!(
        ctx.reduce_expr(&bin(ExprOp::Sub, num(1), num(2))),
        None
    );
}

#[test]
fn reduce_sum_out_of_range_is_not_folded() {
    let ctx = Context::default();
    let over = bin(ExprOp::Add, num(i32::MAX), num(1));
    assert_eq!(ctx.reduce_expr(&over), None);
    let under = bin(ExprOp::Add, num(i32::MIN), num(-1));
    assert_eq!(ctx.reduce_expr(&under), None);
    // an operand that did change is kept in the sum that cannot be folded
    let nested = bin(ExprOp::Add, bin(ExprOp::Add, num(i32::MAX), num(0)), num(1));
    assert_eq!(ctx.reduce_expr(&nested), Some(over.clone()));
    assert_eq!(
        ctx.reduce_expr(&bin(ExprOp::Add, num(i32::MAX), num(0))),
        Some(num(i32::MAX))
    );
    assert_eq!(
        ctx.reduce_expr(&bin(ExprOp::Add, num(i32::MIN), num(i32::MAX))),
        Some(num(-1))
    );
}

#[test]
fn reduce_without_progress_is_none_and_stays_none() {
    let ctx = Context::default();
    let stuck = bin(
        ExprOp::Add,
        ExprValue::VariableReference("a".into()),
        ExprValue::VariableReference("b".into()),
    );
    assert_eq!(ctx.reduce_expr(&stuck), None);
    assert_eq!(ctx.reduce_expr(&stuck), None);
    assert_eq!(ctx.reduce_expr_or_return_same(&stuck), stuck);
    assert_eq!(ctx.reduce_expr(&ctx.reduce_expr_or_return_same(&stuck)), None);
    let apply = join2(text("a"), text("b"));
    assert_eq!(ctx.reduce_expr(&apply), None);
    assert_eq!(ctx.reduce_expr(&ExprValue::Binding(BindingType::ComponentKeyBinding)), None);
    assert_eq!(ctx.reduce_expr(&ExprValue::DefaultVariableReference), None);
    assert_eq!(
        ctx.reduce_expr(&ExprValue::SymbolReference(Symbol::unresolved("nope"))),
        None
    );
    assert_eq!(
        ctx.reduce_expr(&ExprValue::SymbolReference(Symbol::reducer_key("k"))),
        None
    );
}

#[test]
fn reduce_resolves_names_and_the_default_variable() {
    let mut ctx = Context::default();
    ctx.push_child_scope();
    ctx.add_unbound_formal_param("todo");
    let id = ctx.scope().id().to_owned();
    ctx.add_sym("value", Symbol::binding(&BindingType::ActionStateBinding));
    ctx.push_child_scope();
    assert_eq!(
        ctx.reduce_expr(&ExprValue::SymbolReference(Symbol::unresolved("todo"))),
        Some(ExprValue::SymbolReference(Symbol::unbound_formal_param("todo", Some(&id))))
    );
    assert_eq!(
        ctx.reduce_expr(&ExprValue::DefaultVariableReference),
        Some(ExprValue::SymbolReference(Symbol::binding(&BindingType::ActionStateBinding)))
    );
    assert_eq!(
        ctx.resolve_symbol_to_symbol(&Symbol::unresolved("todo")),
        Symbol::unbound_formal_param("todo", Some(&id))
    );
    assert_eq!(
        ctx.resolve_symbol_to_symbol(&Symbol::unresolved("missing")),
        Symbol::unresolved("missing")
    );
    assert_eq!(
        ctx.resolve_symbol_to_symbol(&Symbol::loop_var("i")),
        Symbol::loop_var("i")
    );
}

#[test]
fn reduce_binary_takes_reduced_operands() {
    assert_eq!(reduce_binary_expr(ExprOp::Add, num(2), num(40), true), Some(num(42)));
    assert_eq!(reduce_binary_expr(ExprOp::Add, num(2), num(40), false), Some(num(42)));
    assert_eq!(
        reduce_binary_expr(ExprOp::Div, num(2), num(40), true),
        Some(bin(ExprOp::Div, num(2), num(40)))
    );
    assert_eq!(reduce_binary_expr(ExprOp::Div, num(2), num(40), false), None);
    assert_eq!(
        reduce_binary_expr(ExprOp::EqualTo, text("a"), text("b"), true),
        Some(bin(ExprOp::EqualTo, text("a"), text("b")))
    );
    assert!(is_changed(&Some(num(3)), &bin(ExprOp::Add, num(1), num(2))));
    assert!(!is_changed(&Some(num(3)), &num(3)));
    assert!(!is_changed(&None, &num(3)));
    assert_eq!(
        reduce_operands(ExprOp::Sub, &num(3), &text("t"), Some(num(3)), Some(text("t"))),
        None
    );
    assert_eq!(
        reduce_operands(ExprOp::Sub, &bin(ExprOp::Add, num(1), num(2)), &num(1), Some(num(3)), None),
        Some(bin(ExprOp::Sub, num(3), num(1)))
    );
}

#[test]
fn same_expr_compares_whole_trees() {
    let a = bin(
        ExprOp::Add,
        ExprValue::LiteralArray(Some(vec![num(1), text("x")])),
        join2(ExprValue::SymbolReference(Symbol::prop("k", "s")), ExprValue::LiteralNull),
    );
    assert!(same_expr(&a, &a.clone()));
    let b = bin(
        ExprOp::Add,
        ExprValue::LiteralArray(Some(vec![num(1), text("y")])),
        join2(ExprValue::SymbolReference(Symbol::prop("k", "s")), ExprValue::LiteralNull),
    );
    assert!(!same_expr(&a, &b));
    assert!(!same_expr(&ExprValue::LiteralArray(None), &ExprValue::LiteralArray(Some(vec![]))));
    assert!(!same_expr(&num(1), &text("1")));
    assert!(same_symbol(
        &Symbol::initial_value(&Symbol::loop_var("i"), &Symbol::reducer_key("r")),
        &Symbol::initial_value(&Symbol::loop_var("i"), &Symbol::reducer_key("r"))
    ));
    assert!(!same_symbol(
        &Symbol::invocation_prop("p", Some(&num(1))),
        &Symbol::invocation_prop("p", None)
    ));
    assert_eq!(number_text(-7), "-7");
    assert_eq!(number_text(i32::MIN), "-2147483648");
    assert_eq!(number_text(120), "120");
}

#[test]
fn reducer_default_is_substituted_only_with_a_document() {
    let mut doc = Document::new();
    let mut todos = ReducerKeyData::from_name("todos");
    todos.default_expr = Some(ExprValue::LiteralArray(Some(vec![])));
    doc.add_reducer_key(todos);
    doc.add_reducer_key(ReducerKeyData::from_name("plain"));

    let ctx = Context::default();
    let by_binding = ExprValue::SymbolReference(Symbol::binding(&BindingType::ReducerPathBinding(
        "todos".into(),
    )));
    assert_eq!(
        ctx.reduce_expr_and_resolve(&doc, &by_binding),
        Some(ExprValue::LiteralArray(Some(vec![])))
    );
    assert_eq!(ctx.reduce_expr(&by_binding), None);

    let by_key = ExprValue::SymbolReference(Symbol::reducer_key("todos"));
    assert_eq!(
        ctx.reduce_expr_and_resolve(&doc, &by_key),
        Some(ExprValue::LiteralArray(Some(vec![])))
    );
    let bare = ExprValue::Binding(BindingType::ReducerPathBinding("todos".into()));
    assert_eq!(
        ctx.reduce_expr_and_resolve(&doc, &bare),
        Some(ExprValue::LiteralArray(Some(vec![])))
    );
    // no default registered: as without a document
    let plain = ExprValue::SymbolReference(Symbol::reducer_key("plain"));
    assert_eq!(ctx.reduce_expr_and_resolve(&doc, &plain), None);
    let unknown = ExprValue::SymbolReference(Symbol::reducer_key("unknown"));
    assert_eq!(ctx.reduce_expr_and_resolve(&doc, &unknown), None);
    assert_eq!(
        ctx.reduce_expr_and_resolve_to_string(&doc, &by_binding),
        Some("[array]".to_owned())
    );
    assert_eq!(ctx.reduce_expr_and_resolve_to_string(&doc, &plain), None);
}

#[test]
fn reduce_and_resolve_chases_initial_values_and_defers_joins() {
    let mut doc = Document::new();
    let mut count = ReducerKeyData::from_name("count");
    count.default_expr = Some(bin(ExprOp::Add, num(1), num(2)));
    doc.add_reducer_key(count);
    let ctx = Context::default();
    let chained = Symbol::initial_value(
        &Symbol::loop_var("ignored"),
        &Symbol::initial_value(&Symbol::loop_var("ignored"), &Symbol::reducer_key("count")),
    );
    assert_eq!(
        ctx.reduce_expr_and_resolve(&doc, &ExprValue::SymbolReference(chained)),
        Some(num(3))
    );
    assert_eq!(
        ctx.reduce_expr_and_resolve(&doc, &bin(ExprOp::Add, text("a"), text("b"))),
        Some(join2(text("a"), text("b")))
    );
    assert_eq!(ctx.reduce_expr_and_resolve(&doc, &num(9)), Some(num(9)));
}

#[test]
fn document_holds_one_reducer_key_under_each_name() {
    let mut doc = Document::new();
    assert!(doc.reducer_key("a").is_none());
    assert_eq!(doc.len(), 0);
    let mut first = ReducerKeyData::from_name("a");
    first.default_expr = Some(num(1));
    let mut second = ReducerKeyData::from_name("a");
    second.default_expr = Some(num(2));
    doc.add_reducer_key(first);
    doc.add_reducer_key(ReducerKeyData::from_name("b"));
    assert_eq!(doc.default_expr("a"), Some(&num(1)));
    // registering the name again replaces the entry and moves it last
    doc.add_reducer_key(second);
    assert_eq!(doc.len(), 2);
    assert_eq!(doc.default_expr("a"), Some(&num(2)));
    assert_eq!(doc.default_expr("b"), None);
    assert_eq!(doc.default_expr("c"), None);
    let names: Vec<String> = doc.reducer_keys().iter().map(|d| d.reducer_key.clone()).collect();
    assert_eq!(names, vec!["b".to_owned(), "a".to_owned()]);
    let data = ReducerKeyData::from_name("todos");
    assert_eq!(data.reducer_key, "todos");
    assert!(data.default_expr.is_none());
    assert_eq!(data.actions.map(|a| a.len()), Some(0));
    assert!(data.ty.is_none());
    let action = ReducerActionData::from_name("add");
    assert_eq!(action.action_type, "ADD");
    assert!(action.state_expr.is_none());
}

#[test]
fn reduce_and_resolve_substitutes_defaults_in_operands() {
    let mut doc = Document::new();
    let mut title = ReducerKeyData::from_name("title");
    title.default_expr = Some(text("hello"));
    doc.add_reducer_key(title);
    let mut count = ReducerKeyData::from_name("count");
    count.default_expr = Some(num(40));
    doc.add_reducer_key(count);
    let ctx = Context::default();
    let title_ref = ExprValue::SymbolReference(Symbol::reducer_key("title"));
    let count_ref = ExprValue::SymbolReference(Symbol::reducer_key("count"));
    // a join over the default and the literal, not over the bare reference
    assert_eq!(
        ctx.reduce_expr_and_resolve(&doc, &bin(ExprOp::Add, title_ref.clone(), text("!"))),
        Some(join2(text("hello"), text("!")))
    );
    assert_eq!(
        ctx.reduce_expr_and_resolve(&doc, &bin(ExprOp::Add, count_ref.clone(), num(2))),
        Some(num(42))
    );
    assert_eq!(
        ctx.reduce_expr_and_resolve(&doc, &bin(ExprOp::Sub, count_ref.clone(), num(2))),
        Some(bin(ExprOp::Sub, num(40), num(2)))
    );
    // without the document the reference stays, and nothing changed
    assert_eq!(ctx.reduce_expr(&bin(ExprOp::Sub, count_ref.clone(), num(2))), None);
    assert_eq!(
        ctx.reduce_expr(&bin(ExprOp::Add, title_ref, text("!"))),
        Some(join2(ExprValue::SymbolReference(Symbol::reducer_key("title")), text("!")))
    );
    assert_eq!(
        ctx.reduce_expr_and_resolve(&doc, &bin(ExprOp::Sub, num(2), num(1))),
        None
    );
}

#[test]
fn reduce_to_string_prints_scalars_and_undefined() {
    let mut ctx = Context::default();
    assert_eq!(ctx.reduce_expr_to_string(&text("plain")), "plain");
    assert_eq!(ctx.reduce_expr_to_string(&num(-40)), "-40");
    assert_eq!(ctx.reduce_expr_to_string(&num(0)), "0");
    assert_eq!(ctx.reduce_expr_to_string(&num(i32::MAX)), "2147483647");
    assert_eq!(ctx.reduce_expr_to_string(&ExprValue::LiteralArray(None)), "[array]");
    assert_eq!(ctx.reduce_expr_to_string(&bin(ExprOp::Add, num(20), num(22))), "42");
    assert_eq!(
        ctx.reduce_expr_to_string(&bin(ExprOp::Add, text("a"), text("b"))),
        "undefined"
    );
    assert_eq!(
        ctx.reduce_expr_to_string(&ExprValue::VariableReference("v".into())),
        "undefined"
    );
    assert_eq!(ctx.reduce_expr_to_string(&bin(ExprOp::Sub, num(2), num(1))), "undefined");
    // a reduction that never ends in a scalar gives up
    assert_eq!(ctx.reduce_expr_to_string(&ExprValue::LiteralBool(true)), "undefined");
    ctx.add_sym("again", Symbol::unresolved("again"));
    assert_eq!(
        ctx.reduce_expr_to_string(&ExprValue::SymbolReference(Symbol::unresolved("again"))),
        "undefined"
    );
    assert_eq!(REDUCTION_DEPTH_LIMIT, 64);
}

#[test]
fn eval_sym_gives_no_expression() {
    let mut def = Symbols::with_map_id("def", None);
    def.add_sym("p", Symbol::unbound_formal_param("p", Some("call")));
    let mut call = Symbols::with_map_id("call", None);
    let supplied = num(11);
    call.add_sym("p", Symbol::invocation_prop("p", Some(&supplied)));
    let mut ctx = Context::new(Scope::with_map_id("def"), def);
    ctx.add_symbol_map(call);
    assert_eq!(ctx.eval_sym(&Symbol::unbound_formal_param("p", Some("def"))), None);
    assert_eq!(ctx.eval_sym(&Symbol::unbound_formal_param("p", Some("gone"))), None);
    assert_eq!(ctx.eval_sym(&Symbol::unbound_action_param("p", Some("def"))), None);
    assert_eq!(ctx.eval_sym(&Symbol::reducer_key("k")), None);
    assert_eq!(ctx.eval_sym(&Symbol::invocation_prop("p", Some(&supplied))), None);
}

#[test]
fn map_props_reduces_values_and_keeps_the_rest() {
    let mut ctx = Context::default();
    ctx.add_sym("known", Symbol::reducer_key("known"));
    let props = vec![
        ("sum".to_owned(), Some(bin(ExprOp::Add, num(1), num(2)))),
        ("stuck".to_owned(), Some(ExprValue::VariableReference("v".into()))),
        ("none".to_owned(), None),
    ];
    let mapped = ctx.map_props(&props);
    assert_eq!(
        mapped,
        vec![
            ("sum".to_owned(), Some(num(3))),
            ("stuck".to_owned(), Some(ExprValue::VariableReference("v".into()))),
            ("none".to_owned(), None),
        ]
    );
    let ops = vec![
        ActionOpNode::DispatchAction("add".into(), Some(props)),
        ActionOpNode::DispatchAction("clear".into(), None),
    ];
    let mapped_ops = ctx.map_action_ops(&ops);
    assert_eq!(
        mapped_ops,
        vec![
            ActionOpNode::DispatchAction("add".into(), Some(mapped)),
            ActionOpNode::DispatchAction("clear".into(), None),
        ]
    );
    let handler = EventHandler::Event("click".into(), Some(vec!["e".into()]), Some(ops));
    assert_eq!(
        ctx.map_event_handler_symbols(&handler),
        EventHandler::Event("click".into(), Some(vec!["e".to_owned()]), Some(mapped_ops))
    );
    let default_handler = EventHandler::DefaultEvent(None, None);
    assert_eq!(
        ctx.map_event_handler_symbols(&default_handler),
        EventHandler::DefaultEvent(None, None)
    );
}

#[test]
fn symbol_resolver_hands_out_each_property_resolved() {
    let mut ctx = Context::default();
    ctx.add_sym("known", Symbol::reducer_key("known"));
    let props = vec![
        ("known".to_owned(), Some(num(1))),
        ("unknown".to_owned(), Some(num(2))),
        ("bare".to_owned(), None),
    ];
    let mut resolver = SymbolResolver::new(&ctx, props);
    assert_eq!(
        resolver.next(),
        Some((
            "known".to_owned(),
            Some(ExprValue::SymbolReference(Symbol::reducer_key("known")))
        ))
    );
    assert_eq!(resolver.next(), Some(("unknown".to_owned(), Some(num(2)))));
    assert_eq!(resolver.next(), Some(("bare".to_owned(), None)));
    assert_eq!(resolver.next(), None);
    assert_eq!(resolver.next(), None);
}
