use isymtope::ast::{ExprApplyOp, ExprOp, ExprValue};
use isymtope::scope::Scope;
use isymtope::symbol_paths::SymbolPathScope;

#[test]
pub fn test_symbol_path_empty() {
    let symbol_path_scope = SymbolPathScope::default();
    let expr = symbol_path_scope.join_as_expr(None);
    assert_eq!(expr, Some(ExprValue::Apply(ExprApplyOp::JoinString(None), None)))
}

#[test]
pub fn test_symbol_path_expr1() {
    let mut symbol_path_scope = SymbolPathScope::default();
    let expr1 = ExprValue::Expr(
        ExprOp::Add,
        Box::new(ExprValue::LiteralNumber(1)),
        Box::new(ExprValue::LiteralNumber(2)),
    );
    let expr2 = ExprValue::LiteralString("test".to_owned());

    symbol_path_scope.append_expr(&expr1);
    symbol_path_scope.append_expr(&expr2);

    let expr = symbol_path_scope.join_as_expr(None);
    assert_eq!(
        expr,
        Some(ExprValue::Apply(
            ExprApplyOp::JoinString(None),
            Some(vec![
                Box::new(ExprValue::Expr(
                    ExprOp::Add,
                    Box::new(ExprValue::LiteralNumber(1)),
                    Box::new(ExprValue::LiteralNumber(2))
                )),
                Box::new(ExprValue::LiteralString("test".to_owned()))
            ])
        ))
    );
}

#[test]
pub fn test_symbol_path_mixed1() {
    let mut symbol_path_scope = SymbolPathScope::default();
    let expr1 = ExprValue::Expr(
        ExprOp::Add,
        Box::new(ExprValue::LiteralNumber(1)),
        Box::new(ExprValue::LiteralNumber(2)),
    );

    symbol_path_scope.append_expr(&expr1);
    symbol_path_scope.append_str("test");

    let expr = symbol_path_scope.join_as_expr(None);
    assert_eq!(
        expr,
        Some(ExprValue::Apply(
            ExprApplyOp::JoinString(None),
            Some(vec![
                Box::new(ExprValue::Expr(
                    ExprOp::Add,
                    Box::new(ExprValue::LiteralNumber(1)),
                    Box::new(ExprValue::LiteralNumber(2))
                )),
                Box::new(ExprValue::LiteralString("test".to_owned()))
            ])
        ))
    );
}

#[test]
fn symbol_path_action_join_upper_cases_fixed_segments_only() {
    let mut path = SymbolPathScope::default();
    path.append_str("todos");
    path.append_expr(&ExprValue::LiteralString("kept".into()));
    assert_eq!(
        path.join_as_action_expr(Some(".")),
        ExprValue::Apply(
            ExprApplyOp::JoinString(Some(".".into())),
            Some(vec![
                Box::new(ExprValue::LiteralString("TODOS".into())),
                Box::new(ExprValue::LiteralString("kept".into()))
            ])
        )
    );
    assert_eq!(
        path.join_as_expr(Some(".")),
        Some(ExprValue::Apply(
            ExprApplyOp::JoinString(Some(".".into())),
            Some(vec![
                Box::new(ExprValue::LiteralString("todos".into())),
                Box::new(ExprValue::LiteralString("kept".into()))
            ])
        ))
    );
}

#[test]
fn scope_joins_its_own_segments() {
    let mut scope = Scope::with_map_id("m1");
    assert_eq!(scope.id(), "m1");
    assert_eq!(scope.map_id(), "m1");
    assert_eq!(
        scope.join_path_as_expr(Some(".")),
        ExprValue::Apply(ExprApplyOp::JoinString(Some(".".into())), None)
    );
    scope.append_path_str("Ab");
    scope.append_action_path_str("add");
    assert_eq!(
        scope.join_path_as_expr_with(Some("."), "Cd"),
        ExprValue::Apply(
            ExprApplyOp::JoinString(Some(".".into())),
            Some(vec![
                Box::new(ExprValue::LiteralString("Ab".into())),
                Box::new(ExprValue::LiteralString("Cd".into()))
            ])
        )
    );
    assert_eq!(
        scope.join_action_path_as_expr(None),
        ExprValue::Apply(
            ExprApplyOp::JoinString(None),
            Some(vec![Box::new(ExprValue::LiteralString("ADD".into()))])
        )
    );
    let child = Scope::new_from_parent("m2", &scope);
    assert_eq!(
        child.join_path_as_expr(None),
        ExprValue::Apply(ExprApplyOp::JoinString(None), None)
    );
    assert_eq!(scope.clone(), scope);
}
