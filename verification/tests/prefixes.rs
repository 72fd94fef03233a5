use isymtope::ast::{ExprOp, ExprValue, Symbol};
use isymtope::prefixes::ScopePrefixes;

#[test]
pub fn test_scope_prefixes() {
    let mut prefixes = ScopePrefixes::default();
    prefixes.append_key(&"abc").append_key(&"xyz");
    assert_eq!("abc.xyz", prefixes.complete_element_key());

    prefixes.set_index(3);
    assert_eq!("abc.xyz.3", prefixes.complete_element_key());

    prefixes.append_key(&"def");
    assert_eq!("abc.xyz.3.def", prefixes.complete_element_key());
}

#[test]
fn prefixes_index_is_decimal_and_cleared_by_a_key() {
    let mut p = ScopePrefixes::default();
    assert_eq!(p.as_element_key(), "");
    p.set_index(-12);
    assert_eq!(p.as_element_key(), ".-12");
    p.set_index(0);
    assert_eq!(p.complete_element_key(), ".0");
    p.set_index(i32::MIN);
    assert_eq!(p.complete_element_key(), ".-2147483648");
    p.set_index(1050);
    p.append_key("k");
    assert_eq!(p.as_element_key(), ".1050.k");
    p.set_index(7).clear_index();
    assert_eq!(p.as_element_key(), ".1050.k");
    p.set_index(7).clear_key();
    assert_eq!(p.as_element_key(), ".1050.k");
}

#[test]
fn prefixes_action_types_are_upper_case() {
    let mut p = ScopePrefixes::default();
    assert_eq!(p.make_action_type("add"), "ADD");
    assert_eq!(p.default_action_scope(), None);
    p.append_action_scope("todos");
    assert_eq!(p.default_action_scope(), Some("TODOS".to_owned()));
    assert_eq!(p.make_action_type("add"), "TODOS.ADD");
    p.append_action_scope("straße");
    assert_eq!(p.default_action_scope(), Some("TODOS.STRASSE".to_owned()));
}

#[test]
fn prefixes_variables_and_prefix_expression() {
    let mut p = ScopePrefixes::default();
    assert_eq!(p.make_var_name("x"), "x");
    assert_eq!(p.default_var(), None);
    p.set_default_var("state");
    assert_eq!(p.default_var(), Some("state".to_owned()));
    let value = ExprValue::LiteralString("v".into());
    assert_eq!(p.make_prefix_expr(&value, None), None);
    assert_eq!(p.prefix_expr(), None);
    let prefix = ExprValue::LiteralString("pre".into());
    p.set_prefix_expr(&prefix);
    assert_eq!(p.prefix_expr(), Some(&prefix));
    let sum = ExprValue::Expr(ExprOp::Add, Box::new(prefix.clone()), Box::new(value.clone()));
    assert_eq!(p.make_prefix_expr(&value, None), Some(sum.clone()));
    let idx = Symbol::loop_var("i");
    assert_eq!(
        p.make_prefix_expr(&value, Some(&idx)),
        Some(ExprValue::Expr(
            ExprOp::Add,
            Box::new(sum),
            Box::new(ExprValue::SymbolReference(idx.clone()))
        ))
    );
    let copy = p.clone();
    assert_eq!(copy.default_var(), Some("state".to_owned()));
}
