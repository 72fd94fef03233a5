use isymtope::ast::{
    BindingType, ExprValue, ResolvedSymbolType, Symbol, SymbolReferenceType, VarType,
};
use isymtope::symbols::Symbols;
use isymtope::traits::ScopeParentId;

#[test]
pub fn test_symbols() {
    let mut symbols = Symbols::new(None);
    symbols.add_sym("abc", Symbol::prop("xyz", "s1"));

    assert_eq!(
        symbols.get_sym("abc").map(|s| s.sym_ref()),
        Some(&SymbolReferenceType::ResolvedReference(
            "xyz".to_owned(),
            ResolvedSymbolType::PropReference("xyz".to_owned()),
            Some("s1".to_owned())
        ))
    );
}

#[test]
fn symbols_get_is_local_and_misses_unbound_names() {
    let mut parent = Symbols::new(None);
    parent.add_sym("outer", Symbol::reducer_key("outer"));
    let child = Symbols::new(Some(parent.map_id()));
    assert_eq!(child.get_sym("outer"), None);
    assert_eq!(child.parent_map_id(), Some(parent.map_id()));
    assert_eq!(child.parent_id(), Some(parent.map_id()));
    assert_eq!(parent.parent_map_id(), None);
}

#[test]
fn symbols_add_overwrites_only_that_name() {
    let mut symbols = Symbols::with_map_id("t1", None);
    symbols.add_sym("a", Symbol::reducer_key("first"));
    symbols.add_sym("b", Symbol::reducer_key("other"));
    symbols.add_sym("a", Symbol::reducer_key("second"));
    assert_eq!(symbols.get_sym("a"), Some(&Symbol::reducer_key("second")));
    assert_eq!(symbols.get_sym("b"), Some(&Symbol::reducer_key("other")));
    assert_eq!(symbols.map_id(), "t1");
}

#[test]
fn symbols_fresh_identities_differ() {
    let a = Symbols::new(None);
    let b = Symbols::new(None);
    assert_ne!(a.map_id(), b.map_id());
    assert!(!a.map_id().is_empty());
}

#[test]
fn symbols_default_has_no_parent() {
    let s = Symbols::default();
    assert_eq!(s.parent_map_id(), None);
    assert_eq!(s.get_sym("x"), None);
}

#[test]
fn symbol_constructors_build_the_documented_shapes() {
    assert_eq!(
        Symbol::unresolved("x"),
        Symbol(SymbolReferenceType::UnresolvedReference("x".to_owned()), None, None)
    );
    assert_eq!(Symbol::prop("k", "s"), Symbol::element_prop("k", "k", Some("s")));
    let typed = Symbol::typed_binding(&BindingType::ReducerPathBinding("todos".into()), &VarType::ArrayVar);
    assert_eq!(typed.ty(), Some(VarType::ArrayVar));
    assert_eq!(Symbol::binding(&BindingType::ActionStateBinding).ty(), None);
    let e = ExprValue::LiteralNumber(7);
    let inv = Symbol::invocation_prop("p", Some(&e));
    assert_eq!(inv.value(), Some(&e));
    assert_eq!(Symbol::invocation_prop("p", None).value(), None);
    let iv = Symbol::initial_value(&Symbol::loop_var("i"), &Symbol::reducer_key("r"));
    assert_eq!(
        iv.sym_ref(),
        &SymbolReferenceType::InitialValue(
            Box::new(Symbol::loop_var("i")),
            Box::new(Symbol::reducer_key("r"))
        )
    );
}

#[test]
fn symbol_copies_are_equal_and_independent() {
    let e = ExprValue::LiteralArray(Some(vec![
        ExprValue::LiteralNumber(1),
        ExprValue::LiteralString("two".into()),
    ]));
    let s = Symbol::invocation_prop("p", Some(&e));
    let c = s.clone();
    assert_eq!(s, c);
    assert!(ExprValue::LiteralNull.is_literal());
    assert!(ExprValue::LiteralBool(true).is_literal());
    assert!(e.is_literal());
    assert!(!ExprValue::DefaultVariableReference.is_literal());
    assert!(!ExprValue::SymbolReference(s).is_literal());
}
