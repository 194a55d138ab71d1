use rcc::env::Environment;
use rcc::span::Span;

#[test]
fn put_lowers_sp_and_records_binding() {
    let mut env = Environment::new();
    assert_eq!(env.sp(), 0);
    env.new_scope();
    let flag = env.put(&"x".to_string(), Span::new(4, 5));
    assert!(flag);
    assert_eq!(env.sp(), -8);
    assert_eq!(env.get(&"x".to_string()), Some((-8, Span::new(4, 5))));
    assert!(env.contains(&"x".to_string()));
}

#[test]
fn put_without_open_scope_records_nothing() {
    let mut env = Environment::new();
    let flag = env.put(&"x".to_string(), Span::new(0, 1));
    assert!(flag);
    assert_eq!(env.sp(), -8);
    assert_eq!(env.get(&"x".to_string()), None);
}

#[test]
fn nearest_declaration_wins() {
    let mut env = Environment::new();
    env.new_scope();
    env.put(&"x".to_string(), Span::new(0, 1));
    env.new_scope();
    env.put(&"x".to_string(), Span::new(2, 3));
    assert_eq!(env.get(&"x".to_string()), Some((-16, Span::new(2, 3))));
    assert_eq!(env.get_current(&"x".to_string()), Some((-16, Span::new(2, 3))));
    env.end_scope();
    assert_eq!(env.get(&"x".to_string()), Some((-8, Span::new(0, 1))));
}

#[test]
fn end_scope_reports_bytes_and_keeps_sp() {
    let mut env = Environment::new();
    env.new_scope();
    env.put(&"a".to_string(), Span::new(0, 1));
    env.put(&"b".to_string(), Span::new(1, 2));
    assert_eq!(env.sp(), -16);
    assert_eq!(env.end_scope(), Some(16));
    // The stack-pointer offset is deliberately not restored.
    assert_eq!(env.sp(), -16);
    assert_eq!(env.end_scope(), None);
}

#[test]
fn redeclaration_in_current_scope_is_refused() {
    let mut env = Environment::new();
    env.new_scope();
    assert!(env.put(&"x".to_string(), Span::new(0, 1)));
    assert!(env.put(&"x".to_string(), Span::new(2, 3)));
    // The second put recorded nothing, but the stack-pointer offset still
    // fell: one word per `put`.
    assert_eq!(env.sp(), -16);
    assert_eq!(env.get(&"x".to_string()), Some((-8, Span::new(0, 1))));
}
