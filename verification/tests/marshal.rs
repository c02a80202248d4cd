use limbo_extension::marshal::{arity_ok, dispatch_scalar, marshal_args, IntegerDoubler};
use limbo_extension::value::{Value, ValueType};

#[test]
fn arity_window_is_inclusive() {
    assert!(arity_ok(1, 2, 1));
    assert!(arity_ok(1, 2, 2));
    assert!(!arity_ok(1, 2, 0));
    assert!(!arity_ok(1, 2, 3));
    assert!(arity_ok(0, 0, 0));
    assert!(!arity_ok(0, 0, -1));
}

#[test]
fn out_of_range_count_is_refused() {
    let handles = vec![Some(Value::from_integer(1))];
    assert!(marshal_args(2, 3, 1, Some(&handles)).is_none());
    assert!(marshal_args(0, 0, 1, Some(&handles)).is_none());
    assert!(marshal_args(1, 2, 5, None).is_none());
}

#[test]
fn zero_count_yields_empty_slice() {
    let handles = vec![Some(Value::from_integer(1))];
    let r = marshal_args(0, 2, 0, Some(&handles)).unwrap();
    assert!(r.is_empty());
}

#[test]
fn absent_array_yields_empty_slice() {
    let r = marshal_args(0, 2, 0, None).unwrap();
    assert!(r.is_empty());
    let r = marshal_args(0, 2, 2, None).unwrap();
    assert!(r.is_empty());
}

#[test]
fn in_range_count_marshals_every_handle() {
    let handles = vec![
        Some(Value::from_integer(7)),
        None,
        Some(Value::from_text("hi".to_string())),
    ];
    let r = marshal_args(0, 5, 3, Some(&handles)).unwrap();
    assert_eq!(r.len(), 3);
    assert_eq!(r[0].value_type, ValueType::Integer);
    assert_eq!(r[0].integer, 7);
    assert_eq!(r[1].value_type, ValueType::Null);
    assert_eq!(r[1].integer, 0);
    assert!(r[1].text.is_null());
    assert_eq!(r[2].value_type, ValueType::Text);
    assert_eq!(r[2].text.render(), "hi");
}

#[test]
fn marshalling_ignores_handles_past_the_count() {
    let handles = vec![Some(Value::from_integer(1)), Some(Value::from_integer(2))];
    let r = marshal_args(0, 5, 1, Some(&handles)).unwrap();
    assert_eq!(r.len(), 1);
    assert_eq!(r[0].integer, 1);
}

#[test]
fn doubler_doubles_a_single_integer() {
    let handles = vec![Some(Value::from_integer(21))];
    let r = dispatch_scalar(&IntegerDoubler {}, 1, 1, 1, Some(&handles));
    assert_eq!(r.value_type, ValueType::Integer);
    assert_eq!(r.integer, 42);
}

#[test]
fn doubler_with_zero_arguments_yields_null() {
    let r = dispatch_scalar(&IntegerDoubler {}, 1, 1, 0, None);
    assert_eq!(r.value_type, ValueType::Null);
}

#[test]
fn doubler_with_too_many_arguments_yields_null() {
    let handles = vec![Some(Value::from_integer(1)), Some(Value::from_integer(2))];
    let r = dispatch_scalar(&IntegerDoubler {}, 1, 1, 2, Some(&handles));
    assert_eq!(r.value_type, ValueType::Null);
}

#[test]
fn doubler_overflow_yields_null() {
    let handles = vec![Some(Value::from_integer(i64::MAX))];
    let r = dispatch_scalar(&IntegerDoubler {}, 1, 1, 1, Some(&handles));
    assert_eq!(r.value_type, ValueType::Null);
    let handles = vec![Some(Value::from_integer(i64::MIN))];
    let r = dispatch_scalar(&IntegerDoubler {}, 1, 1, 1, Some(&handles));
    assert_eq!(r.value_type, ValueType::Null);
}

#[test]
fn doubler_null_handle_doubles_the_null_sentinel() {
    // An absent handle stands for the null value, whose integer payload is 0.
    let handles = vec![None];
    let r = dispatch_scalar(&IntegerDoubler {}, 1, 1, 1, Some(&handles));
    assert_eq!(r.value_type, ValueType::Integer);
    assert_eq!(r.integer, 0);
}
