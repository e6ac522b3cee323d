use rsnvim::convert::{Arguments, AsValue};
use rsnvim::value::{clone_values, Integer, Value};

#[test]
fn an_integer_is_its_number_whatever_it_was_made_from() {
    assert_eq!(Integer::from_u64(5), Integer::from_i64(5));
    assert_eq!(Integer::from_u64(0), Integer::from_i64(0));
    assert_ne!(Integer::from_u64(5), Integer::from_i64(-5));
}

#[test]
fn an_integer_is_read_as_far_as_it_fits() {
    assert_eq!(Integer::from_u64(5).as_u64(), Some(5));
    assert_eq!(Integer::from_u64(5).as_i64(), Some(5));
    assert_eq!(Integer::from_u64(u64::MAX).as_u64(), Some(u64::MAX));
    assert_eq!(Integer::from_u64(u64::MAX).as_i64(), None);
    assert_eq!(Integer::from_u64(i64::MAX as u64).as_i64(), Some(i64::MAX));
    assert_eq!(Integer::from_u64(i64::MAX as u64 + 1).as_i64(), None);
    assert_eq!(Integer::from_i64(-1).as_u64(), None);
    assert_eq!(Integer::from_i64(-1).as_i64(), Some(-1));
    assert_eq!(Integer::from_i64(i64::MIN).as_i64(), Some(i64::MIN));
    assert_eq!(Integer::from_i64(i64::MIN).as_u64(), None);
}

#[test]
fn a_value_gives_what_it_holds_and_nothing_else() {
    let number = Value::Integer(Integer::from_u64(3));
    assert_eq!(number.as_u64(), Some(3));
    assert_eq!(number.as_i64(), Some(3));
    assert_eq!(number.as_bool(), None);
    assert_eq!(number.as_str(), None);
    assert!(number.as_array().is_none());
    assert!(number.as_map().is_none());
    assert!(!number.is_nil());

    let text = Value::String("abc".to_string());
    assert_eq!(text.as_str(), Some("abc"));
    assert_eq!(text.as_u64(), None);

    assert_eq!(Value::Boolean(true).as_bool(), Some(true));
    assert_eq!(Value::Boolean(false).as_bool(), Some(false));
    assert!(Value::Nil.is_nil());
    assert_eq!(Value::Nil.as_u64(), None);

    let items = vec![Value::Nil, Value::Boolean(true)];
    assert_eq!(Value::Array(items.clone()).as_array(), Some(&items));
    let entries = vec![(Value::String("k".to_string()), Value::Nil)];
    assert_eq!(Value::Dictionary(entries.clone()).as_map(), Some(&entries));
    assert!(Value::Array(vec![]).as_map().is_none());
    assert!(Value::Dictionary(vec![]).as_array().is_none());

    assert_eq!(Value::F64(2.0f64.to_bits()).as_u64(), None);
    assert_eq!(Value::Binary(vec![97]).as_str(), None);
}

#[test]
fn a_copy_of_a_value_is_equal_to_it() {
    let value = Value::Array(vec![
        Value::Nil,
        Value::Boolean(true),
        Value::Integer(Integer::from_i64(-7)),
        Value::F32(1.25f32.to_bits()),
        Value::F64((-0.5f64).to_bits()),
        Value::String("text".to_string()),
        Value::Binary(vec![1, 2, 3]),
        Value::Dictionary(vec![(
            Value::String("nested".to_string()),
            Value::Array(vec![Value::Ext(1, vec![9, 9])]),
        )]),
        Value::Ext(-128, vec![]),
    ]);
    assert_eq!(value.clone(), value);
    let items = vec![value.clone(), Value::Nil];
    assert_eq!(clone_values(&items), items);
}

#[test]
fn a_float_keeps_its_bits() {
    let bits = 1.5f64.to_bits();
    match Value::F64(bits).clone() {
        Value::F64(kept) => assert_eq!(f64::from_bits(kept), 1.5),
        other => panic!("{:?}", other),
    }
}

#[test]
fn the_adapter_makes_a_value_of_each_kind() {
    assert_eq!(7u64.convert(), Value::Integer(Integer::from_u64(7)));
    assert_eq!((-7i64).convert(), Value::Integer(Integer::from_i64(-7)));
    assert_eq!(7i64.convert(), 7u64.convert());
    assert_eq!(true.convert(), Value::Boolean(true));
    assert_eq!("text".to_string().convert(), Value::String("text".to_string()));
    assert_eq!(Value::Ext(2, vec![1]).convert(), Value::Ext(2, vec![1]));
    assert_eq!(
        vec![Value::Nil, Value::Boolean(false)].convert(),
        Value::Array(vec![Value::Nil, Value::Boolean(false)])
    );
    assert_eq!(
        vec!["a".to_string(), "b".to_string()].convert(),
        Value::Array(vec![Value::String("a".to_string()), Value::String("b".to_string())])
    );
    assert_eq!(
        vec![(Value::String("k".to_string()), 1u64.convert())].convert(),
        Value::Dictionary(vec![(Value::String("k".to_string()), Value::Integer(Integer::from_u64(1)))])
    );
    assert_eq!(Vec::<String>::new().convert(), Value::Array(vec![]));
}

#[test]
fn arguments_are_gathered_in_order() {
    let handle = Value::Ext(0, vec![42]);
    let params = Arguments::new()
        .with(&handle)
        .with(&3i64)
        .with(&"name".to_string())
        .with(&false)
        .with(&vec!["x".to_string()])
        .finish();
    assert_eq!(
        params,
        vec![
            Value::Ext(0, vec![42]),
            Value::Integer(Integer::from_u64(3)),
            Value::String("name".to_string()),
            Value::Boolean(false),
            Value::Array(vec![Value::String("x".to_string())]),
        ]
    );
    assert_eq!(Arguments::new().finish(), Vec::<Value>::new());
}
