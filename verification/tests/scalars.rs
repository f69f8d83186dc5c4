use cow_bridge::convert::{NativeType, NativeValue};
use cow_bridge::error::TypeMismatch;
use cow_bridge::scalar::{from_value, into_value, Scalar};
use cow_bridge::value::{Tag, Value};

#[test]
fn each_scalar_names_its_native_type() {
    assert_eq!(<() as Scalar>::kind(), NativeType::Unit);
    assert_eq!(<bool as Scalar>::kind(), NativeType::Bool);
    assert_eq!(<i64 as Scalar>::kind(), NativeType::I64);
    assert_eq!(<u64 as Scalar>::kind(), NativeType::U64);
    assert_eq!(<u8 as Scalar>::kind(), NativeType::U8);
    assert_eq!(<String as Scalar>::kind(), NativeType::Str);
    assert_eq!(<Value as Scalar>::kind(), NativeType::Any);
}

#[test]
fn typed_round_trip_from_the_dynamic_side() {
    let n: i64 = from_value(Value::I64(4005)).unwrap();
    assert_eq!(n, 4005);
    assert_eq!(into_value(n), Value::I64(4005));

    let s: String = from_value(Value::Str("ohai".to_string())).unwrap();
    assert_eq!(s, "ohai");
    assert_eq!(into_value(s), Value::Str("ohai".to_string()));

    let b: bool = from_value(Value::Bool(true)).unwrap();
    assert!(b);
    assert_eq!(into_value(b), Value::Bool(true));

    let u: u64 = from_value(Value::U64(9)).unwrap();
    assert_eq!(into_value(u), Value::U64(9));

    let small: u8 = from_value(Value::U8(9)).unwrap();
    assert_eq!(into_value(small), Value::U8(9));

    let unit: () = from_value(Value::Nothing).unwrap();
    assert_eq!(into_value(unit), Value::Nothing);

    let any: Value = from_value(Value::List(vec![Value::I64(1)])).unwrap();
    assert_eq!(into_value(any), Value::List(vec![Value::I64(1)]));
}

#[test]
fn typed_conversion_fails_on_a_wrong_tag() {
    assert_eq!(
        from_value::<i64>(Value::U64(1)),
        Err(TypeMismatch { expected: NativeType::I64, found: Tag::U64 })
    );
    assert_eq!(
        from_value::<String>(Value::I64(1)),
        Err(TypeMismatch { expected: NativeType::Str, found: Tag::I64 })
    );
    assert_eq!(
        from_value::<bool>(Value::Nothing),
        Err(TypeMismatch { expected: NativeType::Bool, found: Tag::Nothing })
    );
    assert_eq!(
        from_value::<()>(Value::Bool(false)),
        Err(TypeMismatch { expected: NativeType::Unit, found: Tag::Bool })
    );
    assert_eq!(
        from_value::<u8>(Value::I64(3)),
        Err(TypeMismatch { expected: NativeType::U8, found: Tag::I64 })
    );
    assert_eq!(
        from_value::<u64>(Value::F64(1.0f64.to_bits())),
        Err(TypeMismatch { expected: NativeType::U64, found: Tag::F64 })
    );
}

#[test]
fn native_values_unwrap_only_to_their_own_type() {
    assert_eq!(i64::from_native(NativeValue::I64(7)), Some(7));
    assert_eq!(i64::from_native(NativeValue::U64(7)), None);
    assert_eq!(i64::from_native(NativeValue::Any(Value::I64(7))), None);
    assert_eq!(String::from_native(NativeValue::Str("x".to_string())), Some("x".to_string()));
    assert_eq!(<()>::from_native(NativeValue::Unit), Some(()));
    assert_eq!(<()>::from_native(NativeValue::Bool(true)), None);
    assert_eq!(Value::from_native(NativeValue::Any(Value::U8(1))), Some(Value::U8(1)));
    assert_eq!(Value::from_native(NativeValue::U8(1)), None);
    assert_eq!(7i64.into_native(), NativeValue::I64(7));
    assert_eq!(true.into_native(), NativeValue::Bool(true));
    assert_eq!(().into_native(), NativeValue::Unit);
    assert_eq!(Value::Nothing.into_native(), NativeValue::Any(Value::Nothing));
}
