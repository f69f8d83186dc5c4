use cow_bridge::convert::NativeType;
use cow_bridge::declaration::{cow_module, plan_method, ConstItem, DeclError, Fault};
use cow_bridge::declaration::{ImplBlock, ImplItem, MethodItem};
use cow_bridge::literal::{literal_value, Literal};
use cow_bridge::signature::{read_inputs, scan_attributes, Attribute, Input};
use cow_bridge::table::ReturnKind;
use cow_bridge::value::Value;

fn attribute(path: &[&str]) -> Attribute {
    Attribute { path: path.iter().map(|s| s.to_string()).collect() }
}

fn typed(binding: &str, ty_name: &str) -> Input {
    Input::Typed { binding: Some(binding.to_string()), ty_name: ty_name.to_string() }
}

fn method(
    name: &str,
    attrs: Vec<Attribute>,
    inputs: Vec<Input>,
    output: Option<&str>,
) -> MethodItem {
    MethodItem {
        name: name.to_string(),
        attrs,
        inputs,
        output: output.map(|ty_name| ty_name.to_string()),
    }
}

fn constant(name: &str, literal: Option<Literal>) -> ImplItem {
    ImplItem::Const(ConstItem { name: name.to_string(), literal })
}

fn integer(value: u64, suffix: &str) -> Literal {
    Literal::Int { value, suffix: suffix.to_string() }
}

fn floating(bits: u64, suffix: &str) -> Literal {
    Literal::Float { bits, suffix: suffix.to_string() }
}

fn block(items: Vec<ImplItem>) -> ImplBlock {
    ImplBlock { self_ty: Some("TestModule".to_string()), items }
}

#[test]
fn marker_is_the_single_segment_returns_object() {
    assert!(attribute(&["returns_object"]).is_marker());
    assert!(!attribute(&["cow", "returns_object"]).is_marker());
    assert!(!attribute(&["returns_object", "x"]).is_marker());
    assert!(!attribute(&["inline"]).is_marker());
    assert!(!attribute(&["Returns_Object"]).is_marker());
    assert!(!attribute(&[]).is_marker());
}

#[test]
fn scan_drops_the_marker_and_keeps_the_rest() {
    let attrs = vec![
        attribute(&["inline"]),
        attribute(&["returns_object"]),
        attribute(&["cfg"]),
        attribute(&["returns_object"]),
    ];
    assert_eq!(scan_attributes(&attrs), (true, vec![true, false, true, false]));
    let attrs = vec![attribute(&["inline"]), attribute(&["doc"])];
    assert_eq!(scan_attributes(&attrs), (false, vec![true, true]));
    assert_eq!(scan_attributes(&vec![]), (false, vec![]));
}

#[test]
fn inputs_without_the_receiver_are_the_parameters() {
    let inputs = vec![Input::Receiver, typed("num", "i64"), typed("text", "String")];
    assert_eq!(
        read_inputs(inputs),
        Ok((vec![NativeType::I64, NativeType::Str], vec!["num".to_string(), "text".to_string()]))
    );
    assert_eq!(read_inputs(vec![Input::Receiver]), Ok((vec![], vec![])));
    assert_eq!(read_inputs(vec![]), Ok((vec![], vec![])));
    // A method without a receiver keeps all its inputs as parameters.
    assert_eq!(
        read_inputs(vec![typed("flag", "bool")]),
        Ok((vec![NativeType::Bool], vec!["flag".to_string()]))
    );
}

#[test]
fn unsupported_pattern_is_reported_with_its_position() {
    let inputs = vec![
        Input::Receiver,
        typed("a", "i64"),
        Input::Typed { binding: None, ty_name: "i64".to_string() },
        Input::Typed { binding: None, ty_name: "Unknown".to_string() },
    ];
    assert_eq!(read_inputs(inputs), Err(Fault::UnsupportedPattern { input: 2 }));
}

#[test]
fn unsupported_type_is_reported_with_its_position() {
    let inputs = vec![Input::Receiver, typed("a", "f64"), typed("b", "i64")];
    assert_eq!(read_inputs(inputs), Err(Fault::UnsupportedType { input: 1 }));
    // The pattern is looked at before the type.
    let inputs = vec![Input::Typed { binding: None, ty_name: "f64".to_string() }];
    assert_eq!(read_inputs(inputs), Err(Fault::UnsupportedPattern { input: 0 }));
}

#[test]
fn plan_of_a_method() {
    let item = method(
        "add_two",
        vec![attribute(&["inline"])],
        vec![Input::Receiver, typed("num", "Value")],
        Some("i64"),
    );
    let (descriptor, plan) = plan_method(item).unwrap();
    assert_eq!(descriptor.name, "add_two");
    assert_eq!(descriptor.params, vec![NativeType::Any]);
    assert_eq!(descriptor.arity(), 1);
    assert_eq!(descriptor.returns, ReturnKind::Value);
    assert_eq!(plan.internal_name, "_internal_add_two");
    assert_eq!(plan.bindings, vec!["num".to_string()]);
    assert_eq!(plan.result, Some(NativeType::I64));
    assert_eq!(plan.keep_attrs, vec![true]);
}

#[test]
fn return_kind_of_a_method() {
    let marker = || vec![attribute(&["returns_object"])];
    let kind = |attrs: Vec<Attribute>, output: Option<&str>| {
        let (descriptor, plan) =
            plan_method(method("m", attrs, vec![Input::Receiver], output)).unwrap();
        (descriptor.returns, plan.result)
    };
    assert_eq!(kind(vec![], None), (ReturnKind::Unit, None));
    assert_eq!(kind(vec![], Some("bool")), (ReturnKind::Value, Some(NativeType::Bool)));
    assert_eq!(kind(vec![], Some("Value")), (ReturnKind::Value, Some(NativeType::Any)));
    assert_eq!(kind(marker(), Some("Self")), (ReturnKind::Object, None));
    // The type of a returned object need not be one that converts.
    assert_eq!(kind(marker(), Some("i64")), (ReturnKind::Object, None));
    // A marked method that declares no return type returns nothing.
    assert_eq!(kind(marker(), None), (ReturnKind::Unit, None));
    assert_eq!(kind(vec![attribute(&["cfg"])], Some("u8")), (ReturnKind::Value, Some(NativeType::U8)));
}

#[test]
fn unsupported_return_type_is_refused() {
    let r = plan_method(method("m", vec![], vec![Input::Receiver], Some("f64")));
    assert_eq!(r.unwrap_err(), Fault::UnsupportedReturnType);
    // The return type is looked at before the inputs.
    let r = plan_method(method(
        "m",
        vec![],
        vec![Input::Typed { binding: None, ty_name: "i64".to_string() }],
        Some("Self"),
    ));
    assert_eq!(r.unwrap_err(), Fault::UnsupportedReturnType);
}

#[test]
fn module_plan_keeps_declaration_order() {
    let plan = cow_module(block(vec![
        constant("MY_CONSTANT", Some(Literal::Str("this is a test".to_string()))),
        ImplItem::Method(method("get_answer", vec![], vec![Input::Receiver], Some("Value"))),
        constant("OTHER_CONSTANT", Some(integer(5122, ""))),
        ImplItem::Method(method(
            "clone",
            vec![attribute(&["returns_object"])],
            vec![Input::Receiver],
            Some("Self"),
        )),
        ImplItem::Method(method("call_without_return", vec![], vec![Input::Receiver], None)),
    ]))
    .unwrap();
    assert_eq!(plan.owner, "TestModule");
    let names: Vec<&str> = plan.methods.iter().map(|m| m.name.as_str()).collect();
    assert_eq!(names, vec!["get_answer", "clone", "call_without_return"]);
    let kinds: Vec<ReturnKind> = plan.methods.iter().map(|m| m.returns).collect();
    assert_eq!(kinds, vec![ReturnKind::Value, ReturnKind::Object, ReturnKind::Unit]);
    let results: Vec<Option<NativeType>> = plan.plans.iter().map(|p| p.result).collect();
    assert_eq!(results, vec![Some(NativeType::Any), None, None]);
    let internals: Vec<&str> = plan.plans.iter().map(|p| p.internal_name.as_str()).collect();
    assert_eq!(
        internals,
        vec!["_internal_get_answer", "_internal_clone", "_internal_call_without_return"]
    );
    assert_eq!(plan.plans[1].keep_attrs, vec![false]);
    let constants: Vec<(&str, &Value)> =
        plan.constants.iter().map(|c| (c.name.as_str(), &c.value)).collect();
    assert_eq!(
        constants,
        vec![
            ("MY_CONSTANT", &Value::Str("this is a test".to_string())),
            ("OTHER_CONSTANT", &Value::I64(5122))
        ]
    );
}

#[test]
fn empty_declaration_gives_an_empty_plan() {
    let plan = cow_module(block(vec![])).unwrap();
    assert_eq!(plan.owner, "TestModule");
    assert!(plan.methods.is_empty());
    assert!(plan.plans.is_empty());
    assert!(plan.constants.is_empty());
}

#[test]
fn variants_of_one_method_are_both_planned() {
    let plan = cow_module(block(vec![
        ImplItem::Method(method(
            "get_cfg_val",
            vec![attribute(&["cfg"])],
            vec![Input::Receiver],
            Some("Value"),
        )),
        ImplItem::Method(method(
            "get_cfg_val",
            vec![attribute(&["cfg"])],
            vec![Input::Receiver],
            Some("Value"),
        )),
    ]))
    .unwrap();
    assert_eq!(plan.methods.len(), 2);
    assert_eq!(plan.plans[0].keep_attrs, vec![true]);
    assert_eq!(plan.plans[1].keep_attrs, vec![true]);
}

#[test]
fn self_type_must_be_an_identifier() {
    let declaration = ImplBlock {
        self_ty: None,
        items: vec![ImplItem::Other, constant("C", None)],
    };
    assert_eq!(cow_module(declaration).unwrap_err(), DeclError::SelfType);
}

#[test]
fn other_items_are_refused() {
    let r = cow_module(block(vec![
        constant("C", Some(integer(1, "i64"))),
        ImplItem::Other,
        ImplItem::Other,
    ]));
    assert_eq!(r.unwrap_err(), DeclError::Item { index: 1, fault: Fault::UnsupportedItem });
}

#[test]
fn constants_must_be_literals() {
    let r = cow_module(block(vec![
        ImplItem::Method(method("m", vec![], vec![Input::Receiver], Some("i64"))),
        constant("A", Some(Literal::Bool(true))),
        constant("B", None),
    ]));
    assert_eq!(r.unwrap_err(), DeclError::Item { index: 2, fault: Fault::UnsupportedExpression });
}

#[test]
fn constants_must_have_a_value() {
    let r = cow_module(block(vec![
        constant("A", Some(Literal::Byte(7))),
        constant("B", Some(Literal::Char('x'))),
        constant("C", None),
    ]));
    assert_eq!(r.unwrap_err(), DeclError::Item { index: 1, fault: Fault::UnsupportedLiteral });
}

#[test]
fn values_of_literals() {
    assert_eq!(literal_value(Literal::Str("s".to_string())), Some(Value::Str("s".to_string())));
    assert_eq!(literal_value(Literal::Byte(65)), Some(Value::U8(65)));
    assert_eq!(literal_value(Literal::Bool(false)), Some(Value::Bool(false)));
    assert_eq!(literal_value(Literal::Char('c')), None);
    assert_eq!(literal_value(Literal::ByteStr(vec![1, 2])), None);
    assert_eq!(literal_value(Literal::Other), None);
}

#[test]
fn values_of_integer_literals() {
    assert_eq!(literal_value(integer(5122, "")), Some(Value::I64(5122)));
    assert_eq!(literal_value(integer(0, "")), Some(Value::I64(0)));
    assert_eq!(literal_value(integer(2147483647, "")), Some(Value::I64(2147483647)));
    assert_eq!(literal_value(integer(2147483648, "")), None);
    assert_eq!(literal_value(integer(7, "i32")), Some(Value::I64(7)));
    assert_eq!(literal_value(integer(2147483648, "i32")), None);
    assert_eq!(literal_value(integer(2147483648, "i64")), Some(Value::I64(2147483648)));
    assert_eq!(
        literal_value(integer(9223372036854775807, "i64")),
        Some(Value::I64(9223372036854775807))
    );
    assert_eq!(literal_value(integer(9223372036854775808, "i64")), None);
    assert_eq!(literal_value(integer(u64::MAX, "u64")), Some(Value::U64(u64::MAX)));
    assert_eq!(literal_value(integer(12, "usize")), Some(Value::U64(12)));
    assert_eq!(literal_value(integer(255, "u8")), Some(Value::U8(255)));
    assert_eq!(literal_value(integer(256, "u8")), None);
    assert_eq!(literal_value(integer(1, "u32")), None);
    assert_eq!(literal_value(integer(1, "i8")), None);
    assert_eq!(literal_value(integer(1, "u16")), None);
}

#[test]
fn values_of_float_literals() {
    let double = 6.5f64.to_bits();
    let single = u64::from(1.5f32.to_bits());
    assert_eq!(literal_value(floating(double, "")), Some(Value::F64(double)));
    assert_eq!(literal_value(floating(double, "f64")), Some(Value::F64(double)));
    assert_eq!(literal_value(floating(single, "f32")), Some(Value::F32(1.5f32.to_bits())));
    assert_eq!(literal_value(floating(double, "f32")), None);
    assert_eq!(literal_value(floating(double, "f16")), None);
}

#[test]
fn first_faulty_item_is_reported() {
    let r = cow_module(block(vec![
        ImplItem::Method(method(
            "ok",
            vec![],
            vec![Input::Receiver, typed("a", "u8")],
            Some("u8"),
        )),
        ImplItem::Method(method(
            "bad",
            vec![],
            vec![
                Input::Receiver,
                typed("a", "u8"),
                Input::Typed { binding: None, ty_name: "u8".to_string() },
            ],
            Some("u8"),
        )),
        ImplItem::Other,
    ]));
    assert_eq!(
        r.unwrap_err(),
        DeclError::Item { index: 1, fault: Fault::UnsupportedPattern { input: 2 } }
    );
    let r = cow_module(block(vec![
        ImplItem::Method(method("bad", vec![], vec![typed("a", "Vec")], None)),
        constant("B", None),
    ]));
    assert_eq!(
        r.unwrap_err(),
        DeclError::Item { index: 0, fault: Fault::UnsupportedType { input: 0 } }
    );
}
