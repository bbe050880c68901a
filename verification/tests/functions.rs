use nova_vm::function::{
    bound_function_create, builtin_call_or_construct, create_builtin_constructor,
    create_builtin_function, expected_arguments_count, make_constructor, make_method,
    ordinary_call_bind_this, ordinary_construct_result, ordinary_function_this_mode,
    set_ecmascript_function_length, Behaviour, BoundFunction, BoundFunctionHeap,
    BuiltinConstructorArgs, BuiltinConstructorFunction, BuiltinConstructorHeap,
    BuiltinFunction, BuiltinFunctionArgs, BuiltinFunctionHeap, BuiltinInvocation,
    ConstructorBackingObject, ConstructorStatus, ECMAScriptFunction, ECMAScriptFunctionHeap,
    ECMAScriptFunctionHeapData, ECMAScriptFunctionObjectHeapData, FunctionBackingObject,
    FunctionPrototype, InitialName, Scoped, ScopedRoots, ThisBinding, ThisMode,
};
use nova_vm::value::{ArgumentsList, ExceptionType, JsError, Value};

fn ecmascript_data(status: ConstructorStatus, is_async: bool, is_generator: bool) -> ECMAScriptFunctionHeapData {
    ECMAScriptFunctionHeapData {
        object_index: None,
        length: 2,
        ecmascript_function: ECMAScriptFunctionObjectHeapData {
            environment: 0,
            constructor_status: status,
            realm: 1,
            this_mode: ThisMode::Strict,
            strict: true,
            home_object: None,
            is_async,
            is_generator,
        },
        compiled_bytecode: None,
        name: Some(4),
    }
}

#[test]
fn constructor_status_predicates() {
    assert!(!ConstructorStatus::NonConstructor.is_constructor());
    assert!(ConstructorStatus::ConstructorFunction.is_constructor());
    assert!(!ConstructorStatus::ConstructorFunction.is_class_constructor());
    assert!(ConstructorStatus::BaseClass.is_class_constructor());
    assert!(ConstructorStatus::DerivedClass.is_derived_class());
    assert!(!ConstructorStatus::BaseClass.is_derived_class());
}

#[test]
fn ecmascript_function_slots() {
    let mut heap = ECMAScriptFunctionHeap::new();
    let f = heap.create(ecmascript_data(ConstructorStatus::NonConstructor, false, false));
    assert_eq!(f, ECMAScriptFunction(0));
    assert!(f.is_strict(&heap));
    assert_eq!(f.get_this_mode(&heap), ThisMode::Strict);
    assert!(!f.is_constructor(&heap));
    assert_eq!(f.get_length(&heap), 2);
    assert_eq!(f.get_name(&heap), Some(4));
    assert_eq!(f.function_call_check(&heap), Ok(()));
    assert_eq!(f.function_prototype(&heap, None), FunctionPrototype::Function);
    assert_eq!(f.get_function_backing_object(&heap), None);
    f.set_function_backing_object(&mut heap, 9);
    assert_eq!(f.get_function_backing_object(&heap), Some(9));
    assert_eq!(f.function_prototype(&heap, Some(3)), FunctionPrototype::BackingObject(3));
}

#[test]
fn function_prototype_by_kind() {
    let mut heap = ECMAScriptFunctionHeap::new();
    let g = heap.create(ecmascript_data(ConstructorStatus::NonConstructor, false, true));
    let a = heap.create(ecmascript_data(ConstructorStatus::NonConstructor, true, false));
    let ag = heap.create(ecmascript_data(ConstructorStatus::NonConstructor, true, true));
    assert_eq!(g.function_prototype(&heap, None), FunctionPrototype::GeneratorFunction);
    assert_eq!(a.function_prototype(&heap, None), FunctionPrototype::AsyncFunction);
    assert_eq!(ag.function_prototype(&heap, None), FunctionPrototype::AsyncGeneratorFunction);
}

#[test]
fn class_constructors_cannot_be_called() {
    let mut heap = ECMAScriptFunctionHeap::new();
    let c = heap.create(ecmascript_data(ConstructorStatus::BaseClass, false, false));
    assert_eq!(c.function_call_check(&heap), Err(JsError::Exception(ExceptionType::TypeError)));
    assert!(c.is_constructor(&heap));
}

#[test]
fn make_constructor_and_method() {
    let mut heap = ECMAScriptFunctionHeap::new();
    let f = heap.create(ecmascript_data(ConstructorStatus::NonConstructor, false, false));
    assert!(make_constructor(&mut heap, f, None));
    assert!(f.is_constructor(&heap));
    assert_eq!(heap.functions[0].ecmascript_function.constructor_status, ConstructorStatus::ConstructorFunction);
    assert!(!make_constructor(&mut heap, f, Some(false)));
    make_method(&mut heap, f, 17);
    assert_eq!(heap.functions[0].ecmascript_function.home_object, Some(17));
    assert_eq!(heap.functions[0].length, 2);
}

#[test]
fn this_binding() {
    assert_eq!(ordinary_call_bind_this(ThisMode::Lexical, Value::Integer(1)), ThisBinding::Unbound);
    assert_eq!(ordinary_call_bind_this(ThisMode::Strict, Value::Undefined), ThisBinding::Value(Value::Undefined));
    assert_eq!(ordinary_call_bind_this(ThisMode::Global, Value::Null), ThisBinding::GlobalThis);
    assert_eq!(ordinary_call_bind_this(ThisMode::Global, Value::Integer(3)), ThisBinding::ToObject(Value::Integer(3)));
    assert_eq!(ordinary_function_this_mode(true, true), ThisMode::Lexical);
    assert_eq!(ordinary_function_this_mode(false, true), ThisMode::Strict);
    assert_eq!(ordinary_function_this_mode(false, false), ThisMode::Global);
}

#[test]
fn construct_results() {
    let this = Value::Object(1);
    let e = JsError::Thrown(Value::Null);
    assert_eq!(ordinary_construct_result(true, Err(e), this, Ok(this)), Err(e));
    assert_eq!(ordinary_construct_result(true, Ok(Value::Object(2)), this, Ok(this)), Ok(Value::Object(2)));
    assert_eq!(ordinary_construct_result(true, Ok(Value::Integer(5)), this, Ok(this)), Ok(this));
    assert_eq!(
        ordinary_construct_result(false, Ok(Value::Integer(5)), this, Ok(this)),
        Err(JsError::Exception(ExceptionType::TypeError))
    );
    assert_eq!(ordinary_construct_result(false, Ok(Value::Undefined), this, Ok(Value::Object(3))), Ok(Value::Object(3)));
    let reference_error = Err(JsError::Exception(ExceptionType::ReferenceError));
    assert_eq!(ordinary_construct_result(false, Ok(Value::Undefined), this, reference_error), reference_error);
}

#[test]
fn expected_argument_count() {
    assert_eq!(expected_arguments_count(&[]), 0);
    assert_eq!(expected_arguments_count(&[false, false]), 2);
    assert_eq!(expected_arguments_count(&[false, true, false]), 1);
    assert_eq!(expected_arguments_count(&[true, false]), 0);
}

#[test]
fn function_length_limit() {
    let mut data = ecmascript_data(ConstructorStatus::NonConstructor, false, false);
    assert_eq!(set_ecmascript_function_length(&mut data, 255), Ok(()));
    assert_eq!(data.length, 255);
    assert_eq!(
        set_ecmascript_function_length(&mut data, 256),
        Err(JsError::Exception(ExceptionType::SyntaxError))
    );
    assert_eq!(data.length, 255);
}

#[test]
fn builtin_functions() {
    let mut heap = BuiltinFunctionHeap::new();
    let plain = create_builtin_function(&mut heap, Behaviour::Regular(7), BuiltinFunctionArgs::new(2, 30, 1), 5, 100);
    assert_eq!(plain, BuiltinFunction(0));
    assert_eq!(plain.get_length(&heap), 2);
    assert_eq!(plain.get_name(&heap), Some(InitialName::Plain(30)));
    assert!(!plain.is_constructor(&heap));
    assert_eq!(heap.functions[0].realm, 1);
    assert_eq!(heap.functions[0].object_index, None);
    let args = BuiltinFunctionArgs { length: 300, name: 31, realm: None, prototype: Some(50), prefix: Some(60) };
    let getter = create_builtin_function(&mut heap, Behaviour::Constructor(8), args, 5, 100);
    assert!(getter.is_constructor(&heap));
    assert_eq!(getter.get_name(&heap), Some(InitialName::Prefixed { prefix: 60, name: 31 }));
    assert_eq!(heap.functions[1].realm, 5);
    assert_eq!(getter.get_length(&heap), 44);
    assert_eq!(heap.functions[1].object_index, Some(0));
    assert_eq!(
        heap.backing_objects,
        vec![FunctionBackingObject { prototype: 50, length: 300, name: InitialName::Prefixed { prefix: 60, name: 31 } }]
    );
    // The realm's own %Function.prototype% needs no backing object.
    let args = BuiltinFunctionArgs { prototype: Some(100), ..BuiltinFunctionArgs::new(0, 32, 1) };
    create_builtin_function(&mut heap, Behaviour::Regular(9), args, 5, 100);
    assert_eq!(heap.functions[2].object_index, None);
    assert_eq!(heap.backing_objects.len(), 1);
}

#[test]
fn builtin_call_and_construct() {
    let mut heap = BuiltinFunctionHeap::new();
    let regular = create_builtin_function(&mut heap, Behaviour::Regular(7), BuiltinFunctionArgs::new(0, 1, 2), 3, 4);
    let ctor = create_builtin_function(&mut heap, Behaviour::Constructor(8), BuiltinFunctionArgs::new(0, 1, 2), 3, 4);
    assert_eq!(
        builtin_call_or_construct(&heap, regular, Some(Value::Integer(1)), None),
        Ok(BuiltinInvocation::Regular { code: 7, this_value: Value::Integer(1), realm: 2 })
    );
    assert_eq!(
        builtin_call_or_construct(&heap, regular, None, Some(9)),
        Err(JsError::Exception(ExceptionType::TypeError))
    );
    assert_eq!(
        builtin_call_or_construct(&heap, ctor, None, Some(9)),
        Ok(BuiltinInvocation::Constructor { code: 8, this_value: Value::Undefined, new_target: Some(9), realm: 2 })
    );
}

#[test]
fn scoped_functions_are_found_again() {
    let mut roots = ScopedRoots { functions: Vec::new() };
    let a = BuiltinFunction(4).scope(&mut roots);
    let b = BuiltinFunction(9).scope(&mut roots);
    assert_eq!(a, Scoped { index: 0 });
    assert_eq!(a.get(&roots), BuiltinFunction(4));
    assert_eq!(b.get(&roots), BuiltinFunction(9));
    assert_eq!(BuiltinFunction(9).get_index(), 9);
}

#[test]
fn builtin_constructors() {
    let mut heap = BuiltinConstructorHeap::new();
    let args = BuiltinConstructorArgs {
        is_derived: true,
        class_name: 3,
        prototype: Some(4),
        prototype_property: 5,
        compiled_initializer_bytecode: None,
        env: 6,
        source_code: 7,
    };
    let c = create_builtin_constructor(&mut heap, args, 11);
    assert_eq!(c, BuiltinConstructorFunction(0));
    assert_eq!(heap.records[0].realm, 11);
    assert!(heap.records[0].is_derived);
    assert_eq!(heap.records[0].backing_object, Some(0));
    assert_eq!(heap.backing_objects, vec![ConstructorBackingObject { prototype: Some(4), name: 3, prototype_property: 5 }]);
    assert!(c.is_constructor());
    assert_eq!(c.function_call(), Err(JsError::Exception(ExceptionType::TypeError)));
}

#[test]
fn bound_functions_prepend_arguments() {
    let mut heap = BoundFunctionHeap::new();
    let e = JsError::Thrown(Value::Null);
    assert_eq!(bound_function_create(&mut heap, Value::Function(3), true, Value::Null, &[], Err(e)).map(|f| f.0), Err(e));
    assert!(heap.functions.is_empty());
    let f = bound_function_create(&mut heap, Value::Function(3), true, Value::Integer(1), &[Value::Integer(10)], Ok(Some(8))).unwrap();
    assert_eq!(f, BoundFunction(0));
    assert_eq!(f.bound_target_function(&heap), Value::Function(3));
    assert_eq!(f.bound_this(&heap), Value::Integer(1));
    assert_eq!(f.get_length(&heap), 0);
    assert_eq!(heap.functions[0].prototype, Some(8));
    assert!(f.is_constructor(&heap));
    let g = bound_function_create(&mut heap, Value::Function(4), false, Value::Null, &[], Ok(None)).unwrap();
    assert!(!g.is_constructor(&heap));
    assert!(f.is_constructor(&heap));
    let call = f.function_call(&heap, &ArgumentsList { values: vec![Value::Integer(20)] });
    assert_eq!(call.target, Value::Function(3));
    assert_eq!(call.this_value, Value::Integer(1));
    assert_eq!(call.arguments, vec![Value::Integer(10), Value::Integer(20)]);
    assert_eq!(call.new_target, Value::Undefined);
    let construct = f.function_construct(&heap, &ArgumentsList { values: vec![] }, Value::Function(0));
    assert_eq!(construct.new_target, Value::Function(3));
    assert_eq!(construct.arguments, vec![Value::Integer(10)]);
    let construct = f.function_construct(&heap, &ArgumentsList { values: vec![] }, Value::Function(5));
    assert_eq!(construct.new_target, Value::Function(5));
}

use nova_vm::function::{
    function_name_of, ordinary_function_create, set_function_name, ConstructStart, FunctionName,
    FunctionNameKey, OrdinaryFunctionCreateParams, SetFunctionNamePrefix,
};

fn sloppy_data(status: ConstructorStatus) -> ECMAScriptFunctionHeapData {
    let mut data = ecmascript_data(status, false, false);
    data.ecmascript_function.this_mode = ThisMode::Global;
    data.ecmascript_function.strict = false;
    data
}

#[test]
fn call_binds_this_by_mode() {
    let mut heap = ECMAScriptFunctionHeap::new();
    let strict = heap.create(ecmascript_data(ConstructorStatus::NonConstructor, false, false));
    let sloppy = heap.create(sloppy_data(ConstructorStatus::ConstructorFunction));
    let class = heap.create(ecmascript_data(ConstructorStatus::DerivedClass, false, false));
    assert_eq!(strict.function_call(&heap, Value::Undefined), Ok(ThisBinding::Value(Value::Undefined)));
    assert_eq!(sloppy.function_call(&heap, Value::Undefined), Ok(ThisBinding::GlobalThis));
    assert_eq!(sloppy.function_call(&heap, Value::Boolean(true)), Ok(ThisBinding::ToObject(Value::Boolean(true))));
    assert_eq!(class.function_call(&heap, Value::Object(1)), Err(JsError::Exception(ExceptionType::TypeError)));
}

#[test]
fn construct_creates_this_for_base_constructors_only() {
    let mut heap = ECMAScriptFunctionHeap::new();
    let base = heap.create(sloppy_data(ConstructorStatus::BaseClass));
    let derived = heap.create(ecmascript_data(ConstructorStatus::DerivedClass, false, false));
    assert_eq!(base.function_construct(&heap, Value::Function(8)), ConstructStart::CreateThis { new_target: Value::Function(8) });
    assert_eq!(derived.function_construct(&heap, Value::Function(8)), ConstructStart::Derived);
    assert_eq!(
        base.function_construct_bind_this(&heap, Ok(Value::Object(3))),
        Ok(ThisBinding::ToObject(Value::Object(3)))
    );
    let e = JsError::Exception(ExceptionType::TypeError);
    assert_eq!(base.function_construct_bind_this(&heap, Err(e)), Err(e));
}

fn params(has_initializer: Vec<bool>) -> OrdinaryFunctionCreateParams {
    OrdinaryFunctionCreateParams {
        function_prototype: None,
        source_code: None,
        has_use_strict_directive: false,
        lexical_this: false,
        env: 6,
        is_async: false,
        is_generator: true,
        has_initializer,
    }
}

#[test]
fn ordinary_function_create_fills_the_slots() {
    let mut heap = ECMAScriptFunctionHeap::new();
    let p = params(vec![false, false, true, false]);
    let (f, proto) = ordinary_function_create(&mut heap, &p, 2, false, 50);
    assert_eq!(f, ECMAScriptFunction(0));
    assert_eq!(proto, None);
    let data = heap.functions[0];
    assert_eq!(data.length, 2);
    assert_eq!(data.name, None);
    assert_eq!(data.object_index, None);
    assert_eq!(data.ecmascript_function.environment, 6);
    assert_eq!(data.ecmascript_function.realm, 2);
    assert_eq!(data.ecmascript_function.constructor_status, ConstructorStatus::NonConstructor);
    assert_eq!(data.ecmascript_function.this_mode, ThisMode::Global);
    assert!(!data.ecmascript_function.strict);
    assert!(data.ecmascript_function.is_generator);
    assert_eq!(data.ecmascript_function.home_object, None);
}

#[test]
fn ordinary_function_create_strictness_and_prototype() {
    let mut heap = ECMAScriptFunctionHeap::new();
    // Strict code being evaluated makes its own functions strict.
    let (f, _) = ordinary_function_create(&mut heap, &params(vec![]), 1, true, 50);
    assert!(f.is_strict(&heap));
    assert_eq!(f.get_this_mode(&heap), ThisMode::Strict);
    // A function of another source is strict only by its own directive.
    let mut other = params(vec![]);
    other.source_code = Some(3);
    let (g, _) = ordinary_function_create(&mut heap, &other, 1, true, 50);
    assert!(!g.is_strict(&heap));
    other.has_use_strict_directive = true;
    other.lexical_this = true;
    other.function_prototype = Some(51);
    let (h, proto) = ordinary_function_create(&mut heap, &other, 1, false, 50);
    assert!(h.is_strict(&heap));
    assert_eq!(h.get_this_mode(&heap), ThisMode::Lexical);
    assert_eq!(proto, Some(51));
    other.function_prototype = Some(50);
    let (_, proto) = ordinary_function_create(&mut heap, &other, 1, false, 50);
    assert_eq!(proto, None);
}

#[test]
fn function_names() {
    assert_eq!(SetFunctionNamePrefix::Getter.into_str(), "get ");
    assert_eq!(SetFunctionNamePrefix::Setter.into_str(), "set ");
    assert_eq!(SetFunctionNamePrefix::Bound.into_str(), "bound ");
    assert_eq!(function_name_of(FunctionNameKey::Symbol { description: None }, Some(SetFunctionNamePrefix::Getter)), FunctionName::Empty);
    assert_eq!(
        function_name_of(FunctionNameKey::Symbol { description: Some(4) }, Some(SetFunctionNamePrefix::Getter)),
        FunctionName::SymbolDescription { prefix: Some(SetFunctionNamePrefix::Getter), description: 4 }
    );
    assert_eq!(
        function_name_of(FunctionNameKey::Integer(-3), None),
        FunctionName::Integer { prefix: None, value: -3 }
    );
    assert_eq!(
        function_name_of(FunctionNameKey::String(9), Some(SetFunctionNamePrefix::Bound)),
        FunctionName::String { prefix: Some(SetFunctionNamePrefix::Bound), name: 9 }
    );
    assert_eq!(
        function_name_of(FunctionNameKey::PrivateName { description: 2 }, Some(SetFunctionNamePrefix::Setter)),
        FunctionName::PrivateName(2)
    );
}

#[test]
fn set_function_name_names_the_function() {
    let mut heap = ECMAScriptFunctionHeap::new();
    let (f, _) = ordinary_function_create(&mut heap, &params(vec![]), 1, false, 50);
    assert_eq!(f.get_name(&heap), None);
    set_function_name(&mut heap, f, 12);
    assert_eq!(f.get_name(&heap), Some(12));
    assert_eq!(heap.functions[0].length, 0);
}

use nova_vm::function::{CalleeContext, FunctionBodyKind};

#[test]
fn callee_context_and_body_kind() {
    let mut heap = ECMAScriptFunctionHeap::new();
    let plain = heap.create(sloppy_data(ConstructorStatus::ConstructorFunction));
    let a = heap.create(ecmascript_data(ConstructorStatus::NonConstructor, true, false));
    let g = heap.create(ecmascript_data(ConstructorStatus::NonConstructor, false, true));
    let ag = heap.create(ecmascript_data(ConstructorStatus::NonConstructor, true, true));
    assert_eq!(
        plain.prepare_for_ordinary_call(&heap, 33),
        CalleeContext { function: plain, realm: 1, is_strict_mode: false, local_environment: 33 }
    );
    assert!(a.prepare_for_ordinary_call(&heap, 2).is_strict_mode);
    assert_eq!(plain.evaluate_body(&heap), FunctionBodyKind::Function);
    assert_eq!(a.evaluate_body(&heap), FunctionBodyKind::Async);
    assert_eq!(g.evaluate_body(&heap), FunctionBodyKind::Generator);
    assert_eq!(ag.evaluate_body(&heap), FunctionBodyKind::AsyncGenerator);
}

#[test]
fn prefix_text() {
    assert_eq!(nova_vm::function::prefix_into_str(None), "");
    assert_eq!(nova_vm::function::prefix_into_str(Some(SetFunctionNamePrefix::Setter)), "set ");
}
