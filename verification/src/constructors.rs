//! The constructors of the control abstraction objects: %GeneratorFunction%,
//! %AsyncGeneratorFunction%, %AsyncFunction% ([20.2.1.1.1 CreateDynamicFunction](https://tc39.es/ecma262/#sec-createdynamicfunction)
//! does the parsing, in the engine) and %Iterator%.

use vstd::prelude::*;
use crate::value::{ArgumentsList, ExceptionType, JsError, PropertyDescriptor, PropertyKey, Value};

verus! {

/// The kinds of function that CreateDynamicFunction makes.
#[derive(Debug, Clone, Copy, PartialEq, Eq, Structural)]
pub enum DynamicFunctionKind {
    Normal,
    Generator,
    Async,
    AsyncGenerator,
}

/// The arguments of CreateDynamicFunction that a dynamic function
/// constructor gathers.
pub struct DynamicFunctionArgs {
    /// parameterArgs: all arguments but the last.
    pub parameter_args: Vec<Value>,
    /// bodyArg: the last argument; `None` where there are no arguments (the
    /// body is then the empty String).
    pub body_arg: Option<Value>,
    /// The constructor C: NewTarget where present, else the active function.
    pub constructor: Value,
    pub kind: DynamicFunctionKind,
}

/// ### [27.3.1.1 GeneratorFunction ( ...parameterArgs, bodyArg )](https://tc39.es/ecma262/#sec-generatorfunction),
/// [27.4.1.1 AsyncGeneratorFunction](https://tc39.es/ecma262/#sec-asyncgeneratorfunction) and
/// [27.7.1.1 AsyncFunction](https://tc39.es/ecma262/#sec-async-function-constructor-arguments), steps 1 to 3
///
/// The last argument is the body and the others the parameters; the
/// function is created for NewTarget where it is present, else for the
/// active function.
pub fn dynamic_function_arguments(
    arguments: &ArgumentsList,
    new_target: Option<Value>,
    active_function: Value,
    kind: DynamicFunctionKind,
) -> (r: DynamicFunctionArgs)
    ensures
        r.kind == kind,
        r.constructor == (if new_target is Some { new_target->Some_0 } else { active_function }),
        arguments.values@.len() == 0 ==> r.body_arg is None && r.parameter_args@.len() == 0,
        arguments.values@.len() > 0 ==> r.body_arg == Some(arguments.values@.last())
            && r.parameter_args@ == arguments.values@.drop_last(),
{
    let n = arguments.len();
    // 2. If bodyArg is not present, set bodyArg to the empty String.
    let body_arg = if n == 0 { None } else { Some(arguments.get(n - 1)) };
    let mut parameter_args: Vec<Value> = Vec::new();
    let mut i: usize = 0;
    while i + 1 < n
        invariant
            n == arguments.values@.len(),
            i <= n,
            n > 0 ==> i < n,
            parameter_args@ == arguments.values@.subrange(0, i as int),
        decreases n - i,
    {
        parameter_args.push(arguments.get(i));
        i = i + 1;
    }
    proof {
        if n > 0 {
            assert(parameter_args@ =~= arguments.values@.drop_last());
        }
    }
    // 1. Let C be the active function object.
    let constructor = match new_target {
        Some(t) => t,
        None => active_function,
    };
    // 3. Return ? CreateDynamicFunction(C, NewTarget, kind, parameterArgs, bodyArg).
    DynamicFunctionArgs { parameter_args, body_arg, constructor, kind }
}

/// The "prototype" that CreateDynamicFunction gives a generator or async
/// generator function (step 30/31): the new prototype object, writable but
/// neither enumerable nor configurable.
pub fn dynamic_function_prototype_property(prototype: Value) -> (r: PropertyDescriptor)
    ensures
        r == (PropertyDescriptor {
            value: Some(prototype),
            writable: Some(true),
            get: None,
            set: None,
            enumerable: Some(false),
            configurable: Some(false),
        }),
{
    // b. Perform ! DefinePropertyOrThrow(F, "prototype", PropertyDescriptor { [[Value]]: prototype,
    //    [[Writable]]: true, [[Enumerable]]: false, [[Configurable]]: false }).
    PropertyDescriptor {
        value: Some(prototype),
        writable: Some(true),
        get: None,
        set: None,
        enumerable: Some(false),
        configurable: Some(false),
    }
}

/// ### [27.1.3.1 Iterator ( )](https://tc39.es/ecma262/#sec-iterator-constructor)
///
/// The constructor cannot be called, nor constructed directly: without a
/// NewTarget, or with the active function as NewTarget, it is a TypeError.
/// Otherwise the result is OrdinaryCreateFromConstructor(NewTarget,
/// "%Iterator.prototype%"), made by the engine for the NewTarget returned.
pub fn iterator_constructor(new_target: Option<Value>, active_function: Value) -> (r: Result<Value, JsError>)
    ensures
        new_target is None ==> r == Err::<Value, JsError>(JsError::Exception(ExceptionType::TypeError)),
        new_target == Some(active_function) ==> r == Err::<Value, JsError>(JsError::Exception(ExceptionType::TypeError)),
        new_target is Some && new_target != Some(active_function) ==> r == Ok::<Value, JsError>(new_target->Some_0),
{
    // 1. If NewTarget is either undefined or the active function object, throw a TypeError exception.
    let new_target = match new_target {
        None => return Err(JsError::Exception(ExceptionType::TypeError)),
        Some(t) => t,
    };
    if new_target == active_function {
        return Err(JsError::Exception(ExceptionType::TypeError));
    }
    // 2. Return ? OrdinaryCreateFromConstructor(NewTarget, "%Iterator.prototype%").
    Ok(new_target)
}


/// What the engine does next for SetterThatIgnoresPrototypeProperties.
#[derive(Debug, Clone, Copy, PartialEq, Eq)]
pub enum SetterAction {
    /// Throw this error.
    Throw(JsError),
    /// `? thisValue.[[GetOwnProperty]](p)`; the outcome goes to
    /// [`setter_on_own_property`].
    GetOwnProperty { object: Value, key: PropertyKey },
    /// `? CreateDataPropertyOrThrow(thisValue, p, v)`, then return.
    CreateDataProperty { object: Value, key: PropertyKey, value: Value },
    /// `? Set(thisValue, p, v, true)`, then return.
    SetProperty { object: Value, key: PropertyKey, value: Value },
}

/// ### [SetterThatIgnoresPrototypeProperties ( thisValue, home, p, v )](https://tc39.es/ecma262/#sec-SetterThatIgnoresPrototypeProperties), steps 1 and 2
///
/// The this value must be an Object other than `home`: a TypeError
/// otherwise. Its own property `p` is then looked up.
pub fn setter_that_ignores_prototype_properties(this_value: Value, home: Value, p: PropertyKey) -> (r: SetterAction)
    ensures
        !this_value.spec_is_object() ==> r == SetterAction::Throw(JsError::Exception(ExceptionType::TypeError)),
        this_value.spec_is_object() && this_value == home ==> r == SetterAction::Throw(JsError::Exception(ExceptionType::TypeError)),
        this_value.spec_is_object() && this_value != home ==> r == (SetterAction::GetOwnProperty { object: this_value, key: p }),
{
    // 1. If thisValue is not an Object, throw a TypeError exception.
    if !this_value.is_object() {
        return SetterAction::Throw(JsError::Exception(ExceptionType::TypeError));
    }
    // 2. If SameValue(thisValue, home) is true, then
    if this_value == home {
        // a. NOTE: Throwing here emulates assignment to a non-writable data
        //    property on the home object in strict mode code.
        // b. Throw a TypeError exception.
        return SetterAction::Throw(JsError::Exception(ExceptionType::TypeError));
    }
    SetterAction::GetOwnProperty { object: this_value, key: p }
}

/// SetterThatIgnoresPrototypeProperties, steps 3 to 5: `desc` is the
/// outcome of `thisValue.[[GetOwnProperty]](p)`. An error is thrown; where
/// there is no own property it is created, else it is set.
pub fn setter_on_own_property(this_value: Value, p: PropertyKey, v: Value, desc: Result<Option<PropertyDescriptor>, JsError>) -> (r: SetterAction)
    ensures
        desc matches Err(e) ==> r == SetterAction::Throw(e),
        desc == Ok::<Option<PropertyDescriptor>, JsError>(None) ==> r == (SetterAction::CreateDataProperty { object: this_value, key: p, value: v }),
        desc matches Ok(Some(_)) ==> r == (SetterAction::SetProperty { object: this_value, key: p, value: v }),
{
    // 3. Let desc be ? thisValue.[[GetOwnProperty]](p).
    match desc {
        Err(e) => SetterAction::Throw(e),
        // 4. If desc is undefined, then
        //    a. Perform ? CreateDataPropertyOrThrow(thisValue, p, v).
        Ok(None) => SetterAction::CreateDataProperty { object: this_value, key: p, value: v },
        // 5. Else,
        //    a. Perform ? Set(thisValue, p, v, true).
        Ok(Some(_)) => SetterAction::SetProperty { object: this_value, key: p, value: v },
    }
}

/// The getter of %Iterator.prototype%'s string tag: "Iterator".
pub fn iterator_get_to_string_tag() -> (r: &'static str)
    ensures
        r@ == "Iterator"@,
{
    // 1. Return "Iterator".
    "Iterator"
}

/// The setter of %Iterator.prototype%'s string tag: the first argument goes
/// to SetterThatIgnoresPrototypeProperties with %Iterator.prototype% as
/// home and "constructor" as the key; the setter then returns undefined.
pub fn iterator_set_to_string_tag(this_value: Value, arguments: &ArgumentsList, iterator_prototype: Value) -> (r: (Value, SetterAction))
    ensures
        r.0 == (if arguments.values@.len() > 0 { arguments.values@[0] } else { Value::Undefined }),
        r.1 == setter_spec(this_value, iterator_prototype),
{
    let v = arguments.get(0);
    (v, setter_that_ignores_prototype_properties(this_value, iterator_prototype, PropertyKey::Constructor))
}

/// The first step of the string tag setter on `this_value`.
pub open spec fn setter_spec(this_value: Value, home: Value) -> SetterAction {
    if !this_value.spec_is_object() || this_value == home {
        SetterAction::Throw(JsError::Exception(ExceptionType::TypeError))
    } else {
        SetterAction::GetOwnProperty { object: this_value, key: PropertyKey::Constructor }
    }
}

} // verus!
