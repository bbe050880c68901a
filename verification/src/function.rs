//! Function objects: [10.2 ECMAScript Function Objects](https://tc39.es/ecma262/#sec-ecmascript-function-objects),
//! [10.3 Built-in Function Objects](https://tc39.es/ecma262/#sec-built-in-function-objects)
//! and [10.4.1 Bound Function Exotic Objects](https://tc39.es/ecma262/#sec-bound-function-exotic-objects).
//!
//! Evaluating a function's code is the engine's work; this module holds the
//! functions' data and the decisions that \[\[Call]] and \[\[Construct]]
//! make around it. Strings are held by handle.

use vstd::prelude::*;
use crate::value::{ArgumentsList, ExceptionType, JsError, Value};

verus! {

/// \[\[ConstructorKind]] and \[\[IsClassConstructor]] of an ECMAScript
/// function.
#[derive(Debug, Clone, Copy, PartialEq, Eq, Structural)]
pub enum ConstructorStatus {
    NonConstructor,
    ConstructorFunction,
    BaseClass,
    DerivedClass,
}

impl ConstructorStatus {
    /// Whether the function has a \[\[Construct]] method.
    pub fn is_constructor(self) -> (r: bool)
        ensures
            r == !(self is NonConstructor),
    {
        !matches!(self, ConstructorStatus::NonConstructor)
    }

    /// \[\[IsClassConstructor]]
    pub fn is_class_constructor(self) -> (r: bool)
        ensures
            r == (self is BaseClass || self is DerivedClass),
    {
        matches!(self, ConstructorStatus::BaseClass | ConstructorStatus::DerivedClass)
    }

    /// \[\[ConstructorKind]] is DERIVED.
    pub fn is_derived_class(self) -> (r: bool)
        ensures
            r == (self is DerivedClass),
    {
        matches!(self, ConstructorStatus::DerivedClass)
    }
}

/// \[\[ThisMode]]
#[derive(Debug, Clone, Copy, PartialEq, Eq, Structural)]
pub enum ThisMode {
    Lexical,
    Strict,
    Global,
}

/// The slots of an ECMAScript function object that this crate reads; the
/// environments, script and AST are the engine's and held by handle.
#[derive(Debug, Clone, Copy, PartialEq, Eq, Structural)]
pub struct ECMAScriptFunctionObjectHeapData {
    /// \[\[Environment]]
    pub environment: u32,
    /// \[\[ConstructorKind]] and \[\[IsClassConstructor]]
    pub constructor_status: ConstructorStatus,
    /// \[\[Realm]]
    pub realm: u32,
    /// \[\[ThisMode]]
    pub this_mode: ThisMode,
    /// \[\[Strict]]
    pub strict: bool,
    /// \[\[HomeObject]]
    pub home_object: Option<u32>,
    /// Whether \[\[ECMAScriptCode]] is an async body.
    pub is_async: bool,
    /// Whether \[\[ECMAScriptCode]] is a generator body.
    pub is_generator: bool,
}

/// The heap data of an ECMAScript function.
#[derive(Debug, Clone, Copy, PartialEq, Eq, Structural)]
pub struct ECMAScriptFunctionHeapData {
    pub object_index: Option<u32>,
    /// The "length" property.
    pub length: u8,
    pub ecmascript_function: ECMAScriptFunctionObjectHeapData,
    pub compiled_bytecode: Option<u32>,
    /// The "name" property, by string handle.
    pub name: Option<u32>,
}

/// The arena of ECMAScript functions.
pub struct ECMAScriptFunctionHeap {
    pub functions: Vec<ECMAScriptFunctionHeapData>,
}

/// A handle to an ECMAScript function.
#[derive(Debug, Clone, Copy, PartialEq, Eq, Structural)]
pub struct ECMAScriptFunction(pub u32);

/// The intrinsic prototype of a function without a backing object.
#[derive(Debug, Clone, Copy, PartialEq, Eq, Structural)]
pub enum FunctionPrototype {
    /// %Function.prototype%
    Function,
    /// %GeneratorFunction.prototype%
    GeneratorFunction,
    /// %AsyncFunction.prototype%
    AsyncFunction,
    /// %AsyncGeneratorFunction.prototype%
    AsyncGeneratorFunction,
    /// The prototype of the backing object.
    BackingObject(u32),
}

impl ECMAScriptFunctionHeap {
    pub open spec fn contains(&self, f: ECMAScriptFunction) -> bool {
        f.0 < self.functions@.len()
    }

    pub open spec fn data(&self, f: ECMAScriptFunction) -> ECMAScriptFunctionHeapData {
        self.functions@[f.0 as int]
    }

    pub fn new() -> (r: Self)
        ensures
            r.functions@.len() == 0,
    {
        ECMAScriptFunctionHeap { functions: Vec::new() }
    }

    /// Adds a function with the given data.
    pub fn create(&mut self, data: ECMAScriptFunctionHeapData) -> (r: ECMAScriptFunction)
        requires
            old(self).functions@.len() < u32::MAX,
        ensures
            r.0 == old(self).functions@.len(),
            final(self).functions@ == old(self).functions@.push(data),
    {
        let index = self.functions.len() as u32;
        self.functions.push(data);
        ECMAScriptFunction(index)
    }
}

impl ECMAScriptFunction {
    pub fn get_index(self) -> (r: usize)
        ensures
            r == self.0,
    {
        self.0 as usize
    }

    /// Returns true if this function executes in strict mode.
    pub fn is_strict(self, heap: &ECMAScriptFunctionHeap) -> (r: bool)
        requires
            heap.contains(self),
        ensures
            r == heap.data(self).ecmascript_function.strict,
    {
        heap.functions[self.0 as usize].ecmascript_function.strict
    }

    /// Returns this function's ThisMode.
    pub fn get_this_mode(self, heap: &ECMAScriptFunctionHeap) -> (r: ThisMode)
        requires
            heap.contains(self),
        ensures
            r == heap.data(self).ecmascript_function.this_mode,
    {
        heap.functions[self.0 as usize].ecmascript_function.this_mode
    }

    /// An ECMAScript function has the \[\[Construct]] slot if its constructor
    /// status is something other than non-constructor.
    pub fn is_constructor(self, heap: &ECMAScriptFunctionHeap) -> (r: bool)
        requires
            heap.contains(self),
        ensures
            r == !(heap.data(self).ecmascript_function.constructor_status is NonConstructor),
    {
        heap.functions[self.0 as usize].ecmascript_function.constructor_status.is_constructor()
    }

    /// The "length" of the function.
    pub fn get_length(self, heap: &ECMAScriptFunctionHeap) -> (r: u8)
        requires
            heap.contains(self),
        ensures
            r == heap.data(self).length,
    {
        heap.functions[self.0 as usize].length
    }

    /// The "name" of the function; `None` for the empty string.
    pub fn get_name(self, heap: &ECMAScriptFunctionHeap) -> (r: Option<u32>)
        requires
            heap.contains(self),
        ensures
            r == heap.data(self).name,
    {
        heap.functions[self.0 as usize].name
    }

    pub fn get_function_backing_object(self, heap: &ECMAScriptFunctionHeap) -> (r: Option<u32>)
        requires
            heap.contains(self),
        ensures
            r == heap.data(self).object_index,
    {
        heap.functions[self.0 as usize].object_index
    }

    /// Gives the function a backing object; it must have none yet.
    pub fn set_function_backing_object(self, heap: &mut ECMAScriptFunctionHeap, backing_object: u32)
        requires
            old(heap).contains(self),
            old(heap).data(self).object_index is None,
        ensures
            final(heap).functions@ == old(heap).functions@.update(self.0 as int, ECMAScriptFunctionHeapData {
                object_index: Some(backing_object),
                ..old(heap).data(self)
            }),
    {
        let i = self.0 as usize;
        let mut data = heap.functions[i];
        data.object_index = Some(backing_object);
        heap.functions.set(i, data);
    }

    /// \[\[GetPrototypeOf]] without a backing object: the intrinsic
    /// prototype for the kind of function body; with one, that object's
    /// prototype.
    pub fn function_prototype(self, heap: &ECMAScriptFunctionHeap, backing_object_prototype: Option<u32>) -> (r: FunctionPrototype)
        requires
            heap.contains(self),
        ensures
            heap.data(self).object_index is Some && backing_object_prototype is Some ==> r == FunctionPrototype::BackingObject(backing_object_prototype->Some_0),
            heap.data(self).object_index is None ==> r == ({
                let f = heap.data(self).ecmascript_function;
                if !f.is_async && !f.is_generator {
                    FunctionPrototype::Function
                } else if !f.is_async {
                    FunctionPrototype::GeneratorFunction
                } else if !f.is_generator {
                    FunctionPrototype::AsyncFunction
                } else {
                    FunctionPrototype::AsyncGeneratorFunction
                }
            }),
    {
        let data = &heap.functions[self.0 as usize];
        if data.object_index.is_some() {
            if let Some(p) = backing_object_prototype {
                return FunctionPrototype::BackingObject(p);
            }
        }
        let f = data.ecmascript_function;
        match (f.is_async, f.is_generator) {
            (false, false) => FunctionPrototype::Function,
            (false, true) => FunctionPrototype::GeneratorFunction,
            (true, false) => FunctionPrototype::AsyncFunction,
            (true, true) => FunctionPrototype::AsyncGeneratorFunction,
        }
    }

    /// ### [10.2.1 \[\[Call\]\] ( thisArgument, argumentsList )](https://tc39.es/ecma262/#sec-call), step 4
    ///
    /// A class constructor cannot be called: a TypeError. Otherwise the call
    /// goes on with the this binding of [`ordinary_call_bind_this`].
    pub fn function_call_check(self, heap: &ECMAScriptFunctionHeap) -> (r: Result<(), JsError>)
        requires
            heap.contains(self),
        ensures
            heap.data(self).ecmascript_function.constructor_status is BaseClass
                || heap.data(self).ecmascript_function.constructor_status is DerivedClass
                ==> r == Err::<(), JsError>(JsError::Exception(ExceptionType::TypeError)),
            !(heap.data(self).ecmascript_function.constructor_status is BaseClass
                || heap.data(self).ecmascript_function.constructor_status is DerivedClass)
                ==> r is Ok,
    {
        // 4. If F.[[IsClassConstructor]] is true, then
        if heap.functions[self.0 as usize].ecmascript_function.constructor_status.is_class_constructor() {
            // a. Let error be a newly created TypeError object.
            // d. Return ThrowCompletion(error).
            return Err(JsError::Exception(ExceptionType::TypeError));
        }
        Ok(())
    }
}

/// The this value that OrdinaryCallBindThis binds.
#[derive(Debug, Clone, Copy, PartialEq, Eq, Structural)]
pub enum ThisBinding {
    /// A lexical function binds none.
    Unbound,
    /// This value.
    Value(Value),
    /// The callee realm's global this value.
    GlobalThis,
    /// `! ToObject(thisArgument)`.
    ToObject(Value),
}

/// ### [10.2.1.2 OrdinaryCallBindThis ( F, calleeContext, thisArgument )](https://tc39.es/ecma262/#sec-ordinarycallbindthis)
///
/// A lexical function binds nothing; a strict one the this argument as it
/// is; a sloppy one the global this value for undefined and null, and the
/// this argument converted to an object otherwise.
pub fn ordinary_call_bind_this(this_mode: ThisMode, this_argument: Value) -> (r: ThisBinding)
    ensures
        this_mode is Lexical ==> r == ThisBinding::Unbound,
        this_mode is Strict ==> r == ThisBinding::Value(this_argument),
        this_mode is Global && (this_argument is Undefined || this_argument is Null) ==> r == ThisBinding::GlobalThis,
        this_mode is Global && !(this_argument is Undefined || this_argument is Null) ==> r == ThisBinding::ToObject(this_argument),
{
    // 1. Let thisMode be F.[[ThisMode]].
    match this_mode {
        // 2. If thisMode is LEXICAL, return UNUSED.
        ThisMode::Lexical => ThisBinding::Unbound,
        // 5. If thisMode is STRICT, then
        //    a. Let thisValue be thisArgument.
        ThisMode::Strict => ThisBinding::Value(this_argument),
        // 6. Else,
        ThisMode::Global => match this_argument {
            // a. If thisArgument is either undefined or null, then
            //    iii. Let thisValue be globalEnv.[[GlobalThisValue]].
            Value::Undefined | Value::Null => ThisBinding::GlobalThis,
            // b. Else,
            //    i. Let thisValue be ! ToObject(thisArgument).
            _ => ThisBinding::ToObject(this_argument),
        },
    }
}

/// The this binding that OrdinaryCallBindThis makes.
pub open spec fn spec_bind_this(this_mode: ThisMode, this_argument: Value) -> ThisBinding {
    match this_mode {
        ThisMode::Lexical => ThisBinding::Unbound,
        ThisMode::Strict => ThisBinding::Value(this_argument),
        ThisMode::Global => if this_argument is Undefined || this_argument is Null {
            ThisBinding::GlobalThis
        } else {
            ThisBinding::ToObject(this_argument)
        },
    }
}

/// The execution context that PrepareForOrdinaryCall pushes, as far as
/// the function's slots decide it; the function environment is made by the
/// engine and passed in.
#[derive(Debug, Clone, Copy, PartialEq, Eq, Structural)]
pub struct CalleeContext {
    /// The Function of the context.
    pub function: ECMAScriptFunction,
    /// The Realm of the context: F.\[\[Realm]].
    pub realm: u32,
    /// Whether the code of the context is strict: F.\[\[Strict]].
    pub is_strict_mode: bool,
    /// The LexicalEnvironment and VariableEnvironment: the new function
    /// environment.
    pub local_environment: u32,
}

/// Which body evaluation EvaluateBody runs for a function's code.
#[derive(Debug, Clone, Copy, PartialEq, Eq, Structural)]
pub enum FunctionBodyKind {
    /// EvaluateFunctionBody (or EvaluateConciseBody)
    Function,
    /// EvaluateAsyncFunctionBody (or EvaluateAsyncConciseBody)
    Async,
    /// EvaluateGeneratorBody
    Generator,
    /// EvaluateAsyncGeneratorBody
    AsyncGenerator,
}

/// The body evaluation for code that is (or is not) a generator and async.
pub open spec fn spec_body_kind(is_generator: bool, is_async: bool) -> FunctionBodyKind {
    if is_generator {
        if is_async { FunctionBodyKind::AsyncGenerator } else { FunctionBodyKind::Generator }
    } else {
        if is_async { FunctionBodyKind::Async } else { FunctionBodyKind::Function }
    }
}

impl ECMAScriptFunction {
    /// ### [10.2.1.1 PrepareForOrdinaryCall ( F, newTarget )](https://tc39.es/ecma262/#sec-prepareforordinarycall)
    ///
    /// The callee context: its Function is F, its Realm F.\[\[Realm]], its
    /// code as strict as F, and both its environments the function
    /// environment `local_environment` made by NewFunctionEnvironment(F,
    /// newTarget).
    pub fn prepare_for_ordinary_call(self, heap: &ECMAScriptFunctionHeap, local_environment: u32) -> (r: CalleeContext)
        requires
            heap.contains(self),
        ensures
            r == (CalleeContext {
                function: self,
                realm: heap.data(self).ecmascript_function.realm,
                is_strict_mode: heap.data(self).ecmascript_function.strict,
                local_environment,
            }),
    {
        let data = &heap.functions[self.0 as usize].ecmascript_function;
        // 2. Let calleeContext be a new ECMAScript code execution context.
        CalleeContext {
            // 3. Set the Function of calleeContext to F.
            function: self,
            // 4. Let calleeRealm be F.[[Realm]].
            // 5. Set the Realm of calleeContext to calleeRealm.
            realm: data.realm,
            is_strict_mode: data.strict,
            // 7. Let localEnv be NewFunctionEnvironment(F, newTarget).
            // 8. Set the LexicalEnvironment of calleeContext to localEnv.
            // 9. Set the VariableEnvironment of calleeContext to localEnv.
            local_environment,
        }
    }

    /// ### [10.2.1.4 OrdinaryCallEvaluateBody ( F, argumentsList )](https://tc39.es/ecma262/#sec-ordinarycallevaluatebody)
    ///
    /// EvaluateBody of F.\[\[ECMAScriptCode]]: which body evaluation the
    /// engine runs, by whether the code is a generator and async.
    pub fn evaluate_body(self, heap: &ECMAScriptFunctionHeap) -> (r: FunctionBodyKind)
        requires
            heap.contains(self),
        ensures
            r == spec_body_kind(heap.data(self).ecmascript_function.is_generator, heap.data(self).ecmascript_function.is_async),
    {
        let data = &heap.functions[self.0 as usize].ecmascript_function;
        match (data.is_generator, data.is_async) {
            // AsyncFunctionBody : FunctionBody
            // 1. Return ? EvaluateAsyncFunctionBody of AsyncFunctionBody with arguments functionObject and argumentsList.
            (false, true) => FunctionBodyKind::Async,
            // FunctionBody : FunctionStatementList
            // 1. Return ? EvaluateFunctionBody of FunctionBody with arguments functionObject and argumentsList.
            (false, false) => FunctionBodyKind::Function,
            // GeneratorBody : FunctionBody
            // 1. Return ? EvaluateGeneratorBody of GeneratorBody with arguments functionObject and argumentsList.
            (true, false) => FunctionBodyKind::Generator,
            // AsyncGeneratorBody : FunctionBody
            // 1. Return ? EvaluateAsyncGeneratorBody of AsyncGeneratorBody with arguments functionObject and argumentsList.
            (true, true) => FunctionBodyKind::AsyncGenerator,
        }
    }
}

/// How \[\[Construct]] of an ECMAScript function starts.
#[derive(Debug, Clone, Copy, PartialEq, Eq, Structural)]
pub enum ConstructStart {
    /// A base constructor: `? OrdinaryCreateFromConstructor(newTarget,
    /// "%Object.prototype%")` makes the this argument, which goes to
    /// [`ECMAScriptFunction::function_construct_bind_this`].
    CreateThis { new_target: Value },
    /// A derived constructor: the body runs with no this binding yet.
    Derived,
}

impl ECMAScriptFunction {
    /// ### [10.2.1 \[\[Call\]\] ( thisArgument, argumentsList )](https://tc39.es/ecma262/#sec-call), steps 4 and 5
    ///
    /// A class constructor cannot be called: a TypeError. Otherwise the
    /// this binding that OrdinaryCallBindThis makes for the this argument;
    /// the body then runs with it.
    pub fn function_call(self, heap: &ECMAScriptFunctionHeap, this_argument: Value) -> (r: Result<ThisBinding, JsError>)
        requires
            heap.contains(self),
        ensures
            ({
                let f = heap.data(self).ecmascript_function;
                &&& (f.constructor_status is BaseClass || f.constructor_status is DerivedClass)
                    ==> r == Err::<ThisBinding, JsError>(JsError::Exception(ExceptionType::TypeError))
                &&& !(f.constructor_status is BaseClass || f.constructor_status is DerivedClass)
                    ==> r == Ok::<ThisBinding, JsError>(spec_bind_this(f.this_mode, this_argument))
            }),
    {
        // 4. If F.[[IsClassConstructor]] is true, then
        //    a. Let error be a newly created TypeError object.
        //    d. Return ThrowCompletion(error).
        self.function_call_check(heap)?;
        // 5. Perform OrdinaryCallBindThis(F, calleeContext, thisArgument).
        Ok(ordinary_call_bind_this(self.get_this_mode(heap), this_argument))
    }

    /// ### [10.2.2 \[\[Construct\]\] ( argumentsList, newTarget )](https://tc39.es/ecma262/#sec-ecmascript-function-objects-construct-argumentslist-newtarget), steps 2 and 3
    ///
    /// A base constructor first makes its this argument from NewTarget; a
    /// derived one does not.
    pub fn function_construct(self, heap: &ECMAScriptFunctionHeap, new_target: Value) -> (r: ConstructStart)
        requires
            heap.contains(self),
        ensures
            heap.data(self).ecmascript_function.constructor_status is DerivedClass ==> r == ConstructStart::Derived,
            !(heap.data(self).ecmascript_function.constructor_status is DerivedClass) ==> r == (ConstructStart::CreateThis { new_target }),
    {
        // 2. Let kind be F.[[ConstructorKind]].
        // 3. If kind is BASE, then
        if !heap.functions[self.0 as usize].ecmascript_function.constructor_status.is_derived_class() {
            // a. Let thisArgument be ? OrdinaryCreateFromConstructor(newTarget, "%Object.prototype%").
            ConstructStart::CreateThis { new_target }
        } else {
            ConstructStart::Derived
        }
    }

    /// \[\[Construct]] of a base constructor, steps 3.a and 6.a:
    /// `this_argument` is the outcome of OrdinaryCreateFromConstructor; an
    /// error is thrown, and otherwise the this argument is bound as
    /// OrdinaryCallBindThis binds it. The outcome of the body then goes to
    /// [`ordinary_construct_result`].
    pub fn function_construct_bind_this(self, heap: &ECMAScriptFunctionHeap, this_argument: Result<Value, JsError>) -> (r: Result<ThisBinding, JsError>)
        requires
            heap.contains(self),
        ensures
            this_argument matches Err(e) ==> r == Err::<ThisBinding, JsError>(e),
            this_argument matches Ok(t) ==> r == Ok::<ThisBinding, JsError>(spec_bind_this(heap.data(self).ecmascript_function.this_mode, t)),
    {
        let this_argument = this_argument?;
        // 6. If kind is base, then
        //    a. Perform OrdinaryCallBindThis(F, calleeContext, thisArgument).
        Ok(ordinary_call_bind_this(self.get_this_mode(heap), this_argument))
    }
}

/// ### [10.2.2 \[\[Construct\]\] ( argumentsList, newTarget )](https://tc39.es/ecma262/#sec-ecmascript-function-objects-construct-argumentslist-newtarget), steps 10 to 14
///
/// What a construct call returns once the body ran with `result`: an abrupt
/// completion is passed on; an Object result is returned; a base
/// constructor returns its this argument; a derived one throws a TypeError
/// for a result other than undefined, and returns its this binding (the
/// outcome of GetThisBinding) otherwise.
pub fn ordinary_construct_result(
    is_base: bool,
    result: Result<Value, JsError>,
    this_argument: Value,
    this_binding: Result<Value, JsError>,
) -> (r: Result<Value, JsError>)
    ensures
        result matches Err(e) ==> r == Err::<Value, JsError>(e),
        result is Ok && result->Ok_0.spec_is_object() ==> r == result,
        result is Ok && !result->Ok_0.spec_is_object() && is_base ==> r == Ok::<Value, JsError>(this_argument),
        result is Ok && !result->Ok_0.spec_is_object() && !is_base && !(result->Ok_0 is Undefined)
            ==> r == Err::<Value, JsError>(JsError::Exception(ExceptionType::TypeError)),
        result is Ok && !is_base && result->Ok_0 is Undefined ==> r == this_binding,
{
    // 11. Else, ReturnIfAbrupt(result).
    let value = result?;
    // 10.a. If result.[[Value]] is an Object, return result.[[Value]].
    if value.is_object() {
        Ok(value)
    } else if is_base {
        // b. If kind is base, return thisArgument.
        Ok(this_argument)
    } else if !value.is_undefined() {
        // c. If result.[[Value]] is not undefined, throw a TypeError exception.
        Err(JsError::Exception(ExceptionType::TypeError))
    } else {
        // 12. Let thisBinding be ? constructorEnv.GetThisBinding().
        // 14. Return thisBinding.
        this_binding
    }
}

/// \[\[ThisMode]] of a function made by OrdinaryFunctionCreate: LEXICAL for
/// an arrow function, else STRICT for strict code and GLOBAL otherwise.
pub fn ordinary_function_this_mode(lexical_this: bool, strict: bool) -> (r: ThisMode)
    ensures
        lexical_this ==> r == ThisMode::Lexical,
        !lexical_this && strict ==> r == ThisMode::Strict,
        !lexical_this && !strict ==> r == ThisMode::Global,
{
    // 9. If thisMode is LEXICAL-THIS, set F.[[ThisMode]] to LEXICAL.
    if lexical_this {
        ThisMode::Lexical
    } else if strict {
        // 10. Else if Strict is true, set F.[[ThisMode]] to STRICT.
        ThisMode::Strict
    } else {
        // 11. Else, set F.[[ThisMode]] to GLOBAL.
        ThisMode::Global
    }
}

/// The number of leading parameters without an initializer.
pub open spec fn spec_expected_arguments_count(has_initializer: Seq<bool>) -> nat
    decreases has_initializer.len(),
{
    if has_initializer.len() == 0 || has_initializer[0] {
        0
    } else {
        1 + spec_expected_arguments_count(has_initializer.subrange(1, has_initializer.len() as int))
    }
}

/// ### [15.1.5 Static Semantics: ExpectedArgumentCount](https://tc39.es/ecma262/#sec-static-semantics-expectedargumentcount)
///
/// The number of parameters before the first that has an initializer (or
/// all of them); `has_initializer` tells, for each formal parameter in
/// order, whether it has one.
pub fn expected_arguments_count(has_initializer: &[bool]) -> (r: usize)
    ensures
        r == spec_expected_arguments_count(has_initializer@),
{
    let mut count: usize = 0;
    let ghost s = has_initializer@;
    assert(s.subrange(0, s.len() as int) =~= s);
    while count < has_initializer.len() && !has_initializer[count]
        invariant
            count <= s.len(),
            s == has_initializer@,
            spec_expected_arguments_count(s) == count + spec_expected_arguments_count(s.subrange(count as int, s.len() as int)),
        decreases s.len() - count,
    {
        proof {
            let rest = s.subrange(count as int, s.len() as int);
            assert(rest.subrange(1, rest.len() as int) =~= s.subrange(count + 1, s.len() as int));
        }
        count = count + 1;
    }
    proof {
        let rest = s.subrange(count as int, s.len() as int);
        assert(rest.len() == 0 || rest[0]);
    }
    count
}

/// ### [10.2.10 SetFunctionLength ( F, length )](https://tc39.es/ecma262/#sec-setfunctionlength)
///
/// The "length" is kept in a byte: more than 255 parameters is a
/// SyntaxError.
pub fn set_ecmascript_function_length(function: &mut ECMAScriptFunctionHeapData, length: usize) -> (r: Result<(), JsError>)
    ensures
        length > 255 ==> r == Err::<(), JsError>(JsError::Exception(ExceptionType::SyntaxError)) && *final(function) == *old(function),
        length <= 255 ==> r is Ok && *final(function) == (ECMAScriptFunctionHeapData { length: length as u8, ..*old(function) }),
{
    if length > 255 {
        return Err(JsError::Exception(ExceptionType::SyntaxError));
    }
    // 2. Perform ! DefinePropertyOrThrow(F, "length", PropertyDescriptor { [[Value]]: 𝔽(length),
    //    [[Writable]]: false, [[Enumerable]]: false, [[Configurable]]: true }).
    function.length = length as u8;
    // 3. Return unused.
    Ok(())
}

/// What OrdinaryFunctionCreate is given, besides the realm state: the
/// engine's records (environment, source) by handle, and of the parsed
/// function what it reads.
#[derive(Debug)]
pub struct OrdinaryFunctionCreateParams {
    /// functionPrototype; `None` for the realm's %Function.prototype%.
    pub function_prototype: Option<u32>,
    /// The source code that the function comes from; `None` for the one
    /// being evaluated.
    pub source_code: Option<u32>,
    /// Whether the body has a "use strict" directive.
    pub has_use_strict_directive: bool,
    /// thisMode is LEXICAL-THIS.
    pub lexical_this: bool,
    /// env
    pub env: u32,
    pub is_async: bool,
    pub is_generator: bool,
    /// For each formal parameter in order, whether it has an initializer.
    pub has_initializer: Vec<bool>,
}

/// ### [10.2.3 OrdinaryFunctionCreate ( functionPrototype, sourceText, ParameterList, Body, thisMode, env, privateEnv )](https://tc39.es/ecma262/#sec-ordinaryfunctioncreate)
///
/// The function is strict where the code being evaluated is (for a
/// function of the current source) or the body says so. It is not a
/// constructor, lives in the current realm, has no home object and no name,
/// and its "length" is the ExpectedArgumentCount of its parameters. A
/// prototype other than the realm's %Function.prototype% is returned for
/// the engine to make the function's backing object with.
pub fn ordinary_function_create(
    heap: &mut ECMAScriptFunctionHeap,
    params: &OrdinaryFunctionCreateParams,
    current_realm: u32,
    evaluating_strict_code: bool,
    realm_function_prototype: u32,
) -> (r: (ECMAScriptFunction, Option<u32>))
    requires
        old(heap).functions@.len() < u32::MAX,
        spec_expected_arguments_count(params.has_initializer@) <= 255,
    ensures
        r.0.0 == old(heap).functions@.len(),
        ({
            let strict = (params.source_code is None && evaluating_strict_code) || params.has_use_strict_directive;
            final(heap).functions@ == old(heap).functions@.push(ECMAScriptFunctionHeapData {
                object_index: None,
                length: spec_expected_arguments_count(params.has_initializer@) as u8,
                ecmascript_function: ECMAScriptFunctionObjectHeapData {
                    environment: params.env,
                    constructor_status: ConstructorStatus::NonConstructor,
                    realm: current_realm,
                    this_mode: if params.lexical_this { ThisMode::Lexical } else if strict { ThisMode::Strict } else { ThisMode::Global },
                    strict,
                    home_object: None,
                    is_async: params.is_async,
                    is_generator: params.is_generator,
                },
                compiled_bytecode: None,
                name: None,
            })
        }),
        r.1 == (if params.function_prototype is Some && params.function_prototype->Some_0 != realm_function_prototype {
            params.function_prototype
        } else {
            None::<u32>
        }),
{
    let outer_env_is_strict = match params.source_code {
        Some(_) => false,
        None => evaluating_strict_code,
    };
    // 7. If the source text matched by Body is strict mode code, let Strict be
    //    true; else let Strict be false.
    let strict = outer_env_is_strict || params.has_use_strict_directive;
    // 1. Let internalSlotsList be the internal slots listed in Table 30.
    // 2. Let F be OrdinaryObjectCreate(functionPrototype, internalSlotsList).
    // 3. Set F.[[Call]] to the definition specified in 10.2.1.
    let ecmascript_function = ECMAScriptFunctionObjectHeapData {
        // 13. Set F.[[Environment]] to env.
        environment: params.env,
        // 12. Set F.[[IsClassConstructor]] to false.
        constructor_status: ConstructorStatus::NonConstructor,
        // 16. Set F.[[Realm]] to the current Realm Record.
        realm: current_realm,
        // 9. If thisMode is LEXICAL-THIS, set F.[[ThisMode]] to LEXICAL.
        // 10. Else if Strict is true, set F.[[ThisMode]] to STRICT.
        // 11. Else, set F.[[ThisMode]] to GLOBAL.
        this_mode: ordinary_function_this_mode(params.lexical_this, strict),
        // 8. Set F.[[Strict]] to Strict.
        strict,
        // 17. Set F.[[HomeObject]] to undefined.
        home_object: None,
        is_async: params.is_async,
        is_generator: params.is_generator,
    };
    let mut function = ECMAScriptFunctionHeapData {
        object_index: None,
        length: 0,
        ecmascript_function,
        compiled_bytecode: None,
        name: None,
    };
    let backing_prototype = match params.function_prototype {
        Some(p) => if p != realm_function_prototype { Some(p) } else { None },
        None => None,
    };
    // 21. Let len be the ExpectedArgumentCount of ParameterList.
    let len = expected_arguments_count(params.has_initializer.as_slice());
    // 22. Perform SetFunctionLength(F, len).
    let set = set_ecmascript_function_length(&mut function, len);
    assert(set is Ok);
    // 23. Return F.
    let f = heap.create(function);
    (f, backing_prototype)
}

/// The prefix of SetFunctionName.
#[derive(Debug, Clone, Copy, PartialEq, Eq, Structural)]
pub enum SetFunctionNamePrefix {
    /// "get "
    Getter,
    /// "set "
    Setter,
    /// "bound "
    Bound,
}

impl SetFunctionNamePrefix {
    /// The text that goes before the name, with its trailing space.
    pub fn into_str(self) -> (r: &'static str)
        ensures
            r@ == (match self {
                SetFunctionNamePrefix::Getter => "get "@,
                SetFunctionNamePrefix::Setter => "set "@,
                SetFunctionNamePrefix::Bound => "bound "@,
            }),
    {
        match self {
            SetFunctionNamePrefix::Getter => "get ",
            SetFunctionNamePrefix::Setter => "set ",
            SetFunctionNamePrefix::Bound => "bound ",
        }
    }
}

/// The text of an optional prefix: empty where there is none.
pub fn prefix_into_str(prefix: Option<SetFunctionNamePrefix>) -> (r: &'static str)
    ensures
        prefix matches Some(p) ==> r@ == (match p {
            SetFunctionNamePrefix::Getter => "get "@,
            SetFunctionNamePrefix::Setter => "set "@,
            SetFunctionNamePrefix::Bound => "bound "@,
        }),
        prefix is None ==> r@ == ""@,
{
    match prefix {
        Some(p) => p.into_str(),
        None => "",
    }
}

/// The property key (or Private Name) that a function is named by;
/// strings are held by handle.
#[derive(Debug, Clone, Copy, PartialEq, Eq, Structural)]
pub enum FunctionNameKey {
    Symbol { description: Option<u32> },
    Integer(i64),
    String(u32),
    PrivateName { description: u32 },
}

/// The name that SetFunctionName gives a function, as the concatenation
/// that the engine turns into a String.
#[derive(Debug, Clone, Copy, PartialEq, Eq, Structural)]
pub enum FunctionName {
    /// The empty String.
    Empty,
    /// The prefix (where present), "[", the description and "]".
    SymbolDescription { prefix: Option<SetFunctionNamePrefix>, description: u32 },
    /// The prefix (where present) and the decimal digits of the integer.
    Integer { prefix: Option<SetFunctionNamePrefix>, value: i64 },
    /// The prefix (where present) and the string.
    String { prefix: Option<SetFunctionNamePrefix>, name: u32 },
    /// A Private Name's description, without prefix.
    PrivateName(u32),
}

/// ### [10.2.9 SetFunctionName ( F, name \[ , prefix \] )](https://tc39.es/ecma262/#sec-setfunctionname), steps 2 to 5
///
/// A Symbol gives its description in brackets, or the empty String where it
/// has none; a Private Name its description; the prefix goes before the
/// others.
pub fn function_name_of(key: FunctionNameKey, prefix: Option<SetFunctionNamePrefix>) -> (r: FunctionName)
    ensures
        r == (match key {
            FunctionNameKey::Symbol { description: None } => FunctionName::Empty,
            FunctionNameKey::Symbol { description: Some(d) } => FunctionName::SymbolDescription { prefix, description: d },
            FunctionNameKey::Integer(value) => FunctionName::Integer { prefix, value },
            FunctionNameKey::String(name) => FunctionName::String { prefix, name },
            FunctionNameKey::PrivateName { description } => FunctionName::PrivateName(description),
        }),
{
    match key {
        // 2. If name is a Symbol, then
        //    a. Let description be name's [[Description]] value.
        //    b. If description is undefined, set name to the empty String.
        //    c. Else, set name to the string-concatenation of "[", description, and "]".
        FunctionNameKey::Symbol { description } => match description {
            None => FunctionName::Empty,
            Some(d) => FunctionName::SymbolDescription { prefix, description: d },
        },
        FunctionNameKey::Integer(value) => FunctionName::Integer { prefix, value },
        // 5. If prefix is present, then
        //    a. Set name to the string-concatenation of prefix, the code unit
        //       0x0020 (SPACE), and name.
        FunctionNameKey::String(name) => FunctionName::String { prefix, name },
        // 3. Else if name is a Private Name, then
        //    a. Set name to name.[[Description]].
        FunctionNameKey::PrivateName { description } => FunctionName::PrivateName(description),
    }
}

/// SetFunctionName, steps 1, 6 and 7, for an ECMAScript function: it must
/// have no name yet, and gets `name` (the String the engine made of the
/// [`FunctionName`]).
pub fn set_function_name(heap: &mut ECMAScriptFunctionHeap, f: ECMAScriptFunction, name: u32)
    requires
        old(heap).contains(f),
        old(heap).data(f).name is None,
    ensures
        final(heap).functions@ == old(heap).functions@.update(f.0 as int, ECMAScriptFunctionHeapData {
            name: Some(name),
            ..old(heap).data(f)
        }),
{
    let i = f.0 as usize;
    let mut data = heap.functions[i];
    // 6. Perform ! DefinePropertyOrThrow(F, "name", PropertyDescriptor { [[Value]]: name,
    //    [[Writable]]: false, [[Enumerable]]: false, [[Configurable]]: true }).
    data.name = Some(name);
    heap.functions.set(i, data);
    // 7. Return UNUSED.
}

/// ### [10.2.5 MakeConstructor ( F \[ , writablePrototype \[ , prototype \] \] )](https://tc39.es/ecma262/#sec-makeconstructor), for an ECMAScript function
///
/// The function becomes a base constructor. The returned flag is the
/// \[\[Writable]] of its "prototype" property (and of that prototype's
/// "constructor"): `writable_prototype`, true where it is absent.
pub fn make_constructor(heap: &mut ECMAScriptFunctionHeap, f: ECMAScriptFunction, writable_prototype: Option<bool>) -> (r: bool)
    requires
        old(heap).contains(f),
    ensures
        r == (if writable_prototype is Some { writable_prototype->Some_0 } else { true }),
        final(heap).functions@ == old(heap).functions@.update(f.0 as int, ECMAScriptFunctionHeapData {
            ecmascript_function: ECMAScriptFunctionObjectHeapData {
                constructor_status: ConstructorStatus::ConstructorFunction,
                ..old(heap).data(f).ecmascript_function
            },
            ..old(heap).data(f)
        }),
{
    // 4. If writablePrototype is not present, set writablePrototype to true.
    let writable_prototype = match writable_prototype {
        Some(w) => w,
        None => true,
    };
    let i = f.0 as usize;
    let mut data = heap.functions[i];
    // 1.c. Set F.[[Construct]] to the definition specified in 10.2.2.
    // 3. Set F.[[ConstructorKind]] to BASE.
    data.ecmascript_function.constructor_status = ConstructorStatus::ConstructorFunction;
    heap.functions.set(i, data);
    writable_prototype
}

/// ### [10.2.7 MakeMethod ( F, homeObject )](https://tc39.es/ecma262/#sec-makemethod)
pub fn make_method(heap: &mut ECMAScriptFunctionHeap, f: ECMAScriptFunction, home_object: u32)
    requires
        old(heap).contains(f),
    ensures
        final(heap).functions@ == old(heap).functions@.update(f.0 as int, ECMAScriptFunctionHeapData {
            ecmascript_function: ECMAScriptFunctionObjectHeapData {
                home_object: Some(home_object),
                ..old(heap).data(f).ecmascript_function
            },
            ..old(heap).data(f)
        }),
{
    let i = f.0 as usize;
    let mut data = heap.functions[i];
    // 2. Set F.[[HomeObject]] to homeObject.
    data.ecmascript_function.home_object = Some(home_object);
    heap.functions.set(i, data);
    // 3. Return unused.
}

/// How a built-in function behaves: as a plain function, or as a
/// constructor that can also see NewTarget. The native code is named by
/// an identifier.
#[derive(Debug, Clone, Copy, PartialEq, Eq, Structural)]
pub enum Behaviour {
    Regular(u32),
    Constructor(u32),
}

impl Behaviour {
    pub fn is_constructor(&self) -> (r: bool)
        ensures
            r == (*self is Constructor),
    {
        matches!(self, Behaviour::Constructor(_))
    }
}

/// A built-in function's static description: its name, "length" and
/// behaviour.
pub trait Builtin {
    /// The function's name, by string handle.
    fn name() -> u32;
    /// Its "length".
    fn length() -> u8;
    /// Its behaviour.
    fn behaviour() -> Behaviour;
}

/// A built-in that is installed as a getter.
pub trait BuiltinGetter: Builtin {}

/// The arguments of [`create_builtin_function`]. Strings are held by handle.
#[derive(Debug, Clone, Copy, PartialEq, Eq, Structural)]
pub struct BuiltinFunctionArgs {
    pub length: u32,
    pub name: u32,
    pub realm: Option<u32>,
    pub prototype: Option<u32>,
    pub prefix: Option<u32>,
}

impl BuiltinFunctionArgs {
    pub fn new(length: u32, name: u32, realm: u32) -> (r: Self)
        ensures
            r == (BuiltinFunctionArgs { length, name, realm: Some(realm), prototype: None, prefix: None }),
    {
        BuiltinFunctionArgs { length, name, realm: Some(realm), prototype: None, prefix: None }
    }
}

/// A function's initial name: the name, or a prefix, a space and the name.
#[derive(Debug, Clone, Copy, PartialEq, Eq, Structural)]
pub enum InitialName {
    Plain(u32),
    Prefixed { prefix: u32, name: u32 },
}

/// The backing object that a built-in function with a non-default prototype
/// gets: that prototype, and the function's "length" and "name" as data
/// properties that are neither writable nor enumerable but configurable.
#[derive(Debug, Clone, Copy, PartialEq, Eq, Structural)]
pub struct FunctionBackingObject {
    pub prototype: u32,
    pub length: u32,
    pub name: InitialName,
}

/// The heap data of a built-in function.
#[derive(Debug, Clone, Copy, PartialEq, Eq, Structural)]
pub struct BuiltinFunctionHeapData {
    pub behaviour: Behaviour,
    pub initial_name: Option<InitialName>,
    pub length: u8,
    pub realm: u32,
    /// Index of the backing object in [`BuiltinFunctionHeap::backing_objects`].
    pub object_index: Option<u32>,
}

/// The arena of built-in functions, with their backing objects.
pub struct BuiltinFunctionHeap {
    pub functions: Vec<BuiltinFunctionHeapData>,
    pub backing_objects: Vec<FunctionBackingObject>,
}

/// A handle to a built-in function.
#[derive(Debug, Clone, Copy, PartialEq, Eq, Structural)]
pub struct BuiltinFunction(pub u32);

impl BuiltinFunctionHeap {
    pub open spec fn contains(&self, f: BuiltinFunction) -> bool {
        f.0 < self.functions@.len()
    }

    pub open spec fn data(&self, f: BuiltinFunction) -> BuiltinFunctionHeapData {
        self.functions@[f.0 as int]
    }

    pub fn new() -> (r: Self)
        ensures
            r.functions@.len() == 0,
            r.backing_objects@.len() == 0,
    {
        BuiltinFunctionHeap { functions: Vec::new(), backing_objects: Vec::new() }
    }
}

/// The initial name of a built-in made with `args`.
pub open spec fn spec_initial_name(args: BuiltinFunctionArgs) -> InitialName {
    match args.prefix {
        Some(prefix) => InitialName::Prefixed { prefix, name: args.name },
        None => InitialName::Plain(args.name),
    }
}

/// ### [10.3.4 CreateBuiltinFunction ( behaviour, length, name, additionalInternalSlotsList \[ , realm \[ , prototype \[ , prefix \] \] \] )](https://tc39.es/ecma262/#sec-createbuiltinfunction)
///
/// The function gets its realm (the current one where none is given), its
/// initial name (the prefix, a space and the name where a prefix is given),
/// and its length truncated to a byte. A prototype other than the realm's
/// %Function.prototype% gives it a backing object with that prototype.
pub fn create_builtin_function(
    heap: &mut BuiltinFunctionHeap,
    behaviour: Behaviour,
    args: BuiltinFunctionArgs,
    current_realm: u32,
    realm_function_prototype: u32,
) -> (r: BuiltinFunction)
    requires
        old(heap).functions@.len() < u32::MAX,
        old(heap).backing_objects@.len() < u32::MAX,
    ensures
        r.0 == old(heap).functions@.len(),
        ({
            let realm = if args.realm is Some { args.realm->Some_0 } else { current_realm };
            let own_prototype = args.prototype is Some && args.prototype->Some_0 != realm_function_prototype;
            &&& final(heap).functions@ == old(heap).functions@.push(BuiltinFunctionHeapData {
                behaviour,
                initial_name: Some(spec_initial_name(args)),
                length: args.length as u8,
                realm,
                object_index: if own_prototype { Some(old(heap).backing_objects@.len() as u32) } else { None },
            })
            &&& final(heap).backing_objects@ == if own_prototype {
                old(heap).backing_objects@.push(FunctionBackingObject {
                    prototype: args.prototype->Some_0,
                    length: args.length,
                    name: spec_initial_name(args),
                })
            } else {
                old(heap).backing_objects@
            }
        }),
{
    // 4. If realm is not present, set realm to the current Realm Record.
    let realm = match args.realm {
        Some(realm) => realm,
        None => current_realm,
    };
    // 11. If prefix is not present, then
    //     a. Perform SetFunctionName(func, name).
    // 12. Else,
    //     a. Perform SetFunctionName(func, name, prefix).
    let initial_name = match args.prefix {
        Some(prefix) => InitialName::Prefixed { prefix, name: args.name },
        None => InitialName::Plain(args.name),
    };
    // 5. If prototype is not present, set prototype to realm.[[Intrinsics]].[[%Function.prototype%]].
    let object_index = match args.prototype {
        Some(prototype) => {
            if prototype == realm_function_prototype {
                None
            } else {
                let index = heap.backing_objects.len() as u32;
                // 10. Perform SetFunctionLength(func, length).
                heap.backing_objects.push(FunctionBackingObject { prototype, length: args.length, name: initial_name });
                Some(index)
            }
        },
        None => None,
    };
    let index = heap.functions.len() as u32;
    heap.functions.push(BuiltinFunctionHeapData {
        behaviour,
        initial_name: Some(initial_name),
        length: args.length as u8,
        realm,
        object_index,
    });
    // 13. Return func.
    BuiltinFunction(index)
}

impl BuiltinFunction {
    pub fn get_index(self) -> (r: usize)
        ensures
            r == self.0,
    {
        self.0 as usize
    }

    /// A builtin function has the \[\[Construct]] method if its behaviour is
    /// a constructor behaviour.
    pub fn is_constructor(self, heap: &BuiltinFunctionHeap) -> (r: bool)
        requires
            heap.contains(self),
        ensures
            r == (heap.data(self).behaviour is Constructor),
    {
        heap.functions[self.0 as usize].behaviour.is_constructor()
    }

    /// The function's "length".
    pub fn get_length(self, heap: &BuiltinFunctionHeap) -> (r: u8)
        requires
            heap.contains(self),
        ensures
            r == heap.data(self).length,
    {
        heap.functions[self.0 as usize].length
    }

    /// The function's initial name; `None` for the empty string.
    pub fn get_name(self, heap: &BuiltinFunctionHeap) -> (r: Option<InitialName>)
        requires
            heap.contains(self),
        ensures
            r == heap.data(self).initial_name,
    {
        heap.functions[self.0 as usize].initial_name
    }

    /// Roots the function in `roots` so that it outlives garbage collection;
    /// the returned handle finds it again.
    pub fn scope(self, roots: &mut ScopedRoots) -> (r: Scoped)
        requires
            old(roots).functions@.len() < usize::MAX,
        ensures
            final(roots).functions@ == old(roots).functions@.push(self),
            r.index == old(roots).functions@.len(),
    {
        let index = roots.functions.len();
        roots.functions.push(self);
        Scoped { index }
    }
}

/// The builtin functions rooted on the engine's scope stack, in the order in
/// which they were scoped.
pub struct ScopedRoots {
    pub functions: Vec<BuiltinFunction>,
}

/// A handle to a rooted builtin function: its place on the scope stack.
#[derive(Debug, Clone, Copy, PartialEq, Eq, Structural)]
pub struct Scoped {
    pub index: usize,
}

impl Scoped {
    /// The function that this handle roots.
    pub fn get(self, roots: &ScopedRoots) -> (r: BuiltinFunction)
        requires
            self.index < roots.functions@.len(),
        ensures
            r == roots.functions@[self.index as int],
    {
        roots.functions[self.index]
    }
}

/// What is scoped is found again: the handle that `scope` returns gives back
/// the function that was scoped.
pub proof fn lemma_scope_then_get(before: Seq<BuiltinFunction>, f: BuiltinFunction, after: Seq<BuiltinFunction>, index: usize)
    requires
        after == before.push(f),
        index == before.len(),
    ensures
        index < after.len(),
        after[index as int] == f,
{
}

/// How the engine runs a built-in's native code.
#[derive(Debug, Clone, Copy, PartialEq, Eq, Structural)]
pub enum BuiltinInvocation {
    /// Call the regular native code with this this value, in this realm.
    Regular { code: u32, this_value: Value, realm: u32 },
    /// Call the constructor native code with this this value and NewTarget.
    Constructor { code: u32, this_value: Value, new_target: Option<u32>, realm: u32 },
}

/// ### [10.3.3 BuiltinCallOrConstruct ( F, thisArgument, argumentsList, newTarget )](https://tc39.es/ecma262/#sec-builtincallorconstruct)
///
/// The native code runs in the function's realm with the this argument
/// (undefined when constructing). A regular function that is constructed
/// throws a TypeError.
pub fn builtin_call_or_construct(
    heap: &BuiltinFunctionHeap,
    f: BuiltinFunction,
    this_argument: Option<Value>,
    new_target: Option<u32>,
) -> (r: Result<BuiltinInvocation, JsError>)
    requires
        heap.contains(f),
    ensures
        ({
            let data = heap.data(f);
            let this_value = if this_argument is Some { this_argument->Some_0 } else { Value::Undefined };
            match data.behaviour {
                Behaviour::Regular(code) => if new_target is Some {
                    r == Err::<BuiltinInvocation, JsError>(JsError::Exception(ExceptionType::TypeError))
                } else {
                    r == Ok::<BuiltinInvocation, JsError>(BuiltinInvocation::Regular { code, this_value, realm: data.realm })
                },
                Behaviour::Constructor(code) => r == Ok::<BuiltinInvocation, JsError>(BuiltinInvocation::Constructor {
                    code,
                    this_value,
                    new_target,
                    realm: data.realm,
                }),
            }
        }),
{
    let heap_data = &heap.functions[f.0 as usize];
    // 5. Let calleeRealm be F.[[Realm]].
    let callee_realm = heap_data.realm;
    let this_value = match this_argument {
        Some(t) => t,
        None => Value::Undefined,
    };
    // 10. Let result be the Completion Record that is the result of evaluating F in a
    //     manner that conforms to the specification of F.
    match heap_data.behaviour {
        Behaviour::Regular(code) => {
            if new_target.is_some() {
                // A function that is not a constructor is constructed.
                Err(JsError::Exception(ExceptionType::TypeError))
            } else {
                Ok(BuiltinInvocation::Regular { code, this_value, realm: callee_realm })
            }
        },
        Behaviour::Constructor(code) => Ok(BuiltinInvocation::Constructor { code, this_value, new_target, realm: callee_realm }),
    }
}

/// A built-in class constructor.
#[derive(Debug, Clone, Copy, PartialEq, Eq, Structural)]
pub struct BuiltinConstructorFunction(pub u32);

/// The arguments of [`create_builtin_constructor`]; engine records and
/// strings are held by handle.
#[derive(Debug, Clone, Copy, PartialEq, Eq, Structural)]
pub struct BuiltinConstructorArgs {
    pub is_derived: bool,
    pub class_name: u32,
    /// The constructor's \[\[Prototype]].
    pub prototype: Option<u32>,
    /// The value of its "prototype" property.
    pub prototype_property: u32,
    pub compiled_initializer_bytecode: Option<u32>,
    pub env: u32,
    pub source_code: u32,
}

/// The backing object of a class constructor: its prototype, and its own
/// "length" (0) and "name" (neither writable nor enumerable, but
/// configurable) and "prototype" (neither writable, enumerable nor
/// configurable).
#[derive(Debug, Clone, Copy, PartialEq, Eq, Structural)]
pub struct ConstructorBackingObject {
    pub prototype: Option<u32>,
    pub name: u32,
    pub prototype_property: u32,
}

/// The heap data of a built-in class constructor.
#[derive(Debug, Clone, Copy, PartialEq, Eq, Structural)]
pub struct BuiltinConstructorRecord {
    pub realm: u32,
    pub compiled_initializer_bytecode: Option<u32>,
    pub is_derived: bool,
    /// Index of the backing object in [`BuiltinConstructorHeap::backing_objects`].
    pub backing_object: Option<u32>,
    pub environment: u32,
    pub source_code: u32,
    pub class_name: u32,
}

/// The arena of built-in class constructors, with their backing objects.
pub struct BuiltinConstructorHeap {
    pub records: Vec<BuiltinConstructorRecord>,
    pub backing_objects: Vec<ConstructorBackingObject>,
}

impl BuiltinConstructorHeap {
    pub fn new() -> (r: Self)
        ensures
            r.records@.len() == 0,
            r.backing_objects@.len() == 0,
    {
        BuiltinConstructorHeap { records: Vec::new(), backing_objects: Vec::new() }
    }
}

/// [10.3.4 CreateBuiltinFunction](https://tc39.es/ecma262/#sec-createbuiltinfunction) for a class constructor
///
/// The constructor lives in the current realm; its backing object carries
/// the given prototype, "length" 0, its class name and its "prototype"
/// property.
pub fn create_builtin_constructor(heap: &mut BuiltinConstructorHeap, args: BuiltinConstructorArgs, current_realm: u32) -> (r: BuiltinConstructorFunction)
    requires
        old(heap).records@.len() < u32::MAX,
        old(heap).backing_objects@.len() < u32::MAX,
    ensures
        r.0 == old(heap).records@.len(),
        final(heap).backing_objects@ == old(heap).backing_objects@.push(ConstructorBackingObject {
            prototype: args.prototype,
            name: args.class_name,
            prototype_property: args.prototype_property,
        }),
        final(heap).records@ == old(heap).records@.push(BuiltinConstructorRecord {
            realm: current_realm,
            compiled_initializer_bytecode: args.compiled_initializer_bytecode,
            is_derived: args.is_derived,
            backing_object: Some(old(heap).backing_objects@.len() as u32),
            environment: args.env,
            source_code: args.source_code,
            class_name: args.class_name,
        }),
{
    // 1. If realm is not present, set realm to the current Realm Record.
    // 7. Set func.[[Extensible]] to true.
    let backing_object = heap.backing_objects.len() as u32;
    heap.backing_objects.push(ConstructorBackingObject {
        prototype: args.prototype,
        name: args.class_name,
        prototype_property: args.prototype_property,
    });
    let index = heap.records.len() as u32;
    heap.records.push(BuiltinConstructorRecord {
        // 8. Set func.[[Realm]] to realm.
        realm: current_realm,
        compiled_initializer_bytecode: args.compiled_initializer_bytecode,
        is_derived: args.is_derived,
        backing_object: Some(backing_object),
        environment: args.env,
        source_code: args.source_code,
        class_name: args.class_name,
    });
    // 13. Return func.
    BuiltinConstructorFunction(index)
}

impl BuiltinConstructorFunction {
    /// A built-in class constructor is a constructor.
    pub fn is_constructor(self) -> (r: bool)
        ensures
            r,
    {
        true
    }

    /// \[\[Call]]: class constructors must be invoked with `new`.
    pub fn function_call(self) -> (r: Result<Value, JsError>)
        ensures
            r == Err::<Value, JsError>(JsError::Exception(ExceptionType::TypeError)),
    {
        // ii. If NewTarget is undefined, throw a TypeError exception.
        Err(JsError::Exception(ExceptionType::TypeError))
    }
}

/// The heap data of a bound function exotic object.
pub struct BoundFunctionHeapData {
    pub object_index: Option<u32>,
    pub length: u8,
    /// \[\[BoundTargetFunction]]
    pub bound_target_function: Value,
    /// \[\[BoundThis]]
    pub bound_this: Value,
    /// \[\[BoundArguments]]
    pub bound_arguments: Vec<Value>,
    pub name: Option<u32>,
    /// \[\[Prototype]]
    pub prototype: Option<u32>,
    /// Whether the bound function has \[\[Construct]]: whether its target
    /// function is a constructor.
    pub target_is_constructor: bool,
}

/// The arena of bound functions.
pub struct BoundFunctionHeap {
    pub functions: Vec<BoundFunctionHeapData>,
}

/// A handle to a bound function.
#[derive(Debug, Clone, Copy, PartialEq, Eq, Structural)]
pub struct BoundFunction(pub u32);

impl BoundFunctionHeap {
    pub open spec fn contains(&self, f: BoundFunction) -> bool {
        f.0 < self.functions@.len()
    }

    pub fn new() -> (r: Self)
        ensures
            r.functions@.len() == 0,
    {
        BoundFunctionHeap { functions: Vec::new() }
    }
}

/// ### [10.4.1.3 BoundFunctionCreate ( targetFunction, boundThis, boundArgs )](https://tc39.es/ecma262/#sec-boundfunctioncreate)
///
/// `proto` is the outcome of targetFunction.\[\[GetPrototypeOf]](): an
/// error is thrown; otherwise the bound function gets that prototype, the
/// target, the bound this and a copy of the bound arguments, and
/// \[\[Construct]] where the target is a constructor
/// (`target_is_constructor` is IsConstructor(targetFunction)).
pub fn bound_function_create(
    heap: &mut BoundFunctionHeap,
    target_function: Value,
    target_is_constructor: bool,
    bound_this: Value,
    bound_args: &[Value],
    proto: Result<Option<u32>, JsError>,
) -> (r: Result<BoundFunction, JsError>)
    requires
        old(heap).functions@.len() < u32::MAX,
    ensures
        proto matches Err(e) ==> r == Err::<BoundFunction, JsError>(e) && final(heap).functions@ == old(heap).functions@,
        proto matches Ok(p) ==> {
            &&& r == Ok::<BoundFunction, JsError>(BoundFunction(old(heap).functions@.len() as u32))
            &&& final(heap).functions@.len() == old(heap).functions@.len() + 1
            &&& forall|i: int| 0 <= i < old(heap).functions@.len() ==> #[trigger] final(heap).functions@[i] == old(heap).functions@[i]
            &&& ({
                let data = final(heap).functions@[old(heap).functions@.len() as int];
                &&& data.object_index is None
                &&& data.length == 0
                &&& data.name is None
                &&& data.bound_target_function == target_function
                &&& data.bound_this == bound_this
                &&& data.bound_arguments@ == bound_args@
                &&& data.prototype == p
                &&& data.target_is_constructor == target_is_constructor
            })
        },
{
    // 1. Let proto be ? targetFunction.[[GetPrototypeOf]]().
    let proto = proto?;
    let mut elements: Vec<Value> = Vec::new();
    let mut i: usize = 0;
    while i < bound_args.len()
        invariant
            i <= bound_args@.len(),
            elements@ == bound_args@.subrange(0, i as int),
        decreases bound_args@.len() - i,
    {
        elements.push(bound_args[i]);
        i = i + 1;
    }
    assert(bound_args@.subrange(0, bound_args@.len() as int) =~= bound_args@);
    let index = heap.functions.len() as u32;
    // 4. Set obj.[[Prototype]] to proto.
    // 7. Set obj.[[BoundTargetFunction]] to targetFunction.
    // 8. Set obj.[[BoundThis]] to boundThis.
    // 9. Set obj.[[BoundArguments]] to boundArgs.
    heap.functions.push(BoundFunctionHeapData {
        object_index: None,
        length: 0,
        bound_target_function: target_function,
        bound_this,
        bound_arguments: elements,
        name: None,
        prototype: proto,
        // 6. If IsConstructor(targetFunction) is true, then
        //    a. Set obj.[[Construct]] as described in 10.4.1.2.
        target_is_constructor,
    });
    // 10. Return obj.
    Ok(BoundFunction(index))
}

/// A call that a bound function forwards to its target.
pub struct BoundCall {
    /// The target function.
    pub target: Value,
    /// The this value (for \[\[Call]]).
    pub this_value: Value,
    /// The bound arguments followed by the call's arguments.
    pub arguments: Vec<Value>,
    /// NewTarget (for \[\[Construct]]).
    pub new_target: Value,
}

/// `a` followed by `b`, copied.
fn concat_values(a: &Vec<Value>, b: &Vec<Value>) -> (r: Vec<Value>)
    ensures
        r@ == a@ + b@,
{
    let mut out: Vec<Value> = Vec::new();
    let mut i: usize = 0;
    while i < a.len()
        invariant
            i <= a@.len(),
            out@ == a@.subrange(0, i as int),
        decreases a@.len() - i,
    {
        out.push(a[i]);
        i = i + 1;
    }
    let mut j: usize = 0;
    while j < b.len()
        invariant
            j <= b@.len(),
            out@ == a@ + b@.subrange(0, j as int),
        decreases b@.len() - j,
    {
        out.push(b[j]);
        j = j + 1;
    }
    assert(a@.subrange(0, a@.len() as int) =~= a@);
    assert(b@.subrange(0, b@.len() as int) =~= b@);
    out
}

impl BoundFunction {
    pub open spec fn data(self, heap: &BoundFunctionHeap) -> &BoundFunctionHeapData {
        &heap.functions@[self.0 as int]
    }

    /// \[\[BoundTargetFunction]]
    pub fn bound_target_function(self, heap: &BoundFunctionHeap) -> (r: Value)
        requires
            heap.contains(self),
        ensures
            r == self.data(heap).bound_target_function,
    {
        heap.functions[self.0 as usize].bound_target_function
    }

    /// \[\[BoundThis]]
    pub fn bound_this(self, heap: &BoundFunctionHeap) -> (r: Value)
        requires
            heap.contains(self),
        ensures
            r == self.data(heap).bound_this,
    {
        heap.functions[self.0 as usize].bound_this
    }

    /// A bound function has \[\[Construct]] where its target function is a
    /// constructor.
    pub fn is_constructor(self, heap: &BoundFunctionHeap) -> (r: bool)
        requires
            heap.contains(self),
        ensures
            r == self.data(heap).target_is_constructor,
    {
        heap.functions[self.0 as usize].target_is_constructor
    }

    /// The "length".
    pub fn get_length(self, heap: &BoundFunctionHeap) -> (r: u8)
        requires
            heap.contains(self),
        ensures
            r == self.data(heap).length,
    {
        heap.functions[self.0 as usize].length
    }

    /// ### [10.4.1.1 \[\[Call\]\] ( thisArgument, argumentsList )](https://tc39.es/ecma262/#sec-bound-function-exotic-objects-call-thisargument-argumentslist)
    ///
    /// `Call(target, boundThis, boundArgs + argumentsList)`.
    pub fn function_call(self, heap: &BoundFunctionHeap, arguments_list: &ArgumentsList) -> (r: BoundCall)
        requires
            heap.contains(self),
        ensures
            r.target == self.data(heap).bound_target_function,
            r.this_value == self.data(heap).bound_this,
            r.arguments@ == self.data(heap).bound_arguments@ + arguments_list.values@,
            r.new_target == Value::Undefined,
    {
        let data = &heap.functions[self.0 as usize];
        // 1. Let target be F.[[BoundTargetFunction]].
        // 2. Let boundThis be F.[[BoundThis]].
        // 3. Let boundArgs be F.[[BoundArguments]].
        // 4. Let args be the list-concatenation of boundArgs and argumentsList.
        let args = concat_values(&data.bound_arguments, &arguments_list.values);
        // 5. Return ? Call(target, boundThis, args).
        BoundCall { target: data.bound_target_function, this_value: data.bound_this, arguments: args, new_target: Value::Undefined }
    }

    /// ### [10.4.1.2 \[\[Construct\]\] ( argumentsList, newTarget )](https://tc39.es/ecma262/#sec-bound-function-exotic-objects-construct-argumentslist-newtarget)
    ///
    /// `Construct(target, boundArgs + argumentsList, newTarget)`, where a
    /// NewTarget that is the bound function itself becomes the target.
    pub fn function_construct(self, heap: &BoundFunctionHeap, arguments_list: &ArgumentsList, new_target: Value) -> (r: BoundCall)
        requires
            heap.contains(self),
        ensures
            r.target == self.data(heap).bound_target_function,
            r.arguments@ == self.data(heap).bound_arguments@ + arguments_list.values@,
            r.new_target == (if new_target == Value::Function(self.0) { self.data(heap).bound_target_function } else { new_target }),
            r.this_value == Value::Undefined,
    {
        let data = &heap.functions[self.0 as usize];
        // 1. Let target be F.[[BoundTargetFunction]].
        let target = data.bound_target_function;
        // 5. If SameValue(F, newTarget) is true, set newTarget to target.
        let new_target = if new_target == Value::Function(self.0) { target } else { new_target };
        // 4. Let args be the list-concatenation of boundArgs and argumentsList.
        let args = concat_values(&data.bound_arguments, &arguments_list.values);
        // 6. Return ? Construct(target, args, newTarget).
        BoundCall { target, this_value: Value::Undefined, arguments: args, new_target }
    }
}

} // verus!
