//! ## [27.5 Generator Objects](https://tc39.es/ecma262/#sec-generator-objects)
//!
//! A generator's state and its transitions. Running the generator's code is
//! the VM's work: a resume first validates the state and takes the
//! suspended state out ([`ResumeBegin`]); the VM runs it; the outcome goes
//! to [`Generator::finish_resume`].

use vstd::prelude::*;
use crate::value::{ArgumentsList, ExceptionType, JsError, Value};

verus! {

/// What the VM keeps of a suspended generator: its suspended VM, its
/// executable and its execution context, by handle.
#[derive(Debug, Clone, Copy, PartialEq, Eq, Structural)]
pub struct SuspendedGeneratorState {
    pub vm: u32,
    pub executable: u32,
    pub execution_context: u32,
}

/// \[\[GeneratorState]]
#[derive(Debug, Clone, Copy, PartialEq, Eq, Structural)]
pub enum GeneratorState {
    SuspendedStart(SuspendedGeneratorState),
    SuspendedYield(SuspendedGeneratorState),
    Executing,
    Completed,
}

/// The heap data of a generator.
#[derive(Debug, Clone, Copy, PartialEq, Eq, Structural)]
pub struct GeneratorHeapData {
    pub object_index: Option<u32>,
    pub generator_state: GeneratorState,
}

/// The arena of all generators.
pub struct GeneratorHeap {
    pub generators: Vec<GeneratorHeapData>,
}

/// A handle to a generator in the [`GeneratorHeap`].
#[derive(Debug, Clone, Copy, PartialEq, Eq, Structural)]
pub struct Generator(pub u32);

/// What a generator method returns: an iterator result object
/// `{ value, done: true }` made here, or the iterator result object that the
/// generator yielded.
#[derive(Debug, Clone, Copy, PartialEq, Eq, Structural)]
pub enum GeneratorOutput {
    IterResult { value: Value, done: bool },
    Yielded(Value),
}

/// How a resume starts: the method's result right away, or the suspended
/// state that the VM must resume.
#[derive(Debug, Clone, Copy, PartialEq, Eq)]
pub enum ResumeBegin {
    Done(Result<GeneratorOutput, JsError>),
    Resume(SuspendedGeneratorState),
}

/// How the VM's run of the generator ended.
#[derive(Debug, Clone, Copy, PartialEq, Eq, Structural)]
pub enum ExecutionResult {
    /// The generator's code returned this value.
    Return(Value),
    /// It threw.
    Throw(JsError),
    /// It yielded this iterator result object, and is suspended in `vm`.
    Yield { vm: u32, yielded_value: Value },
    /// It awaited; a generator never does.
    Await,
}

impl GeneratorHeap {
    pub open spec fn contains(&self, g: Generator) -> bool {
        g.0 < self.generators@.len()
    }

    pub open spec fn state(&self, g: Generator) -> GeneratorState {
        self.generators@[g.0 as int].generator_state
    }

    /// `self` is `other` with generator `g` in state `s`.
    pub open spec fn with_state(&self, other: &GeneratorHeap, g: Generator, s: GeneratorState) -> bool {
        &&& self.generators@.len() == other.generators@.len()
        &&& forall|i: int| 0 <= i < self.generators@.len() && i != g.0 ==> #[trigger] self.generators@[i] == other.generators@[i]
        &&& self.generators@[g.0 as int].object_index == other.generators@[g.0 as int].object_index
        &&& self.generators@[g.0 as int].generator_state == s
    }

    pub fn new() -> (r: Self)
        ensures
            r.generators@.len() == 0,
    {
        GeneratorHeap { generators: Vec::new() }
    }

    /// Adds a generator with the given data.
    pub fn create(&mut self, data: GeneratorHeapData) -> (r: Generator)
        requires
            old(self).generators@.len() < u32::MAX,
        ensures
            r.0 == old(self).generators@.len(),
            final(self).generators@ == old(self).generators@.push(data),
    {
        let index = self.generators.len() as u32;
        self.generators.push(data);
        Generator(index)
    }
}

impl GeneratorHeapData {
    /// A generator about to start running `state`, with no backing object.
    pub fn new(state: SuspendedGeneratorState) -> (r: Self)
        ensures
            r.object_index is None,
            r.generator_state == GeneratorState::SuspendedStart(state),
    {
        GeneratorHeapData { object_index: None, generator_state: GeneratorState::SuspendedStart(state) }
    }
}

/// The result of GeneratorResume before the VM runs: a TypeError for an
/// executing generator, `{ undefined, done: true }` for a completed one,
/// and otherwise the suspended state to resume.
pub open spec fn spec_resume_begin(state: GeneratorState) -> ResumeBegin {
    match state {
        GeneratorState::Executing => ResumeBegin::Done(Err(JsError::Exception(ExceptionType::TypeError))),
        GeneratorState::Completed => ResumeBegin::Done(Ok(GeneratorOutput::IterResult { value: Value::Undefined, done: true })),
        GeneratorState::SuspendedStart(s) | GeneratorState::SuspendedYield(s) => ResumeBegin::Resume(s),
    }
}

/// The result of GeneratorResumeAbrupt with a throw completion before the
/// VM runs: a generator that has not started completes and throws the
/// value, as does a completed one; an executing one is a TypeError.
pub open spec fn spec_resume_throw_begin(state: GeneratorState, value: Value) -> ResumeBegin {
    match state {
        GeneratorState::Executing => ResumeBegin::Done(Err(JsError::Exception(ExceptionType::TypeError))),
        GeneratorState::Completed | GeneratorState::SuspendedStart(_) => ResumeBegin::Done(Err(JsError::Thrown(value))),
        GeneratorState::SuspendedYield(s) => ResumeBegin::Resume(s),
    }
}

/// The result of GeneratorResumeAbrupt with a return completion before the
/// VM runs: a generator that has not started completes and returns
/// `{ value, done: true }`, as does a completed one; an executing one is a
/// TypeError.
pub open spec fn spec_resume_return_begin(state: GeneratorState, value: Value) -> ResumeBegin {
    match state {
        GeneratorState::Executing => ResumeBegin::Done(Err(JsError::Exception(ExceptionType::TypeError))),
        GeneratorState::Completed | GeneratorState::SuspendedStart(_) => ResumeBegin::Done(Ok(GeneratorOutput::IterResult { value, done: true })),
        GeneratorState::SuspendedYield(s) => ResumeBegin::Resume(s),
    }
}

/// The state a generator is left in by the start of a resume: executing
/// where the VM resumes it, completed where a not-started generator was
/// ended by a throw or return, else unchanged.
pub open spec fn spec_state_after_begin(state: GeneratorState, begin: ResumeBegin) -> GeneratorState {
    match begin {
        ResumeBegin::Resume(_) => GeneratorState::Executing,
        ResumeBegin::Done(_) => if state is SuspendedStart { GeneratorState::Completed } else { state },
    }
}

impl Generator {
    /// The Generator that a value is, if it is one.
    pub fn try_from(value: Value) -> (r: Result<Generator, ()>)
        ensures
            r == (match value {
                Value::Generator(i) => Ok(Generator(i)),
                _ => Err(()),
            }),
    {
        match value {
            Value::Generator(i) => Ok(Generator(i)),
            _ => Err(()),
        }
    }

    pub fn get_index(self) -> (r: usize)
        ensures
            r == self.0,
    {
        self.0 as usize
    }

    /// Sets \[\[GeneratorState]].
    fn set_state(self, heap: &mut GeneratorHeap, state: GeneratorState)
        requires
            old(heap).contains(self),
        ensures
            final(heap).with_state(old(heap), self, state),
    {
        let i = self.0 as usize;
        let mut data = heap.generators[i];
        data.generator_state = state;
        heap.generators.set(i, data);
    }

    /// ### [27.5.3.3 GeneratorResume ( generator, value, generatorBrand )](https://tc39.es/ecma262/#sec-generatorresume), steps 1 to 8
    pub fn resume(self, heap: &mut GeneratorHeap) -> (r: ResumeBegin)
        requires
            old(heap).contains(self),
        ensures
            r == spec_resume_begin(old(heap).state(self)),
            final(heap).with_state(old(heap), self, spec_state_after_begin(old(heap).state(self), r)),
    {
        // 1. Let state be ? GeneratorValidate(generator, generatorBrand).
        match heap.generators[self.0 as usize].generator_state {
            GeneratorState::Executing => ResumeBegin::Done(Err(JsError::Exception(ExceptionType::TypeError))),
            // 2. If state is completed, return CreateIteratorResultObject(undefined, true).
            GeneratorState::Completed => {
                ResumeBegin::Done(Ok(GeneratorOutput::IterResult { value: Value::Undefined, done: true }))
            },
            // 3. Assert: state is either suspended-start or suspended-yield.
            GeneratorState::SuspendedStart(s) | GeneratorState::SuspendedYield(s) => {
                // 7. Set generator.[[GeneratorState]] to executing.
                self.set_state(heap, GeneratorState::Executing);
                // 9. Resume the suspended evaluation of genContext using
                //    NormalCompletion(value).
                ResumeBegin::Resume(s)
            },
        }
    }

    /// ### [27.5.3.4 GeneratorResumeAbrupt ( generator, abruptCompletion, generatorBrand )](https://tc39.es/ecma262/#sec-generatorresumeabrupt), for a throw completion, steps 1 to 8
    pub fn resume_throw(self, heap: &mut GeneratorHeap, value: Value) -> (r: ResumeBegin)
        requires
            old(heap).contains(self),
        ensures
            r == spec_resume_throw_begin(old(heap).state(self), value),
            final(heap).with_state(old(heap), self, spec_state_after_begin(old(heap).state(self), r)),
    {
        // 1. Let state be ? GeneratorValidate(generator, generatorBrand).
        match heap.generators[self.0 as usize].generator_state {
            GeneratorState::SuspendedStart(_) => {
                // 2. If state is suspended-start, then
                // a. Set generator.[[GeneratorState]] to completed.
                self.set_state(heap, GeneratorState::Completed);
                // 3. If state is completed, then
                // b. Return ? abruptCompletion.
                ResumeBegin::Done(Err(JsError::Thrown(value)))
            },
            GeneratorState::Executing => ResumeBegin::Done(Err(JsError::Exception(ExceptionType::TypeError))),
            // 3.b. Return ? abruptCompletion.
            GeneratorState::Completed => ResumeBegin::Done(Err(JsError::Thrown(value))),
            // 4. Assert: state is suspended-yield.
            GeneratorState::SuspendedYield(s) => {
                // 8. Set generator.[[GeneratorState]] to executing.
                self.set_state(heap, GeneratorState::Executing);
                // 10. Resume the suspended evaluation of genContext using abruptCompletion.
                ResumeBegin::Resume(s)
            },
        }
    }

    /// ### [27.5.3.4 GeneratorResumeAbrupt ( generator, abruptCompletion, generatorBrand )](https://tc39.es/ecma262/#sec-generatorresumeabrupt), for a return completion, steps 1 to 8
    pub fn resume_return(self, heap: &mut GeneratorHeap, value: Value) -> (r: ResumeBegin)
        requires
            old(heap).contains(self),
        ensures
            r == spec_resume_return_begin(old(heap).state(self), value),
            final(heap).with_state(old(heap), self, spec_state_after_begin(old(heap).state(self), r)),
    {
        // 1. Let state be ? GeneratorValidate(generator, generatorBrand).
        match heap.generators[self.0 as usize].generator_state {
            GeneratorState::SuspendedStart(_) => {
                // 2. If state is suspended-start, then
                // a. Set generator.[[GeneratorState]] to completed.
                self.set_state(heap, GeneratorState::Completed);
                // 3. If abruptCompletion is a return completion, then
                // i. Return CreateIteratorResultObject(abruptCompletion.[[Value]], true).
                ResumeBegin::Done(Ok(GeneratorOutput::IterResult { value, done: true }))
            },
            GeneratorState::Executing => ResumeBegin::Done(Err(JsError::Exception(ExceptionType::TypeError))),
            GeneratorState::Completed => ResumeBegin::Done(Ok(GeneratorOutput::IterResult { value, done: true })),
            // 4. Assert: state is suspended-yield.
            GeneratorState::SuspendedYield(s) => {
                // 8. Set generator.[[GeneratorState]] to executing.
                self.set_state(heap, GeneratorState::Executing);
                // 10. Resume the suspended evaluation of genContext using abruptCompletion.
                ResumeBegin::Resume(s)
            },
        }
    }

    /// The end of GeneratorResume and GeneratorResumeAbrupt, once the VM has
    /// run the generator: a return or a throw completes it (a return gives
    /// `{ value, done: true }`); a yield suspends it again, with the
    /// executable and execution context it ran with, and gives the yielded
    /// iterator result.
    pub fn finish_resume(
        self,
        heap: &mut GeneratorHeap,
        execution_result: ExecutionResult,
        executable: u32,
        execution_context: u32,
    ) -> (r: Result<GeneratorOutput, JsError>)
        requires
            old(heap).contains(self),
            old(heap).state(self) is Executing,
            !(execution_result is Await),
        ensures
            match execution_result {
                ExecutionResult::Return(v) => r == Ok::<GeneratorOutput, JsError>(GeneratorOutput::IterResult { value: v, done: true })
                    && final(heap).with_state(old(heap), self, GeneratorState::Completed),
                ExecutionResult::Throw(e) => r == Err::<GeneratorOutput, JsError>(e)
                    && final(heap).with_state(old(heap), self, GeneratorState::Completed),
                ExecutionResult::Yield { vm, yielded_value } => r == Ok::<GeneratorOutput, JsError>(GeneratorOutput::Yielded(yielded_value))
                    && final(heap).with_state(old(heap), self, GeneratorState::SuspendedYield(SuspendedGeneratorState {
                        vm,
                        executable,
                        execution_context,
                    })),
                ExecutionResult::Await => false,
            },
    {
        match execution_result {
            ExecutionResult::Return(result_value) => {
                // GeneratorStart 4.g. Set acGenerator.[[GeneratorState]] to completed.
                self.set_state(heap, GeneratorState::Completed);
                // l. Return CreateIteratorResultObject(resultValue, true).
                Ok(GeneratorOutput::IterResult { value: result_value, done: true })
            },
            ExecutionResult::Throw(err) => {
                // g. Set acGenerator.[[GeneratorState]] to completed.
                self.set_state(heap, GeneratorState::Completed);
                // k. Return ? result.
                Err(err)
            },
            ExecutionResult::Yield { vm, yielded_value } => {
                // GeneratorYield 5. Set generator.[[GeneratorState]] to suspended-yield.
                self.set_state(heap, GeneratorState::SuspendedYield(SuspendedGeneratorState { vm, executable, execution_context }));
                Ok(GeneratorOutput::Yielded(yielded_value))
            },
            ExecutionResult::Await => {
                assert(false);
                Err(JsError::Exception(ExceptionType::TypeError))
            },
        }
    }

    /// The generator's backing object, if it has one.
    pub fn get_backing_object(self, heap: &GeneratorHeap) -> (r: Option<u32>)
        requires
            heap.contains(self),
        ensures
            r == heap.generators@[self.0 as int].object_index,
    {
        heap.generators[self.0 as usize].object_index
    }

    /// Gives the generator a backing object; it must have none yet.
    pub fn set_backing_object(self, heap: &mut GeneratorHeap, backing_object: u32)
        requires
            old(heap).contains(self),
            old(heap).generators@[self.0 as int].object_index is None,
        ensures
            final(heap).generators@ == old(heap).generators@.update(self.0 as int, GeneratorHeapData {
                object_index: Some(backing_object),
                generator_state: old(heap).state(self),
            }),
    {
        let i = self.0 as usize;
        let mut data = heap.generators[i];
        data.object_index = Some(backing_object);
        heap.generators.set(i, data);
    }
}

/// ### [27.5.1.2 %GeneratorPrototype%.next ( value )](https://tc39.es/ecma262/#sec-generator.prototype.next)
///
/// GeneratorResume of the this value with the first argument, which the VM
/// resumes the generator with.
pub fn generator_prototype_next(heap: &mut GeneratorHeap, this_value: Value, arguments: &ArgumentsList) -> (r: Result<(ResumeBegin, Value), JsError>)
    requires
        this_value matches Value::Generator(g) ==> old(heap).contains(Generator(g)),
    ensures
        this_value !is Generator ==> r == Err::<(ResumeBegin, Value), JsError>(JsError::Exception(ExceptionType::TypeError))
            && final(heap).generators@ == old(heap).generators@,
        this_value matches Value::Generator(g) ==> {
            let state = old(heap).state(Generator(g));
            &&& r matches Ok((begin, v)) && begin == spec_resume_begin(state)
                && v == (if arguments.values@.len() > 0 { arguments.values@[0] } else { Value::Undefined })
            &&& final(heap).with_state(old(heap), Generator(g), spec_state_after_begin(state, spec_resume_begin(state)))
        },
{
    // GeneratorResume: 1. Let state be ? GeneratorValidate(generator, generatorBrand).
    let generator = match this_value {
        Value::Generator(g) => Generator(g),
        _ => return Err(JsError::Exception(ExceptionType::TypeError)),
    };
    // 1. Return ? GeneratorResume(this value, value, empty).
    let value = arguments.get(0);
    Ok((generator.resume(heap), value))
}

/// ### [27.5.1.3 %GeneratorPrototype%.return ( value )](https://tc39.es/ecma262/#sec-generator.prototype.return)
///
/// GeneratorResumeAbrupt of the this value with a return completion of the
/// first argument.
pub fn generator_prototype_return(heap: &mut GeneratorHeap, this_value: Value, arguments: &ArgumentsList) -> (r: Result<ResumeBegin, JsError>)
    requires
        this_value matches Value::Generator(g) ==> old(heap).contains(Generator(g)),
    ensures
        this_value !is Generator ==> r == Err::<ResumeBegin, JsError>(JsError::Exception(ExceptionType::TypeError))
            && final(heap).generators@ == old(heap).generators@,
        this_value matches Value::Generator(g) ==> {
            let state = old(heap).state(Generator(g));
            let value = if arguments.values@.len() > 0 { arguments.values@[0] } else { Value::Undefined };
            &&& r == Ok::<ResumeBegin, JsError>(spec_resume_return_begin(state, value))
            &&& final(heap).with_state(old(heap), Generator(g), spec_state_after_begin(state, spec_resume_return_begin(state, value)))
        },
{
    // 1. Let g be the this value.
    // 2. Let C be Completion Record { [[Type]]: return, [[Value]]: value, [[Target]]: empty }.
    let value = arguments.get(0);
    // 3. Return ? GeneratorResumeAbrupt(g, C, empty).
    let generator = match this_value {
        Value::Generator(g) => Generator(g),
        _ => return Err(JsError::Exception(ExceptionType::TypeError)),
    };
    Ok(generator.resume_return(heap, value))
}

/// ### [27.5.1.4 %GeneratorPrototype%.throw ( exception )](https://tc39.es/ecma262/#sec-generator.prototype.throw)
///
/// GeneratorResumeAbrupt of the this value with a throw completion of the
/// first argument.
pub fn generator_prototype_throw(heap: &mut GeneratorHeap, this_value: Value, arguments: &ArgumentsList) -> (r: Result<ResumeBegin, JsError>)
    requires
        this_value matches Value::Generator(g) ==> old(heap).contains(Generator(g)),
    ensures
        this_value !is Generator ==> r == Err::<ResumeBegin, JsError>(JsError::Exception(ExceptionType::TypeError))
            && final(heap).generators@ == old(heap).generators@,
        this_value matches Value::Generator(g) ==> {
            let state = old(heap).state(Generator(g));
            let value = if arguments.values@.len() > 0 { arguments.values@[0] } else { Value::Undefined };
            &&& r == Ok::<ResumeBegin, JsError>(spec_resume_throw_begin(state, value))
            &&& final(heap).with_state(old(heap), Generator(g), spec_state_after_begin(state, spec_resume_throw_begin(state, value)))
        },
{
    let generator = match this_value {
        Value::Generator(g) => Generator(g),
        _ => return Err(JsError::Exception(ExceptionType::TypeError)),
    };
    // 1. Let g be the this value.
    // 2. Let C be ThrowCompletion(exception).
    // 3. Return ? GeneratorResumeAbrupt(g, C, empty).
    Ok(generator.resume_throw(heap, arguments.get(0)))
}

/// Once a generator enters the completed state it never leaves it: each way
/// of resuming a completed generator leaves it completed, gives its result
/// at once, and never hands its (discarded) state to the VM.
pub proof fn lemma_completed_is_final(value: Value)
    ensures
        spec_resume_begin(GeneratorState::Completed) is Done,
        spec_resume_throw_begin(GeneratorState::Completed, value) is Done,
        spec_resume_return_begin(GeneratorState::Completed, value) is Done,
        spec_state_after_begin(GeneratorState::Completed, spec_resume_begin(GeneratorState::Completed)) is Completed,
        spec_state_after_begin(GeneratorState::Completed, spec_resume_throw_begin(GeneratorState::Completed, value)) is Completed,
        spec_state_after_begin(GeneratorState::Completed, spec_resume_return_begin(GeneratorState::Completed, value)) is Completed,
{
}

/// A running generator cannot be re-entered: each way of resuming an
/// executing generator throws a TypeError and leaves it executing.
pub proof fn lemma_executing_refuses_resume(value: Value)
    ensures
        spec_resume_begin(GeneratorState::Executing) == ResumeBegin::Done(Err(JsError::Exception(ExceptionType::TypeError))),
        spec_resume_throw_begin(GeneratorState::Executing, value) == ResumeBegin::Done(Err(JsError::Exception(ExceptionType::TypeError))),
        spec_resume_return_begin(GeneratorState::Executing, value) == ResumeBegin::Done(Err(JsError::Exception(ExceptionType::TypeError))),
        spec_state_after_begin(GeneratorState::Executing, spec_resume_begin(GeneratorState::Executing)) is Executing,
{
}


/// A return or throw that reaches a generator which is not running and not
/// suspended at a yield (it has completed, or never started) ends it and
/// hands back what it was given: `return(v)` gives `{ value: v, done: true }`
/// and `throw(v)` throws `v`, whatever `v` is, and the generator is left
/// completed.
pub proof fn lemma_abrupt_completion_hands_back_value(state: GeneratorState, value: Value)
    requires
        state is Completed || state is SuspendedStart,
    ensures
        spec_resume_return_begin(state, value) == ResumeBegin::Done(Ok(GeneratorOutput::IterResult { value, done: true })),
        spec_resume_throw_begin(state, value) == ResumeBegin::Done(Err(JsError::Thrown(value))),
        spec_state_after_begin(state, spec_resume_return_begin(state, value)) is Completed,
        spec_state_after_begin(state, spec_resume_throw_begin(state, value)) is Completed,
{
}

} // verus!
