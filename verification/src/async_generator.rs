//! ## [27.6 AsyncGenerator Objects](https://tc39.es/ecma262/#sec-asyncgenerator-objects)
//!
//! An async generator's state, its queue of requests, and the abstract
//! operations that move it. Running the generator's code is the VM's work,
//! and creating iterator result objects and chaining promises the
//! engine's: the operations here say what to do next ([`AsyncGeneratorAction`])
//! and which request promises to settle, in order ([`Settle`]).

use vstd::prelude::*;
use crate::value::{ArgumentsList, ExceptionType, JsError, Value};
use crate::promise::{PromiseCapability, PromiseReactionType};

verus! {

/// \[\[Completion]] of a request: a normal, throw or return completion.
#[derive(Debug, Clone, Copy, PartialEq, Eq, Structural)]
pub enum AsyncGeneratorRequestCompletion {
    Normal(Value),
    Throw(JsError),
    Return(Value),
}

/// ### [27.6.3.1 AsyncGeneratorRequest Records](https://tc39.es/ecma262/#sec-asyncgeneratorrequest-records)
#[derive(Debug, Clone, Copy, PartialEq, Eq, Structural)]
pub struct AsyncGeneratorRequest {
    /// \[\[Completion]]
    pub completion: AsyncGeneratorRequestCompletion,
    /// \[\[Capability]]
    pub capability: PromiseCapability,
}

/// What an awaiting generator awaits.
#[derive(Debug, Clone, Copy, PartialEq, Eq, Structural)]
pub enum AsyncGeneratorAwaitKind {
    /// An explicit await.
    Await,
    /// The implicit await of a yield.
    Yield,
}

/// \[\[AsyncGeneratorState]], with the suspended VM and execution context
/// (by handle) where the generator is suspended. Executing-await is an
/// executing generator whose execution context is suspended on an await.
#[derive(Debug, Clone, Copy, PartialEq, Eq, Structural)]
pub enum AsyncGeneratorState {
    SuspendedStart { vm: u32, execution_context: u32 },
    SuspendedYield { vm: u32, execution_context: u32 },
    Executing,
    ExecutingAwait { vm: u32, execution_context: u32, kind: AsyncGeneratorAwaitKind },
    DrainingQueue,
    Completed,
}

impl AsyncGeneratorState {
    /// Draining-queue, executing or executing-await.
    pub fn is_active(&self) -> (r: bool)
        ensures
            r == (*self is DrainingQueue || *self is Executing || *self is ExecutingAwait),
    {
        matches!(self, AsyncGeneratorState::DrainingQueue | AsyncGeneratorState::Executing | AsyncGeneratorState::ExecutingAwait { .. })
    }

    pub fn is_completed(&self) -> (r: bool)
        ensures
            r == (*self is Completed),
    {
        matches!(self, AsyncGeneratorState::Completed)
    }

    pub fn is_draining_queue(&self) -> (r: bool)
        ensures
            r == (*self is DrainingQueue),
    {
        matches!(self, AsyncGeneratorState::DrainingQueue)
    }

    pub fn is_executing(&self) -> (r: bool)
        ensures
            r == (*self is Executing),
    {
        matches!(self, AsyncGeneratorState::Executing)
    }

    /// Suspended-start or suspended-yield.
    pub fn is_suspended(&self) -> (r: bool)
        ensures
            r == (*self is SuspendedStart || *self is SuspendedYield),
    {
        matches!(self, AsyncGeneratorState::SuspendedStart { .. } | AsyncGeneratorState::SuspendedYield { .. })
    }

    pub fn is_suspended_start(&self) -> (r: bool)
        ensures
            r == (*self is SuspendedStart),
    {
        matches!(self, AsyncGeneratorState::SuspendedStart { .. })
    }

    pub fn is_suspended_yield(&self) -> (r: bool)
        ensures
            r == (*self is SuspendedYield),
    {
        matches!(self, AsyncGeneratorState::SuspendedYield { .. })
    }
}

/// The heap data of an async generator.
pub struct AsyncGeneratorHeapData {
    pub object_index: Option<u32>,
    pub async_generator_state: AsyncGeneratorState,
    /// \[\[AsyncGeneratorQueue]]
    pub queue: Vec<AsyncGeneratorRequest>,
    pub executable: Option<u32>,
}

/// The arena of all async generators.
pub struct AsyncGeneratorHeap {
    pub generators: Vec<AsyncGeneratorHeapData>,
}

/// A handle to an async generator in the [`AsyncGeneratorHeap`].
#[derive(Debug, Clone, Copy, PartialEq, Eq, Structural)]
pub struct AsyncGenerator(pub u32);

/// A settlement of a request's promise, for the engine to carry out.
#[derive(Debug, Clone, Copy, PartialEq, Eq)]
pub enum Settle {
    /// `Call(capability.[[Reject]], undefined, « reason »)`.
    Reject { capability: PromiseCapability, reason: JsError },
    /// `Call(capability.[[Resolve]], undefined, « CreateIteratorResultObject(value, done) »)`,
    /// the object made in `realm` where one is given.
    ResolveIterResult { capability: PromiseCapability, value: Value, done: bool, realm: Option<u32> },
}

/// What the engine does after an operation.
#[derive(Debug, Clone, Copy, PartialEq, Eq)]
pub enum AsyncGeneratorAction {
    /// Nothing more.
    Nothing,
    /// Resume the suspended `vm` with the completion.
    ResumeVm { vm: u32, completion: AsyncGeneratorRequestCompletion },
    /// Await `value`: `PromiseResolve(%Promise%, value)`, then
    /// `PerformPromiseThen` with the generator as both handlers
    /// (its outcome comes back through [`AsyncGenerator::resume_await`]).
    PerformAwait(Value),
    /// AsyncGeneratorAwaitReturn: `PromiseResolve(%Promise%, value)`; its
    /// outcome goes to [`async_generator_await_return_on_promise`].
    AwaitReturn(Value),
}

impl AsyncGeneratorHeap {
    pub open spec fn contains(&self, g: AsyncGenerator) -> bool {
        g.0 < self.generators@.len()
    }

    pub open spec fn state(&self, g: AsyncGenerator) -> AsyncGeneratorState {
        self.generators@[g.0 as int].async_generator_state
    }

    pub open spec fn queue(&self, g: AsyncGenerator) -> Seq<AsyncGeneratorRequest> {
        self.generators@[g.0 as int].queue@
    }

    /// Every generator but `g` is as in `other`, and `g` keeps its backing
    /// object and executable.
    pub open spec fn same_except(&self, other: &AsyncGeneratorHeap, g: AsyncGenerator) -> bool {
        &&& self.generators@.len() == other.generators@.len()
        &&& forall|i: int| 0 <= i < self.generators@.len() && i != g.0 ==> #[trigger] self.generators@[i] == other.generators@[i]
        &&& self.generators@[g.0 as int].object_index == other.generators@[g.0 as int].object_index
        &&& self.generators@[g.0 as int].executable == other.generators@[g.0 as int].executable
    }

    pub fn new() -> (r: Self)
        ensures
            r.generators@.len() == 0,
    {
        AsyncGeneratorHeap { generators: Vec::new() }
    }

    /// Adds an async generator with the given data.
    pub fn create(&mut self, data: AsyncGeneratorHeapData) -> (r: AsyncGenerator)
        requires
            old(self).generators@.len() < u32::MAX,
        ensures
            r.0 == old(self).generators@.len(),
            final(self).generators@ == old(self).generators@.push(data),
    {
        let index = self.generators.len() as u32;
        self.generators.push(data);
        AsyncGenerator(index)
    }
}

/// The settlement of a request by AsyncGeneratorCompleteStep with
/// `completion` and `done`.
pub open spec fn spec_settle(request: AsyncGeneratorRequest, completion: AsyncGeneratorRequestCompletion, done: bool, realm: Option<u32>) -> Settle {
    match completion {
        AsyncGeneratorRequestCompletion::Throw(e) => Settle::Reject { capability: request.capability, reason: e },
        AsyncGeneratorRequestCompletion::Normal(v) => Settle::ResolveIterResult { capability: request.capability, value: v, done, realm },
        AsyncGeneratorRequestCompletion::Return(v) => Settle::ResolveIterResult { capability: request.capability, value: v, done, realm },
    }
}

/// How AsyncGeneratorDrainQueue settles a request that is not a return:
/// a throw rejects with its error, a normal one resolves with
/// `{ undefined, done: true }`.
pub open spec fn spec_drain_settle(request: AsyncGeneratorRequest) -> Settle {
    match request.completion {
        AsyncGeneratorRequestCompletion::Throw(e) => Settle::Reject { capability: request.capability, reason: e },
        _ => Settle::ResolveIterResult { capability: request.capability, value: Value::Undefined, done: true, realm: None },
    }
}

/// The number of requests before the first return request (all of them
/// where there is none).
pub open spec fn requests_before_return(q: Seq<AsyncGeneratorRequest>) -> nat
    decreases q.len(),
{
    if q.len() == 0 {
        0
    } else if q[0].completion is Return {
        0
    } else {
        1 + requests_before_return(q.subrange(1, q.len() as int))
    }
}

proof fn lemma_requests_before_return(q: Seq<AsyncGeneratorRequest>)
    ensures
        requests_before_return(q) <= q.len(),
        requests_before_return(q) < q.len() ==> q[requests_before_return(q) as int].completion is Return,
        forall|i: int| 0 <= i < requests_before_return(q) ==> !(#[trigger] q[i].completion is Return),
    decreases q.len(),
{
    if q.len() > 0 && !(q[0].completion is Return) {
        let rest = q.subrange(1, q.len() as int);
        lemma_requests_before_return(rest);
        assert forall|i: int| 0 <= i < requests_before_return(q) implies !(#[trigger] q[i].completion is Return) by {
            if i > 0 {
                assert(q[i] == rest[i - 1]);
            }
        }
        if requests_before_return(q) < q.len() {
            assert(q[requests_before_return(q) as int] == rest[requests_before_return(rest) as int]);
        }
    }
}

impl AsyncGenerator {
    pub fn get_index(self) -> (r: usize)
        ensures
            r == self.0,
    {
        self.0 as usize
    }

    /// The generator's executable.
    pub fn get_executable(self, heap: &AsyncGeneratorHeap) -> (r: u32)
        requires
            heap.contains(self),
            heap.generators@[self.0 as int].executable is Some,
        ensures
            Some(r) == heap.generators@[self.0 as int].executable,
    {
        match heap.generators[self.0 as usize].executable {
            Some(e) => e,
            None => {
                assert(false);
                0
            },
        }
    }

    /// Draining-queue or executing (executing-await included).
    pub fn is_active(self, heap: &AsyncGeneratorHeap) -> (r: bool)
        requires
            heap.contains(self),
        ensures
            r == (heap.state(self) is DrainingQueue || heap.state(self) is Executing || heap.state(self) is ExecutingAwait),
    {
        heap.generators[self.0 as usize].async_generator_state.is_active()
    }

    pub fn is_draining_queue(self, heap: &AsyncGeneratorHeap) -> (r: bool)
        requires
            heap.contains(self),
        ensures
            r == (heap.state(self) is DrainingQueue),
    {
        heap.generators[self.0 as usize].async_generator_state.is_draining_queue()
    }

    pub fn is_executing(self, heap: &AsyncGeneratorHeap) -> (r: bool)
        requires
            heap.contains(self),
        ensures
            r == (heap.state(self) is Executing),
    {
        heap.generators[self.0 as usize].async_generator_state.is_executing()
    }

    pub fn is_suspended_start(self, heap: &AsyncGeneratorHeap) -> (r: bool)
        requires
            heap.contains(self),
        ensures
            r == (heap.state(self) is SuspendedStart),
    {
        heap.generators[self.0 as usize].async_generator_state.is_suspended_start()
    }

    pub fn is_suspended_yield(self, heap: &AsyncGeneratorHeap) -> (r: bool)
        requires
            heap.contains(self),
        ensures
            r == (heap.state(self) is SuspendedYield),
    {
        heap.generators[self.0 as usize].async_generator_state.is_suspended_yield()
    }

    pub fn is_completed(self, heap: &AsyncGeneratorHeap) -> (r: bool)
        requires
            heap.contains(self),
        ensures
            r == (heap.state(self) is Completed),
    {
        heap.generators[self.0 as usize].async_generator_state.is_completed()
    }

    pub fn queue_is_empty(self, heap: &AsyncGeneratorHeap) -> (r: bool)
        requires
            heap.contains(self),
        ensures
            r == (heap.queue(self).len() == 0),
    {
        heap.generators[self.0 as usize].queue.len() == 0
    }

    /// The first request of the queue, which must not be empty.
    pub fn peek_first(self, heap: &AsyncGeneratorHeap) -> (r: AsyncGeneratorRequest)
        requires
            heap.contains(self),
            heap.queue(self).len() > 0,
        ensures
            r == heap.queue(self)[0],
    {
        heap.generators[self.0 as usize].queue[0]
    }

    /// Removes and returns the first request of the queue, which must not be
    /// empty.
    pub fn pop_first(self, heap: &mut AsyncGeneratorHeap) -> (r: AsyncGeneratorRequest)
        requires
            old(heap).contains(self),
            old(heap).queue(self).len() > 0,
        ensures
            r == old(heap).queue(self)[0],
            final(heap).same_except(old(heap), self),
            final(heap).state(self) == old(heap).state(self),
            final(heap).queue(self) == old(heap).queue(self).subrange(1, old(heap).queue(self).len() as int),
    {
        heap.generators[self.0 as usize].queue.remove(0)
    }

    /// Appends a request to the queue.
    pub fn append_to_queue(self, heap: &mut AsyncGeneratorHeap, request: AsyncGeneratorRequest)
        requires
            old(heap).contains(self),
        ensures
            final(heap).same_except(old(heap), self),
            final(heap).state(self) == old(heap).state(self),
            final(heap).queue(self) == old(heap).queue(self).push(request),
    {
        heap.generators[self.0 as usize].queue.push(request);
    }

    /// Sets \[\[AsyncGeneratorState]], keeping the queue.
    fn set_state(self, heap: &mut AsyncGeneratorHeap, state: AsyncGeneratorState)
        requires
            old(heap).contains(self),
        ensures
            final(heap).same_except(old(heap), self),
            final(heap).state(self) == state,
            final(heap).queue(self) == old(heap).queue(self),
    {
        heap.generators[self.0 as usize].async_generator_state = state;
    }

    /// A suspended, executing or completed generator starts draining its
    /// queue.
    pub fn transition_to_draining_queue(self, heap: &mut AsyncGeneratorHeap)
        requires
            old(heap).contains(self),
            !(old(heap).state(self) is ExecutingAwait || old(heap).state(self) is DrainingQueue),
        ensures
            final(heap).same_except(old(heap), self),
            final(heap).state(self) is DrainingQueue,
            final(heap).queue(self) == old(heap).queue(self),
    {
        self.set_state(heap, AsyncGeneratorState::DrainingQueue);
    }

    /// The generator is completed.
    pub fn transition_to_complete(self, heap: &mut AsyncGeneratorHeap)
        requires
            old(heap).contains(self),
        ensures
            final(heap).same_except(old(heap), self),
            final(heap).state(self) is Completed,
            final(heap).queue(self) == old(heap).queue(self),
    {
        self.set_state(heap, AsyncGeneratorState::Completed);
    }

    /// An executing generator suspends its execution context on an await.
    pub fn transition_to_awaiting(self, heap: &mut AsyncGeneratorHeap, vm: u32, kind: AsyncGeneratorAwaitKind, execution_context: u32)
        requires
            old(heap).contains(self),
            old(heap).state(self) is Executing,
        ensures
            final(heap).same_except(old(heap), self),
            final(heap).state(self) == (AsyncGeneratorState::ExecutingAwait { vm, execution_context, kind }),
            final(heap).queue(self) == old(heap).queue(self),
    {
        self.set_state(heap, AsyncGeneratorState::ExecutingAwait { vm, execution_context, kind });
    }

    /// A suspended generator starts executing: its suspended VM and
    /// execution context are handed out.
    pub fn transition_to_executing(self, heap: &mut AsyncGeneratorHeap) -> (r: (u32, u32))
        requires
            old(heap).contains(self),
            old(heap).state(self) is SuspendedStart || old(heap).state(self) is SuspendedYield,
        ensures
            final(heap).same_except(old(heap), self),
            final(heap).state(self) is Executing,
            final(heap).queue(self) == old(heap).queue(self),
            old(heap).state(self) matches AsyncGeneratorState::SuspendedStart { vm, execution_context } ==> r == (vm, execution_context),
            old(heap).state(self) matches AsyncGeneratorState::SuspendedYield { vm, execution_context } ==> r == (vm, execution_context),
    {
        let r = match heap.generators[self.0 as usize].async_generator_state {
            AsyncGeneratorState::SuspendedStart { vm, execution_context } => (vm, execution_context),
            AsyncGeneratorState::SuspendedYield { vm, execution_context } => (vm, execution_context),
            _ => {
                assert(false);
                (0, 0)
            },
        };
        self.set_state(heap, AsyncGeneratorState::Executing);
        r
    }

    /// An executing generator suspends at a yield.
    pub fn transition_to_suspended(self, heap: &mut AsyncGeneratorHeap, vm: u32, execution_context: u32)
        requires
            old(heap).contains(self),
            old(heap).state(self) is Executing,
        ensures
            final(heap).same_except(old(heap), self),
            final(heap).state(self) == (AsyncGeneratorState::SuspendedYield { vm, execution_context }),
            final(heap).queue(self) == old(heap).queue(self),
    {
        self.set_state(heap, AsyncGeneratorState::SuspendedYield { vm, execution_context });
    }

    /// The generator's backing object, if it has one.
    pub fn get_backing_object(self, heap: &AsyncGeneratorHeap) -> (r: Option<u32>)
        requires
            heap.contains(self),
        ensures
            r == heap.generators@[self.0 as int].object_index,
    {
        heap.generators[self.0 as usize].object_index
    }

    /// Gives the generator a backing object; it must have none yet.
    pub fn set_backing_object(self, heap: &mut AsyncGeneratorHeap, backing_object: u32)
        requires
            old(heap).contains(self),
            old(heap).generators@[self.0 as int].object_index is None,
        ensures
            final(heap).generators@.len() == old(heap).generators@.len(),
            forall|i: int| 0 <= i < final(heap).generators@.len() && i != self.0 ==> #[trigger] final(heap).generators@[i] == old(heap).generators@[i],
            final(heap).generators@[self.0 as int].object_index == Some(backing_object),
            final(heap).state(self) == old(heap).state(self),
            final(heap).queue(self) == old(heap).queue(self),
    {
        heap.generators[self.0 as usize].object_index = Some(backing_object);
    }

    /// The outcome of a promise that the generator awaited.
    ///
    /// A draining generator awaited a return value (AsyncGeneratorAwaitReturn):
    /// the return request is completed with it and the queue drained.
    /// Otherwise the generator, suspended at a yield or in an await, is
    /// executing again: an awaited rejection is thrown into its code, an
    /// awaited fulfillment resumes it, and a fulfilled yield operand is
    /// yielded (AsyncGeneratorYield).
    pub fn resume_await(
        self,
        heap: &mut AsyncGeneratorHeap,
        settlements: &mut Vec<Settle>,
        reaction_type: PromiseReactionType,
        value: Value,
        previous_realm: u32,
    ) -> (r: AsyncGeneratorAction)
        requires
            old(heap).contains(self),
            old(heap).state(self) is DrainingQueue || old(heap).state(self) is SuspendedYield
                || old(heap).state(self) is ExecutingAwait,
            old(heap).state(self) is DrainingQueue ==> old(heap).queue(self).len() > 0,
            old(heap).state(self) matches AsyncGeneratorState::ExecutingAwait { kind, .. }
                && kind is Yield && reaction_type is Fulfill ==> old(heap).queue(self).len() > 0,
            old(heap).state(self) is SuspendedYield && reaction_type is Fulfill ==> old(heap).queue(self).len() > 0,
        ensures
            final(heap).same_except(old(heap), self),
            old(heap).state(self) is DrainingQueue ==> {
                let completion = if reaction_type is Fulfill {
                    AsyncGeneratorRequestCompletion::Normal(value)
                } else {
                    AsyncGeneratorRequestCompletion::Throw(JsError::Thrown(value))
                };
                completed_and_drained(old(heap), final(heap), self, final(settlements)@.subrange(0, old(settlements)@.len() as int), old(settlements)@, completion, r)
                    && final(settlements)@.len() >= old(settlements)@.len()
            },
            !(old(heap).state(self) is DrainingQueue) && (reaction_type is Reject || old(heap).state(self) matches AsyncGeneratorState::ExecutingAwait { kind: AsyncGeneratorAwaitKind::Await, .. }) ==> {
                let vm = if old(heap).state(self) is SuspendedYield { old(heap).state(self)->SuspendedYield_vm } else { old(heap).state(self)->ExecutingAwait_vm };
                &&& final(heap).state(self) is Executing
                &&& final(heap).queue(self) == old(heap).queue(self)
                &&& final(settlements)@ == old(settlements)@
                &&& r == (AsyncGeneratorAction::ResumeVm {
                    vm,
                    completion: if reaction_type is Fulfill {
                        AsyncGeneratorRequestCompletion::Normal(value)
                    } else {
                        AsyncGeneratorRequestCompletion::Throw(JsError::Thrown(value))
                    },
                })
            },
            !(old(heap).state(self) is DrainingQueue) && reaction_type is Fulfill
                && !(old(heap).state(self) matches AsyncGeneratorState::ExecutingAwait { kind: AsyncGeneratorAwaitKind::Await, .. }) ==> {
                let st = old(heap).state(self);
                let vm = if st is SuspendedYield { st->SuspendedYield_vm } else { st->ExecutingAwait_vm };
                let execution_context = if st is SuspendedYield { st->SuspendedYield_execution_context } else { st->ExecutingAwait_execution_context };
                let q = old(heap).queue(self);
                let rest = q.subrange(1, q.len() as int);
                &&& final(heap).queue(self) == rest
                &&& final(settlements)@ == old(settlements)@.push(spec_settle(q[0], AsyncGeneratorRequestCompletion::Normal(value), false, Some(previous_realm)))
                &&& rest.len() > 0 ==> final(heap).state(self) is Executing
                    && r == (AsyncGeneratorAction::ResumeVm { vm, completion: rest[0].completion })
                &&& rest.len() == 0 ==> final(heap).state(self) == (AsyncGeneratorState::SuspendedYield { vm, execution_context })
                    && r == AsyncGeneratorAction::Nothing
            },
    {
        if self.is_draining_queue(heap) {
            // We're coming here because return was called.
            return match reaction_type {
                PromiseReactionType::Fulfill => async_generator_await_return_on_fulfilled(heap, settlements, self, value),
                PromiseReactionType::Reject => async_generator_await_return_on_rejected(heap, settlements, self, value),
            };
        }
        // 1. Assert: generator.[[AsyncGeneratorState]] is either suspended-yield or awaiting.
        let (vm, execution_context, kind) = match heap.generators[self.0 as usize].async_generator_state {
            AsyncGeneratorState::SuspendedYield { vm, execution_context } => (vm, execution_context, AsyncGeneratorAwaitKind::Yield),
            AsyncGeneratorState::ExecutingAwait { vm, execution_context, kind } => (vm, execution_context, kind),
            _ => {
                assert(false);
                (0, 0, AsyncGeneratorAwaitKind::Await)
            },
        };
        self.set_state(heap, AsyncGeneratorState::Executing);
        match (kind, reaction_type) {
            (AsyncGeneratorAwaitKind::Yield, PromiseReactionType::Fulfill) => {
                // The awaited yield operand is yielded.
                async_generator_yield(heap, settlements, self, value, vm, execution_context, previous_realm)
            },
            // ? Yield ( ? Await ( Value ) ): the rejection is thrown and the
            // yield is not performed.
            (_, PromiseReactionType::Reject) => AsyncGeneratorAction::ResumeVm {
                vm,
                completion: AsyncGeneratorRequestCompletion::Throw(JsError::Thrown(value)),
            },
            (AsyncGeneratorAwaitKind::Await, PromiseReactionType::Fulfill) => AsyncGeneratorAction::ResumeVm {
                vm,
                completion: AsyncGeneratorRequestCompletion::Normal(value),
            },
        }
    }
}

/// ### [27.6.3.3 AsyncGeneratorValidate ( generator, generatorBrand )](https://tc39.es/ecma262/#sec-asyncgeneratorvalidate)
pub fn async_generator_validate(generator: Value) -> (r: Result<AsyncGenerator, JsError>)
    ensures
        generator matches Value::AsyncGenerator(g) ==> r == Ok::<AsyncGenerator, JsError>(AsyncGenerator(g)),
        !(generator is AsyncGenerator) ==> r == Err::<AsyncGenerator, JsError>(JsError::Exception(ExceptionType::TypeError)),
{
    // 1. Perform ? RequireInternalSlot(generator, [[AsyncGeneratorContext]]).
    // 2. Perform ? RequireInternalSlot(generator, [[AsyncGeneratorState]]).
    // 3. Perform ? RequireInternalSlot(generator, [[AsyncGeneratorQueue]]).
    // 4. If generator.[[GeneratorBrand]] is not generatorBrand, throw a TypeError exception.
    // 5. Return unused.
    match generator {
        Value::AsyncGenerator(g) => Ok(AsyncGenerator(g)),
        _ => Err(JsError::Exception(ExceptionType::TypeError)),
    }
}

/// ### [27.6.3.4 AsyncGeneratorEnqueue ( generator, completion, promiseCapability )](https://tc39.es/ecma262/#sec-asyncgeneratorenqueue)
pub fn async_generator_enqueue(
    heap: &mut AsyncGeneratorHeap,
    generator: AsyncGenerator,
    completion: AsyncGeneratorRequestCompletion,
    promise_capability: PromiseCapability,
)
    requires
        old(heap).contains(generator),
    ensures
        final(heap).same_except(old(heap), generator),
        final(heap).state(generator) == old(heap).state(generator),
        final(heap).queue(generator) == old(heap).queue(generator).push(AsyncGeneratorRequest { completion, capability: promise_capability }),
{
    // 1. Let request be AsyncGeneratorRequest { [[Completion]]: completion, [[Capability]]: promiseCapability }.
    let request = AsyncGeneratorRequest { completion, capability: promise_capability };
    // 2. Append request to generator.[[AsyncGeneratorQueue]].
    generator.append_to_queue(heap, request);
    // 3. Return unused.
}

/// ### [27.6.3.5 AsyncGeneratorCompleteStep ( generator, completion, done \[ , realm \] )](https://tc39.es/ecma262/#sec-asyncgeneratorcompletestep)
///
/// The first request leaves the queue, and its promise is settled with the
/// completion: rejected for a throw completion, else resolved with
/// `{ value, done }`.
pub fn async_generator_complete_step(
    heap: &mut AsyncGeneratorHeap,
    settlements: &mut Vec<Settle>,
    generator: AsyncGenerator,
    completion: AsyncGeneratorRequestCompletion,
    done: bool,
    realm: Option<u32>,
)
    requires
        old(heap).contains(generator),
        old(heap).queue(generator).len() > 0,
        !(completion is Return),
    ensures
        final(heap).same_except(old(heap), generator),
        final(heap).state(generator) == old(heap).state(generator),
        final(heap).queue(generator) == old(heap).queue(generator).subrange(1, old(heap).queue(generator).len() as int),
        final(settlements)@ == old(settlements)@.push(spec_settle(old(heap).queue(generator)[0], completion, done, realm)),
{
    // 1. Assert: generator.[[AsyncGeneratorQueue]] is not empty.
    // 2. Let next be the first element of generator.[[AsyncGeneratorQueue]].
    // 3. Remove the first element from generator.[[AsyncGeneratorQueue]].
    let next = generator.pop_first(heap);
    // 4. Let promiseCapability be next.[[Capability]].
    let promise_capability = next.capability;
    // 5. Let value be completion.[[Value]].
    match completion {
        // 6. If completion is a throw completion, then
        AsyncGeneratorRequestCompletion::Throw(err) => {
            // a. Perform ! Call(promiseCapability.[[Reject]], undefined, « value »).
            settlements.push(Settle::Reject { capability: promise_capability, reason: err });
        },
        // 7. Else,
        AsyncGeneratorRequestCompletion::Normal(value) | AsyncGeneratorRequestCompletion::Return(value) => {
            // b. If realm is present, then ... CreateIteratorResultObject(value, done) in realm.
            // c. Else, Let iteratorResult be CreateIteratorResultObject(value, done).
            // d. Perform ! Call(promiseCapability.[[Resolve]], undefined, « iteratorResult »).
            settlements.push(Settle::ResolveIterResult { capability: promise_capability, value, done, realm });
        },
    }
    // 8. Return unused.
}

/// ### [27.6.3.6 AsyncGeneratorResume ( generator, completion )](https://tc39.es/ecma262/#sec-asyncgeneratorresume)
///
/// A suspended generator starts executing; its suspended VM is resumed with
/// the completion.
pub fn async_generator_resume(heap: &mut AsyncGeneratorHeap, generator: AsyncGenerator, completion: AsyncGeneratorRequestCompletion) -> (r: AsyncGeneratorAction)
    requires
        old(heap).contains(generator),
        old(heap).state(generator) is SuspendedStart || old(heap).state(generator) is SuspendedYield,
    ensures
        final(heap).same_except(old(heap), generator),
        final(heap).state(generator) is Executing,
        final(heap).queue(generator) == old(heap).queue(generator),
        r == (AsyncGeneratorAction::ResumeVm {
            vm: if old(heap).state(generator) is SuspendedStart {
                old(heap).state(generator)->SuspendedStart_vm
            } else {
                old(heap).state(generator)->SuspendedYield_vm
            },
            completion,
        }),
{
    // 1. Assert: generator.[[AsyncGeneratorState]] is either suspended-start or suspended-yield.
    // 2. Let genContext be generator.[[AsyncGeneratorContext]].
    // 5. Set generator.[[AsyncGeneratorState]] to executing.
    let (vm, _execution_context) = generator.transition_to_executing(heap);
    // 6. Push genContext onto the execution context stack.
    // 7. Resume the suspended evaluation of genContext using completion as the result
    //    of the operation that suspended it.
    AsyncGeneratorAction::ResumeVm { vm, completion }
}

/// How the VM's run of an async generator ended.
#[derive(Debug, Clone, Copy, PartialEq, Eq, Structural)]
pub enum AsyncExecutionResult {
    Return(Value),
    Throw(JsError),
    Yield { vm: u32, yielded_value: Value },
    Await { vm: u32, awaited_value: Value },
}

/// `after` is `before` with the first request completed (AsyncGeneratorCompleteStep
/// with `completion` and done true, the generator draining its queue) and
/// then the queue drained ([`async_generator_drain_queue`]); the settlements
/// made are those of `drained` after those of `earlier`.
pub open spec fn completed_and_drained(
    before: &AsyncGeneratorHeap,
    after: &AsyncGeneratorHeap,
    g: AsyncGenerator,
    earlier: Seq<Settle>,
    previous: Seq<Settle>,
    completion: AsyncGeneratorRequestCompletion,
    action: AsyncGeneratorAction,
) -> bool {
    let q = before.queue(g);
    let rest = q.subrange(1, q.len() as int);
    let k = requests_before_return(rest);
    &&& earlier == previous
    &&& after.same_except(before, g)
    &&& after.queue(g) == rest.subrange(k as int, rest.len() as int)
    &&& if k == rest.len() {
        after.state(g) is Completed && action == AsyncGeneratorAction::Nothing
    } else {
        after.state(g) is DrainingQueue && action == AsyncGeneratorAction::AwaitReturn(rest[k as int].completion->Return_0)
    }
}

/// ### [27.6.3.10 AsyncGeneratorDrainQueue ( generator )](https://tc39.es/ecma262/#sec-asyncgeneratordrainqueue)
///
/// Completes the queued requests in order until one holds a return
/// completion: a throw request's promise is rejected, a normal one's
/// resolved with `{ undefined, done: true }`. A return request is awaited
/// (AsyncGeneratorAwaitReturn) and stays first in the queue; where none is
/// left, the generator is completed.
pub fn async_generator_drain_queue(heap: &mut AsyncGeneratorHeap, settlements: &mut Vec<Settle>, generator: AsyncGenerator) -> (r: AsyncGeneratorAction)
    requires
        old(heap).contains(generator),
        old(heap).state(generator) is DrainingQueue,
    ensures
        ({
            let q = old(heap).queue(generator);
            let k = requests_before_return(q);
            &&& final(heap).same_except(old(heap), generator)
            &&& final(settlements)@ == old(settlements)@ + Seq::new(k, |i: int| spec_drain_settle(q[i]))
            &&& final(heap).queue(generator) == q.subrange(k as int, q.len() as int)
            &&& if k == q.len() {
                final(heap).state(generator) is Completed && r == AsyncGeneratorAction::Nothing
            } else {
                final(heap).state(generator) is DrainingQueue && r == AsyncGeneratorAction::AwaitReturn(q[k as int].completion->Return_0)
            }
        }),
{
    let ghost q = heap.queue(generator);
    let ghost k = requests_before_return(q);
    proof {
        lemma_requests_before_return(q);
    }
    // 1. Assert: generator.[[AsyncGeneratorState]] is draining-queue.
    // 2. Let queue be generator.[[AsyncGeneratorQueue]].
    // 3. If queue is empty, then
    //    a. Set generator.[[AsyncGeneratorState]] to completed.
    //    b. Return unused.
    // 4. Let done be false.
    // 5. Repeat, while done is false,
    let queue_len = heap.generators[generator.0 as usize].queue.len();
    let mut n: usize = 0;
    while !generator.queue_is_empty(heap)
        invariant
            queue_len == q.len(),
            heap.contains(generator),
            heap.same_except(old(heap), generator),
            heap.state(generator) is DrainingQueue,
            q == old(heap).queue(generator),
            k == requests_before_return(q),
            k <= q.len(),
            k < q.len() ==> q[k as int].completion is Return,
            forall|i: int| 0 <= i < k ==> !(#[trigger] q[i].completion is Return),
            n <= k,
            heap.queue(generator) == q.subrange(n as int, q.len() as int),
            settlements@ == old(settlements)@ + Seq::new(n as nat, |i: int| spec_drain_settle(q[i])),
        decreases q.len() - n,
    {
        // a. Let next be the first element of queue.
        let next = generator.peek_first(heap);
        // b. Let completion be Completion(next.[[Completion]]).
        match next.completion {
            // c. If completion is a return completion, then
            AsyncGeneratorRequestCompletion::Return(value) => {
                // i. Perform AsyncGeneratorAwaitReturn(generator).
                // ii. Set done to true.
                proof {
                    assert(q[n as int] == next);
                    if n < k {
                        assert(!(q[n as int].completion is Return));
                    }
                    assert(n == k);
                }
                return AsyncGeneratorAction::AwaitReturn(value);
            },
            // d. Else,
            other => {
                // i. If completion is a normal completion, then
                //    1. Set completion to NormalCompletion(undefined).
                let completion = match other {
                    AsyncGeneratorRequestCompletion::Throw(e) => AsyncGeneratorRequestCompletion::Throw(e),
                    _ => AsyncGeneratorRequestCompletion::Normal(Value::Undefined),
                };
                proof {
                    assert(q[n as int] == next);
                    if n == k {
                        assert(k < q.len());
                        assert(q[k as int].completion is Return);
                    }
                }
                // ii. Perform AsyncGeneratorCompleteStep(generator, completion, true).
                async_generator_complete_step(heap, settlements, generator, completion, true, None);
                proof {
                    assert(spec_settle(next, completion, true, None) == spec_drain_settle(q[n as int]));
                    assert(Seq::new((n + 1) as nat, |i: int| spec_drain_settle(q[i]))
                        =~= Seq::new(n as nat, |i: int| spec_drain_settle(q[i])).push(spec_drain_settle(q[n as int])));
                    assert(q.subrange(n as int, q.len() as int).subrange(1, q.len() - n) =~= q.subrange(n + 1, q.len() as int));
                }
                n = n + 1;
                // iii. If queue is empty, then
                //      1. Set generator.[[AsyncGeneratorState]] to completed.
                //      2. Set done to true.
            },
        }
    }
    proof {
        assert(heap.queue(generator).len() == 0);
        assert(n == q.len());
        assert(n == k);
    }
    generator.transition_to_complete(heap);
    AsyncGeneratorAction::Nothing
}

/// The fulfilled or rejected closure of AsyncGeneratorAwaitReturn: the
/// return request completes with the completion (done true), and the queue
/// is drained.
fn await_return_settled(
    heap: &mut AsyncGeneratorHeap,
    settlements: &mut Vec<Settle>,
    generator: AsyncGenerator,
    completion: AsyncGeneratorRequestCompletion,
) -> (r: AsyncGeneratorAction)
    requires
        old(heap).contains(generator),
        old(heap).state(generator) is DrainingQueue,
        old(heap).queue(generator).len() > 0,
        !(completion is Return),
    ensures
        final(settlements)@.len() >= old(settlements)@.len(),
        completed_and_drained(old(heap), final(heap), generator, final(settlements)@.subrange(0, old(settlements)@.len() as int), old(settlements)@, completion, r),
        final(settlements)@[old(settlements)@.len() as int] == spec_settle(old(heap).queue(generator)[0], completion, true, None),
{
    let ghost s0 = settlements@;
    // c. Perform AsyncGeneratorCompleteStep(generator, result, true).
    async_generator_complete_step(heap, settlements, generator, completion, true, None);
    let ghost s1 = settlements@;
    // d. Perform AsyncGeneratorDrainQueue(generator).
    let r = async_generator_drain_queue(heap, settlements, generator);
    proof {
        assert(settlements@.subrange(0, s0.len() as int) =~= s0);
        assert(settlements@[s0.len() as int] == s1[s0.len() as int]);
    }
    // e. Return undefined.
    r
}

/// The fulfilled closure of [27.6.3.9 AsyncGeneratorAwaitReturn ( generator )](https://tc39.es/ecma262/#sec-asyncgeneratorawaitreturn):
/// the return request is resolved with `{ value, done: true }` and the
/// queue is drained.
pub fn async_generator_await_return_on_fulfilled(
    heap: &mut AsyncGeneratorHeap,
    settlements: &mut Vec<Settle>,
    generator: AsyncGenerator,
    value: Value,
) -> (r: AsyncGeneratorAction)
    requires
        old(heap).contains(generator),
        old(heap).state(generator) is DrainingQueue,
        old(heap).queue(generator).len() > 0,
    ensures
        final(settlements)@.len() >= old(settlements)@.len(),
        completed_and_drained(old(heap), final(heap), generator, final(settlements)@.subrange(0, old(settlements)@.len() as int), old(settlements)@, AsyncGeneratorRequestCompletion::Normal(value), r),
        final(settlements)@[old(settlements)@.len() as int] == (Settle::ResolveIterResult {
            capability: old(heap).queue(generator)[0].capability,
            value,
            done: true,
            realm: None,
        }),
{
    // a. Assert: generator.[[AsyncGeneratorState]] is draining-queue.
    // b. Let result be NormalCompletion(value).
    await_return_settled(heap, settlements, generator, AsyncGeneratorRequestCompletion::Normal(value))
}

/// The rejected closure of AsyncGeneratorAwaitReturn: the return request
/// is rejected with the reason and the queue is drained.
pub fn async_generator_await_return_on_rejected(
    heap: &mut AsyncGeneratorHeap,
    settlements: &mut Vec<Settle>,
    generator: AsyncGenerator,
    reason: Value,
) -> (r: AsyncGeneratorAction)
    requires
        old(heap).contains(generator),
        old(heap).state(generator) is DrainingQueue,
        old(heap).queue(generator).len() > 0,
    ensures
        final(settlements)@.len() >= old(settlements)@.len(),
        completed_and_drained(old(heap), final(heap), generator, final(settlements)@.subrange(0, old(settlements)@.len() as int), old(settlements)@, AsyncGeneratorRequestCompletion::Throw(JsError::Thrown(reason)), r),
        final(settlements)@[old(settlements)@.len() as int] == (Settle::Reject {
            capability: old(heap).queue(generator)[0].capability,
            reason: JsError::Thrown(reason),
        }),
{
    // a. Assert: generator.[[AsyncGeneratorState]] is draining-queue.
    // b. Let result be ThrowCompletion(reason).
    await_return_settled(heap, settlements, generator, AsyncGeneratorRequestCompletion::Throw(JsError::Thrown(reason)))
}

/// ### [27.6.3.9 AsyncGeneratorAwaitReturn ( generator )](https://tc39.es/ecma262/#sec-asyncgeneratorawaitreturn), steps 7 to 16
///
/// The outcome of `PromiseResolve(%Promise%, completion.[[Value]])`: an
/// abrupt one completes the return request with it and drains the queue;
/// a promise is chained with the generator as both handlers (its outcome
/// comes back through [`AsyncGenerator::resume_await`]).
pub fn async_generator_await_return_on_promise(
    heap: &mut AsyncGeneratorHeap,
    settlements: &mut Vec<Settle>,
    generator: AsyncGenerator,
    promise_completion: Result<Value, JsError>,
) -> (r: Result<Value, AsyncGeneratorAction>)
    requires
        old(heap).contains(generator),
        old(heap).state(generator) is DrainingQueue,
        old(heap).queue(generator).len() > 0,
    ensures
        promise_completion matches Ok(p) ==> r == Ok::<Value, AsyncGeneratorAction>(p)
            && final(heap).generators@ == old(heap).generators@ && final(settlements)@ == old(settlements)@,
        promise_completion is Err ==> r is Err && final(settlements)@.len() >= old(settlements)@.len()
            && completed_and_drained(old(heap), final(heap), generator, final(settlements)@.subrange(0, old(settlements)@.len() as int),
                old(settlements)@, AsyncGeneratorRequestCompletion::Throw(promise_completion->Err_0), r->Err_0),
{
    match promise_completion {
        // 8. If promiseCompletion is an abrupt completion, then
        Err(e) => {
            // a. Perform AsyncGeneratorCompleteStep(generator, promiseCompletion, true).
            // b. Perform AsyncGeneratorDrainQueue(generator).
            // c. Return unused.
            Err(await_return_settled(heap, settlements, generator, AsyncGeneratorRequestCompletion::Throw(e)))
        },
        // 10. Let promise be promiseCompletion.[[Value]].
        // 15. Perform PerformPromiseThen(promise, onFulfilled, onRejected).
        Ok(promise) => Ok(promise),
    }
}

/// ### [27.6.3.8 AsyncGeneratorYield ( value )](https://tc39.es/ecma262/#sec-asyncgeneratoryield)
///
/// The first request is resolved with `{ value, done: false }` (made in the
/// previous context's realm). Where more requests wait, the generator goes
/// on executing with the next one's completion
/// (AsyncGeneratorUnwrapYieldResumption); else it is suspended at the yield.
pub fn async_generator_yield(
    heap: &mut AsyncGeneratorHeap,
    settlements: &mut Vec<Settle>,
    generator: AsyncGenerator,
    value: Value,
    vm: u32,
    execution_context: u32,
    previous_realm: u32,
) -> (r: AsyncGeneratorAction)
    requires
        old(heap).contains(generator),
        old(heap).state(generator) is Executing,
        old(heap).queue(generator).len() > 0,
    ensures
        ({
            let q = old(heap).queue(generator);
            let rest = q.subrange(1, q.len() as int);
            &&& final(heap).same_except(old(heap), generator)
            &&& final(heap).queue(generator) == rest
            &&& final(settlements)@ == old(settlements)@.push(spec_settle(q[0], AsyncGeneratorRequestCompletion::Normal(value), false, Some(previous_realm)))
            &&& rest.len() > 0 ==> final(heap).state(generator) is Executing
                && r == (AsyncGeneratorAction::ResumeVm { vm, completion: rest[0].completion })
            &&& rest.len() == 0 ==> final(heap).state(generator) == (AsyncGeneratorState::SuspendedYield { vm, execution_context })
                && r == AsyncGeneratorAction::Nothing
        }),
{
    // 5. Let completion be NormalCompletion(value).
    // 9. Perform AsyncGeneratorCompleteStep(generator, completion, false, previousRealm).
    async_generator_complete_step(heap, settlements, generator, AsyncGeneratorRequestCompletion::Normal(value), false, Some(previous_realm));
    // 10. Let queue be generator.[[AsyncGeneratorQueue]].
    // 11. If queue is not empty, then
    if !generator.queue_is_empty(heap) {
        // a. NOTE: Execution continues without suspending the generator.
        // b. Let toYield be the first element of queue.
        let to_yield = generator.peek_first(heap);
        // c. Let resumptionValue be Completion(toYield.[[Completion]]).
        // d. Return ? AsyncGeneratorUnwrapYieldResumption(resumptionValue).
        async_generator_unwrap_yield_resumption(vm, to_yield.completion)
    } else {
        // 12. Else,
        // a. Set generator.[[AsyncGeneratorState]] to suspended-yield.
        // b. Remove genContext from the execution context stack.
        generator.transition_to_suspended(heap, vm, execution_context);
        AsyncGeneratorAction::Nothing
    }
}

/// ### [27.6.3.7 AsyncGeneratorUnwrapYieldResumption ( resumptionValue )](https://tc39.es/ecma262/#sec-asyncgeneratorunwrapyieldresumption)
///
/// The generator's code goes on with the resumption value: a normal or
/// throw completion as it is, a return completion after awaiting its
/// value (which the bytecode does).
pub fn async_generator_unwrap_yield_resumption(vm: u32, resumption_value: AsyncGeneratorRequestCompletion) -> (r: AsyncGeneratorAction)
    ensures
        r == (AsyncGeneratorAction::ResumeVm { vm, completion: resumption_value }),
{
    AsyncGeneratorAction::ResumeVm { vm, completion: resumption_value }
}

/// Await inside the generator: it suspends its execution context on the
/// awaited value.
pub fn async_generator_perform_await(
    heap: &mut AsyncGeneratorHeap,
    generator: AsyncGenerator,
    vm: u32,
    execution_context: u32,
    awaited_value: Value,
    kind: AsyncGeneratorAwaitKind,
) -> (r: AsyncGeneratorAction)
    requires
        old(heap).contains(generator),
        old(heap).state(generator) is Executing,
    ensures
        final(heap).same_except(old(heap), generator),
        final(heap).state(generator) == (AsyncGeneratorState::ExecutingAwait { vm, execution_context, kind }),
        final(heap).queue(generator) == old(heap).queue(generator),
        r == AsyncGeneratorAction::PerformAwait(awaited_value),
{
    // 8. Remove asyncContext from the execution context stack.
    generator.transition_to_awaiting(heap, vm, kind, execution_context);
    // 2. Let promise be ? PromiseResolve(%Promise%, value).
    // 7. Perform PerformPromiseThen(promise, onFulfilled, onRejected).
    AsyncGeneratorAction::PerformAwait(awaited_value)
}

/// The end of a run of the generator's code. A return or a throw makes the
/// generator drain its queue: the first request completes with the result
/// (done true), then the queue is drained. A yield goes to
/// AsyncGeneratorYield; an await suspends the generator on the value.
pub fn resume_handle_result(
    heap: &mut AsyncGeneratorHeap,
    settlements: &mut Vec<Settle>,
    generator: AsyncGenerator,
    execution_result: AsyncExecutionResult,
    execution_context: u32,
    previous_realm: u32,
) -> (r: AsyncGeneratorAction)
    requires
        old(heap).contains(generator),
        old(heap).state(generator) is Executing,
        old(heap).queue(generator).len() > 0,
    ensures
        final(heap).same_except(old(heap), generator),
        execution_result matches AsyncExecutionResult::Return(v) ==> final(settlements)@.len() >= old(settlements)@.len()
            && final(settlements)@[old(settlements)@.len() as int] == spec_settle(old(heap).queue(generator)[0], AsyncGeneratorRequestCompletion::Normal(v), true, None)
            && completed_and_drained(old(heap), final(heap), generator, final(settlements)@.subrange(0, old(settlements)@.len() as int), old(settlements)@, AsyncGeneratorRequestCompletion::Normal(v), r),
        execution_result matches AsyncExecutionResult::Throw(e) ==> final(settlements)@.len() >= old(settlements)@.len()
            && final(settlements)@[old(settlements)@.len() as int] == spec_settle(old(heap).queue(generator)[0], AsyncGeneratorRequestCompletion::Throw(e), true, None)
            && completed_and_drained(old(heap), final(heap), generator, final(settlements)@.subrange(0, old(settlements)@.len() as int), old(settlements)@, AsyncGeneratorRequestCompletion::Throw(e), r),
        execution_result matches AsyncExecutionResult::Await { vm, awaited_value } ==> r == AsyncGeneratorAction::PerformAwait(awaited_value)
            && final(heap).state(generator) == (AsyncGeneratorState::ExecutingAwait { vm, execution_context, kind: AsyncGeneratorAwaitKind::Await })
            && final(heap).queue(generator) == old(heap).queue(generator) && final(settlements)@ == old(settlements)@,
        execution_result matches AsyncExecutionResult::Yield { vm, yielded_value } ==> ({
            let q = old(heap).queue(generator);
            let rest = q.subrange(1, q.len() as int);
            &&& final(heap).queue(generator) == rest
            &&& final(settlements)@ == old(settlements)@.push(spec_settle(q[0], AsyncGeneratorRequestCompletion::Normal(yielded_value), false, Some(previous_realm)))
            &&& rest.len() > 0 ==> final(heap).state(generator) is Executing
                && r == (AsyncGeneratorAction::ResumeVm { vm, completion: rest[0].completion })
            &&& rest.len() == 0 ==> final(heap).state(generator) == (AsyncGeneratorState::SuspendedYield { vm, execution_context })
                && r == AsyncGeneratorAction::Nothing
        }),
{
    match execution_result {
        AsyncExecutionResult::Return(result) => {
            // AsyncGeneratorStart step 4:
            // g. Set acGenerator.[[AsyncGeneratorState]] to draining-queue.
            generator.transition_to_draining_queue(heap);
            // i. If result is a return completion, set result to NormalCompletion(result.[[Value]]).
            // j. Perform AsyncGeneratorCompleteStep(acGenerator, result, true).
            // k. Perform AsyncGeneratorDrainQueue(acGenerator).
            await_return_settled(heap, settlements, generator, AsyncGeneratorRequestCompletion::Normal(result))
        },
        AsyncExecutionResult::Throw(err) => {
            // g. Set acGenerator.[[AsyncGeneratorState]] to draining-queue.
            generator.transition_to_draining_queue(heap);
            // j. Perform AsyncGeneratorCompleteStep(acGenerator, result, true).
            // k. Perform AsyncGeneratorDrainQueue(acGenerator).
            await_return_settled(heap, settlements, generator, AsyncGeneratorRequestCompletion::Throw(err))
        },
        AsyncExecutionResult::Yield { vm, yielded_value } => {
            // 27.5.3.7 Yield ( value ): return ? AsyncGeneratorYield(? Await(value)).
            async_generator_yield(heap, settlements, generator, yielded_value, vm, execution_context, previous_realm)
        },
        AsyncExecutionResult::Await { vm, awaited_value } => {
            async_generator_perform_await(heap, generator, vm, execution_context, awaited_value, AsyncGeneratorAwaitKind::Await)
        },
    }
}

/// The argument at `index`, or undefined.
pub open spec fn arg(arguments: &ArgumentsList, index: int) -> Value {
    if index < arguments.values@.len() { arguments.values@[index] } else { Value::Undefined }
}

/// ### [27.6.1.2 %AsyncGeneratorPrototype%.next ( value )](https://tc39.es/ecma262/#sec-asyncgenerator-prototype-next)
///
/// `capability` is the one NewPromiseCapability(%Promise%) made; the
/// method returns its promise. Where the this value is not an async
/// generator, the capability is rejected with a TypeError. A completed
/// generator resolves it with `{ undefined, done: true }`. Otherwise the
/// request is queued, and a suspended generator is resumed with it.
pub fn async_generator_prototype_next(
    heap: &mut AsyncGeneratorHeap,
    settlements: &mut Vec<Settle>,
    this_value: Value,
    arguments: &ArgumentsList,
    capability: PromiseCapability,
) -> (r: AsyncGeneratorAction)
    requires
        this_value matches Value::AsyncGenerator(g) ==> old(heap).contains(AsyncGenerator(g)),
    ensures
        !(this_value is AsyncGenerator) ==> r == AsyncGeneratorAction::Nothing && final(heap).generators@ == old(heap).generators@
            && final(settlements)@ == old(settlements)@.push(Settle::Reject { capability, reason: JsError::Exception(ExceptionType::TypeError) }),
        this_value matches Value::AsyncGenerator(gi) ==> {
            let g = AsyncGenerator(gi);
            let state = old(heap).state(g);
            let request = AsyncGeneratorRequest { completion: AsyncGeneratorRequestCompletion::Normal(arg(arguments, 0)), capability };
            &&& final(heap).same_except(old(heap), g)
            &&& state is Completed ==> r == AsyncGeneratorAction::Nothing && final(heap).generators@ == old(heap).generators@
                && final(settlements)@ == old(settlements)@.push(Settle::ResolveIterResult { capability, value: Value::Undefined, done: true, realm: None })
            &&& !(state is Completed) ==> final(settlements)@ == old(settlements)@
                && final(heap).queue(g) == old(heap).queue(g).push(request)
            &&& (state is SuspendedStart || state is SuspendedYield) ==> final(heap).state(g) is Executing
                && r == (AsyncGeneratorAction::ResumeVm {
                    vm: if state is SuspendedStart { state->SuspendedStart_vm } else { state->SuspendedYield_vm },
                    completion: request.completion,
                })
            &&& (state is Executing || state is ExecutingAwait || state is DrainingQueue) ==> final(heap).state(g) == state
                && r == AsyncGeneratorAction::Nothing
        },
{
    let value = arguments.get(0);
    // 3. Let result be Completion(AsyncGeneratorValidate(generator, empty)).
    // 4. IfAbruptRejectPromise(result, promiseCapability).
    let generator = match async_generator_validate(this_value) {
        Ok(g) => g,
        Err(e) => {
            settlements.push(Settle::Reject { capability, reason: e });
            return AsyncGeneratorAction::Nothing;
        },
    };
    // 5. Let state be generator.[[AsyncGeneratorState]].
    // 6. If state is completed, then
    if generator.is_completed(heap) {
        // a. Let iteratorResult be CreateIteratorResultObject(undefined, true).
        // b. Perform ! Call(promiseCapability.[[Resolve]], undefined, « iteratorResult »).
        settlements.push(Settle::ResolveIterResult { capability, value: Value::Undefined, done: true, realm: None });
        // c. Return promiseCapability.[[Promise]].
        return AsyncGeneratorAction::Nothing;
    }
    let state_is_suspended = heap.generators[generator.0 as usize].async_generator_state.is_suspended();
    // 7. Let completion be NormalCompletion(value).
    let completion = AsyncGeneratorRequestCompletion::Normal(value);
    // 8. Perform AsyncGeneratorEnqueue(generator, completion, promiseCapability).
    async_generator_enqueue(heap, generator, completion, capability);
    // 9. If state is either suspended-start or suspended-yield, then
    if state_is_suspended {
        // a. Perform AsyncGeneratorResume(generator, completion).
        async_generator_resume(heap, generator, completion)
    } else {
        // 10. Else,
        // a. Assert: state is either executing or draining-queue.
        AsyncGeneratorAction::Nothing
    }
    // 11. Return promiseCapability.[[Promise]].
}

/// ### [27.6.1.3 %AsyncGeneratorPrototype%.return ( value )](https://tc39.es/ecma262/#sec-asyncgenerator-prototype-return)
///
/// Where the this value is not an async generator, the capability is
/// rejected with a TypeError. Otherwise the return request is queued; a
/// generator that has not started or has completed drains its queue,
/// awaiting the value (AsyncGeneratorAwaitReturn); one suspended at a yield
/// is resumed with the return completion.
pub fn async_generator_prototype_return(
    heap: &mut AsyncGeneratorHeap,
    settlements: &mut Vec<Settle>,
    this_value: Value,
    arguments: &ArgumentsList,
    capability: PromiseCapability,
) -> (r: AsyncGeneratorAction)
    requires
        this_value matches Value::AsyncGenerator(g) ==> old(heap).contains(AsyncGenerator(g))
            && (old(heap).state(AsyncGenerator(g)) is SuspendedStart || old(heap).state(AsyncGenerator(g)) is Completed
                ==> old(heap).queue(AsyncGenerator(g)).len() == 0),
    ensures
        final(settlements)@ == (if this_value is AsyncGenerator {
            old(settlements)@
        } else {
            old(settlements)@.push(Settle::Reject { capability, reason: JsError::Exception(ExceptionType::TypeError) })
        }),
        !(this_value is AsyncGenerator) ==> r == AsyncGeneratorAction::Nothing && final(heap).generators@ == old(heap).generators@,
        this_value matches Value::AsyncGenerator(gi) ==> {
            let g = AsyncGenerator(gi);
            let state = old(heap).state(g);
            let value = arg(arguments, 0);
            let request = AsyncGeneratorRequest { completion: AsyncGeneratorRequestCompletion::Return(value), capability };
            &&& final(heap).same_except(old(heap), g)
            &&& final(heap).queue(g) == old(heap).queue(g).push(request)
            &&& (state is SuspendedStart || state is Completed) ==> final(heap).state(g) is DrainingQueue
                && r == AsyncGeneratorAction::AwaitReturn(value)
            &&& state is SuspendedYield ==> final(heap).state(g) is Executing
                && r == (AsyncGeneratorAction::ResumeVm { vm: state->SuspendedYield_vm, completion: request.completion })
            &&& (state is Executing || state is ExecutingAwait || state is DrainingQueue) ==> final(heap).state(g) == state
                && r == AsyncGeneratorAction::Nothing
        },
{
    let value = arguments.get(0);
    // 3. Let result be Completion(AsyncGeneratorValidate(generator, empty)).
    // 4. IfAbruptRejectPromise(result, promiseCapability).
    let generator = match async_generator_validate(this_value) {
        Ok(g) => g,
        Err(e) => {
            settlements.push(Settle::Reject { capability, reason: e });
            return AsyncGeneratorAction::Nothing;
        },
    };
    // 5. Let completion be ReturnCompletion(value).
    let completion = AsyncGeneratorRequestCompletion::Return(value);
    // 6. Perform AsyncGeneratorEnqueue(generator, completion, promiseCapability).
    async_generator_enqueue(heap, generator, completion, capability);
    // 7. Let state be generator.[[AsyncGeneratorState]].
    if generator.is_suspended_start(heap) || generator.is_completed(heap) {
        // 8. If state is either suspended-start or completed, then
        // a. Set generator.[[AsyncGeneratorState]] to draining-queue.
        generator.transition_to_draining_queue(heap);
        // b. Perform AsyncGeneratorAwaitReturn(generator).
        let first = generator.peek_first(heap);
        match first.completion {
            AsyncGeneratorRequestCompletion::Return(v) => AsyncGeneratorAction::AwaitReturn(v),
            _ => {
                assert(false);
                AsyncGeneratorAction::Nothing
            },
        }
    } else if generator.is_suspended_yield(heap) {
        // 9. Else if state is suspended-yield, then
        // a. Perform AsyncGeneratorResume(generator, completion).
        async_generator_resume(heap, generator, completion)
    } else {
        // 10. Else,
        // a. Assert: state is either executing or draining-queue.
        AsyncGeneratorAction::Nothing
    }
    // 11. Return promiseCapability.[[Promise]].
}

/// ### [27.6.1.4 %AsyncGeneratorPrototype%.throw ( exception )](https://tc39.es/ecma262/#sec-asyncgenerator-prototype-throw)
///
/// Where the this value is not an async generator, the capability is
/// rejected with a TypeError. A generator that has not started is
/// completed; a completed one rejects the capability with the exception.
/// Otherwise the throw request is queued, and a generator suspended at a
/// yield is resumed with it.
pub fn async_generator_prototype_throw(
    heap: &mut AsyncGeneratorHeap,
    settlements: &mut Vec<Settle>,
    this_value: Value,
    arguments: &ArgumentsList,
    capability: PromiseCapability,
) -> (r: AsyncGeneratorAction)
    requires
        this_value matches Value::AsyncGenerator(g) ==> old(heap).contains(AsyncGenerator(g)),
    ensures
        !(this_value is AsyncGenerator) ==> r == AsyncGeneratorAction::Nothing && final(heap).generators@ == old(heap).generators@
            && final(settlements)@ == old(settlements)@.push(Settle::Reject { capability, reason: JsError::Exception(ExceptionType::TypeError) }),
        this_value matches Value::AsyncGenerator(gi) ==> {
            let g = AsyncGenerator(gi);
            let state = old(heap).state(g);
            let exception = JsError::Thrown(arg(arguments, 0));
            let request = AsyncGeneratorRequest { completion: AsyncGeneratorRequestCompletion::Throw(exception), capability };
            &&& final(heap).same_except(old(heap), g)
            &&& (state is SuspendedStart || state is Completed) ==> final(heap).state(g) is Completed
                && final(heap).queue(g) == old(heap).queue(g) && r == AsyncGeneratorAction::Nothing
                && final(settlements)@ == old(settlements)@.push(Settle::Reject { capability, reason: exception })
            &&& !(state is SuspendedStart || state is Completed) ==> final(settlements)@ == old(settlements)@
                && final(heap).queue(g) == old(heap).queue(g).push(request)
            &&& state is SuspendedYield ==> final(heap).state(g) is Executing
                && r == (AsyncGeneratorAction::ResumeVm { vm: state->SuspendedYield_vm, completion: request.completion })
            &&& (state is Executing || state is ExecutingAwait || state is DrainingQueue) ==> final(heap).state(g) == state
                && r == AsyncGeneratorAction::Nothing
        },
{
    let exception = arguments.get(0);
    // 3. Let result be Completion(AsyncGeneratorValidate(generator, empty)).
    // 4. IfAbruptRejectPromise(result, promiseCapability).
    let generator = match async_generator_validate(this_value) {
        Ok(g) => g,
        Err(e) => {
            settlements.push(Settle::Reject { capability, reason: e });
            return AsyncGeneratorAction::Nothing;
        },
    };
    // 5. Let state be generator.[[AsyncGeneratorState]].
    // 6. If state is suspended-start, then
    if generator.is_suspended_start(heap) {
        // a. Set generator.[[AsyncGeneratorState]] to completed.
        // b. Set state to completed.
        generator.transition_to_complete(heap);
    }
    // 7. If state is completed, then
    if generator.is_completed(heap) {
        // a. Perform ! Call(promiseCapability.[[Reject]], undefined, « exception »).
        settlements.push(Settle::Reject { capability, reason: JsError::Thrown(exception) });
        // b. Return promiseCapability.[[Promise]].
        return AsyncGeneratorAction::Nothing;
    }
    // 8. Let completion be ThrowCompletion(exception).
    let completion = AsyncGeneratorRequestCompletion::Throw(JsError::Thrown(exception));
    // 9. Perform AsyncGeneratorEnqueue(generator, completion, promiseCapability).
    async_generator_enqueue(heap, generator, completion, capability);
    // 10. If state is suspended-yield, then
    if generator.is_suspended_yield(heap) {
        // a. Perform AsyncGeneratorResume(generator, completion).
        async_generator_resume(heap, generator, completion)
    } else {
        // 11. Else,
        // a. Assert: state is either executing or draining-queue.
        AsyncGeneratorAction::Nothing
    }
    // 12. Return promiseCapability.[[Promise]].
}

} // verus!
