//! The request slot of a view: at most one operation in flight, polled on
//! every redraw and consumed once when it has finished.

use vstd::prelude::*;

verus! {

/// How an operation ended, as the owner of its promise observes it.
#[derive(PartialEq, Debug)]
pub enum Completion<T> {
    /// The operation produced its value.
    Success(T),
    /// The operation itself reported an error, given here as text.
    Failure(String),
    /// The task that ran the operation ended abnormally, for the reason
    /// given here as text.
    TaskFailure(String),
}

/// The kinds of ending that the owner of a promise tells apart.
#[derive(Clone, Copy, PartialEq, Eq, Structural, Debug)]
pub enum CompletionKind {
    Success,
    Failure,
    TaskFailure,
}

impl<T> Completion<T> {
    /// The kind of the ending.
    pub open spec fn spec_kind(&self) -> CompletionKind {
        match self {
            Completion::Success(_) => CompletionKind::Success,
            Completion::Failure(_) => CompletionKind::Failure,
            Completion::TaskFailure(_) => CompletionKind::TaskFailure,
        }
    }

    /// The ending that a consumed promise stands for: the outer failure is
    /// the task's, the inner one the operation's.
    pub open spec fn spec_classify(outcome: Result<Result<T, String>, String>) -> Completion<T> {
        match outcome {
            Ok(Ok(value)) => Completion::Success(value),
            Ok(Err(error)) => Completion::Failure(error),
            Err(failure) => Completion::TaskFailure(failure),
        }
    }

    /// The kind of the ending.
    pub fn kind(&self) -> (kind: CompletionKind)
        ensures
            kind == self.spec_kind(),
    {
        match self {
            Completion::Success(_) => CompletionKind::Success,
            Completion::Failure(_) => CompletionKind::Failure,
            Completion::TaskFailure(_) => CompletionKind::TaskFailure,
        }
    }

    /// Tells apart the three endings of a consumed promise.
    pub fn classify(outcome: Result<Result<T, String>, String>) -> (completion: Completion<T>)
        ensures
            completion == Self::spec_classify(outcome),
    {
        match outcome {
            Ok(Ok(value)) => Completion::Success(value),
            Ok(Err(error)) => Completion::Failure(error),
            Err(failure) => Completion::TaskFailure(failure),
        }
    }
}

/// What the user can do about signing in, or about any slot that starts
/// idle.
#[derive(Clone, Copy, PartialEq, Eq, Structural, Debug)]
pub enum Status {
    /// Nothing was tried yet, or the last try succeeded.
    Ready,
    /// An operation is in flight.
    Waiting,
    /// The last try failed and nothing is in flight.
    Repeat,
}

/// The state of a view that is fed by asynchronous operations: the last
/// value that arrived, the message of the last failure, and the promise of
/// the operation in flight, if there is one.
pub struct Slot<T, P> {
    value: Option<T>,
    error_message: Option<String>,
    pending: Option<P>,
}

/// What a slot holds, its message as a sequence of characters.
pub struct SlotView<T, P> {
    pub value: Option<T>,
    pub error_message: Option<Seq<char>>,
    pub pending: Option<P>,
}

impl<T, P> View for Slot<T, P> {
    type V = SlotView<T, P>;

    closed spec fn view(&self) -> SlotView<T, P> {
        SlotView {
            value: self.value,
            error_message: match self.error_message {
                Some(text) => Some(text@),
                None => None,
            },
            pending: self.pending,
        }
    }
}

impl<T, P> SlotView<T, P> {
    /// No operation is in flight.
    pub open spec fn is_idle(self) -> bool {
        self.pending is None
    }

    /// How many promises the slot holds.
    pub open spec fn outstanding(self) -> nat {
        if self.pending is Some {
            1
        } else {
            0
        }
    }

    /// The slot after a request: an idle slot takes the promise, a busy one
    /// stays as it is.
    pub open spec fn submitted(self, promise: P) -> SlotView<T, P> {
        if self.is_idle() {
            SlotView { pending: Some(promise), ..self }
        } else {
            self
        }
    }

    /// The slot without its promise.
    pub open spec fn released(self) -> SlotView<T, P> {
        SlotView { pending: None, ..self }
    }

    /// The slot after the ending of an operation was applied: a success
    /// replaces the value and clears the message; a failure of either kind
    /// sets the message and leaves the value alone.
    pub open spec fn settled(self, completion: Completion<T>) -> SlotView<T, P> {
        match completion {
            Completion::Success(value) => SlotView {
                value: Some(value),
                error_message: None,
                ..self
            },
            Completion::Failure(error) => SlotView { error_message: Some(error@), ..self },
            Completion::TaskFailure(failure) => SlotView { error_message: Some(failure@), ..self },
        }
    }

    /// The slot after an ending was applied for an owner with a handler of
    /// its own for task failures: such a failure changes nothing here.
    pub open spec fn settled_escalating(self, completion: Completion<T>) -> SlotView<T, P> {
        match completion {
            Completion::TaskFailure(_) => self,
            _ => self.settled(completion),
        }
    }

    /// What the user can do next.
    pub open spec fn status(self) -> Status {
        if self.pending is Some {
            Status::Waiting
        } else if self.error_message is Some {
            Status::Repeat
        } else {
            Status::Ready
        }
    }
}

/// What can happen to a slot: the user asks for an operation, or a redraw
/// looks at the slot.
pub enum Interaction<T, P> {
    /// An operation was started and its promise is offered to the slot.
    Request(P),
    /// A redraw tick. `None`: the promise in flight, if there is one, has not
    /// finished. `Some`: it has, and consuming it gives this ending.
    Tick(Option<Completion<T>>),
}

impl<T, P> SlotView<T, P> {
    /// The slot after a redraw tick: a busy slot whose promise has finished
    /// gives the promise up and takes the ending; any other slot stays as it
    /// is.
    pub open spec fn ticked(self, observed: Option<Completion<T>>) -> SlotView<T, P> {
        match (self.pending, observed) {
            (Some(_), Some(completion)) => self.released().settled(completion),
            _ => self,
        }
    }

    /// The slot after one interaction.
    pub open spec fn after(self, interaction: Interaction<T, P>) -> SlotView<T, P> {
        match interaction {
            Interaction::Request(promise) => self.submitted(promise),
            Interaction::Tick(observed) => self.ticked(observed),
        }
    }

    /// Whether the interaction puts a promise into the slot.
    pub open spec fn accepts(self, interaction: Interaction<T, P>) -> bool {
        interaction is Request && self.is_idle()
    }

    /// Whether the interaction consumes the promise of the slot.
    pub open spec fn consumes(self, interaction: Interaction<T, P>) -> bool {
        interaction matches Interaction::Tick(Some(_)) && !self.is_idle()
    }

    /// The slot after a sequence of interactions.
    pub open spec fn run(self, trace: Seq<Interaction<T, P>>) -> SlotView<T, P>
        decreases trace.len(),
    {
        if trace.len() == 0 {
            self
        } else {
            self.run(trace.drop_last()).after(trace.last())
        }
    }

    /// How many promises the slot took in over a sequence of interactions.
    pub open spec fn accepted(self, trace: Seq<Interaction<T, P>>) -> nat
        decreases trace.len(),
    {
        if trace.len() == 0 {
            0
        } else {
            let before = self.run(trace.drop_last());
            self.accepted(trace.drop_last()) + if before.accepts(trace.last()) {
                1nat
            } else {
                0nat
            }
        }
    }

    /// How many promises were consumed over a sequence of interactions.
    pub open spec fn consumed(self, trace: Seq<Interaction<T, P>>) -> nat
        decreases trace.len(),
    {
        if trace.len() == 0 {
            0
        } else {
            let before = self.run(trace.drop_last());
            self.consumed(trace.drop_last()) + if before.consumes(trace.last()) {
                1nat
            } else {
                0nat
            }
        }
    }
}

/// Whatever the user and the redraw loop do, and in whatever order, a slot
/// never holds more than one promise, and no promise is lost or consumed
/// twice: the promises held at the start and those taken in since are the
/// promises consumed and those still held.
pub proof fn lemma_at_most_one_outstanding<T, P>(
    slot: SlotView<T, P>,
    trace: Seq<Interaction<T, P>>,
)
    ensures
        slot.run(trace).outstanding() <= 1,
        slot.outstanding() + slot.accepted(trace) == slot.consumed(trace) + slot.run(
            trace,
        ).outstanding(),
    decreases trace.len(),
{
    if trace.len() > 0 {
        lemma_at_most_one_outstanding(slot, trace.drop_last());
    }
}

/// A request that meets a busy slot changes nothing: the promise in flight
/// stays the only one.
pub proof fn lemma_busy_slot_refuses<T, P>(slot: SlotView<T, P>, promise: P)
    requires
        !slot.is_idle(),
    ensures
        slot.after(Interaction::Request(promise)) == slot,
{
}

/// Once its promise has finished, a busy slot consumes it at the next tick
/// and is idle again, whatever the ending was; the ticks that follow find
/// nothing more to consume and change nothing.
pub proof fn lemma_consumed_exactly_once<T, P>(
    slot: SlotView<T, P>,
    completion: Completion<T>,
    later: Option<Completion<T>>,
)
    requires
        !slot.is_idle(),
    ensures
        slot.consumes(Interaction::Tick(Some(completion))),
        slot.ticked(Some(completion)).is_idle(),
        !slot.ticked(Some(completion)).consumes(Interaction::Tick(later)),
        slot.ticked(Some(completion)).ticked(later) == slot.ticked(Some(completion)),
{
}

/// A failure of either kind leaves the value of the slot as it was and sets
/// its message; the two kinds stay apart where the ending is handled.
pub proof fn lemma_failure_keeps_value<T, P>(slot: SlotView<T, P>, error: String, failure: String)
    ensures
        slot.settled(Completion::Failure(error)).value == slot.value,
        slot.settled(Completion::Failure(error)).error_message == Some(error@),
        slot.settled(Completion::TaskFailure(failure)).value == slot.value,
        slot.settled(Completion::TaskFailure(failure)).error_message == Some(failure@),
        Completion::<T>::Failure(error).spec_kind() != Completion::<T>::TaskFailure(
            failure,
        ).spec_kind(),
{
}

impl<T, P> Slot<T, P> {
    /// An idle slot that has seen nothing yet.
    pub fn new() -> (slot: Self)
        ensures
            slot@ == (SlotView::<T, P> { value: None, error_message: None, pending: None }),
    {
        Slot { value: None, error_message: None, pending: None }
    }

    /// A slot that starts with an operation in flight.
    pub fn with_request(promise: P) -> (slot: Self)
        ensures
            slot@ == (SlotView::<T, P> { value: None, error_message: None, pending: Some(promise) }),
    {
        Slot { value: None, error_message: None, pending: Some(promise) }
    }

    /// Whether a new operation may be started: the controls that start one
    /// are enabled exactly then.
    pub fn is_idle(&self) -> (idle: bool)
        ensures
            idle == self@.is_idle(),
    {
        self.pending.is_none()
    }

    /// The last value that arrived.
    pub fn value(&self) -> (value: Option<&T>)
        ensures
            match value {
                Some(held) => self@.value == Some(*held),
                None => self@.value is None,
            },
    {
        self.value.as_ref()
    }

    /// The last value that arrived, for an owner that works on it in place.
    /// Message and promise stay as they are.
    pub fn value_mut(&mut self) -> (value: Option<&mut T>)
        ensures
            match value {
                Some(held) => old(self)@.value == Some(*held) && final(self)@ == (SlotView {
                    value: Some(*final(held)),
                    ..old(self)@
                }),
                None => old(self)@.value is None && final(self)@ == old(self)@,
            },
    {
        self.value.as_mut()
    }

    /// The message of the last failure, until a success clears it.
    pub fn error_message(&self) -> (message: Option<&String>)
        ensures
            match message {
                Some(text) => self@.error_message == Some(text@),
                None => self@.error_message is None,
            },
    {
        self.error_message.as_ref()
    }

    /// The promise of the operation in flight.
    pub fn pending(&self) -> (promise: Option<&P>)
        ensures
            match promise {
                Some(held) => self@.pending == Some(*held),
                None => self@.pending is None,
            },
    {
        self.pending.as_ref()
    }

    /// What the user can do next.
    pub fn authorization_status(&self) -> (status: Status)
        ensures
            status == self@.status(),
    {
        if self.pending.is_none() {
            if self.error_message.is_none() {
                Status::Ready
            } else {
                Status::Repeat
            }
        } else {
            Status::Waiting
        }
    }

    /// Hands the slot the promise of a new operation. An idle slot takes it;
    /// a busy slot keeps the promise it has and gives the new one back.
    pub fn submit(&mut self, promise: P) -> (rejected: Option<P>)
        ensures
            final(self)@ == old(self)@.submitted(promise),
            rejected == if old(self)@.is_idle() {
                None
            } else {
                Some(promise)
            },
    {
        if self.pending.is_none() {
            self.pending = Some(promise);
            None
        } else {
            Some(promise)
        }
    }

    /// Takes the value out of the slot, for an owner that moves on with it.
    pub fn take_value(&mut self) -> (value: Option<T>)
        ensures
            value == old(self)@.value,
            final(self)@ == (SlotView { value: None, ..old(self)@ }),
    {
        self.value.take()
    }

    /// Applies the ending of an operation whose promise was consumed.
    pub fn settle(&mut self, completion: Completion<T>)
        ensures
            final(self)@ == old(self)@.settled(completion),
    {
        match completion {
            Completion::Success(value) => {
                self.value = Some(value);
                self.error_message = None;
            },
            Completion::Failure(error) => {
                self.error_message = Some(error);
            },
            Completion::TaskFailure(failure) => {
                self.error_message = Some(failure);
            },
        }
    }

    /// Applies the ending of an operation for an owner with a handler of its
    /// own for task failures: such a failure is handed back for the handler
    /// and changes nothing in the slot.
    pub fn settle_escalating(&mut self, completion: Completion<T>) -> (escalated: Option<String>)
        ensures
            final(self)@ == old(self)@.settled_escalating(completion),
            match completion {
                Completion::TaskFailure(failure) => escalated == Some(failure),
                _ => escalated is None,
            },
    {
        match completion {
            Completion::TaskFailure(failure) => Some(failure),
            other => {
                self.settle(other);
                None
            },
        }
    }

    /// One redraw tick. An idle slot stays as it is. A busy slot asks
    /// `is_finished` about its promise: while the answer is no, nothing
    /// changes; once it is yes, the promise leaves the slot for `take`, which
    /// consumes it, and the ending that `take` returns is applied.
    pub fn drive<F, G>(&mut self, is_finished: F, take: G) where
        F: FnOnce(&P) -> bool,
        G: FnOnce(P) -> Completion<T>,

        requires
            old(self)@.pending matches Some(promise) ==> call_requires(is_finished, (&promise,))
                && call_requires(take, (promise,)),
        ensures
            match old(self)@.pending {
                None => final(self)@ == old(self)@,
                Some(promise) => {
                    ||| call_ensures(is_finished, (&promise,), false) && final(self)@ == old(
                        self,
                    )@
                    ||| call_ensures(is_finished, (&promise,), true) && exists|
                        completion: Completion<T>,
                    |
                        call_ensures(take, (promise,), completion) && final(self)@ == old(
                            self,
                        )@.released().settled(completion)
                },
            },
            exists|observed: Option<Completion<T>>|
                final(self)@ == #[trigger] old(self)@.ticked(observed),
    {
        let promise = match self.pending.take() {
            Some(promise) => promise,
            None => {
                assert(self@ == old(self)@.ticked(None));
                return ;
            },
        };
        if !is_finished(&promise) {
            self.pending = Some(promise);
            assert(self@ == old(self)@.ticked(None));
            return ;
        }
        let completion = take(promise);
        self.settle(completion);
        assert(self@ == old(self)@.ticked(Some(completion)));
    }

    /// One redraw tick for an owner with a handler of its own for task
    /// failures. It goes as `drive` does, but a task failure is handed back
    /// for the handler and leaves value and message as they were.
    pub fn drive_escalating<F, G>(&mut self, is_finished: F, take: G) -> (escalated: Option<
        String,
    >) where F: FnOnce(&P) -> bool, G: FnOnce(P) -> Completion<T>
        requires
            old(self)@.pending matches Some(promise) ==> call_requires(is_finished, (&promise,))
                && call_requires(take, (promise,)),
        ensures
            match old(self)@.pending {
                None => final(self)@ == old(self)@ && escalated is None,
                Some(promise) => {
                    ||| call_ensures(is_finished, (&promise,), false) && final(self)@ == old(
                        self,
                    )@ && escalated is None
                    ||| call_ensures(is_finished, (&promise,), true) && exists|
                        completion: Completion<T>,
                    |
                        {
                            &&& call_ensures(take, (promise,), completion)
                            &&& final(self)@ == old(self)@.released().settled_escalating(
                                completion,
                            )
                            &&& match completion {
                                Completion::TaskFailure(failure) => escalated == Some(failure),
                                _ => escalated is None,
                            }
                        }
                },
            },
    {
        let promise = match self.pending.take() {
            Some(promise) => promise,
            None => { return None; },
        };
        if !is_finished(&promise) {
            self.pending = Some(promise);
            return None;
        }
        let completion = take(promise);
        self.settle_escalating(completion)
    }
}

} // verus!
