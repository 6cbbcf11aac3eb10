//! The retry engine for one order: a state machine that is told what
//! happened and answers with what to do next.

use vstd::prelude::*;
use crate::retry::RetryDelay;
use crate::strategy_manager::{Order, Strategy, TradeError, TradingClient};

verus! {

/// Where the execution of one order stands.
#[derive(Clone, Copy, Debug, PartialEq, Eq, Structural)]
pub enum ExecutionState {
    /// The order exists and has not been submitted.
    Pending,
    /// A submission is under way.
    Executing,
    /// The last submission failed and the wait before the next one runs.
    RetryScheduled,
    /// A submission went through. Terminal.
    Succeeded,
    /// Every allowed submission failed. Terminal.
    Failed,
}

/// What the caller reports to the engine.
#[derive(Clone, Copy, Debug, PartialEq, Eq, Structural)]
pub enum ExecutionEvent {
    /// The execution is to begin.
    Started,
    /// The broker accepted the submission.
    AttemptSucceeded,
    /// The broker refused the submission, or could not be reached.
    AttemptFailed,
    /// The wait before the next submission is over.
    DelayElapsed,
}

/// What the engine asks of the caller.
#[derive(Debug, PartialEq, Eq)]
pub enum ExecutionAction {
    /// Submit this order to the broker and report how it went.
    Submit(Order),
    /// Wait this long, then report that the wait is over.
    Wait(RetryDelay),
    /// The order went through: report it and stop.
    ReportSuccess,
    /// The order did not go through: report this error and stop.
    ReportFailure(TradeError),
    /// The event does not apply in this state: nothing to do.
    Nothing,
}

/// The engine as contracts see it.
pub struct Execution {
    pub order: Order,
    pub max_retries: u8,
    pub retry_delay: RetryDelay,
    pub state: ExecutionState,
    /// The submissions that have failed so far.
    pub failures: nat,
}

impl Execution {
    /// The failure count fits the state: submissions after the first happen
    /// only while fewer than `max_retries` have failed.
    pub open spec fn wf(self) -> bool {
        match self.state {
            ExecutionState::Pending => self.failures == 0,
            ExecutionState::Executing => self.failures <= self.max_retries,
            ExecutionState::RetryScheduled => 1 <= self.failures <= self.max_retries,
            ExecutionState::Succeeded => self.failures <= self.max_retries,
            ExecutionState::Failed => self.failures == self.max_retries + 1,
        }
    }

    /// No submission has been made, and the policy is that of `strategy`.
    pub open spec fn is_fresh_for(self, strategy: Strategy) -> bool {
        &&& self.state == ExecutionState::Pending
        &&& self.failures == 0
        &&& self.max_retries == strategy.max_event_retries
        &&& self.retry_delay == strategy.event_retry_delay
    }

    /// The execution has reached a state that it never leaves.
    pub open spec fn is_terminal(self) -> bool {
        self.state == ExecutionState::Succeeded || self.state == ExecutionState::Failed
    }

    /// The submissions made so far, the one under way included.
    pub open spec fn attempts(self) -> nat {
        match self.state {
            ExecutionState::Pending => 0,
            ExecutionState::Executing => self.failures + 1,
            ExecutionState::RetryScheduled => self.failures,
            ExecutionState::Succeeded => self.failures + 1,
            ExecutionState::Failed => self.failures,
        }
    }

    /// After a failed submission another one is allowed.
    pub open spec fn may_retry(self) -> bool {
        self.failures < self.max_retries
    }

    /// The execution after `event`. An event that does not apply in the
    /// current state changes nothing.
    pub open spec fn next(self, event: ExecutionEvent) -> Execution {
        match (self.state, event) {
            (ExecutionState::Pending, ExecutionEvent::Started) => Execution {
                state: ExecutionState::Executing,
                ..self
            },
            (ExecutionState::Executing, ExecutionEvent::AttemptSucceeded) => Execution {
                state: ExecutionState::Succeeded,
                ..self
            },
            (ExecutionState::Executing, ExecutionEvent::AttemptFailed) => Execution {
                state: if self.may_retry() {
                    ExecutionState::RetryScheduled
                } else {
                    ExecutionState::Failed
                },
                failures: self.failures + 1,
                ..self
            },
            (ExecutionState::RetryScheduled, ExecutionEvent::DelayElapsed) => Execution {
                state: ExecutionState::Executing,
                ..self
            },
            _ => self,
        }
    }

    /// What the caller is asked to do after `event`.
    pub open spec fn action(self, event: ExecutionEvent) -> ExecutionAction {
        match (self.state, event) {
            (ExecutionState::Pending, ExecutionEvent::Started) => ExecutionAction::Submit(
                self.order,
            ),
            (
                ExecutionState::Executing,
                ExecutionEvent::AttemptSucceeded,
            ) => ExecutionAction::ReportSuccess,
            (ExecutionState::Executing, ExecutionEvent::AttemptFailed) => if self.may_retry() {
                ExecutionAction::Wait(self.retry_delay)
            } else {
                ExecutionAction::ReportFailure(TradeError::MaxRetriesReached(self.order))
            },
            (ExecutionState::RetryScheduled, ExecutionEvent::DelayElapsed) => ExecutionAction::Submit(
                self.order,
            ),
            _ => ExecutionAction::Nothing,
        }
    }

    /// The execution after the events `events`, in their order.
    pub open spec fn run(self, events: Seq<ExecutionEvent>) -> Execution
        decreases events.len(),
    {
        if events.len() == 0 {
            self
        } else {
            self.run(events.drop_last()).next(events.last())
        }
    }

    /// The event that reports the outcome `went_through` of a submission.
    pub open spec fn outcome_event(went_through: bool) -> ExecutionEvent {
        if went_through {
            ExecutionEvent::AttemptSucceeded
        } else {
            ExecutionEvent::AttemptFailed
        }
    }

    /// The execution after a caller has carried it on from the submission
    /// under way, against a broker whose submissions turn out as `outcomes`
    /// from position `from` on: each outcome is reported, each wait asked for
    /// is served, and the caller stops at a terminal state or when the
    /// outcomes run out.
    pub open spec fn drive(self, outcomes: Seq<bool>, from: int) -> Execution
        decreases outcomes.len() - from,
    {
        if self.state != ExecutionState::Executing || from < 0 || from >= outcomes.len() {
            self
        } else {
            let reported = self.next(Self::outcome_event(outcomes[from]));
            let resumed = reported.next(ExecutionEvent::DelayElapsed);
            resumed.drive(outcomes, from + 1)
        }
    }
}

/// The retry engine for one order. It makes no call and keeps no clock: the
/// caller submits and waits as asked, and reports back.
#[derive(Debug)]
pub struct TradeExecutor {
    order: Order,
    max_retries: u8,
    retry_delay: RetryDelay,
    state: ExecutionState,
    failures: u16,
}

impl View for TradeExecutor {
    type V = Execution;

    closed spec fn view(&self) -> Execution {
        Execution {
            order: self.order,
            max_retries: self.max_retries,
            retry_delay: self.retry_delay,
            state: self.state,
            failures: self.failures as nat,
        }
    }
}

impl TradeExecutor {
    #[verifier::type_invariant]
    spec fn well_formed(self) -> bool {
        self@.wf()
    }

    /// An engine for `order` that has made no submission yet and allows
    /// `max_retries` submissions after the first, `retry_delay` apart.
    pub fn new(order: Order, max_retries: u8, retry_delay: RetryDelay) -> (executor: TradeExecutor)
        ensures
            executor@ == (Execution {
                order,
                max_retries,
                retry_delay,
                state: ExecutionState::Pending,
                failures: 0,
            }),
            executor@.wf(),
    {
        TradeExecutor { order, max_retries, retry_delay, state: ExecutionState::Pending, failures: 0 }
    }

    /// The order that every submission carries.
    pub fn order(&self) -> (order: Order)
        ensures
            order == self@.order,
    {
        self.order
    }

    /// Where the execution stands.
    pub fn state(&self) -> (state: ExecutionState)
        ensures
            state == self@.state,
    {
        self.state
    }

    /// The submissions allowed after the first.
    pub fn max_retries(&self) -> (n: u8)
        ensures
            n == self@.max_retries,
    {
        self.max_retries
    }

    /// The wait between two submissions.
    pub fn retry_delay(&self) -> (delay: RetryDelay)
        ensures
            delay == self@.retry_delay,
    {
        self.retry_delay
    }

    /// The submissions that have failed so far.
    pub fn failures(&self) -> (n: u16)
        ensures
            n == self@.failures,
    {
        self.failures
    }

    /// The submissions made so far, the one under way included.
    pub fn attempts(&self) -> (n: u16)
        ensures
            n == self@.attempts(),
            self@.wf(),
    {
        proof {
            use_type_invariant(self);
        }
        match self.state {
            ExecutionState::Pending => 0,
            ExecutionState::Executing => self.failures + 1,
            ExecutionState::RetryScheduled => self.failures,
            ExecutionState::Succeeded => self.failures + 1,
            ExecutionState::Failed => self.failures,
        }
    }

    /// The execution has succeeded or failed for good.
    pub fn is_terminal(&self) -> (done: bool)
        ensures
            done == self@.is_terminal(),
    {
        match self.state {
            ExecutionState::Succeeded => true,
            ExecutionState::Failed => true,
            _ => false,
        }
    }

    /// Takes in `event` and says what to do next.
    ///
    /// The order and the retry policy never change. A failed submission is
    /// followed by a wait of exactly the configured delay while fewer than
    /// `max_retries` submissions had failed before it, and by the terminal
    /// `MaxRetriesReached` otherwise.
    pub fn step(&mut self, event: ExecutionEvent) -> (action: ExecutionAction)
        ensures
            final(self)@ == old(self)@.next(event),
            action == old(self)@.action(event),
            old(self)@.wf(),
            final(self)@.wf(),
    {
        proof {
            use_type_invariant(&*self);
        }
        match (self.state, event) {
            (ExecutionState::Pending, ExecutionEvent::Started) => {
                self.state = ExecutionState::Executing;
                ExecutionAction::Submit(self.order)
            },
            (ExecutionState::Executing, ExecutionEvent::AttemptSucceeded) => {
                self.state = ExecutionState::Succeeded;
                ExecutionAction::ReportSuccess
            },
            (ExecutionState::Executing, ExecutionEvent::AttemptFailed) => {
                let retry = self.failures < self.max_retries as u16;
                *self = TradeExecutor {
                    order: self.order,
                    max_retries: self.max_retries,
                    retry_delay: self.retry_delay,
                    state: if retry {
                        ExecutionState::RetryScheduled
                    } else {
                        ExecutionState::Failed
                    },
                    failures: self.failures + 1,
                };
                if retry {
                    ExecutionAction::Wait(self.retry_delay)
                } else {
                    ExecutionAction::ReportFailure(TradeError::MaxRetriesReached(self.order))
                }
            },
            (ExecutionState::RetryScheduled, ExecutionEvent::DelayElapsed) => {
                self.state = ExecutionState::Executing;
                ExecutionAction::Submit(self.order)
            },
            _ => ExecutionAction::Nothing,
        }
    }

    /// The event that reports what a broker answered to a submission.
    pub fn outcome_event(answer: &Result<(), TradeError>) -> (event: ExecutionEvent)
        ensures
            event == Execution::outcome_event(answer.is_ok()),
    {
        match answer {
            Ok(_) => ExecutionEvent::AttemptSucceeded,
            Err(_) => ExecutionEvent::AttemptFailed,
        }
    }

    /// Makes the submission that is under way through `client` and takes in
    /// its outcome. Where no submission is under way, `client` is not called
    /// and nothing changes.
    pub fn attempt<C: TradingClient>(&mut self, client: &C) -> (action: ExecutionAction)
        ensures
            old(self)@.wf(),
            final(self)@.wf(),
            old(self)@.state != ExecutionState::Executing ==> final(self)@ == old(self)@ && action
                == ExecutionAction::Nothing,
            old(self)@.state == ExecutionState::Executing ==> exists|went_through: bool|
                {
                    let event = #[trigger] Execution::outcome_event(went_through);
                    final(self)@ == old(self)@.next(event) && action == old(self)@.action(event)
                },
    {
        proof {
            use_type_invariant(&*self);
        }
        match self.state {
            ExecutionState::Executing => {
                let answer = client.execute_order(&self.order);
                let event = Self::outcome_event(&answer);
                self.step(event)
            },
            _ => ExecutionAction::Nothing,
        }
    }
}

/// The order and the retry policy of an execution are the same after any
/// events, and a well-formed execution stays well-formed.
pub proof fn law_order_is_stable(execution: Execution, events: Seq<ExecutionEvent>)
    requires
        execution.wf(),
    ensures
        execution.run(events).order == execution.order,
        execution.run(events).max_retries == execution.max_retries,
        execution.run(events).retry_delay == execution.retry_delay,
        execution.run(events).wf(),
    decreases events.len(),
{
    if events.len() > 0 {
        law_order_is_stable(execution, events.drop_last());
    }
}

/// Whatever the state and the event, an order that the engine asks to be
/// submitted is the order that the execution was made for.
pub proof fn law_submissions_carry_the_order(execution: Execution, event: ExecutionEvent)
    ensures
        forall|order: Order|
            execution.action(event) == ExecutionAction::Submit(order) ==> order == execution.order,
        forall|order: Order|
            execution.action(event) == ExecutionAction::ReportFailure(
                TradeError::MaxRetriesReached(order),
            ) ==> order == execution.order,
        forall|delay: RetryDelay|
            execution.action(event) == ExecutionAction::Wait(delay) ==> delay
                == execution.retry_delay,
{
}

/// Each change of state is told to the caller: the engine reports success
/// exactly when it enters `Succeeded`, reports `MaxRetriesReached` with its
/// order exactly when it enters `Failed`, asks for the configured wait exactly
/// when it enters `RetryScheduled`, and asks for a submission exactly when it
/// enters `Executing`.
pub proof fn law_every_transition_is_announced(execution: Execution, event: ExecutionEvent)
    ensures
        execution.action(event) == ExecutionAction::ReportSuccess <==> execution.state
            != ExecutionState::Succeeded && execution.next(event).state
            == ExecutionState::Succeeded,
        execution.action(event) == ExecutionAction::ReportFailure(
            TradeError::MaxRetriesReached(execution.order),
        ) <==> execution.state != ExecutionState::Failed && execution.next(event).state
            == ExecutionState::Failed,
        execution.action(event) == ExecutionAction::Wait(execution.retry_delay) <==> execution.state
            != ExecutionState::RetryScheduled && execution.next(event).state
            == ExecutionState::RetryScheduled,
        execution.action(event) == ExecutionAction::Submit(execution.order) <==> execution.state
            != ExecutionState::Executing && execution.next(event).state
            == ExecutionState::Executing,
        execution.action(event) == ExecutionAction::Nothing <==> execution.next(event).state
            == execution.state,
{
}

/// A terminal state is never left, and asks for nothing more.
pub proof fn law_terminal_is_final(execution: Execution, event: ExecutionEvent)
    requires
        execution.is_terminal(),
    ensures
        execution.next(event) == execution,
        execution.action(event) == ExecutionAction::Nothing,
{
}

/// Against a broker that fails `k` times and then succeeds, with `k` no more
/// than `max_retries`, a fresh execution succeeds with its submission number
/// `k + 1`.
pub proof fn law_succeeds_within_budget(execution: Execution, outcomes: Seq<bool>, k: nat)
    requires
        execution.state == ExecutionState::Pending,
        execution.failures == 0,
        k <= execution.max_retries,
        k < outcomes.len(),
        forall|i: int| 0 <= i < k ==> !outcomes[i],
        outcomes[k as int],
    ensures
        execution.next(ExecutionEvent::Started).drive(outcomes, 0).state
            == ExecutionState::Succeeded,
        execution.next(ExecutionEvent::Started).drive(outcomes, 0).attempts() == k + 1,
        execution.next(ExecutionEvent::Started).drive(outcomes, 0).order == execution.order,
{
    lemma_drive_to_success(execution.next(ExecutionEvent::Started), outcomes, 0, k);
}

/// Against a broker whose first `max_retries + 1` submissions all fail, a
/// fresh execution fails for good after exactly `max_retries + 1` submissions.
pub proof fn law_fails_after_budget(execution: Execution, outcomes: Seq<bool>)
    requires
        execution.state == ExecutionState::Pending,
        execution.failures == 0,
        outcomes.len() > execution.max_retries,
        forall|i: int| 0 <= i <= execution.max_retries ==> !outcomes[i],
    ensures
        execution.next(ExecutionEvent::Started).drive(outcomes, 0).state == ExecutionState::Failed,
        execution.next(ExecutionEvent::Started).drive(outcomes, 0).attempts()
            == execution.max_retries + 1,
        execution.next(ExecutionEvent::Started).drive(outcomes, 0).order == execution.order,
{
    lemma_drive_to_failure(execution.next(ExecutionEvent::Started), outcomes, 0);
}

proof fn lemma_drive_to_success(execution: Execution, outcomes: Seq<bool>, from: nat, k: nat)
    requires
        execution.state == ExecutionState::Executing,
        execution.failures == from,
        from <= k <= execution.max_retries,
        k < outcomes.len(),
        forall|i: int| 0 <= i < k ==> !outcomes[i],
        outcomes[k as int],
    ensures
        execution.drive(outcomes, from as int).state == ExecutionState::Succeeded,
        execution.drive(outcomes, from as int).failures == k,
        execution.drive(outcomes, from as int).order == execution.order,
    decreases k - from,
{
    let reported = execution.next(Execution::outcome_event(outcomes[from as int]));
    let resumed = reported.next(ExecutionEvent::DelayElapsed);
    if from < k {
        lemma_drive_to_success(resumed, outcomes, (from + 1) as nat, k);
    } else {
        assert(resumed.state == ExecutionState::Succeeded);
        assert(resumed.drive(outcomes, from as int + 1) == resumed);
    }
}

proof fn lemma_drive_to_failure(execution: Execution, outcomes: Seq<bool>, from: nat)
    requires
        execution.state == ExecutionState::Executing,
        execution.failures == from,
        from <= execution.max_retries,
        outcomes.len() > execution.max_retries,
        forall|i: int| 0 <= i <= execution.max_retries ==> !outcomes[i],
    ensures
        execution.drive(outcomes, from as int).state == ExecutionState::Failed,
        execution.drive(outcomes, from as int).failures == execution.max_retries + 1,
        execution.drive(outcomes, from as int).order == execution.order,
    decreases execution.max_retries - from,
{
    let reported = execution.next(Execution::outcome_event(outcomes[from as int]));
    let resumed = reported.next(ExecutionEvent::DelayElapsed);
    if from < execution.max_retries {
        lemma_drive_to_failure(resumed, outcomes, (from + 1) as nat);
    } else {
        assert(resumed.state == ExecutionState::Failed);
        assert(resumed.drive(outcomes, from as int + 1) == resumed);
    }
}

} // verus!
