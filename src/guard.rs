use vstd::prelude::*;

verus! {

/// How the protected work left the guarded region.
#[derive(Clone, Copy, Debug, PartialEq, Eq, Structural)]
pub enum WorkExit {
    /// The work ran to completion and returned.
    Returned,
    /// The work left early: an error was propagated, the stack unwound, or it returned early.
    LeftEarly,
    /// The work ended the whole process itself, with this exit status.
    ProcessExit(i32),
}

/// How the process ends once a guarded region is left.
#[derive(Clone, Copy, Debug, PartialEq, Eq, Structural)]
pub enum Termination {
    /// Immediate abort: no unwinding, no destructors.
    Abort,
    /// Exit with the status that the protected work chose.
    Exit(i32),
}

/// Where a guard stands in its life.
#[derive(Clone, Copy, Debug, PartialEq, Eq, Structural)]
pub enum GuardPhase {
    /// Made, but the protected work has not started.
    Created,
    /// The protected work is running.
    Active,
    /// The protected work ended the process itself before teardown.
    TerminatedBySelf(i32),
    /// Teardown was reached; the process aborts.
    TornDown,
}

/// What happens to a guard.
#[derive(Clone, Copy, Debug, PartialEq, Eq, Structural)]
pub enum GuardEvent {
    /// The guarded region is entered.
    Enter,
    /// The protected work ended in the given way.
    WorkEnded(WorkExit),
}

/// What the guard asks its runner to do next.
#[derive(Clone, Copy, Debug, PartialEq, Eq, Structural)]
pub enum GuardAction {
    /// Run the protected work.
    RunWork,
    /// End the process in the given way.
    Terminate(Termination),
    /// Nothing: the event does not apply to the guard in its phase.
    Ignore,
}

/// The way the process ends when the protected work ended by `exit`:
/// only an exit that the work made itself escapes the abort.
pub open spec fn termination_of(exit: WorkExit) -> Termination {
    match exit {
        WorkExit::ProcessExit(status) => Termination::Exit(status),
        _ => Termination::Abort,
    }
}

/// The phase a guard ends in when the protected work ended by `exit`.
pub open spec fn phase_after(exit: WorkExit) -> GuardPhase {
    match exit {
        WorkExit::ProcessExit(status) => GuardPhase::TerminatedBySelf(status),
        _ => GuardPhase::TornDown,
    }
}

/// A phase from which the process has ended.
pub open spec fn is_terminal(phase: GuardPhase) -> bool {
    phase is TerminatedBySelf || phase is TornDown
}

/// One transition of a guard: its next phase and the action it asks for.
pub open spec fn step_spec(phase: GuardPhase, event: GuardEvent) -> (GuardPhase, GuardAction) {
    match (phase, event) {
        (GuardPhase::Created, GuardEvent::Enter) => (GuardPhase::Active, GuardAction::RunWork),
        (GuardPhase::Active, GuardEvent::WorkEnded(exit)) => (
            phase_after(exit),
            GuardAction::Terminate(termination_of(exit)),
        ),
        _ => (phase, GuardAction::Ignore),
    }
}

/// How the process ends when the protected work ended by `exit`.
pub fn teardown(exit: WorkExit) -> (t: Termination)
    ensures
        t == termination_of(exit),
{
    match exit {
        WorkExit::ProcessExit(status) => Termination::Exit(status),
        WorkExit::Returned => Termination::Abort,
        WorkExit::LeftEarly => Termination::Abort,
    }
}

/// Moves a guard in `phase` on by `event`.
pub fn step(phase: GuardPhase, event: GuardEvent) -> (r: (GuardPhase, GuardAction))
    ensures
        r == step_spec(phase, event),
{
    match (phase, event) {
        (GuardPhase::Created, GuardEvent::Enter) => (GuardPhase::Active, GuardAction::RunWork),
        (GuardPhase::Active, GuardEvent::WorkEnded(exit)) => {
            let next = match exit {
                WorkExit::ProcessExit(status) => GuardPhase::TerminatedBySelf(status),
                _ => GuardPhase::TornDown,
            };
            (next, GuardAction::Terminate(teardown(exit)))
        },
        _ => (phase, GuardAction::Ignore),
    }
}

/// Whether a stack of guards, outermost first, still has its process running.
pub open spec fn running(phases: Seq<GuardPhase>) -> bool {
    forall|i: int| 0 <= i < phases.len() ==> #[trigger] phases[i] == GuardPhase::Active
}

/// The stack after the innermost protected work ended by `exit`, and how the
/// process ends; nothing happens on an empty stack or once the process has ended.
pub open spec fn leave_spec(phases: Seq<GuardPhase>, exit: WorkExit) -> (Seq<GuardPhase>, Option<Termination>) {
    if phases.len() == 0 || !running(phases) {
        (phases, None)
    } else {
        (phases.update(phases.len() - 1, phase_after(exit)), Some(termination_of(exit)))
    }
}

/// Guards nested around one another, outermost first.
pub struct GuardStack {
    phases: Vec<GuardPhase>,
}

impl View for GuardStack {
    type V = Seq<GuardPhase>;

    closed spec fn view(&self) -> Seq<GuardPhase> {
        self.phases@
    }
}

impl GuardStack {
    /// Every guard but the innermost is active, and no guard waits to be entered.
    pub open spec fn wf(&self) -> bool {
        &&& forall|i: int| 0 <= i < self@.len() - 1 ==> #[trigger] self@[i] == GuardPhase::Active
        &&& forall|i: int| 0 <= i < self@.len() ==> #[trigger] self@[i] != GuardPhase::Created
    }

    /// An empty stack: no guarded region has been entered.
    pub fn new() -> (s: GuardStack)
        ensures
            s.wf(),
            s@ == Seq::<GuardPhase>::empty(),
    {
        GuardStack { phases: Vec::new() }
    }

    /// Number of guards on the stack.
    pub fn depth(&self) -> (n: usize)
        ensures
            n == self@.len(),
    {
        self.phases.len()
    }

    /// Whether the process is still running under these guards.
    pub fn is_running(&self) -> (r: bool)
        requires
            self.wf(),
        ensures
            r == running(self@),
    {
        let n = self.phases.len();
        if n == 0 {
            true
        } else {
            let last = self.phases[n - 1];
            last == GuardPhase::Active
        }
    }

    /// Enters a new guarded region inside the current one.
    /// Once the process has ended, nothing more is entered and `false` is returned.
    pub fn enter(&mut self) -> (entered: bool)
        requires
            old(self).wf(),
        ensures
            final(self).wf(),
            entered == running(old(self)@),
            entered ==> final(self)@ == old(self)@.push(GuardPhase::Active),
            entered ==> running(final(self)@),
            !entered ==> final(self)@ == old(self)@,
    {
        if !self.is_running() {
            return false;
        }
        let (phase, _action) = step(GuardPhase::Created, GuardEvent::Enter);
        self.phases.push(phase);
        true
    }

    /// Tears down the innermost guard after its protected work ended by `exit`,
    /// and returns how the process ends. Outer guards are left as they are.
    pub fn leave_innermost(&mut self, exit: WorkExit) -> (t: Option<Termination>)
        requires
            old(self).wf(),
        ensures
            final(self).wf(),
            final(self)@ == leave_spec(old(self)@, exit).0,
            t == leave_spec(old(self)@, exit).1,
            old(self)@.len() > 0 ==> !running(final(self)@),
    {
        let n = self.phases.len();
        if n == 0 || !self.is_running() {
            return None;
        }
        let (next, action) = step(GuardPhase::Active, GuardEvent::WorkEnded(exit));
        self.phases.set(n - 1, next);
        assert(is_terminal(self@[n - 1]));
        match action {
            GuardAction::Terminate(t) => Some(t),
            _ => None,
        }
    }
}

/// Runs `work` inside a new guarded region nested in `stack`, then tears that
/// region's guard down and returns how the process ends. Where the process has
/// already ended, `work` is not run and `None` is returned.
pub fn run_guarded<F: FnOnce() -> WorkExit>(stack: &mut GuardStack, work: F) -> (t: Option<Termination>)
    requires
        old(stack).wf(),
        work.requires(()),
    ensures
        final(stack).wf(),
        !running(old(stack)@) ==> t is None && final(stack)@ == old(stack)@,
        running(old(stack)@) ==> exists|exit: WorkExit|
            #![trigger termination_of(exit)]
            {
                &&& work.ensures((), exit)
                &&& t == Some(termination_of(exit))
                &&& final(stack)@ == old(stack)@.push(phase_after(exit))
            },
        !running(final(stack)@),
{
    if !stack.enter() {
        return None;
    }
    let exit = work();
    stack.leave_innermost(exit)
}

/// A guarded region entered from a running process, whose work then returns
/// normally or leaves early, never hands control back: its teardown aborts the
/// process, and the process is no longer running afterwards.
pub proof fn lemma_returning_work_aborts(outer: Seq<GuardPhase>, exit: WorkExit)
    requires
        running(outer),
        !(exit is ProcessExit),
    ensures
        leave_spec(outer.push(GuardPhase::Active), exit).1 == Some(Termination::Abort),
        !running(leave_spec(outer.push(GuardPhase::Active), exit).0),
{
    let inner = outer.push(GuardPhase::Active);
    let after = leave_spec(inner, exit).0;
    assert(after[inner.len() - 1] == GuardPhase::TornDown);
}

/// A guarded region whose work ends the process itself with `status` ends with
/// that status, not with an abort.
pub proof fn lemma_self_exit_keeps_status(outer: Seq<GuardPhase>, status: i32)
    requires
        running(outer),
    ensures
        leave_spec(outer.push(GuardPhase::Active), WorkExit::ProcessExit(status)).1
            == Some(Termination::Exit(status)),
        !running(leave_spec(outer.push(GuardPhase::Active), WorkExit::ProcessExit(status)).0),
{
    let inner = outer.push(GuardPhase::Active);
    let after = leave_spec(inner, WorkExit::ProcessExit(status)).0;
    assert(after[inner.len() - 1] == GuardPhase::TerminatedBySelf(status));
}

/// In nested guarded regions the innermost guard decides how the process ends:
/// the outer guards stay active, and no later exit tears any of them down.
pub proof fn lemma_innermost_preempts(phases: Seq<GuardPhase>, exit: WorkExit, later: WorkExit)
    requires
        running(phases),
        phases.len() > 0,
    ensures
        leave_spec(phases, exit).1 == Some(termination_of(exit)),
        leave_spec(phases, exit).0.len() == phases.len(),
        leave_spec(phases, exit).0.take(phases.len() - 1) == phases.take(phases.len() - 1),
        leave_spec(phases, exit).0.last() == phase_after(exit),
        leave_spec(leave_spec(phases, exit).0, later) == (leave_spec(phases, exit).0, None::<Termination>),
{
    let after = leave_spec(phases, exit).0;
    assert(is_terminal(after[phases.len() - 1]));
}

} // verus!
