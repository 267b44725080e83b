//! A bring-up script and the machine that plays it.
//!
//! A script is a list of steps, each a wait or a write to the controller. The
//! machine hands the steps out one at a time and is told how each went: it
//! never does the work itself, so the same script can be played over any bus
//! and any clock.

use crate::dcs::SetAddressMode;
use vstd::prelude::*;
use vstd::slice::slice_to_vec;

verus! {

/// One step of a bring-up script.
#[derive(Debug, PartialEq, Eq)]
pub enum Step {
    /// Block for at least `ms` milliseconds.
    Wait { ms: u32 },
    /// Send `opcode`, followed by the bytes of `payload`, to the controller.
    Write { opcode: u8, payload: Vec<u8> },
}

/// A step as a mathematical value.
#[verifier::ext_equal]
pub enum SpecStep {
    Wait { ms: u32 },
    Write { opcode: u8, payload: Seq<u8> },
}

impl View for Step {
    type V = SpecStep;

    open spec fn view(&self) -> SpecStep {
        match *self {
            Step::Wait { ms } => SpecStep::Wait { ms },
            Step::Write { opcode, payload } => SpecStep::Write { opcode, payload: payload@ },
        }
    }
}

impl Clone for Step {
    /// A copy of the step with a payload of its own.
    fn clone(&self) -> (copy: Self)
        ensures
            copy@ == self@,
    {
        match self {
            Step::Wait { ms } => Step::Wait { ms: *ms },
            Step::Write { opcode, payload } => Step::Write {
                opcode: *opcode,
                payload: slice_to_vec(payload.as_slice()),
            },
        }
    }
}

/// The steps of an executable script as mathematical values.
pub open spec fn script_view(steps: Seq<Step>) -> Seq<SpecStep> {
    steps.map_values(|step: Step| step@)
}

/// What the caller of the machine has to do next.
#[derive(Debug, PartialEq, Eq)]
pub enum Action {
    /// Perform the step and report how it went.
    Perform(Step),
    /// Nothing is left to do: the controller runs with this address mode.
    Finish(SetAddressMode),
}

/// An action as a mathematical value.
pub enum SpecAction {
    Perform(SpecStep),
    Finish(SetAddressMode),
}

impl View for Action {
    type V = SpecAction;

    open spec fn view(&self) -> SpecAction {
        match *self {
            Action::Perform(step) => SpecAction::Perform(step@),
            Action::Finish(mode) => SpecAction::Finish(mode),
        }
    }
}

/// The state of a bring-up as a mathematical value: the script, the address
/// mode that the bring-up yields, and how many steps have been completed.
pub struct SpecSequence {
    pub script: Seq<SpecStep>,
    pub address_mode: SetAddressMode,
    pub cursor: int,
}

impl SpecSequence {
    /// The cursor points at a step or just behind the last one.
    pub open spec fn wf(self) -> bool {
        0 <= self.cursor <= self.script.len()
    }

    /// The state before the first step.
    pub open spec fn start(script: Seq<SpecStep>, address_mode: SetAddressMode) -> SpecSequence {
        SpecSequence { script, address_mode, cursor: 0 }
    }

    /// Every step has been completed.
    pub open spec fn finished(self) -> bool {
        self.cursor == self.script.len()
    }

    /// The steps that have been completed, oldest first.
    pub open spec fn completed(self) -> Seq<SpecStep> {
        self.script.take(self.cursor)
    }

    /// The action that is due in this state.
    pub open spec fn pending(self) -> SpecAction {
        if self.finished() {
            SpecAction::Finish(self.address_mode)
        } else {
            SpecAction::Perform(self.script[self.cursor])
        }
    }

    /// The state after the pending step has been completed. A finished
    /// bring-up stays as it is.
    pub open spec fn next(self) -> SpecSequence {
        if self.finished() {
            self
        } else {
            SpecSequence { cursor: self.cursor + 1, ..self }
        }
    }

    /// The number of writes among the steps that are still to be performed.
    pub open spec fn writes_left(self) -> nat {
        count_writes(self.script.skip(self.cursor))
    }

    /// The state after `n` more steps have been completed.
    pub open spec fn after(self, n: nat) -> SpecSequence
        decreases n,
    {
        if n == 0 {
            self
        } else {
            self.next().after((n - 1) as nat)
        }
    }
}

/// Completed steps add up: `n` more of them move the cursor on by `n`, or
/// to the end of the script where fewer are left, and change nothing else.
pub proof fn lemma_after(sequence: SpecSequence, n: nat)
    requires
        sequence.wf(),
    ensures
        sequence.after(n).wf(),
        sequence.after(n).script == sequence.script,
        sequence.after(n).address_mode == sequence.address_mode,
        sequence.after(n).cursor == if sequence.cursor + n <= sequence.script.len() {
            sequence.cursor + n
        } else {
            sequence.script.len() as int
        },
    decreases n,
{
    if n > 0 {
        lemma_after(sequence.next(), (n - 1) as nat);
    }
}

/// A bring-up whose steps all go well hands out the steps of its script,
/// each once and in the order of the script, and then its address mode.
pub proof fn lemma_replays_script(script: Seq<SpecStep>, address_mode: SetAddressMode, n: nat)
    requires
        n <= script.len(),
    ensures
        ({
            let reached = SpecSequence::start(script, address_mode).after(n);
            &&& reached.completed() == script.take(n as int)
            &&& n < script.len() ==> reached.pending() == SpecAction::Perform(script[n as int])
            &&& n == script.len() ==> reached.pending() == SpecAction::Finish(address_mode)
        }),
{
    lemma_after(SpecSequence::start(script, address_mode), n);
}

/// A bring-up cannot go on for ever: once as many steps have gone well as
/// the script had left, it is finished, and it stays finished.
pub proof fn lemma_finishes(sequence: SpecSequence, n: nat)
    requires
        sequence.wf(),
        n >= sequence.script.len() - sequence.cursor,
    ensures
        sequence.after(n).finished(),
        sequence.after(n).next() == sequence.after(n),
        sequence.after(n).pending() == SpecAction::Finish(sequence.address_mode),
{
    lemma_after(sequence, n);
}

/// The outcome of a whole bring-up: the steps that were performed, oldest
/// first, and whether all of them went well. After a failure the failing
/// write is the last step performed.
pub struct SpecRun {
    pub performed: Seq<SpecStep>,
    pub ok: bool,
}

/// The number of writes among `steps`.
pub open spec fn count_writes(steps: Seq<SpecStep>) -> nat
    decreases steps.len(),
{
    if steps.len() == 0 {
        0
    } else if steps.first() is Write {
        1 + count_writes(steps.skip(1))
    } else {
        count_writes(steps.skip(1))
    }
}

/// The writes of two scripts played one after the other add up.
pub proof fn lemma_count_writes_concat(first: Seq<SpecStep>, second: Seq<SpecStep>)
    ensures
        count_writes(first + second) == count_writes(first) + count_writes(second),
    decreases first.len(),
{
    if first.len() == 0 {
        assert(first + second =~= second);
    } else {
        lemma_count_writes_concat(first.skip(1), second);
        assert((first + second).skip(1) =~= first.skip(1) + second);
        assert((first + second).first() == first.first());
    }
}

/// A script of writes alone holds as many writes as it has steps.
pub proof fn lemma_count_writes_only(steps: Seq<SpecStep>)
    requires
        forall|i: int| 0 <= i < steps.len() ==> #[trigger] steps[i] is Write,
    ensures
        count_writes(steps) == steps.len(),
    decreases steps.len(),
{
    if steps.len() > 0 {
        assert(steps[0] is Write);
        assert forall|i: int| 0 <= i < steps.skip(1).len() implies #[trigger] steps.skip(
            1,
        )[i] is Write by {
            assert(steps[i + 1] is Write);
        }
        lemma_count_writes_only(steps.skip(1));
    }
}

/// Where no write is left to perform, the step that is due is a wait, and
/// no write is left after it either.
pub proof fn lemma_no_writes_left(sequence: SpecSequence)
    requires
        sequence.wf(),
        !sequence.finished(),
        sequence.writes_left() == 0,
    ensures
        sequence.script[sequence.cursor] is Wait,
        sequence.next().writes_left() == 0,
{
    let rest = sequence.script.skip(sequence.cursor);
    assert(rest.first() == sequence.script[sequence.cursor]);
    assert(rest.skip(1) =~= sequence.script.skip(sequence.cursor + 1));
}

/// The writes that the bus still accepts once `step` has gone well.
pub open spec fn accepted_after(step: SpecStep, accepted: Option<nat>) -> Option<nat> {
    match accepted {
        Some(n) => if step is Write {
            Some((n - 1) as nat)
        } else {
            accepted
        },
        None => None,
    }
}

/// Plays `script` from its step `from` on a bus that accepts `accepted`
/// more writes and fails the one after them; `None` is a bus that accepts
/// every write. Waits always go well. The run stops with the first write
/// that fails.
pub open spec fn play(script: Seq<SpecStep>, from: int, accepted: Option<nat>) -> SpecRun
    decreases script.len() - from,
{
    if from < 0 || from >= script.len() {
        SpecRun { performed: Seq::empty(), ok: true }
    } else if script[from] is Write && accepted == Some(0nat) {
        SpecRun { performed: seq![script[from]], ok: false }
    } else {
        let rest = play(script, from + 1, accepted_after(script[from], accepted));
        SpecRun { performed: seq![script[from]] + rest.performed, ok: rest.ok }
    }
}

/// On a bus that accepts every write the bring-up performs the steps of
/// the script, each once and in the order of the script, and goes well.
pub proof fn lemma_play_without_failure(script: Seq<SpecStep>, from: int)
    requires
        0 <= from <= script.len(),
    ensures
        play(script, from, None) == (SpecRun { performed: script.skip(from), ok: true }),
    decreases script.len() - from,
{
    if from < script.len() {
        lemma_play_without_failure(script, from + 1);
        assert(seq![script[from]] + script.skip(from + 1) =~= script.skip(from));
    } else {
        assert(script.skip(from) =~= Seq::<SpecStep>::empty());
    }
}

/// A bus that accepts at least as many writes as the script still holds is
/// as good as one that accepts every write.
pub proof fn lemma_play_enough_accepted(script: Seq<SpecStep>, from: int, accepted: nat)
    requires
        0 <= from <= script.len(),
        accepted >= count_writes(script.skip(from)),
    ensures
        play(script, from, Some(accepted)) == (SpecRun { performed: script.skip(from), ok: true }),
    decreases script.len() - from,
{
    if from < script.len() {
        assert(script.skip(from).skip(1) =~= script.skip(from + 1));
        let left = accepted_after(script[from], Some(accepted));
        lemma_play_enough_accepted(script, from + 1, left->Some_0);
        assert(seq![script[from]] + script.skip(from + 1) =~= script.skip(from));
    } else {
        assert(script.skip(from) =~= Seq::<SpecStep>::empty());
    }
}

/// Fail fast: on a bus that fails a write of the script, the bring-up goes
/// wrong, and what it performed is the script up to and including the
/// failing write. That write is the last step performed, counted among the
/// writes it is the one after the accepted ones, and nothing follows it.
pub proof fn lemma_play_stops_at_failure(script: Seq<SpecStep>, from: int, accepted: nat)
    requires
        0 <= from <= script.len(),
        accepted < count_writes(script.skip(from)),
    ensures
        ({
            let run = play(script, from, Some(accepted));
            &&& !run.ok
            &&& 0 < run.performed.len() <= script.len() - from
            &&& run.performed == script.subrange(from, from + run.performed.len())
            &&& run.performed.last() is Write
            &&& count_writes(run.performed) == accepted + 1
            &&& count_writes(run.performed.drop_last()) == accepted
        }),
    decreases script.len() - from,
{
    assert(from < script.len()) by {
        if from == script.len() {
            assert(script.skip(from).len() == 0);
        }
    }
    let step = script[from];
    let run = play(script, from, Some(accepted));
    assert(script.skip(from).skip(1) =~= script.skip(from + 1));
    if step is Write && accepted == 0 {
        assert(run.performed =~= script.subrange(from, from + 1));
        assert(run.performed.skip(1) =~= Seq::<SpecStep>::empty());
        assert(run.performed.drop_last() =~= Seq::<SpecStep>::empty());
        assert(count_writes(run.performed.skip(1)) == 0);
    } else {
        let left = accepted_after(step, Some(accepted))->Some_0;
        lemma_play_stops_at_failure(script, from + 1, left);
        let rest = play(script, from + 1, Some(left));
        assert(run.performed == seq![step] + rest.performed);
        assert(run.performed =~= script.subrange(from, from + run.performed.len()));
        assert(run.performed.skip(1) =~= rest.performed);
        assert(run.performed.first() == step);
        assert(run.performed.drop_last() =~= seq![step] + rest.performed.drop_last());
        assert(run.performed.drop_last().first() == step);
        assert(run.performed.drop_last().skip(1) =~= rest.performed.drop_last());
    }
}

/// The outcome of a rehearsed bring-up: the steps that were performed,
/// oldest first, and whether all of them went well.
#[derive(Debug, PartialEq, Eq)]
pub struct Run {
    pub performed: Vec<Step>,
    pub ok: bool,
}

impl View for Run {
    type V = SpecRun;

    open spec fn view(&self) -> SpecRun {
        SpecRun { performed: script_view(self.performed@), ok: self.ok }
    }
}

/// A count of writes as a mathematical value.
pub open spec fn accepted_view(accepted: Option<usize>) -> Option<nat> {
    match accepted {
        Some(n) => Some(n as nat),
        None => None,
    }
}

/// A bring-up in progress: the script, the address mode it yields and the
/// position of the step that is due.
#[derive(Debug)]
pub struct InitSequence {
    script: Vec<Step>,
    address_mode: SetAddressMode,
    cursor: usize,
}

impl View for InitSequence {
    type V = SpecSequence;

    closed spec fn view(&self) -> SpecSequence {
        SpecSequence {
            script: script_view(self.script@),
            address_mode: self.address_mode,
            cursor: self.cursor as int,
        }
    }
}

impl InitSequence {
    #[verifier::type_invariant]
    spec fn in_bounds(self) -> bool {
        self.cursor <= self.script.len()
    }

    /// A bring-up that has `script` before it and yields `address_mode`.
    pub fn new(script: Vec<Step>, address_mode: SetAddressMode) -> (sequence: Self)
        ensures
            sequence@ == SpecSequence::start(script_view(script@), address_mode),
    {
        InitSequence { script, address_mode, cursor: 0 }
    }

    /// The address mode that the bring-up yields once it has finished.
    pub fn address_mode(&self) -> (mode: SetAddressMode)
        ensures
            mode == self@.address_mode,
    {
        self.address_mode
    }

    /// The number of steps in the script.
    pub fn len(&self) -> (n: usize)
        ensures
            n == self@.script.len(),
            self@.wf(),
    {
        proof {
            use_type_invariant(&*self);
        }
        self.script.len()
    }

    /// The number of steps completed so far.
    pub fn position(&self) -> (n: usize)
        ensures
            n == self@.cursor,
            self@.wf(),
    {
        proof {
            use_type_invariant(&*self);
        }
        self.cursor
    }

    /// Whether every step has been completed.
    pub fn is_finished(&self) -> (done: bool)
        ensures
            done == self@.finished(),
            self@.wf(),
    {
        proof {
            use_type_invariant(&*self);
        }
        self.cursor == self.script.len()
    }

    /// The action that is due: the next step of the script, or the end of
    /// the bring-up with its address mode.
    pub fn pending(&self) -> (action: Action)
        ensures
            action@ == self@.pending(),
            self@.wf(),
    {
        proof {
            use_type_invariant(&*self);
        }
        if self.cursor < self.script.len() {
            let step = self.script[self.cursor].clone();
            assert(step@ == script_view(self.script@)[self.cursor as int]);
            Action::Perform(step)
        } else {
            Action::Finish(self.address_mode)
        }
    }

    /// Takes the outcome of the pending step. A step that went well moves
    /// the bring-up on by one; a failure ends it at once, and the error goes
    /// back to the caller as it came, with no bring-up left to go on with.
    pub fn advance<E>(self, outcome: Result<(), E>) -> (moved: Result<InitSequence, E>)
        ensures
            self@.wf(),
            match outcome {
                Ok(_) => moved is Ok && moved->Ok_0@ == self@.next(),
                Err(e) => moved == Err::<InitSequence, E>(e),
            },
    {
        proof {
            use_type_invariant(&self);
        }
        match outcome {
            Ok(_) => {
                if self.cursor < self.script.len() {
                    Ok(
                        InitSequence {
                            script: self.script,
                            address_mode: self.address_mode,
                            cursor: self.cursor + 1,
                        },
                    )
                } else {
                    Ok(self)
                }
            },
            Err(e) => Err(e),
        }
    }

    /// Rehearses the rest of the bring-up without a controller: plays it on
    /// a bus that accepts `accepted` more writes and fails the one after
    /// them (`None`: a bus that accepts every write), and says which steps
    /// a caller would have performed.
    pub fn dry_run(self, accepted: Option<usize>) -> (run: Run)
        ensures
            self@.wf(),
            run@ == play(self@.script, self@.cursor, accepted_view(accepted)),
    {
        proof {
            use_type_invariant(&self);
        }
        let ghost script = self@.script;
        let ghost whole = play(script, self@.cursor, accepted_view(accepted));
        let mut sequence = self;
        let mut left = accepted;
        let mut performed: Vec<Step> = Vec::new();
        assert(script_view(performed@) + whole.performed =~= whole.performed);
        loop
            invariant
                self@.wf(),
                script == self@.script,
                whole == play(script, self@.cursor, accepted_view(accepted)),
                sequence@.script == script,
                whole.performed == script_view(performed@) + play(
                    script,
                    sequence@.cursor,
                    accepted_view(left),
                ).performed,
                whole.ok == play(script, sequence@.cursor, accepted_view(left)).ok,
            decreases script.len() - sequence@.cursor,
        {
            let ghost before = script_view(performed@);
            let ghost rest = play(script, sequence@.cursor, accepted_view(left));
            let step = match sequence.pending() {
                Action::Finish(_) => {
                    assert(before + rest.performed =~= before);
                    return Run { performed, ok: true };
                },
                Action::Perform(step) => step,
            };
            let is_write = match &step {
                Step::Write { .. } => true,
                Step::Wait { .. } => false,
            };
            let outcome: Result<(), ()> = match left {
                Some(0) if is_write => Err(()),
                _ => Ok(()),
            };
            if is_write {
                left = match left {
                    Some(n) if n > 0 => Some(n - 1),
                    _ => left,
                };
            }
            let ghost told = step@;
            performed.push(step);
            assert(script_view(performed@) =~= before.push(told));
            match sequence.advance(outcome) {
                Ok(next) => {
                    assert(before.push(told) + play(
                        script,
                        next@.cursor,
                        accepted_view(left),
                    ).performed =~= before + rest.performed);
                    sequence = next;
                },
                Err(_) => {
                    assert(before.push(told) =~= before + rest.performed);
                    return Run { performed, ok: false };
                },
            }
        }
    }
}

} // verus!
