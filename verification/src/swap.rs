//! The two-slot hot-swap state machine.
//!
//! A [`HotSwap`] always owns one *active* program, the one every ordinary
//! frame is drawn with, and at most one *candidate*, a program that passed
//! creation-time validation but has not yet completed a draw. A candidate
//! never displaces the active program until a draw with it has succeeded, so
//! a failed reload or a failed first draw leaves the picture as it was.

use vstd::prelude::*;

verus! {

/// The mathematical value of a [`HotSwap`].
///
/// While a candidate is pending the machine is *validating* and `active`
/// plays the part of the fallback; with no candidate it is *stable*.
pub struct Slots<P> {
    /// The last program known to render correctly.
    pub active: P,
    /// The program awaiting its first successful draw, if any.
    pub candidate: Option<P>,
}

impl<P> Slots<P> {
    /// The stable state that holds only `initial`.
    pub open spec fn stable(initial: P) -> Slots<P> {
        Slots { active: initial, candidate: None }
    }

    /// No reload is awaiting confirmation.
    pub open spec fn confirmed(self) -> bool {
        self.candidate is None
    }

    /// The program kept for rollback while a candidate is pending.
    pub open spec fn fallback(self) -> Option<P> {
        if self.candidate is Some {
            Some(self.active)
        } else {
            None
        }
    }

    /// The program a trial draw uses: the candidate if there is one, else the
    /// active program.
    pub open spec fn on_trial(self) -> P {
        match self.candidate {
            Some(candidate) => candidate,
            None => self.active,
        }
    }

    /// The state after `built` passed creation-time validation. An earlier
    /// candidate that was never confirmed is dropped; the active program,
    /// the last confirmed one, stays the fallback.
    pub open spec fn staged(self, built: P) -> Slots<P> {
        Slots { active: self.active, candidate: Some(built) }
    }

    /// The state after a trial draw: a passing draw promotes the program on
    /// trial, a failing one changes nothing.
    pub open spec fn settled(self, passed: bool) -> Slots<P> {
        if passed {
            Slots { active: self.on_trial(), candidate: None }
        } else {
            self
        }
    }

    /// The state after one whole submission: a build that yielded `built`
    /// (`None` when validation rejected it), followed, if it yielded a
    /// program, by a trial draw that `passed` or not.
    pub open spec fn submitted(self, built: Option<P>, passed: bool) -> Slots<P> {
        match built {
            Some(program) => self.staged(program).settled(passed),
            None => self,
        }
    }
}

/// Whether a submission counts as a success: the build yielded a program and
/// its first draw passed.
pub open spec fn submission_succeeds<P>(built: Option<P>, passed: bool) -> bool {
    built is Some && passed
}

/// One thing that can happen to the slots.
pub enum Step<P> {
    /// A reload attempt: the program that passed creation-time validation,
    /// or `None` when the source was rejected.
    Reload(Option<P>),
    /// A draw under capture of the program on trial, and whether it
    /// completed without error.
    Trial(bool),
    /// An ordinary frame, drawn with the active program.
    Render,
}

/// The state after one step.
pub open spec fn step<P>(slots: Slots<P>, event: Step<P>) -> Slots<P> {
    match event {
        Step::Reload(Some(program)) => slots.staged(program),
        Step::Reload(None) => slots,
        Step::Trial(passed) => slots.settled(passed),
        Step::Render => slots,
    }
}

/// The state after all of `steps`, taken in order.
pub open spec fn run<P>(start: Slots<P>, steps: Seq<Step<P>>) -> Slots<P>
    decreases steps.len(),
{
    if steps.len() == 0 {
        start
    } else {
        step(run(start, steps.drop_last()), steps.last())
    }
}

/// Whether `program` is one that passed validation: a program `start`
/// already held, or one that a reload among `steps` handed over after its
/// build was accepted.
pub open spec fn validated<P>(start: Slots<P>, steps: Seq<Step<P>>, program: P) -> bool {
    ||| program == start.active
    ||| start.candidate == Some(program)
    ||| exists|i: int| 0 <= i < steps.len() && #[trigger] steps[i] == Step::Reload(Some(program))
}

/// Whether `program` has completed a draw: the program `start` was
/// rendering with, or the program that was on trial when one of the trial
/// draws among `steps` passed.
pub open spec fn drawn_before<P>(start: Slots<P>, steps: Seq<Step<P>>, program: P) -> bool {
    ||| program == start.active
    ||| exists|j: int|
        0 <= j < steps.len() && #[trigger] steps[j] == Step::<P>::Trial(true) && run(
            start,
            steps.take(j),
        ).on_trial() == program
}

/// Never blank: whatever reloads, trial draws and frames happen, in whatever
/// order and with whatever outcomes, the program a frame is drawn with is
/// one that passed validation and, unless it is the one the sequence started
/// with, one that a passing trial draw confirmed. The candidate, if any, has
/// passed validation too. Since this holds of every sequence it holds at
/// every point of one.
pub proof fn lemma_never_blank<P>(start: Slots<P>, steps: Seq<Step<P>>)
    ensures
        validated(start, steps, run(start, steps).active),
        drawn_before(start, steps, run(start, steps).active),
        run(start, steps).candidate matches Some(candidate) ==> validated(start, steps, candidate),
    decreases steps.len(),
{
    if steps.len() > 0 {
        let before = steps.drop_last();
        let last = steps.len() - 1;
        lemma_never_blank(start, before);
        let mid = run(start, before);
        let end = run(start, steps);
        assert forall|program: P| validated(start, before, program) implies validated(
            start,
            steps,
            program,
        ) by {
            if exists|i: int| 0 <= i < before.len() && #[trigger] before[i] == Step::Reload(Some(program)) {
                let i = choose|i: int| 0 <= i < before.len() && #[trigger] before[i] == Step::Reload(Some(program));
                assert(steps[i] == before[i]);
            }
        }
        assert forall|program: P| drawn_before(start, before, program) implies drawn_before(
            start,
            steps,
            program,
        ) by {
            if program != start.active {
                let j = choose|j: int|
                    0 <= j < before.len() && #[trigger] before[j] == Step::<P>::Trial(true) && run(
                        start,
                        before.take(j),
                    ).on_trial() == program;
                assert(steps[j] == before[j]);
                assert(steps.take(j) == before.take(j));
            }
        }
        match steps.last() {
            Step::Reload(Some(program)) => {
                assert(steps[last] == Step::Reload(Some(program)));
            },
            Step::Trial(true) => {
                assert(steps[last] == Step::<P>::Trial(true));
                assert(steps.take(last) == before);
            },
            _ => {},
        }
    }
}

/// Every ordinary frame is drawn with a program that had passed validation
/// and completed a draw by then: the instance of [`lemma_never_blank`] for
/// the steps before the frame at position `at`.
pub proof fn lemma_every_frame_validated<P>(start: Slots<P>, steps: Seq<Step<P>>, at: int)
    requires
        0 <= at < steps.len(),
        steps[at] is Render,
    ensures
        validated(start, steps.take(at), run(start, steps.take(at)).active),
        drawn_before(start, steps.take(at), run(start, steps.take(at)).active),
        run(start, steps.take(at + 1)) == run(start, steps.take(at)),
{
    lemma_never_blank(start, steps.take(at));
    assert(steps.take(at + 1).drop_last() == steps.take(at));
}

/// Rollback: a submission that fails, whether its build is rejected or its
/// first draw fails, leaves the active program exactly as it was. A rejected
/// build leaves the whole state as it was; a failed first draw leaves the
/// active program in place as the fallback.
pub proof fn lemma_rollback<P>(before: Slots<P>, built: Option<P>, passed: bool)
    requires
        !submission_succeeds(built, passed),
    ensures
        before.submitted(built, passed).active == before.active,
        built is None ==> before.submitted(built, passed) == before,
        built is Some ==> before.submitted(built, passed).fallback() == Some(before.active),
        step(before, Step::Reload(None)) == before,
{
}

/// Eventual adoption: after a failed submission, a submission that succeeds
/// with `adopted` leaves `adopted` active and confirmed, with nothing left
/// of the failed attempt and no fallback to the earlier program.
pub proof fn lemma_eventual_adoption<P>(
    before: Slots<P>,
    failed: Option<P>,
    failed_passed: bool,
    adopted: P,
)
    requires
        !submission_succeeds(failed, failed_passed),
    ensures
        before.submitted(failed, failed_passed).submitted(Some(adopted), true) == Slots::stable(adopted),
{
}

/// A submission that succeeds with `adopted` ends stable on `adopted`,
/// whatever the state before; one that fails never ends on its own program
/// unless that program was active already.
pub proof fn lemma_submission_outcome<P>(before: Slots<P>, built: Option<P>, passed: bool)
    ensures
        submission_succeeds(built, passed) ==> before.submitted(built, passed) == Slots::stable(built->0),
        !submission_succeeds(built, passed) ==> before.submitted(built, passed).active == before.active,
{
}

/// Owner of the active program and of the candidate under validation.
pub struct HotSwap<P> {
    active: P,
    candidate: Option<P>,
}

impl<P> View for HotSwap<P> {
    type V = Slots<P>;

    closed spec fn view(&self) -> Slots<P> {
        Slots { active: self.active, candidate: self.candidate }
    }
}

impl<P> HotSwap<P> {
    /// Starts stable with `initial` as the active program.
    pub fn new(initial: P) -> (swap: Self)
        ensures
            swap@ == Slots::stable(initial),
    {
        HotSwap { active: initial, candidate: None }
    }

    /// The program ordinary frames are drawn with.
    pub fn active(&self) -> (program: &P)
        ensures
            *program == self@.active,
    {
        &self.active
    }

    /// The program a trial draw must use.
    pub fn on_trial(&self) -> (program: &P)
        ensures
            *program == self@.on_trial(),
    {
        match &self.candidate {
            Some(candidate) => candidate,
            None => &self.active,
        }
    }

    /// Draws an ordinary frame: hands the active program, and no other, to
    /// `draw` and returns what `draw` returns.
    pub fn frame<R, F: FnOnce(&P) -> R>(&self, draw: F) -> (drawn: R)
        requires
            draw.requires((&self@.active,)),
        ensures
            draw.ensures((&self@.active,), drawn),
    {
        draw(&self.active)
    }

    /// Makes a trial draw: hands the program on trial, and no other, to
    /// `draw`, which returns what it has to tell of the draw and the error
    /// the draw raised, if any, and settles on that outcome as
    /// [`HotSwap::settle`] does. So a program is promoted only if it is the
    /// very one that `draw` was given and drew without error.
    pub fn trial<R, E, F: FnOnce(&P) -> (R, Option<E>)>(&mut self, draw: F) -> (outcome: (
        R,
        Result<(), E>,
    ))
        requires
            draw.requires((&old(self)@.on_trial(),)),
        ensures
            draw.ensures(
                (&old(self)@.on_trial(),),
                (
                    outcome.0,
                    match outcome.1 {
                        Ok(()) => None,
                        Err(error) => Some(error),
                    },
                ),
            ),
            final(self)@ == old(self)@.settled(outcome.1 is Ok),
    {
        let (told, fault) = draw(self.on_trial());
        (told, self.settle(fault))
    }

    /// Whether no candidate is awaiting its first draw.
    pub fn is_confirmed(&self) -> (confirmed: bool)
        ensures
            confirmed == self@.confirmed(),
    {
        self.candidate.is_none()
    }

    /// Takes the outcome of a build. A program that passed validation becomes
    /// the candidate; a rejected build is handed back as the error and leaves
    /// both slots untouched.
    pub fn stage<E>(&mut self, built: Result<P, E>) -> (outcome: Result<(), E>)
        ensures
            match built {
                Ok(program) => outcome is Ok && final(self)@ == old(self)@.staged(program),
                Err(error) => outcome == Err::<(), E>(error) && final(self)@ == old(self)@,
            },
    {
        match built {
            Ok(program) => {
                self.candidate = Some(program);
                Ok(())
            },
            Err(error) => Err(error),
        }
    }

    /// Takes the outcome of a trial draw, `None` meaning that it completed
    /// without error. Success promotes the program on trial and drops the
    /// fallback; an error is handed back and leaves both slots untouched.
    pub fn settle<E>(&mut self, fault: Option<E>) -> (outcome: Result<(), E>)
        ensures
            final(self)@ == old(self)@.settled(fault is None),
            match fault {
                Some(error) => outcome == Err::<(), E>(error),
                None => outcome is Ok,
            },
    {
        match fault {
            Some(error) => Err(error),
            None => {
                let promoted = self.candidate.take();
                match promoted {
                    Some(program) => {
                        self.active = program;
                    },
                    None => {},
                }
                Ok(())
            },
        }
    }
}

} // verus!
