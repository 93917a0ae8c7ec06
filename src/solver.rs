//! The control of a Levenberg–Marquardt run. Each iteration the numeric side
//! solves the damped normal equations `(JᵗJ + λI)·Δx = −Jᵗr`, evaluates the
//! residual at `x + Δx` and reports what it saw as an [`Event`]; the
//! controller answers with the [`Action`] to take and keeps count of the
//! iterations and of the damping factor `λ`, held exactly as the power of the
//! growth factor `γ` by which it differs from its initial value.
use vstd::prelude::*;

verus! {

/// Where a run stands.
#[derive(Clone, Copy, Debug, PartialEq, Eq, Structural)]
pub enum Phase {
    /// More iterations are to come.
    Iterating,
    /// The change of the residual norm fell below the tolerance.
    Converged,
    /// The iteration budget ran out first.
    MaxIterExceeded,
}

/// What the numeric side observed in one iteration.
#[derive(Clone, Copy, Debug, PartialEq, Eq, Structural)]
pub enum Event {
    /// The damped normal equations had no solution.
    Singular,
    /// A step was solved for and the residual at the candidate evaluated:
    /// `within_tolerance` is `|‖r‖ − ‖r'‖| < tol`, `improved` is
    /// `‖r'‖ < ‖r‖`.
    Evaluated { within_tolerance: bool, improved: bool },
}

/// What the numeric side does in answer to an [`Event`].
#[derive(Clone, Copy, Debug, PartialEq, Eq, Structural)]
pub enum Action {
    /// Keep the parameters and multiply `λ` by `γ`: the system was singular.
    SingularRetry,
    /// Take the candidate as the new parameters and divide `λ` by `γ`.
    Accept,
    /// Keep the parameters and multiply `λ` by `γ`.
    Reject,
    /// Stop and return the current parameters; the candidate is discarded
    /// even where it improved the residual.
    Stop,
}

/// The action for an event. The tolerance test comes first, so a step
/// within tolerance stops the run whether or not it improved.
pub open spec fn action_for(e: Event) -> Action {
    match e {
        Event::Singular => Action::SingularRetry,
        Event::Evaluated { within_tolerance, improved } => if within_tolerance {
            Action::Stop
        } else if improved {
            Action::Accept
        } else {
            Action::Reject
        },
    }
}

/// The state of a run, mathematically.
pub struct ControlView {
    pub max_iter: nat,
    pub iterations: nat,
    /// `λ = λ₀·γ^damping_exp`.
    pub damping_exp: int,
    pub phase: Phase,
}

/// The phase after `iterations` completed iterations that did not stop.
pub open spec fn phase_after(iterations: nat, max_iter: nat) -> Phase {
    if iterations < max_iter {
        Phase::Iterating
    } else {
        Phase::MaxIterExceeded
    }
}

/// The state after one event in state `v`.
pub open spec fn next_view(v: ControlView, e: Event) -> ControlView {
    match action_for(e) {
        Action::Stop => ControlView { phase: Phase::Converged, ..v },
        Action::Accept => ControlView {
            iterations: v.iterations + 1,
            damping_exp: v.damping_exp - 1,
            phase: phase_after(v.iterations + 1, v.max_iter),
            ..v
        },
        _ => ControlView {
            iterations: v.iterations + 1,
            damping_exp: v.damping_exp + 1,
            phase: phase_after(v.iterations + 1, v.max_iter),
            ..v
        },
    }
}

/// The controller of one Levenberg–Marquardt run.
#[derive(Clone, Copy, Debug)]
pub struct LmControl {
    max_iter: usize,
    iterations: usize,
    damping_exp: i128,
    phase: Phase,
}

impl View for LmControl {
    type V = ControlView;

    closed spec fn view(&self) -> ControlView {
        ControlView {
            max_iter: self.max_iter as nat,
            iterations: self.iterations as nat,
            damping_exp: self.damping_exp as int,
            phase: self.phase,
        }
    }
}

impl LmControl {
    /// The iteration count stays within the budget, the damping exponent
    /// moves by one per iteration, and the phase agrees with the count.
    pub open spec fn wf(&self) -> bool {
        &&& self@.iterations <= self@.max_iter
        &&& -(self@.iterations as int) <= self@.damping_exp <= self@.iterations
        &&& (self@.phase == Phase::Iterating ==> self@.iterations < self@.max_iter)
        &&& (self@.phase == Phase::MaxIterExceeded ==> self@.iterations == self@.max_iter)
    }

    /// A run of at most `max_iter` iterations, at the initial damping.
    pub fn new(max_iter: usize) -> (r: LmControl)
        ensures
            r.wf(),
            r@.max_iter == max_iter,
            r@.iterations == 0,
            r@.damping_exp == 0,
            r@.phase == phase_after(0, max_iter as nat),
    {
        let phase = if max_iter > 0 {
            Phase::Iterating
        } else {
            Phase::MaxIterExceeded
        };
        LmControl { max_iter, iterations: 0, damping_exp: 0, phase }
    }

    /// Takes in what one iteration observed and returns what to do.
    pub fn step(&mut self, e: Event) -> (r: Action)
        requires
            old(self).wf(),
            old(self)@.phase == Phase::Iterating,
        ensures
            final(self).wf(),
            r == action_for(e),
            final(self)@ == next_view(old(self)@, e),
    {
        let action = match e {
            Event::Singular => Action::SingularRetry,
            Event::Evaluated { within_tolerance, improved } => {
                if within_tolerance {
                    Action::Stop
                } else if improved {
                    Action::Accept
                } else {
                    Action::Reject
                }
            },
        };
        match action {
            Action::Stop => {
                self.phase = Phase::Converged;
            },
            Action::Accept => {
                self.iterations = self.iterations + 1;
                self.damping_exp = self.damping_exp - 1;
                self.phase = if self.iterations < self.max_iter {
                    Phase::Iterating
                } else {
                    Phase::MaxIterExceeded
                };
            },
            _ => {
                self.iterations = self.iterations + 1;
                self.damping_exp = self.damping_exp + 1;
                self.phase = if self.iterations < self.max_iter {
                    Phase::Iterating
                } else {
                    Phase::MaxIterExceeded
                };
            },
        }
        action
    }

    /// Whether another iteration is due.
    pub fn is_running(&self) -> (r: bool)
        ensures
            r == (self@.phase == Phase::Iterating),
    {
        match self.phase {
            Phase::Iterating => true,
            _ => false,
        }
    }

    /// Whether the run stopped on the tolerance test.
    pub fn converged(&self) -> (r: bool)
        ensures
            r == (self@.phase == Phase::Converged),
    {
        match self.phase {
            Phase::Converged => true,
            _ => false,
        }
    }

    /// Where the run stands.
    pub fn phase(&self) -> (r: Phase)
        ensures
            r == self@.phase,
    {
        self.phase
    }

    /// Number of completed iterations; the one that stopped on the tolerance
    /// test is not counted.
    pub fn iterations(&self) -> (r: usize)
        ensures
            r == self@.iterations,
    {
        self.iterations
    }

    /// The iteration budget.
    pub fn max_iter(&self) -> (r: usize)
        ensures
            r == self@.max_iter,
    {
        self.max_iter
    }

    /// The exponent `k` of the current damping `λ = λ₀·γᵏ`.
    pub fn damping_exp(&self) -> (r: i128)
        ensures
            r == self@.damping_exp,
    {
        self.damping_exp
    }
}

} // verus!
