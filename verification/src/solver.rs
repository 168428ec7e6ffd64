//! Solvers, optimizers and models: what is asserted, and what the engine
//! answered.

use vstd::prelude::*;
use crate::context::Context;

verus! {

/// The answer to a check: the assertions cannot be satisfied, the engine
/// could not tell, or they can be satisfied.
#[derive(Clone, Copy, Debug, PartialEq, Eq, Structural)]
pub enum SatResult {
    Unsat,
    Unknown,
    Sat,
}

/// What the engine's lifted boolean stands for: -1 is false, 0 is undefined,
/// 1 is true, and nothing else is an answer.
pub open spec fn decode(answer: i32) -> Option<SatResult> {
    if answer == -1 {
        Some(SatResult::Unsat)
    } else if answer == 0 {
        Some(SatResult::Unknown)
    } else if answer == 1 {
        Some(SatResult::Sat)
    } else {
        None
    }
}

/// Whether a model can be asked for after this answer: after `Sat`, and
/// after `Unknown`, where the model may be partial.
pub open spec fn admits_model(last: Option<SatResult>) -> bool {
    last == Some(SatResult::Sat) || last == Some(SatResult::Unknown)
}

impl SatResult {
    /// Reads the engine's lifted boolean.
    pub fn from_answer(answer: i32) -> (r: Option<SatResult>)
        ensures
            r == decode(answer),
    {
        if answer == -1 {
            Some(SatResult::Unsat)
        } else if answer == 0 {
            Some(SatResult::Unknown)
        } else if answer == 1 {
            Some(SatResult::Sat)
        } else {
            None
        }
    }
}

/// (Incremental) solver, possibly specialized by a particular tactic or logic.
///
/// A solver holds the handles of the asserted terms, oldest first, the scopes
/// that are open, and the answer to the last check for as long as nothing has
/// changed since.
pub struct Solver<'ctx> {
    ctx: &'ctx Context,
    assertions: Vec<usize>,
    scopes: Vec<usize>,
    last: Option<SatResult>,
}

/// The mathematical value of a [`Solver`] or an [`Optimize`].
pub struct SolverView {
    /// The session it belongs to.
    pub context: usize,
    /// The handles of the asserted terms, oldest first.
    pub assertions: Seq<usize>,
    /// For every open scope, oldest first, the number of assertions that
    /// there were when it was opened.
    pub scopes: Seq<usize>,
    /// The answer to the last check, if nothing has changed since.
    pub last: Option<SatResult>,
}

impl SolverView {
    /// Whether the scopes are in order: each was opened with no more
    /// assertions than there are now, and none with more than a newer one.
    pub open spec fn well_formed(self) -> bool {
        &&& forall|i: int|
            0 <= i < self.scopes.len() ==> (#[trigger] self.scopes[i]) <= self.assertions.len()
        &&& forall|i: int, j: int|
            0 <= i <= j < self.scopes.len() ==> self.scopes[i] <= self.scopes[j]
    }

    /// A solver of the session `context` to which nothing has happened.
    pub open spec fn fresh(context: usize) -> SolverView {
        SolverView { context, assertions: Seq::empty(), scopes: Seq::empty(), last: None }
    }

    /// After `term` has been asserted.
    pub open spec fn asserted(self, term: usize) -> SolverView {
        SolverView {
            context: self.context,
            assertions: self.assertions.push(term),
            scopes: self.scopes,
            last: None,
        }
    }

    /// After a scope has been opened.
    pub open spec fn pushed(self) -> SolverView {
        SolverView {
            context: self.context,
            assertions: self.assertions,
            scopes: self.scopes.push(self.assertions.len() as usize),
            last: None,
        }
    }

    /// After the `n` newest scopes have been closed: the assertions made in
    /// them are gone.
    pub open spec fn popped(self, n: nat) -> SolverView {
        if n == 0 {
            SolverView {
                context: self.context,
                assertions: self.assertions,
                scopes: self.scopes,
                last: None,
            }
        } else {
            let kept = self.scopes.len() - n;
            SolverView {
                context: self.context,
                assertions: self.assertions.take(self.scopes[kept] as int),
                scopes: self.scopes.take(kept),
                last: None,
            }
        }
    }

    /// After the engine has answered a check.
    pub open spec fn checked(self, answer: i32) -> SolverView {
        SolverView {
            context: self.context,
            assertions: self.assertions,
            scopes: self.scopes,
            last: decode(answer),
        }
    }
}

/// Model for the constraints inserted into the logical context.
///
/// A model is read only: nothing can be changed through it.
pub struct Model<'ctx> {
    ctx: &'ctx Context,
    partial: bool,
}

/// The mathematical value of a [`Model`].
pub struct ModelView {
    /// The session it belongs to.
    pub context: usize,
    /// Whether it came of an `Unknown` answer, and so may leave terms
    /// without a value.
    pub partial: bool,
}

impl<'ctx> View for Model<'ctx> {
    type V = ModelView;

    closed spec fn view(&self) -> ModelView {
        ModelView { context: self.ctx.handle(), partial: self.partial }
    }
}

impl<'ctx> Model<'ctx> {
    /// The context that this model belongs to.
    pub fn context(&self) -> (r: &'ctx Context)
        ensures
            r.handle() == self@.context,
    {
        self.ctx
    }

    /// Whether the model may leave terms without a value.
    pub fn is_partial(&self) -> (r: bool)
        ensures
            r == self@.partial,
    {
        self.partial
    }
}

impl<'ctx> View for Solver<'ctx> {
    type V = SolverView;

    closed spec fn view(&self) -> SolverView {
        SolverView {
            context: self.ctx.handle(),
            assertions: self.assertions@,
            scopes: self.scopes@,
            last: self.last,
        }
    }
}

impl<'ctx> Solver<'ctx> {
    /// A solver of the context `ctx` with no assertions and no scopes.
    pub fn new(ctx: &'ctx Context) -> (r: Solver<'ctx>)
        ensures
            r@ == SolverView::fresh(ctx.handle()),
            r@.well_formed(),
    {
        Solver { ctx, assertions: Vec::new(), scopes: Vec::new(), last: None }
    }

    /// The context that this solver belongs to.
    pub fn context(&self) -> (r: &'ctx Context)
        ensures
            r.handle() == self@.context,
    {
        self.ctx
    }

    /// Asserts the term with the handle `term`, which is not null.
    pub fn assert_term(&mut self, term: usize)
        requires
            old(self)@.well_formed(),
            term != 0,
        ensures
            final(self)@ == old(self)@.asserted(term),
            final(self)@.well_formed(),
    {
        self.assertions.push(term);
        self.last = None;
    }

    /// The number of assertions.
    pub fn assertion_count(&self) -> (r: usize)
        ensures
            r == self@.assertions.len(),
    {
        self.assertions.len()
    }

    /// The handle of the assertion at position `i`, the oldest being at 0.
    pub fn assertion(&self, i: usize) -> (r: usize)
        requires
            i < self@.assertions.len(),
        ensures
            r == self@.assertions[i as int],
    {
        self.assertions[i]
    }

    /// The number of open scopes.
    pub fn scope_count(&self) -> (r: usize)
        ensures
            r == self@.scopes.len(),
    {
        self.scopes.len()
    }

    /// Opens a scope.
    pub fn push(&mut self)
        requires
            old(self)@.well_formed(),
        ensures
            final(self)@ == old(self)@.pushed(),
            final(self)@.well_formed(),
    {
        let mark: usize = self.assertions.len();
        self.scopes.push(mark);
        self.last = None;
    }

    /// Closes the `n` newest scopes, of which there are that many, and drops
    /// the assertions made in them.
    pub fn pop(&mut self, n: usize)
        requires
            old(self)@.well_formed(),
            n <= old(self)@.scopes.len(),
        ensures
            final(self)@ == old(self)@.popped(n as nat),
            final(self)@.well_formed(),
    {
        if n > 0 {
            let kept: usize = self.scopes.len() - n;
            let mark: usize = self.scopes[kept];
            self.scopes.truncate(kept);
            self.assertions.truncate(mark);
        }
        self.last = None;
    }

    /// Takes the engine's answer to a check of the assertions, and gives it
    /// back as a result; `None` where the engine gave no answer at all.
    pub fn check(&mut self, answer: i32) -> (r: Option<SatResult>)
        ensures
            r == decode(answer),
            final(self)@ == old(self)@.checked(answer),
            old(self)@.well_formed() ==> final(self)@.well_formed(),
    {
        let r = SatResult::from_answer(answer);
        self.last = r;
        r
    }

    /// The answer to the last check, if nothing has changed since.
    pub fn last_result(&self) -> (r: Option<SatResult>)
        ensures
            r == self@.last,
    {
        self.last
    }

    /// The model of the last check: there is one if the answer was `Sat` or
    /// `Unknown` and nothing has changed since, and none otherwise.
    pub fn get_model(&self) -> (r: Option<Model<'ctx>>)
        ensures
            r is Some == admits_model(self@.last),
            r matches Some(m) ==> m@ == (ModelView {
                context: self@.context,
                partial: self@.last == Some(SatResult::Unknown),
            }),
    {
        match self.last {
            Some(SatResult::Sat) => Some(Model { ctx: self.ctx, partial: false }),
            Some(SatResult::Unknown) => Some(Model { ctx: self.ctx, partial: true }),
            _ => None,
        }
    }
}

/// Context for solving optimization queries.
///
/// An optimizer takes assertions, scopes and checks as a solver does.
pub struct Optimize<'ctx> {
    solver: Solver<'ctx>,
}

impl<'ctx> View for Optimize<'ctx> {
    type V = SolverView;

    closed spec fn view(&self) -> SolverView {
        self.solver@
    }
}

impl<'ctx> Optimize<'ctx> {
    /// An optimizer of the context `ctx` with no assertions and no scopes.
    pub fn new(ctx: &'ctx Context) -> (r: Optimize<'ctx>)
        ensures
            r@ == SolverView::fresh(ctx.handle()),
            r@.well_formed(),
    {
        Optimize { solver: Solver::new(ctx) }
    }

    /// The context that this optimizer belongs to.
    pub fn context(&self) -> (r: &'ctx Context)
        ensures
            r.handle() == self@.context,
    {
        self.solver.context()
    }

    /// Asserts the term with the handle `term`, which is not null.
    pub fn assert_term(&mut self, term: usize)
        requires
            old(self)@.well_formed(),
            term != 0,
        ensures
            final(self)@ == old(self)@.asserted(term),
            final(self)@.well_formed(),
    {
        self.solver.assert_term(term);
    }

    /// Opens a scope.
    pub fn push(&mut self)
        requires
            old(self)@.well_formed(),
        ensures
            final(self)@ == old(self)@.pushed(),
            final(self)@.well_formed(),
    {
        self.solver.push();
    }

    /// The number of open scopes.
    pub fn scope_count(&self) -> (r: usize)
        ensures
            r == self@.scopes.len(),
    {
        self.solver.scope_count()
    }

    /// Closes the newest scope, of which there is at least one, and drops
    /// the assertions made in it.
    pub fn pop(&mut self)
        requires
            old(self)@.well_formed(),
            old(self)@.scopes.len() >= 1,
        ensures
            final(self)@ == old(self)@.popped(1),
            final(self)@.well_formed(),
    {
        self.solver.pop(1);
    }

    /// Takes the engine's answer to a check of the assertions, and gives it
    /// back as a result; `None` where the engine gave no answer at all.
    pub fn check(&mut self, answer: i32) -> (r: Option<SatResult>)
        ensures
            r == decode(answer),
            final(self)@ == old(self)@.checked(answer),
            old(self)@.well_formed() ==> final(self)@.well_formed(),
    {
        self.solver.check(answer)
    }

    /// The model of the last check: there is one if the answer was `Sat` or
    /// `Unknown` and nothing has changed since, and none otherwise.
    pub fn get_model(&self) -> (r: Option<Model<'ctx>>)
        ensures
            r is Some == admits_model(self@.last),
            r matches Some(m) ==> m@ == (ModelView {
                context: self@.context,
                partial: self@.last == Some(SatResult::Unknown),
            }),
    {
        self.solver.get_model()
    }
}

} // verus!
