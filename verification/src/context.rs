//! Contexts: the root that every other object is tied to.

use vstd::prelude::*;
use crate::config::{first_bad_pair, pairs_ok, Config};
use crate::func_decl::{all_in_context, kinds_of, kinds_view, DeclKind, FuncDecl, FuncDeclView};
use crate::sort::{Sort, SortKind, SortKindView, SortView};
use crate::symbol::{Symbol, SymbolView};

verus! {

/// Manager of all other objects of one engine session.
///
/// A context holds the handle of the session. Sorts, function declarations
/// and builders borrow the context they were made under, so none of them can
/// be kept beyond it. Objects of one context cannot be used in another.
#[derive(Debug)]
pub struct Context {
    handle: usize,
}

/// Why no context came of a configuration.
#[derive(Clone, Copy, Debug, PartialEq, Eq, Structural)]
pub enum ContextError {
    /// The pair at this position holds a NUL character in its key or value,
    /// so it cannot be handed to the engine. It is the first such pair.
    MalformedParameter(usize),
    /// The engine refused the configuration: it gave no session.
    EngineRefused,
}

/// What the engine is doing for a context.
#[derive(Clone, Copy, Debug, PartialEq, Eq, Structural)]
pub enum Activity {
    /// No operation is in flight.
    Idle,
    /// An operation is in flight and has not been asked to stop.
    Running,
    /// An operation is in flight and has been asked to stop.
    Interrupted,
}

impl Activity {
    /// Whether an interrupt in this state is passed on to the engine: only
    /// while an operation is in flight.
    pub open spec fn signals(self) -> bool {
        self != Activity::Idle
    }

    /// The state after an interrupt in this state.
    pub open spec fn after_interrupt(self) -> Activity {
        if self == Activity::Idle {
            Activity::Idle
        } else {
            Activity::Interrupted
        }
    }

    /// The state after an operation has begun in this state.
    pub open spec fn after_begin(self) -> Activity {
        Activity::Running
    }

    /// Whether an operation that ends in this state reports that it was
    /// asked to stop.
    pub open spec fn reports_interrupt(self) -> bool {
        self == Activity::Interrupted
    }

    /// The state of a context in which nothing has been started.
    pub fn new() -> (r: Activity)
        ensures
            r == Activity::Idle,
    {
        Activity::Idle
    }

    /// Whether no operation is in flight.
    pub fn is_idle(&self) -> (r: bool)
        ensures
            r == (*self == Activity::Idle),
    {
        match self {
            Activity::Idle => true,
            _ => false,
        }
    }

    /// Marks the begin of an operation. Operations of one context do not
    /// overlap, so none is in flight.
    pub fn begin(&mut self)
        requires
            *old(self) == Activity::Idle,
        ensures
            *final(self) == old(self).after_begin(),
    {
        *self = Activity::Running;
    }

    /// Marks the end of the operation in flight, and tells whether it was
    /// asked to stop while it ran.
    pub fn end(&mut self) -> (r: bool)
        requires
            *old(self) != Activity::Idle,
        ensures
            *final(self) == Activity::Idle,
            r == old(self).reports_interrupt(),
    {
        let r = match self {
            Activity::Interrupted => true,
            _ => false,
        };
        *self = Activity::Idle;
        r
    }
}

/// The constant of the element called `name`, at position `i` of the
/// enumeration called `sort`.
pub open spec fn enum_constant(
    context: usize,
    sort: SymbolView,
    i: int,
    name: SymbolView,
) -> FuncDeclView {
    FuncDeclView {
        context,
        kind: DeclKind::Constructor(i as usize),
        name,
        domain: Seq::empty(),
        range: SortKindView::Enumeration(sort),
    }
}

/// The tester of the element called `name`, at position `i` of the
/// enumeration called `sort`.
pub open spec fn enum_tester(
    context: usize,
    sort: SymbolView,
    i: int,
    name: SymbolView,
) -> FuncDeclView {
    FuncDeclView {
        context,
        kind: DeclKind::Tester(i as usize),
        name,
        domain: seq![SortKindView::Enumeration(sort)],
        range: SortKindView::Bool,
    }
}

impl Context {
    #[verifier::type_invariant]
    spec fn live(self) -> bool {
        self.handle != 0
    }

    /// The handle of the session that this context stands for.
    pub closed spec fn spec_handle(&self) -> usize {
        self.handle
    }

    /// Makes the context of the session that the engine opened for `cfg`.
    ///
    /// `handle` is what the engine answered when it was asked for a session
    /// with this configuration; zero means that it gave none. A configuration
    /// that cannot be handed to the engine is reported before that.
    pub fn new(cfg: &Config, handle: usize) -> (r: Result<Context, ContextError>)
        ensures
            match r {
                Ok(ctx) => pairs_ok(cfg@) && handle != 0 && ctx.handle() == handle,
                Err(ContextError::MalformedParameter(i)) => first_bad_pair(cfg@, i as int),
                Err(ContextError::EngineRefused) => pairs_ok(cfg@) && handle == 0,
            },
    {
        match cfg.first_malformed() {
            Some(i) => Err(ContextError::MalformedParameter(i)),
            None => if handle == 0 {
                Err(ContextError::EngineRefused)
            } else {
                Ok(Context { handle })
            },
        }
    }

    /// The handle of the session. It is never zero.
    #[verifier::when_used_as_spec(spec_handle)]
    pub fn handle(&self) -> (r: usize)
        ensures
            r == self.handle(),
            r != 0,
    {
        proof {
            use_type_invariant(self);
        }
        self.handle
    }

    /// Whether two contexts stand for the same session.
    pub fn same(&self, other: &Context) -> (r: bool)
        ensures
            r == (self.handle() == other.handle()),
    {
        self.handle == other.handle
    }

    /// Interrupt a solver performing a satisfiability test, a tactic
    /// processing a goal, or simplify functions.
    ///
    /// `activity` is what the engine is doing for this context. The result is
    /// the session to signal, if an operation is in flight there. With none
    /// in flight nothing is signalled and nothing changes, so the next
    /// operation starts as if there had been no interrupt.
    pub fn interrupt(&self, activity: &mut Activity) -> (r: Option<usize>)
        ensures
            *final(activity) == old(activity).after_interrupt(),
            r == if old(activity).signals() {
                Some(self.handle())
            } else {
                None
            },
    {
        if activity.is_idle() {
            None
        } else {
            *activity = Activity::Interrupted;
            Some(self.handle())
        }
    }

    /// The sort of the booleans.
    pub fn bool_sort(&self) -> (r: Sort<'_>)
        ensures
            r@ == (SortView { context: self.handle(), kind: SortKindView::Bool }),
    {
        Sort::of_kind(self, SortKind::Bool)
    }

    /// The sort of the integers.
    pub fn int_sort(&self) -> (r: Sort<'_>)
        ensures
            r@ == (SortView { context: self.handle(), kind: SortKindView::Int }),
    {
        Sort::of_kind(self, SortKind::Int)
    }

    /// The sort of the reals.
    pub fn real_sort(&self) -> (r: Sort<'_>)
        ensures
            r@ == (SortView { context: self.handle(), kind: SortKindView::Real }),
    {
        Sort::of_kind(self, SortKind::Real)
    }

    /// The sort of the bit vectors of width `sz`, which is positive.
    pub fn bitvector_sort(&self, sz: u32) -> (r: Sort<'_>)
        requires
            sz > 0,
        ensures
            r@ == (SortView { context: self.handle(), kind: SortKindView::BitVector(sz) }),
    {
        Sort::of_kind(self, SortKind::BitVector(sz))
    }

    /// The sort of the arrays from `domain` to `range`, both of which belong
    /// to this context.
    pub fn array_sort<'ctx>(&'ctx self, domain: &Sort<'ctx>, range: &Sort<'ctx>) -> (r: Sort<'ctx>)
        requires
            domain@.context == self.handle(),
            range@.context == self.handle(),
        ensures
            r@ == (SortView {
                context: self.handle(),
                kind: SortKindView::Array(Box::new(domain@.kind), Box::new(range@.kind)),
            }),
    {
        let d = domain.kind().clone();
        let r = range.kind().clone();
        Sort::of_kind(self, SortKind::Array(Box::new(d), Box::new(r)))
    }

    /// The sort of the sets of elements of `elt`, which belongs to this
    /// context.
    pub fn set_sort<'ctx>(&'ctx self, elt: &Sort<'ctx>) -> (r: Sort<'ctx>)
        requires
            elt@.context == self.handle(),
        ensures
            r@ == (SortView {
                context: self.handle(),
                kind: SortKindView::SetOf(Box::new(elt@.kind)),
            }),
    {
        let e = elt.kind().clone();
        Sort::of_kind(self, SortKind::SetOf(Box::new(e)))
    }

    /// The free sort called `name`. Two free sorts of one context are the
    /// same if and only if they have the same name.
    pub fn uninterpreted_sort(&self, name: Symbol) -> (r: Sort<'_>)
        ensures
            r@ == (SortView {
                context: self.handle(),
                kind: SortKindView::Uninterpreted(name@),
            }),
    {
        Sort::of_kind(self, SortKind::Uninterpreted(name))
    }

    /// Create an enumeration sort.
    ///
    /// Creates an enumeration sort with the given `name`.
    /// The enum variants will have the names in `enum_names`.
    /// Three things are returned:
    /// - the created `Sort`,
    /// - constants to create the variants,
    /// - and testers to check if a value is equal to a variant.
    ///
    /// The constant and the tester at a position belong to the name at that
    /// position. Names that occur twice are kept apart by their positions.
    pub fn enumeration_sort<'ctx>(&'ctx self, name: Symbol, enum_names: &[Symbol]) -> (r: (
        Sort<'ctx>,
        Vec<FuncDecl<'ctx>>,
        Vec<FuncDecl<'ctx>>,
    ))
        ensures
            r.0@ == (SortView {
                context: self.handle(),
                kind: SortKindView::Enumeration(name@),
            }),
            r.1@.len() == enum_names@.len(),
            r.2@.len() == enum_names@.len(),
            forall|i: int|
                0 <= i < enum_names@.len() ==> (#[trigger] r.1@[i])@ == enum_constant(
                    self.handle(),
                    name@,
                    i,
                    enum_names@[i]@,
                ),
            forall|i: int|
                0 <= i < enum_names@.len() ==> (#[trigger] r.2@[i])@ == enum_tester(
                    self.handle(),
                    name@,
                    i,
                    enum_names@[i]@,
                ),
    {
        let mut consts: Vec<FuncDecl<'ctx>> = Vec::new();
        let mut testers: Vec<FuncDecl<'ctx>> = Vec::new();
        let mut i: usize = 0;
        while i < enum_names.len()
            invariant
                i <= enum_names.len(),
                consts.len() == i,
                testers.len() == i,
                forall|k: int|
                    0 <= k < i ==> (#[trigger] consts@[k])@ == enum_constant(
                        self.handle(),
                        name@,
                        k,
                        enum_names@[k]@,
                    ),
                forall|k: int|
                    0 <= k < i ==> (#[trigger] testers@[k])@ == enum_tester(
                        self.handle(),
                        name@,
                        k,
                        enum_names@[k]@,
                    ),
            decreases enum_names.len() - i,
        {
            let none: Vec<SortKind> = Vec::new();
            assert(kinds_view(none@) =~= Seq::empty());
            consts.push(
                FuncDecl::of_parts(
                    self,
                    DeclKind::Constructor(i),
                    enum_names[i].clone(),
                    none,
                    SortKind::Enumeration(name.clone()),
                ),
            );
            let owner: Vec<SortKind> = vec![SortKind::Enumeration(name.clone())];
            assert(kinds_view(owner@) =~= seq![SortKindView::Enumeration(name@)]);
            testers.push(
                FuncDecl::of_parts(
                    self,
                    DeclKind::Tester(i),
                    enum_names[i].clone(),
                    owner,
                    SortKind::Bool,
                ),
            );
            i += 1;
        }
        (Sort::of_kind(self, SortKind::Enumeration(name)), consts, testers)
    }

    /// Declares a function called `name` from `domain` to `range`, or a
    /// constant of sort `range` where `domain` is empty. All the sorts belong
    /// to this context.
    pub fn func_decl<'ctx, S: Into<Symbol>>(
        &'ctx self,
        name: S,
        domain: &[&Sort<'ctx>],
        range: &Sort<'ctx>,
    ) -> (r: FuncDecl<'ctx>)
        requires
            all_in_context(domain@, self.handle()),
            range@.context == self.handle(),
        ensures
            call_ensures(S::into, (name,), r.symbol()),
            r@ == (FuncDeclView {
                context: self.handle(),
                kind: DeclKind::Function,
                name: r.symbol()@,
                domain: kinds_of(domain@),
                range: range@.kind,
            }),
    {
        FuncDecl::new(self, name, domain, range)
    }
}

} // verus!
