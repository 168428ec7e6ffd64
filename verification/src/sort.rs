//! Sorts: the types of the engine's terms.

use vstd::prelude::*;
use vstd::std_specs::cmp::PartialEqSpecImpl;
use crate::context::Context;
use crate::symbol::{Symbol, SymbolView};

verus! {

/// What a sort is, apart from the context it belongs to.
///
/// Enumerations and datatypes are known by their names, so a datatype can
/// occur among the sorts of its own fields.
#[derive(Debug)]
pub enum SortKind {
    Bool,
    Int,
    Real,
    /// Bit vectors of the given width.
    BitVector(u32),
    /// Arrays from the first sort to the second.
    Array(Box<SortKind>, Box<SortKind>),
    /// Sets of elements of the given sort.
    SetOf(Box<SortKind>),
    Uninterpreted(Symbol),
    Enumeration(Symbol),
    Datatype(Symbol),
}

/// The mathematical value of a [`SortKind`].
pub enum SortKindView {
    Bool,
    Int,
    Real,
    BitVector(u32),
    Array(Box<SortKindView>, Box<SortKindView>),
    SetOf(Box<SortKindView>),
    Uninterpreted(SymbolView),
    Enumeration(SymbolView),
    Datatype(SymbolView),
}

impl View for SortKind {
    type V = SortKindView;

    open spec fn view(&self) -> SortKindView
        decreases self,
    {
        match self {
            SortKind::Bool => SortKindView::Bool,
            SortKind::Int => SortKindView::Int,
            SortKind::Real => SortKindView::Real,
            SortKind::BitVector(sz) => SortKindView::BitVector(*sz),
            SortKind::Array(domain, range) => SortKindView::Array(
                Box::new((**domain).view()),
                Box::new((**range).view()),
            ),
            SortKind::SetOf(elt) => SortKindView::SetOf(Box::new((**elt).view())),
            SortKind::Uninterpreted(name) => SortKindView::Uninterpreted(name@),
            SortKind::Enumeration(name) => SortKindView::Enumeration(name@),
            SortKind::Datatype(name) => SortKindView::Datatype(name@),
        }
    }
}

impl Clone for SortKind {
    fn clone(&self) -> (r: SortKind)
        ensures
            r@ == self@,
        decreases self,
    {
        match self {
            SortKind::Bool => SortKind::Bool,
            SortKind::Int => SortKind::Int,
            SortKind::Real => SortKind::Real,
            SortKind::BitVector(sz) => SortKind::BitVector(*sz),
            SortKind::Array(domain, range) => {
                let d = (**domain).clone();
                let r = (**range).clone();
                SortKind::Array(Box::new(d), Box::new(r))
            },
            SortKind::SetOf(elt) => {
                let e = (**elt).clone();
                SortKind::SetOf(Box::new(e))
            },
            SortKind::Uninterpreted(name) => SortKind::Uninterpreted(name.clone()),
            SortKind::Enumeration(name) => SortKind::Enumeration(name.clone()),
            SortKind::Datatype(name) => SortKind::Datatype(name.clone()),
        }
    }
}

/// Two kinds are equal where they are built alike from equal parts.
impl PartialEq for SortKind {
    fn eq(&self, other: &SortKind) -> (r: bool)
        decreases self,
    {
        match (self, other) {
            (SortKind::Bool, SortKind::Bool) => true,
            (SortKind::Int, SortKind::Int) => true,
            (SortKind::Real, SortKind::Real) => true,
            (SortKind::BitVector(a), SortKind::BitVector(b)) => *a == *b,
            (SortKind::Array(d1, r1), SortKind::Array(d2, r2)) => {
                (**d1).eq(&**d2) && (**r1).eq(&**r2)
            },
            (SortKind::SetOf(e1), SortKind::SetOf(e2)) => (**e1).eq(&**e2),
            (SortKind::Uninterpreted(a), SortKind::Uninterpreted(b)) => *a == *b,
            (SortKind::Enumeration(a), SortKind::Enumeration(b)) => *a == *b,
            (SortKind::Datatype(a), SortKind::Datatype(b)) => *a == *b,
            _ => false,
        }
    }
}

impl PartialEqSpecImpl for SortKind {
    open spec fn obeys_eq_spec() -> bool {
        true
    }

    open spec fn eq_spec(&self, other: &SortKind) -> bool {
        self@ == other@
    }
}

/// Sorts represent the various 'types' of the engine's terms.
///
/// A sort is a [`SortKind`] together with the context it was made under.
#[derive(Debug)]
pub struct Sort<'ctx> {
    ctx: &'ctx Context,
    kind: SortKind,
}

/// The mathematical value of a [`Sort`]: the session it belongs to, and what
/// it is there.
pub struct SortView {
    pub context: usize,
    pub kind: SortKindView,
}

impl<'ctx> View for Sort<'ctx> {
    type V = SortView;

    closed spec fn view(&self) -> SortView {
        SortView { context: self.ctx.handle(), kind: self.kind@ }
    }
}

impl<'ctx> Clone for Sort<'ctx> {
    fn clone(&self) -> (r: Sort<'ctx>)
        ensures
            r@ == self@,
    {
        Sort { ctx: self.ctx, kind: self.kind.clone() }
    }
}

/// Two sorts are equal where they belong to the same session and are the
/// same there.
impl<'ctx> PartialEq for Sort<'ctx> {
    fn eq(&self, other: &Sort<'ctx>) -> (r: bool) {
        self.ctx.same(other.ctx) && self.kind == other.kind
    }
}

impl<'ctx> PartialEqSpecImpl for Sort<'ctx> {
    open spec fn obeys_eq_spec() -> bool {
        true
    }

    open spec fn eq_spec(&self, other: &Sort<'ctx>) -> bool {
        self@ == other@
    }
}

impl<'ctx> Sort<'ctx> {
    /// The sort `kind` in the context `ctx`.
    pub(crate) fn of_kind(ctx: &'ctx Context, kind: SortKind) -> (r: Sort<'ctx>)
        ensures
            r@ == (SortView { context: ctx.handle(), kind: kind@ }),
    {
        Sort { ctx, kind }
    }

    /// The context that this sort belongs to.
    pub fn context(&self) -> (r: &'ctx Context)
        ensures
            r.handle() == self@.context,
    {
        self.ctx
    }

    /// What this sort is in its context.
    pub fn kind(&self) -> (r: &SortKind)
        ensures
            r@ == self@.kind,
    {
        &self.kind
    }
}

} // verus!
