//! Function declarations: the signatures of functions and constants.

use vstd::prelude::*;
use vstd::std_specs::cmp::PartialEqSpecImpl;
use crate::context::Context;
use crate::sort::{Sort, SortKind, SortKindView, SortView};
use crate::symbol::{Symbol, SymbolView};

verus! {

/// How a declaration came to be.
#[derive(Clone, Copy, Debug, PartialEq, Eq, Structural)]
pub enum DeclKind {
    /// Declared on its own, by name, domain and range.
    Function,
    /// Builds the values of one variant of its range; the number is the
    /// variant's position.
    Constructor(usize),
    /// Tells whether a value of its domain belongs to one variant; the number
    /// is the variant's position.
    Tester(usize),
    /// Reads one field of one variant: the variant's position, then the
    /// field's position in it.
    Accessor(usize, usize),
}

/// Function declaration. Every constant and function have an associated
/// declaration.
///
/// The declaration assigns a name, a sort (i.e., type), and for function
/// the sort (i.e., type) of each of its arguments. A constant is a function
/// with 0 arguments. A constructor and a tester carry the name of their
/// variant, an accessor the name of its field.
#[derive(Debug)]
pub struct FuncDecl<'ctx> {
    ctx: &'ctx Context,
    kind: DeclKind,
    name: Symbol,
    domain: Vec<SortKind>,
    range: SortKind,
}

/// The mathematical value of a [`FuncDecl`].
pub struct FuncDeclView {
    pub context: usize,
    pub kind: DeclKind,
    pub name: SymbolView,
    pub domain: Seq<SortKindView>,
    pub range: SortKindView,
}

/// The values of a list of sort kinds, in order.
pub open spec fn kinds_view(kinds: Seq<SortKind>) -> Seq<SortKindView> {
    Seq::new(kinds.len(), |i: int| kinds[i]@)
}

/// Whether every sort of a list belongs to the session `context`.
pub open spec fn all_in_context(sorts: Seq<&Sort<'_>>, context: usize) -> bool {
    forall|i: int| 0 <= i < sorts.len() ==> (#[trigger] sorts[i])@.context == context
}

/// What the sorts of a list are in their contexts, in order.
pub open spec fn kinds_of(sorts: Seq<&Sort<'_>>) -> Seq<SortKindView> {
    Seq::new(sorts.len(), |i: int| sorts[i]@.kind)
}

/// The enumeration or datatype that a declaration belongs to: a constructor
/// gives values of it, a tester and an accessor take a value of it. A
/// declaration that was made on its own belongs to none.
pub open spec fn owner_of(decl: FuncDeclView) -> Option<SortKindView> {
    match decl.kind {
        DeclKind::Function => None,
        DeclKind::Constructor(_) => Some(decl.range),
        _ => if decl.domain.len() > 0 {
            Some(decl.domain[0])
        } else {
            None
        },
    }
}

impl<'ctx> View for FuncDecl<'ctx> {
    type V = FuncDeclView;

    closed spec fn view(&self) -> FuncDeclView {
        FuncDeclView {
            context: self.ctx.handle(),
            kind: self.kind,
            name: self.name@,
            domain: kinds_view(self.domain@),
            range: self.range@,
        }
    }
}

/// Copies a list of sort kinds.
pub(crate) fn clone_kinds(kinds: &Vec<SortKind>) -> (r: Vec<SortKind>)
    ensures
        kinds_view(r@) == kinds_view(kinds@),
{
    let mut out: Vec<SortKind> = Vec::new();
    let mut i: usize = 0;
    while i < kinds.len()
        invariant
            i <= kinds.len(),
            out.len() == i,
            forall|j: int| 0 <= j < i ==> out@[j]@ == kinds@[j]@,
        decreases kinds.len() - i,
    {
        out.push(kinds[i].clone());
        i += 1;
    }
    out
}

/// Whether two lists of sort kinds hold the same kinds in the same order.
pub(crate) fn same_kinds(a: &Vec<SortKind>, b: &Vec<SortKind>) -> (r: bool)
    ensures
        r == (kinds_view(a@) == kinds_view(b@)),
{
    if a.len() != b.len() {
        assert(kinds_view(a@).len() != kinds_view(b@).len());
        return false;
    }
    let mut i: usize = 0;
    while i < a.len()
        invariant
            a.len() == b.len(),
            i <= a.len(),
            forall|j: int| 0 <= j < i ==> a@[j]@ == b@[j]@,
        decreases a.len() - i,
    {
        if !(a[i] == b[i]) {
            assert(kinds_view(a@)[i as int] != kinds_view(b@)[i as int]);
            return false;
        }
        i += 1;
    }
    assert(kinds_view(a@) =~= kinds_view(b@));
    true
}

impl<'ctx> Clone for FuncDecl<'ctx> {
    fn clone(&self) -> (r: FuncDecl<'ctx>)
        ensures
            r@ == self@,
    {
        FuncDecl {
            ctx: self.ctx,
            kind: self.kind,
            name: self.name.clone(),
            domain: clone_kinds(&self.domain),
            range: self.range.clone(),
        }
    }
}

/// Two declarations are equal where they belong to the same session and
/// agree in kind, name, domain and range.
impl<'ctx> PartialEq for FuncDecl<'ctx> {
    fn eq(&self, other: &FuncDecl<'ctx>) -> (r: bool) {
        self.ctx.same(other.ctx) && self.kind == other.kind && self.name == other.name
            && same_kinds(&self.domain, &other.domain) && self.range == other.range
    }
}

impl<'ctx> PartialEqSpecImpl for FuncDecl<'ctx> {
    open spec fn obeys_eq_spec() -> bool {
        true
    }

    open spec fn eq_spec(&self, other: &FuncDecl<'ctx>) -> bool {
        self@ == other@
    }
}

impl<'ctx> FuncDecl<'ctx> {
    /// The symbol that the declaration holds as its name.
    pub closed spec fn symbol(&self) -> Symbol {
        self.name
    }

    /// The declaration made of the given parts.
    pub(crate) fn of_parts(
        ctx: &'ctx Context,
        kind: DeclKind,
        name: Symbol,
        domain: Vec<SortKind>,
        range: SortKind,
    ) -> (r: FuncDecl<'ctx>)
        ensures
            r.symbol() == name,
            r@ == (FuncDeclView {
                context: ctx.handle(),
                kind,
                name: name@,
                domain: kinds_view(domain@),
                range: range@,
            }),
    {
        FuncDecl { ctx, kind, name, domain, range }
    }

    /// Declares a function called `name` from `domain` to `range`, or a
    /// constant of sort `range` where `domain` is empty. All the sorts belong
    /// to `ctx`.
    pub fn new<S: Into<Symbol>>(
        ctx: &'ctx Context,
        name: S,
        domain: &[&Sort<'ctx>],
        range: &Sort<'ctx>,
    ) -> (r: FuncDecl<'ctx>)
        requires
            all_in_context(domain@, ctx.handle()),
            range@.context == ctx.handle(),
        ensures
            call_ensures(S::into, (name,), r.symbol()),
            r@ == (FuncDeclView {
                context: ctx.handle(),
                kind: DeclKind::Function,
                name: r.symbol()@,
                domain: kinds_of(domain@),
                range: range@.kind,
            }),
    {
        let mut kinds: Vec<SortKind> = Vec::new();
        let mut i: usize = 0;
        while i < domain.len()
            invariant
                i <= domain.len(),
                kinds.len() == i,
                forall|j: int| 0 <= j < i ==> kinds@[j]@ == domain@[j]@.kind,
            decreases domain.len() - i,
        {
            kinds.push(domain[i].kind().clone());
            i += 1;
        }
        assert(kinds_view(kinds@) =~= kinds_of(domain@));
        FuncDecl::of_parts(ctx, DeclKind::Function, name.into(), kinds, range.kind().clone())
    }

    /// The context that this declaration belongs to.
    pub fn context(&self) -> (r: &'ctx Context)
        ensures
            r.handle() == self@.context,
    {
        self.ctx
    }

    /// How the declaration came to be.
    pub fn kind(&self) -> (r: DeclKind)
        ensures
            r == self@.kind,
    {
        self.kind
    }

    /// The name of the declaration.
    pub fn name(&self) -> (r: &Symbol)
        ensures
            *r == self.symbol(),
            r@ == self@.name,
    {
        &self.name
    }

    /// The number of arguments. It is 0 for a constant.
    pub fn arity(&self) -> (r: usize)
        ensures
            r == self@.domain.len(),
    {
        self.domain.len()
    }

    /// The sort of the argument at position `i`.
    pub fn domain(&self, i: usize) -> (r: Sort<'ctx>)
        requires
            i < self@.domain.len(),
        ensures
            r@ == (SortView { context: self@.context, kind: self@.domain[i as int] }),
    {
        Sort::of_kind(self.ctx, self.domain[i].clone())
    }

    /// The sort of the results.
    pub fn range(&self) -> (r: Sort<'ctx>)
        ensures
            r@ == (SortView { context: self@.context, kind: self@.range }),
    {
        Sort::of_kind(self.ctx, self.range.clone())
    }

    /// The enumeration or datatype that the declaration belongs to, if it is
    /// a constructor, a tester or an accessor.
    pub fn owner(&self) -> (r: Option<Sort<'ctx>>)
        ensures
            match r {
                Some(sort) => owner_of(self@) == Some(sort@.kind) && sort@.context
                    == self@.context,
                None => owner_of(self@) is None,
            },
    {
        match self.kind {
            DeclKind::Function => None,
            DeclKind::Constructor(_) => Some(self.range()),
            _ => if self.domain.len() > 0 {
                Some(self.domain(0))
            } else {
                None
            },
        }
    }

    /// Whether the declaration can be applied to arguments of the sorts
    /// `args`: there are as many as the arity, and each is the sort that the
    /// declaration has at its position, in the declaration's context.
    pub fn accepts(&self, args: &[&Sort<'ctx>]) -> (r: bool)
        ensures
            r == (all_in_context(args@, self@.context) && kinds_of(args@) == self@.domain),
    {
        if args.len() != self.domain.len() {
            assert(kinds_of(args@).len() != self@.domain.len());
            return false;
        }
        let mut i: usize = 0;
        while i < args.len()
            invariant
                args.len() == self.domain.len(),
                i <= args.len(),
                forall|j: int| 0 <= j < i ==> (#[trigger] args@[j])@.context == self@.context,
                forall|j: int| 0 <= j < i ==> args@[j]@.kind == self@.domain[j],
            decreases args.len() - i,
        {
            let arg = args[i];
            if !arg.context().same(self.ctx) {
                return false;
            }
            if !(*arg.kind() == self.domain[i]) {
                assert(kinds_of(args@)[i as int] != self@.domain[i as int]);
                return false;
            }
            i += 1;
        }
        assert(kinds_of(args@) =~= self@.domain);
        true
    }
}

} // verus!
