//! Algebraic datatypes: declared variant by variant, then finished at once.

use vstd::prelude::*;
use vstd::string::*;
use crate::context::Context;
use crate::func_decl::{kinds_view, DeclKind, FuncDecl, FuncDeclView};
use crate::sort::{Sort, SortKind, SortKindView, SortView};
use crate::symbol::{Symbol, SymbolView};

verus! {

/// The sort of a field of a variant under declaration.
pub enum FieldSort<'a, 'ctx> {
    /// A sort that exists already.
    Of(&'a Sort<'ctx>),
    /// The datatype under declaration itself, as in the tail of a list cell.
    Itself,
}

struct FieldDecl {
    name: String,
    sort: Option<SortKind>,
}

struct VariantDecl {
    name: String,
    fields: Vec<FieldDecl>,
}

/// Build a datatype sort.
///
/// A builder is in one of two states, and the types keep them apart: while it
/// is a `DatatypeBuilder`, variants can be appended; `finish` consumes it and
/// gives a [`DatatypeSort`], which has no way to take another variant.
/// Nothing is declared before `finish`, since a field may refer to the
/// datatype as a whole.
pub struct DatatypeBuilder<'ctx> {
    ctx: &'ctx Context,
    variants: Vec<VariantDecl>,
}

/// A field as it was declared: its name and its sort, `None` where the sort
/// is the datatype under declaration.
pub struct FieldView {
    pub name: Seq<char>,
    pub sort: Option<SortKindView>,
}

/// A variant as it was declared: its name and its fields, in order.
pub struct VariantView {
    pub name: Seq<char>,
    pub fields: Seq<FieldView>,
}

/// The mathematical value of a [`DatatypeBuilder`]: the session it belongs
/// to, and the variants declared so far, oldest first.
pub struct BuilderView {
    pub context: usize,
    pub variants: Seq<VariantView>,
}

/// One case of a finished datatype.
#[derive(Debug)]
pub struct DatatypeVariant<'ctx> {
    /// Builds the values of this variant from the values of its fields.
    pub constructor: FuncDecl<'ctx>,
    /// Tells whether a value of the datatype belongs to this variant.
    pub tester: FuncDecl<'ctx>,
    /// One declaration per field, in the order of declaration, each reading
    /// its field from a value of this variant.
    pub accessors: Vec<FuncDecl<'ctx>>,
}

/// A finished datatype: its sort and its variants, in the order in which
/// they were declared.
#[derive(Debug)]
pub struct DatatypeSort<'ctx> {
    pub sort: Sort<'ctx>,
    pub variants: Vec<DatatypeVariant<'ctx>>,
}

impl FieldDecl {
    spec fn view(&self) -> FieldView {
        FieldView {
            name: self.name@,
            sort: match self.sort {
                Some(kind) => Some(kind@),
                None => None,
            },
        }
    }
}

impl VariantDecl {
    spec fn view(&self) -> VariantView {
        VariantView {
            name: self.name@,
            fields: Seq::new(self.fields@.len(), |j: int| self.fields@[j].view()),
        }
    }
}

impl<'ctx> View for DatatypeBuilder<'ctx> {
    type V = BuilderView;

    closed spec fn view(&self) -> BuilderView {
        BuilderView {
            context: self.ctx.handle(),
            variants: Seq::new(self.variants@.len(), |i: int| self.variants@[i].view()),
        }
    }
}

/// The field that a pair of a name and a field sort declares.
pub open spec fn field_of(field: (&str, FieldSort<'_, '_>)) -> FieldView {
    FieldView {
        name: field.0@,
        sort: match field.1 {
            FieldSort::Of(sort) => Some(sort@.kind),
            FieldSort::Itself => None,
        },
    }
}

/// The fields that a list of pairs declares, in order.
pub open spec fn fields_of(fields: Seq<(&str, FieldSort<'_, '_>)>) -> Seq<FieldView> {
    Seq::new(fields.len(), |j: int| field_of(fields[j]))
}

/// Whether every existing sort among the fields belongs to the session
/// `context`.
pub open spec fn fields_in_context(
    fields: Seq<(&str, FieldSort<'_, '_>)>,
    context: usize,
) -> bool {
    forall|j: int|
        0 <= j < fields.len() ==> match (#[trigger] fields[j]).1 {
            FieldSort::Of(sort) => sort@.context == context,
            FieldSort::Itself => true,
        }
}

/// The sort that a field has in the finished datatype called `datatype`: the
/// sort it was declared with, or the datatype itself.
pub open spec fn resolved(field: FieldView, datatype: SymbolView) -> SortKindView {
    match field.sort {
        Some(kind) => kind,
        None => SortKindView::Datatype(datatype),
    }
}

/// The constructor of the variant `v`, declared at position `i` of the
/// datatype called `datatype`: it takes one argument per field, of the
/// field's sort, and gives a value of the datatype.
pub open spec fn constructor_of(
    context: usize,
    datatype: SymbolView,
    i: int,
    v: VariantView,
) -> FuncDeclView {
    FuncDeclView {
        context,
        kind: DeclKind::Constructor(i as usize),
        name: SymbolView::String(v.name),
        domain: Seq::new(v.fields.len(), |j: int| resolved(v.fields[j], datatype)),
        range: SortKindView::Datatype(datatype),
    }
}

/// The tester of the variant `v`, declared at position `i` of the datatype
/// called `datatype`: it takes a value of the datatype and gives a boolean.
pub open spec fn tester_of(
    context: usize,
    datatype: SymbolView,
    i: int,
    v: VariantView,
) -> FuncDeclView {
    FuncDeclView {
        context,
        kind: DeclKind::Tester(i as usize),
        name: SymbolView::String(v.name),
        domain: seq![SortKindView::Datatype(datatype)],
        range: SortKindView::Bool,
    }
}

/// The accessor of the field `f`, declared at position `j` of the variant at
/// position `i` of the datatype called `datatype`: it takes a value of the
/// datatype and gives a value of the field's sort.
pub open spec fn accessor_of(
    context: usize,
    datatype: SymbolView,
    i: int,
    j: int,
    f: FieldView,
) -> FuncDeclView {
    FuncDeclView {
        context,
        kind: DeclKind::Accessor(i as usize, j as usize),
        name: SymbolView::String(f.name),
        domain: seq![SortKindView::Datatype(datatype)],
        range: resolved(f, datatype),
    }
}

/// Whether `variant` is what the declaration `v`, at position `i` of the
/// datatype called `datatype`, comes to.
pub open spec fn variant_realizes(
    variant: DatatypeVariant<'_>,
    context: usize,
    datatype: SymbolView,
    i: int,
    v: VariantView,
) -> bool {
    &&& variant.constructor@ == constructor_of(context, datatype, i, v)
    &&& variant.tester@ == tester_of(context, datatype, i, v)
    &&& variant.accessors@.len() == v.fields.len()
    &&& forall|j: int|
        0 <= j < v.fields.len() ==> (#[trigger] variant.accessors@[j])@ == accessor_of(
            context,
            datatype,
            i,
            j,
            v.fields[j],
        )
}

/// Whether `finished` is what the declarations of `builder` come to under
/// the name `datatype`: the datatype's sort, and for every declared variant,
/// at its position, its constructor, its tester and its accessors.
pub open spec fn realizes(
    finished: DatatypeSort<'_>,
    builder: BuilderView,
    datatype: SymbolView,
) -> bool {
    &&& finished.sort@ == (SortView {
        context: builder.context,
        kind: SortKindView::Datatype(datatype),
    })
    &&& finished.variants@.len() == builder.variants.len()
    &&& forall|i: int|
        0 <= i < builder.variants.len() ==> variant_realizes(
            #[trigger] finished.variants@[i],
            builder.context,
            datatype,
            i,
            builder.variants[i],
        )
}

/// The name under which the tester of a variant is asked of the engine:
/// `is-` and the variant's name.
pub fn recognizer_name(variant: &str) -> (r: String)
    ensures
        r@ == "is-"@ + variant@,
{
    let mut r = String::from_str("is-");
    r.append(variant);
    r
}

fn realize_variant<'ctx>(
    ctx: &'ctx Context,
    datatype: &Symbol,
    i: usize,
    decl: &VariantDecl,
) -> (r: DatatypeVariant<'ctx>)
    ensures
        variant_realizes(r, ctx.handle(), datatype@, i as int, decl.view()),
{
    let ghost v = decl.view();
    let mut domain: Vec<SortKind> = Vec::new();
    let mut accessors: Vec<FuncDecl<'ctx>> = Vec::new();
    let mut j: usize = 0;
    while j < decl.fields.len()
        invariant
            v == decl.view(),
            j <= decl.fields.len(),
            domain.len() == j,
            accessors.len() == j,
            forall|k: int| 0 <= k < j ==> domain@[k]@ == resolved(v.fields[k], datatype@),
            forall|k: int|
                0 <= k < j ==> (#[trigger] accessors@[k])@ == accessor_of(
                    ctx.handle(),
                    datatype@,
                    i as int,
                    k,
                    v.fields[k],
                ),
        decreases decl.fields.len() - j,
    {
        let field = &decl.fields[j];
        let kind = match &field.sort {
            Some(kind) => kind.clone(),
            None => SortKind::Datatype(datatype.clone()),
        };
        let owner: Vec<SortKind> = vec![SortKind::Datatype(datatype.clone())];
        assert(kinds_view(owner@) =~= seq![SortKindView::Datatype(datatype@)]);
        let accessor = FuncDecl::of_parts(
            ctx,
            DeclKind::Accessor(i, j),
            Symbol::String(field.name.clone()),
            owner,
            kind.clone(),
        );
        accessors.push(accessor);
        domain.push(kind);
        j += 1;
    }
    assert(kinds_view(domain@) =~= constructor_of(ctx.handle(), datatype@, i as int, v).domain);
    let constructor = FuncDecl::of_parts(
        ctx,
        DeclKind::Constructor(i),
        Symbol::String(decl.name.clone()),
        domain,
        SortKind::Datatype(datatype.clone()),
    );
    let owner: Vec<SortKind> = vec![SortKind::Datatype(datatype.clone())];
    assert(kinds_view(owner@) =~= seq![SortKindView::Datatype(datatype@)]);
    let tester = FuncDecl::of_parts(
        ctx,
        DeclKind::Tester(i),
        Symbol::String(decl.name.clone()),
        owner,
        SortKind::Bool,
    );
    DatatypeVariant { constructor, tester, accessors }
}

impl<'ctx> DatatypeSort<'ctx> {
    /// Whether the field at position `j` of the variant at position `i` has
    /// the datatype itself as its sort.
    pub fn refers_to_itself(&self, i: usize, j: usize) -> (r: bool)
        requires
            i < self.variants@.len(),
            j < self.variants@[i as int].accessors@.len(),
        ensures
            r == ((SortView {
                context: self.variants@[i as int].accessors@[j as int]@.context,
                kind: self.variants@[i as int].accessors@[j as int]@.range,
            }) == self.sort@),
    {
        self.variants[i].accessors[j].range() == self.sort
    }
}

impl<'ctx> DatatypeBuilder<'ctx> {
    /// A builder with no variants, in the context `ctx`.
    pub fn new(ctx: &'ctx Context) -> (r: DatatypeBuilder<'ctx>)
        ensures
            r@ == (BuilderView { context: ctx.handle(), variants: Seq::empty() }),
    {
        let r = DatatypeBuilder { ctx, variants: Vec::new() };
        assert(r@.variants =~= Seq::empty());
        r
    }

    /// Appends the variant called `name` with the given fields, each a pair
    /// of the accessor's name and the field's sort. The existing sorts among
    /// them belong to the builder's context.
    pub fn variant(self, name: &str, fields: &[(&str, FieldSort<'_, 'ctx>)]) -> (r: Self)
        requires
            fields_in_context(fields@, self@.context),
        ensures
            r@ == (BuilderView {
                context: self@.context,
                variants: self@.variants.push(
                    VariantView { name: name@, fields: fields_of(fields@) },
                ),
            }),
    {
        let mut builder = self;
        let mut decls: Vec<FieldDecl> = Vec::new();
        let mut j: usize = 0;
        while j < fields.len()
            invariant
                j <= fields.len(),
                decls.len() == j,
                forall|k: int| 0 <= k < j ==> decls@[k].view() == field_of(fields@[k]),
            decreases fields.len() - j,
        {
            let sort = match &fields[j].1 {
                FieldSort::Of(sort) => Some(sort.kind().clone()),
                FieldSort::Itself => None,
            };
            decls.push(FieldDecl { name: String::from_str(fields[j].0), sort });
            j += 1;
        }
        let decl = VariantDecl { name: String::from_str(name), fields: decls };
        assert(decl.view().fields =~= fields_of(fields@));
        builder.variants.push(decl);
        assert(builder@.variants =~= self@.variants.push(
            VariantView { name: name@, fields: fields_of(fields@) },
        ));
        builder
    }

    /// The number of variants declared so far.
    pub fn len(&self) -> (r: usize)
        ensures
            r == self@.variants.len(),
    {
        self.variants.len()
    }

    /// Whether a variant called `name` has been declared.
    pub fn declares(&self, name: &str) -> (r: bool)
        ensures
            r == exists|i: int|
                0 <= i < self@.variants.len() && (#[trigger] self@.variants[i]).name == name@,
    {
        let wanted = String::from_str(name);
        let mut i: usize = 0;
        while i < self.variants.len()
            invariant
                i <= self.variants.len(),
                wanted@ == name@,
                forall|k: int| 0 <= k < i ==> (#[trigger] self@.variants[k]).name != name@,
            decreases self.variants.len() - i,
        {
            if self.variants[i].name == wanted {
                assert(self@.variants[i as int].name == name@);
                return true;
            }
            i += 1;
        }
        false
    }

    /// Declares all the variants at once, as the datatype called `name`.
    ///
    /// The variants of the result stand in the order of declaration. A field
    /// declared with [`FieldSort::Itself`] has the sort of the result.
    pub fn finish<S: Into<Symbol>>(self, name: S) -> (r: DatatypeSort<'ctx>)
        ensures
            exists|datatype: Symbol|
                call_ensures(S::into, (name,), datatype) && realizes(r, self@, datatype@),
    {
        let datatype: Symbol = name.into();
        let ghost b = self@;
        let mut variants: Vec<DatatypeVariant<'ctx>> = Vec::new();
        let mut i: usize = 0;
        while i < self.variants.len()
            invariant
                b == self@,
                i <= self.variants.len(),
                variants.len() == i,
                forall|k: int|
                    0 <= k < i ==> variant_realizes(
                        #[trigger] variants@[k],
                        b.context,
                        datatype@,
                        k,
                        b.variants[k],
                    ),
            decreases self.variants.len() - i,
        {
            let variant = realize_variant(self.ctx, &datatype, i, &self.variants[i]);
            variants.push(variant);
            i += 1;
        }
        let sort = Sort::of_kind(self.ctx, SortKind::Datatype(datatype.clone()));
        DatatypeSort { sort, variants }
    }
}

} // verus!
