//! What holds of the library as a whole, proved from the contracts of its
//! functions.

use vstd::prelude::*;
use vstd::std_specs::cmp::PartialEqSpec;
use crate::context::Activity;
use crate::datatype_builder::{realizes, BuilderView, DatatypeSort};
use crate::func_decl::FuncDecl;
use crate::sort::{Sort, SortKindView, SortView};
use crate::symbol::{Symbol, SymbolView};

verus! {

/// Sorts of different contexts are never equal, whatever they are in their
/// contexts: the integers of one session are not the integers of another,
/// and `==` tells them apart. With the sort, the names in it are tied to the
/// context.
pub proof fn sorts_of_other_contexts_differ(a: Sort<'_>, b: Sort<'_>)
    requires
        a@.context != b@.context,
    ensures
        a@ != b@,
        !a.eq_spec(&b),
{
}

/// Function declarations of different contexts are never equal, whatever
/// their names and signatures, and `==` tells them apart.
pub proof fn decls_of_other_contexts_differ(a: FuncDecl<'_>, b: FuncDecl<'_>)
    requires
        a@.context != b@.context,
    ensures
        a@ != b@,
        !a.eq_spec(&b),
{
}

/// Symbols made from equal numbers are equal, and symbols made from equal
/// texts are equal; a number is never a text.
pub proof fn symbols_are_their_values(i: u32, j: u32, s: Seq<char>, t: Seq<char>)
    ensures
        (SymbolView::Int(i) == SymbolView::Int(j)) == (i == j),
        (SymbolView::String(s) == SymbolView::String(t)) == (s == t),
        SymbolView::Int(i) != SymbolView::String(s),
{
}

/// Within one context, two symbols name the same sort if and only if they
/// are equal: as the name of a free sort, of an enumeration and of a
/// datatype.
pub proof fn equal_symbols_name_the_same_sort(context: usize, a: Symbol, b: Symbol)
    ensures
        (a@ == b@) == ((SortView { context, kind: SortKindView::Uninterpreted(a@) }) == (SortView {
            context,
            kind: SortKindView::Uninterpreted(b@),
        })),
        (a@ == b@) == ((SortView { context, kind: SortKindView::Enumeration(a@) }) == (SortView {
            context,
            kind: SortKindView::Enumeration(b@),
        })),
        (a@ == b@) == ((SortView { context, kind: SortKindView::Datatype(a@) }) == (SortView {
            context,
            kind: SortKindView::Datatype(b@),
        })),
{
}

/// Two declarations that differ in nothing but the symbols they are named
/// by are equal if and only if the symbols are.
pub proof fn equal_symbols_name_the_same_decl(a: FuncDecl<'_>, b: FuncDecl<'_>)
    requires
        a@.context == b@.context,
        a@.kind == b@.kind,
        a@.domain == b@.domain,
        a@.range == b@.range,
    ensures
        (a@.name == b@.name) == (a@ == b@),
{
}

/// A finished datatype has one variant for every declared one, in the order
/// of declaration, and the constructor of each takes as many arguments, and
/// is followed by as many accessors, as the variant was declared with
/// fields.
pub proof fn finished_variants_match_declarations(
    finished: DatatypeSort<'_>,
    builder: BuilderView,
    datatype: SymbolView,
)
    requires
        realizes(finished, builder, datatype),
    ensures
        finished.variants@.len() == builder.variants.len(),
        forall|i: int|
            0 <= i < builder.variants.len() ==> {
                &&& (#[trigger] finished.variants@[i]).constructor@.domain.len()
                    == builder.variants[i].fields.len()
                &&& finished.variants@[i].accessors@.len() == builder.variants[i].fields.len()
                &&& finished.variants@[i].constructor@.name == SymbolView::String(
                    builder.variants[i].name,
                )
            },
{
}

/// A field that was declared with the datatype itself as its sort has the
/// sort of the finished datatype: the accessor of the field gives that sort,
/// and the constructor of the variant takes it at the field's position.
pub proof fn recursive_field_has_the_finished_sort(
    finished: DatatypeSort<'_>,
    builder: BuilderView,
    datatype: SymbolView,
    i: int,
    j: int,
)
    requires
        realizes(finished, builder, datatype),
        0 <= i < builder.variants.len(),
        0 <= j < builder.variants[i].fields.len(),
        builder.variants[i].fields[j].sort is None,
    ensures
        (SortView {
            context: finished.variants@[i].accessors@[j]@.context,
            kind: finished.variants@[i].accessors@[j]@.range,
        }) == finished.sort@,
        finished.variants@[i].constructor@.domain[j] == finished.sort@.kind,
{
}

/// An interrupt with no operation in flight changes nothing and signals
/// nothing, and the operation that begins next does not report that it was
/// asked to stop.
pub proof fn interrupt_when_idle_is_a_no_op()
    ensures
        Activity::Idle.after_interrupt() == Activity::Idle,
        !Activity::Idle.signals(),
        !Activity::Idle.after_interrupt().after_begin().reports_interrupt(),
{
}

/// An interrupt while an operation is in flight is signalled, and that
/// operation reports it when it ends.
pub proof fn interrupt_in_flight_is_reported(a: Activity)
    requires
        a != Activity::Idle,
    ensures
        a.signals(),
        a.after_interrupt().reports_interrupt(),
{
}

} // verus!
