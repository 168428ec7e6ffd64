use z3::datatype_builder::recognizer_name;
use z3::{Config, Context, DatatypeBuilder, DeclKind, FieldSort, SortKind, Symbol};

fn open(handle: usize) -> Context {
    Context::new(&Config::new(), handle).unwrap()
}

#[test]
fn option_int_has_two_aligned_variants() {
    let ctx = open(0x1000);
    let option_int = DatatypeBuilder::new(&ctx)
        .variant("None", &[])
        .variant("Some", &[("value", FieldSort::Of(&ctx.int_sort()))])
        .finish("OptionInt");
    assert_eq!(*option_int.sort.kind(), SortKind::Datatype(Symbol::String("OptionInt".to_string())));
    assert_eq!(option_int.sort.context().handle(), 0x1000);
    assert_eq!(option_int.variants.len(), 2);

    let none = &option_int.variants[0];
    assert_eq!(none.constructor.kind(), DeclKind::Constructor(0));
    assert_eq!(*none.constructor.name(), Symbol::String("None".to_string()));
    assert_eq!(none.constructor.arity(), 0);
    assert_eq!(none.constructor.range(), option_int.sort);
    assert_eq!(none.tester.kind(), DeclKind::Tester(0));
    assert_eq!(none.tester.arity(), 1);
    assert_eq!(none.tester.domain(0), option_int.sort);
    assert_eq!(none.tester.range(), ctx.bool_sort());
    assert!(none.accessors.is_empty());

    let some = &option_int.variants[1];
    assert_eq!(some.constructor.kind(), DeclKind::Constructor(1));
    assert_eq!(*some.constructor.name(), Symbol::String("Some".to_string()));
    assert_eq!(some.constructor.arity(), 1);
    assert_eq!(some.constructor.domain(0), ctx.int_sort());
    assert_eq!(some.constructor.range(), option_int.sort);
    assert_eq!(some.tester.kind(), DeclKind::Tester(1));
    assert_eq!(*some.tester.name(), Symbol::String("Some".to_string()));
    assert_eq!(some.accessors.len(), 1);
    assert_eq!(some.accessors[0].kind(), DeclKind::Accessor(1, 0));
    assert_eq!(*some.accessors[0].name(), Symbol::String("value".to_string()));
    assert_eq!(some.accessors[0].arity(), 1);
    assert_eq!(some.accessors[0].domain(0), option_int.sort);
    assert_eq!(some.accessors[0].range(), ctx.int_sort());
}

#[test]
fn option_int_terms_are_well_sorted() {
    let ctx = open(0x1000);
    let option_int = DatatypeBuilder::new(&ctx)
        .variant("None", &[])
        .variant("Some", &[("value", FieldSort::Of(&ctx.int_sort()))])
        .finish("OptionInt");
    let some = &option_int.variants[1];
    assert!(some.constructor.accepts(&[&ctx.int_sort()]));
    assert!(!some.constructor.accepts(&[&ctx.bool_sort()]));
    assert!(!some.constructor.accepts(&[]));
    assert_eq!(some.constructor.owner(), Some(option_int.sort.clone()));
    assert_eq!(some.tester.owner(), Some(option_int.sort.clone()));
    assert_eq!(some.accessors[0].owner(), Some(option_int.sort.clone()));
    let y = ctx.func_decl("y", &[], &option_int.sort);
    assert_eq!(y.owner(), None);
    assert!(some.accessors[0].accepts(&[&y.range()]));
    assert!(option_int.variants[0].tester.accepts(&[&y.range()]));
    assert_eq!(some.accessors[0].range(), ctx.int_sort());
}

#[test]
fn variants_come_out_in_the_order_of_declaration() {
    let ctx = open(0x1000);
    let ints = ctx.int_sort();
    let bools = ctx.bool_sort();
    let shape = DatatypeBuilder::new(&ctx)
        .variant("Point", &[])
        .variant("Circle", &[("radius", FieldSort::Of(&ints))])
        .variant("Rect", &[("width", FieldSort::Of(&ints)), ("height", FieldSort::Of(&ints))])
        .variant(
            "Label",
            &[("x", FieldSort::Of(&ints)), ("y", FieldSort::Of(&ints)), ("bold", FieldSort::Of(&bools))],
        )
        .finish("Shape");
    let names = ["Point", "Circle", "Rect", "Label"];
    assert_eq!(shape.variants.len(), 4);
    for i in 0..4 {
        let variant = &shape.variants[i];
        assert_eq!(*variant.constructor.name(), Symbol::String(names[i].to_string()));
        assert_eq!(variant.constructor.kind(), DeclKind::Constructor(i));
        assert_eq!(variant.tester.kind(), DeclKind::Tester(i));
        assert_eq!(variant.constructor.arity(), i);
        assert_eq!(variant.accessors.len(), i);
        for j in 0..i {
            assert_eq!(variant.accessors[j].kind(), DeclKind::Accessor(i, j));
            assert_eq!(variant.accessors[j].range(), variant.constructor.domain(j));
        }
    }
    assert_eq!(shape.variants[3].accessors[2].range(), bools);
    assert_eq!(*shape.variants[3].accessors[2].name(), Symbol::String("bold".to_string()));
}

#[test]
fn a_recursive_field_has_the_sort_of_the_finished_datatype() {
    let ctx = open(0x1000);
    let list = DatatypeBuilder::new(&ctx)
        .variant("Nil", &[])
        .variant("Cons", &[("head", FieldSort::Of(&ctx.int_sort())), ("tail", FieldSort::Itself)])
        .finish("IntList");
    let cons = &list.variants[1];
    assert_eq!(cons.constructor.arity(), 2);
    assert_eq!(cons.accessors[0].range(), ctx.int_sort());
    assert_eq!(cons.accessors[1].range(), list.sort);
    assert_eq!(cons.constructor.domain(1), list.sort);
    assert_eq!(cons.constructor.range(), list.sort);
    assert!(!list.refers_to_itself(1, 0));
    assert!(list.refers_to_itself(1, 1));
    assert!(cons.constructor.accepts(&[&ctx.int_sort(), &list.sort]));
    assert!(cons.accessors[1].accepts(&[&cons.accessors[1].range()]));
}

#[test]
fn a_datatype_of_nothing_but_itself() {
    let ctx = open(0x1000);
    let nat = DatatypeBuilder::new(&ctx)
        .variant("Succ", &[("pred", FieldSort::Itself)])
        .finish(7u32);
    assert_eq!(*nat.sort.kind(), SortKind::Datatype(Symbol::Int(7)));
    assert_eq!(nat.variants.len(), 1);
    assert_eq!(nat.variants[0].accessors[0].range(), nat.sort);
    assert_eq!(nat.variants[0].constructor.domain(0), nat.sort);
}

#[test]
fn a_builder_without_variants_finishes_without_variants() {
    let ctx = open(0x1000);
    let builder = DatatypeBuilder::new(&ctx);
    assert_eq!(builder.len(), 0);
    let empty = builder.finish("Empty");
    assert!(empty.variants.is_empty());
    assert_eq!(*empty.sort.kind(), SortKind::Datatype(Symbol::String("Empty".to_string())));
}

#[test]
fn a_field_of_an_earlier_datatype_keeps_its_sort() {
    let ctx = open(0x1000);
    let option_int = DatatypeBuilder::new(&ctx)
        .variant("None", &[])
        .variant("Some", &[("value", FieldSort::Of(&ctx.int_sort()))])
        .finish("OptionInt");
    let pair = DatatypeBuilder::new(&ctx)
        .variant("Pair", &[("left", FieldSort::Of(&option_int.sort)), ("right", FieldSort::Itself)])
        .finish("Pair");
    assert_eq!(pair.variants[0].accessors[0].range(), option_int.sort);
    assert_eq!(pair.variants[0].accessors[1].range(), pair.sort);
    assert!(pair.sort != option_int.sort);
}

#[test]
fn the_builder_tells_which_variants_it_holds() {
    let ctx = open(0x1000);
    let builder = DatatypeBuilder::new(&ctx).variant("None", &[]);
    assert_eq!(builder.len(), 1);
    assert!(builder.declares("None"));
    assert!(!builder.declares("Some"));
    assert!(!builder.declares("none"));
}

#[test]
fn a_variant_declared_twice_comes_out_twice() {
    let ctx = open(0x1000);
    let builder = DatatypeBuilder::new(&ctx).variant("A", &[]);
    assert!(builder.declares("A"));
    let twice = builder.variant("A", &[("x", FieldSort::Of(&ctx.int_sort()))]).finish("T");
    assert_eq!(twice.variants.len(), 2);
    assert_eq!(*twice.variants[0].constructor.name(), *twice.variants[1].constructor.name());
    assert_eq!(twice.variants[0].constructor.arity(), 0);
    assert_eq!(twice.variants[1].constructor.arity(), 1);
    assert!(twice.variants[0].constructor != twice.variants[1].constructor);
    assert!(twice.variants[0].tester != twice.variants[1].tester);
}

#[test]
fn datatypes_of_two_contexts_are_never_equal() {
    let first = open(0x1000);
    let second = open(0x2000);
    let a = DatatypeBuilder::new(&first).variant("Unit", &[]).finish("T");
    let b = DatatypeBuilder::new(&second).variant("Unit", &[]).finish("T");
    let c = DatatypeBuilder::new(&first).variant("Unit", &[]).finish("T");
    assert!(a.sort != b.sort);
    assert!(a.variants[0].constructor != b.variants[0].constructor);
    assert!(a.sort == c.sort);
    assert!(a.variants[0].constructor == c.variants[0].constructor);
}

#[test]
fn testers_are_asked_of_the_engine_under_is_and_the_name() {
    assert_eq!(recognizer_name("Some"), "is-Some");
    assert_eq!(recognizer_name(""), "is-");
}
