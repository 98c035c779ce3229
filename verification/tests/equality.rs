//! Statement equality is structural over the referenced schema elements and
//! disregards spans entirely.

use typeql::{
    AnnotationCapability, AnnotationCategory, AnnotationType, CapabilityBase, CapabilityType,
    Function, Identifier, Label, Relates, Span, Specialise, Struct, Undefinable,
};

fn name(s: &str) -> Label {
    Label::Name(Identifier::new(String::from(s)))
}

#[test]
fn annotation_type_equal_despite_different_spans() {
    let a = AnnotationType::new(
        Some(Span::new(9, 32)),
        AnnotationCategory::Independent,
        name("name"),
    );
    let b = AnnotationType::new(
        Some(Span::new(100, 123)),
        AnnotationCategory::Independent,
        name("name"),
    );
    assert!(a == b);
}

#[test]
fn annotation_type_equal_despite_absent_span() {
    let a = AnnotationType::new(
        Some(Span::new(9, 32)),
        AnnotationCategory::Independent,
        name("name"),
    );
    let b = AnnotationType::new(None, AnnotationCategory::Independent, name("name"));
    assert!(a == b);
}

#[test]
fn annotation_capability_equal_despite_different_spans() {
    let a = AnnotationCapability::new(
        Some(Span::new(0, 27)),
        AnnotationCategory::Card,
        name("person"),
        CapabilityBase::Owns(name("name")),
    );
    let b = AnnotationCapability::new(
        None,
        AnnotationCategory::Card,
        name("person"),
        CapabilityBase::Owns(name("name")),
    );
    assert!(a == b);
}

#[test]
fn capability_type_equal_despite_different_spans() {
    let a = CapabilityType::new(
        Some(Span::new(3, 24)),
        CapabilityBase::Owns(name("name")),
        name("person"),
    );
    let b = CapabilityType::new(
        Some(Span::new(50, 71)),
        CapabilityBase::Owns(name("name")),
        name("person"),
    );
    assert!(a == b);
}

#[test]
fn specialise_equal_despite_different_spans() {
    let a = Specialise::new(
        Some(Span::new(0, 44)),
        name("father"),
        name("fathership"),
        Relates::new(name("parent")),
    );
    let b = Specialise::new(
        None,
        name("father"),
        name("fathership"),
        Relates::new(name("parent")),
    );
    assert!(a == b);
}

#[test]
fn function_and_struct_equal_despite_different_spans() {
    let fa = Function::new(Some(Span::new(0, 13)), Identifier::new(String::from("reachable")));
    let fb = Function::new(None, Identifier::new(String::from("reachable")));
    assert!(fa == fb);

    let sa = Struct::new(Some(Span::new(0, 13)), Identifier::new(String::from("coords")));
    let sb = Struct::new(Some(Span::new(7, 20)), Identifier::new(String::from("coords")));
    assert!(sa == sb);
}

#[test]
fn statements_equal_despite_different_spans() {
    let a = Undefinable::Function(Function::new(
        Some(Span::new(0, 13)),
        Identifier::new(String::from("reachable")),
    ));
    let b = Undefinable::Function(Function::new(
        Some(Span::new(40, 53)),
        Identifier::new(String::from("reachable")),
    ));
    assert!(a == b);
}

#[test]
fn statements_with_different_fields_are_unequal() {
    let a = Undefinable::Function(Function::new(None, Identifier::new(String::from("reachable"))));
    let b = Undefinable::Function(Function::new(None, Identifier::new(String::from("distance"))));
    assert!(a != b);

    let c = AnnotationType::new(None, AnnotationCategory::Card, name("name"));
    let d = AnnotationType::new(None, AnnotationCategory::Unique, name("name"));
    assert!(c != d);

    let e = CapabilityType::new(None, CapabilityBase::Owns(name("name")), name("person"));
    let f = CapabilityType::new(None, CapabilityBase::Plays(name("name")), name("person"));
    assert!(e != f);
}

#[test]
fn statements_of_different_shapes_are_unequal() {
    let fun = Undefinable::Function(Function::new(None, Identifier::new(String::from("coords"))));
    let st = Undefinable::Struct(Struct::new(None, Identifier::new(String::from("coords"))));
    assert!(fun != st);

    let bare = Undefinable::Type(name("person"));
    assert!(bare != fun);
}

#[test]
fn scoped_and_bare_labels_are_unequal() {
    let bare = name("father");
    let scoped = Label::Scoped(
        Identifier::new(String::from("fathership")),
        Identifier::new(String::from("father")),
    );
    assert!(Undefinable::Type(bare) != Undefinable::Type(scoped));
}
