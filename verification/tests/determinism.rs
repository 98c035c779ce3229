//! Rendering is deterministic: repeated calls on the same value, and calls
//! on equal values, give byte-identical text. Span accessors hand back the
//! span a statement was built with.

use typeql::{
    AnnotationCapability, AnnotationCategory, AnnotationType, CapabilityBase, CapabilityType,
    Function, Identifier, Label, Relates, Span, Specialise, Struct, Undefinable,
};

fn name(s: &str) -> Label {
    Label::Name(Identifier::new(String::from(s)))
}

fn all_shapes() -> Vec<Undefinable> {
    vec![
        Undefinable::Type(name("person")),
        Undefinable::AnnotationType(AnnotationType::new(
            Some(Span::new(9, 32)),
            AnnotationCategory::Independent,
            name("name"),
        )),
        Undefinable::AnnotationCapability(AnnotationCapability::new(
            Some(Span::new(0, 27)),
            AnnotationCategory::Card,
            name("person"),
            CapabilityBase::Owns(name("name")),
        )),
        Undefinable::CapabilityType(CapabilityType::new(
            None,
            CapabilityBase::Owns(name("name")),
            name("person"),
        )),
        Undefinable::Specialise(Specialise::new(
            Some(Span::new(0, 44)),
            name("father"),
            name("fathership"),
            Relates::new(name("parent")),
        )),
        Undefinable::Function(Function::new(None, Identifier::new(String::from("reachable")))),
        Undefinable::Struct(Struct::new(None, Identifier::new(String::from("coords")))),
    ]
}

#[test]
fn repeated_rendering_is_byte_identical() {
    for stmt in all_shapes() {
        let first = stmt.render();
        let second = stmt.render();
        let third = stmt.render();
        assert_eq!(first, second);
        assert_eq!(second, third);
        assert_eq!(first.as_bytes(), third.as_bytes());
    }
}

#[test]
fn equal_statements_render_identically() {
    let a = Undefinable::Specialise(Specialise::new(
        Some(Span::new(0, 44)),
        name("father"),
        name("fathership"),
        Relates::new(name("parent")),
    ));
    let b = Undefinable::Specialise(Specialise::new(
        None,
        name("father"),
        name("fathership"),
        Relates::new(name("parent")),
    ));
    assert!(a == b);
    assert_eq!(a.render(), b.render());
    assert_eq!(a.render().as_bytes(), b.render().as_bytes());
}

#[test]
fn cloned_statements_render_identically() {
    for stmt in all_shapes() {
        let copy = stmt.clone();
        assert_eq!(stmt.render(), copy.render());
    }
}

#[test]
fn span_accessors_return_the_span_given() {
    let span = Some(Span::new(9, 32));
    assert_eq!(
        AnnotationType::new(span, AnnotationCategory::Independent, name("name")).span(),
        span
    );
    assert_eq!(
        AnnotationCapability::new(
            span,
            AnnotationCategory::Card,
            name("person"),
            CapabilityBase::Owns(name("name"))
        )
        .span(),
        span
    );
    assert_eq!(
        CapabilityType::new(span, CapabilityBase::Owns(name("name")), name("person")).span(),
        span
    );
    assert_eq!(
        Specialise::new(span, name("father"), name("fathership"), Relates::new(name("parent")))
            .span(),
        span
    );
    assert_eq!(
        Function::new(span, Identifier::new(String::from("reachable"))).span(),
        span
    );
    assert_eq!(
        Struct::new(None, Identifier::new(String::from("coords"))).span(),
        None
    );
}
