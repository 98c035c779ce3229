//! Each statement shape renders by its fixed template, checked on concrete
//! values.

use typeql::{
    AnnotationCapability, AnnotationCategory, AnnotationType, CapabilityBase, CapabilityType,
    Function, Identifier, Label, Relates, Span, Specialise, Struct, Undefinable,
};

fn name(s: &str) -> Label {
    Label::Name(Identifier::new(String::from(s)))
}

#[test]
fn type_undefine_renders_bare_label() {
    let stmt = Undefinable::Type(name("person"));
    assert_eq!(stmt.render(), "person");
}

#[test]
fn type_undefine_renders_scoped_label() {
    let label = Label::Scoped(
        Identifier::new(String::from("fathership")),
        Identifier::new(String::from("father")),
    );
    let stmt = Undefinable::Type(label);
    assert_eq!(stmt.render(), "fathership:father");
}

#[test]
fn annotation_type_renders_category_from_label() {
    let stmt = AnnotationType::new(
        Some(Span::new(9, 32)),
        AnnotationCategory::Independent,
        name("name"),
    );
    assert_eq!(stmt.render(), "@independent from name");
    assert_eq!(
        Undefinable::AnnotationType(stmt).render(),
        "@independent from name"
    );
}

#[test]
fn annotation_capability_renders_category_label_capability() {
    let stmt = AnnotationCapability::new(
        None,
        AnnotationCategory::Card,
        name("person"),
        CapabilityBase::Owns(name("name")),
    );
    assert_eq!(stmt.render(), "@card from person owns name");
    assert_eq!(
        Undefinable::AnnotationCapability(stmt).render(),
        "@card from person owns name"
    );
}

#[test]
fn capability_type_renders_capability_from_label() {
    let stmt = CapabilityType::new(None, CapabilityBase::Owns(name("name")), name("person"));
    assert_eq!(stmt.render(), "owns name from person");
    assert_eq!(
        Undefinable::CapabilityType(stmt).render(),
        "owns name from person"
    );
}

#[test]
fn capability_type_renders_sub_and_plays() {
    let sub = CapabilityType::new(None, CapabilityBase::Sub(name("entity")), name("person"));
    assert_eq!(sub.render(), "sub entity from person");

    let plays = CapabilityType::new(
        None,
        CapabilityBase::Plays(Label::Scoped(
            Identifier::new(String::from("employment")),
            Identifier::new(String::from("employee")),
        )),
        name("person"),
    );
    assert_eq!(plays.render(), "plays employment:employee from person");
}

#[test]
fn capability_type_renders_relates() {
    let stmt = CapabilityType::new(
        None,
        CapabilityBase::Relates(Relates::new(name("parent"))),
        name("fathership"),
    );
    assert_eq!(stmt.render(), "relates parent from fathership");
}

#[test]
fn specialise_renders_as_from_relates() {
    let stmt = Specialise::new(
        Some(Span::new(0, 44)),
        name("father"),
        name("fathership"),
        Relates::new(name("parent")),
    );
    assert_eq!(stmt.render(), "as father from fathership relates parent");
    assert_eq!(
        Undefinable::Specialise(stmt).render(),
        "as father from fathership relates parent"
    );
}

#[test]
fn function_renders_fun_ident() {
    let stmt = Function::new(None, Identifier::new(String::from("reachable")));
    assert_eq!(stmt.render(), "fun reachable");
    assert_eq!(Undefinable::Function(stmt).render(), "fun reachable");
}

#[test]
fn struct_renders_struct_ident() {
    let stmt = Struct::new(None, Identifier::new(String::from("coords")));
    assert_eq!(stmt.render(), "struct coords");
    assert_eq!(Undefinable::Struct(stmt).render(), "struct coords");
}

#[test]
fn annotation_categories_render_their_keywords() {
    let cases = [
        (AnnotationCategory::Abstract, "abstract"),
        (AnnotationCategory::Card, "card"),
        (AnnotationCategory::Cascade, "cascade"),
        (AnnotationCategory::Distinct, "distinct"),
        (AnnotationCategory::Independent, "independent"),
        (AnnotationCategory::Key, "key"),
        (AnnotationCategory::Range, "range"),
        (AnnotationCategory::Regex, "regex"),
        (AnnotationCategory::Subkey, "subkey"),
        (AnnotationCategory::Unique, "unique"),
        (AnnotationCategory::Values, "values"),
    ];
    for (category, keyword) in cases {
        assert_eq!(category.render(), keyword);
    }
}

#[test]
fn rendered_text_is_single_line_with_single_spaces() {
    let statements = vec![
        Undefinable::Type(Label::Scoped(
            Identifier::new(String::from("fathership")),
            Identifier::new(String::from("father")),
        )),
        Undefinable::AnnotationType(AnnotationType::new(
            None,
            AnnotationCategory::Independent,
            name("name"),
        )),
        Undefinable::AnnotationCapability(AnnotationCapability::new(
            None,
            AnnotationCategory::Card,
            name("person"),
            CapabilityBase::Owns(name("name")),
        )),
        Undefinable::CapabilityType(CapabilityType::new(
            None,
            CapabilityBase::Sub(name("entity")),
            name("person"),
        )),
        Undefinable::Specialise(Specialise::new(
            None,
            name("father"),
            name("fathership"),
            Relates::new(name("parent")),
        )),
        Undefinable::Function(Function::new(None, Identifier::new(String::from("reachable")))),
        Undefinable::Struct(Struct::new(None, Identifier::new(String::from("coords")))),
    ];
    for stmt in statements {
        let text = stmt.render();
        assert!(!text.is_empty());
        assert!(!text.contains('\n'));
        assert!(!text.contains('\t'));
        assert!(!text.contains("  "));
        assert!(!text.starts_with(' '));
        assert!(!text.ends_with(' '));
    }
}
