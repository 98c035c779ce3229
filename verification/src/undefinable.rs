//! The closed union of `undefine` statement shapes and their canonical
//! renderer.
//!
//! Exactly seven shapes exist; every consumer matches them exhaustively, so
//! adding a shape is a compile-time-visible change. Each shape (except the
//! bare type removal) carries an optional [`Span`] for diagnostics; spans
//! never take part in equality and never appear in the rendered text.

use vstd::prelude::*;
use vstd::string::StringExecFns;

use crate::common::{AnnotationCategory, CapabilityBase, Identifier, Label, Relates, Span};
use crate::common::{
    spec_eq_capability_base, spec_eq_identifier, spec_eq_label, spec_eq_relates,
    spec_render_annotation_category, spec_render_capability_base, spec_render_identifier,
    spec_render_label, spec_render_relates,
};
use crate::common::{
    is_token, lemma_annotation_category_renders_token, lemma_capability_base_renders_line,
    lemma_label_renders_token, lemma_line_join, lemma_relates_renders_line, lemma_token_concat,
    lemma_token_line, spec_canonical_line, spec_wf_capability_base, spec_wf_identifier,
    spec_wf_label, spec_wf_relates,
};

verus! {

/// Removal of an annotation attached directly to a type:
/// `@<category> from <label>`.
#[derive(Debug, Clone)]
pub struct AnnotationType {
    pub span: Option<Span>,
    pub annotation_category: AnnotationCategory,
    pub type_: Label,
}

/// Removal of an annotation attached to a capability edge on a type:
/// `@<category> from <label> <capability>`.
#[derive(Debug, Clone)]
pub struct AnnotationCapability {
    pub span: Option<Span>,
    pub annotation_category: AnnotationCategory,
    pub type_: Label,
    pub capability: CapabilityBase,
}

/// Removal of a capability edge from a type: `<capability> from <label>`.
#[derive(Debug, Clone)]
pub struct CapabilityType {
    pub span: Option<Span>,
    pub capability: CapabilityBase,
    pub type_: Label,
}

/// Removal of a role specialisation:
/// `as <specialised> from <label> <capability>`.
#[derive(Debug, Clone)]
pub struct Specialise {
    pub span: Option<Span>,
    pub specialised: Label,
    pub type_: Label,
    pub capability: Relates,
}

/// Removal of a defined function: `fun <ident>`.
#[derive(Debug, Clone)]
pub struct Function {
    pub span: Option<Span>,
    pub ident: Identifier,
}

/// Removal of a defined struct type: `struct <ident>`.
#[derive(Debug, Clone)]
pub struct Struct {
    pub span: Option<Span>,
    pub ident: Identifier,
}

/// An `undefine` statement: the closed union of the seven removable
/// schema-element shapes.
#[derive(Debug, Clone)]
pub enum Undefinable {
    Type(Label),
    AnnotationType(AnnotationType),
    AnnotationCapability(AnnotationCapability),
    CapabilityType(CapabilityType),
    Specialise(Specialise),
    Function(Function),
    Struct(Struct),
}

/// The canonical text of an annotation-on-type removal.
pub open spec fn spec_render_annotation_type(s: AnnotationType) -> Seq<char> {
    "@"@ + spec_render_annotation_category(s.annotation_category) + " from "@
        + spec_render_label(s.type_)
}

/// The canonical text of an annotation-on-capability removal.
pub open spec fn spec_render_annotation_capability(s: AnnotationCapability) -> Seq<char> {
    "@"@ + spec_render_annotation_category(s.annotation_category) + " from "@
        + spec_render_label(s.type_) + " "@ + spec_render_capability_base(s.capability)
}

/// The canonical text of a capability removal.
pub open spec fn spec_render_capability_type(s: CapabilityType) -> Seq<char> {
    spec_render_capability_base(s.capability) + " from "@ + spec_render_label(s.type_)
}

/// The canonical text of a specialisation removal.
pub open spec fn spec_render_specialise(s: Specialise) -> Seq<char> {
    "as "@ + spec_render_label(s.specialised) + " from "@ + spec_render_label(s.type_) + " "@
        + spec_render_relates(s.capability)
}

/// The canonical text of a function removal.
pub open spec fn spec_render_function(s: Function) -> Seq<char> {
    "fun "@ + spec_render_identifier(s.ident)
}

/// The canonical text of a struct removal.
pub open spec fn spec_render_struct(s: Struct) -> Seq<char> {
    "struct "@ + spec_render_identifier(s.ident)
}

/// The canonical text of any `undefine` statement: each shape renders by its
/// own fixed template.
pub open spec fn spec_render_undefinable(s: Undefinable) -> Seq<char> {
    match s {
        Undefinable::Type(label) => spec_render_label(label),
        Undefinable::AnnotationType(inner) => spec_render_annotation_type(inner),
        Undefinable::AnnotationCapability(inner) => spec_render_annotation_capability(inner),
        Undefinable::CapabilityType(inner) => spec_render_capability_type(inner),
        Undefinable::Specialise(inner) => spec_render_specialise(inner),
        Undefinable::Function(inner) => spec_render_function(inner),
        Undefinable::Struct(inner) => spec_render_struct(inner),
    }
}

/// Equality of annotation-on-type removals; the span is disregarded.
pub open spec fn spec_eq_annotation_type(a: AnnotationType, b: AnnotationType) -> bool {
    a.annotation_category == b.annotation_category && spec_eq_label(a.type_, b.type_)
}

/// Equality of annotation-on-capability removals; the span is disregarded.
pub open spec fn spec_eq_annotation_capability(
    a: AnnotationCapability,
    b: AnnotationCapability,
) -> bool {
    a.annotation_category == b.annotation_category && spec_eq_label(a.type_, b.type_)
        && spec_eq_capability_base(a.capability, b.capability)
}

/// Equality of capability removals; the span is disregarded.
pub open spec fn spec_eq_capability_type(a: CapabilityType, b: CapabilityType) -> bool {
    spec_eq_capability_base(a.capability, b.capability) && spec_eq_label(a.type_, b.type_)
}

/// Equality of specialisation removals; the span is disregarded.
pub open spec fn spec_eq_specialise(a: Specialise, b: Specialise) -> bool {
    spec_eq_label(a.specialised, b.specialised) && spec_eq_label(a.type_, b.type_)
        && spec_eq_relates(a.capability, b.capability)
}

/// Equality of function removals; the span is disregarded.
pub open spec fn spec_eq_function(a: Function, b: Function) -> bool {
    spec_eq_identifier(a.ident, b.ident)
}

/// Equality of struct removals; the span is disregarded.
pub open spec fn spec_eq_struct(a: Struct, b: Struct) -> bool {
    spec_eq_identifier(a.ident, b.ident)
}

/// Equality of `undefine` statements: same shape, equal referenced schema
/// elements; spans are disregarded throughout. The outer match is
/// exhaustive over the seven shapes, so a new shape cannot slip past it.
pub open spec fn spec_eq_undefinable(a: Undefinable, b: Undefinable) -> bool {
    match a {
        Undefinable::Type(al) => b matches Undefinable::Type(bl) && spec_eq_label(al, bl),
        Undefinable::AnnotationType(ai) => b matches Undefinable::AnnotationType(bi)
            && spec_eq_annotation_type(ai, bi),
        Undefinable::AnnotationCapability(ai) => b matches Undefinable::AnnotationCapability(bi)
            && spec_eq_annotation_capability(ai, bi),
        Undefinable::CapabilityType(ai) => b matches Undefinable::CapabilityType(bi)
            && spec_eq_capability_type(ai, bi),
        Undefinable::Specialise(ai) => b matches Undefinable::Specialise(bi)
            && spec_eq_specialise(ai, bi),
        Undefinable::Function(ai) => b matches Undefinable::Function(bi) && spec_eq_function(
            ai,
            bi,
        ),
        Undefinable::Struct(ai) => b matches Undefinable::Struct(bi) && spec_eq_struct(ai, bi),
    }
}

impl AnnotationType {
    /// Builds the statement from pre-validated constituents; never fails.
    pub fn new(span: Option<Span>, annotation_category: AnnotationCategory, type_: Label) -> (r:
        Self)
        ensures
            r.span == span,
            r.annotation_category == annotation_category,
            r.type_ == type_,
    {
        Self { span, annotation_category, type_ }
    }

    /// Where the statement appeared in source text, if it was parsed.
    pub fn span(&self) -> (r: Option<Span>)
        ensures
            r == self.span,
    {
        self.span
    }

    /// Canonical text: `@<category> from <label>`.
    pub fn render(&self) -> (r: String)
        ensures
            r@ == spec_render_annotation_type(*self),
    {
        let mut out = String::from_str("@");
        let category = self.annotation_category.render();
        out.append(category.as_str());
        out.append(" from ");
        let type_ = self.type_.render();
        out.append(type_.as_str());
        out
    }
}

impl PartialEq for AnnotationType {
    fn eq(&self, other: &Self) -> (r: bool) {
        self.annotation_category == other.annotation_category && self.type_ == other.type_
    }
}

impl vstd::std_specs::cmp::PartialEqSpecImpl for AnnotationType {
    open spec fn obeys_eq_spec() -> bool {
        true
    }

    open spec fn eq_spec(&self, other: &Self) -> bool {
        spec_eq_annotation_type(*self, *other)
    }
}

impl AnnotationCapability {
    /// Builds the statement from pre-validated constituents; never fails.
    pub fn new(
        span: Option<Span>,
        annotation_category: AnnotationCategory,
        type_: Label,
        capability: CapabilityBase,
    ) -> (r: Self)
        ensures
            r.span == span,
            r.annotation_category == annotation_category,
            r.type_ == type_,
            r.capability == capability,
    {
        Self { span, annotation_category, type_, capability }
    }

    /// Where the statement appeared in source text, if it was parsed.
    pub fn span(&self) -> (r: Option<Span>)
        ensures
            r == self.span,
    {
        self.span
    }

    /// Canonical text: `@<category> from <label> <capability>`.
    pub fn render(&self) -> (r: String)
        ensures
            r@ == spec_render_annotation_capability(*self),
    {
        let mut out = String::from_str("@");
        let category = self.annotation_category.render();
        out.append(category.as_str());
        out.append(" from ");
        let type_ = self.type_.render();
        out.append(type_.as_str());
        out.append(" ");
        let capability = self.capability.render();
        out.append(capability.as_str());
        out
    }
}

impl PartialEq for AnnotationCapability {
    fn eq(&self, other: &Self) -> (r: bool) {
        self.annotation_category == other.annotation_category && self.type_ == other.type_
            && self.capability == other.capability
    }
}

impl vstd::std_specs::cmp::PartialEqSpecImpl for AnnotationCapability {
    open spec fn obeys_eq_spec() -> bool {
        true
    }

    open spec fn eq_spec(&self, other: &Self) -> bool {
        spec_eq_annotation_capability(*self, *other)
    }
}

impl CapabilityType {
    /// Builds the statement from pre-validated constituents; never fails.
    pub fn new(span: Option<Span>, capability: CapabilityBase, type_: Label) -> (r: Self)
        ensures
            r.span == span,
            r.capability == capability,
            r.type_ == type_,
    {
        Self { span, capability, type_ }
    }

    /// Where the statement appeared in source text, if it was parsed.
    pub fn span(&self) -> (r: Option<Span>)
        ensures
            r == self.span,
    {
        self.span
    }

    /// Canonical text: `<capability> from <label>`.
    pub fn render(&self) -> (r: String)
        ensures
            r@ == spec_render_capability_type(*self),
    {
        let mut out = self.capability.render();
        out.append(" from ");
        let type_ = self.type_.render();
        out.append(type_.as_str());
        out
    }
}

impl PartialEq for CapabilityType {
    fn eq(&self, other: &Self) -> (r: bool) {
        self.capability == other.capability && self.type_ == other.type_
    }
}

impl vstd::std_specs::cmp::PartialEqSpecImpl for CapabilityType {
    open spec fn obeys_eq_spec() -> bool {
        true
    }

    open spec fn eq_spec(&self, other: &Self) -> bool {
        spec_eq_capability_type(*self, *other)
    }
}

impl Specialise {
    /// Builds the statement from pre-validated constituents; never fails.
    pub fn new(span: Option<Span>, specialised: Label, type_: Label, relates: Relates) -> (r:
        Self)
        ensures
            r.span == span,
            r.specialised == specialised,
            r.type_ == type_,
            r.capability == relates,
    {
        Self { span, specialised, type_, capability: relates }
    }

    /// Where the statement appeared in source text, if it was parsed.
    pub fn span(&self) -> (r: Option<Span>)
        ensures
            r == self.span,
    {
        self.span
    }

    /// Canonical text: `as <specialised> from <label> <capability>`.
    pub fn render(&self) -> (r: String)
        ensures
            r@ == spec_render_specialise(*self),
    {
        let mut out = String::from_str("as ");
        let specialised = self.specialised.render();
        out.append(specialised.as_str());
        out.append(" from ");
        let type_ = self.type_.render();
        out.append(type_.as_str());
        out.append(" ");
        let capability = self.capability.render();
        out.append(capability.as_str());
        out
    }
}

impl PartialEq for Specialise {
    fn eq(&self, other: &Self) -> (r: bool) {
        self.specialised == other.specialised && self.type_ == other.type_ && self.capability
            == other.capability
    }
}

impl vstd::std_specs::cmp::PartialEqSpecImpl for Specialise {
    open spec fn obeys_eq_spec() -> bool {
        true
    }

    open spec fn eq_spec(&self, other: &Self) -> bool {
        spec_eq_specialise(*self, *other)
    }
}

impl Function {
    /// Builds the statement from pre-validated constituents; never fails.
    pub fn new(span: Option<Span>, ident: Identifier) -> (r: Self)
        ensures
            r.span == span,
            r.ident == ident,
    {
        Self { span, ident }
    }

    /// Where the statement appeared in source text, if it was parsed.
    pub fn span(&self) -> (r: Option<Span>)
        ensures
            r == self.span,
    {
        self.span
    }

    /// Canonical text: `fun <ident>`.
    pub fn render(&self) -> (r: String)
        ensures
            r@ == spec_render_function(*self),
    {
        let mut out = String::from_str("fun ");
        let ident = self.ident.render();
        out.append(ident.as_str());
        out
    }
}

impl PartialEq for Function {
    fn eq(&self, other: &Self) -> (r: bool) {
        self.ident == other.ident
    }
}

impl vstd::std_specs::cmp::PartialEqSpecImpl for Function {
    open spec fn obeys_eq_spec() -> bool {
        true
    }

    open spec fn eq_spec(&self, other: &Self) -> bool {
        spec_eq_function(*self, *other)
    }
}

impl Struct {
    /// Builds the statement from pre-validated constituents; never fails.
    pub fn new(span: Option<Span>, ident: Identifier) -> (r: Self)
        ensures
            r.span == span,
            r.ident == ident,
    {
        Self { span, ident }
    }

    /// Where the statement appeared in source text, if it was parsed.
    pub fn span(&self) -> (r: Option<Span>)
        ensures
            r == self.span,
    {
        self.span
    }

    /// Canonical text: `struct <ident>`.
    pub fn render(&self) -> (r: String)
        ensures
            r@ == spec_render_struct(*self),
    {
        let mut out = String::from_str("struct ");
        let ident = self.ident.render();
        out.append(ident.as_str());
        out
    }
}

impl PartialEq for Struct {
    fn eq(&self, other: &Self) -> (r: bool) {
        self.ident == other.ident
    }
}

impl vstd::std_specs::cmp::PartialEqSpecImpl for Struct {
    open spec fn obeys_eq_spec() -> bool {
        true
    }

    open spec fn eq_spec(&self, other: &Self) -> bool {
        spec_eq_struct(*self, *other)
    }
}

impl Undefinable {
    /// Canonical text of the statement, by its shape's template. Total:
    /// every shape renders, and the match carries no fallback arm.
    pub fn render(&self) -> (r: String)
        ensures
            r@ == spec_render_undefinable(*self),
    {
        match self {
            Undefinable::Type(label) => label.render(),
            Undefinable::AnnotationType(inner) => inner.render(),
            Undefinable::AnnotationCapability(inner) => inner.render(),
            Undefinable::CapabilityType(inner) => inner.render(),
            Undefinable::Specialise(inner) => inner.render(),
            Undefinable::Function(inner) => inner.render(),
            Undefinable::Struct(inner) => inner.render(),
        }
    }
}

impl PartialEq for Undefinable {
    fn eq(&self, other: &Self) -> (r: bool) {
        match self {
            Undefinable::Type(al) => match other {
                Undefinable::Type(bl) => al == bl,
                _ => false,
            },
            Undefinable::AnnotationType(ai) => match other {
                Undefinable::AnnotationType(bi) => ai == bi,
                _ => false,
            },
            Undefinable::AnnotationCapability(ai) => match other {
                Undefinable::AnnotationCapability(bi) => ai == bi,
                _ => false,
            },
            Undefinable::CapabilityType(ai) => match other {
                Undefinable::CapabilityType(bi) => ai == bi,
                _ => false,
            },
            Undefinable::Specialise(ai) => match other {
                Undefinable::Specialise(bi) => ai == bi,
                _ => false,
            },
            Undefinable::Function(ai) => match other {
                Undefinable::Function(bi) => ai == bi,
                _ => false,
            },
            Undefinable::Struct(ai) => match other {
                Undefinable::Struct(bi) => ai == bi,
                _ => false,
            },
        }
    }
}

impl vstd::std_specs::cmp::PartialEqSpecImpl for Undefinable {
    open spec fn obeys_eq_spec() -> bool {
        true
    }

    open spec fn eq_spec(&self, other: &Self) -> bool {
        spec_eq_undefinable(*self, *other)
    }
}

/// The statement with its span replaced and all else kept; the bare type
/// removal carries no span and is returned unchanged.
pub open spec fn spec_with_span(s: Undefinable, sp: Option<Span>) -> Undefinable {
    match s {
        Undefinable::Type(label) => Undefinable::Type(label),
        Undefinable::AnnotationType(inner) => Undefinable::AnnotationType(
            AnnotationType {
                span: sp,
                annotation_category: inner.annotation_category,
                type_: inner.type_,
            },
        ),
        Undefinable::AnnotationCapability(inner) => Undefinable::AnnotationCapability(
            AnnotationCapability {
                span: sp,
                annotation_category: inner.annotation_category,
                type_: inner.type_,
                capability: inner.capability,
            },
        ),
        Undefinable::CapabilityType(inner) => Undefinable::CapabilityType(
            CapabilityType { span: sp, capability: inner.capability, type_: inner.type_ },
        ),
        Undefinable::Specialise(inner) => Undefinable::Specialise(
            Specialise {
                span: sp,
                specialised: inner.specialised,
                type_: inner.type_,
                capability: inner.capability,
            },
        ),
        Undefinable::Function(inner) => Undefinable::Function(
            Function { span: sp, ident: inner.ident },
        ),
        Undefinable::Struct(inner) => Undefinable::Struct(Struct { span: sp, ident: inner.ident }),
    }
}

/// Law: equality disregards spans. Re-spanning either statement — to any
/// span, or to none — never changes whether the two compare equal.
pub proof fn lemma_eq_ignores_span(
    a: Undefinable,
    b: Undefinable,
    sa: Option<Span>,
    sb: Option<Span>,
)
    ensures
        spec_eq_undefinable(spec_with_span(a, sa), spec_with_span(b, sb)) == spec_eq_undefinable(
            a,
            b,
        ),
{
}

/// Law: rendering is deterministic. Any two renderings of the same
/// statement are the same text, whatever else happened between the calls.
pub proof fn lemma_render_deterministic(s: Undefinable, r1: Seq<char>, r2: Seq<char>)
    requires
        r1 == spec_render_undefinable(s),
        r2 == spec_render_undefinable(s),
    ensures
        r1 == r2,
{
}

/// Law: rendering respects equality. Statements that compare equal (spans
/// disregarded) render to identical text, and so does a statement after its
/// span is replaced.
pub proof fn lemma_eq_implies_same_rendering(a: Undefinable, b: Undefinable)
    requires
        spec_eq_undefinable(a, b),
    ensures
        spec_render_undefinable(a) == spec_render_undefinable(b),
{
}

/// A well-formed statement: every name it references is a single-line
/// token. The parser hands statements over in this shape.
pub open spec fn spec_wf_undefinable(s: Undefinable) -> bool {
    match s {
        Undefinable::Type(label) => spec_wf_label(label),
        Undefinable::AnnotationType(inner) => spec_wf_label(inner.type_),
        Undefinable::AnnotationCapability(inner) => spec_wf_label(inner.type_)
            && spec_wf_capability_base(inner.capability),
        Undefinable::CapabilityType(inner) => spec_wf_capability_base(inner.capability)
            && spec_wf_label(inner.type_),
        Undefinable::Specialise(inner) => spec_wf_label(inner.specialised) && spec_wf_label(
            inner.type_,
        ) && spec_wf_relates(inner.capability),
        Undefinable::Function(inner) => spec_wf_identifier(inner.ident),
        Undefinable::Struct(inner) => spec_wf_identifier(inner.ident),
    }
}

/// Law: the canonical text is one clean line. A well-formed statement
/// renders to nonempty text with no leading or trailing whitespace, no line
/// break or tab anywhere, and a single space between tokens.
pub proof fn lemma_render_single_line(s: Undefinable)
    requires
        spec_wf_undefinable(s),
    ensures
        spec_canonical_line(spec_render_undefinable(s)),
{
    reveal_strlit(" ");
    match s {
        Undefinable::Type(label) => {
            lemma_label_renders_token(label);
            lemma_token_line(spec_render_label(label));
        },
        Undefinable::AnnotationType(inner) => {
            reveal_strlit("@");
            reveal_strlit(" from ");
            reveal_strlit("from");
            let category = spec_render_annotation_category(inner.annotation_category);
            let type_ = spec_render_label(inner.type_);
            lemma_annotation_category_renders_token(inner.annotation_category);
            lemma_label_renders_token(inner.type_);
            assert(is_token("@"@));
            assert(is_token("from"@));
            lemma_token_concat("@"@, category);
            lemma_token_line("@"@ + category);
            lemma_token_line("from"@);
            lemma_token_line(type_);
            lemma_line_join("@"@ + category, "from"@);
            let sigil_from = ("@"@ + category) + " "@ + "from"@;
            lemma_line_join(sigil_from, type_);
            assert(spec_render_annotation_type(inner) =~= sigil_from + " "@ + type_);
        },
        Undefinable::AnnotationCapability(inner) => {
            reveal_strlit("@");
            reveal_strlit(" from ");
            reveal_strlit("from");
            let category = spec_render_annotation_category(inner.annotation_category);
            let type_ = spec_render_label(inner.type_);
            let capability = spec_render_capability_base(inner.capability);
            lemma_annotation_category_renders_token(inner.annotation_category);
            lemma_label_renders_token(inner.type_);
            lemma_capability_base_renders_line(inner.capability);
            assert(is_token("@"@));
            assert(is_token("from"@));
            lemma_token_concat("@"@, category);
            lemma_token_line("@"@ + category);
            lemma_token_line("from"@);
            lemma_token_line(type_);
            lemma_line_join("@"@ + category, "from"@);
            let sigil_from = ("@"@ + category) + " "@ + "from"@;
            lemma_line_join(sigil_from, type_);
            let head = sigil_from + " "@ + type_;
            lemma_line_join(head, capability);
            assert(spec_render_annotation_capability(inner) =~= head + " "@ + capability);
        },
        Undefinable::CapabilityType(inner) => {
            reveal_strlit(" from ");
            reveal_strlit("from");
            let capability = spec_render_capability_base(inner.capability);
            let type_ = spec_render_label(inner.type_);
            lemma_capability_base_renders_line(inner.capability);
            lemma_label_renders_token(inner.type_);
            assert(is_token("from"@));
            lemma_token_line("from"@);
            lemma_token_line(type_);
            lemma_line_join(capability, "from"@);
            let head = capability + " "@ + "from"@;
            lemma_line_join(head, type_);
            assert(spec_render_capability_type(inner) =~= head + " "@ + type_);
        },
        Undefinable::Specialise(inner) => {
            reveal_strlit("as ");
            reveal_strlit("as");
            reveal_strlit(" from ");
            reveal_strlit("from");
            let specialised = spec_render_label(inner.specialised);
            let type_ = spec_render_label(inner.type_);
            let capability = spec_render_relates(inner.capability);
            lemma_label_renders_token(inner.specialised);
            lemma_label_renders_token(inner.type_);
            lemma_relates_renders_line(inner.capability);
            assert(is_token("as"@));
            assert(is_token("from"@));
            lemma_token_line("as"@);
            lemma_token_line("from"@);
            lemma_token_line(specialised);
            lemma_token_line(type_);
            lemma_line_join("as"@, specialised);
            let head1 = "as"@ + " "@ + specialised;
            lemma_line_join(head1, "from"@);
            let head2 = head1 + " "@ + "from"@;
            lemma_line_join(head2, type_);
            let head3 = head2 + " "@ + type_;
            lemma_line_join(head3, capability);
            assert(spec_render_specialise(inner) =~= head3 + " "@ + capability);
        },
        Undefinable::Function(inner) => {
            reveal_strlit("fun ");
            reveal_strlit("fun");
            let ident = spec_render_identifier(inner.ident);
            assert(is_token("fun"@));
            lemma_token_line("fun"@);
            lemma_token_line(ident);
            lemma_line_join("fun"@, ident);
            assert(spec_render_function(inner) =~= "fun"@ + " "@ + ident);
        },
        Undefinable::Struct(inner) => {
            reveal_strlit("struct ");
            reveal_strlit("struct");
            let ident = spec_render_identifier(inner.ident);
            assert(is_token("struct"@));
            lemma_token_line("struct"@);
            lemma_token_line(ident);
            lemma_line_join("struct"@, ident);
            assert(spec_render_struct(inner) =~= "struct"@ + " "@ + ident);
        },
    }
}

} // verus!
