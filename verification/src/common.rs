//! Supporting value types named by `undefine` statements: source spans,
//! identifiers, (possibly scoped) type labels, annotation categories and
//! capability descriptors.
//!
//! Each type supplies structural equality and a canonical single-line
//! rendering; a spec function beside each renderer states the exact text.

use vstd::prelude::*;
use vstd::string::StringExecFns;

verus! {

/// A blank character: one the canonical renderer never emits except as the
/// single space between tokens.
pub open spec fn is_blank(c: char) -> bool {
    c == ' ' || c == '\t' || c == '\n' || c == '\r'
}

/// A single-line token: nonempty text holding no blank character. Names
/// handed to this component are assumed pre-validated to this shape.
pub open spec fn is_token(s: Seq<char>) -> bool {
    s.len() > 0 && forall|i: int| 0 <= i < s.len() ==> !is_blank(#[trigger] s[i])
}

/// A canonical line: nonempty, beginning and ending with a non-blank
/// character, holding no blank besides the space, and never two spaces in a
/// row.
pub open spec fn spec_canonical_line(s: Seq<char>) -> bool {
    &&& s.len() > 0
    &&& !is_blank(s[0])
    &&& !is_blank(s[s.len() - 1])
    &&& forall|i: int| 0 <= i < s.len() ==> ((#[trigger] s[i]) == ' ' || !is_blank(s[i]))
    &&& forall|i: int|
        0 <= i && i + 1 < s.len() ==> !((#[trigger] s[i]) == ' ' && s[i + 1] == ' ')
}

/// Two tokens joined without a seam form a token.
pub proof fn lemma_token_concat(a: Seq<char>, b: Seq<char>)
    requires
        is_token(a),
        is_token(b),
    ensures
        is_token(a + b),
{
    assert forall|i: int| 0 <= i < (a + b).len() implies !is_blank(#[trigger] (a + b)[i]) by {
        if i < a.len() {
            assert((a + b)[i] == a[i]);
        } else {
            assert((a + b)[i] == b[i - a.len()]);
        }
    }
}

/// A token on its own is a canonical line.
pub proof fn lemma_token_line(t: Seq<char>)
    requires
        is_token(t),
    ensures
        spec_canonical_line(t),
{
}

/// Two canonical lines joined by a single space form a canonical line.
pub proof fn lemma_line_join(a: Seq<char>, b: Seq<char>)
    requires
        spec_canonical_line(a),
        spec_canonical_line(b),
    ensures
        spec_canonical_line(a + " "@ + b),
{
    reveal_strlit(" ");
    let joined = a + " "@ + b;
    assert(joined.len() == a.len() + 1 + b.len());
    assert forall|i: int| 0 <= i < joined.len() implies ((#[trigger] joined[i]) == ' '
        || !is_blank(joined[i])) by {
        if i < a.len() {
            assert(joined[i] == a[i]);
        } else if i == a.len() {
            assert(joined[i] == ' ');
        } else {
            assert(joined[i] == b[i - a.len() - 1]);
        }
    }
    assert forall|i: int| 0 <= i && i + 1 < joined.len() implies !((#[trigger] joined[i]) == ' '
        && joined[i + 1] == ' ') by {
        if i + 1 < a.len() {
            assert(joined[i] == a[i] && joined[i + 1] == a[i + 1]);
        } else if i + 1 == a.len() {
            assert(joined[i] == a[a.len() - 1]);
            assert(!is_blank(a[a.len() - 1]));
        } else if i == a.len() {
            assert(joined[i + 1] == b[0]);
            assert(!is_blank(b[0]));
        } else {
            assert(joined[i] == b[i - a.len() - 1] && joined[i + 1] == b[i - a.len()]);
        }
    }
    assert(joined[0] == a[0]);
    assert(joined[joined.len() - 1] == b[b.len() - 1]);
}

/// A half-open character range locating a node in source text.
///
/// Spans are diagnostic metadata only: statement equality never consults
/// them, and rendering never consumes them.
#[derive(Debug, Clone, Copy, PartialEq, Eq, Structural)]
pub struct Span {
    pub begin: usize,
    pub end: usize,
}

impl Span {
    pub fn new(begin: usize, end: usize) -> (r: Span)
        ensures
            r.begin == begin,
            r.end == end,
    {
        Span { begin, end }
    }
}

/// A bare name, used for functions and structs.
#[derive(Debug, Clone)]
pub struct Identifier {
    pub ident: String,
}

/// The canonical text of an identifier: the name itself.
pub open spec fn spec_render_identifier(i: Identifier) -> Seq<char> {
    i.ident@
}

/// Equality of identifiers: the names hold the same characters.
pub open spec fn spec_eq_identifier(a: Identifier, b: Identifier) -> bool {
    a.ident@ == b.ident@
}

impl Identifier {
    pub fn new(ident: String) -> (r: Identifier)
        ensures
            r.ident@ == ident@,
    {
        Identifier { ident }
    }

    pub fn render(&self) -> (r: String)
        ensures
            r@ == spec_render_identifier(*self),
    {
        self.ident.clone()
    }
}

impl PartialEq for Identifier {
    fn eq(&self, other: &Self) -> (r: bool) {
        self.ident == other.ident
    }
}

impl vstd::std_specs::cmp::PartialEqSpecImpl for Identifier {
    open spec fn obeys_eq_spec() -> bool {
        true
    }

    open spec fn eq_spec(&self, other: &Self) -> bool {
        spec_eq_identifier(*self, *other)
    }
}

/// A schema type name, either bare or scoped to a relation
/// (`relation:role`).
#[derive(Debug, Clone)]
pub enum Label {
    Name(Identifier),
    Scoped(Identifier, Identifier),
}

/// The canonical text of a label: the bare name, or `scope:name`.
pub open spec fn spec_render_label(l: Label) -> Seq<char> {
    match l {
        Label::Name(name) => name.ident@,
        Label::Scoped(scope, name) => scope.ident@ + ":"@ + name.ident@,
    }
}

/// Equality of labels: same shape, and the names hold the same characters.
pub open spec fn spec_eq_label(a: Label, b: Label) -> bool {
    match (a, b) {
        (Label::Name(an), Label::Name(bn)) => spec_eq_identifier(an, bn),
        (Label::Scoped(asc, an), Label::Scoped(bsc, bn)) => spec_eq_identifier(asc, bsc)
            && spec_eq_identifier(an, bn),
        _ => false,
    }
}

impl Label {
    pub fn render(&self) -> (r: String)
        ensures
            r@ == spec_render_label(*self),
    {
        match self {
            Label::Name(name) => name.ident.clone(),
            Label::Scoped(scope, name) => {
                let mut out = scope.ident.clone();
                out.append(":");
                out.append(name.ident.as_str());
                out
            },
        }
    }
}

impl PartialEq for Label {
    fn eq(&self, other: &Self) -> (r: bool) {
        match (self, other) {
            (Label::Name(an), Label::Name(bn)) => an == bn,
            (Label::Scoped(asc, an), Label::Scoped(bsc, bn)) => asc == bsc && an == bn,
            _ => false,
        }
    }
}

impl vstd::std_specs::cmp::PartialEqSpecImpl for Label {
    open spec fn obeys_eq_spec() -> bool {
        true
    }

    open spec fn eq_spec(&self, other: &Self) -> bool {
        spec_eq_label(*self, *other)
    }
}

/// The closed set of annotation kinds a schema may attach to a type or to a
/// capability edge.
#[derive(Debug, Clone, Copy, PartialEq, Eq, Structural)]
pub enum AnnotationCategory {
    Abstract,
    Card,
    Cascade,
    Distinct,
    Independent,
    Key,
    Range,
    Regex,
    Subkey,
    Unique,
    Values,
}

/// The canonical text of an annotation category: its keyword, without the
/// leading `@` sigil (the statement templates supply that).
pub open spec fn spec_render_annotation_category(c: AnnotationCategory) -> Seq<char> {
    match c {
        AnnotationCategory::Abstract => "abstract"@,
        AnnotationCategory::Card => "card"@,
        AnnotationCategory::Cascade => "cascade"@,
        AnnotationCategory::Distinct => "distinct"@,
        AnnotationCategory::Independent => "independent"@,
        AnnotationCategory::Key => "key"@,
        AnnotationCategory::Range => "range"@,
        AnnotationCategory::Regex => "regex"@,
        AnnotationCategory::Subkey => "subkey"@,
        AnnotationCategory::Unique => "unique"@,
        AnnotationCategory::Values => "values"@,
    }
}

impl AnnotationCategory {
    pub fn render(&self) -> (r: String)
        ensures
            r@ == spec_render_annotation_category(*self),
    {
        match self {
            AnnotationCategory::Abstract => String::from_str("abstract"),
            AnnotationCategory::Card => String::from_str("card"),
            AnnotationCategory::Cascade => String::from_str("cascade"),
            AnnotationCategory::Distinct => String::from_str("distinct"),
            AnnotationCategory::Independent => String::from_str("independent"),
            AnnotationCategory::Key => String::from_str("key"),
            AnnotationCategory::Range => String::from_str("range"),
            AnnotationCategory::Regex => String::from_str("regex"),
            AnnotationCategory::Subkey => String::from_str("subkey"),
            AnnotationCategory::Unique => String::from_str("unique"),
            AnnotationCategory::Values => String::from_str("values"),
        }
    }
}

/// The role-relation capability: `relates <role>`. Restricted form used by
/// the specialisation statement.
#[derive(Debug, Clone)]
pub struct Relates {
    pub related: Label,
}

/// The canonical text of a role-relation capability: `relates <role>`.
pub open spec fn spec_render_relates(r: Relates) -> Seq<char> {
    "relates "@ + spec_render_label(r.related)
}

/// Equality of role-relation capabilities: the related roles are equal.
pub open spec fn spec_eq_relates(a: Relates, b: Relates) -> bool {
    spec_eq_label(a.related, b.related)
}

impl Relates {
    pub fn new(related: Label) -> (r: Relates)
        ensures
            r.related == related,
    {
        Relates { related }
    }

    pub fn render(&self) -> (r: String)
        ensures
            r@ == spec_render_relates(*self),
    {
        let mut out = String::from_str("relates ");
        let role = self.related.render();
        out.append(role.as_str());
        out
    }
}

impl PartialEq for Relates {
    fn eq(&self, other: &Self) -> (r: bool) {
        self.related == other.related
    }
}

impl vstd::std_specs::cmp::PartialEqSpecImpl for Relates {
    open spec fn obeys_eq_spec() -> bool {
        true
    }

    open spec fn eq_spec(&self, other: &Self) -> bool {
        spec_eq_relates(*self, *other)
    }
}

/// A capability edge a schema type may hold: a kind tag paired with the
/// related type or role.
#[derive(Debug, Clone)]
pub enum CapabilityBase {
    Sub(Label),
    Owns(Label),
    Plays(Label),
    Relates(Relates),
}

/// The canonical text of a capability: its kind keyword followed by the
/// related type or role.
pub open spec fn spec_render_capability_base(c: CapabilityBase) -> Seq<char> {
    match c {
        CapabilityBase::Sub(supertype) => "sub "@ + spec_render_label(supertype),
        CapabilityBase::Owns(owned) => "owns "@ + spec_render_label(owned),
        CapabilityBase::Plays(role) => "plays "@ + spec_render_label(role),
        CapabilityBase::Relates(relates) => spec_render_relates(relates),
    }
}

/// Equality of capabilities: same kind, and the related elements are equal.
pub open spec fn spec_eq_capability_base(a: CapabilityBase, b: CapabilityBase) -> bool {
    match (a, b) {
        (CapabilityBase::Sub(al), CapabilityBase::Sub(bl)) => spec_eq_label(al, bl),
        (CapabilityBase::Owns(al), CapabilityBase::Owns(bl)) => spec_eq_label(al, bl),
        (CapabilityBase::Plays(al), CapabilityBase::Plays(bl)) => spec_eq_label(al, bl),
        (CapabilityBase::Relates(ar), CapabilityBase::Relates(br)) => spec_eq_relates(ar, br),
        _ => false,
    }
}

impl CapabilityBase {
    pub fn render(&self) -> (r: String)
        ensures
            r@ == spec_render_capability_base(*self),
    {
        match self {
            CapabilityBase::Sub(supertype) => {
                let mut out = String::from_str("sub ");
                let t = supertype.render();
                out.append(t.as_str());
                out
            },
            CapabilityBase::Owns(owned) => {
                let mut out = String::from_str("owns ");
                let t = owned.render();
                out.append(t.as_str());
                out
            },
            CapabilityBase::Plays(role) => {
                let mut out = String::from_str("plays ");
                let t = role.render();
                out.append(t.as_str());
                out
            },
            CapabilityBase::Relates(relates) => relates.render(),
        }
    }
}

impl PartialEq for CapabilityBase {
    fn eq(&self, other: &Self) -> (r: bool) {
        match (self, other) {
            (CapabilityBase::Sub(al), CapabilityBase::Sub(bl)) => al == bl,
            (CapabilityBase::Owns(al), CapabilityBase::Owns(bl)) => al == bl,
            (CapabilityBase::Plays(al), CapabilityBase::Plays(bl)) => al == bl,
            (CapabilityBase::Relates(ar), CapabilityBase::Relates(br)) => ar == br,
            _ => false,
        }
    }
}

impl vstd::std_specs::cmp::PartialEqSpecImpl for CapabilityBase {
    open spec fn obeys_eq_spec() -> bool {
        true
    }

    open spec fn eq_spec(&self, other: &Self) -> bool {
        spec_eq_capability_base(*self, *other)
    }
}

/// A well-formed identifier: its name is a single-line token.
pub open spec fn spec_wf_identifier(i: Identifier) -> bool {
    is_token(i.ident@)
}

/// A well-formed label: each of its name parts is a single-line token.
pub open spec fn spec_wf_label(l: Label) -> bool {
    match l {
        Label::Name(name) => spec_wf_identifier(name),
        Label::Scoped(scope, name) => spec_wf_identifier(scope) && spec_wf_identifier(name),
    }
}

/// A well-formed role-relation capability: its role label is well-formed.
pub open spec fn spec_wf_relates(r: Relates) -> bool {
    spec_wf_label(r.related)
}

/// A well-formed capability: the related type or role is well-formed.
pub open spec fn spec_wf_capability_base(c: CapabilityBase) -> bool {
    match c {
        CapabilityBase::Sub(supertype) => spec_wf_label(supertype),
        CapabilityBase::Owns(owned) => spec_wf_label(owned),
        CapabilityBase::Plays(role) => spec_wf_label(role),
        CapabilityBase::Relates(relates) => spec_wf_relates(relates),
    }
}

/// A well-formed label renders to a single token: the scope separator `:`
/// is not a blank.
pub proof fn lemma_label_renders_token(l: Label)
    requires
        spec_wf_label(l),
    ensures
        is_token(spec_render_label(l)),
{
    match l {
        Label::Name(_) => {},
        Label::Scoped(scope, name) => {
            reveal_strlit(":");
            assert(is_token(":"@));
            lemma_token_concat(scope.ident@, ":"@);
            lemma_token_concat(scope.ident@ + ":"@, name.ident@);
        },
    }
}

/// An annotation category's keyword renders to a single token.
pub proof fn lemma_annotation_category_renders_token(c: AnnotationCategory)
    ensures
        is_token(spec_render_annotation_category(c)),
{
    reveal_strlit("abstract");
    reveal_strlit("card");
    reveal_strlit("cascade");
    reveal_strlit("distinct");
    reveal_strlit("independent");
    reveal_strlit("key");
    reveal_strlit("range");
    reveal_strlit("regex");
    reveal_strlit("subkey");
    reveal_strlit("unique");
    reveal_strlit("values");
}

/// A well-formed role-relation capability renders to a canonical line.
pub proof fn lemma_relates_renders_line(r: Relates)
    requires
        spec_wf_relates(r),
    ensures
        spec_canonical_line(spec_render_relates(r)),
{
    reveal_strlit("relates ");
    reveal_strlit("relates");
    reveal_strlit(" ");
    let role = spec_render_label(r.related);
    lemma_label_renders_token(r.related);
    lemma_token_line(role);
    assert(is_token("relates"@));
    lemma_token_line("relates"@);
    lemma_line_join("relates"@, role);
    assert(spec_render_relates(r) =~= "relates"@ + " "@ + role);
}

/// A well-formed capability renders to a canonical line.
pub proof fn lemma_capability_base_renders_line(c: CapabilityBase)
    requires
        spec_wf_capability_base(c),
    ensures
        spec_canonical_line(spec_render_capability_base(c)),
{
    match c {
        CapabilityBase::Sub(supertype) => {
            reveal_strlit("sub ");
            reveal_strlit("sub");
            reveal_strlit(" ");
            let t = spec_render_label(supertype);
            lemma_label_renders_token(supertype);
            lemma_token_line(t);
            assert(is_token("sub"@));
            lemma_token_line("sub"@);
            lemma_line_join("sub"@, t);
            assert(spec_render_capability_base(c) =~= "sub"@ + " "@ + t);
        },
        CapabilityBase::Owns(owned) => {
            reveal_strlit("owns ");
            reveal_strlit("owns");
            reveal_strlit(" ");
            let t = spec_render_label(owned);
            lemma_label_renders_token(owned);
            lemma_token_line(t);
            assert(is_token("owns"@));
            lemma_token_line("owns"@);
            lemma_line_join("owns"@, t);
            assert(spec_render_capability_base(c) =~= "owns"@ + " "@ + t);
        },
        CapabilityBase::Plays(role) => {
            reveal_strlit("plays ");
            reveal_strlit("plays");
            reveal_strlit(" ");
            let t = spec_render_label(role);
            lemma_label_renders_token(role);
            lemma_token_line(t);
            assert(is_token("plays"@));
            lemma_token_line("plays"@);
            lemma_line_join("plays"@, t);
            assert(spec_render_capability_base(c) =~= "plays"@ + " "@ + t);
        },
        CapabilityBase::Relates(relates) => {
            lemma_relates_renders_line(relates);
        },
    }
}

} // verus!
