//! The field classifier.
//!
//! Every field of a record falls under exactly one construction kind:
//! required, optional, or accumulating. A field with a configuration
//! annotation `each = "<method>"` on a list-shaped type accumulates
//! single elements through a method of that name; a field whose declared
//! type is the standard optional wrapper is optional; every other field
//! is required. A malformed or unsupported annotation rejects the whole
//! record with a diagnostic — no partial generation.

use vstd::prelude::*;
use vstd::string::StringExecFns;
use crate::model::{AttrToken, FieldDecl, Segment, SpecTypeExpr, TypeExpr};

verus! {

/// How a field is constructed through the builder.
#[derive(Clone, Copy, PartialEq, Eq, Structural, Debug)]
pub enum FieldMode {
    Required,
    Optional,
    Accumulating,
}

/// The construction kind of one field, with the extracted type texts.
#[derive(Debug)]
pub enum FieldKind {
    /// Must be supplied before finalization; the setter takes the full
    /// declared type.
    Required,
    /// The declared type is the optional wrapper around `inner`; the
    /// setter takes `inner`, absence is a valid final state.
    Optional { inner: String },
    /// The declared type is a list of `elem`, filled one element at a
    /// time through a method named `method`.
    Accumulating { elem: String, method: String },
}

/// The ghost counterpart of `FieldKind`.
pub enum SpecFieldKind {
    Required,
    Optional { inner: Seq<char> },
    Accumulating { elem: Seq<char>, method: Seq<char> },
}

impl View for FieldKind {
    type V = SpecFieldKind;

    open spec fn view(&self) -> SpecFieldKind {
        match self {
            FieldKind::Required => SpecFieldKind::Required,
            FieldKind::Optional { inner } => SpecFieldKind::Optional { inner: inner@ },
            FieldKind::Accumulating { elem, method } => SpecFieldKind::Accumulating {
                elem: elem@,
                method: method@,
            },
        }
    }
}

impl FieldKind {
    /// The construction mode this kind falls under.
    pub fn mode(&self) -> (m: FieldMode)
        ensures
            m == self@.spec_mode(),
    {
        match self {
            FieldKind::Required => FieldMode::Required,
            FieldKind::Optional { .. } => FieldMode::Optional,
            FieldKind::Accumulating { .. } => FieldMode::Accumulating,
        }
    }
}

impl SpecFieldKind {
    pub open spec fn spec_mode(self) -> FieldMode {
        match self {
            SpecFieldKind::Required => FieldMode::Required,
            SpecFieldKind::Optional { .. } => FieldMode::Optional,
            SpecFieldKind::Accumulating { .. } => FieldMode::Accumulating,
        }
    }
}

/// A field together with its classification.
#[derive(Debug)]
pub struct ClassifiedField {
    pub name: String,
    pub ty: TypeExpr,
    pub kind: FieldKind,
}

/// The ghost counterpart of `ClassifiedField`.
#[verifier::ext_equal]
pub struct SpecClassifiedField {
    pub name: Seq<char>,
    pub ty: SpecTypeExpr,
    pub kind: SpecFieldKind,
}

impl View for ClassifiedField {
    type V = SpecClassifiedField;

    open spec fn view(&self) -> SpecClassifiedField {
        SpecClassifiedField { name: self.name@, ty: self.ty@, kind: self.kind@ }
    }
}

impl DeepView for ClassifiedField {
    type V = SpecClassifiedField;

    open spec fn deep_view(&self) -> SpecClassifiedField {
        self.view()
    }
}

/// What is wrong with a rejected declaration.
#[derive(Debug)]
pub enum DiagKind {
    /// The declaration is not a flat named-field record.
    NotARecord,
    /// A configuration annotation uses a key other than `each`.
    UnsupportedKey { key: String },
    /// A configuration annotation is not of the shape `key = "<string>"`.
    MalformedAnnotation,
    /// An `each` annotation sits on a field whose type is not a
    /// single-argument list.
    AnnotationOnNonList,
}

/// A generation-time diagnostic: the offending item and the problem.
#[derive(Debug)]
pub struct Diagnostic {
    /// The field at fault, or the record name for a structural rejection.
    pub subject: String,
    pub kind: DiagKind,
}

/// The ghost counterpart of `DiagKind`.
pub enum SpecDiagKind {
    NotARecord,
    UnsupportedKey { key: Seq<char> },
    MalformedAnnotation,
    AnnotationOnNonList,
}

/// The ghost counterpart of `Diagnostic`.
pub struct SpecDiagnostic {
    pub subject: Seq<char>,
    pub kind: SpecDiagKind,
}

impl View for DiagKind {
    type V = SpecDiagKind;

    open spec fn view(&self) -> SpecDiagKind {
        match self {
            DiagKind::NotARecord => SpecDiagKind::NotARecord,
            DiagKind::UnsupportedKey { key } => SpecDiagKind::UnsupportedKey { key: key@ },
            DiagKind::MalformedAnnotation => SpecDiagKind::MalformedAnnotation,
            DiagKind::AnnotationOnNonList => SpecDiagKind::AnnotationOnNonList,
        }
    }
}

impl View for Diagnostic {
    type V = SpecDiagnostic;

    open spec fn view(&self) -> SpecDiagnostic {
        SpecDiagnostic { subject: self.subject@, kind: self.kind@ }
    }
}

/// The exact text of a diagnostic: the offending subject, a colon, and
/// what is wrong with it.
pub open spec fn spec_diag_message(d: SpecDiagnostic) -> Seq<char> {
    match d.kind {
        SpecDiagKind::NotARecord => d.subject
            + ": only a flat record with named fields can have a builder"@,
        SpecDiagKind::UnsupportedKey { key } => d.subject + ": unsupported configuration key `"@
            + key + "`"@,
        SpecDiagKind::MalformedAnnotation => d.subject
            + ": malformed configuration annotation, expected `each = \"<method>\"`"@,
        SpecDiagKind::AnnotationOnNonList => d.subject
            + ": an `each` annotation needs a list-valued field"@,
    }
}

impl Diagnostic {
    /// The diagnostic's message, naming the offending field or record
    /// and the problem.
    pub fn message(&self) -> (r: String)
        ensures
            r@ == spec_diag_message(self@),
    {
        let mut r = self.subject.clone();
        match &self.kind {
            DiagKind::NotARecord => {
                r.append(": only a flat record with named fields can have a builder");
            },
            DiagKind::UnsupportedKey { key } => {
                r.append(": unsupported configuration key `");
                r.append(key.as_str());
                r.append("`");
            },
            DiagKind::MalformedAnnotation => {
                r.append(": malformed configuration annotation, expected `each = \"<method>\"`");
            },
            DiagKind::AnnotationOnNonList => {
                r.append(": an `each` annotation needs a list-valued field");
            },
        }
        proof {
            assert(r@ =~= spec_diag_message(self@));
        }
        r
    }
}

/// The name of the standard optional wrapper.
pub open spec fn spec_option_name() -> Seq<char> {
    "Option"@
}

/// The name of the standard list type.
pub open spec fn spec_vec_name() -> Seq<char> {
    "Vec"@
}

/// Whether the outermost segment of `ty` — the last segment of its
/// path — is the wrapper named `name` applied to exactly one argument.
pub open spec fn spec_is_wrapper(ty: SpecTypeExpr, name: Seq<char>) -> bool {
    &&& ty.segments.len() > 0
    &&& ty.segments.last().name == name
    &&& ty.segments.last().args.len() == 1
}

/// The one generic argument of a matched wrapper, as its source text.
pub open spec fn spec_wrapper_inner(ty: SpecTypeExpr) -> Seq<char> {
    ty.segments.last().args[0]
}

/// If the outermost segment of `ty` is the single-argument wrapper
/// named `name`, hand out its argument's text.
pub fn wrapper_inner(ty: &TypeExpr, name: &String) -> (r: Option<String>)
    ensures
        r is Some <==> spec_is_wrapper(ty@, name@),
        r matches Some(inner) ==> inner@ == spec_wrapper_inner(ty@),
{
    if ty.segments.len() == 0 {
        return None;
    }
    let seg: &Segment = &ty.segments[ty.segments.len() - 1];
    proof {
        assert(ty@.segments.last() == seg@);
    }
    if seg.name == *name && seg.args.len() == 1 {
        Some(seg.args[0].clone())
    } else {
        None
    }
}

/// The outcome of reading a configuration annotation against the
/// grammar `each = "<method>"`.
pub enum SpecEachParse {
    /// The annotation names the append method `method`.
    Parsed { method: Seq<char> },
    /// The annotation's key is not `each`.
    BadKey { key: Seq<char> },
    /// The annotation is not of the shape `key = "<string>"`.
    Malformed,
}

/// Read an annotation's tokens against the grammar `each = "<method>"`:
/// an identifier, a lone `=`, and a quoted string, in that order.
pub open spec fn spec_parse_each(ts: Seq<AttrToken>) -> SpecEachParse {
    if ts.len() == 3 {
        match ts[0] {
            AttrToken::Ident { text: key } => if key@ != spec_each_key() {
                SpecEachParse::BadKey { key: key@ }
            } else {
                match (ts[1], ts[2]) {
                    (
                        AttrToken::Punct { ch, alone },
                        AttrToken::LitStr { value },
                    ) => if ch == '=' && alone {
                        SpecEachParse::Parsed { method: value@ }
                    } else {
                        SpecEachParse::Malformed
                    },
                    _ => SpecEachParse::Malformed,
                }
            },
            _ => SpecEachParse::Malformed,
        }
    } else {
        SpecEachParse::Malformed
    }
}

/// The one recognized configuration key.
pub open spec fn spec_each_key() -> Seq<char> {
    "each"@
}

/// Parse a configuration annotation. On success the returned string is
/// the configured append-method name.
pub fn parse_each_annotation(ts: &Vec<AttrToken>) -> (r: Result<String, DiagKind>)
    ensures
        match r {
            Ok(method) => spec_parse_each(ts@) == (SpecEachParse::Parsed { method: method@ }),
            Err(k) => match k@ {
                SpecDiagKind::UnsupportedKey { key } => spec_parse_each(ts@) == (SpecEachParse::BadKey { key }),
                SpecDiagKind::MalformedAnnotation => spec_parse_each(ts@) is Malformed,
                _ => false,
            },
        },
{
    if ts.len() != 3 {
        return Err(DiagKind::MalformedAnnotation);
    }
    let key: &AttrToken = &ts[0];
    match key {
        AttrToken::Ident { text } => {
            let each = String::from_str("each");
            proof {
                reveal_strlit("each");
            }
            if !(*text == each) {
                return Err(DiagKind::UnsupportedKey { key: text.clone() });
            }
        },
        _ => {
            return Err(DiagKind::MalformedAnnotation);
        },
    }
    match &ts[1] {
        AttrToken::Punct { ch, alone } => {
            if !(*ch == '=' && *alone) {
                return Err(DiagKind::MalformedAnnotation);
            }
        },
        _ => {
            return Err(DiagKind::MalformedAnnotation);
        },
    }
    match &ts[2] {
        AttrToken::LitStr { value } => Ok(value.clone()),
        _ => Err(DiagKind::MalformedAnnotation),
    }
}

/// What the classifier decides for one field: the kind, or the problem.
pub open spec fn spec_classify_field(f: FieldDecl) -> Result<SpecFieldKind, SpecDiagnostic> {
    match f.annotation {
        Some(ts) => match spec_parse_each(ts@) {
            SpecEachParse::Parsed { method } => if spec_is_wrapper(f.ty@, spec_vec_name()) {
                Ok(SpecFieldKind::Accumulating { elem: spec_wrapper_inner(f.ty@), method })
            } else {
                Err(SpecDiagnostic { subject: f.name@, kind: SpecDiagKind::AnnotationOnNonList })
            },
            SpecEachParse::BadKey { key } => Err(
                SpecDiagnostic { subject: f.name@, kind: SpecDiagKind::UnsupportedKey { key } },
            ),
            SpecEachParse::Malformed => Err(
                SpecDiagnostic { subject: f.name@, kind: SpecDiagKind::MalformedAnnotation },
            ),
        },
        None => if spec_is_wrapper(f.ty@, spec_option_name()) {
            Ok(SpecFieldKind::Optional { inner: spec_wrapper_inner(f.ty@) })
        } else {
            Ok(SpecFieldKind::Required)
        },
    }
}

/// Classify one field: an `each` annotation on a list-shaped type makes
/// it accumulating, an optional-wrapper type makes it optional, and any
/// other field is required. A bad annotation rejects the field.
pub fn classify_field(f: &FieldDecl) -> (r: Result<ClassifiedField, Diagnostic>)
    ensures
        match r {
            Ok(c) => {
                &&& spec_classify_field(*f) == Ok::<SpecFieldKind, SpecDiagnostic>(c.kind@)
                &&& c.name@ == f.name@
                &&& c.ty@ == f.ty@
            },
            Err(d) => spec_classify_field(*f) == Err::<SpecFieldKind, SpecDiagnostic>(d@),
        },
{
    let kind: FieldKind = match &f.annotation {
        Some(ts) => {
            match parse_each_annotation(ts) {
                Ok(method) => {
                    let vec_name = String::from_str("Vec");
                    proof {
                        reveal_strlit("Vec");
                    }
                    match wrapper_inner(&f.ty, &vec_name) {
                        Some(elem) => FieldKind::Accumulating { elem, method },
                        None => {
                            return Err(Diagnostic {
                                subject: f.name.clone(),
                                kind: DiagKind::AnnotationOnNonList,
                            });
                        },
                    }
                },
                Err(k) => {
                    return Err(Diagnostic { subject: f.name.clone(), kind: k });
                },
            }
        },
        None => {
            let option_name = String::from_str("Option");
            proof {
                reveal_strlit("Option");
            }
            match wrapper_inner(&f.ty, &option_name) {
                Some(inner) => FieldKind::Optional { inner },
                None => FieldKind::Required,
            }
        },
    };
    Ok(ClassifiedField { name: f.name.clone(), ty: f.ty.clone(), kind })
}

/// Classify a whole field list, in declaration order; the first
/// rejected field aborts the whole record — all or nothing.
pub open spec fn spec_classify_fields(fs: Seq<FieldDecl>) -> Result<
    Seq<SpecClassifiedField>,
    SpecDiagnostic,
>
    decreases fs.len(),
{
    if fs.len() == 0 {
        Ok(Seq::empty())
    } else {
        match spec_classify_fields(fs.drop_last()) {
            Ok(done) => match spec_classify_field(fs.last()) {
                Ok(kind) => Ok(
                    done.push(
                        SpecClassifiedField {
                            name: fs.last().name@,
                            ty: fs.last().ty@,
                            kind,
                        },
                    ),
                ),
                Err(d) => Err(d),
            },
            Err(d) => Err(d),
        }
    }
}

/// Once a prefix of the field list is rejected, the whole list is
/// rejected with the same diagnostic.
proof fn lemma_classify_error_persists(fs: Seq<FieldDecl>, j: int, d: SpecDiagnostic)
    requires
        0 <= j <= fs.len(),
        spec_classify_fields(fs.take(j)) == Err::<Seq<SpecClassifiedField>, SpecDiagnostic>(d),
    ensures
        spec_classify_fields(fs) == Err::<Seq<SpecClassifiedField>, SpecDiagnostic>(d),
    decreases fs.len() - j,
{
    if j == fs.len() {
        assert(fs.take(j) =~= fs);
    } else {
        assert(fs.take(j + 1).drop_last() =~= fs.take(j));
        lemma_classify_error_persists(fs, j + 1, d);
    }
}

/// Classify every field of a record, in declaration order.
pub fn classify_fields(fs: &Vec<FieldDecl>) -> (r: Result<Vec<ClassifiedField>, Diagnostic>)
    ensures
        match r {
            Ok(cs) => spec_classify_fields(fs@) == Ok::<_, SpecDiagnostic>(cs.deep_view()),
            Err(d) => spec_classify_fields(fs@) == Err::<Seq<SpecClassifiedField>, _>(d@),
        },
{
    let mut out: Vec<ClassifiedField> = Vec::new();
    proof {
        assert(out.deep_view() =~= Seq::<SpecClassifiedField>::empty());
        assert(fs@.take(0) =~= Seq::<FieldDecl>::empty());
    }
    let mut i: usize = 0;
    while i < fs.len()
        invariant
            0 <= i <= fs@.len(),
            out.deep_view().len() == i,
            spec_classify_fields(fs@.take(i as int)) == Ok::<_, SpecDiagnostic>(out.deep_view()),
        decreases fs@.len() - i,
    {
        let ghost prefix = fs@.take(i as int);
        match classify_field(&fs[i]) {
            Ok(c) => {
                let ghost cv = c@;
                let ghost old_dv = out.deep_view();
                out.push(c);
                proof {
                    assert(fs@.take(i + 1).drop_last() =~= prefix);
                    assert(fs@.take(i + 1).last() == fs@[i as int]);
                    assert(out.deep_view() =~= old_dv.push(cv));
                }
            },
            Err(d) => {
                proof {
                    assert(fs@.take(i + 1).drop_last() =~= prefix);
                    assert(fs@.take(i + 1).last() == fs@[i as int]);
                    lemma_classify_error_persists(fs@, i + 1, d@);
                }
                return Err(d);
            },
        }
        i = i + 1;
    }
    proof {
        assert(fs@.take(fs@.len() as int) =~= fs@);
    }
    Ok(out)
}

} // verus!
