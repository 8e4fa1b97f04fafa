//! A code generator for record builders.
//!
//! Given the declaration of a flat, named-field record, the library
//! synthesizes a companion builder type: one storage slot per field, one
//! setter (or single-element appender) per field, and a finalization
//! method that checks required fields and produces the record.
//!
//! The pipeline has three stages: the declaration model (`model`), the
//! field classifier (`classify`), and the code synthesizer (`synth`).
//! The `runtime` module gives the dynamic semantics of a generated
//! builder, against which the behavioural guarantees of the generated
//! code are stated and proved.

use vstd::prelude::*;
use vstd::string::StringExecFns;

pub mod classify;
pub mod model;
pub mod runtime;
pub mod synth;

use crate::classify::{DiagKind, Diagnostic, SpecDiagKind, SpecDiagnostic};
use crate::model::Declaration;

verus! {

/// The suffix appended to a record name to form its builder's name.
pub open spec fn builder_suffix() -> Seq<char> {
    "Builder"@
}

/// Form the builder type's name from the record's name.
pub fn builder_name_of(record_name: &String) -> (r: String)
    ensures
        r@ == record_name@ + builder_suffix(),
{
    let mut r = record_name.clone();
    r.append("Builder");
    r
}

/// What the generator hands back for a declaration: the generated code
/// unit's text for a flat named-field record whose fields all classify,
/// the diagnostic that rejects it otherwise. A declaration of any other
/// shape is rejected as not a record; a field whose annotation fails
/// rejects the whole record — no partial generation, all or nothing.
pub open spec fn spec_generate(decl: Declaration) -> Result<Seq<char>, SpecDiagnostic> {
    match decl {
        Declaration::Record { decl: d } => match classify::spec_classify_fields(d.fields@) {
            Ok(cs) => Ok(synth::spec_render_unit(synth::spec_builder_model(d.name@, cs))),
            Err(diag) => Err(diag),
        },
        Declaration::TupleRecord { name } => Err(
            SpecDiagnostic { subject: name@, kind: SpecDiagKind::NotARecord },
        ),
        Declaration::UnitRecord { name } => Err(
            SpecDiagnostic { subject: name@, kind: SpecDiagKind::NotARecord },
        ),
        Declaration::Enumeration { name } => Err(
            SpecDiagnostic { subject: name@, kind: SpecDiagKind::NotARecord },
        ),
        Declaration::Union { name } => Err(
            SpecDiagnostic { subject: name@, kind: SpecDiagKind::NotARecord },
        ),
    }
}

/// Run the whole pipeline on one declaration: classify every field,
/// build the builder model, and render the generated code unit.
pub fn generate(decl: &Declaration) -> (r: Result<String, Diagnostic>)
    ensures
        match r {
            Ok(text) => spec_generate(*decl) == Ok::<Seq<char>, SpecDiagnostic>(text@),
            Err(d) => spec_generate(*decl) == Err::<Seq<char>, SpecDiagnostic>(d@),
        },
{
    match decl {
        Declaration::Record { decl: d } => match classify::classify_fields(&d.fields) {
            Ok(cs) => {
                let m = synth::synthesize(&d.name, &cs);
                Ok(synth::render_unit(&m))
            },
            Err(diag) => Err(diag),
        },
        Declaration::TupleRecord { name } => Err(
            Diagnostic { subject: name.clone(), kind: DiagKind::NotARecord },
        ),
        Declaration::UnitRecord { name } => Err(
            Diagnostic { subject: name.clone(), kind: DiagKind::NotARecord },
        ),
        Declaration::Enumeration { name } => Err(
            Diagnostic { subject: name.clone(), kind: DiagKind::NotARecord },
        ),
        Declaration::Union { name } => Err(
            Diagnostic { subject: name.clone(), kind: DiagKind::NotARecord },
        ),
    }
}

} // verus!
