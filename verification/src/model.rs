//! The structural model of a record declaration.
//!
//! A declared type is modelled as a path of segments, each with a name
//! and a list of generic arguments. The generator only inspects the
//! outermost segment of a field's declared type (its name and the number
//! of its generic arguments); an argument itself is never looked into,
//! so each argument is carried as its source text and spliced verbatim
//! into the generated code.

use vstd::prelude::*;

verus! {

/// One segment of a type path: a name and its generic arguments,
/// each argument carried as its source text.
#[derive(Debug)]
pub struct Segment {
    pub name: String,
    pub args: Vec<String>,
}

/// The ghost counterpart of `Segment`.
#[verifier::ext_equal]
pub struct SpecSegment {
    pub name: Seq<char>,
    pub args: Seq<Seq<char>>,
}

impl View for Segment {
    type V = SpecSegment;

    open spec fn view(&self) -> SpecSegment {
        SpecSegment { name: self.name@, args: self.args.deep_view() }
    }
}

impl DeepView for Segment {
    type V = SpecSegment;

    open spec fn deep_view(&self) -> SpecSegment {
        self.view()
    }
}

/// A declared type: a non-empty path of segments, e.g. the segments
/// `std`, `option` and `Option<i32>` for `std::option::Option<i32>`.
#[derive(Debug)]
pub struct TypeExpr {
    pub segments: Vec<Segment>,
}

/// The ghost counterpart of `TypeExpr`.
#[verifier::ext_equal]
pub struct SpecTypeExpr {
    pub segments: Seq<SpecSegment>,
}

impl View for TypeExpr {
    type V = SpecTypeExpr;

    open spec fn view(&self) -> SpecTypeExpr {
        SpecTypeExpr { segments: self.segments.deep_view() }
    }
}

impl DeepView for TypeExpr {
    type V = SpecTypeExpr;

    open spec fn deep_view(&self) -> SpecTypeExpr {
        self.view()
    }
}

/// One token of a field's configuration annotation.
pub enum AttrToken {
    /// An identifier, such as a configuration key.
    Ident { text: String },
    /// A punctuation character; `alone` is false when it is joined
    /// to the next punctuation character.
    Punct { ch: char, alone: bool },
    /// A quoted string literal; `value` is its content, unquoted.
    LitStr { value: String },
    /// A literal of any other kind, carried as its source text.
    OtherLit { text: String },
    /// Any other token, such as a nested delimited group.
    Other,
}

/// One field of a record declaration: its name, its declared type, and
/// its configuration annotation, if it carries exactly one. The
/// annotation holds the tokens between the annotation's delimiters.
pub struct FieldDecl {
    pub name: String,
    pub ty: TypeExpr,
    pub annotation: Option<Vec<AttrToken>>,
}

/// A flat, named-field record declaration.
pub struct RecordDecl {
    pub name: String,
    pub fields: Vec<FieldDecl>,
}

/// A data-type declaration as handed to the generator. Only flat,
/// named-field records are supported; the other shapes are rejected
/// with a diagnostic.
pub enum Declaration {
    /// A record with named fields.
    Record { decl: RecordDecl },
    /// A tuple-style record: fields have positions, not names.
    TupleRecord { name: String },
    /// A unit record with no fields at all.
    UnitRecord { name: String },
    /// An enumeration.
    Enumeration { name: String },
    /// A union.
    Union { name: String },
}

impl Clone for Segment {
    fn clone(&self) -> (r: Self)
        ensures
            r@ == self@,
    {
        let mut args: Vec<String> = Vec::new();
        let mut i: usize = 0;
        while i < self.args.len()
            invariant
                0 <= i <= self.args@.len(),
                args@.len() == i,
                forall|j: int| 0 <= j < i ==> args@[j] == self.args@[j],
            decreases self.args@.len() - i,
        {
            args.push(self.args[i].clone());
            i = i + 1;
        }
        proof {
            assert(args.deep_view() =~= self.args.deep_view());
        }
        Segment { name: self.name.clone(), args }
    }
}

impl Clone for TypeExpr {
    fn clone(&self) -> (r: Self)
        ensures
            r@ == self@,
    {
        let mut segments: Vec<Segment> = Vec::new();
        let mut i: usize = 0;
        while i < self.segments.len()
            invariant
                0 <= i <= self.segments@.len(),
                segments@.len() == i,
                forall|j: int| 0 <= j < i ==> segments@[j]@ == self.segments@[j]@,
            decreases self.segments@.len() - i,
        {
            segments.push(self.segments[i].clone());
            i = i + 1;
        }
        proof {
            assert(segments.deep_view() =~= self.segments.deep_view());
        }
        TypeExpr { segments }
    }
}

} // verus!
