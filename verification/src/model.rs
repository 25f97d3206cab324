//! The value model of the transformation: records, fields, type descriptors,
//! visibility markers, metadata annotations, the configuration that drives a
//! transformation, and the error it can report.
//!
//! All values are immutable descriptions built fresh for one invocation; the
//! transform consumes its inputs and allocates its output, so contracts speak
//! of plain value equality throughout.

use vstd::prelude::*;

verus! {

/// A source location, carried on the additional-fields fragment of a
/// configuration so that a shape mismatch can be reported where the
/// mismatched fragment stands.
#[derive(Clone, Copy, Debug, PartialEq, Eq, Structural)]
pub struct Span {
    pub lo: u64,
    pub hi: u64,
}

/// One metadata annotation attached to a record or a field. Its text is
/// opaque to the transform: annotations are kept, dropped, replaced or
/// appended whole, never inspected.
#[derive(Debug, PartialEq, Eq)]
pub struct Attr {
    pub text: String,
}

impl Clone for Attr {
    fn clone(&self) -> (r: Self)
        ensures
            r == *self,
    {
        Attr { text: self.text.clone() }
    }
}

/// A visibility marker on a record or a field.
#[derive(Clone, Copy, Debug, PartialEq, Eq, Structural)]
pub enum Visibility {
    /// No explicit marker (private to the enclosing module).
    Inherited,
    /// `pub`.
    Public,
    /// `pub(crate)`.
    Crate,
}

/// One segment of a path type: an identifier and its generic arguments.
#[derive(Debug, PartialEq, Eq)]
pub struct Segment {
    pub name: String,
    pub args: Vec<TypeDesc>,
}

/// A syntactic description of a field's declared type: either a path made of
/// segments, or any other shape of type, kept as opaque text. Optionality
/// detection is purely nominal over this description: it never resolves
/// aliases or imports.
#[derive(Debug, PartialEq, Eq)]
pub enum TypeDesc {
    Path { segments: Vec<Segment> },
    Other { text: String },
}

/// One member of a record: an optional name (absent for positional fields),
/// a type descriptor, a visibility marker and its annotations.
#[derive(Debug, PartialEq, Eq)]
pub struct Field {
    pub name: Option<String>,
    pub ty: TypeDesc,
    pub vis: Visibility,
    pub attrs: Vec<Attr>,
}

/// The structural kind of a record's member list: none, named, or positional.
#[derive(Debug, PartialEq, Eq)]
pub enum RecordShape {
    NoFields,
    NamedFields { fields: Vec<Field> },
    UnnamedFields { fields: Vec<Field> },
}

/// The record being transformed: name, visibility, generic parameters
/// (carried through untouched, never inspected), annotations and shape.
#[derive(Debug, PartialEq, Eq)]
pub struct Record {
    pub name: String,
    pub vis: Visibility,
    pub generics: Vec<String>,
    pub attrs: Vec<Attr>,
    pub shape: RecordShape,
}

/// What to do with the annotations of one scope (record or field) of the
/// generated entity.
#[derive(Debug, PartialEq, Eq)]
pub enum AttrRule {
    /// Propagate none.
    Remove,
    /// Propagate all, in their original order.
    Keep,
    /// Propagate none; attach the given annotations instead.
    Replace { attrs: Vec<Attr> },
    /// Propagate all, then append the given annotations after them.
    Add { attrs: Vec<Attr> },
}

/// The annotation rules of a configuration, one per scope.
#[derive(Debug, PartialEq, Eq)]
pub struct AttributeRules {
    pub record: AttrRule,
    pub field: AttrRule,
}

/// The scope an annotation list belongs to.
#[derive(Clone, Copy, Debug, PartialEq, Eq, Structural)]
pub enum Owner {
    Record,
    Field,
}

/// An additional-fields fragment of a configuration, with the location of
/// the fragment for error reporting.
#[derive(Debug, PartialEq, Eq)]
pub struct FieldsAddition {
    pub shape: RecordShape,
    pub span: Span,
}

/// The configuration of one transformation invocation.
#[derive(Debug, PartialEq, Eq)]
pub struct TransformConfig {
    /// The name of the generated record.
    pub name: String,
    /// If present, overrides the visibility of the generated record and of
    /// every generated field.
    pub visibility: Option<Visibility>,
    /// If present, fields merged into the original field list before the
    /// per-field rewrite.
    pub additional_fields: Option<FieldsAddition>,
    /// If false, fields already optional are left untouched; if true, they
    /// gain one more wrapping layer.
    pub rewrap: bool,
    /// What becomes of record-level and field-level annotations.
    pub attribute_rules: AttributeRules,
}

/// The kind of a configuration error. The only failure of the transform is
/// a shape mismatch while merging additional fields; constructing the
/// optional-wrapper descriptor is total over this value model, since every
/// `TypeDesc` is well formed by construction.
#[derive(Clone, Copy, Debug, PartialEq, Eq, Structural)]
pub enum ErrorKind {
    /// The original record has named fields; the addition does not.
    ExpectedNamedFields,
    /// The original record has unnamed fields; the addition does not.
    ExpectedUnnamedFields,
}

/// A configuration error: its kind and the location of the offending
/// fragment.
#[derive(Clone, Copy, Debug, PartialEq, Eq, Structural)]
pub struct ConfigError {
    pub kind: ErrorKind,
    pub span: Span,
}

impl ConfigError {
    /// The human-readable description of this error.
    pub fn message(&self) -> (r: String)
        ensures
            self.kind is ExpectedNamedFields ==> r@ == "Expected named fields"@,
            self.kind is ExpectedUnnamedFields ==> r@ == "Expected unnamed fields"@,
    {
        match self.kind {
            ErrorKind::ExpectedNamedFields => String::from_str("Expected named fields"),
            ErrorKind::ExpectedUnnamedFields => String::from_str("Expected unnamed fields"),
        }
    }
}

/// The visibility of the generated record: the configured override if
/// present, else the original record's own.
pub open spec fn spec_final_visibility(over: Option<Visibility>, original: Visibility) -> Visibility {
    match over {
        Some(v) => v,
        None => original,
    }
}

impl TransformConfig {
    /// Resolves the visibility of the generated record: the configured
    /// override wins, otherwise the original's visibility is inherited.
    pub fn final_visibility(&self, original: Visibility) -> (r: Visibility)
        ensures
            r == spec_final_visibility(self.visibility, original),
    {
        match &self.visibility {
            Some(v) => *v,
            None => original,
        }
    }
}

/// The spec-level mirror of a `RecordShape`: the same three kinds, with the
/// member list as a sequence.
pub enum ShapeModel {
    NoFields,
    Named(Seq<Field>),
    Unnamed(Seq<Field>),
}

/// The shape of a record as a spec value.
pub open spec fn shape_model(s: RecordShape) -> ShapeModel {
    match s {
        RecordShape::NoFields => ShapeModel::NoFields,
        RecordShape::NamedFields { fields } => ShapeModel::Named(fields@),
        RecordShape::UnnamedFields { fields } => ShapeModel::Unnamed(fields@),
    }
}

/// Well-formedness of a shape model: named members all carry a name,
/// positional members none.
pub open spec fn model_wf(m: ShapeModel) -> bool {
    match m {
        ShapeModel::NoFields => true,
        ShapeModel::Named(fs) => forall|i: int| 0 <= i < fs.len() ==> (#[trigger] fs[i].name) is Some,
        ShapeModel::Unnamed(fs) => forall|i: int| 0 <= i < fs.len() ==> (#[trigger] fs[i].name) is None,
    }
}

/// Well-formedness of a shape.
pub open spec fn shape_wf(s: RecordShape) -> bool {
    model_wf(shape_model(s))
}

/// Well-formedness of a record.
pub open spec fn record_wf(r: Record) -> bool {
    shape_wf(r.shape)
}

/// Well-formedness of a configuration: its additional fields, if any, form a
/// well-formed shape.
pub open spec fn config_wf(c: TransformConfig) -> bool {
    match c.additional_fields {
        None => true,
        Some(a) => shape_wf(a.shape),
    }
}

} // verus!
