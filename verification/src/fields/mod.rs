//! The field transform: merges additional fields into the original field
//! list, then rewrites each field — annotations through the filter, the
//! visibility override, and the optional-wrapping of its type descriptor.

use vstd::prelude::*;

use crate::attrs::spec_filter;
use crate::model::{
    AttributeRules, ConfigError, ErrorKind, Field, FieldsAddition, Owner, Record, RecordShape,
    Segment, ShapeModel, TransformConfig, TypeDesc, Visibility, config_wf, model_wf, shape_model,
    shape_wf,
};

verus! {

/// The name of the optional wrapper, as a sequence of characters.
pub open spec fn option_name() -> Seq<char> {
    "Option"@
}

/// Whether a type descriptor is syntactically the optional wrapper: a path
/// whose leading segment is named `Option`, whatever its generic arguments.
/// The test is nominal only; aliases are never resolved.
pub open spec fn is_option_desc(t: TypeDesc) -> bool {
    match t {
        TypeDesc::Path { segments } => segments@.len() > 0 && segments@[0].name@ == option_name(),
        TypeDesc::Other { .. } => false,
    }
}

/// Whether `w` is exactly the optional wrapper around `t`: a single-segment
/// path named `Option` whose one generic argument is `t` itself.
pub open spec fn wraps(w: TypeDesc, t: TypeDesc) -> bool {
    match w {
        TypeDesc::Path { segments } => {
            &&& segments@.len() == 1
            &&& segments@[0].name@ == option_name()
            &&& segments@[0].args@.len() == 1
            &&& segments@[0].args@[0] == t
        },
        TypeDesc::Other { .. } => false,
    }
}

/// How many layers of the optional wrapper a descriptor carries at its head.
pub open spec fn option_layers(t: TypeDesc) -> nat
    decreases t,
{
    match t {
        TypeDesc::Path { segments } => {
            if segments@.len() > 0 && segments@[0].name@ == option_name() {
                if segments@.len() == 1 && segments@[0].args@.len() == 1 {
                    1 + option_layers(segments@[0].args@[0])
                } else {
                    1
                }
            } else {
                0
            }
        },
        TypeDesc::Other { .. } => 0,
    }
}

/// Wrapping always yields an optional descriptor, and adds exactly one
/// wrapping layer to its argument, however many layers the argument
/// already carries.
pub proof fn lemma_wrap_adds_one_layer(w: TypeDesc, t: TypeDesc)
    requires
        wraps(w, t),
    ensures
        is_option_desc(w),
        option_layers(w) == option_layers(t) + 1,
{
}

/// Whether a field is typed as the optional wrapper.
pub fn is_option(field: &Field) -> (r: bool)
    ensures
        r == is_option_desc(field.ty),
{
    match &field.ty {
        TypeDesc::Path { segments } => {
            if segments.len() > 0 {
                let wrapper: String = String::from_str("Option");
                segments[0].name == wrapper
            } else {
                false
            }
        },
        TypeDesc::Other { .. } => false,
    }
}

/// Builds the optional wrapper around the given descriptor.
pub fn wrap_in_option(t: TypeDesc) -> (r: TypeDesc)
    ensures
        wraps(r, t),
{
    let mut args: Vec<TypeDesc> = Vec::new();
    args.push(t);
    let segment = Segment { name: String::from_str("Option"), args };
    let mut segments: Vec<Segment> = Vec::new();
    segments.push(segment);
    TypeDesc::Path { segments }
}

/// What the merge step yields: the original shape when there is no addition
/// or an explicitly empty one; the addition itself when the original has no
/// fields; the concatenation, originals first, when both sides have the
/// same kind of fields; and a shape-mismatch error, located at the addition,
/// when the kinds differ.
pub open spec fn spec_merge(orig: ShapeModel, add: Option<FieldsAddition>) -> Result<
    ShapeModel,
    ConfigError,
> {
    match add {
        None => Ok(orig),
        Some(a) => match shape_model(a.shape) {
            ShapeModel::NoFields => Ok(orig),
            ShapeModel::Named(news) => match orig {
                ShapeModel::NoFields => Ok(ShapeModel::Named(news)),
                ShapeModel::Named(olds) => Ok(ShapeModel::Named(olds + news)),
                ShapeModel::Unnamed(_) => Err(
                    ConfigError { kind: ErrorKind::ExpectedUnnamedFields, span: a.span },
                ),
            },
            ShapeModel::Unnamed(news) => match orig {
                ShapeModel::NoFields => Ok(ShapeModel::Unnamed(news)),
                ShapeModel::Unnamed(olds) => Ok(ShapeModel::Unnamed(olds + news)),
                ShapeModel::Named(_) => Err(
                    ConfigError { kind: ErrorKind::ExpectedNamedFields, span: a.span },
                ),
            },
        },
    }
}

/// How the type descriptor of one transformed field relates to the
/// original's: a descriptor already optional is left untouched unless
/// rewrapping is requested; every other descriptor — and, under rewrapping,
/// every descriptor — is wrapped in exactly one optional layer.
pub open spec fn ty_transformed(old_ty: TypeDesc, new_ty: TypeDesc, rewrap: bool) -> bool {
    if is_option_desc(old_ty) && !rewrap {
        new_ty == old_ty
    } else {
        wraps(new_ty, old_ty)
    }
}

/// How one transformed field relates to the original: same name, the
/// configured visibility override (else the field's own visibility), the
/// filtered annotations, and the rewritten type descriptor.
pub open spec fn field_transformed(
    old: Field,
    new: Field,
    vis: Option<Visibility>,
    rewrap: bool,
    rules: AttributeRules,
) -> bool {
    &&& new.name == old.name
    &&& new.vis == (match vis {
        Some(v) => v,
        None => old.vis,
    })
    &&& new.attrs@ == spec_filter(Owner::Field, old.attrs@, rules)
    &&& ty_transformed(old.ty, new.ty, rewrap)
}

/// The per-field rewrite applied to a whole field list, in order.
pub open spec fn fields_transformed(
    olds: Seq<Field>,
    news: Seq<Field>,
    vis: Option<Visibility>,
    rewrap: bool,
    rules: AttributeRules,
) -> bool {
    &&& news.len() == olds.len()
    &&& forall|i: int|
        0 <= i < olds.len() ==> field_transformed(olds[i], #[trigger] news[i], vis, rewrap, rules)
}

/// How the transformed shape relates to the merged one: the kind is kept,
/// and the field list is the per-field rewrite of the merged list.
pub open spec fn shape_transformed(
    m: ShapeModel,
    n: ShapeModel,
    vis: Option<Visibility>,
    rewrap: bool,
    rules: AttributeRules,
) -> bool {
    match m {
        ShapeModel::NoFields => n is NoFields,
        ShapeModel::Named(olds) => n matches ShapeModel::Named(news) && fields_transformed(
            olds,
            news,
            vis,
            rewrap,
            rules,
        ),
        ShapeModel::Unnamed(olds) => n matches ShapeModel::Unnamed(news) && fields_transformed(
            olds,
            news,
            vis,
            rewrap,
            rules,
        ),
    }
}

/// A field already typed as the optional wrapper is left untouched by the
/// rewrite when rewrapping is off; when rewrapping is on it gains exactly
/// one more wrapping layer, however many layers it already carries.
pub proof fn lemma_rewrap_policy(old_ty: TypeDesc, new_ty: TypeDesc, rewrap: bool)
    requires
        is_option_desc(old_ty),
        ty_transformed(old_ty, new_ty, rewrap),
    ensures
        !rewrap ==> new_ty == old_ty,
        rewrap ==> option_layers(new_ty) == option_layers(old_ty) + 1,
{
    if rewrap {
        lemma_wrap_adds_one_layer(new_ty, old_ty);
    }
}

/// The non-rewrapping rewrite is idempotent on type descriptors: its result
/// is always optional, and a second application leaves an optional
/// descriptor untouched.
pub proof fn lemma_non_rewrap_idempotent(t: TypeDesc, u: TypeDesc, v: TypeDesc)
    requires
        ty_transformed(t, u, false),
        ty_transformed(u, v, false),
    ensures
        v == u,
{
}

/// A field not already optional always comes out typed as exactly the
/// optional wrapper around its original type, whatever the rewrap policy.
pub proof fn lemma_wrap_totality(old_ty: TypeDesc, new_ty: TypeDesc, rewrap: bool)
    requires
        !is_option_desc(old_ty),
        ty_transformed(old_ty, new_ty, rewrap),
    ensures
        wraps(new_ty, old_ty),
        is_option_desc(new_ty),
{
    lemma_wrap_adds_one_layer(new_ty, old_ty);
}

/// Merging a named original with a named addition yields a named result
/// whose field list is the concatenation — original fields first, in each
/// side's own order — so its length is the sum of both inputs' lengths;
/// merging mismatched kinds always yields the shape-mismatch error, located
/// at the addition, never a coerced result.
pub proof fn lemma_merge_shape(orig: ShapeModel, add: FieldsAddition)
    ensures
        (orig is Named && shape_model(add.shape) is Named) ==> ({
            let olds = orig->Named_0;
            let news = shape_model(add.shape)->Named_0;
            &&& spec_merge(orig, Some(add)) == Ok::<ShapeModel, ConfigError>(
                ShapeModel::Named(olds + news),
            )
            &&& (olds + news).len() == olds.len() + news.len()
        }),
        orig is Named && shape_model(add.shape) is Unnamed ==> spec_merge(orig, Some(add))
            == Err::<ShapeModel, ConfigError>(
            ConfigError { kind: ErrorKind::ExpectedNamedFields, span: add.span },
        ),
        orig is Unnamed && shape_model(add.shape) is Named ==> spec_merge(orig, Some(add))
            == Err::<ShapeModel, ConfigError>(
            ConfigError { kind: ErrorKind::ExpectedUnnamedFields, span: add.span },
        ),
{
}

/// When a visibility override is configured, every transformed field's
/// visibility equals the override, whatever each field's original
/// visibility was.
pub proof fn lemma_visibility_override(
    olds: Seq<Field>,
    news: Seq<Field>,
    v: Visibility,
    rewrap: bool,
    rules: AttributeRules,
)
    requires
        fields_transformed(olds, news, Some(v), rewrap, rules),
    ensures
        forall|i: int| 0 <= i < news.len() ==> (#[trigger] news[i]).vis == v,
{
}

/// Merging well-formed shapes yields a well-formed shape: named members
/// keep their names, positional members stay nameless.
pub proof fn lemma_merge_wf(orig: ShapeModel, add: Option<FieldsAddition>, m: ShapeModel)
    requires
        model_wf(orig),
        (add matches Some(a) ==> shape_wf(a.shape)),
        spec_merge(orig, add) == Ok::<ShapeModel, ConfigError>(m),
    ensures
        model_wf(m),
{
}

/// The per-field rewrite preserves well-formedness: every field keeps its
/// name, so named lists stay named and positional lists stay positional.
pub proof fn lemma_transform_wf(
    m: ShapeModel,
    n: ShapeModel,
    vis: Option<Visibility>,
    rewrap: bool,
    rules: AttributeRules,
)
    requires
        model_wf(m),
        shape_transformed(m, n, vis, rewrap, rules),
    ensures
        model_wf(n),
{
}

/// Merges the additional fields into the original shape.
fn merge(orig: RecordShape, add: Option<FieldsAddition>) -> (r: Result<RecordShape, ConfigError>)
    ensures
        match spec_merge(shape_model(orig), add) {
            Ok(m) => r matches Ok(s) && shape_model(s) == m,
            Err(e) => r matches Err(e2) && e2 == e,
        },
{
    match add {
        None => Ok(orig),
        Some(a) => {
            let FieldsAddition { shape: addition, span } = a;
            match addition {
                RecordShape::NoFields => Ok(orig),
                RecordShape::NamedFields { fields: news } => match orig {
                    RecordShape::NoFields => Ok(RecordShape::NamedFields { fields: news }),
                    RecordShape::NamedFields { fields: olds } => {
                        let mut olds = olds;
                        let mut news = news;
                        olds.append(&mut news);
                        Ok(RecordShape::NamedFields { fields: olds })
                    },
                    RecordShape::UnnamedFields { .. } => Err(
                        ConfigError { kind: ErrorKind::ExpectedUnnamedFields, span },
                    ),
                },
                RecordShape::UnnamedFields { fields: news } => match orig {
                    RecordShape::NoFields => Ok(RecordShape::UnnamedFields { fields: news }),
                    RecordShape::UnnamedFields { fields: olds } => {
                        let mut olds = olds;
                        let mut news = news;
                        olds.append(&mut news);
                        Ok(RecordShape::UnnamedFields { fields: olds })
                    },
                    RecordShape::NamedFields { .. } => Err(
                        ConfigError { kind: ErrorKind::ExpectedNamedFields, span },
                    ),
                },
            }
        },
    }
}

/// Rewrites one field: filters its annotations, applies the visibility
/// override, and wraps its type unless it is already optional and
/// rewrapping is off.
fn transform_field(
    f: Field,
    vis: Option<Visibility>,
    rewrap: bool,
    rules: &AttributeRules,
) -> (r: Field)
    ensures
        field_transformed(f, r, vis, rewrap, *rules),
{
    let new_attrs = crate::attrs::generate(Owner::Field, &f.attrs, rules);
    let already_option = is_option(&f);
    let Field { name, ty, vis: field_vis, attrs: _ } = f;
    let new_vis = match vis {
        Some(v) => v,
        None => field_vis,
    };
    let new_ty = if already_option && !rewrap {
        ty
    } else {
        wrap_in_option(ty)
    };
    Field { name, ty: new_ty, vis: new_vis, attrs: new_attrs }
}

/// Rewrites every field of the merged list, in order.
fn transform_fields(
    fields: Vec<Field>,
    vis: Option<Visibility>,
    rewrap: bool,
    rules: &AttributeRules,
) -> (r: Vec<Field>)
    ensures
        fields_transformed(fields@, r@, vis, rewrap, *rules),
{
    let ghost orig = fields@;
    let mut rest = fields;
    let mut out: Vec<Field> = Vec::new();
    while rest.len() > 0
        invariant
            out@.len() + rest@.len() == orig.len(),
            rest@ == orig.subrange(out@.len() as int, orig.len() as int),
            forall|i: int|
                0 <= i < out@.len() ==> field_transformed(
                    orig[i],
                    #[trigger] out@[i],
                    vis,
                    rewrap,
                    *rules,
                ),
        decreases rest.len(),
    {
        let f = rest.remove(0);
        let g = transform_field(f, vis, rewrap, rules);
        out.push(g);
        proof {
            assert(rest@ =~= orig.subrange(out@.len() as int, orig.len() as int));
        }
    }
    out
}

/// Produces the field list of the generated record: merges the configured
/// additional fields into the item's own (originals first, and only between
/// like kinds — a mismatch is the transform's one error), then rewrites each
/// field in order: annotations filtered, visibility override applied, and
/// the type wrapped in the optional container unless it is already optional
/// and rewrapping is off.
pub fn generate(item: Record, args: TransformConfig) -> (r: Result<RecordShape, ConfigError>)
    ensures
        match spec_merge(shape_model(item.shape), args.additional_fields) {
            Ok(m) => r matches Ok(ns) && shape_transformed(
                m,
                shape_model(ns),
                args.visibility,
                args.rewrap,
                args.attribute_rules,
            ),
            Err(e) => r matches Err(e2) && e2 == e,
        },
        shape_wf(item.shape) && config_wf(args) ==> (r matches Ok(ns) ==> shape_wf(ns)),
{
    let Record { shape, .. } = item;
    let TransformConfig { visibility, additional_fields, rewrap, attribute_rules, .. } = args;
    match merge(shape, additional_fields) {
        Err(e) => Err(e),
        Ok(merged) => {
            let ghost gm = shape_model(merged);
            proof {
                if shape_wf(item.shape) && config_wf(args) {
                    lemma_merge_wf(shape_model(item.shape), args.additional_fields, gm);
                }
            }
            match merged {
                RecordShape::NoFields => Ok(RecordShape::NoFields),
                RecordShape::NamedFields { fields } => {
                    let new_fields = transform_fields(fields, visibility, rewrap, &attribute_rules);
                    let ns = RecordShape::NamedFields { fields: new_fields };
                    proof {
                        if model_wf(gm) {
                            lemma_transform_wf(
                                gm,
                                shape_model(ns),
                                visibility,
                                rewrap,
                                attribute_rules,
                            );
                        }
                    }
                    Ok(ns)
                },
                RecordShape::UnnamedFields { fields } => {
                    let new_fields = transform_fields(fields, visibility, rewrap, &attribute_rules);
                    let ns = RecordShape::UnnamedFields { fields: new_fields };
                    proof {
                        if model_wf(gm) {
                            lemma_transform_wf(
                                gm,
                                shape_model(ns),
                                visibility,
                                rewrap,
                                attribute_rules,
                            );
                        }
                    }
                    Ok(ns)
                },
            }
        },
    }
}

} // verus!
