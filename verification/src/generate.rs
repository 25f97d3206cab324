//! The record transform: assembles the derived record from the original and
//! the configuration — the configured name, the resolved visibility, the
//! generic parameters carried through untouched, the filtered record-level
//! annotations, and the field list produced by the field transform, whose
//! error it propagates unchanged.

use vstd::prelude::*;

use crate::attrs::spec_filter;
use crate::fields::{shape_transformed, spec_merge};
use crate::model::{
    ConfigError, Owner, Record, TransformConfig, config_wf, record_wf, shape_model,
    spec_final_visibility,
};

verus! {

/// Copies a list of generic-parameter names.
fn clone_strings(v: &Vec<String>) -> (r: Vec<String>)
    ensures
        r@ == v@,
{
    let mut r: Vec<String> = Vec::new();
    let mut i: usize = 0;
    while i < v.len()
        invariant
            0 <= i <= v.len(),
            r@ == v@.subrange(0, i as int),
        decreases v.len() - i,
    {
        r.push(v[i].clone());
        i = i + 1;
        proof {
            assert(r@ =~= v@.subrange(0, i as int));
        }
    }
    proof {
        assert(r@ =~= v@);
    }
    r
}

/// Produces the derived record: its name is the configured one; its
/// visibility is the configured override, else the original's; its generic
/// parameters are the original's, untouched; its annotations are the
/// filtered record-level annotations; its fields come from the field
/// transform, whose one error — a shape mismatch while merging additional
/// fields — is propagated unchanged.
pub fn generate(args: TransformConfig, original: Record) -> (r: Result<Record, ConfigError>)
    ensures
        match spec_merge(shape_model(original.shape), args.additional_fields) {
            Ok(m) => r matches Ok(rec) && {
                &&& rec.name == args.name
                &&& rec.vis == spec_final_visibility(args.visibility, original.vis)
                &&& rec.generics@ == original.generics@
                &&& rec.attrs@ == spec_filter(Owner::Record, original.attrs@, args.attribute_rules)
                &&& shape_transformed(
                    m,
                    shape_model(rec.shape),
                    args.visibility,
                    args.rewrap,
                    args.attribute_rules,
                )
            },
            Err(e) => r matches Err(e2) && e2 == e,
        },
        record_wf(original) && config_wf(args) ==> (r matches Ok(rec) ==> record_wf(rec)),
{
    let name = args.name.clone();
    let new_attrs = crate::attrs::generate(Owner::Record, &original.attrs, &args.attribute_rules);
    let vis = args.final_visibility(original.vis);
    let generics = clone_strings(&original.generics);
    match crate::fields::generate(original, args) {
        Ok(shape) => Ok(Record { name, vis, generics, attrs: new_attrs, shape }),
        Err(e) => Err(e),
    }
}

} // verus!
