//! The annotation filter: decides which metadata annotations the generated
//! record or field carries. Kept annotations preserve their original order;
//! injected annotations are appended after the kept ones. The filter is a
//! pure function of the existing annotations and the configured rule; it
//! never inspects an annotation's content.

use vstd::prelude::*;

use crate::model::{Attr, AttrRule, AttributeRules, Owner};

verus! {

/// The rule that governs the given scope.
pub open spec fn rule_for(owner: Owner, rules: AttributeRules) -> AttrRule {
    match owner {
        Owner::Record => rules.record,
        Owner::Field => rules.field,
    }
}

/// What the filter yields: nothing, the existing annotations, the
/// replacement list, or the existing annotations followed by the additions.
pub open spec fn spec_filter(owner: Owner, existing: Seq<Attr>, rules: AttributeRules) -> Seq<
    Attr,
> {
    match rule_for(owner, rules) {
        AttrRule::Remove => Seq::empty(),
        AttrRule::Keep => existing,
        AttrRule::Replace { attrs } => attrs@,
        AttrRule::Add { attrs } => existing + attrs@,
    }
}

/// Copies a list of annotations.
fn clone_attrs(v: &Vec<Attr>) -> (r: Vec<Attr>)
    ensures
        r@ == v@,
{
    let mut r: Vec<Attr> = Vec::new();
    let mut i: usize = 0;
    while i < v.len()
        invariant
            0 <= i <= v.len(),
            r@ == v@.subrange(0, i as int),
        decreases v.len() - i,
    {
        r.push(v[i].clone());
        i = i + 1;
        proof {
            assert(r@ =~= v@.subrange(0, i as int));
        }
    }
    proof {
        assert(r@ =~= v@);
    }
    r
}

/// Produces the annotations of the generated entity from the existing ones
/// and the configured rules for the given scope.
pub fn generate(owner: Owner, existing: &Vec<Attr>, rules: &AttributeRules) -> (r: Vec<Attr>)
    ensures
        r@ == spec_filter(owner, existing@, *rules),
{
    let rule = match owner {
        Owner::Record => &rules.record,
        Owner::Field => &rules.field,
    };
    match rule {
        AttrRule::Remove => {
            let r: Vec<Attr> = Vec::new();
            proof {
                assert(r@ =~= spec_filter(owner, existing@, *rules));
            }
            r
        },
        AttrRule::Keep => clone_attrs(existing),
        AttrRule::Replace { attrs } => clone_attrs(attrs),
        AttrRule::Add { attrs } => {
            let mut r = clone_attrs(existing);
            let mut added = clone_attrs(attrs);
            r.append(&mut added);
            proof {
                assert(r@ =~= spec_filter(owner, existing@, *rules));
            }
            r
        },
    }
}

} // verus!
