use serde_json::Value;
use vstd::laws_cmp::obeys_cmp;
use vstd::prelude::*;

verus! {

#[verifier::external_type_specification]
#[verifier::external_body]
pub struct ExValue(Value);

/// A bag of extra JSON properties, keyed by name.
pub type Object = std::collections::BTreeMap<String, Value>;

/// The map `m` with the entries of `items` inserted in order, so that a later
/// entry wins over an earlier one with the same key.
pub open spec fn with_entries(m: Map<String, Value>, items: Seq<(String, Value)>) -> Map<
    String,
    Value,
>
    decreases items.len(),
{
    if items.len() == 0 {
        m
    } else {
        with_entries(m, items.drop_last()).insert(items.last().0, items.last().1)
    }
}

/// Inserts the entries of `items` into `object`, in order.
pub fn extend_object(object: &mut Object, items: Vec<(String, Value)>)
    ensures
        obeys_cmp::<String>() ==> final(object)@ == with_entries(old(object)@, items@),
{
    let mut rest = items;
    let ghost all = rest@;
    let ghost start = object@;
    let mut done: usize = 0;
    let total = rest.len();
    while rest.len() > 0
        invariant
            all.len() == total,
            done + rest@.len() == all.len(),
            rest@ == all.subrange(done as int, all.len() as int),
            obeys_cmp::<String>() ==> object@ == with_entries(start, all.subrange(0, done as int)),
        decreases rest@.len(),
    {
        let (key, value) = rest.remove(0);
        assert(all.subrange(0, done + 1).drop_last() == all.subrange(0, done as int));
        assert(all.subrange(0, done + 1).last() == (key, value));
        object.insert(key, value);
        done += 1;
        assert(rest@ == all.subrange(done as int, all.len() as int));
    }
    assert(all.subrange(0, done as int) == all);
}

} // verus!
