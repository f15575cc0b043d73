//! What a generated method computes, and the laws that hold of it for every
//! item and every pair of values.
//!
//! A value of the described type is modelled by the index of its variant
//! and the contents of its fields; a field's content is an integer, on
//! which equality, order and hashing are the integer's own.

use vstd::prelude::*;
use crate::body::{others_for, generated, spec_order, spec_other, Arm, Body, Binding, Comparison, CrossArm, Order};
use crate::capability::Trait;
use crate::item::Item;

verus! {

/// A value of the described type.
pub struct Instance {
    /// Index of the value's variant; 0 for a record.
    pub variant: int,
    /// The contents of its fields, in declaration order.
    pub fields: Seq<int>,
}

/// Whether `x` is a value of `item`: one of its variants, with a content
/// for each of that variant's fields.
pub open spec fn instance_of(item: Item, x: Instance) -> bool {
    &&& 0 <= x.variant < item.spec_variants().len()
    &&& x.fields.len() == item.spec_variants()[x.variant].fields.spec_len()
}

/// The first of `arms[from..]` that matches the variant.
pub open spec fn select(arms: Seq<Arm>, variant: int, from: int) -> Option<Arm>
    decreases arms.len() - from,
{
    if from < 0 || from >= arms.len() {
        None
    } else if arms[from].variant == variant {
        Some(arms[from])
    } else {
        select(arms, variant, from + 1)
    }
}

/// The answer of the first of `others[from..]` that matches the variant.
pub open spec fn answer(others: Seq<CrossArm>, variant: int, from: int) -> Option<Order>
    decreases others.len() - from,
{
    if from < 0 || from >= others.len() {
        None
    } else if others[from].variant == variant {
        Some(others[from].result)
    } else {
        answer(others, variant, from + 1)
    }
}

/// Whether each bound field holds the same in `x` and in `y`: the
/// conjunction of the fields' equalities.
pub open spec fn all_equal(bindings: Seq<Binding>, x: Seq<int>, y: Seq<int>) -> bool {
    forall|k: int|
        0 <= k < bindings.len() ==> x[(#[trigger] bindings[k]).field as int]
            == y[bindings[k].field as int]
}

/// The contents of the bound fields, in the order of the bindings.
pub open spec fn visited(bindings: Seq<Binding>, x: Seq<int>) -> Seq<int> {
    Seq::new(bindings.len(), |k: int| x[bindings[k].field as int])
}

impl Comparison {
    /// The outcome of the chain on the fields `x` and `y`: that of the
    /// first compared field that differs, else `Equal`.
    pub open spec fn eval(self, x: Seq<int>, y: Seq<int>) -> Order
        decreases self,
    {
        match self {
            Comparison::Equal => Order::Equal,
            Comparison::Field { field, rest } => if x[field as int] == y[field as int] {
                rest.eval(x, y)
            } else {
                spec_order(x[field as int], y[field as int])
            },
        }
    }
}

impl Body {
    /// What generated equality says of `x` and `y`: values of different
    /// variants are unequal without a look at their fields.
    pub open spec fn eq_of(self, x: Instance, y: Instance) -> bool {
        x.variant == y.variant && match select(self.arms@, x.variant, 0) {
            Some(arm) => all_equal(arm.bindings@, x.fields, y.fields),
            None => false,
        }
    }

    /// What a generated ordering says of `x` and `y`; `None` where no arm
    /// applies. A partial order hands the same outcome out as a success.
    pub open spec fn ord_of(self, x: Instance, y: Instance) -> Option<Order> {
        match select(self.arms@, x.variant, 0) {
            Some(arm) => if y.variant == arm.variant {
                Some(arm.comparison.eval(x.fields, y.fields))
            } else {
                answer(arm.others@, y.variant, 0)
            },
            None => None,
        }
    }

    /// What generated hashing feeds to the hasher for `x`: for an enum the
    /// discriminant first, then the visited fields in declaration order.
    pub open spec fn hash_of(self, x: Instance) -> Seq<int> {
        let first = if self.is_enum {
            seq![x.variant]
        } else {
            Seq::<int>::empty()
        };
        match select(self.arms@, x.variant, 0) {
            Some(arm) => first + visited(arm.bindings@, x.fields),
            None => first,
        }
    }

    /// What generated duplication makes of `x`; `None` where no arm applies.
    pub open spec fn clone_of(self, x: Instance) -> Option<Instance> {
        match select(self.arms@, x.variant, 0) {
            Some(arm) => Some(
                Instance { variant: arm.variant as int, fields: visited(arm.bindings@, x.fields) },
            ),
            None => None,
        }
    }
}

/// Where the arm at each position matches the variant of that index, the
/// arm selected for a variant is the one at its index.
pub proof fn lemma_select(arms: Seq<Arm>, variant: int, from: int)
    requires
        forall|i: int| 0 <= i < arms.len() ==> (#[trigger] arms[i]).variant == i,
        0 <= from <= variant < arms.len(),
    ensures
        select(arms, variant, from) == Some(arms[variant]),
    decreases variant - from,
{
    if from < variant {
        lemma_select(arms, variant, from + 1);
    }
}

/// Among the answers of the variant `index` of `count`, the one for
/// another variant `other` is the order of the two indices.
pub proof fn lemma_answer(others: Seq<CrossArm>, index: usize, count: usize, other: int, from: int)
    requires
        others_for(others, Some((index, count))),
        index < count,
        0 <= other < count,
        other != index,
        0 <= from <= (if other < index {
            other
        } else {
            other - 1
        }),
    ensures
        answer(others, other, from) == Some(spec_order(index as int, other)),
    decreases others.len() - from,
{
    let at = if other < index {
        other
    } else {
        other - 1
    };
    assert(others[at].variant == spec_other(index as int, at));
    if from < at {
        assert(others[from].variant == spec_other(index as int, from));
        lemma_answer(others, index, count, other, from + 1);
    }
}

/// A chain over the fields `from..n` is the lexicographic order of those
/// fields: it says `Equal` exactly where they all agree, and else what the
/// first differing field says.
pub proof fn lemma_chain(chain: Comparison, from: int, n: int, x: Seq<int>, y: Seq<int>)
    requires
        chain.is_chain(from, n),
        0 <= from,
    ensures
        (chain.eval(x, y) == Order::Equal) <==> (forall|k: int| from <= k < n ==> x[k] == y[k]),
        forall|k: int|
            from <= k < n && x[k] != y[k] && (forall|j: int| from <= j < k ==> x[j] == y[j])
                ==> chain.eval(x, y) == spec_order(x[k], y[k]),
    decreases chain,
{
    match chain {
        Comparison::Equal => {},
        Comparison::Field { field, rest } => {
            lemma_chain(*rest, from + 1, n, x, y);
            if x[from] == y[from] {
                assert forall|k: int|
                    from <= k < n && x[k] != y[k] && (forall|j: int|
                        from <= j < k ==> x[j] == y[j]) implies chain.eval(x, y) == spec_order(
                    x[k],
                    y[k],
                ) by {
                    assert(from + 1 <= k);
                }
            } else {
                assert forall|k: int|
                    from <= k < n && x[k] != y[k] && (forall|j: int|
                        from <= j < k ==> x[j] == y[j]) implies chain.eval(x, y) == spec_order(
                    x[k],
                    y[k],
                ) by {
                    if from < k {
                        assert(x[from] == y[from]);
                    }
                }
            }
        },
    }
}

/// Every generated method but a marker's has, for each value of the item,
/// the arm of the value's variant.
pub proof fn lemma_arm(body: Body, trait_: Trait, item: Item, x: Instance)
    requires
        generated(body, trait_, item),
        !trait_.is_marker(),
        instance_of(item, x),
    ensures
        select(body.arms@, x.variant, 0) == Some(body.arms@[x.variant]),
        body.arms@[x.variant].variant == x.variant,
        body.arms@[x.variant].bindings@.len() == x.fields.len(),
        forall|k: int|
            0 <= k < x.fields.len() ==> (#[trigger] body.arms@[x.variant].bindings@[k]).field == k,
{
    assert(body.arms@.len() == body.arms.len());
    assert forall|i: int| 0 <= i < body.arms@.len() implies (#[trigger] body.arms@[i]).variant
        == i by {
        match item {
            Item::Item(data) => {
                assert(item.spec_variants().len() == 1);
            },
            Item::Enum { variants, .. } => {
                assert(i as usize == i);
            },
        }
    }
    lemma_select(body.arms@, x.variant, 0);
}

/// Generated equality and generated ordering agree: two values are equal
/// under the one exactly where the other says `Equal`, whatever the item
/// and whatever the fields hold.
pub proof fn law_equality_agrees_with_order(
    item: Item,
    equality: Body,
    ordering: Body,
    trait_: Trait,
    x: Instance,
    y: Instance,
)
    requires
        trait_.is_ordering(),
        generated(equality, Trait::PartialEq, item),
        generated(ordering, trait_, item),
        instance_of(item, x),
        instance_of(item, y),
    ensures
        equality.eq_of(x, y) <==> ordering.ord_of(x, y) == Some(Order::Equal),
{
    lemma_arm(equality, Trait::PartialEq, item, x);
    lemma_arm(ordering, trait_, item, x);
    let e = equality.arms@[x.variant];
    let o = ordering.arms@[x.variant];
    if x.variant == y.variant {
        lemma_chain(o.comparison, 0, x.fields.len() as int, x.fields, y.fields);
        if all_equal(e.bindings@, x.fields, y.fields) {
            assert forall|k: int| 0 <= k < x.fields.len() implies x.fields[k] == y.fields[k] by {
                assert(e.bindings@[k].field == k);
            }
        }
    } else {
        law_declaration_order(item, ordering, trait_, x, y);
    }
}

/// Values that generated equality calls equal feed the same to the hasher.
pub proof fn law_equal_values_hash_alike(
    item: Item,
    equality: Body,
    hashing: Body,
    x: Instance,
    y: Instance,
)
    requires
        generated(equality, Trait::PartialEq, item),
        generated(hashing, Trait::Hash, item),
        instance_of(item, x),
        instance_of(item, y),
        equality.eq_of(x, y),
    ensures
        hashing.hash_of(x) == hashing.hash_of(y),
{
    lemma_arm(equality, Trait::PartialEq, item, x);
    lemma_arm(hashing, Trait::Hash, item, x);
    let e = equality.arms@[x.variant];
    let h = hashing.arms@[x.variant];
    assert forall|k: int| 0 <= k < h.bindings@.len() implies x.fields[h.bindings@[k].field as int]
        == y.fields[h.bindings@[k].field as int] by {
        assert(h.bindings@[k].field == k);
        assert(e.bindings@[k].field == k);
    }
    assert(visited(h.bindings@, x.fields) =~= visited(h.bindings@, y.fields));
}

/// Variants are ordered by declaration alone: between values of different
/// variants a generated ordering gives the order of the variants'
/// indices, so every value of an earlier variant is `Less` than every
/// value of a later one, whatever the fields hold.
pub proof fn law_declaration_order(item: Item, ordering: Body, trait_: Trait, x: Instance, y: Instance)
    requires
        trait_.is_ordering(),
        generated(ordering, trait_, item),
        instance_of(item, x),
        instance_of(item, y),
        x.variant != y.variant,
    ensures
        ordering.ord_of(x, y) == Some(spec_order(x.variant, y.variant)),
        x.variant < y.variant ==> ordering.ord_of(x, y) == Some(Order::Less),
{
    lemma_arm(ordering, trait_, item, x);
    let o = ordering.arms@[x.variant];
    match item {
        Item::Item(_) => {},
        Item::Enum { variants, .. } => {
            assert(variants@.len() == variants.len());
            assert(ordering.arms@.len() == variants@.len());
            assert(x.variant as usize == x.variant);
            lemma_answer(o.others@, x.variant as usize, variants@.len() as usize, y.variant, 0);
        },
    }
}

/// A duplicate is the value itself, and so equal to it under generated
/// equality.
pub proof fn law_duplicate_is_equal(item: Item, duplication: Body, equality: Body, x: Instance)
    requires
        generated(duplication, Trait::Clone, item),
        generated(equality, Trait::PartialEq, item),
        instance_of(item, x),
    ensures
        duplication.clone_of(x) == Some(x),
        equality.eq_of(duplication.clone_of(x)->Some_0, x),
{
    lemma_arm(duplication, Trait::Clone, item, x);
    lemma_arm(equality, Trait::PartialEq, item, x);
    let d = duplication.arms@[x.variant];
    assert(visited(d.bindings@, x.fields) =~= x.fields);
}

/// With a single variant a generated ordering never answers for another
/// variant: its arm holds the chain alone.
pub proof fn law_single_variant(item: Item, ordering: Body, trait_: Trait)
    requires
        trait_.is_ordering(),
        generated(ordering, trait_, item),
        item.spec_variants().len() == 1,
    ensures
        ordering.arms@.len() == 1,
        ordering.arms@[0].others@.len() == 0,
{
    let arm = ordering.arms@[0];
    assert(others_for(arm.others@, if item is Enum { Some((0usize, 1usize)) } else { None }));
}

} // verus!
