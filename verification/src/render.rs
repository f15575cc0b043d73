//! The text of the generated code: patterns, arms, method signatures and
//! implementation blocks.

use vstd::prelude::*;
use vstd::string::StringSliceAdditionalSpecFns;
use crate::body::{generated, Arm, Binding, Body, Comparison, CrossArm, Order, Style};
use crate::bounds::{Predicate, PredicateView, predicate_views};
use crate::capability::Trait;
use crate::item::Item;
use crate::text::{append, copy, join, push, spec_join, texts};

verus! {

/// What is written for one field of an arm.
#[derive(Clone, Copy, Debug, PartialEq, Eq, Structural)]
pub enum Part {
    /// The field's place in the pattern of this value.
    This,
    /// The field's place in the pattern of the other operand.
    Other,
    /// The field's duplicate.
    Duplicate,
    /// The field's entry in a textual dump.
    Dump,
    /// The field's contribution to a hash.
    Hash,
    /// The field's share of an equality.
    Same,
}

/// The text for one field, from its key and its two aliases.
pub open spec fn spec_field_part(
    part: Part,
    style: Style,
    key: Seq<u8>,
    this: Seq<u8>,
    other: Seq<u8>,
) -> Seq<u8> {
    match part {
        Part::This => if style == Style::Struct {
            key + ": ".spec_bytes() + this
        } else {
            this
        },
        Part::Other => if style == Style::Struct {
            key + ": ".spec_bytes() + other
        } else {
            other
        },
        Part::Duplicate => if style == Style::Struct {
            key + ": ::core::clone::Clone::clone(&".spec_bytes() + this + ")".spec_bytes()
        } else {
            "::core::clone::Clone::clone(&".spec_bytes() + this + ")".spec_bytes()
        },
        Part::Dump => if style == Style::Struct {
            "::core::fmt::DebugStruct::field(&mut __builder, \"".spec_bytes() + key
                + "\", ".spec_bytes() + this + ");".spec_bytes()
        } else {
            "::core::fmt::DebugTuple::field(&mut __builder, ".spec_bytes() + this
                + ");".spec_bytes()
        },
        Part::Hash => "::core::hash::Hash::hash(".spec_bytes() + this
            + ", __state);".spec_bytes(),
        Part::Same => "__cmp &= ::core::cmp::PartialEq::eq(".spec_bytes() + this
            + ", ".spec_bytes() + other + ");".spec_bytes(),
    }
}

/// Writes the text for one field.
pub fn field_part(part: Part, style: Style, binding: &Binding) -> (r: Vec<u8>)
    ensures
        r@ == spec_field_part(part, style, binding.key@, binding.this@, binding.other@),
{
    let named = match style {
        Style::Struct => true,
        _ => false,
    };
    match part {
        Part::This => if named {
            let mut out = copy(binding.key.as_slice());
            push(&mut out, ": ");
            append(&mut out, &binding.this);
            out
        } else {
            copy(binding.this.as_slice())
        },
        Part::Other => if named {
            let mut out = copy(binding.key.as_slice());
            push(&mut out, ": ");
            append(&mut out, &binding.other);
            out
        } else {
            copy(binding.other.as_slice())
        },
        Part::Duplicate => if named {
            let mut out = copy(binding.key.as_slice());
            push(&mut out, ": ::core::clone::Clone::clone(&");
            append(&mut out, &binding.this);
            push(&mut out, ")");
            out
        } else {
            let mut out = copy("::core::clone::Clone::clone(&".as_bytes());
            append(&mut out, &binding.this);
            push(&mut out, ")");
            out
        },
        Part::Dump => if named {
            let mut out = copy("::core::fmt::DebugStruct::field(&mut __builder, \"".as_bytes());
            append(&mut out, &binding.key);
            push(&mut out, "\", ");
            append(&mut out, &binding.this);
            push(&mut out, ");");
            out
        } else {
            let mut out = copy("::core::fmt::DebugTuple::field(&mut __builder, ".as_bytes());
            append(&mut out, &binding.this);
            push(&mut out, ");");
            out
        },
        Part::Hash => {
            let mut out = copy("::core::hash::Hash::hash(".as_bytes());
            append(&mut out, &binding.this);
            push(&mut out, ", __state);");
            out
        },
        Part::Same => {
            let mut out = copy("__cmp &= ::core::cmp::PartialEq::eq(".as_bytes());
            append(&mut out, &binding.this);
            push(&mut out, ", ");
            append(&mut out, &binding.other);
            push(&mut out, ");");
            out
        },
    }
}

/// The texts for the fields of an arm, in declaration order.
pub open spec fn spec_field_parts(part: Part, style: Style, bindings: Seq<Binding>) -> Seq<Seq<u8>> {
    Seq::new(
        bindings.len(),
        |k: int|
            spec_field_part(part, style, bindings[k].key@, bindings[k].this@, bindings[k].other@),
    )
}

/// Writes the texts for the fields of an arm.
pub fn field_parts(part: Part, arm: &Arm) -> (r: Vec<Vec<u8>>)
    ensures
        texts(r@) == spec_field_parts(part, arm.style, arm.bindings@),
{
    let mut parts: Vec<Vec<u8>> = Vec::new();
    let mut k: usize = 0;
    while k < arm.bindings.len()
        invariant
            k <= arm.bindings.len(),
            parts@.len() == k,
            forall|j: int|
                0 <= j < k ==> (#[trigger] parts@[j])@ == spec_field_parts(
                    part,
                    arm.style,
                    arm.bindings@,
                )[j],
        decreases arm.bindings.len() - k,
    {
        parts.push(field_part(part, arm.style, &arm.bindings[k]));
        k += 1;
    }
    assert(texts(parts@) =~= spec_field_parts(part, arm.style, arm.bindings@));
    parts
}

/// The path that names a variant in a pattern: `Self` for a record, and
/// `Self::` with the variant's name for a variant of an enum.
pub open spec fn spec_variant_path(item: Item, variant: int) -> Seq<u8> {
    match item {
        Item::Item(_) => "Self".spec_bytes(),
        Item::Enum { variants, .. } => "Self::".spec_bytes() + variants@[variant].ident@,
    }
}

/// The name under which a variant appears in a textual dump.
pub open spec fn spec_variant_name(item: Item, variant: int) -> Seq<u8> {
    item.spec_variants()[variant].ident@
}

/// Writes the path that names a variant in a pattern.
pub fn variant_path(item: &Item, variant: usize) -> (r: Vec<u8>)
    requires
        variant < item.spec_variants().len(),
    ensures
        r@ == spec_variant_path(*item, variant as int),
{
    match item {
        Item::Item(_) => copy("Self".as_bytes()),
        Item::Enum { variants, .. } => {
            let mut out = copy("Self::".as_bytes());
            append(&mut out, &variants[variant].ident);
            out
        },
    }
}

/// Returns the name under which a variant appears in a textual dump.
pub fn variant_name(item: &Item, variant: usize) -> (r: Vec<u8>)
    requires
        variant < item.spec_variants().len(),
    ensures
        r@ == spec_variant_name(*item, variant as int),
{
    match item {
        Item::Item(data) => {
            assert(item.spec_variants()[0] == *data);
            copy(data.ident.as_slice())
        },
        Item::Enum { variants, .. } => copy(variants[variant].ident.as_slice()),
    }
}

/// A variant written with its fields: in braces, in parentheses, or bare.
pub open spec fn spec_shape(path: Seq<u8>, style: Style, fields: Seq<Seq<u8>>) -> Seq<u8> {
    match style {
        Style::Struct => path + " { ".spec_bytes() + spec_join(fields, ", ".spec_bytes())
            + " }".spec_bytes(),
        Style::Tuple => path + "(".spec_bytes() + spec_join(fields, ", ".spec_bytes())
            + ")".spec_bytes(),
        Style::Unit => path,
    }
}

/// Writes a variant with the given text for each of its fields.
pub fn shape(path: &Vec<u8>, part: Part, arm: &Arm) -> (r: Vec<u8>)
    ensures
        r@ == spec_shape(path@, arm.style, spec_field_parts(part, arm.style, arm.bindings@)),
{
    let mut out = copy(path.as_slice());
    match arm.style {
        Style::Struct => {
            let fields = join(&field_parts(part, arm), ", ");
            push(&mut out, " { ");
            append(&mut out, &fields);
            push(&mut out, " }");
        },
        Style::Tuple => {
            let fields = join(&field_parts(part, arm), ", ");
            push(&mut out, "(");
            append(&mut out, &fields);
            push(&mut out, ")");
        },
        Style::Unit => {},
    }
    out
}

/// The text of an outcome: bare for a total order, as a success for a
/// partial one.
pub open spec fn spec_order_text(order: Order, partial: bool) -> Seq<u8> {
    if partial {
        match order {
            Order::Less => "::core::option::Option::Some(::core::cmp::Ordering::Less)".spec_bytes(),
            Order::Equal => "::core::option::Option::Some(::core::cmp::Ordering::Equal)".spec_bytes(),
            Order::Greater => "::core::option::Option::Some(::core::cmp::Ordering::Greater)".spec_bytes(),
        }
    } else {
        match order {
            Order::Less => "::core::cmp::Ordering::Less".spec_bytes(),
            Order::Equal => "::core::cmp::Ordering::Equal".spec_bytes(),
            Order::Greater => "::core::cmp::Ordering::Greater".spec_bytes(),
        }
    }
}

/// Writes the text of an outcome.
pub fn order_text(order: Order, partial: bool) -> (r: Vec<u8>)
    ensures
        r@ == spec_order_text(order, partial),
{
    let text = if partial {
        match order {
            Order::Less => "::core::option::Option::Some(::core::cmp::Ordering::Less)",
            Order::Equal => "::core::option::Option::Some(::core::cmp::Ordering::Equal)",
            Order::Greater => "::core::option::Option::Some(::core::cmp::Ordering::Greater)",
        }
    } else {
        match order {
            Order::Less => "::core::cmp::Ordering::Less",
            Order::Equal => "::core::cmp::Ordering::Equal",
            Order::Greater => "::core::cmp::Ordering::Greater",
        }
    };
    copy(text.as_bytes())
}

/// One step of a comparison chain: compare a field, go on with `rest`
/// where it is equal, and hand any other outcome out.
pub open spec fn spec_step_text(this: Seq<u8>, other: Seq<u8>, rest: Seq<u8>, partial: bool) -> Seq<
    u8,
> {
    (if partial {
        "match ::core::cmp::PartialOrd::partial_cmp(".spec_bytes()
    } else {
        "match ::core::cmp::Ord::cmp(".spec_bytes()
    }) + this + ", ".spec_bytes() + other + ") { ".spec_bytes() + spec_order_text(
        Order::Equal,
        partial,
    ) + " => ".spec_bytes() + rest + ", __cmp => __cmp, }".spec_bytes()
}

/// Writes one step of a comparison chain.
pub fn step_text(this: &Vec<u8>, other: &Vec<u8>, rest: &Vec<u8>, partial: bool) -> (r: Vec<u8>)
    ensures
        r@ == spec_step_text(this@, other@, rest@, partial),
{
    let mut out = if partial {
        copy("match ::core::cmp::PartialOrd::partial_cmp(".as_bytes())
    } else {
        copy("match ::core::cmp::Ord::cmp(".as_bytes())
    };
    append(&mut out, this);
    push(&mut out, ", ");
    append(&mut out, other);
    push(&mut out, ") { ");
    let equal = order_text(Order::Equal, partial);
    append(&mut out, &equal);
    push(&mut out, " => ");
    append(&mut out, rest);
    push(&mut out, ", __cmp => __cmp, }");
    out
}

/// The text of a comparison chain over the aliases of `bindings`.
pub open spec fn spec_chain_text(chain: Comparison, bindings: Seq<Binding>, partial: bool) -> Seq<u8>
    decreases chain,
{
    match chain {
        Comparison::Equal => spec_order_text(Order::Equal, partial),
        Comparison::Field { field, rest } => spec_step_text(
            bindings[field as int].this@,
            bindings[field as int].other@,
            spec_chain_text(*rest, bindings, partial),
            partial,
        ),
    }
}

/// Writes a comparison chain that compares the fields from `from` on.
pub fn chain_text(chain: &Comparison, bindings: &Vec<Binding>, from: usize, partial: bool) -> (r:
    Vec<u8>)
    requires
        chain.is_chain(from as int, bindings@.len() as int),
    ensures
        r@ == spec_chain_text(*chain, bindings@, partial),
    decreases chain,
{
    match chain {
        Comparison::Equal => order_text(Order::Equal, partial),
        Comparison::Field { field, rest } => {
            assert(from < bindings.len());
            let inner = chain_text(rest, bindings, from + 1, partial);
            step_text(&bindings[*field].this, &bindings[*field].other, &inner, partial)
        },
    }
}

/// The arm that answers for an operand of another variant, whatever its
/// fields hold.
pub open spec fn spec_cross_text(item: Item, cross: CrossArm, partial: bool) -> Seq<u8> {
    spec_variant_path(item, cross.variant as int) + " { .. } => ".spec_bytes() + spec_order_text(
        cross.result,
        partial,
    ) + ",".spec_bytes()
}

/// The arms that answer for the other variants.
pub open spec fn spec_cross_parts(item: Item, others: Seq<CrossArm>, partial: bool) -> Seq<Seq<u8>> {
    Seq::new(others.len(), |k: int| spec_cross_text(item, others[k], partial))
}

/// Whether each of `others` speaks of a variant of `item`.
pub open spec fn others_within(item: Item, others: Seq<CrossArm>) -> bool {
    forall|k: int|
        0 <= k < others.len() ==> (#[trigger] others[k]).variant < item.spec_variants().len()
}

/// Writes the arms that answer for the other variants.
pub fn cross_parts(item: &Item, others: &Vec<CrossArm>, partial: bool) -> (r: Vec<Vec<u8>>)
    requires
        others_within(*item, others@),
    ensures
        texts(r@) == spec_cross_parts(*item, others@, partial),
{
    let mut parts: Vec<Vec<u8>> = Vec::new();
    let mut k: usize = 0;
    while k < others.len()
        invariant
            k <= others.len(),
            others_within(*item, others@),
            parts@.len() == k,
            forall|j: int|
                0 <= j < k ==> (#[trigger] parts@[j])@ == spec_cross_text(*item, others@[j], partial),
        decreases others.len() - k,
    {
        let mut out = variant_path(item, others[k].variant);
        push(&mut out, " { .. } => ");
        let outcome = order_text(others[k].result, partial);
        append(&mut out, &outcome);
        push(&mut out, ",");
        parts.push(out);
        k += 1;
    }
    assert(texts(parts@) =~= spec_cross_parts(*item, others@, partial));
    parts
}

/// Whether the text of `arm` can be written for `item`: its variant and
/// those of its answers are variants of `item`, and its chain compares
/// the fields that it binds.
pub open spec fn renderable(item: Item, arm: Arm) -> bool {
    &&& arm.variant < item.spec_variants().len()
    &&& others_within(item, arm.others@)
    &&& exists|from: int|
        0 <= from <= arm.bindings@.len() && #[trigger] arm.comparison.is_chain(
            from,
            arm.bindings@.len() as int,
        )
}

/// The text of one dispatch arm of the method of `trait_`.
pub open spec fn spec_arm_text(trait_: Trait, item: Item, arm: Arm) -> Seq<u8> {
    let path = spec_variant_path(item, arm.variant as int);
    let name = spec_variant_name(item, arm.variant as int);
    let this = spec_shape(path, arm.style, spec_field_parts(Part::This, arm.style, arm.bindings@));
    let other = spec_shape(path, arm.style, spec_field_parts(Part::Other, arm.style, arm.bindings@));
    match trait_ {
        Trait::Clone => this + " => ".spec_bytes() + spec_shape(
            path,
            arm.style,
            spec_field_parts(Part::Duplicate, arm.style, arm.bindings@),
        ) + ",".spec_bytes(),
        Trait::Copy => Seq::empty(),
        Trait::Debug => spec_dump_text(
            this,
            name,
            arm.style,
            spec_join(spec_field_parts(Part::Dump, arm.style, arm.bindings@), " ".spec_bytes()),
        ),
        Trait::Eq => Seq::empty(),
        Trait::Hash => this + " => { ".spec_bytes() + spec_join(
            spec_field_parts(Part::Hash, arm.style, arm.bindings@),
            " ".spec_bytes(),
        ) + " }".spec_bytes(),
        Trait::Ord => spec_ordering_text(
            this,
            other,
            spec_chain_text(arm.comparison, arm.bindings@, false),
            spec_join(spec_cross_parts(item, arm.others@, false), " ".spec_bytes()),
        ),
        Trait::PartialEq => "(".spec_bytes() + this + ", ".spec_bytes() + other
            + ") => { ".spec_bytes() + spec_join(
            spec_field_parts(Part::Same, arm.style, arm.bindings@),
            " ".spec_bytes(),
        ) + " }".spec_bytes(),
        Trait::PartialOrd => spec_ordering_text(
            this,
            other,
            spec_chain_text(arm.comparison, arm.bindings@, true),
            spec_join(spec_cross_parts(item, arm.others@, true), " ".spec_bytes()),
        ),
    }
}

/// The arm of a textual dump: the variant's name as label, then each
/// field; a variant without a field list gives its bare name.
pub open spec fn spec_dump_text(this: Seq<u8>, name: Seq<u8>, style: Style, fields: Seq<u8>) -> Seq<u8> {
    match style {
        Style::Struct => this
            + " => { let mut __builder = ::core::fmt::Formatter::debug_struct(__f, \"".spec_bytes()
            + name + "\"); ".spec_bytes() + fields
            + " ::core::fmt::DebugStruct::finish(&mut __builder) }".spec_bytes(),
        Style::Tuple => this
            + " => { let mut __builder = ::core::fmt::Formatter::debug_tuple(__f, \"".spec_bytes()
            + name + "\"); ".spec_bytes() + fields
            + " ::core::fmt::DebugTuple::finish(&mut __builder) }".spec_bytes(),
        Style::Unit => this + " => ::core::fmt::Formatter::write_str(__f, \"".spec_bytes() + name
            + "\"),".spec_bytes(),
    }
}

/// Writes the arm of a textual dump.
pub fn dump_text(this: &Vec<u8>, name: &Vec<u8>, style: Style, fields: &Vec<u8>) -> (r: Vec<u8>)
    ensures
        r@ == spec_dump_text(this@, name@, style, fields@),
{
    let mut out = copy(this.as_slice());
    match style {
        Style::Struct => {
            push(&mut out, " => { let mut __builder = ::core::fmt::Formatter::debug_struct(__f, \"");
            append(&mut out, name);
            push(&mut out, "\"); ");
            append(&mut out, fields);
            push(&mut out, " ::core::fmt::DebugStruct::finish(&mut __builder) }");
        },
        Style::Tuple => {
            push(&mut out, " => { let mut __builder = ::core::fmt::Formatter::debug_tuple(__f, \"");
            append(&mut out, name);
            push(&mut out, "\"); ");
            append(&mut out, fields);
            push(&mut out, " ::core::fmt::DebugTuple::finish(&mut __builder) }");
        },
        Style::Unit => {
            push(&mut out, " => ::core::fmt::Formatter::write_str(__f, \"");
            append(&mut out, name);
            push(&mut out, "\"),");
        },
    }
    out
}

/// The arm of an ordering: against the same variant the chain, against
/// the other variants their fixed answers.
pub open spec fn spec_ordering_text(this: Seq<u8>, other: Seq<u8>, chain: Seq<u8>, others: Seq<u8>) -> Seq<
    u8,
> {
    this + " => { match __other { ".spec_bytes() + other + " => ".spec_bytes() + chain
        + ", ".spec_bytes() + others + " } }".spec_bytes()
}

/// Writes the arm of an ordering.
pub fn ordering_text(this: &Vec<u8>, other: &Vec<u8>, chain: &Vec<u8>, others: &Vec<u8>) -> (r: Vec<
    u8,
>)
    ensures
        r@ == spec_ordering_text(this@, other@, chain@, others@),
{
    let mut out = copy(this.as_slice());
    push(&mut out, " => { match __other { ");
    append(&mut out, other);
    push(&mut out, " => ");
    append(&mut out, chain);
    push(&mut out, ", ");
    append(&mut out, others);
    push(&mut out, " } }");
    out
}

/// Finds where the chain of a renderable arm starts.
proof fn lemma_chain_start(chain: Comparison, from: int, n: int)
    requires
        chain.is_chain(from, n),
        0 <= from <= n,
    ensures
        chain is Equal ==> from == n,
        chain matches Comparison::Field { field, .. } ==> field == from,
{
}

/// Writes one dispatch arm of the method of `trait_`.
pub fn arm_text(trait_: Trait, item: &Item, arm: &Arm) -> (r: Vec<u8>)
    requires
        renderable(*item, *arm),
    ensures
        r@ == spec_arm_text(trait_, *item, *arm),
{
    let path = variant_path(item, arm.variant);
    let this = shape(&path, Part::This, arm);
    match trait_ {
        Trait::Clone => {
            let mut out = this;
            push(&mut out, " => ");
            let rebuilt = shape(&path, Part::Duplicate, arm);
            append(&mut out, &rebuilt);
            push(&mut out, ",");
            out
        },
        Trait::Copy => Vec::new(),
        Trait::Debug => {
            let name = variant_name(item, arm.variant);
            let fields = join(&field_parts(Part::Dump, arm), " ");
            dump_text(&this, &name, arm.style, &fields)
        },
        Trait::Eq => Vec::new(),
        Trait::Hash => {
            let mut out = this;
            push(&mut out, " => { ");
            let fields = join(&field_parts(Part::Hash, arm), " ");
            append(&mut out, &fields);
            push(&mut out, " }");
            out
        },
        Trait::Ord => {
            let other = shape(&path, Part::Other, arm);
            let chain = chain_of(arm, false);
            let others = join(&cross_parts(item, &arm.others, false), " ");
            ordering_text(&this, &other, &chain, &others)
        },
        Trait::PartialEq => {
            let mut out = copy("(".as_bytes());
            append(&mut out, &this);
            push(&mut out, ", ");
            let other = shape(&path, Part::Other, arm);
            append(&mut out, &other);
            push(&mut out, ") => { ");
            let fields = join(&field_parts(Part::Same, arm), " ");
            append(&mut out, &fields);
            push(&mut out, " }");
            out
        },
        Trait::PartialOrd => {
            let other = shape(&path, Part::Other, arm);
            let chain = chain_of(arm, true);
            let others = join(&cross_parts(item, &arm.others, true), " ");
            ordering_text(&this, &other, &chain, &others)
        },
    }
}

/// Writes the comparison chain of an arm.
pub fn chain_of(arm: &Arm, partial: bool) -> (r: Vec<u8>)
    requires
        exists|from: int|
            0 <= from <= arm.bindings@.len() && #[trigger] arm.comparison.is_chain(
                from,
                arm.bindings@.len() as int,
            ),
    ensures
        r@ == spec_chain_text(arm.comparison, arm.bindings@, partial),
{
    let ghost from = choose|from: int|
        0 <= from <= arm.bindings@.len() && #[trigger] arm.comparison.is_chain(
            from,
            arm.bindings@.len() as int,
        );
    proof {
        lemma_chain_start(arm.comparison, from, arm.bindings@.len() as int);
    }
    match &arm.comparison {
        Comparison::Equal => chain_text(&arm.comparison, &arm.bindings, arm.bindings.len(), partial),
        Comparison::Field { field, .. } => chain_text(&arm.comparison, &arm.bindings, *field, partial),
    }
}

/// The texts of the arms of a method.
pub open spec fn spec_arm_parts(trait_: Trait, item: Item, arms: Seq<Arm>) -> Seq<Seq<u8>> {
    Seq::new(arms.len(), |i: int| spec_arm_text(trait_, item, arms[i]))
}

/// What stands inside the dispatch of a method: its arms, in order.
pub open spec fn spec_arms_text(item: Item, body: Body) -> Seq<u8> {
    spec_join(spec_arm_parts(body.trait_, item, body.arms@), " ".spec_bytes())
}

/// Every arm of a generated method can be written.
pub proof fn lemma_renderable(item: Item, body: Body, trait_: Trait, i: int)
    requires
        generated(body, trait_, item),
        0 <= i < body.arms@.len(),
    ensures
        renderable(item, body.arms@[i]),
{
    let arm = body.arms@[i];
    let n = arm.bindings@.len() as int;
    assert(body.arms@.len() == body.arms.len());
    match item {
        Item::Item(data) => {
            assert(item.spec_variants().len() == 1);
        },
        Item::Enum { variants, .. } => {
            assert(i as usize == i);
            assert(variants@.len() == variants.len());
        },
    }
    if trait_.is_ordering() {
        assert(arm.comparison.is_chain(0, n));
    } else {
        assert(arm.comparison.is_chain(0, 0));
        assert(arm.comparison.is_chain(n, n));
    }
}

/// Writes what stands inside the dispatch of a generated method.
pub fn arms_text(item: &Item, body: &Body) -> (r: Vec<u8>)
    requires
        exists|trait_: Trait| generated(*body, trait_, *item),
    ensures
        r@ == spec_arms_text(*item, *body),
{
    let mut parts: Vec<Vec<u8>> = Vec::new();
    let mut i: usize = 0;
    while i < body.arms.len()
        invariant
            i <= body.arms.len(),
            exists|trait_: Trait| generated(*body, trait_, *item),
            parts@.len() == i,
            forall|j: int|
                0 <= j < i ==> (#[trigger] parts@[j])@ == spec_arm_text(
                    body.trait_,
                    *item,
                    body.arms@[j],
                ),
        decreases body.arms.len() - i,
    {
        proof {
            let trait_ = choose|trait_: Trait| generated(*body, trait_, *item);
            lemma_renderable(*item, *body, trait_, i as int);
        }
        parts.push(arm_text(body.trait_, item, &body.arms[i]));
        i += 1;
    }
    assert(texts(parts@) =~= spec_arm_parts(body.trait_, *item, body.arms@));
    join(&parts, " ")
}

impl Trait {
    /// The method of the capability around the text of its arms; nothing
    /// for a marker. Hashing an enum feeds the discriminant first.
    pub open spec fn spec_signature(self, is_enum: bool, body: Seq<u8>) -> Seq<u8> {
        match self {
            Trait::Clone => "fn clone(&self) -> Self { match self { ".spec_bytes() + body
                + " } }".spec_bytes(),
            Trait::Copy => Seq::empty(),
            Trait::Debug => "fn fmt(&self, __f: &mut ::core::fmt::Formatter<'_>) -> ::core::fmt::Result { match self { ".spec_bytes()
                + body + " } }".spec_bytes(),
            Trait::Eq => Seq::empty(),
            Trait::Hash => (if is_enum {
                "fn hash<__H: ::core::hash::Hasher>(&self, __state: &mut __H) { ::core::hash::Hash::hash(&::core::mem::discriminant(self), __state); match self { ".spec_bytes()
            } else {
                "fn hash<__H: ::core::hash::Hasher>(&self, __state: &mut __H) { match self { ".spec_bytes()
            }) + body + " } }".spec_bytes(),
            Trait::Ord => "fn cmp(&self, __other: &Self) -> ::core::cmp::Ordering { match self { ".spec_bytes()
                + body + " } }".spec_bytes(),
            Trait::PartialEq => "fn eq(&self, __other: &Self) -> bool { if ::core::mem::discriminant(self) == ::core::mem::discriminant(__other) { let mut __cmp = true; match (self, __other) { ".spec_bytes()
                + body
                + " _ => { __cmp = false; } } __cmp } else { false } }".spec_bytes(),
            Trait::PartialOrd => "fn partial_cmp(&self, __other: &Self) -> ::core::option::Option<::core::cmp::Ordering> { match self { ".spec_bytes()
                + body + " } }".spec_bytes(),
        }
    }

    /// Build method signature of the corresponding capability around the
    /// text of its arms.
    pub fn build_signature(self, is_enum: bool, body: &Vec<u8>) -> (r: Vec<u8>)
        ensures
            r@ == self.spec_signature(is_enum, body@),
    {
        let mut out: Vec<u8>;
        match self {
            Trait::Clone => {
                out = copy("fn clone(&self) -> Self { match self { ".as_bytes());
                append(&mut out, body);
                push(&mut out, " } }");
            },
            Trait::Copy => {
                out = Vec::new();
            },
            Trait::Debug => {
                out = copy("fn fmt(&self, __f: &mut ::core::fmt::Formatter<'_>) -> ::core::fmt::Result { match self { ".as_bytes());
                append(&mut out, body);
                push(&mut out, " } }");
            },
            Trait::Eq => {
                out = Vec::new();
            },
            Trait::Hash => {
                out = if is_enum {
                    copy("fn hash<__H: ::core::hash::Hasher>(&self, __state: &mut __H) { ::core::hash::Hash::hash(&::core::mem::discriminant(self), __state); match self { ".as_bytes())
                } else {
                    copy("fn hash<__H: ::core::hash::Hasher>(&self, __state: &mut __H) { match self { ".as_bytes())
                };
                append(&mut out, body);
                push(&mut out, " } }");
            },
            Trait::Ord => {
                out = copy("fn cmp(&self, __other: &Self) -> ::core::cmp::Ordering { match self { ".as_bytes());
                append(&mut out, body);
                push(&mut out, " } }");
            },
            Trait::PartialEq => {
                out = copy("fn eq(&self, __other: &Self) -> bool { if ::core::mem::discriminant(self) == ::core::mem::discriminant(__other) { let mut __cmp = true; match (self, __other) { ".as_bytes());
                append(&mut out, body);
                push(&mut out, " _ => { __cmp = false; } } __cmp } else { false } }");
            },
            Trait::PartialOrd => {
                out = copy("fn partial_cmp(&self, __other: &Self) -> ::core::option::Option<::core::cmp::Ordering> { match self { ".as_bytes());
                append(&mut out, body);
                push(&mut out, " } }");
            },
        }
        out
    }
}

/// The text of one constraint, with the comma that ends it.
pub open spec fn spec_predicate_text(predicate: PredicateView) -> Seq<u8> {
    match predicate {
        PredicateView::Verbatim(text) => text + ",".spec_bytes(),
        PredicateView::Bound { ty, trait_ } => ty + ": ".spec_bytes() + trait_.spec_path()
            + ",".spec_bytes(),
    }
}

/// The text of a constraint clause; nothing where there is none.
pub open spec fn spec_where_text(clause: Option<Seq<PredicateView>>) -> Seq<u8> {
    match clause {
        Some(list) => " where ".spec_bytes() + spec_join(
            Seq::new(list.len(), |i: int| spec_predicate_text(list[i])),
            " ".spec_bytes(),
        ),
        None => Seq::empty(),
    }
}

/// Writes a constraint clause.
pub fn where_text(clause: &Option<Vec<Predicate>>) -> (r: Vec<u8>)
    ensures
        r@ == spec_where_text(crate::bounds::clause_view(*clause)),
{
    match clause {
        None => Vec::new(),
        Some(list) => {
            let mut parts: Vec<Vec<u8>> = Vec::new();
            let mut i: usize = 0;
            while i < list.len()
                invariant
                    i <= list.len(),
                    parts@.len() == i,
                    forall|j: int|
                        0 <= j < i ==> (#[trigger] parts@[j])@ == spec_predicate_text(list@[j]@),
                decreases list.len() - i,
            {
                let part = match &list[i] {
                    Predicate::Verbatim(text) => {
                        let mut out = copy(text.as_slice());
                        push(&mut out, ",");
                        out
                    },
                    Predicate::Bound { ty, trait_ } => {
                        let mut out = copy(ty.as_slice());
                        push(&mut out, ": ");
                        let path = trait_.path();
                        append(&mut out, &path);
                        push(&mut out, ",");
                        out
                    },
                };
                parts.push(part);
                i += 1;
            }
            assert(texts(parts@) =~= Seq::new(
                predicate_views(list@).len(),
                |i: int| spec_predicate_text(predicate_views(list@)[i]),
            ));
            let mut out = copy(" where ".as_bytes());
            let joined = join(&parts, " ");
            append(&mut out, &joined);
            out
        },
    }
}

} // verus!
