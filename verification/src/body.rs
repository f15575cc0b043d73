//! The body generator: for a capability and a shape, the structure of the
//! generated method, one dispatch arm per variant.

use vstd::prelude::*;
use vstd::string::StringSliceAdditionalSpecFns;
use crate::capability::Trait;
use crate::error::Error;
use crate::item::{Data, Fields, Item};
use crate::text::{concat, copy, decimal, spec_decimal};

verus! {

/// The outcome of a comparison.
#[derive(Clone, Copy, Debug, PartialEq, Eq, Structural)]
pub enum Order {
    /// The first operand comes first.
    Less,
    /// Neither comes first.
    Equal,
    /// The second operand comes first.
    Greater,
}

/// How the fields of a variant are written.
#[derive(Clone, Copy, Debug, PartialEq, Eq, Structural)]
pub enum Style {
    /// Named fields in braces.
    Struct,
    /// Positional fields in parentheses.
    Tuple,
    /// The bare name.
    Unit,
}

/// The names under which an arm sees one field.
#[derive(Debug, PartialEq, Eq)]
pub struct Binding {
    /// Position of the field in its variant.
    pub field: usize,
    /// What identifies the field: its name, or its position in decimal.
    pub key: Vec<u8>,
    /// Alias for the field of this value.
    pub this: Vec<u8>,
    /// Alias for the field of the other operand.
    pub other: Vec<u8>,
}

/// An ordering of two matching variants: a chain of field comparisons in
/// which the first unequal field decides.
#[derive(Debug, PartialEq, Eq)]
pub enum Comparison {
    /// Nothing is left to compare: the operands are equal.
    Equal,
    /// Compare this field; where it is equal, go on with `rest`.
    Field { field: usize, rest: Box<Comparison> },
}

/// The fixed answer for an operand of another variant.
#[derive(Debug, PartialEq, Eq)]
pub struct CrossArm {
    /// Index of the other operand's variant.
    pub variant: usize,
    /// The answer, whatever the fields hold.
    pub result: Order,
}

/// One dispatch arm: what the generated method does for one variant.
#[derive(Debug, PartialEq, Eq)]
pub struct Arm {
    /// Index of the variant that the arm matches; 0 for a record.
    pub variant: usize,
    /// How the variant's fields are written.
    pub style: Style,
    /// The fields that the arm visits, in declaration order.
    pub bindings: Vec<Binding>,
    /// For an ordering, the comparison against the same variant.
    pub comparison: Comparison,
    /// For an ordering of an enum, the answers against the other variants.
    pub others: Vec<CrossArm>,
}

/// The generated method of one capability for one item.
#[derive(Debug, PartialEq, Eq)]
pub struct Body {
    /// The capability.
    pub trait_: Trait,
    /// Whether the item is an enum, whose discriminant takes part.
    pub is_enum: bool,
    /// The arms, none for a marker.
    pub arms: Vec<Arm>,
}

/// How a field list is written.
pub open spec fn spec_style(fields: Fields) -> Style {
    match fields {
        Fields::Named(_) => Style::Struct,
        Fields::Unnamed(_) => Style::Tuple,
        Fields::Unit => Style::Unit,
    }
}

/// What identifies the field at position `k`.
pub open spec fn spec_key(fields: Fields, k: int) -> Seq<u8> {
    match fields {
        Fields::Named(names) => names@[k]@,
        Fields::Unnamed(_) => spec_decimal(k as nat),
        Fields::Unit => Seq::empty(),
    }
}

impl Binding {
    /// Whether this is the binding of the field at position `k`.
    pub open spec fn binds(self, fields: Fields, k: int) -> bool {
        &&& self.field == k
        &&& self.key@ == spec_key(fields, k)
        &&& self.this@ == "__".spec_bytes() + self.key@
        &&& self.other@ == "__other_".spec_bytes() + self.key@
    }
}

/// Whether `bindings` binds each field of `fields` once, in declaration order.
pub open spec fn bindings_for(bindings: Seq<Binding>, fields: Fields) -> bool {
    &&& bindings.len() == fields.spec_len()
    &&& forall|k: int| 0 <= k < bindings.len() ==> (#[trigger] bindings[k]).binds(fields, k)
}

impl Comparison {
    /// Whether the chain compares exactly the fields `from..n`, in that order.
    pub open spec fn is_chain(self, from: int, n: int) -> bool
        decreases self,
    {
        match self {
            Comparison::Equal => from >= n,
            Comparison::Field { field, rest } => from < n && field == from && rest.is_chain(
                from + 1,
                n,
            ),
        }
    }
}

/// The order of two variant indices: declaration order.
pub open spec fn spec_order(i: int, j: int) -> Order {
    if i < j {
        Order::Less
    } else if i == j {
        Order::Equal
    } else {
        Order::Greater
    }
}

/// Index of the `k`-th variant other than `index`.
pub open spec fn spec_other(index: int, k: int) -> int {
    if k < index {
        k
    } else {
        k + 1
    }
}

/// Whether `others` answers for every variant but `index`, each once and in
/// declaration order, by the order of the indices. Without variants there
/// is nothing to answer.
pub open spec fn others_for(others: Seq<CrossArm>, variants: Option<(usize, usize)>) -> bool {
    match variants {
        None => others.len() == 0,
        Some((index, count)) => {
            &&& others.len() == count - 1
            &&& forall|k: int|
                0 <= k < others.len() ==> (#[trigger] others[k]).variant == spec_other(
                    index as int,
                    k,
                ) && others[k].result == spec_order(index as int, spec_other(index as int, k))
        },
    }
}

/// The index of the variant that `variants` speaks of; 0 for a record.
pub open spec fn spec_index(variants: Option<(usize, usize)>) -> usize {
    match variants {
        Some((index, _)) => index,
        None => 0,
    }
}

/// Whether `arm` is the arm of `trait_` for a variant with these fields.
/// `variants` is the variant's index and the number of variants of its
/// enum, or `None` for a record.
pub open spec fn arm_is(arm: Arm, trait_: Trait, fields: Fields, variants: Option<(usize, usize)>) -> bool {
    &&& arm.variant == spec_index(variants)
    &&& arm.style == spec_style(fields)
    &&& bindings_for(arm.bindings@, fields)
    &&& arm.comparison.is_chain(
        0,
        if trait_.is_ordering() {
            fields.spec_len() as int
        } else {
            0
        },
    )
    &&& others_for(
        arm.others@,
        if trait_.is_ordering() {
            variants
        } else {
            None
        },
    )
}

/// Whether a method can be generated for the item: not for a union, and
/// not for a record without a field list.
pub open spec fn supported(item: Item) -> bool {
    match item {
        Item::Item(data) => !data.is_union && !(data.fields is Unit),
        Item::Enum { .. } => true,
    }
}

/// What `generate_body` hands to the arm of variant `i`.
pub open spec fn spec_variants_arg(item: Item, i: int) -> Option<(usize, usize)> {
    match item {
        Item::Item(_) => None,
        Item::Enum { variants, .. } => Some((i as usize, variants@.len() as usize)),
    }
}

/// Whether `body` is the method of `trait_` for `item`: no arm for a
/// marker, else one arm per variant, in declaration order.
pub open spec fn generated(body: Body, trait_: Trait, item: Item) -> bool {
    &&& body.trait_ == trait_
    &&& body.is_enum == item.spec_is_enum()
    &&& if trait_.is_marker() {
        body.arms@.len() == 0
    } else {
        &&& body.arms@.len() == item.spec_variants().len()
        &&& forall|i: int|
            0 <= i < body.arms@.len() ==> arm_is(
                #[trigger] body.arms@[i],
                trait_,
                item.spec_variants()[i].fields,
                spec_variants_arg(item, i),
            )
    }
}

/// Tests whether a method can be generated for the item.
pub fn is_supported(item: &Item) -> (r: bool)
    ensures
        r == supported(*item),
{
    match item {
        Item::Item(data) => {
            let unit = match data.fields {
                Fields::Unit => true,
                _ => false,
            };
            !data.is_union && !unit
        },
        Item::Enum { .. } => true,
    }
}

/// Builds the aliases of one field from its key.
pub fn bind(field: usize, key: Vec<u8>) -> (r: Binding)
    ensures
        r.field == field,
        r.key@ == key@,
        r.this@ == "__".spec_bytes() + key@,
        r.other@ == "__other_".spec_bytes() + key@,
{
    let this = concat("__".as_bytes(), key.as_slice());
    let other = concat("__other_".as_bytes(), key.as_slice());
    Binding { field, key, this, other }
}

impl Trait {
    /// Builds what an ordering needs for one variant with `fields` fields:
    /// the chain that compares two operands of that variant, and the fixed
    /// answers against the other variants. `variants` is the variant's
    /// index and the number of variants, or `None` for a record.
    ///
    /// The chain is built from the last field to the first, each step
    /// wrapping what follows, so that the first unequal field decides.
    pub fn prepare_ord(self, fields: usize, variants: Option<(usize, usize)>) -> (r: (
        Comparison,
        Vec<CrossArm>,
    ))
        requires
            self.is_ordering(),
            variants matches Some((index, count)) ==> index < count,
        ensures
            r.0.is_chain(0, fields as int),
            others_for(r.1@, variants),
    {
        let mut body = Comparison::Equal;
        let mut i: usize = fields;
        while i > 0
            invariant
                i <= fields,
                body.is_chain(i as int, fields as int),
            decreases i,
        {
            i -= 1;
            body = Comparison::Field { field: i, rest: Box::new(body) };
        }
        let mut other: Vec<CrossArm> = Vec::new();
        if let Some((variant, count)) = variants {
            let mut index: usize = 0;
            while index < count
                invariant
                    index <= count,
                    variant < count,
                    other@.len() == if index <= variant {
                        index as int
                    } else {
                        index - 1
                    },
                    forall|k: int|
                        0 <= k < other@.len() ==> (#[trigger] other@[k]).variant == spec_other(
                            variant as int,
                            k,
                        ) && other@[k].result == spec_order(
                            variant as int,
                            spec_other(variant as int, k),
                        ),
                decreases count - index,
            {
                if variant != index {
                    let result = if variant < index {
                        Order::Less
                    } else {
                        Order::Greater
                    };
                    other.push(CrossArm { variant: index, result });
                }
                index += 1;
            }
        }
        (body, other)
    }

    /// Finishes an arm from its bindings: an ordering gets its chain and
    /// its answers against the other variants, a marker gets no arm.
    fn build_arm(
        self,
        style: Style,
        bindings: Vec<Binding>,
        variants: Option<(usize, usize)>,
    ) -> (r: Option<Arm>)
        requires
            variants matches Some((index, count)) ==> index < count,
        ensures
            self.is_marker() ==> r is None,
            !self.is_marker() ==> (r matches Some(arm) && arm.variant == spec_index(variants)
                && arm.style == style && arm.bindings == bindings && arm.comparison.is_chain(
                0,
                if self.is_ordering() {
                    bindings@.len() as int
                } else {
                    0
                },
            ) && others_for(
                arm.others@,
                if self.is_ordering() {
                    variants
                } else {
                    None
                },
            )),
    {
        let variant = match variants {
            Some((index, _)) => index,
            None => 0,
        };
        match self {
            Trait::Copy => None,
            Trait::Eq => None,
            Trait::Ord => {
                let (comparison, others) = self.prepare_ord(bindings.len(), variants);
                Some(Arm { variant, style, bindings, comparison, others })
            },
            Trait::PartialOrd => {
                let (comparison, others) = self.prepare_ord(bindings.len(), variants);
                Some(Arm { variant, style, bindings, comparison, others })
            },
            _ => Some(
                Arm { variant, style, bindings, comparison: Comparison::Equal, others: Vec::new() },
            ),
        }
    }

    /// Builds the arm for a variant with named fields: each field is bound
    /// under aliases made from its name.
    pub fn build_for_struct(self, variants: Option<(usize, usize)>, fields: &Vec<Vec<u8>>) -> (r:
        Option<Arm>)
        requires
            variants matches Some((index, count)) ==> index < count,
        ensures
            self.is_marker() ==> r is None,
            !self.is_marker() ==> (r matches Some(arm) && arm_is(
                arm,
                self,
                Fields::Named(*fields),
                variants,
            )),
    {
        let mut bindings: Vec<Binding> = Vec::new();
        let mut k: usize = 0;
        while k < fields.len()
            invariant
                k <= fields.len(),
                bindings@.len() == k,
                forall|j: int|
                    0 <= j < k ==> (#[trigger] bindings@[j]).binds(Fields::Named(*fields), j),
            decreases fields.len() - k,
        {
            bindings.push(bind(k, copy(fields[k].as_slice())));
            k += 1;
        }
        self.build_arm(Style::Struct, bindings, variants)
    }

    /// Builds the arm for a variant with positional fields: each field is
    /// bound under aliases made from its position.
    pub fn build_for_tuple(self, variants: Option<(usize, usize)>, fields: usize) -> (r: Option<Arm>)
        requires
            variants matches Some((index, count)) ==> index < count,
        ensures
            self.is_marker() ==> r is None,
            !self.is_marker() ==> (r matches Some(arm) && arm_is(
                arm,
                self,
                Fields::Unnamed(fields),
                variants,
            )),
    {
        let mut bindings: Vec<Binding> = Vec::new();
        let mut k: usize = 0;
        while k < fields
            invariant
                k <= fields,
                bindings@.len() == k,
                forall|j: int|
                    0 <= j < k ==> (#[trigger] bindings@[j]).binds(Fields::Unnamed(fields), j),
            decreases fields - k,
        {
            bindings.push(bind(k, decimal(k as u64)));
            k += 1;
        }
        self.build_arm(Style::Tuple, bindings, variants)
    }

    /// Builds the arm for a variant without a field list.
    pub fn build_for_unit(self, variants: Option<(usize, usize)>) -> (r: Option<Arm>)
        requires
            variants matches Some((index, count)) ==> index < count,
        ensures
            self.is_marker() ==> r is None,
            !self.is_marker() ==> (r matches Some(arm) && arm_is(arm, self, Fields::Unit, variants)),
    {
        self.build_arm(Style::Unit, Vec::new(), variants)
    }

    /// Builds the arm for one record or variant, by the shape of its fields.
    pub fn build_for(self, variants: Option<(usize, usize)>, data: &Data) -> (r: Option<Arm>)
        requires
            variants matches Some((index, count)) ==> index < count,
        ensures
            self.is_marker() ==> r is None,
            !self.is_marker() ==> (r matches Some(arm) && arm_is(arm, self, data.fields, variants)),
    {
        match &data.fields {
            Fields::Named(fields) => self.build_for_struct(variants, fields),
            Fields::Unnamed(fields) => self.build_for_tuple(variants, *fields),
            Fields::Unit => self.build_for_unit(variants),
        }
    }

    /// Generates the method of this capability for `item`.
    ///
    /// A union and a record without a field list are refused. Otherwise a
    /// marker gets a method without arms, and any other capability one arm
    /// per variant, in declaration order; a record counts as one variant.
    pub fn generate_body(self, item: &Item) -> (r: Result<Body, Error>)
        ensures
            !supported(*item) ==> r == Err::<Body, Error>(Error::UnsupportedShape),
            supported(*item) ==> (r matches Ok(body) && generated(body, self, *item)),
    {
        if !is_supported(item) {
            return Err(Error::UnsupportedShape);
        }
        let mut arms: Vec<Arm> = Vec::new();
        match item {
            Item::Item(data) => {
                if let Some(arm) = self.build_for(None, data) {
                    arms.push(arm);
                }
                assert(item.spec_variants()[0] == *data);
            },
            Item::Enum { variants, .. } => {
                let count = variants.len();
                let mut index: usize = 0;
                while index < count
                    invariant
                        index <= count,
                        count == variants@.len(),
                        *item matches Item::Enum { variants: vs, .. } && vs == *variants,
                        self.is_marker() ==> arms@.len() == 0,
                        !self.is_marker() ==> arms@.len() == index,
                        forall|i: int|
                            0 <= i < arms@.len() ==> arm_is(
                                #[trigger] arms@[i],
                                self,
                                variants@[i].fields,
                                Some((i as usize, count)),
                            ),
                    decreases count - index,
                {
                    if let Some(arm) = self.build_for(Some((index, count)), &variants[index]) {
                        arms.push(arm);
                    }
                    index += 1;
                }
            },
        }
        Ok(Body { trait_: self, is_enum: item.is_enum(), arms })
    }
}

} // verus!
