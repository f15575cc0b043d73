//! Running a generated method on concrete values: what the generated code
//! would answer, computed from its structure.

use vstd::prelude::*;
use vstd::string::StringSliceAdditionalSpecFns;
use crate::body::{generated, Arm, Body, Comparison, Order, Style};
use crate::capability::Trait;
use crate::item::Item;
use crate::semantics::{answer, instance_of, lemma_arm, select, visited, Instance};
use crate::text::{append, copy, join, push, signed, spec_join, spec_signed, texts};

verus! {

/// A concrete value of the described type, with integers in its fields.
#[derive(Debug, PartialEq, Eq)]
pub struct Value {
    /// Index of the value's variant; 0 for a record.
    pub variant: usize,
    /// The contents of its fields, in declaration order.
    pub fields: Vec<i64>,
}

impl View for Value {
    type V = Instance;

    open spec fn view(&self) -> Instance {
        Instance {
            variant: self.variant as int,
            fields: Seq::new(self.fields@.len(), |k: int| self.fields@[k] as int),
        }
    }
}

impl Comparison {
    /// Whether the chain compares only fields below `n`.
    pub open spec fn within(self, n: int) -> bool
        decreases self,
    {
        match self {
            Comparison::Equal => true,
            Comparison::Field { field, rest } => field < n && rest.within(n),
        }
    }

    /// Runs the chain on the fields of two values. `None` where it names
    /// a field that one of them lacks.
    pub fn run(&self, x: &Value, y: &Value) -> (r: Option<Order>)
        ensures
            r matches Some(o) ==> o == self.eval(x@.fields, y@.fields),
            self.within(x.fields@.len() as int) && self.within(y.fields@.len() as int) ==> r is Some,
        decreases self,
    {
        match self {
            Comparison::Equal => Some(Order::Equal),
            Comparison::Field { field, rest } => {
                if *field >= x.fields.len() || *field >= y.fields.len() {
                    return None;
                }
                let a = x.fields[*field];
                let b = y.fields[*field];
                if a == b {
                    rest.run(x, y)
                } else if a < b {
                    Some(Order::Less)
                } else {
                    Some(Order::Greater)
                }
            },
        }
    }
}

/// Whether every field that `arm` binds is below `n`.
pub open spec fn binds_within(arm: Arm, n: int) -> bool {
    forall|k: int| 0 <= k < arm.bindings@.len() ==> (#[trigger] arm.bindings@[k]).field < n
}

/// The dumped fields of a value: for named fields the key, a colon and
/// the content, for positional fields the content alone.
pub open spec fn spec_dump_parts(arm: Arm, fields: Seq<int>) -> Seq<Seq<u8>> {
    Seq::new(
        arm.bindings@.len(),
        |k: int|
            if arm.style == Style::Struct {
                arm.bindings@[k].key@ + ": ".spec_bytes() + spec_signed(
                    fields[arm.bindings@[k].field as int],
                )
            } else {
                spec_signed(fields[arm.bindings@[k].field as int])
            },
    )
}

/// The dump of a value under the label `name`: the bare label where no
/// field is visited, else the label and the fields in braces or in
/// parentheses.
pub open spec fn spec_dump(name: Seq<u8>, arm: Arm, fields: Seq<int>) -> Seq<u8> {
    if arm.bindings@.len() == 0 {
        name
    } else if arm.style == Style::Struct {
        name + " { ".spec_bytes() + spec_join(spec_dump_parts(arm, fields), ", ".spec_bytes())
            + " }".spec_bytes()
    } else {
        name + "(".spec_bytes() + spec_join(spec_dump_parts(arm, fields), ", ".spec_bytes())
            + ")".spec_bytes()
    }
}

impl Body {
    /// Whether the method can be run on `x`: the arm of its variant, if
    /// there is one, names only fields that `x` has.
    pub open spec fn admits(self, x: Instance) -> bool {
        match select(self.arms@, x.variant, 0) {
            Some(arm) => binds_within(arm, x.fields.len() as int) && arm.comparison.within(
                x.fields.len() as int,
            ),
            None => true,
        }
    }

    /// What a generated textual dump writes for `x`; `None` where no arm
    /// applies.
    pub open spec fn dump_of(self, item: Item, x: Instance) -> Option<Seq<u8>> {
        match select(self.arms@, x.variant, 0) {
            Some(arm) => Some(spec_dump(item.spec_variants()[x.variant].ident@, arm, x.fields)),
            None => None,
        }
    }

    /// Finds the first arm that matches the variant.
    pub fn arm_of(&self, variant: usize) -> (r: Option<usize>)
        ensures
            match r {
                Some(i) => i < self.arms@.len() && self.arms@[i as int].variant == variant
                    && select(self.arms@, variant as int, 0) == Some(self.arms@[i as int]),
                None => select(self.arms@, variant as int, 0) is None,
            },
    {
        let mut i: usize = 0;
        while i < self.arms.len()
            invariant
                i <= self.arms.len(),
                select(self.arms@, variant as int, 0) == select(self.arms@, variant as int, i as int),
            decreases self.arms.len() - i,
        {
            if self.arms[i].variant == variant {
                return Some(i);
            }
            i += 1;
        }
        None
    }

    /// Runs generated equality on two values. `None` where the method
    /// names a field that one of them lacks.
    pub fn equal(&self, x: &Value, y: &Value) -> (r: Option<bool>)
        ensures
            r matches Some(b) ==> b == self.eq_of(x@, y@),
            self.admits(x@) && self.admits(y@) ==> r is Some,
    {
        if x.variant != y.variant {
            return Some(false);
        }
        let arm = match self.arm_of(x.variant) {
            Some(i) => &self.arms[i],
            None => {
                return Some(false);
            },
        };
        let mut same = true;
        let mut k: usize = 0;
        while k < arm.bindings.len()
            invariant
                k <= arm.bindings.len(),
                select(self.arms@, x.variant as int, 0) == Some(*arm),
                x.variant == y.variant,
                same == forall|j: int|
                    0 <= j < k ==> x@.fields[(#[trigger] arm.bindings@[j]).field as int]
                        == y@.fields[arm.bindings@[j].field as int],
            decreases arm.bindings.len() - k,
        {
            let field = arm.bindings[k].field;
            if field >= x.fields.len() || field >= y.fields.len() {
                return None;
            }
            if x.fields[field] != y.fields[field] {
                same = false;
            }
            k += 1;
        }
        Some(same)
    }

    /// Runs a generated ordering on two values. `None` where no arm
    /// applies, or where the method names a field that one of them lacks.
    pub fn order(&self, x: &Value, y: &Value) -> (r: Option<Order>)
        ensures
            r matches Some(o) ==> self.ord_of(x@, y@) == Some(o),
            self.admits(x@) && self.admits(y@) ==> r == self.ord_of(x@, y@),
    {
        let arm = match self.arm_of(x.variant) {
            Some(i) => &self.arms[i],
            None => {
                return None;
            },
        };
        if y.variant == arm.variant {
            arm.comparison.run(x, y)
        } else {
            let mut k: usize = 0;
            while k < arm.others.len()
                invariant
                    k <= arm.others.len(),
                    select(self.arms@, x.variant as int, 0) == Some(*arm),
                    y.variant != arm.variant,
                    answer(arm.others@, y.variant as int, 0) == answer(
                        arm.others@,
                        y.variant as int,
                        k as int,
                    ),
                decreases arm.others.len() - k,
            {
                if arm.others[k].variant == y.variant {
                    return Some(arm.others[k].result);
                }
                k += 1;
            }
            None
        }
    }

    /// Collects the contents of the fields that `arm` visits in `x`.
    /// `None` where it names a field that `x` lacks.
    pub fn visit(arm: &Arm, x: &Value) -> (r: Option<Vec<i64>>)
        ensures
            r matches Some(v) ==> Seq::new(v@.len(), |k: int| v@[k] as int) == visited(
                arm.bindings@,
                x@.fields,
            ),
            binds_within(*arm, x.fields@.len() as int) ==> r is Some,
    {
        let mut out: Vec<i64> = Vec::new();
        let mut k: usize = 0;
        while k < arm.bindings.len()
            invariant
                k <= arm.bindings.len(),
                out@.len() == k,
                forall|j: int|
                    0 <= j < k ==> (#[trigger] out@[j]) as int == x@.fields[arm.bindings@[j].field as int],
            decreases arm.bindings.len() - k,
        {
            let field = arm.bindings[k].field;
            if field >= x.fields.len() {
                return None;
            }
            out.push(x.fields[field]);
            k += 1;
        }
        assert(Seq::new(out@.len(), |k: int| out@[k] as int) =~= visited(arm.bindings@, x@.fields));
        Some(out)
    }

    /// Runs generated hashing on a value: what is fed to the hasher, in
    /// order. `None` where the method names a field that the value lacks.
    pub fn hash_input(&self, x: &Value) -> (r: Option<Vec<i128>>)
        ensures
            r matches Some(v) ==> Seq::new(v@.len(), |k: int| v@[k] as int) == self.hash_of(x@),
            self.admits(x@) ==> r is Some,
    {
        let mut out: Vec<i128> = Vec::new();
        if self.is_enum {
            out.push(x.variant as i128);
        }
        let ghost first = out@;
        match self.arm_of(x.variant) {
            Some(i) => {
                let fields = match Body::visit(&self.arms[i], x) {
                    Some(fields) => fields,
                    None => {
                        return None;
                    },
                };
                let mut k: usize = 0;
                while k < fields.len()
                    invariant
                        k <= fields.len(),
                        out@.len() == first.len() + k,
                        forall|j: int| 0 <= j < first.len() ==> out@[j] == first[j],
                        forall|j: int|
                            first.len() <= j < first.len() + k ==> (#[trigger] out@[j])
                                == fields@[j - first.len()] as i128,
                    decreases fields.len() - k,
                {
                    out.push(fields[k] as i128);
                    k += 1;
                }
                assert(Seq::new(out@.len(), |k: int| out@[k] as int) =~= Seq::new(
                    first.len(),
                    |k: int| first[k] as int,
                ) + Seq::new(fields@.len(), |k: int| fields@[k] as int));
            },
            None => {},
        }
        assert(Seq::new(first.len(), |k: int| first[k] as int) =~= if self.is_enum {
            seq![x@.variant]
        } else {
            Seq::<int>::empty()
        });
        Some(out)
    }

    /// Runs generated duplication on a value. `None` where no arm
    /// applies, or where the method names a field that the value lacks.
    pub fn duplicate(&self, x: &Value) -> (r: Option<Value>)
        ensures
            r matches Some(v) ==> self.clone_of(x@) == Some(v@),
            self.admits(x@) && self.clone_of(x@) is Some ==> r is Some,
    {
        match self.arm_of(x.variant) {
            Some(i) => match Body::visit(&self.arms[i], x) {
                Some(fields) => Some(Value { variant: self.arms[i].variant, fields }),
                None => None,
            },
            None => None,
        }
    }

    /// Runs a generated textual dump on a value of `item`. `None` where
    /// no arm applies, where the value's variant is none of `item`, or
    /// where the method names a field that the value lacks.
    pub fn dump(&self, item: &Item, x: &Value) -> (r: Option<Vec<u8>>)
        ensures
            r matches Some(text) ==> self.dump_of(*item, x@) == Some(text@),
            self.admits(x@) && x.variant < item.spec_variants().len() && self.dump_of(*item, x@)
                is Some ==> r is Some,
    {
        let arm = match self.arm_of(x.variant) {
            Some(i) => &self.arms[i],
            None => {
                return None;
            },
        };
        let name = match item {
            Item::Item(data) => {
                if x.variant != 0 {
                    return None;
                }
                assert(item.spec_variants()[0] == *data);
                &data.ident
            },
            Item::Enum { variants, .. } => {
                if x.variant >= variants.len() {
                    return None;
                }
                &variants[x.variant].ident
            },
        };
        let mut parts: Vec<Vec<u8>> = Vec::new();
        let mut k: usize = 0;
        while k < arm.bindings.len()
            invariant
                k <= arm.bindings.len(),
                select(self.arms@, x.variant as int, 0) == Some(*arm),
                parts@.len() == k,
                forall|j: int|
                    0 <= j < k ==> (#[trigger] parts@[j])@ == spec_dump_parts(*arm, x@.fields)[j],
            decreases arm.bindings.len() - k,
        {
            let field = arm.bindings[k].field;
            if field >= x.fields.len() {
                return None;
            }
            let content = signed(x.fields[field]);
            let part = match arm.style {
                Style::Struct => {
                    let mut out = copy(arm.bindings[k].key.as_slice());
                    push(&mut out, ": ");
                    append(&mut out, &content);
                    out
                },
                _ => content,
            };
            parts.push(part);
            k += 1;
        }
        assert(texts(parts@) =~= spec_dump_parts(*arm, x@.fields));
        let mut out = copy(name.as_slice());
        if arm.bindings.len() == 0 {
            return Some(out);
        }
        let fields = join(&parts, ", ");
        match arm.style {
            Style::Struct => {
                push(&mut out, " { ");
                append(&mut out, &fields);
                push(&mut out, " }");
            },
            _ => {
                push(&mut out, "(");
                append(&mut out, &fields);
                push(&mut out, ")");
            },
        }
        Some(out)
    }
}

/// A chain over the fields `from..n` compares only fields below `n`.
pub proof fn lemma_chain_within(chain: Comparison, from: int, n: int, m: int)
    requires
        chain.is_chain(from, n),
        n <= m,
    ensures
        chain.within(m),
    decreases chain,
{
    match chain {
        Comparison::Equal => {},
        Comparison::Field { field, rest } => {
            lemma_chain_within(*rest, from + 1, n, m);
        },
    }
}

/// A generated method can be run on every value of its item.
pub proof fn law_generated_admits(item: Item, body: Body, trait_: Trait, x: Instance)
    requires
        generated(body, trait_, item),
        instance_of(item, x),
    ensures
        body.admits(x),
{
    if !trait_.is_marker() {
        lemma_arm(body, trait_, item, x);
        let arm = body.arms@[x.variant];
        let n = x.fields.len() as int;
        if trait_.is_ordering() {
            lemma_chain_within(arm.comparison, 0, n, n);
        } else {
            lemma_chain_within(arm.comparison, 0, 0, n);
        }
    }
}

} // verus!
