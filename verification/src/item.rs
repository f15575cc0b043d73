//! Intermediate representation of the described type: its shape, its
//! variants and how an enumeration's discriminant is realised.

use vstd::prelude::*;
use vstd::string::StringSliceAdditionalSpecFns;
use crate::capability::Trait;
use crate::error::Error;
use crate::text::bytes_eq;

verus! {

/// The fields of a record or of a variant.
#[derive(Debug, PartialEq, Eq)]
pub enum Fields {
    /// Named fields, in declaration order.
    Named(Vec<Vec<u8>>),
    /// This many positional fields.
    Unnamed(usize),
    /// No field list at all.
    Unit,
}

impl Fields {
    /// The number of fields.
    pub open spec fn spec_len(self) -> nat {
        match self {
            Fields::Named(names) => names@.len(),
            Fields::Unnamed(n) => n as nat,
            Fields::Unit => 0,
        }
    }

    /// Returns the number of fields.
    pub fn len(&self) -> (r: usize)
        ensures
            r == self.spec_len(),
    {
        match self {
            Fields::Named(names) => names.len(),
            Fields::Unnamed(n) => *n,
            Fields::Unit => 0,
        }
    }
}

/// A record, or one variant of an enumeration.
#[derive(Debug, PartialEq, Eq)]
pub struct Data {
    /// Name of the record or of the variant.
    pub ident: Vec<u8>,
    /// Its fields.
    pub fields: Fields,
    /// Whether this is a union, whose fields share their storage.
    pub is_union: bool,
}

/// Fields or variants of an item.
#[derive(Debug, PartialEq, Eq)]
pub enum Item {
    /// Enum.
    Enum {
        /// Type of discriminant used.
        discriminant: Discriminant,
        /// Name of this enum.
        ident: Vec<u8>,
        /// Variants of this enum, in declaration order: a variant's index
        /// is its position here.
        variants: Vec<Data>,
    },
    /// Struct, tuple struct or union.
    Item(Data),
}

impl Item {
    /// The name of the item.
    pub open spec fn spec_ident(self) -> Seq<u8> {
        match self {
            Item::Item(data) => data.ident@,
            Item::Enum { ident, .. } => ident@,
        }
    }

    /// Whether the item is an enum.
    pub open spec fn spec_is_enum(self) -> bool {
        self is Enum
    }

    /// The item's variants; a record counts as its own single variant.
    pub open spec fn spec_variants(self) -> Seq<Data> {
        match self {
            Item::Item(data) => seq![data],
            Item::Enum { variants, .. } => variants@,
        }
    }

    /// Whether no variant of the item has a field.
    pub open spec fn spec_is_empty(self) -> bool {
        forall|i: int|
            0 <= i < self.spec_variants().len() ==> (#[trigger] self.spec_variants()[i]).fields.spec_len()
                == 0
    }

    /// Describes an enum with these variants, and resolves how its
    /// discriminant is realised from the layout directives `attrs`.
    pub fn enumeration(ident: Vec<u8>, attrs: &[Directive], variants: Vec<Data>) -> (r: Result<
        Item,
        Error,
    >)
        ensures
            match Discriminant::spec_parse(attrs@, variants@) {
                Ok(d) => r matches Ok(Item::Enum { discriminant, ident: name, variants: list })
                    && discriminant == d && name == ident && list == variants,
                Err(e) => r matches Err(x) && x == e,
            },
    {
        match Discriminant::parse(attrs, variants.as_slice()) {
            Ok(discriminant) => Ok(Item::Enum { discriminant, ident, variants }),
            Err(e) => Err(e),
        }
    }

    /// Returns the name of this [`Item`].
    pub fn ident(&self) -> (r: &Vec<u8>)
        ensures
            r@ == self.spec_ident(),
    {
        match self {
            Item::Item(data) => &data.ident,
            Item::Enum { ident, .. } => ident,
        }
    }

    /// Returns `true` if this [`Item`] is an enum.
    pub fn is_enum(&self) -> (r: bool)
        ensures
            r == self.spec_is_enum(),
    {
        match self {
            Item::Enum { .. } => true,
            Item::Item(_) => false,
        }
    }

    /// Returns `true` if no variant has any field, so that an
    /// implementation of `trait_` has nothing to visit.
    pub fn is_empty(&self, trait_: Trait) -> (r: bool)
        ensures
            r == self.spec_is_empty(),
    {
        match self {
            Item::Item(data) => {
                assert(self.spec_variants()[0] == *data);
                data.fields.len() == 0
            },
            Item::Enum { variants, .. } => all_empty(variants.as_slice()),
        }
    }
}

/// The described type: what the generator is given besides the directive.
#[derive(Debug, PartialEq, Eq)]
pub struct TypeSchema {
    /// The generic parameters as an implementation declares them, with
    /// their angle brackets; empty where the type has none.
    pub impl_generics: Vec<u8>,
    /// The generic parameters as a use of the type names them, with their
    /// angle brackets; empty where the type has none.
    pub type_generics: Vec<u8>,
    /// The constraints of the type's own constraint clause, if it has one.
    pub where_clause: Option<Vec<Vec<u8>>>,
    /// The type's name and shape.
    pub item: Item,
}

/// Whether each of `variants` is without fields.
pub open spec fn spec_all_empty(variants: Seq<Data>) -> bool {
    forall|i: int| 0 <= i < variants.len() ==> (#[trigger] variants[i]).fields.spec_len() == 0
}

/// Tests whether each of `variants` is without fields.
pub fn all_empty(variants: &[Data]) -> (r: bool)
    ensures
        r == spec_all_empty(variants@),
{
    let mut i: usize = 0;
    while i < variants.len()
        invariant
            i <= variants.len(),
            forall|k: int| 0 <= k < i ==> (#[trigger] variants@[k]).fields.spec_len() == 0,
        decreases variants.len() - i,
    {
        if variants[i].fields.len() != 0 {
            return false;
        }
        i += 1;
    }
    true
}

/// A layout directive attached to the type, such as `repr(C, u8)`.
#[derive(Debug, PartialEq, Eq)]
pub struct Directive {
    /// The directive's name.
    pub name: Vec<u8>,
    /// The names in its parenthesised argument list; `None` where the
    /// directive is not written in list form.
    pub args: Option<Vec<Vec<u8>>>,
}

impl Directive {
    /// Whether this is a layout directive.
    pub open spec fn is_repr(self) -> bool {
        self.name@ == "repr".spec_bytes()
    }

    /// Whether this is a layout directive without an argument list.
    pub open spec fn is_malformed(self) -> bool {
        self.is_repr() && self.args is None
    }

    /// The first explicit width among the arguments of a layout directive.
    pub open spec fn width(self) -> Option<Representation> {
        if self.is_repr() && self.args is Some {
            first_width_in(self.args->Some_0@, 0)
        } else {
            None
        }
    }

    /// Whether a layout directive asks for the cross-language layout.
    pub open spec fn names_c(self) -> bool {
        self.is_repr() && self.args is Some && exists|j: int|
            0 <= j < self.args->Some_0@.len() && (#[trigger] self.args->Some_0@[j])@
                == "C".spec_bytes()
    }
}

/// The first explicit width among `args[from..]`.
pub open spec fn first_width_in(args: Seq<Vec<u8>>, from: int) -> Option<Representation>
    decreases args.len() - from,
{
    if from < 0 || from >= args.len() {
        None
    } else {
        match Representation::spec_parse(args[from]@) {
            Some(r) => Some(r),
            None => first_width_in(args, from + 1),
        }
    }
}

/// The first explicit width among the directives `attrs[from..]`, in
/// declaration order.
pub open spec fn first_width(attrs: Seq<Directive>, from: int) -> Option<Representation>
    decreases attrs.len() - from,
{
    if from < 0 || from >= attrs.len() {
        None
    } else {
        match attrs[from].width() {
            Some(r) => Some(r),
            None => first_width(attrs, from + 1),
        }
    }
}

/// The position of the first layout directive without an argument list
/// among `attrs[from..]`; the length of `attrs` where there is none.
pub open spec fn first_malformed(attrs: Seq<Directive>, from: int) -> int
    decreases attrs.len() - from,
{
    if from < 0 || from >= attrs.len() {
        attrs.len() as int
    } else if attrs[from].is_malformed() {
        from
    } else {
        first_malformed(attrs, from + 1)
    }
}

/// Whether any of the directives asks for the cross-language layout.
pub open spec fn has_c(attrs: Seq<Directive>) -> bool {
    exists|i: int| 0 <= i < attrs.len() && (#[trigger] attrs[i]).names_c()
}

/// Type of discriminant used.
#[derive(Clone, Copy, Debug, PartialEq, Eq, Structural)]
pub enum Discriminant {
    /// The enum uses the default representation but has a non-unit variant,
    /// or the cross-language layout without an integer representation.
    Unknown,
    /// The enum has only a single variant.
    Single,
    /// The enum uses the default representation and has only unit variants.
    UnitDefault,
    /// The enum uses a non-default representation and has only unit variants.
    UnitRepr(Representation),
    /// The enum uses a non-default representation and has a non-unit variant.
    Repr(Representation),
}

impl Discriminant {
    /// How the discriminant is realised, given the first explicit width,
    /// whether every variant is without fields, and whether the
    /// cross-language layout was asked for. Not for a single variant.
    pub open spec fn combine(width: Option<Representation>, is_unit: bool, is_c: bool) -> Discriminant {
        match width {
            Some(repr) => if is_unit {
                Discriminant::UnitRepr(repr)
            } else {
                Discriminant::Repr(repr)
            },
            None => if is_unit && !is_c {
                Discriminant::UnitDefault
            } else {
                Discriminant::Unknown
            },
        }
    }

    /// The representation of an enum with these layout directives and
    /// these variants.
    ///
    /// A single variant gives `Single` whatever the directives say.
    /// Otherwise the first layout directive without an argument list is an
    /// error; without such a one, the first explicit width in declaration
    /// order decides together with the variants' shapes.
    pub open spec fn spec_parse(attrs: Seq<Directive>, variants: Seq<Data>) -> Result<
        Discriminant,
        Error,
    > {
        if variants.len() == 1 {
            Ok(Discriminant::Single)
        } else if first_malformed(attrs, 0) < attrs.len() {
            Err(Error::InvalidDirective { index: first_malformed(attrs, 0) as usize })
        } else {
            Ok(
                Discriminant::combine(
                    first_width(attrs, 0),
                    spec_all_empty(variants),
                    has_c(attrs),
                ),
            )
        }
    }

    /// Determines the representation of an enum from its layout directives
    /// and its variants.
    pub fn parse(attrs: &[Directive], variants: &[Data]) -> (r: Result<Discriminant, Error>)
        ensures
            r == Discriminant::spec_parse(attrs@, variants@),
    {
        if variants.len() == 1 {
            return Ok(Discriminant::Single);
        }
        let mut has_repr: Option<Representation> = None;
        let mut is_c = false;
        let mut i: usize = 0;
        while i < attrs.len()
            invariant
                i <= attrs.len(),
                variants@.len() != 1,
                first_malformed(attrs@, 0) == first_malformed(attrs@, i as int),
                is_c == exists|k: int| 0 <= k < i && (#[trigger] attrs@[k]).names_c(),
                first_width(attrs@, 0) == match has_repr {
                    Some(r) => Some(r),
                    None => first_width(attrs@, i as int),
                },
            decreases attrs.len() - i,
        {
            let attr = &attrs[i];
            if bytes_eq(attr.name.as_slice(), "repr".as_bytes()) {
                match &attr.args {
                    Some(list) => {
                        if names(list.as_slice(), "C".as_bytes()) {
                            is_c = true;
                        }
                        if has_repr.is_none() {
                            has_repr = first_width_of(list.as_slice());
                        }
                    },
                    None => {
                        return Err(Error::InvalidDirective { index: i });
                    },
                }
            }
            assert(attrs@[i as int].names_c() ==> is_c);
            i += 1;
        }
        let is_unit = all_empty(variants);
        Ok(
            match has_repr {
                Some(repr) => if is_unit {
                    Discriminant::UnitRepr(repr)
                } else {
                    Discriminant::Repr(repr)
                },
                None => if is_unit && !is_c {
                    Discriminant::UnitDefault
                } else {
                    Discriminant::Unknown
                },
            },
        )
    }
}

/// Tests whether `name` is one of `list`.
pub fn names(list: &[Vec<u8>], name: &[u8]) -> (r: bool)
    ensures
        r == exists|j: int| 0 <= j < list@.len() && (#[trigger] list@[j])@ == name@,
{
    let mut j: usize = 0;
    while j < list.len()
        invariant
            j <= list.len(),
            forall|k: int| 0 <= k < j ==> (#[trigger] list@[k])@ != name@,
        decreases list.len() - j,
    {
        if bytes_eq(list[j].as_slice(), name) {
            return true;
        }
        j += 1;
    }
    false
}

/// Finds the first explicit width among the arguments of a directive.
pub fn first_width_of(list: &[Vec<u8>]) -> (r: Option<Representation>)
    ensures
        r == first_width_in(list@, 0),
{
    let mut j: usize = 0;
    while j < list.len()
        invariant
            j <= list.len(),
            first_width_in(list@, 0) == first_width_in(list@, j as int),
        decreases list.len() - j,
    {
        match Representation::parse(list[j].as_slice()) {
            Some(repr) => {
                return Some(repr);
            },
            None => {},
        }
        j += 1;
    }
    None
}

/// The type used to represent an enum.
#[derive(Clone, Copy, Debug, PartialEq, Eq, Structural)]
pub enum Representation {
    /// [`u8`].
    U8,
    /// [`u16`].
    U16,
    /// [`u32`].
    U32,
    /// [`u64`].
    U64,
    /// [`u128`].
    U128,
    /// [`usize`].
    USize,
    /// [`i8`].
    I8,
    /// [`i16`].
    I16,
    /// [`i32`].
    I32,
    /// [`i64`].
    I64,
    /// [`i128`].
    I128,
    /// [`isize`].
    ISize,
}

impl Representation {
    /// The representation that `name` stands for, if it is one.
    pub open spec fn spec_parse(name: Seq<u8>) -> Option<Representation> {
        if name == "u8".spec_bytes() {
            Some(Representation::U8)
        } else if name == "u16".spec_bytes() {
            Some(Representation::U16)
        } else if name == "u32".spec_bytes() {
            Some(Representation::U32)
        } else if name == "u64".spec_bytes() {
            Some(Representation::U64)
        } else if name == "u128".spec_bytes() {
            Some(Representation::U128)
        } else if name == "usize".spec_bytes() {
            Some(Representation::USize)
        } else if name == "i8".spec_bytes() {
            Some(Representation::I8)
        } else if name == "i16".spec_bytes() {
            Some(Representation::I16)
        } else if name == "i32".spec_bytes() {
            Some(Representation::I32)
        } else if name == "i64".spec_bytes() {
            Some(Representation::I64)
        } else if name == "i128".spec_bytes() {
            Some(Representation::I128)
        } else if name == "isize".spec_bytes() {
            Some(Representation::ISize)
        } else {
            None
        }
    }

    /// Parse a name to a valid representation if it is one.
    pub fn parse(ident: &[u8]) -> (r: Option<Representation>)
        ensures
            r == Representation::spec_parse(ident@),
    {
        Some(
            if bytes_eq(ident, "u8".as_bytes()) {
                Representation::U8
            } else if bytes_eq(ident, "u16".as_bytes()) {
                Representation::U16
            } else if bytes_eq(ident, "u32".as_bytes()) {
                Representation::U32
            } else if bytes_eq(ident, "u64".as_bytes()) {
                Representation::U64
            } else if bytes_eq(ident, "u128".as_bytes()) {
                Representation::U128
            } else if bytes_eq(ident, "usize".as_bytes()) {
                Representation::USize
            } else if bytes_eq(ident, "i8".as_bytes()) {
                Representation::I8
            } else if bytes_eq(ident, "i16".as_bytes()) {
                Representation::I16
            } else if bytes_eq(ident, "i32".as_bytes()) {
                Representation::I32
            } else if bytes_eq(ident, "i64".as_bytes()) {
                Representation::I64
            } else if bytes_eq(ident, "i128".as_bytes()) {
                Representation::I128
            } else if bytes_eq(ident, "isize".as_bytes()) {
                Representation::ISize
            } else {
                return None;
            },
        )
    }

    /// The name of the integer type.
    pub open spec fn spec_name(self) -> Seq<u8> {
        match self {
            Representation::U8 => "u8".spec_bytes(),
            Representation::U16 => "u16".spec_bytes(),
            Representation::U32 => "u32".spec_bytes(),
            Representation::U64 => "u64".spec_bytes(),
            Representation::U128 => "u128".spec_bytes(),
            Representation::USize => "usize".spec_bytes(),
            Representation::I8 => "i8".spec_bytes(),
            Representation::I16 => "i16".spec_bytes(),
            Representation::I32 => "i32".spec_bytes(),
            Representation::I64 => "i64".spec_bytes(),
            Representation::I128 => "i128".spec_bytes(),
            Representation::ISize => "isize".spec_bytes(),
        }
    }

    /// Appends the name of the integer type to `tokens`.
    pub fn to_tokens(&self, tokens: &mut Vec<u8>)
        ensures
            final(tokens)@ == old(tokens)@ + self.spec_name(),
    {
        match self {
            Representation::U8 => tokens.extend_from_slice("u8".as_bytes()),
            Representation::U16 => tokens.extend_from_slice("u16".as_bytes()),
            Representation::U32 => tokens.extend_from_slice("u32".as_bytes()),
            Representation::U64 => tokens.extend_from_slice("u64".as_bytes()),
            Representation::U128 => tokens.extend_from_slice("u128".as_bytes()),
            Representation::USize => tokens.extend_from_slice("usize".as_bytes()),
            Representation::I8 => tokens.extend_from_slice("i8".as_bytes()),
            Representation::I16 => tokens.extend_from_slice("i16".as_bytes()),
            Representation::I32 => tokens.extend_from_slice("i32".as_bytes()),
            Representation::I64 => tokens.extend_from_slice("i64".as_bytes()),
            Representation::I128 => tokens.extend_from_slice("i128".as_bytes()),
            Representation::ISize => tokens.extend_from_slice("isize".as_bytes()),
        }
    }
}

} // verus!
