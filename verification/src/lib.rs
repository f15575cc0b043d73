//! Generates, for a described data type and a list of requested capabilities,
//! the implementations that give the type those capabilities by structural,
//! field by field, comparison, hashing, formatting and duplication.

use vstd::prelude::*;
use vstd::string::StringSliceAdditionalSpecFns;
use crate::body::{generated, is_supported, supported, Body};
use crate::bounds::{clause_view, declared_view, spec_where_clause, where_clause, Predicate};
use crate::capability::Trait;
use crate::error::Error;
use crate::item::TypeSchema;
use crate::render::{arms_text, spec_arms_text, spec_where_text, where_text};
use crate::request::{outcome_view, DeriveWhere, DeriveWhereView};
use crate::text::{append, copy, join, push, spec_join, texts};

pub mod body;
pub mod bounds;
pub mod capability;
pub mod error;
pub mod interpret;
pub mod item;
pub mod render;
pub mod request;
pub mod scan;
pub mod semantics;
pub mod text;

verus! {

/// One generated implementation: a capability, the constraint clause it
/// is implemented under, and its method.
#[derive(Debug, PartialEq, Eq)]
pub struct Implementation {
    /// The capability.
    pub trait_: Trait,
    /// The constraint clause, if there is one.
    pub where_clause: Option<Vec<Predicate>>,
    /// The method.
    pub body: Body,
}

/// Whether `list` holds what `request` asks for on `schema`: one
/// implementation per requested capability, in the order of the request,
/// each with the generated method and the synthesized constraint clause.
pub open spec fn implements(list: Seq<Implementation>, request: DeriveWhereView, schema: TypeSchema) -> bool {
    &&& list.len() == request.traits.len()
    &&& forall|i: int|
        0 <= i < list.len() ==> {
            &&& (#[trigger] list[i]).trait_ == request.traits[i]
            &&& generated(list[i].body, request.traits[i], schema.item)
            &&& clause_view(list[i].where_clause) == spec_where_clause(
                declared_view(schema.where_clause),
                request.generics,
                request.traits[i],
            )
        }
}

/// Generates the implementations that a request asks for on the described
/// type.
///
/// A type whose shape is not supported is refused before anything is
/// generated. Otherwise the request gives one implementation per
/// capability, in its order.
pub fn implement(request: &DeriveWhere, schema: &TypeSchema) -> (r: Result<
    Vec<Implementation>,
    Error,
>)
    ensures
        if !supported(schema.item) {
            r matches Err(x) && x == Error::UnsupportedShape
        } else {
            r matches Ok(list) && implements(list@, request@, *schema)
        },
{
    if !is_supported(&schema.item) {
        return Err(Error::UnsupportedShape);
    }
    let mut output: Vec<Implementation> = Vec::new();
    let mut i: usize = 0;
    while i < request.traits.len()
        invariant
            i <= request.traits.len(),
            supported(schema.item),
            output@.len() == i,
            forall|k: int|
                0 <= k < i ==> {
                    &&& (#[trigger] output@[k]).trait_ == request.traits@[k]
                    &&& generated(output@[k].body, request.traits@[k], schema.item)
                    &&& clause_view(output@[k].where_clause) == spec_where_clause(
                        declared_view(schema.where_clause),
                        request@.generics,
                        request.traits@[k],
                    )
                },
        decreases request.traits.len() - i,
    {
        let trait_ = request.traits[i];
        let body = match trait_.generate_body(&schema.item) {
            Ok(body) => body,
            Err(e) => {
                return Err(e);
            },
        };
        let clause = where_clause(&schema.where_clause, &request.generics, trait_);
        output.push(Implementation { trait_, where_clause: clause, body });
        i += 1;
    }
    Ok(output)
}

/// Whether `r` is what generating gives where reading the directive gave
/// `outcome`: the error of the directive; else, on a type whose shape is
/// not supported, that error; else one implementation per requested
/// capability, in the order of the request.
pub open spec fn derives(
    outcome: Result<DeriveWhereView, Error>,
    schema: TypeSchema,
    r: Result<Vec<Implementation>, Error>,
) -> bool {
    match outcome {
        Err(e) => r matches Err(x) && x == e,
        Ok(request) => if !supported(schema.item) {
            r matches Err(x) && x == Error::UnsupportedShape
        } else {
            r matches Ok(list) && implements(list@, request, schema)
        },
    }
}

/// Generates the implementations that the directive `attr` asks for on
/// the described type: reads the directive, and generates for what was
/// read.
pub fn derive_where_internal(attr: &[u8], schema: &TypeSchema) -> (r: Result<
    Vec<Implementation>,
    Error,
>)
    ensures
        exists|outcome: Result<DeriveWhereView, Error>| #[trigger]
            DeriveWhere::reads(attr@, outcome) && derives(outcome, *schema, r),
        DeriveWhere::refused(attr@) || !supported(schema.item) ==> r is Err,
{
    let read = DeriveWhere::parse(attr);
    let ghost outcome = outcome_view(read);
    match read {
        Ok(request) => {
            let r = implement(&request, schema);
            assert(DeriveWhere::reads(attr@, outcome) && derives(outcome, *schema, r));
            r
        },
        Err(e) => {
            let r = Err(e);
            assert(DeriveWhere::reads(attr@, outcome) && derives(outcome, *schema, r));
            r
        },
    }
}

/// The text of one implementation block.
pub open spec fn spec_implementation_text(schema: TypeSchema, implementation: Implementation) -> Seq<u8> {
    "impl".spec_bytes() + schema.impl_generics@ + " ".spec_bytes()
        + implementation.trait_.spec_path() + " for ".spec_bytes() + schema.item.spec_ident()
        + schema.type_generics@ + spec_where_text(clause_view(implementation.where_clause))
        + " { ".spec_bytes() + implementation.body.trait_.spec_signature(
        implementation.body.is_enum,
        spec_arms_text(schema.item, implementation.body),
    ) + " }".spec_bytes()
}

/// Writes one implementation block.
pub fn implementation_text(schema: &TypeSchema, implementation: &Implementation) -> (r: Vec<u8>)
    requires
        exists|trait_: Trait| generated(implementation.body, trait_, schema.item),
    ensures
        r@ == spec_implementation_text(*schema, *implementation),
{
    let mut out = copy("impl".as_bytes());
    append(&mut out, &schema.impl_generics);
    push(&mut out, " ");
    let path = implementation.trait_.path();
    append(&mut out, &path);
    push(&mut out, " for ");
    append(&mut out, schema.item.ident());
    append(&mut out, &schema.type_generics);
    let clause = where_text(&implementation.where_clause);
    append(&mut out, &clause);
    push(&mut out, " { ");
    let arms = arms_text(&schema.item, &implementation.body);
    let method = implementation.body.trait_.build_signature(implementation.body.is_enum, &arms);
    append(&mut out, &method);
    push(&mut out, " }");
    out
}

/// The output: the type's own text, then the implementation blocks, with
/// a blank between each two.
pub open spec fn spec_output(source: Seq<u8>, schema: TypeSchema, list: Seq<Implementation>) -> Seq<u8> {
    spec_join(
        Seq::new(
            list.len() + 1,
            |i: int|
                if i == 0 {
                    source
                } else {
                    spec_implementation_text(schema, list[i - 1])
                },
        ),
        " ".spec_bytes(),
    )
}

/// Writes the output for generated implementations: the type's own text
/// unchanged, followed by one block per implementation.
pub fn output_text(source: &[u8], schema: &TypeSchema, list: &Vec<Implementation>) -> (r: Vec<u8>)
    requires
        forall|i: int|
            0 <= i < list@.len() ==> exists|trait_: Trait|
                generated((#[trigger] list@[i]).body, trait_, schema.item),
    ensures
        r@ == spec_output(source@, *schema, list@),
{
    let mut parts: Vec<Vec<u8>> = Vec::new();
    parts.push(copy(source));
    let mut i: usize = 0;
    while i < list.len()
        invariant
            i <= list.len(),
            parts@.len() == i + 1,
            parts@[0]@ == source@,
            forall|k: int|
                0 <= k < list@.len() ==> exists|trait_: Trait|
                    generated((#[trigger] list@[k]).body, trait_, schema.item),
            forall|k: int|
                1 <= k <= i ==> (#[trigger] parts@[k])@ == spec_implementation_text(
                    *schema,
                    list@[k - 1],
                ),
        decreases list.len() - i,
    {
        assert(exists|trait_: Trait| generated(list@[i as int].body, trait_, schema.item));
        parts.push(implementation_text(schema, &list[i]));
        i += 1;
    }
    assert(texts(parts@) =~= Seq::new(
        list@.len() + 1,
        |i: int|
            if i == 0 {
                source@
            } else {
                spec_implementation_text(*schema, list@[i - 1])
            },
    ));
    join(&parts, " ")
}

/// Whether `r` is the output where reading the directive gave `outcome`:
/// the error of the directive; else, on a type whose shape is not
/// supported, that error; else the type's own text followed by the blocks
/// of the implementations that the request asks for.
pub open spec fn writes(
    outcome: Result<DeriveWhereView, Error>,
    source: Seq<u8>,
    schema: TypeSchema,
    r: Result<Vec<u8>, Error>,
) -> bool {
    match outcome {
        Err(e) => r matches Err(x) && x == e,
        Ok(request) => if !supported(schema.item) {
            r matches Err(x) && x == Error::UnsupportedShape
        } else {
            r matches Ok(out) && exists|list: Seq<Implementation>| #[trigger]
                implements(list, request, schema) && out@ == spec_output(source, schema, list)
        },
    }
}

/// Generates the code that the directive `attr` asks for on the described
/// type, whose own text is `source`: that text followed by one
/// implementation block per requested capability, or the first error.
pub fn derive_where(attr: &[u8], source: &[u8], schema: &TypeSchema) -> (r: Result<Vec<u8>, Error>)
    ensures
        exists|outcome: Result<DeriveWhereView, Error>| #[trigger]
            DeriveWhere::reads(attr@, outcome) && writes(outcome, source@, *schema, r),
        DeriveWhere::refused(attr@) || !supported(schema.item) ==> r is Err,
{
    let generated_list = derive_where_internal(attr, schema);
    let ghost outcome = choose|outcome: Result<DeriveWhereView, Error>| #[trigger]
        DeriveWhere::reads(attr@, outcome) && derives(outcome, *schema, generated_list);
    match generated_list {
        Ok(list) => {
            assert forall|i: int| 0 <= i < list@.len() implies exists|trait_: Trait|
                generated((#[trigger] list@[i]).body, trait_, schema.item) by {
                let request = outcome->Ok_0;
                assert(generated(list@[i].body, request.traits[i], schema.item));
            }
            let r = Ok(output_text(source, schema, &list));
            assert(implements(list@, outcome->Ok_0, *schema));
            assert(DeriveWhere::reads(attr@, outcome) && writes(outcome, source@, *schema, r));
            r
        },
        Err(e) => {
            let r = Err(e);
            assert(DeriveWhere::reads(attr@, outcome) && writes(outcome, source@, *schema, r));
            r
        },
    }
}

} // verus!
