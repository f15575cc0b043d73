//! The bound synthesizer: the constraint clause under which one capability
//! is implemented.

use vstd::prelude::*;
use crate::capability::Trait;
use crate::request::{generic_views, Generic, GenericView};
use crate::text::{copy, texts};

verus! {

/// One constraint of a constraint clause.
#[derive(Debug, PartialEq, Eq)]
pub enum Predicate {
    /// A constraint that is used as it was written.
    Verbatim(Vec<u8>),
    /// The type must have the capability.
    Bound { ty: Vec<u8>, trait_: Trait },
}

/// The mathematical content of a [`Predicate`].
pub enum PredicateView {
    /// A constraint that is used as it was written.
    Verbatim(Seq<u8>),
    /// The type must have the capability.
    Bound { ty: Seq<u8>, trait_: Trait },
}

impl View for Predicate {
    type V = PredicateView;

    open spec fn view(&self) -> PredicateView {
        match self {
            Predicate::Verbatim(text) => PredicateView::Verbatim(text@),
            Predicate::Bound { ty, trait_ } => PredicateView::Bound { ty: ty@, trait_: *trait_ },
        }
    }
}

/// The contents of a constraint clause.
pub open spec fn predicate_views(clause: Seq<Predicate>) -> Seq<PredicateView> {
    Seq::new(clause.len(), |i: int| clause[i]@)
}

/// The contents of an optional constraint clause.
pub open spec fn clause_view(clause: Option<Vec<Predicate>>) -> Option<Seq<PredicateView>> {
    match clause {
        Some(list) => Some(predicate_views(list@)),
        None => None,
    }
}

/// The constraint that a generic of the request becomes for `trait_`: a
/// custom bound stays as written, a bare type is bound by the capability.
pub open spec fn spec_predicate(generic: GenericView, trait_: Trait) -> PredicateView {
    match generic {
        GenericView::CustomBound(text) => PredicateView::Verbatim(text),
        GenericView::NoBound(ty) => PredicateView::Bound { ty, trait_ },
    }
}

/// The type's own constraints, each as written.
pub open spec fn spec_verbatim(declared: Seq<Seq<u8>>) -> Seq<PredicateView> {
    Seq::new(declared.len(), |i: int| PredicateView::Verbatim(declared[i]))
}

/// The constraint clause for `trait_`.
///
/// Without generics in the request it is the type's own clause, if it has
/// one. With generics it is the type's own constraints followed by one
/// constraint per generic, in the order of the request.
pub open spec fn spec_where_clause(
    declared: Option<Seq<Seq<u8>>>,
    generics: Option<Seq<GenericView>>,
    trait_: Trait,
) -> Option<Seq<PredicateView>> {
    match generics {
        None => match declared {
            Some(own) => Some(spec_verbatim(own)),
            None => None,
        },
        Some(list) => Some(
            spec_verbatim(
                match declared {
                    Some(own) => own,
                    None => Seq::empty(),
                },
            ) + Seq::new(list.len(), |i: int| spec_predicate(list[i], trait_)),
        ),
    }
}

/// The contents of the type's own optional constraint clause.
pub open spec fn declared_view(declared: Option<Vec<Vec<u8>>>) -> Option<Seq<Seq<u8>>> {
    match declared {
        Some(own) => Some(texts(own@)),
        None => None,
    }
}

/// The contents of the request's optional generics.
pub open spec fn generics_view(generics: Option<Vec<Generic>>) -> Option<Seq<GenericView>> {
    match generics {
        Some(list) => Some(generic_views(list@)),
        None => None,
    }
}

/// Builds the constraint clause under which `trait_` is implemented, from
/// the type's own clause and the generics of the request. Neither is
/// changed: each capability gets a clause of its own.
pub fn where_clause(
    declared: &Option<Vec<Vec<u8>>>,
    generics: &Option<Vec<Generic>>,
    trait_: Trait,
) -> (r: Option<Vec<Predicate>>)
    ensures
        clause_view(r) == spec_where_clause(
            declared_view(*declared),
            generics_view(*generics),
            trait_,
        ),
{
    let mut clause: Vec<Predicate> = Vec::new();
    let ghost own: Seq<Seq<u8>> = match declared {
        Some(list) => texts(list@),
        None => Seq::empty(),
    };
    if let Some(list) = declared {
        let mut i: usize = 0;
        while i < list.len()
            invariant
                i <= list.len(),
                clause@.len() == i,
                forall|k: int|
                    0 <= k < i ==> (#[trigger] clause@[k])@ == PredicateView::Verbatim(list@[k]@),
            decreases list.len() - i,
        {
            clause.push(Predicate::Verbatim(copy(list[i].as_slice())));
            i += 1;
        }
    }
    assert(predicate_views(clause@) =~= spec_verbatim(own));
    match generics {
        None => {
            if declared.is_none() {
                None
            } else {
                Some(clause)
            }
        },
        Some(list) => {
            let ghost first = clause@.len();
            let mut i: usize = 0;
            while i < list.len()
                invariant
                    i <= list.len(),
                    clause@.len() == first + i,
                    first == own.len(),
                    forall|k: int|
                        0 <= k < first ==> (#[trigger] clause@[k])@ == spec_verbatim(own)[k],
                    forall|k: int|
                        first <= k < first + i ==> (#[trigger] clause@[k])@ == spec_predicate(
                            list@[k - first]@,
                            trait_,
                        ),
                decreases list.len() - i,
            {
                let ghost before = clause@;
                let predicate = match &list[i] {
                    Generic::CustomBound(text) => Predicate::Verbatim(copy(text.as_slice())),
                    Generic::NoBound(ty) => Predicate::Bound { ty: copy(ty.as_slice()), trait_ },
                };
                clause.push(predicate);
                assert forall|k: int| 0 <= k < first + i implies #[trigger] clause@[k]
                    == before[k] by {}
                i += 1;
            }
            assert(predicate_views(clause@) =~= spec_verbatim(own) + Seq::new(
                list@.len(),
                |i: int| spec_predicate(generic_views(list@)[i], trait_),
            ));
            Some(clause)
        },
    }
}

} // verus!
