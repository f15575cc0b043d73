use std::str::FromStr;

use derive_where::body::{Comparison, Order, Style};
use derive_where::capability::Trait;
use derive_where::error::Error;
use derive_where::item::{Data, Fields, Item, TypeSchema};
use derive_where::request::DeriveWhere;
use derive_where::{derive_where, derive_where_internal, implement};

fn tokens(text: &str) -> String {
    proc_macro2::TokenStream::from_str(text).unwrap().to_string()
}

fn named(ident: &str, fields: &[&str]) -> Data {
    Data {
        ident: ident.as_bytes().to_vec(),
        fields: Fields::Named(fields.iter().map(|f| f.as_bytes().to_vec()).collect()),
        is_union: false,
    }
}

fn tuple(ident: &str, fields: usize) -> Data {
    Data { ident: ident.as_bytes().to_vec(), fields: Fields::Unnamed(fields), is_union: false }
}

fn unit(ident: &str) -> Data {
    Data { ident: ident.as_bytes().to_vec(), fields: Fields::Unit, is_union: false }
}

fn generic(item: Item) -> TypeSchema {
    TypeSchema {
        impl_generics: b"<T>".to_vec(),
        type_generics: b"<T>".to_vec(),
        where_clause: None,
        item,
    }
}

fn test_derive(attr: &str, item: &str, schema: &TypeSchema, expected: &str) {
    let left = derive_where(attr.as_bytes(), item.as_bytes(), schema).unwrap();
    let left = tokens(core::str::from_utf8(&left).unwrap());
    let right = tokens(&format!("{} {}", item, expected));
    assert_eq!(left, right);
}

#[test]
fn clone() {
    test_derive(
        "T; Clone",
        "struct Test<T>(T);",
        &generic(Item::Item(tuple("Test", 1))),
        "impl<T> ::core::clone::Clone for Test<T>
        where T: ::core::clone::Clone,
        {
            fn clone(&self) -> Self {
                match self {
                    Self(__0) => Self(::core::clone::Clone::clone(&__0)),
                }
            }
        }",
    );
}

#[test]
fn clone_named_fields() {
    test_derive(
        "T; Clone",
        "struct Test<T> { a: T, b: T }",
        &generic(Item::Item(named("Test", &["a", "b"]))),
        "impl<T> ::core::clone::Clone for Test<T>
        where T: ::core::clone::Clone,
        {
            fn clone(&self) -> Self {
                match self {
                    Self { a: __a, b: __b } => Self {
                        a: ::core::clone::Clone::clone(&__a),
                        b: ::core::clone::Clone::clone(&__b)
                    },
                }
            }
        }",
    );
}

#[test]
fn markers_have_no_method() {
    test_derive(
        "T; Copy, Eq",
        "struct Test<T>(T);",
        &generic(Item::Item(tuple("Test", 1))),
        "impl<T> ::core::marker::Copy for Test<T> where T: ::core::marker::Copy, { }
         impl<T> ::core::cmp::Eq for Test<T> where T: ::core::cmp::Eq, { }",
    );
}

#[test]
fn debug_of_record() {
    test_derive(
        "Debug",
        "struct Test<T> { a: T }",
        &generic(Item::Item(named("Test", &["a"]))),
        "impl<T> ::core::fmt::Debug for Test<T> {
            fn fmt(&self, __f: &mut ::core::fmt::Formatter<'_>) -> ::core::fmt::Result {
                match self {
                    Self { a: __a } => {
                        let mut __builder = ::core::fmt::Formatter::debug_struct(__f, \"Test\");
                        ::core::fmt::DebugStruct::field(&mut __builder, \"a\", __a);
                        ::core::fmt::DebugStruct::finish(&mut __builder)
                    }
                }
            }
        }",
    );
}

#[test]
fn hash_of_enum_feeds_discriminant_first() {
    let item = Item::enumeration(b"Test".to_vec(), &[], vec![tuple("A", 1), unit("B")]).unwrap();
    test_derive(
        "Hash",
        "enum Test<T> { A(T), B }",
        &generic(item),
        "impl<T> ::core::hash::Hash for Test<T> {
            fn hash<__H: ::core::hash::Hasher>(&self, __state: &mut __H) {
                ::core::hash::Hash::hash(&::core::mem::discriminant(self), __state);
                match self {
                    Self::A(__0) => { ::core::hash::Hash::hash(__0, __state); }
                    Self::B => { }
                }
            }
        }",
    );
}

#[test]
fn hash_of_record_has_no_discriminant() {
    test_derive(
        "Hash",
        "struct Test<T>(T, T);",
        &generic(Item::Item(tuple("Test", 2))),
        "impl<T> ::core::hash::Hash for Test<T> {
            fn hash<__H: ::core::hash::Hasher>(&self, __state: &mut __H) {
                match self {
                    Self(__0, __1) => {
                        ::core::hash::Hash::hash(__0, __state);
                        ::core::hash::Hash::hash(__1, __state);
                    }
                }
            }
        }",
    );
}

#[test]
fn partial_eq_of_record() {
    test_derive(
        "PartialEq",
        "struct Test<T> { a: T, b: T }",
        &generic(Item::Item(named("Test", &["a", "b"]))),
        "impl<T> ::core::cmp::PartialEq for Test<T> {
            fn eq(&self, __other: &Self) -> bool {
                if ::core::mem::discriminant(self) == ::core::mem::discriminant(__other) {
                    let mut __cmp = true;
                    match (self, __other) {
                        (Self { a: __a, b: __b }, Self { a: __other_a, b: __other_b }) => {
                            __cmp &= ::core::cmp::PartialEq::eq(__a, __other_a);
                            __cmp &= ::core::cmp::PartialEq::eq(__b, __other_b);
                        }
                        _ => { __cmp = false; }
                    }
                    __cmp
                } else {
                    false
                }
            }
        }",
    );
}

#[test]
fn ord_of_enum() {
    let item = Item::enumeration(b"Test".to_vec(), &[], vec![tuple("A", 2), unit("B")]).unwrap();
    test_derive(
        "Ord",
        "enum Test<T> { A(T, T), B }",
        &generic(item),
        "impl<T> ::core::cmp::Ord for Test<T> {
            fn cmp(&self, __other: &Self) -> ::core::cmp::Ordering {
                match self {
                    Self::A(__0, __1) => {
                        match __other {
                            Self::A(__other_0, __other_1) =>
                                match ::core::cmp::Ord::cmp(__0, __other_0) {
                                    ::core::cmp::Ordering::Equal =>
                                        match ::core::cmp::Ord::cmp(__1, __other_1) {
                                            ::core::cmp::Ordering::Equal => ::core::cmp::Ordering::Equal,
                                            __cmp => __cmp,
                                        },
                                    __cmp => __cmp,
                                },
                            Self::B { .. } => ::core::cmp::Ordering::Less,
                        }
                    }
                    Self::B => {
                        match __other {
                            Self::B => ::core::cmp::Ordering::Equal,
                            Self::A { .. } => ::core::cmp::Ordering::Greater,
                        }
                    }
                }
            }
        }",
    );
}

#[test]
fn partial_ord_wraps_outcomes() {
    test_derive(
        "PartialOrd",
        "struct Test<T>(T);",
        &generic(Item::Item(tuple("Test", 1))),
        "impl<T> ::core::cmp::PartialOrd for Test<T> {
            fn partial_cmp(&self, __other: &Self) -> ::core::option::Option<::core::cmp::Ordering> {
                match self {
                    Self(__0) => {
                        match __other {
                            Self(__other_0) =>
                                match ::core::cmp::PartialOrd::partial_cmp(__0, __other_0) {
                                    ::core::option::Option::Some(::core::cmp::Ordering::Equal) =>
                                        ::core::option::Option::Some(::core::cmp::Ordering::Equal),
                                    __cmp => __cmp,
                                },
                        }
                    }
                }
            }
        }",
    );
}

#[test]
fn every_capability_gives_code_that_parses() {
    let item = Item::enumeration(
        b"Test".to_vec(),
        &[],
        vec![named("A", &["x", "y"]), tuple("B", 3), unit("C"), tuple("D", 0), named("E", &[])],
    )
    .unwrap();
    let schema = TypeSchema {
        impl_generics: b"<T: Send, U>".to_vec(),
        type_generics: b"<T, U>".to_vec(),
        where_clause: Some(vec![b"U: Sync".to_vec()]),
        item,
    };
    let out = derive_where(
        b"T, U: Copy; Clone, Copy, Debug, Eq, Hash, Ord, PartialEq, PartialOrd",
        b"enum Test<T: Send, U> where U: Sync { A { x: T, y: U }, B(T, T, U), C, D(), E {} }",
        &schema,
    )
    .unwrap();
    let file = syn::parse_str::<syn::File>(core::str::from_utf8(&out).unwrap()).unwrap();
    assert_eq!(file.items.len(), 9);
}

#[test]
fn one_implementation_per_capability_in_request_order() {
    let schema = generic(Item::Item(named("Test", &["a"])));
    let list = derive_where_internal(b"T; Clone, Debug, Eq, Hash, Ord, PartialEq, PartialOrd", &schema)
        .unwrap();
    let traits: Vec<Trait> = list.iter().map(|i| i.trait_).collect();
    assert_eq!(
        traits,
        vec![
            Trait::Clone,
            Trait::Debug,
            Trait::Eq,
            Trait::Hash,
            Trait::Ord,
            Trait::PartialEq,
            Trait::PartialOrd
        ]
    );
    for implementation in &list {
        assert_eq!(implementation.body.trait_, implementation.trait_);
        assert!(!implementation.body.is_enum);
    }
}

#[test]
fn empty_directive_gives_nothing() {
    let schema = generic(Item::Item(tuple("Test", 1)));
    assert_eq!(derive_where_internal(b"", &schema), Err(Error::Syntax { start: 0, end: 0 }));
    assert_eq!(
        derive_where(b"", b"struct Test<T>(T);", &schema),
        Err(Error::Syntax { start: 0, end: 0 })
    );
    assert_eq!(
        derive_where(b"T;", b"struct Test<T>(T);", &schema),
        Err(Error::Syntax { start: 2, end: 2 })
    );
}

#[test]
fn a_request_is_implemented_in_its_order() {
    let schema = generic(Item::Item(tuple("Test", 1)));
    let request = DeriveWhere { generics: None, traits: vec![Trait::Hash, Trait::Clone] };
    let list = implement(&request, &schema).unwrap();
    assert_eq!(list.len(), 2);
    assert_eq!(list[0].trait_, Trait::Hash);
    assert_eq!(list[1].trait_, Trait::Clone);
    assert_eq!(list[0].where_clause, None);
    let unit = generic(Item::Item(unit("Test")));
    assert_eq!(implement(&request, &unit), Err(Error::UnsupportedShape));
    let nothing = DeriveWhere { generics: None, traits: vec![] };
    assert_eq!(implement(&nothing, &unit), Err(Error::UnsupportedShape));
    assert_eq!(implement(&nothing, &schema), Ok(vec![]));
}

#[test]
fn unit_record_is_refused() {
    let schema = generic(Item::Item(unit("Test")));
    assert_eq!(derive_where(b"Clone", b"struct Test;", &schema), Err(Error::UnsupportedShape));
    assert_eq!(derive_where(b"Copy", b"struct Test;", &schema), Err(Error::UnsupportedShape));
}

#[test]
fn union_is_refused() {
    let schema = generic(Item::Item(Data {
        ident: b"Test".to_vec(),
        fields: Fields::Named(vec![b"a".to_vec()]),
        is_union: true,
    }));
    assert_eq!(derive_where(b"Clone", b"union Test { a: u8 }", &schema), Err(Error::UnsupportedShape));
}

#[test]
fn directive_errors_come_first() {
    let schema = generic(Item::Item(unit("Test")));
    assert_eq!(
        derive_where(b"T; Foo", b"struct Test;", &schema),
        Err(Error::UnsupportedCapability { start: 3, end: 6 })
    );
}

#[test]
fn arms_follow_declaration_order() {
    let item = Item::enumeration(
        b"Test".to_vec(),
        &[],
        vec![named("A", &["x"]), tuple("B", 2), unit("C")],
    )
    .unwrap();
    let body = Trait::Ord.generate_body(&item).unwrap();
    assert!(body.is_enum);
    assert_eq!(body.arms.len(), 3);
    assert_eq!(body.arms[0].style, Style::Struct);
    assert_eq!(body.arms[1].style, Style::Tuple);
    assert_eq!(body.arms[2].style, Style::Unit);
    for (index, arm) in body.arms.iter().enumerate() {
        assert_eq!(arm.variant, index);
        let others: Vec<(usize, Order)> = arm.others.iter().map(|o| (o.variant, o.result)).collect();
        let expected: Vec<(usize, Order)> = (0..3)
            .filter(|j| *j != index)
            .map(|j| (j, if index < j { Order::Less } else { Order::Greater }))
            .collect();
        assert_eq!(others, expected);
    }
    assert_eq!(body.arms[0].bindings[0].key, b"x".to_vec());
    assert_eq!(body.arms[0].bindings[0].this, b"__x".to_vec());
    assert_eq!(body.arms[0].bindings[0].other, b"__other_x".to_vec());
    assert_eq!(body.arms[1].bindings[1].key, b"1".to_vec());
    assert_eq!(body.arms[1].bindings[1].this, b"__1".to_vec());
    assert_eq!(body.arms[1].bindings[1].other, b"__other_1".to_vec());
    assert_eq!(
        body.arms[1].comparison,
        Comparison::Field {
            field: 0,
            rest: Box::new(Comparison::Field { field: 1, rest: Box::new(Comparison::Equal) })
        }
    );
    assert_eq!(body.arms[2].comparison, Comparison::Equal);
}

#[test]
fn single_variant_has_no_cross_arm() {
    let item = Item::enumeration(b"Test".to_vec(), &[], vec![tuple("A", 1)]).unwrap();
    for trait_ in [Trait::Ord, Trait::PartialOrd] {
        let body = trait_.generate_body(&item).unwrap();
        assert_eq!(body.arms.len(), 1);
        assert!(body.arms[0].others.is_empty());
    }
}

#[test]
fn prepare_ord_builds_chain_and_answers() {
    let (chain, others) = Trait::Ord.prepare_ord(1, Some((1, 3)));
    assert_eq!(chain, Comparison::Field { field: 0, rest: Box::new(Comparison::Equal) });
    assert_eq!(others.len(), 2);
    assert_eq!((others[0].variant, others[0].result), (0, Order::Greater));
    assert_eq!((others[1].variant, others[1].result), (2, Order::Less));
    let (chain, others) = Trait::PartialOrd.prepare_ord(0, None);
    assert_eq!(chain, Comparison::Equal);
    assert!(others.is_empty());
}

#[test]
fn equality_only_compares_matching_variants() {
    let item = Item::enumeration(b"Test".to_vec(), &[], vec![tuple("A", 1), tuple("B", 1)]).unwrap();
    let body = Trait::PartialEq.generate_body(&item).unwrap();
    assert_eq!(body.arms.len(), 2);
    for arm in &body.arms {
        assert!(arm.others.is_empty());
        assert_eq!(arm.comparison, Comparison::Equal);
    }
}
