#![allow(unreachable_patterns)]

use core::hash::{Hash, Hasher};
use std::collections::hash_map::DefaultHasher;

use derive_where::derive_where;
use derive_where::item::{Data, Fields, Item, TypeSchema};

struct Test<T> {
    a: T,
    b: T,
    c: T,
}

enum Kind<T> {
    A(T),
    B { x: T, y: T },
    C,
}

impl<T> ::core::clone::Clone for Test<T> where T: ::core::clone::Clone, { fn clone(&self) -> Self { match self { Self { a: __a, b: __b, c: __c } => Self { a: ::core::clone::Clone::clone(&__a), b: ::core::clone::Clone::clone(&__b), c: ::core::clone::Clone::clone(&__c) }, } } }

impl<T> ::core::marker::Copy for Test<T> where T: ::core::marker::Copy, {  }

impl<T> ::core::fmt::Debug for Test<T> where T: ::core::fmt::Debug, { fn fmt(&self, __f: &mut ::core::fmt::Formatter<'_>) -> ::core::fmt::Result { match self { Self { a: __a, b: __b, c: __c } => { let mut __builder = ::core::fmt::Formatter::debug_struct(__f, "Test"); ::core::fmt::DebugStruct::field(&mut __builder, "a", __a); ::core::fmt::DebugStruct::field(&mut __builder, "b", __b); ::core::fmt::DebugStruct::field(&mut __builder, "c", __c); ::core::fmt::DebugStruct::finish(&mut __builder) } } } }

impl<T> ::core::cmp::Eq for Test<T> where T: ::core::cmp::Eq, {  }

impl<T> ::core::hash::Hash for Test<T> where T: ::core::hash::Hash, { fn hash<__H: ::core::hash::Hasher>(&self, __state: &mut __H) { match self { Self { a: __a, b: __b, c: __c } => { ::core::hash::Hash::hash(__a, __state); ::core::hash::Hash::hash(__b, __state); ::core::hash::Hash::hash(__c, __state); } } } }

impl<T> ::core::cmp::Ord for Test<T> where T: ::core::cmp::Ord, { fn cmp(&self, __other: &Self) -> ::core::cmp::Ordering { match self { Self { a: __a, b: __b, c: __c } => { match __other { Self { a: __other_a, b: __other_b, c: __other_c } => match ::core::cmp::Ord::cmp(__a, __other_a) { ::core::cmp::Ordering::Equal => match ::core::cmp::Ord::cmp(__b, __other_b) { ::core::cmp::Ordering::Equal => match ::core::cmp::Ord::cmp(__c, __other_c) { ::core::cmp::Ordering::Equal => ::core::cmp::Ordering::Equal, __cmp => __cmp, }, __cmp => __cmp, }, __cmp => __cmp, },  } } } } }

impl<T> ::core::cmp::PartialEq for Test<T> where T: ::core::cmp::PartialEq, { fn eq(&self, __other: &Self) -> bool { if ::core::mem::discriminant(self) == ::core::mem::discriminant(__other) { let mut __cmp = true; match (self, __other) { (Self { a: __a, b: __b, c: __c }, Self { a: __other_a, b: __other_b, c: __other_c }) => { __cmp &= ::core::cmp::PartialEq::eq(__a, __other_a); __cmp &= ::core::cmp::PartialEq::eq(__b, __other_b); __cmp &= ::core::cmp::PartialEq::eq(__c, __other_c); } _ => { __cmp = false; } } __cmp } else { false } } }

impl<T> ::core::cmp::PartialOrd for Test<T> where T: ::core::cmp::PartialOrd, { fn partial_cmp(&self, __other: &Self) -> ::core::option::Option<::core::cmp::Ordering> { match self { Self { a: __a, b: __b, c: __c } => { match __other { Self { a: __other_a, b: __other_b, c: __other_c } => match ::core::cmp::PartialOrd::partial_cmp(__a, __other_a) { ::core::option::Option::Some(::core::cmp::Ordering::Equal) => match ::core::cmp::PartialOrd::partial_cmp(__b, __other_b) { ::core::option::Option::Some(::core::cmp::Ordering::Equal) => match ::core::cmp::PartialOrd::partial_cmp(__c, __other_c) { ::core::option::Option::Some(::core::cmp::Ordering::Equal) => ::core::option::Option::Some(::core::cmp::Ordering::Equal), __cmp => __cmp, }, __cmp => __cmp, }, __cmp => __cmp, },  } } } } }

impl<T> ::core::clone::Clone for Kind<T> where T: ::core::clone::Clone, { fn clone(&self) -> Self { match self { Self::A(__0) => Self::A(::core::clone::Clone::clone(&__0)), Self::B { x: __x, y: __y } => Self::B { x: ::core::clone::Clone::clone(&__x), y: ::core::clone::Clone::clone(&__y) }, Self::C => Self::C, } } }

impl<T> ::core::marker::Copy for Kind<T> where T: ::core::marker::Copy, {  }

impl<T> ::core::fmt::Debug for Kind<T> where T: ::core::fmt::Debug, { fn fmt(&self, __f: &mut ::core::fmt::Formatter<'_>) -> ::core::fmt::Result { match self { Self::A(__0) => { let mut __builder = ::core::fmt::Formatter::debug_tuple(__f, "A"); ::core::fmt::DebugTuple::field(&mut __builder, __0); ::core::fmt::DebugTuple::finish(&mut __builder) } Self::B { x: __x, y: __y } => { let mut __builder = ::core::fmt::Formatter::debug_struct(__f, "B"); ::core::fmt::DebugStruct::field(&mut __builder, "x", __x); ::core::fmt::DebugStruct::field(&mut __builder, "y", __y); ::core::fmt::DebugStruct::finish(&mut __builder) } Self::C => ::core::fmt::Formatter::write_str(__f, "C"), } } }

impl<T> ::core::cmp::Eq for Kind<T> where T: ::core::cmp::Eq, {  }

impl<T> ::core::hash::Hash for Kind<T> where T: ::core::hash::Hash, { fn hash<__H: ::core::hash::Hasher>(&self, __state: &mut __H) { ::core::hash::Hash::hash(&::core::mem::discriminant(self), __state); match self { Self::A(__0) => { ::core::hash::Hash::hash(__0, __state); } Self::B { x: __x, y: __y } => { ::core::hash::Hash::hash(__x, __state); ::core::hash::Hash::hash(__y, __state); } Self::C => {  } } } }

impl<T> ::core::cmp::Ord for Kind<T> where T: ::core::cmp::Ord, { fn cmp(&self, __other: &Self) -> ::core::cmp::Ordering { match self { Self::A(__0) => { match __other { Self::A(__other_0) => match ::core::cmp::Ord::cmp(__0, __other_0) { ::core::cmp::Ordering::Equal => ::core::cmp::Ordering::Equal, __cmp => __cmp, }, Self::B { .. } => ::core::cmp::Ordering::Less, Self::C { .. } => ::core::cmp::Ordering::Less, } } Self::B { x: __x, y: __y } => { match __other { Self::B { x: __other_x, y: __other_y } => match ::core::cmp::Ord::cmp(__x, __other_x) { ::core::cmp::Ordering::Equal => match ::core::cmp::Ord::cmp(__y, __other_y) { ::core::cmp::Ordering::Equal => ::core::cmp::Ordering::Equal, __cmp => __cmp, }, __cmp => __cmp, }, Self::A { .. } => ::core::cmp::Ordering::Greater, Self::C { .. } => ::core::cmp::Ordering::Less, } } Self::C => { match __other { Self::C => ::core::cmp::Ordering::Equal, Self::A { .. } => ::core::cmp::Ordering::Greater, Self::B { .. } => ::core::cmp::Ordering::Greater, } } } } }

impl<T> ::core::cmp::PartialEq for Kind<T> where T: ::core::cmp::PartialEq, { fn eq(&self, __other: &Self) -> bool { if ::core::mem::discriminant(self) == ::core::mem::discriminant(__other) { let mut __cmp = true; match (self, __other) { (Self::A(__0), Self::A(__other_0)) => { __cmp &= ::core::cmp::PartialEq::eq(__0, __other_0); } (Self::B { x: __x, y: __y }, Self::B { x: __other_x, y: __other_y }) => { __cmp &= ::core::cmp::PartialEq::eq(__x, __other_x); __cmp &= ::core::cmp::PartialEq::eq(__y, __other_y); } (Self::C, Self::C) => {  } _ => { __cmp = false; } } __cmp } else { false } } }

impl<T> ::core::cmp::PartialOrd for Kind<T> where T: ::core::cmp::PartialOrd, { fn partial_cmp(&self, __other: &Self) -> ::core::option::Option<::core::cmp::Ordering> { match self { Self::A(__0) => { match __other { Self::A(__other_0) => match ::core::cmp::PartialOrd::partial_cmp(__0, __other_0) { ::core::option::Option::Some(::core::cmp::Ordering::Equal) => ::core::option::Option::Some(::core::cmp::Ordering::Equal), __cmp => __cmp, }, Self::B { .. } => ::core::option::Option::Some(::core::cmp::Ordering::Less), Self::C { .. } => ::core::option::Option::Some(::core::cmp::Ordering::Less), } } Self::B { x: __x, y: __y } => { match __other { Self::B { x: __other_x, y: __other_y } => match ::core::cmp::PartialOrd::partial_cmp(__x, __other_x) { ::core::option::Option::Some(::core::cmp::Ordering::Equal) => match ::core::cmp::PartialOrd::partial_cmp(__y, __other_y) { ::core::option::Option::Some(::core::cmp::Ordering::Equal) => ::core::option::Option::Some(::core::cmp::Ordering::Equal), __cmp => __cmp, }, __cmp => __cmp, }, Self::A { .. } => ::core::option::Option::Some(::core::cmp::Ordering::Greater), Self::C { .. } => ::core::option::Option::Some(::core::cmp::Ordering::Less), } } Self::C => { match __other { Self::C => ::core::option::Option::Some(::core::cmp::Ordering::Equal), Self::A { .. } => ::core::option::Option::Some(::core::cmp::Ordering::Greater), Self::B { .. } => ::core::option::Option::Some(::core::cmp::Ordering::Greater), } } } } }

const TEST: [(&str, &str); 8] = [
    ("T; Clone", "impl<T> ::core::clone::Clone for Test<T> where T: ::core::clone::Clone, { fn clone(&self) -> Self { match self { Self { a: __a, b: __b, c: __c } => Self { a: ::core::clone::Clone::clone(&__a), b: ::core::clone::Clone::clone(&__b), c: ::core::clone::Clone::clone(&__c) }, } } }"),
    ("T; Copy", "impl<T> ::core::marker::Copy for Test<T> where T: ::core::marker::Copy, {  }"),
    ("T; Debug", "impl<T> ::core::fmt::Debug for Test<T> where T: ::core::fmt::Debug, { fn fmt(&self, __f: &mut ::core::fmt::Formatter<'_>) -> ::core::fmt::Result { match self { Self { a: __a, b: __b, c: __c } => { let mut __builder = ::core::fmt::Formatter::debug_struct(__f, \"Test\"); ::core::fmt::DebugStruct::field(&mut __builder, \"a\", __a); ::core::fmt::DebugStruct::field(&mut __builder, \"b\", __b); ::core::fmt::DebugStruct::field(&mut __builder, \"c\", __c); ::core::fmt::DebugStruct::finish(&mut __builder) } } } }"),
    ("T; Eq", "impl<T> ::core::cmp::Eq for Test<T> where T: ::core::cmp::Eq, {  }"),
    ("T; Hash", "impl<T> ::core::hash::Hash for Test<T> where T: ::core::hash::Hash, { fn hash<__H: ::core::hash::Hasher>(&self, __state: &mut __H) { match self { Self { a: __a, b: __b, c: __c } => { ::core::hash::Hash::hash(__a, __state); ::core::hash::Hash::hash(__b, __state); ::core::hash::Hash::hash(__c, __state); } } } }"),
    ("T; Ord", "impl<T> ::core::cmp::Ord for Test<T> where T: ::core::cmp::Ord, { fn cmp(&self, __other: &Self) -> ::core::cmp::Ordering { match self { Self { a: __a, b: __b, c: __c } => { match __other { Self { a: __other_a, b: __other_b, c: __other_c } => match ::core::cmp::Ord::cmp(__a, __other_a) { ::core::cmp::Ordering::Equal => match ::core::cmp::Ord::cmp(__b, __other_b) { ::core::cmp::Ordering::Equal => match ::core::cmp::Ord::cmp(__c, __other_c) { ::core::cmp::Ordering::Equal => ::core::cmp::Ordering::Equal, __cmp => __cmp, }, __cmp => __cmp, }, __cmp => __cmp, },  } } } } }"),
    ("T; PartialEq", "impl<T> ::core::cmp::PartialEq for Test<T> where T: ::core::cmp::PartialEq, { fn eq(&self, __other: &Self) -> bool { if ::core::mem::discriminant(self) == ::core::mem::discriminant(__other) { let mut __cmp = true; match (self, __other) { (Self { a: __a, b: __b, c: __c }, Self { a: __other_a, b: __other_b, c: __other_c }) => { __cmp &= ::core::cmp::PartialEq::eq(__a, __other_a); __cmp &= ::core::cmp::PartialEq::eq(__b, __other_b); __cmp &= ::core::cmp::PartialEq::eq(__c, __other_c); } _ => { __cmp = false; } } __cmp } else { false } } }"),
    ("T; PartialOrd", "impl<T> ::core::cmp::PartialOrd for Test<T> where T: ::core::cmp::PartialOrd, { fn partial_cmp(&self, __other: &Self) -> ::core::option::Option<::core::cmp::Ordering> { match self { Self { a: __a, b: __b, c: __c } => { match __other { Self { a: __other_a, b: __other_b, c: __other_c } => match ::core::cmp::PartialOrd::partial_cmp(__a, __other_a) { ::core::option::Option::Some(::core::cmp::Ordering::Equal) => match ::core::cmp::PartialOrd::partial_cmp(__b, __other_b) { ::core::option::Option::Some(::core::cmp::Ordering::Equal) => match ::core::cmp::PartialOrd::partial_cmp(__c, __other_c) { ::core::option::Option::Some(::core::cmp::Ordering::Equal) => ::core::option::Option::Some(::core::cmp::Ordering::Equal), __cmp => __cmp, }, __cmp => __cmp, }, __cmp => __cmp, },  } } } } }"),
];

const KIND: [(&str, &str); 8] = [
    ("T; Clone", "impl<T> ::core::clone::Clone for Kind<T> where T: ::core::clone::Clone, { fn clone(&self) -> Self { match self { Self::A(__0) => Self::A(::core::clone::Clone::clone(&__0)), Self::B { x: __x, y: __y } => Self::B { x: ::core::clone::Clone::clone(&__x), y: ::core::clone::Clone::clone(&__y) }, Self::C => Self::C, } } }"),
    ("T; Copy", "impl<T> ::core::marker::Copy for Kind<T> where T: ::core::marker::Copy, {  }"),
    ("T; Debug", "impl<T> ::core::fmt::Debug for Kind<T> where T: ::core::fmt::Debug, { fn fmt(&self, __f: &mut ::core::fmt::Formatter<'_>) -> ::core::fmt::Result { match self { Self::A(__0) => { let mut __builder = ::core::fmt::Formatter::debug_tuple(__f, \"A\"); ::core::fmt::DebugTuple::field(&mut __builder, __0); ::core::fmt::DebugTuple::finish(&mut __builder) } Self::B { x: __x, y: __y } => { let mut __builder = ::core::fmt::Formatter::debug_struct(__f, \"B\"); ::core::fmt::DebugStruct::field(&mut __builder, \"x\", __x); ::core::fmt::DebugStruct::field(&mut __builder, \"y\", __y); ::core::fmt::DebugStruct::finish(&mut __builder) } Self::C => ::core::fmt::Formatter::write_str(__f, \"C\"), } } }"),
    ("T; Eq", "impl<T> ::core::cmp::Eq for Kind<T> where T: ::core::cmp::Eq, {  }"),
    ("T; Hash", "impl<T> ::core::hash::Hash for Kind<T> where T: ::core::hash::Hash, { fn hash<__H: ::core::hash::Hasher>(&self, __state: &mut __H) { ::core::hash::Hash::hash(&::core::mem::discriminant(self), __state); match self { Self::A(__0) => { ::core::hash::Hash::hash(__0, __state); } Self::B { x: __x, y: __y } => { ::core::hash::Hash::hash(__x, __state); ::core::hash::Hash::hash(__y, __state); } Self::C => {  } } } }"),
    ("T; Ord", "impl<T> ::core::cmp::Ord for Kind<T> where T: ::core::cmp::Ord, { fn cmp(&self, __other: &Self) -> ::core::cmp::Ordering { match self { Self::A(__0) => { match __other { Self::A(__other_0) => match ::core::cmp::Ord::cmp(__0, __other_0) { ::core::cmp::Ordering::Equal => ::core::cmp::Ordering::Equal, __cmp => __cmp, }, Self::B { .. } => ::core::cmp::Ordering::Less, Self::C { .. } => ::core::cmp::Ordering::Less, } } Self::B { x: __x, y: __y } => { match __other { Self::B { x: __other_x, y: __other_y } => match ::core::cmp::Ord::cmp(__x, __other_x) { ::core::cmp::Ordering::Equal => match ::core::cmp::Ord::cmp(__y, __other_y) { ::core::cmp::Ordering::Equal => ::core::cmp::Ordering::Equal, __cmp => __cmp, }, __cmp => __cmp, }, Self::A { .. } => ::core::cmp::Ordering::Greater, Self::C { .. } => ::core::cmp::Ordering::Less, } } Self::C => { match __other { Self::C => ::core::cmp::Ordering::Equal, Self::A { .. } => ::core::cmp::Ordering::Greater, Self::B { .. } => ::core::cmp::Ordering::Greater, } } } } }"),
    ("T; PartialEq", "impl<T> ::core::cmp::PartialEq for Kind<T> where T: ::core::cmp::PartialEq, { fn eq(&self, __other: &Self) -> bool { if ::core::mem::discriminant(self) == ::core::mem::discriminant(__other) { let mut __cmp = true; match (self, __other) { (Self::A(__0), Self::A(__other_0)) => { __cmp &= ::core::cmp::PartialEq::eq(__0, __other_0); } (Self::B { x: __x, y: __y }, Self::B { x: __other_x, y: __other_y }) => { __cmp &= ::core::cmp::PartialEq::eq(__x, __other_x); __cmp &= ::core::cmp::PartialEq::eq(__y, __other_y); } (Self::C, Self::C) => {  } _ => { __cmp = false; } } __cmp } else { false } } }"),
    ("T; PartialOrd", "impl<T> ::core::cmp::PartialOrd for Kind<T> where T: ::core::cmp::PartialOrd, { fn partial_cmp(&self, __other: &Self) -> ::core::option::Option<::core::cmp::Ordering> { match self { Self::A(__0) => { match __other { Self::A(__other_0) => match ::core::cmp::PartialOrd::partial_cmp(__0, __other_0) { ::core::option::Option::Some(::core::cmp::Ordering::Equal) => ::core::option::Option::Some(::core::cmp::Ordering::Equal), __cmp => __cmp, }, Self::B { .. } => ::core::option::Option::Some(::core::cmp::Ordering::Less), Self::C { .. } => ::core::option::Option::Some(::core::cmp::Ordering::Less), } } Self::B { x: __x, y: __y } => { match __other { Self::B { x: __other_x, y: __other_y } => match ::core::cmp::PartialOrd::partial_cmp(__x, __other_x) { ::core::option::Option::Some(::core::cmp::Ordering::Equal) => match ::core::cmp::PartialOrd::partial_cmp(__y, __other_y) { ::core::option::Option::Some(::core::cmp::Ordering::Equal) => ::core::option::Option::Some(::core::cmp::Ordering::Equal), __cmp => __cmp, }, __cmp => __cmp, }, Self::A { .. } => ::core::option::Option::Some(::core::cmp::Ordering::Greater), Self::C { .. } => ::core::option::Option::Some(::core::cmp::Ordering::Less), } } Self::C => { match __other { Self::C => ::core::option::Option::Some(::core::cmp::Ordering::Equal), Self::A { .. } => ::core::option::Option::Some(::core::cmp::Ordering::Greater), Self::B { .. } => ::core::option::Option::Some(::core::cmp::Ordering::Greater), } } } } }"),
];

fn schema(item: Item) -> TypeSchema {
    TypeSchema {
        impl_generics: b"<T>".to_vec(),
        type_generics: b"<T>".to_vec(),
        where_clause: None,
        item,
    }
}

fn hash_of<T: Hash>(value: &T) -> u64 {
    let mut hasher = DefaultHasher::new();
    value.hash(&mut hasher);
    hasher.finish()
}

#[test]
fn the_implementations_of_test_are_the_generated_ones() {
    let schema = schema(Item::Item(Data {
        ident: b"Test".to_vec(),
        fields: Fields::Named(vec![b"a".to_vec(), b"b".to_vec(), b"c".to_vec()]),
        is_union: false,
    }));
    for (attr, code) in TEST {
        let out = derive_where(attr.as_bytes(), b"", &schema).unwrap();
        assert_eq!(String::from_utf8(out).unwrap(), format!(" {}", code));
    }
}

#[test]
fn the_implementations_of_kind_are_the_generated_ones() {
    let variants = vec![
        Data { ident: b"A".to_vec(), fields: Fields::Unnamed(1), is_union: false },
        Data {
            ident: b"B".to_vec(),
            fields: Fields::Named(vec![b"x".to_vec(), b"y".to_vec()]),
            is_union: false,
        },
        Data { ident: b"C".to_vec(), fields: Fields::Unit, is_union: false },
    ];
    let schema = schema(Item::enumeration(b"Kind".to_vec(), &[], variants).unwrap());
    for (attr, code) in KIND {
        let out = derive_where(attr.as_bytes(), b"", &schema).unwrap();
        assert_eq!(String::from_utf8(out).unwrap(), format!(" {}", code));
    }
}

#[test]
fn generated_code_on_a_record() {
    let test_1 = Test { a: 42, b: 43, c: 44 };
    let test_2 = Test { a: 42, b: 43, c: 44 };

    let test_clone = test_1.clone();
    assert_eq!(test_clone.a, 42);
    assert_eq!(test_clone.b, 43);
    assert_eq!(test_clone.c, 44);

    let test_copy = test_1;
    assert_eq!(test_copy.a, 42);
    assert_eq!(test_copy.b, 43);
    assert_eq!(test_copy.c, 44);

    assert_eq!(format!("{:?}", test_1), "Test { a: 42, b: 43, c: 44 }");

    assert_eq!(hash_of(&test_1), hash_of(&test_2));

    assert!(test_1 == test_2);
    assert!(test_1 != Test { a: 43, b: 43, c: 44 });
    assert!(test_1 != Test { a: 42, b: 44, c: 44 });
    assert!(test_1 != Test { a: 42, b: 43, c: 45 });
    assert!(test_1 != Test { a: 45, b: 45, c: 45 });

    assert!(test_1 > Test { a: 41, b: 43, c: 44 });
    assert!(test_1 > Test { a: 42, b: 42, c: 44 });
    assert!(test_1 > Test { a: 42, b: 43, c: 43 });
    assert!(test_1 < Test { a: 43, b: 43, c: 44 });
    assert!(test_1 < Test { a: 42, b: 44, c: 44 });
    assert!(test_1 < Test { a: 42, b: 43, c: 45 });
    assert_eq!(test_1.cmp(&test_2), core::cmp::Ordering::Equal);
    assert_eq!(test_1.partial_cmp(&test_2), Some(core::cmp::Ordering::Equal));
}

#[test]
fn generated_code_on_an_enum() {
    let a = Kind::A(100);
    let b = Kind::B { x: 0, y: 1 };
    let c = Kind::<i32>::C;

    assert!(a < b);
    assert!(b < c);
    assert!(a < c);
    assert!(c > a);
    assert!(b > Kind::A(i32::MAX));
    assert!(Kind::A(1) < Kind::A(2));
    assert!(Kind::B { x: 0, y: 2 } > b);
    assert_eq!(c.cmp(&Kind::C), core::cmp::Ordering::Equal);
    assert_eq!(b.partial_cmp(&a), Some(core::cmp::Ordering::Greater));

    assert!(a == Kind::A(100));
    assert!(a != Kind::A(101));
    assert!(a != c);
    assert!(b == b.clone());
    assert!(c == Kind::C);

    assert_eq!(hash_of(&a), hash_of(&Kind::A(100)));
    assert_ne!(hash_of(&Kind::A(0)), hash_of(&Kind::B { x: 0, y: 0 }));

    assert_eq!(format!("{:?}", a), "A(100)");
    assert_eq!(format!("{:?}", b), "B { x: 0, y: 1 }");
    assert_eq!(format!("{:?}", c), "C");
}
