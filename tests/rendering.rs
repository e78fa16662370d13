use cdecl::builder::TypeBuilder;
use cdecl::expression::Expression;
use cdecl::literal::Literal;
use cdecl::types::Qualifiers;
use cdecl::{Error, Identifier};

fn name(s: &str) -> Identifier {
    Identifier::new(s).unwrap()
}

#[test]
fn rendering_twice_gives_the_same_text() {
    let t = TypeBuilder::new()
        .pointer_to()
        .sized_array_of(Expression::Literal(Literal::Unsigned(3)))
        .constant()
        .char();
    let first = t.render(Some(&name("x")));
    let second = t.render(Some(&name("x")));
    assert_eq!(first, second);
    assert_eq!(first, "const char (* x)[3U]");
    assert_eq!(t.to_string(), t.to_string());
}

#[test]
fn pointer_then_array_is_grouped() {
    let t = TypeBuilder::new().pointer_to().sized_array_of(Expression::Literal(Literal::Signed(5))).signed_int();
    assert_eq!(t.render(Some(&name("x"))), "int (* x)[5]");
    assert_eq!(t.to_string(), "int (*)[5]");
}

#[test]
fn pointer_then_function_is_grouped() {
    let t = TypeBuilder::new()
        .pointer_to()
        .function_returning(vec![TypeBuilder::new().double()])
        .void();
    assert_eq!(t.render(Some(&name("f"))), "void (* f)(double)");
}

#[test]
fn array_then_pointer_is_not_grouped() {
    let t = TypeBuilder::new().array_of().pointer_to().unsigned_long();
    assert_eq!(t.render(Some(&name("a"))), "unsigned long * a[]");
}

#[test]
fn two_pointers_are_not_grouped() {
    let t = TypeBuilder::new().pointer_to().pointer_to().short();
    assert_eq!(t.render(Some(&name("p"))), "short * * p");
    assert_eq!(t.to_string(), "short * *");
}

#[test]
fn arrays_and_functions_chain_without_grouping() {
    let t = TypeBuilder::new()
        .array_of()
        .sized_array_of(Expression::Literal(Literal::Signed(2)))
        .unsigned_short();
    assert_eq!(t.render(Some(&name("m"))), "unsigned short m[][2]");
    let f = TypeBuilder::new()
        .function_returning(Vec::new())
        .function_returning(vec![TypeBuilder::new().long_long(), TypeBuilder::new().float()])
        .signed_char();
    assert_eq!(f.render(Some(&name("g"))), "signed char g()(long long, float)");
}

#[test]
fn every_scalar_spelling() {
    let cases = vec![
        (TypeBuilder::new().void(), "void"),
        (TypeBuilder::new().char(), "char"),
        (TypeBuilder::new().signed_char(), "signed char"),
        (TypeBuilder::new().unsigned_char(), "unsigned char"),
        (TypeBuilder::new().short(), "short"),
        (TypeBuilder::new().unsigned_short(), "unsigned short"),
        (TypeBuilder::new().signed_int(), "int"),
        (TypeBuilder::new().unsigned_int(), "unsigned int"),
        (TypeBuilder::new().long(), "long"),
        (TypeBuilder::new().unsigned_long(), "unsigned long"),
        (TypeBuilder::new().long_long(), "long long"),
        (TypeBuilder::new().unsigned_long_long(), "unsigned long long"),
        (TypeBuilder::new().float(), "float"),
        (TypeBuilder::new().double(), "double"),
        (TypeBuilder::new().long_double(), "long double"),
    ];
    for (t, text) in cases {
        assert_eq!(t.to_string(), text);
    }
}

#[test]
fn qualified_bases() {
    assert_eq!(TypeBuilder::new().volatile().signed_int().to_string(), "volatile int");
    assert_eq!(
        TypeBuilder::new().constant_volatile().unsigned_int().to_string(),
        "const volatile unsigned int"
    );
    let p = TypeBuilder::new().constant_volatile().pointer_to().alias_named("T").unwrap();
    assert_eq!(p.render(Some(&name("q"))), "T * const volatile q");
}

#[test]
fn qualifiers_text() {
    assert_eq!(Qualifiers::none().to_string(), "");
    assert!(Qualifiers::none().is_none());
    let both = Qualifiers { constant: true, volatile: true };
    assert_eq!(both.to_string(), "const volatile");
    assert!(!both.is_none());
    assert_eq!(Qualifiers { constant: true, volatile: false }.to_string(), "const");
    assert_eq!(Qualifiers { constant: false, volatile: true }.to_string(), "volatile");
}

#[test]
fn forward_references_have_no_body() {
    let s = TypeBuilder::new().struct_named("node").unwrap().finish();
    assert_eq!(s.render(Some(&name("n"))), "struct node n");
    let u = TypeBuilder::new().union_named("word").unwrap().finish();
    assert_eq!(u.to_string(), "union word");
    let e = TypeBuilder::new().enum_named("color").unwrap().finish();
    assert_eq!(e.to_string(), "enum color");
}

#[test]
fn empty_body_differs_from_no_body() {
    let defined = TypeBuilder::new().struct_named("s").unwrap().with_fields().finish();
    let referenced = TypeBuilder::new().struct_named("s").unwrap().finish();
    assert_eq!(defined.to_string(), "struct s { }");
    assert_eq!(referenced.to_string(), "struct s");
    let defined = TypeBuilder::new().enum_named("e").unwrap().with_enumerators().finish();
    let referenced = TypeBuilder::new().enum_named("e").unwrap().finish();
    assert_eq!(defined.to_string(), "enum e { }");
    assert_eq!(referenced.to_string(), "enum e");
}

#[test]
fn bad_names_fail_each_naming_step() {
    assert!(matches!(TypeBuilder::new().alias_named("2x"), Err(Error::BadIdentifier(_))));
    assert!(TypeBuilder::new().struct_named("").is_err());
    assert!(TypeBuilder::new().union_named("a.b").is_err());
    assert!(TypeBuilder::new().enum_named("-").is_err());
    assert!(TypeBuilder::new().constant().alias_named("x y").is_err());
    assert!(TypeBuilder::new()
        .anonymous_struct()
        .named_field(TypeBuilder::new().signed_int(), "1")
        .is_err());
    assert!(TypeBuilder::new()
        .anonymous_struct()
        .named_bit_field(TypeBuilder::new().signed_int(), "", Expression::Literal(Literal::Signed(1)))
        .is_err());
    assert!(TypeBuilder::new().anonymous_enum().enumerator("a+").is_err());
    assert!(TypeBuilder::new()
        .anonymous_enum()
        .enumerator_with_value("%", Expression::Literal(Literal::Signed(1)))
        .is_err());
}

#[test]
fn anonymous_bit_field_and_union_members() {
    let t = TypeBuilder::new()
        .anonymous_union()
        .anonymous_bit_field(TypeBuilder::new().unsigned_int(), Expression::Literal(Literal::Signed(0)))
        .named_field(TypeBuilder::new().pointer_to().char(), "s")
        .unwrap()
        .finish();
    assert_eq!(t.to_string(), "union { unsigned int : 0; char * s; }");
}

#[test]
fn single_enumerator_has_no_comma() {
    let t = TypeBuilder::new()
        .enum_named("one")
        .unwrap()
        .with_enumerators()
        .enumerator_with_value("ONLY", Expression::Literal(Literal::Signed(-7)))
        .unwrap()
        .finish();
    assert_eq!(t.render(Some(&name("v"))), "enum one { ONLY = -7 } v");
}

#[test]
fn three_enumerators() {
    let t = TypeBuilder::new()
        .anonymous_enum()
        .enumerator("A")
        .unwrap()
        .enumerator("B")
        .unwrap()
        .enumerator("C")
        .unwrap()
        .finish();
    assert_eq!(t.to_string(), "enum { A, B, C }");
}

#[test]
fn nested_struct_field() {
    let inner = TypeBuilder::new()
        .anonymous_struct()
        .named_field(TypeBuilder::new().signed_int(), "x")
        .unwrap()
        .finish();
    let outer = TypeBuilder::new()
        .struct_named("outer")
        .unwrap()
        .with_fields()
        .named_field(inner, "in")
        .unwrap()
        .finish();
    assert_eq!(outer.to_string(), "struct outer { struct { int x; } in; }");
}

#[test]
fn qualified_struct_pointer_array() {
    let t = TypeBuilder::new()
        .sized_array_of(Expression::Literal(Literal::Signed(4)))
        .pointer_to()
        .constant()
        .struct_named("s")
        .unwrap()
        .finish();
    assert_eq!(t.render(Some(&name("a"))), "const struct s * a[4]");
}
