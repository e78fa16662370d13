use cdecl::builder::TypeBuilder;
use cdecl::expression::Expression;
use cdecl::literal::Literal;
use cdecl::Identifier;

#[test]
fn unnamed_type() {
    let t = TypeBuilder::new()
        .sized_array_of(Expression::Literal(Literal::Signed(5)))
        .volatile()
        .pointer_to()
        .pointer_to()
        .function_returning(vec![
            TypeBuilder::new().signed_int(),
            TypeBuilder::new()
                .constant()
                .pointer_to()
                .alias_named("__m256i")
                .unwrap(),
        ])
        .volatile()
        .pointer_to()
        .constant()
        .union_named("u")
        .unwrap()
        .finish();
    assert_eq!(
        t.to_string(),
        "const union u * volatile (* * volatile [5])(int, __m256i * const)"
    );
}

#[test]
fn named_type() {
    let t = TypeBuilder::new()
        .pointer_to()
        .constant()
        .pointer_to()
        .function_returning(Vec::new())
        .long_double();
    assert_eq!(
        t.render(Some(&Identifier::new("foo").unwrap())),
        "long double (* const * foo)()"
    );
}

#[test]
fn empty_anon_enum() {
    let t = TypeBuilder::new().anonymous_enum().finish();
    assert_eq!(
        t.render(Some(&Identifier::new("foo").unwrap())),
        "enum { } foo"
    );
}

#[test]
fn empty_anon_struct() {
    let t = TypeBuilder::new().anonymous_struct().finish();
    assert_eq!(
        t.render(Some(&Identifier::new("foo").unwrap())),
        "struct { } foo"
    );
}

#[test]
fn empty_anon_union() {
    let t = TypeBuilder::new().anonymous_union().finish();
    assert_eq!(
        t.render(Some(&Identifier::new("foo").unwrap())),
        "union { } foo"
    );
}

#[test]
fn empty_named_enum() {
    let t = TypeBuilder::new()
        .enum_named("foo")
        .unwrap()
        .with_enumerators()
        .finish();
    assert_eq!(
        t.render(Some(&Identifier::new("bar").unwrap())),
        "enum foo { } bar"
    );
}

#[test]
fn empty_named_struct() {
    let t = TypeBuilder::new()
        .struct_named("foo")
        .unwrap()
        .with_fields()
        .finish();
    assert_eq!(
        t.render(Some(&Identifier::new("bar").unwrap())),
        "struct foo { } bar"
    );
}

#[test]
fn empty_named_union() {
    let t = TypeBuilder::new()
        .union_named("foo")
        .unwrap()
        .with_fields()
        .finish();
    assert_eq!(
        t.render(Some(&Identifier::new("bar").unwrap())),
        "union foo { } bar"
    );
}

#[test]
fn struct_fields() {
    let t = TypeBuilder::new()
        .anonymous_struct()
        .anonymous_field(TypeBuilder::new().signed_int())
        .named_field(TypeBuilder::new().array_of().pointer_to().void(), "foo")
        .unwrap()
        .named_bit_field(
            TypeBuilder::new().char(),
            "bar",
            Expression::Literal(Literal::Signed(1)),
        )
        .unwrap()
        .finish();
    assert_eq!(t.to_string(), "struct { int; void * foo[]; char bar : 1; }");
}

#[test]
fn enumerators() {
    let t = TypeBuilder::new()
        .anonymous_enum()
        .enumerator("FOO")
        .unwrap()
        .enumerator_with_value("BAR", Expression::Literal(Literal::Signed(1)))
        .unwrap()
        .finish();
    assert_eq!(t.to_string(), "enum { FOO, BAR = 1 }");
}
