use cdecl::builder::TypeBuilder;
use cdecl::declaration::{Declaration, Storage};
use cdecl::expression::{self, Expression};
use cdecl::file::{Header, Include, IncludeMethod, TranslationUnit};
use cdecl::literal::Literal;
use cdecl::{Error, Identifier};

fn one() -> Expression {
    expression::literal(Literal::Signed(1))
}

#[test]
fn constructor_functions_render() {
    let x = expression::identifier("x").unwrap();
    assert_eq!(x.to_string(), "x");
    assert!(matches!(expression::identifier("9x"), Err(Error::BadIdentifier(_))));
    assert_eq!(expression::sizeof_type(TypeBuilder::new().long()).to_string(), "sizeof(long)");
    assert_eq!(expression::ternary(one(), one(), one()).to_string(), "(1) ? (1) : (1)");
    assert_eq!(
        expression::cast(one(), TypeBuilder::new().unsigned_char()).to_string(),
        "(unsigned char)(1)"
    );
    assert_eq!(expression::array_access(one(), one()).to_string(), "(1)[1]");
    assert_eq!(expression::struct_access(one(), "f").unwrap().to_string(), "(1).f");
    assert_eq!(expression::struct_dereference(one(), "g").unwrap().to_string(), "(1)->g");
    assert!(expression::struct_access(one(), "").is_err());
    assert!(expression::struct_dereference(one(), "a b").is_err());
    assert_eq!(expression::prefix_inc(one()).to_string(), "++(1)");
    assert_eq!(expression::sizeof_exp(one()).to_string(), "sizeof(1)");
    assert_eq!(expression::logical_neg(one()).to_string(), "!(1)");
    assert_eq!(expression::subtract(one(), one()).to_string(), "1 - 1");
    assert_eq!(expression::bitwsie_and_assign(one(), one()).to_string(), "1 &= 1");
    assert_eq!(expression::comma(one(), one()).to_string(), "1 , 1");
    assert_eq!(expression::add(one(), one()).to_string(), "1 + 1");
}

#[test]
fn storage_keywords() {
    assert_eq!(Storage::Auto.to_string(), "auto");
    assert_eq!(Storage::Static.to_string(), "static");
    assert_eq!(Storage::Register.to_string(), "register");
    assert_eq!(Storage::Extern.to_string(), "extern");
    assert_eq!(Storage::Typedef.to_string(), "typedef");
}

#[test]
fn declarations() {
    let d = Declaration {
        storage: Some(Storage::Static),
        declared_type: TypeBuilder::new().pointer_to().constant().char(),
        name: Some(Identifier::new("greeting").unwrap()),
    };
    assert_eq!(d.to_string(), "static const char * greeting;");
    let bare = Declaration {
        storage: None,
        declared_type: TypeBuilder::new().struct_named("s").unwrap().with_fields().finish(),
        name: None,
    };
    assert_eq!(bare.to_string(), "struct s { };");
}

#[test]
fn includes() {
    let q = Include { method: IncludeMethod::Quote, path: "a.h".to_string() };
    let b = Include { method: IncludeMethod::Bracket, path: "stdio.h".to_string() };
    assert_eq!(q.to_string(), "#include \"a.h\"");
    assert_eq!(b.to_string(), "#include <stdio.h>");
}

#[test]
fn guarded_header() {
    let h = Header {
        guard: Some(Identifier::new("A_H").unwrap()),
        includes: vec![Include { method: IncludeMethod::Bracket, path: "stddef.h".to_string() }],
        declarations: vec![Declaration {
            storage: Some(Storage::Extern),
            declared_type: TypeBuilder::new().signed_int(),
            name: Some(Identifier::new("count").unwrap()),
        }],
    };
    assert_eq!(
        h.to_string(),
        "#ifndef A_H\n#define A_H\n#include <stddef.h>\nextern int count;\n#endif // A_H\n"
    );
    let open = Header { guard: None, includes: Vec::new(), declarations: Vec::new() };
    assert_eq!(open.to_string(), "");
}

#[test]
fn translation_unit() {
    let u = TranslationUnit {
        includes: vec![Include { method: IncludeMethod::Quote, path: "x.h".to_string() }],
        declarations: vec![
            Declaration {
                storage: None,
                declared_type: TypeBuilder::new().double(),
                name: Some(Identifier::new("d").unwrap()),
            },
            Declaration {
                storage: Some(Storage::Typedef),
                declared_type: TypeBuilder::new().pointer_to().function_returning(Vec::new()).void(),
                name: Some(Identifier::new("callback").unwrap()),
            },
        ],
    };
    assert_eq!(
        u.to_string(),
        "#include \"x.h\"\ndouble d;\ntypedef void (* callback)();\n"
    );
}
