use cdecl::{Error, Identifier};

#[test]
fn valid() {
    let ident = Identifier::new("_Some_valid_ident5").unwrap();
    assert_eq!(ident.to_string(), "_Some_valid_ident5");
}

#[test]
fn num_start() {
    Identifier::new("1test").unwrap_err();
}

#[test]
fn bad_char() {
    Identifier::new("hello/world").unwrap_err();
}

#[test]
fn empty_name_is_rejected() {
    match Identifier::new("") {
        Err(Error::BadIdentifier(s)) => assert_eq!(s, ""),
        Ok(_) => panic!("empty name accepted"),
    }
}

#[test]
fn rejected_name_is_reported() {
    match Identifier::new("a-b") {
        Err(Error::BadIdentifier(s)) => assert_eq!(s, "a-b"),
        Ok(_) => panic!("a-b accepted"),
    }
}

#[test]
fn single_underscore_and_letters_are_accepted() {
    assert_eq!(Identifier::new("_").unwrap().as_str(), "_");
    assert_eq!(Identifier::new("x").unwrap().as_str(), "x");
    assert_eq!(Identifier::new("Z9_z").unwrap().as_str(), "Z9_z");
}

#[test]
fn non_ascii_letters_are_rejected() {
    assert!(Identifier::new("caf\u{e9}").is_err());
    assert!(Identifier::new("\u{e9}t\u{e9}").is_err());
    assert!(Identifier::new("a b").is_err());
    assert!(Identifier::new("9").is_err());
}
