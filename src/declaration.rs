use vstd::prelude::*;

use crate::identifier::Identifier;
use crate::text::push_char;
use crate::types::{name_text, push_spaced, spaced, type_text, Type};

verus! {

/// A storage-class specifier.
#[derive(Debug)]
pub enum Storage {
    Auto,
    Static,
    Register,
    Extern,
    Typedef,
}

/// The C keyword of a storage class.
pub open spec fn storage_text(s: Storage) -> Seq<char> {
    match s {
        Storage::Auto => "auto"@,
        Storage::Static => "static"@,
        Storage::Register => "register"@,
        Storage::Extern => "extern"@,
        Storage::Typedef => "typedef"@,
    }
}

impl Storage {
    /// The storage class's keyword.
    pub fn to_string(&self) -> (r: String)
        ensures
            r@ == storage_text(*self),
    {
        match self {
            Storage::Auto => String::from_str("auto"),
            Storage::Static => String::from_str("static"),
            Storage::Register => String::from_str("register"),
            Storage::Extern => String::from_str("extern"),
            Storage::Typedef => String::from_str("typedef"),
        }
    }
}

/// A declaration of one name, or of a type alone, with an optional storage class.
#[derive(Debug)]
pub struct Declaration {
    pub storage: Option<Storage>,
    pub declared_type: Type,
    pub name: Option<Identifier>,
}

/// `storage type name;`, each part present only where given.
pub open spec fn declaration_text(d: Declaration) -> Seq<char> {
    let storage = match d.storage {
        Some(s) => storage_text(s),
        None => Seq::empty(),
    };
    spaced(storage, type_text(d.declared_type, name_text(d.name))) + seq![';']
}

impl Declaration {
    /// The declaration's C text, ending in `;`.
    pub fn to_string(&self) -> (r: String)
        ensures
            r@ == declaration_text(*self),
    {
        let mut out = match &self.storage {
            Some(s) => s.to_string(),
            None => String::new(),
        };
        let declared = match &self.name {
            Some(id) => self.declared_type.render(Some(id)),
            None => self.declared_type.render(None),
        };
        push_spaced(&mut out, declared.as_str());
        push_char(&mut out, ';');
        out
    }
}

} // verus!
