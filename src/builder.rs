use vstd::prelude::*;

use crate::error::Error;
use crate::expression::Expression;
use crate::identifier::{is_identifier, Identifier};
use crate::types::{BaseType, Enumerator, Field, Qualifiers, StructType, Type, TypeModifier};

verus! {

/// The name an optional identifier carries.
pub open spec fn name_view(name: Option<Identifier>) -> Option<Seq<char>> {
    match name {
        Some(id) => Some(id@),
        None => None,
    }
}

/// The start of every type: modifiers so far, nothing qualified yet.
pub struct TypeBuilder {
    modifiers: Vec<TypeModifier>,
}

impl TypeBuilder {
    /// The modifiers attached so far, the first nearest the declared name.
    pub closed spec fn pending_modifiers(&self) -> Seq<TypeModifier> {
        self.modifiers@
    }

    /// Qualifiers that the terminal step gives the base: none here.
    pub open spec fn pending_qualifiers(&self) -> Qualifiers {
        Qualifiers { constant: false, volatile: false }
    }

    fn get_qualifiers_modifiers(self) -> (r: (Qualifiers, Vec<TypeModifier>))
        ensures
            r.0 == self.pending_qualifiers(),
            r.1@ == self.pending_modifiers(),
    {
        (Qualifiers::none(), self.modifiers)
    }

    /// Ends the chain in `void`.
    pub fn void(self) -> (r: Type)
        ensures
            r.base == BaseType::Void,
            r.qualifiers == self.pending_qualifiers(),
            r.modifiers@ == self.pending_modifiers(),
    {
        let (qualifiers, modifiers) = self.get_qualifiers_modifiers();
        Type { base: BaseType::Void, qualifiers, modifiers }
    }

    /// Ends the chain in `char`.
    pub fn char(self) -> (r: Type)
        ensures
            r.base == BaseType::Char,
            r.qualifiers == self.pending_qualifiers(),
            r.modifiers@ == self.pending_modifiers(),
    {
        let (qualifiers, modifiers) = self.get_qualifiers_modifiers();
        Type { base: BaseType::Char, qualifiers, modifiers }
    }

    /// Ends the chain in `unsigned char`.
    pub fn unsigned_char(self) -> (r: Type)
        ensures
            r.base == BaseType::UnsignedChar,
            r.qualifiers == self.pending_qualifiers(),
            r.modifiers@ == self.pending_modifiers(),
    {
        let (qualifiers, modifiers) = self.get_qualifiers_modifiers();
        Type { base: BaseType::UnsignedChar, qualifiers, modifiers }
    }

    /// Ends the chain in `signed char`.
    pub fn signed_char(self) -> (r: Type)
        ensures
            r.base == BaseType::SignedChar,
            r.qualifiers == self.pending_qualifiers(),
            r.modifiers@ == self.pending_modifiers(),
    {
        let (qualifiers, modifiers) = self.get_qualifiers_modifiers();
        Type { base: BaseType::SignedChar, qualifiers, modifiers }
    }

    /// Ends the chain in `short`.
    pub fn short(self) -> (r: Type)
        ensures
            r.base == BaseType::Short,
            r.qualifiers == self.pending_qualifiers(),
            r.modifiers@ == self.pending_modifiers(),
    {
        let (qualifiers, modifiers) = self.get_qualifiers_modifiers();
        Type { base: BaseType::Short, qualifiers, modifiers }
    }

    /// Ends the chain in `unsigned short`.
    pub fn unsigned_short(self) -> (r: Type)
        ensures
            r.base == BaseType::UnsignedShort,
            r.qualifiers == self.pending_qualifiers(),
            r.modifiers@ == self.pending_modifiers(),
    {
        let (qualifiers, modifiers) = self.get_qualifiers_modifiers();
        Type { base: BaseType::UnsignedShort, qualifiers, modifiers }
    }

    /// Ends the chain in `int`.
    pub fn signed_int(self) -> (r: Type)
        ensures
            r.base == BaseType::Int,
            r.qualifiers == self.pending_qualifiers(),
            r.modifiers@ == self.pending_modifiers(),
    {
        let (qualifiers, modifiers) = self.get_qualifiers_modifiers();
        Type { base: BaseType::Int, qualifiers, modifiers }
    }

    /// Ends the chain in `unsigned int`.
    pub fn unsigned_int(self) -> (r: Type)
        ensures
            r.base == BaseType::UnsignedInt,
            r.qualifiers == self.pending_qualifiers(),
            r.modifiers@ == self.pending_modifiers(),
    {
        let (qualifiers, modifiers) = self.get_qualifiers_modifiers();
        Type { base: BaseType::UnsignedInt, qualifiers, modifiers }
    }

    /// Ends the chain in `long`.
    pub fn long(self) -> (r: Type)
        ensures
            r.base == BaseType::Long,
            r.qualifiers == self.pending_qualifiers(),
            r.modifiers@ == self.pending_modifiers(),
    {
        let (qualifiers, modifiers) = self.get_qualifiers_modifiers();
        Type { base: BaseType::Long, qualifiers, modifiers }
    }

    /// Ends the chain in `unsigned long`.
    pub fn unsigned_long(self) -> (r: Type)
        ensures
            r.base == BaseType::UnsignedLong,
            r.qualifiers == self.pending_qualifiers(),
            r.modifiers@ == self.pending_modifiers(),
    {
        let (qualifiers, modifiers) = self.get_qualifiers_modifiers();
        Type { base: BaseType::UnsignedLong, qualifiers, modifiers }
    }

    /// Ends the chain in `long long`.
    pub fn long_long(self) -> (r: Type)
        ensures
            r.base == BaseType::LongLong,
            r.qualifiers == self.pending_qualifiers(),
            r.modifiers@ == self.pending_modifiers(),
    {
        let (qualifiers, modifiers) = self.get_qualifiers_modifiers();
        Type { base: BaseType::LongLong, qualifiers, modifiers }
    }

    /// Ends the chain in `unsigned long long`.
    pub fn unsigned_long_long(self) -> (r: Type)
        ensures
            r.base == BaseType::UnsignedLongLong,
            r.qualifiers == self.pending_qualifiers(),
            r.modifiers@ == self.pending_modifiers(),
    {
        let (qualifiers, modifiers) = self.get_qualifiers_modifiers();
        Type { base: BaseType::UnsignedLongLong, qualifiers, modifiers }
    }

    /// Ends the chain in `float`.
    pub fn float(self) -> (r: Type)
        ensures
            r.base == BaseType::Float,
            r.qualifiers == self.pending_qualifiers(),
            r.modifiers@ == self.pending_modifiers(),
    {
        let (qualifiers, modifiers) = self.get_qualifiers_modifiers();
        Type { base: BaseType::Float, qualifiers, modifiers }
    }

    /// Ends the chain in `double`.
    pub fn double(self) -> (r: Type)
        ensures
            r.base == BaseType::Double,
            r.qualifiers == self.pending_qualifiers(),
            r.modifiers@ == self.pending_modifiers(),
    {
        let (qualifiers, modifiers) = self.get_qualifiers_modifiers();
        Type { base: BaseType::Double, qualifiers, modifiers }
    }

    /// Ends the chain in `long double`.
    pub fn long_double(self) -> (r: Type)
        ensures
            r.base == BaseType::LongDouble,
            r.qualifiers == self.pending_qualifiers(),
            r.modifiers@ == self.pending_modifiers(),
    {
        let (qualifiers, modifiers) = self.get_qualifiers_modifiers();
        Type { base: BaseType::LongDouble, qualifiers, modifiers }
    }

    /// Ends the chain in the typedef name `name`; fails when `name` is not an identifier.
    pub fn alias_named(self, name: &str) -> (r: Result<Type, Error>)
        ensures
            r is Ok <==> is_identifier(name@),
            r matches Ok(t) ==> {
                &&& t.base matches BaseType::Alias(id) && id@ == name@
                &&& t.qualifiers == self.pending_qualifiers()
                &&& t.modifiers@ == self.pending_modifiers()
            },
            r matches Err(Error::BadIdentifier(s)) ==> s@ == name@,
    {
        let (qualifiers, modifiers) = self.get_qualifiers_modifiers();
        let id = Identifier::new(name)?;
        Ok(Type { base: BaseType::Alias(id), qualifiers, modifiers })
    }

    /// Ends the chain in the struct tag `name`, with or without a body to follow;
    /// fails when `name` is not an identifier.
    pub fn struct_named(self, name: &str) -> (r: Result<StructBuilder, Error>)
        ensures
            r is Ok <==> is_identifier(name@),
            r matches Ok(b) ==> {
                &&& b.tag_name() == name@
                &&& b.tag_kind() == StructType::Struct
                &&& b.pending_qualifiers() == self.pending_qualifiers()
                &&& b.pending_modifiers() == self.pending_modifiers()
            },
            r matches Err(Error::BadIdentifier(s)) ==> s@ == name@,
    {
        let (qualifiers, modifiers) = self.get_qualifiers_modifiers();
        let name = Identifier::new(name)?;
        Ok(StructBuilder { qualifiers, modifiers, name, struct_type: StructType::Struct })
    }

    /// Ends the chain in the union tag `name`, with or without a body to follow;
    /// fails when `name` is not an identifier.
    pub fn union_named(self, name: &str) -> (r: Result<StructBuilder, Error>)
        ensures
            r is Ok <==> is_identifier(name@),
            r matches Ok(b) ==> {
                &&& b.tag_name() == name@
                &&& b.tag_kind() == StructType::Union
                &&& b.pending_qualifiers() == self.pending_qualifiers()
                &&& b.pending_modifiers() == self.pending_modifiers()
            },
            r matches Err(Error::BadIdentifier(s)) ==> s@ == name@,
    {
        let (qualifiers, modifiers) = self.get_qualifiers_modifiers();
        let name = Identifier::new(name)?;
        Ok(StructBuilder { qualifiers, modifiers, name, struct_type: StructType::Union })
    }

    /// Ends the chain in an anonymous struct, whose fields follow.
    pub fn anonymous_struct(self) -> (r: StructDefinitionBuilder)
        ensures
            r.tag_name() is None,
            r.tag_kind() == StructType::Struct,
            r.fields_so_far() == Seq::<Field>::empty(),
            r.pending_qualifiers() == self.pending_qualifiers(),
            r.pending_modifiers() == self.pending_modifiers(),
    {
        let (qualifiers, modifiers) = self.get_qualifiers_modifiers();
        StructDefinitionBuilder {
            qualifiers,
            modifiers,
            name: None,
            struct_type: StructType::Struct,
            fields: Vec::new(),
        }
    }

    /// Ends the chain in an anonymous union, whose fields follow.
    pub fn anonymous_union(self) -> (r: StructDefinitionBuilder)
        ensures
            r.tag_name() is None,
            r.tag_kind() == StructType::Union,
            r.fields_so_far() == Seq::<Field>::empty(),
            r.pending_qualifiers() == self.pending_qualifiers(),
            r.pending_modifiers() == self.pending_modifiers(),
    {
        let (qualifiers, modifiers) = self.get_qualifiers_modifiers();
        StructDefinitionBuilder {
            qualifiers,
            modifiers,
            name: None,
            struct_type: StructType::Union,
            fields: Vec::new(),
        }
    }

    /// Ends the chain in the enum tag `name`, with or without a body to follow;
    /// fails when `name` is not an identifier.
    pub fn enum_named(self, name: &str) -> (r: Result<EnumBuilder, Error>)
        ensures
            r is Ok <==> is_identifier(name@),
            r matches Ok(b) ==> {
                &&& b.tag_name() == name@
                &&& b.pending_qualifiers() == self.pending_qualifiers()
                &&& b.pending_modifiers() == self.pending_modifiers()
            },
            r matches Err(Error::BadIdentifier(s)) ==> s@ == name@,
    {
        let (qualifiers, modifiers) = self.get_qualifiers_modifiers();
        let name = Identifier::new(name)?;
        Ok(EnumBuilder { qualifiers, modifiers, name })
    }

    /// Ends the chain in an anonymous enum, whose enumerators follow.
    pub fn anonymous_enum(self) -> (r: EnumDefinitionBuilder)
        ensures
            r.tag_name() is None,
            r.enumerators_so_far() == Seq::<Enumerator>::empty(),
            r.pending_qualifiers() == self.pending_qualifiers(),
            r.pending_modifiers() == self.pending_modifiers(),
    {
        let (qualifiers, modifiers) = self.get_qualifiers_modifiers();
        EnumDefinitionBuilder { qualifiers, modifiers, name: None, enumerators: Vec::new() }
    }

    /// An empty chain.
    pub fn new() -> (r: TypeBuilder)
        ensures
            r.pending_modifiers() == Seq::<TypeModifier>::empty(),
    {
        TypeBuilder { modifiers: Vec::new() }
    }

    /// What follows is pointed to by an unqualified pointer.
    pub fn pointer_to(self) -> (r: TypeBuilder)
        ensures
            r.pending_modifiers() == self.pending_modifiers().push(TypeModifier::Pointer((Qualifiers { constant: false, volatile: false }))),
    {
        let mut modifiers = self.modifiers;
        modifiers.push(TypeModifier::Pointer(Qualifiers::none()));
        TypeBuilder { modifiers }
    }

    /// What follows is returned by a function taking `args`.
    pub fn function_returning(self, args: Vec<Type>) -> (r: TypeBuilder)
        ensures
            r.pending_modifiers() == self.pending_modifiers().push(TypeModifier::Function(args)),
    {
        let mut modifiers = self.modifiers;
        modifiers.push(TypeModifier::Function(args));
        TypeBuilder { modifiers }
    }

    /// What follows is the element of an array of unstated size.
    pub fn array_of(self) -> (r: TypeBuilder)
        ensures
            r.pending_modifiers() == self.pending_modifiers().push(TypeModifier::Array(None)),
    {
        let mut modifiers = self.modifiers;
        modifiers.push(TypeModifier::Array(None));
        TypeBuilder { modifiers }
    }

    /// What follows is the element of an array of `size` elements.
    pub fn sized_array_of(self, size: Expression) -> (r: TypeBuilder)
        ensures
            r.pending_modifiers().len() == self.pending_modifiers().len() + 1,
            r.pending_modifiers().drop_last() == self.pending_modifiers(),
            r.pending_modifiers().last() matches TypeModifier::Array(Some(e)) && *e == size,
    {
        let mut modifiers = self.modifiers;
        modifiers.push(TypeModifier::Array(Some(Box::new(size))));
        proof {
            assert(modifiers@.drop_last() =~= self.modifiers@);
        }
        TypeBuilder { modifiers }
    }

    /// What follows is `const`.
    pub fn constant(self) -> (r: QualifiedTypeBuilder)
        ensures
            r.pending_qualifiers() == (Qualifiers { constant: true, volatile: false }),
            r.pending_modifiers() == self.pending_modifiers(),
    {
        QualifiedTypeBuilder {
            modifiers: self.modifiers,
            qualifiers: Qualifiers { constant: true, volatile: false },
        }
    }

    /// What follows is `volatile`.
    pub fn volatile(self) -> (r: QualifiedTypeBuilder)
        ensures
            r.pending_qualifiers() == (Qualifiers { constant: false, volatile: true }),
            r.pending_modifiers() == self.pending_modifiers(),
    {
        QualifiedTypeBuilder {
            modifiers: self.modifiers,
            qualifiers: Qualifiers { constant: false, volatile: true },
        }
    }

    /// What follows is `const volatile`.
    pub fn constant_volatile(self) -> (r: QualifiedTypeBuilder)
        ensures
            r.pending_qualifiers() == (Qualifiers { constant: true, volatile: true }),
            r.pending_modifiers() == self.pending_modifiers(),
    {
        QualifiedTypeBuilder {
            modifiers: self.modifiers,
            qualifiers: Qualifiers { constant: true, volatile: true },
        }
    }
}

/// A chain with qualifiers waiting for the next pointer or for the base.
pub struct QualifiedTypeBuilder {
    modifiers: Vec<TypeModifier>,
    qualifiers: Qualifiers,
}

impl QualifiedTypeBuilder {
    /// The modifiers attached so far, the first nearest the declared name.
    pub closed spec fn pending_modifiers(&self) -> Seq<TypeModifier> {
        self.modifiers@
    }

    /// The qualifiers waiting to be attached.
    pub closed spec fn pending_qualifiers(&self) -> Qualifiers {
        self.qualifiers
    }

    fn get_qualifiers_modifiers(self) -> (r: (Qualifiers, Vec<TypeModifier>))
        ensures
            r.0 == self.pending_qualifiers(),
            r.1@ == self.pending_modifiers(),
    {
        (self.qualifiers, self.modifiers)
    }

    /// Ends the chain in `void`.
    pub fn void(self) -> (r: Type)
        ensures
            r.base == BaseType::Void,
            r.qualifiers == self.pending_qualifiers(),
            r.modifiers@ == self.pending_modifiers(),
    {
        let (qualifiers, modifiers) = self.get_qualifiers_modifiers();
        Type { base: BaseType::Void, qualifiers, modifiers }
    }

    /// Ends the chain in `char`.
    pub fn char(self) -> (r: Type)
        ensures
            r.base == BaseType::Char,
            r.qualifiers == self.pending_qualifiers(),
            r.modifiers@ == self.pending_modifiers(),
    {
        let (qualifiers, modifiers) = self.get_qualifiers_modifiers();
        Type { base: BaseType::Char, qualifiers, modifiers }
    }

    /// Ends the chain in `unsigned char`.
    pub fn unsigned_char(self) -> (r: Type)
        ensures
            r.base == BaseType::UnsignedChar,
            r.qualifiers == self.pending_qualifiers(),
            r.modifiers@ == self.pending_modifiers(),
    {
        let (qualifiers, modifiers) = self.get_qualifiers_modifiers();
        Type { base: BaseType::UnsignedChar, qualifiers, modifiers }
    }

    /// Ends the chain in `signed char`.
    pub fn signed_char(self) -> (r: Type)
        ensures
            r.base == BaseType::SignedChar,
            r.qualifiers == self.pending_qualifiers(),
            r.modifiers@ == self.pending_modifiers(),
    {
        let (qualifiers, modifiers) = self.get_qualifiers_modifiers();
        Type { base: BaseType::SignedChar, qualifiers, modifiers }
    }

    /// Ends the chain in `short`.
    pub fn short(self) -> (r: Type)
        ensures
            r.base == BaseType::Short,
            r.qualifiers == self.pending_qualifiers(),
            r.modifiers@ == self.pending_modifiers(),
    {
        let (qualifiers, modifiers) = self.get_qualifiers_modifiers();
        Type { base: BaseType::Short, qualifiers, modifiers }
    }

    /// Ends the chain in `unsigned short`.
    pub fn unsigned_short(self) -> (r: Type)
        ensures
            r.base == BaseType::UnsignedShort,
            r.qualifiers == self.pending_qualifiers(),
            r.modifiers@ == self.pending_modifiers(),
    {
        let (qualifiers, modifiers) = self.get_qualifiers_modifiers();
        Type { base: BaseType::UnsignedShort, qualifiers, modifiers }
    }

    /// Ends the chain in `int`.
    pub fn signed_int(self) -> (r: Type)
        ensures
            r.base == BaseType::Int,
            r.qualifiers == self.pending_qualifiers(),
            r.modifiers@ == self.pending_modifiers(),
    {
        let (qualifiers, modifiers) = self.get_qualifiers_modifiers();
        Type { base: BaseType::Int, qualifiers, modifiers }
    }

    /// Ends the chain in `unsigned int`.
    pub fn unsigned_int(self) -> (r: Type)
        ensures
            r.base == BaseType::UnsignedInt,
            r.qualifiers == self.pending_qualifiers(),
            r.modifiers@ == self.pending_modifiers(),
    {
        let (qualifiers, modifiers) = self.get_qualifiers_modifiers();
        Type { base: BaseType::UnsignedInt, qualifiers, modifiers }
    }

    /// Ends the chain in `long`.
    pub fn long(self) -> (r: Type)
        ensures
            r.base == BaseType::Long,
            r.qualifiers == self.pending_qualifiers(),
            r.modifiers@ == self.pending_modifiers(),
    {
        let (qualifiers, modifiers) = self.get_qualifiers_modifiers();
        Type { base: BaseType::Long, qualifiers, modifiers }
    }

    /// Ends the chain in `unsigned long`.
    pub fn unsigned_long(self) -> (r: Type)
        ensures
            r.base == BaseType::UnsignedLong,
            r.qualifiers == self.pending_qualifiers(),
            r.modifiers@ == self.pending_modifiers(),
    {
        let (qualifiers, modifiers) = self.get_qualifiers_modifiers();
        Type { base: BaseType::UnsignedLong, qualifiers, modifiers }
    }

    /// Ends the chain in `long long`.
    pub fn long_long(self) -> (r: Type)
        ensures
            r.base == BaseType::LongLong,
            r.qualifiers == self.pending_qualifiers(),
            r.modifiers@ == self.pending_modifiers(),
    {
        let (qualifiers, modifiers) = self.get_qualifiers_modifiers();
        Type { base: BaseType::LongLong, qualifiers, modifiers }
    }

    /// Ends the chain in `unsigned long long`.
    pub fn unsigned_long_long(self) -> (r: Type)
        ensures
            r.base == BaseType::UnsignedLongLong,
            r.qualifiers == self.pending_qualifiers(),
            r.modifiers@ == self.pending_modifiers(),
    {
        let (qualifiers, modifiers) = self.get_qualifiers_modifiers();
        Type { base: BaseType::UnsignedLongLong, qualifiers, modifiers }
    }

    /// Ends the chain in `float`.
    pub fn float(self) -> (r: Type)
        ensures
            r.base == BaseType::Float,
            r.qualifiers == self.pending_qualifiers(),
            r.modifiers@ == self.pending_modifiers(),
    {
        let (qualifiers, modifiers) = self.get_qualifiers_modifiers();
        Type { base: BaseType::Float, qualifiers, modifiers }
    }

    /// Ends the chain in `double`.
    pub fn double(self) -> (r: Type)
        ensures
            r.base == BaseType::Double,
            r.qualifiers == self.pending_qualifiers(),
            r.modifiers@ == self.pending_modifiers(),
    {
        let (qualifiers, modifiers) = self.get_qualifiers_modifiers();
        Type { base: BaseType::Double, qualifiers, modifiers }
    }

    /// Ends the chain in `long double`.
    pub fn long_double(self) -> (r: Type)
        ensures
            r.base == BaseType::LongDouble,
            r.qualifiers == self.pending_qualifiers(),
            r.modifiers@ == self.pending_modifiers(),
    {
        let (qualifiers, modifiers) = self.get_qualifiers_modifiers();
        Type { base: BaseType::LongDouble, qualifiers, modifiers }
    }

    /// Ends the chain in the typedef name `name`; fails when `name` is not an identifier.
    pub fn alias_named(self, name: &str) -> (r: Result<Type, Error>)
        ensures
            r is Ok <==> is_identifier(name@),
            r matches Ok(t) ==> {
                &&& t.base matches BaseType::Alias(id) && id@ == name@
                &&& t.qualifiers == self.pending_qualifiers()
                &&& t.modifiers@ == self.pending_modifiers()
            },
            r matches Err(Error::BadIdentifier(s)) ==> s@ == name@,
    {
        let (qualifiers, modifiers) = self.get_qualifiers_modifiers();
        let id = Identifier::new(name)?;
        Ok(Type { base: BaseType::Alias(id), qualifiers, modifiers })
    }

    /// Ends the chain in the struct tag `name`, with or without a body to follow;
    /// fails when `name` is not an identifier.
    pub fn struct_named(self, name: &str) -> (r: Result<StructBuilder, Error>)
        ensures
            r is Ok <==> is_identifier(name@),
            r matches Ok(b) ==> {
                &&& b.tag_name() == name@
                &&& b.tag_kind() == StructType::Struct
                &&& b.pending_qualifiers() == self.pending_qualifiers()
                &&& b.pending_modifiers() == self.pending_modifiers()
            },
            r matches Err(Error::BadIdentifier(s)) ==> s@ == name@,
    {
        let (qualifiers, modifiers) = self.get_qualifiers_modifiers();
        let name = Identifier::new(name)?;
        Ok(StructBuilder { qualifiers, modifiers, name, struct_type: StructType::Struct })
    }

    /// Ends the chain in the union tag `name`, with or without a body to follow;
    /// fails when `name` is not an identifier.
    pub fn union_named(self, name: &str) -> (r: Result<StructBuilder, Error>)
        ensures
            r is Ok <==> is_identifier(name@),
            r matches Ok(b) ==> {
                &&& b.tag_name() == name@
                &&& b.tag_kind() == StructType::Union
                &&& b.pending_qualifiers() == self.pending_qualifiers()
                &&& b.pending_modifiers() == self.pending_modifiers()
            },
            r matches Err(Error::BadIdentifier(s)) ==> s@ == name@,
    {
        let (qualifiers, modifiers) = self.get_qualifiers_modifiers();
        let name = Identifier::new(name)?;
        Ok(StructBuilder { qualifiers, modifiers, name, struct_type: StructType::Union })
    }

    /// Ends the chain in an anonymous struct, whose fields follow.
    pub fn anonymous_struct(self) -> (r: StructDefinitionBuilder)
        ensures
            r.tag_name() is None,
            r.tag_kind() == StructType::Struct,
            r.fields_so_far() == Seq::<Field>::empty(),
            r.pending_qualifiers() == self.pending_qualifiers(),
            r.pending_modifiers() == self.pending_modifiers(),
    {
        let (qualifiers, modifiers) = self.get_qualifiers_modifiers();
        StructDefinitionBuilder {
            qualifiers,
            modifiers,
            name: None,
            struct_type: StructType::Struct,
            fields: Vec::new(),
        }
    }

    /// Ends the chain in an anonymous union, whose fields follow.
    pub fn anonymous_union(self) -> (r: StructDefinitionBuilder)
        ensures
            r.tag_name() is None,
            r.tag_kind() == StructType::Union,
            r.fields_so_far() == Seq::<Field>::empty(),
            r.pending_qualifiers() == self.pending_qualifiers(),
            r.pending_modifiers() == self.pending_modifiers(),
    {
        let (qualifiers, modifiers) = self.get_qualifiers_modifiers();
        StructDefinitionBuilder {
            qualifiers,
            modifiers,
            name: None,
            struct_type: StructType::Union,
            fields: Vec::new(),
        }
    }

    /// Ends the chain in the enum tag `name`, with or without a body to follow;
    /// fails when `name` is not an identifier.
    pub fn enum_named(self, name: &str) -> (r: Result<EnumBuilder, Error>)
        ensures
            r is Ok <==> is_identifier(name@),
            r matches Ok(b) ==> {
                &&& b.tag_name() == name@
                &&& b.pending_qualifiers() == self.pending_qualifiers()
                &&& b.pending_modifiers() == self.pending_modifiers()
            },
            r matches Err(Error::BadIdentifier(s)) ==> s@ == name@,
    {
        let (qualifiers, modifiers) = self.get_qualifiers_modifiers();
        let name = Identifier::new(name)?;
        Ok(EnumBuilder { qualifiers, modifiers, name })
    }

    /// Ends the chain in an anonymous enum, whose enumerators follow.
    pub fn anonymous_enum(self) -> (r: EnumDefinitionBuilder)
        ensures
            r.tag_name() is None,
            r.enumerators_so_far() == Seq::<Enumerator>::empty(),
            r.pending_qualifiers() == self.pending_qualifiers(),
            r.pending_modifiers() == self.pending_modifiers(),
    {
        let (qualifiers, modifiers) = self.get_qualifiers_modifiers();
        EnumDefinitionBuilder { qualifiers, modifiers, name: None, enumerators: Vec::new() }
    }

    /// What follows is pointed to by a pointer that takes the waiting qualifiers.
    pub fn pointer_to(self) -> (r: TypeBuilder)
        ensures
            r.pending_modifiers() == self.pending_modifiers().push(TypeModifier::Pointer(self.pending_qualifiers())),
    {
        let QualifiedTypeBuilder { mut modifiers, qualifiers } = self;
        modifiers.push(TypeModifier::Pointer(qualifiers));
        TypeBuilder { modifiers }
    }
}

/// A named struct or union, before the choice between a body and none.
pub struct StructBuilder {
    qualifiers: Qualifiers,
    modifiers: Vec<TypeModifier>,
    name: Identifier,
    struct_type: StructType,
}

impl StructBuilder {
    /// The modifiers of the type being built.
    pub closed spec fn pending_modifiers(&self) -> Seq<TypeModifier> {
        self.modifiers@
    }

    /// The qualifiers of the base.
    pub closed spec fn pending_qualifiers(&self) -> Qualifiers {
        self.qualifiers
    }

    /// The tag's name.
    pub closed spec fn tag_name(&self) -> Seq<char> {
        self.name@
    }

    /// Struct or union.
    pub closed spec fn tag_kind(&self) -> StructType {
        self.struct_type
    }

    /// A reference to the tag, with no body.
    pub fn finish(self) -> (r: Type)
        ensures
            r.base matches BaseType::Struct { name: Some(id), struct_type, fields: None } && id@
                == self.tag_name() && struct_type == self.tag_kind(),
            r.qualifiers == self.pending_qualifiers(),
            r.modifiers@ == self.pending_modifiers(),
    {
        Type {
            base: BaseType::Struct { name: Some(self.name), struct_type: self.struct_type, fields: None },
            qualifiers: self.qualifiers,
            modifiers: self.modifiers,
        }
    }

    /// A definition of the tag, whose fields follow.
    pub fn with_fields(self) -> (r: StructDefinitionBuilder)
        ensures
            r.tag_name() == Some(self.tag_name()),
            r.tag_kind() == self.tag_kind(),
            r.fields_so_far() == Seq::<Field>::empty(),
            r.pending_qualifiers() == self.pending_qualifiers(),
            r.pending_modifiers() == self.pending_modifiers(),
    {
        StructDefinitionBuilder {
            qualifiers: self.qualifiers,
            modifiers: self.modifiers,
            name: Some(self.name),
            struct_type: self.struct_type,
            fields: Vec::new(),
        }
    }
}

/// Whether `after` is `before` with one more field of type `t`, name `name`
/// and width `width` at the end.
pub open spec fn field_added(
    before: Seq<Field>,
    after: Seq<Field>,
    t: Type,
    name: Option<Seq<char>>,
    width: Option<Expression>,
) -> bool {
    &&& after.len() == before.len() + 1
    &&& after.drop_last() == before
    &&& *after.last().field_type == t
    &&& name_view(after.last().name) == name
    &&& match (after.last().width, width) {
        (Some(w), Some(x)) => *w == x,
        (None, None) => true,
        _ => false,
    }
}

/// A struct or union whose fields are being listed.
pub struct StructDefinitionBuilder {
    qualifiers: Qualifiers,
    modifiers: Vec<TypeModifier>,
    name: Option<Identifier>,
    struct_type: StructType,
    fields: Vec<Field>,
}

impl StructDefinitionBuilder {
    /// The modifiers of the type being built.
    pub closed spec fn pending_modifiers(&self) -> Seq<TypeModifier> {
        self.modifiers@
    }

    /// The qualifiers of the base.
    pub closed spec fn pending_qualifiers(&self) -> Qualifiers {
        self.qualifiers
    }

    /// The tag's name, if it has one.
    pub closed spec fn tag_name(&self) -> Option<Seq<char>> {
        name_view(self.name)
    }

    /// Struct or union.
    pub closed spec fn tag_kind(&self) -> StructType {
        self.struct_type
    }

    /// The fields listed so far, in order.
    pub closed spec fn fields_so_far(&self) -> Seq<Field> {
        self.fields@
    }

    /// The definition with the fields listed so far, possibly none.
    pub fn finish(self) -> (r: Type)
        ensures
            r.base matches BaseType::Struct { name, struct_type, fields: Some(fs) } && name_view(name)
                == self.tag_name() && struct_type == self.tag_kind() && fs@ == self.fields_so_far(),
            r.qualifiers == self.pending_qualifiers(),
            r.modifiers@ == self.pending_modifiers(),
    {
        Type {
            base: BaseType::Struct { name: self.name, struct_type: self.struct_type, fields: Some(self.fields) },
            qualifiers: self.qualifiers,
            modifiers: self.modifiers,
        }
    }

    fn add(self, field_type: Type, name: Option<Identifier>, width: Option<Box<Expression>>) -> (r: StructDefinitionBuilder)
        ensures
            r.fields_so_far() == self.fields_so_far().push(Field { field_type: Box::new(field_type), name, width }),
            r.tag_name() == self.tag_name(),
            r.tag_kind() == self.tag_kind(),
            r.pending_qualifiers() == self.pending_qualifiers(),
            r.pending_modifiers() == self.pending_modifiers(),
    {
        let StructDefinitionBuilder { qualifiers, modifiers, name: tag, struct_type, mut fields } = self;
        fields.push(Field { field_type: Box::new(field_type), name, width });
        StructDefinitionBuilder { qualifiers, modifiers, name: tag, struct_type, fields }
    }

    /// Adds a field named `name`; fails when `name` is not an identifier.
    pub fn named_field(self, field_type: Type, name: &str) -> (r: Result<StructDefinitionBuilder, Error>)
        ensures
            r is Ok <==> is_identifier(name@),
            r matches Ok(b) ==> {
                &&& field_added(self.fields_so_far(), b.fields_so_far(), field_type, Some(name@), None)
                &&& b.tag_name() == self.tag_name()
                &&& b.tag_kind() == self.tag_kind()
                &&& b.pending_qualifiers() == self.pending_qualifiers()
                &&& b.pending_modifiers() == self.pending_modifiers()
            },
            r matches Err(Error::BadIdentifier(s)) ==> s@ == name@,
    {
        let id = Identifier::new(name)?;
        let r = self.add(field_type, Some(id), None);
        assert(r.fields_so_far().drop_last() =~= self.fields_so_far());
        Ok(r)
    }

    /// Adds a field with no name.
    pub fn anonymous_field(self, field_type: Type) -> (r: StructDefinitionBuilder)
        ensures
            field_added(self.fields_so_far(), r.fields_so_far(), field_type, None, None),
            r.tag_name() == self.tag_name(),
            r.tag_kind() == self.tag_kind(),
            r.pending_qualifiers() == self.pending_qualifiers(),
            r.pending_modifiers() == self.pending_modifiers(),
    {
        let r = self.add(field_type, None, None);
        assert(r.fields_so_far().drop_last() =~= self.fields_so_far());
        r
    }

    /// Adds a bit-field named `name`, `width` bits wide; fails when `name` is
    /// not an identifier.
    pub fn named_bit_field(self, field_type: Type, name: &str, width: Expression) -> (r: Result<
        StructDefinitionBuilder,
        Error,
    >)
        ensures
            r is Ok <==> is_identifier(name@),
            r matches Ok(b) ==> {
                &&& field_added(self.fields_so_far(), b.fields_so_far(), field_type, Some(name@), Some(width))
                &&& b.tag_name() == self.tag_name()
                &&& b.tag_kind() == self.tag_kind()
                &&& b.pending_qualifiers() == self.pending_qualifiers()
                &&& b.pending_modifiers() == self.pending_modifiers()
            },
            r matches Err(Error::BadIdentifier(s)) ==> s@ == name@,
    {
        let id = Identifier::new(name)?;
        let r = self.add(field_type, Some(id), Some(Box::new(width)));
        assert(r.fields_so_far().drop_last() =~= self.fields_so_far());
        Ok(r)
    }

    /// Adds a bit-field with no name, `width` bits wide.
    pub fn anonymous_bit_field(self, field_type: Type, width: Expression) -> (r: StructDefinitionBuilder)
        ensures
            field_added(self.fields_so_far(), r.fields_so_far(), field_type, None, Some(width)),
            r.tag_name() == self.tag_name(),
            r.tag_kind() == self.tag_kind(),
            r.pending_qualifiers() == self.pending_qualifiers(),
            r.pending_modifiers() == self.pending_modifiers(),
    {
        let r = self.add(field_type, None, Some(Box::new(width)));
        assert(r.fields_so_far().drop_last() =~= self.fields_so_far());
        r
    }
}

/// A named enum, before the choice between a body and none.
pub struct EnumBuilder {
    qualifiers: Qualifiers,
    modifiers: Vec<TypeModifier>,
    name: Identifier,
}

impl EnumBuilder {
    /// The modifiers of the type being built.
    pub closed spec fn pending_modifiers(&self) -> Seq<TypeModifier> {
        self.modifiers@
    }

    /// The qualifiers of the base.
    pub closed spec fn pending_qualifiers(&self) -> Qualifiers {
        self.qualifiers
    }

    /// The tag's name.
    pub closed spec fn tag_name(&self) -> Seq<char> {
        self.name@
    }

    /// A reference to the tag, with no body.
    pub fn finish(self) -> (r: Type)
        ensures
            r.base matches BaseType::Enum { name: Some(id), enumerators: None } && id@ == self.tag_name(),
            r.qualifiers == self.pending_qualifiers(),
            r.modifiers@ == self.pending_modifiers(),
    {
        Type {
            base: BaseType::Enum { name: Some(self.name), enumerators: None },
            qualifiers: self.qualifiers,
            modifiers: self.modifiers,
        }
    }

    /// A definition of the tag, whose enumerators follow.
    pub fn with_enumerators(self) -> (r: EnumDefinitionBuilder)
        ensures
            r.tag_name() == Some(self.tag_name()),
            r.enumerators_so_far() == Seq::<Enumerator>::empty(),
            r.pending_qualifiers() == self.pending_qualifiers(),
            r.pending_modifiers() == self.pending_modifiers(),
    {
        EnumDefinitionBuilder {
            qualifiers: self.qualifiers,
            modifiers: self.modifiers,
            name: Some(self.name),
            enumerators: Vec::new(),
        }
    }
}

/// Whether `after` is `before` with one more enumerator named `name`, with
/// value `value`, at the end.
pub open spec fn enumerator_added(
    before: Seq<Enumerator>,
    after: Seq<Enumerator>,
    name: Seq<char>,
    value: Option<Expression>,
) -> bool {
    &&& after.len() == before.len() + 1
    &&& after.drop_last() == before
    &&& after.last().name@ == name
    &&& match (after.last().value, value) {
        (Some(v), Some(x)) => *v == x,
        (None, None) => true,
        _ => false,
    }
}

/// An enum whose enumerators are being listed.
pub struct EnumDefinitionBuilder {
    qualifiers: Qualifiers,
    modifiers: Vec<TypeModifier>,
    name: Option<Identifier>,
    enumerators: Vec<Enumerator>,
}

impl EnumDefinitionBuilder {
    /// The modifiers of the type being built.
    pub closed spec fn pending_modifiers(&self) -> Seq<TypeModifier> {
        self.modifiers@
    }

    /// The qualifiers of the base.
    pub closed spec fn pending_qualifiers(&self) -> Qualifiers {
        self.qualifiers
    }

    /// The tag's name, if it has one.
    pub closed spec fn tag_name(&self) -> Option<Seq<char>> {
        name_view(self.name)
    }

    /// The enumerators listed so far, in order.
    pub closed spec fn enumerators_so_far(&self) -> Seq<Enumerator> {
        self.enumerators@
    }

    /// The definition with the enumerators listed so far, possibly none.
    pub fn finish(self) -> (r: Type)
        ensures
            r.base matches BaseType::Enum { name, enumerators: Some(es) } && name_view(name)
                == self.tag_name() && es@ == self.enumerators_so_far(),
            r.qualifiers == self.pending_qualifiers(),
            r.modifiers@ == self.pending_modifiers(),
    {
        Type {
            base: BaseType::Enum { name: self.name, enumerators: Some(self.enumerators) },
            qualifiers: self.qualifiers,
            modifiers: self.modifiers,
        }
    }

    fn add(self, name: Identifier, value: Option<Box<Expression>>) -> (r: EnumDefinitionBuilder)
        ensures
            r.enumerators_so_far() == self.enumerators_so_far().push(Enumerator { name, value }),
            r.tag_name() == self.tag_name(),
            r.pending_qualifiers() == self.pending_qualifiers(),
            r.pending_modifiers() == self.pending_modifiers(),
    {
        let EnumDefinitionBuilder { qualifiers, modifiers, name: tag, mut enumerators } = self;
        enumerators.push(Enumerator { name, value });
        EnumDefinitionBuilder { qualifiers, modifiers, name: tag, enumerators }
    }

    /// Adds an enumerator named `name` with no explicit value; fails when
    /// `name` is not an identifier.
    pub fn enumerator(self, name: &str) -> (r: Result<EnumDefinitionBuilder, Error>)
        ensures
            r is Ok <==> is_identifier(name@),
            r matches Ok(b) ==> {
                &&& enumerator_added(self.enumerators_so_far(), b.enumerators_so_far(), name@, None)
                &&& b.tag_name() == self.tag_name()
                &&& b.pending_qualifiers() == self.pending_qualifiers()
                &&& b.pending_modifiers() == self.pending_modifiers()
            },
            r matches Err(Error::BadIdentifier(s)) ==> s@ == name@,
    {
        let id = Identifier::new(name)?;
        let r = self.add(id, None);
        assert(r.enumerators_so_far().drop_last() =~= self.enumerators_so_far());
        Ok(r)
    }

    /// Adds an enumerator named `name` with value `value`; fails when `name`
    /// is not an identifier.
    pub fn enumerator_with_value(self, name: &str, value: Expression) -> (r: Result<
        EnumDefinitionBuilder,
        Error,
    >)
        ensures
            r is Ok <==> is_identifier(name@),
            r matches Ok(b) ==> {
                &&& enumerator_added(self.enumerators_so_far(), b.enumerators_so_far(), name@, Some(value))
                &&& b.tag_name() == self.tag_name()
                &&& b.pending_qualifiers() == self.pending_qualifiers()
                &&& b.pending_modifiers() == self.pending_modifiers()
            },
            r matches Err(Error::BadIdentifier(s)) ==> s@ == name@,
    {
        let id = Identifier::new(name)?;
        let r = self.add(id, Some(Box::new(value)));
        assert(r.enumerators_so_far().drop_last() =~= self.enumerators_so_far());
        Ok(r)
    }
}

} // verus!
