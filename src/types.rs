use vstd::prelude::*;

use crate::expression::{expression_text, Expression};
use crate::identifier::Identifier;
use crate::text::push_char;

verus! {

/// The two tag kinds that carry a field list.
#[derive(Debug)]
pub enum StructType {
    Struct,
    Union,
}

/// The `const` and `volatile` flags of a type or of a pointer.
#[derive(Debug)]
pub struct Qualifiers {
    pub constant: bool,
    pub volatile: bool,
}

/// A member of a struct or union: its type, an optional name, an optional bit width.
#[derive(Debug)]
pub struct Field {
    pub field_type: Box<Type>,
    pub name: Option<Identifier>,
    pub width: Option<Box<Expression>>,
}

/// A named constant of an enum, with an optional value.
#[derive(Debug)]
pub struct Enumerator {
    pub name: Identifier,
    pub value: Option<Box<Expression>>,
}

/// The root of a declarator. A tag type without a body is a reference to a
/// tag defined elsewhere; one with a body, even an empty one, defines it.
#[derive(Debug)]
pub enum BaseType {
    Struct { name: Option<Identifier>, struct_type: StructType, fields: Option<Vec<Field>> },
    Enum { name: Option<Identifier>, enumerators: Option<Vec<Enumerator>> },
    Alias(Identifier),
    Void,
    Char,
    SignedChar,
    UnsignedChar,
    Short,
    UnsignedShort,
    Int,
    UnsignedInt,
    Long,
    UnsignedLong,
    LongLong,
    UnsignedLongLong,
    Float,
    Double,
    LongDouble,
}

/// One declarator layer.
#[derive(Debug)]
pub enum TypeModifier {
    Pointer(Qualifiers),
    Array(Option<Box<Expression>>),
    Function(Vec<Type>),
}

/// A complete C type: base, qualifiers of the base, and modifiers, the one
/// nearest the declared name first.
#[derive(Debug)]
pub struct Type {
    pub base: BaseType,
    pub qualifiers: Qualifiers,
    pub modifiers: Vec<TypeModifier>,
}

/// `const`, `volatile`, `const volatile`, or nothing.
pub open spec fn qualifiers_text(q: Qualifiers) -> Seq<char> {
    if q.constant && q.volatile {
        "const volatile"@
    } else if q.constant {
        "const"@
    } else if q.volatile {
        "volatile"@
    } else {
        Seq::empty()
    }
}

/// `a` and `b` separated by one space, or the one that is not empty.
pub open spec fn spaced(a: Seq<char>, b: Seq<char>) -> Seq<char> {
    if a.len() == 0 {
        b
    } else if b.len() == 0 {
        a
    } else {
        a + seq![' '] + b
    }
}

/// The text of an optional name: empty when absent.
pub open spec fn name_text(name: Option<Identifier>) -> Seq<char> {
    match name {
        Some(id) => id@,
        None => Seq::empty(),
    }
}

/// A field and its `;`, with ` : width` for a bit-field.
pub open spec fn field_text(f: Field) -> Seq<char>
    decreases f,
{
    let declared = type_text(*f.field_type, name_text(f.name));
    match f.width {
        Some(w) => declared + " : "@ + expression_text(*w) + seq![';'],
        None => declared + seq![';'],
    }
}

/// Each field preceded by a space.
pub open spec fn fields_text(fs: Seq<Field>) -> Seq<char>
    decreases fs,
{
    if fs.len() == 0 {
        Seq::empty()
    } else {
        fields_text(fs.subrange(0, fs.len() - 1)) + seq![' '] + field_text(fs[fs.len() - 1])
    }
}

/// An enumerator, with ` = value` when it has one.
pub open spec fn enumerator_text(e: Enumerator) -> Seq<char>
    decreases e,
{
    match e.value {
        Some(v) => e.name@ + " = "@ + expression_text(*v),
        None => e.name@,
    }
}

/// Each enumerator preceded by a space, all but the last followed by a comma.
pub open spec fn enumerators_text(es: Seq<Enumerator>) -> Seq<char>
    decreases es,
{
    if es.len() == 0 {
        Seq::empty()
    } else if es.len() == 1 {
        seq![' '] + enumerator_text(es[0])
    } else {
        enumerators_text(es.subrange(0, es.len() - 1)) + seq![',', ' '] + enumerator_text(
            es[es.len() - 1],
        )
    }
}

/// ` { body }`, where the body carries its own leading spaces.
pub open spec fn braced(body: Seq<char>) -> Seq<char> {
    seq![' ', '{'] + body + seq![' ', '}']
}

/// The text of an alias, or the fixed spelling of a scalar kind.
pub open spec fn scalar_text(b: BaseType) -> Seq<char> {
    match b {
            BaseType::Alias(id) => id@,
            BaseType::Void => "void"@,
            BaseType::Char => "char"@,
            BaseType::SignedChar => "signed char"@,
            BaseType::UnsignedChar => "unsigned char"@,
            BaseType::Short => "short"@,
            BaseType::UnsignedShort => "unsigned short"@,
            BaseType::Int => "int"@,
            BaseType::UnsignedInt => "unsigned int"@,
            BaseType::Long => "long"@,
            BaseType::UnsignedLong => "unsigned long"@,
            BaseType::LongLong => "long long"@,
            BaseType::UnsignedLongLong => "unsigned long long"@,
            BaseType::Float => "float"@,
            BaseType::Double => "double"@,
            BaseType::LongDouble => "long double"@,
            _ => Seq::empty(),
    }
}

/// The text of a base type: a tag with its optional name and body, an alias,
/// or a scalar kind.
pub open spec fn base_text(b: BaseType) -> Seq<char>
    decreases b,
{
    match b {
        BaseType::Struct { name, struct_type, fields } => {
            let keyword = match struct_type {
                StructType::Struct => "struct"@,
                StructType::Union => "union"@,
            };
            let head = spaced(keyword, name_text(name));
            match fields {
                Some(fs) => head + braced(fields_text(fs@)),
                None => head,
            }
        },
        BaseType::Enum { name, enumerators } => {
            let head = spaced("enum"@, name_text(name));
            match enumerators {
                Some(es) => head + braced(enumerators_text(es@)),
                None => head,
            }
        },
        _ => scalar_text(b),
    }
}

/// Parameter types, each rendered without a name, joined by `, `.
pub open spec fn params_text(ps: Seq<Type>) -> Seq<char>
    decreases ps,
{
    if ps.len() == 0 {
        Seq::empty()
    } else if ps.len() == 1 {
        type_text(ps[0], Seq::empty())
    } else {
        params_text(ps.subrange(0, ps.len() - 1)) + seq![',', ' '] + type_text(
            ps[ps.len() - 1],
            Seq::empty(),
        )
    }
}

/// `*`, or `* ` and the pointer's qualifiers.
pub open spec fn pointer_text(q: Qualifiers) -> Seq<char> {
    spaced(seq!['*'], qualifiers_text(q))
}

/// Whether the last of these modifiers is a pointer, so that the declarator
/// built from them binds to the left.
pub open spec fn ends_in_pointer(mods: Seq<TypeModifier>) -> bool {
    mods.len() > 0 && mods[mods.len() - 1] is Pointer
}

/// The fragment wrapped in parentheses when `group` holds.
pub open spec fn grouped(fragment: Seq<char>, group: bool) -> Seq<char> {
    if group {
        seq!['('] + fragment + seq![')']
    } else {
        fragment
    }
}

/// The declarator that `mods` build around `name`, applied in order, the
/// first nearest the name. A pointer is a prefix; an array or a function is a
/// postfix, and one that follows a pointer wraps what stands so far in
/// parentheses.
pub open spec fn declarator(mods: Seq<TypeModifier>, name: Seq<char>) -> Seq<char>
    decreases mods,
{
    if mods.len() == 0 {
        name
    } else {
        let rest = mods.subrange(0, mods.len() - 1);
        let inner = declarator(rest, name);
        let wrap = ends_in_pointer(rest) && inner.len() > 0;
        match mods[mods.len() - 1] {
            TypeModifier::Pointer(q) => spaced(pointer_text(q), inner),
            TypeModifier::Array(size) => grouped(inner, wrap) + seq!['['] + match size {
                Some(e) => expression_text(*e),
                None => Seq::empty(),
            } + seq![']'],
            TypeModifier::Function(params) => grouped(inner, wrap) + seq!['('] + params_text(params@)
                + seq![')'],
        }
    }
}

/// The text of `t` declaring `name`: the qualifiers of the base, the base,
/// and the declarator, each separated by one space where present. An empty
/// name renders the type alone.
pub open spec fn type_text(t: Type, name: Seq<char>) -> Seq<char>
    decreases t,
{
    let head = spaced(qualifiers_text(t.qualifiers), base_text(t.base));
    spaced(head, declarator(t.modifiers@, name))
}

/// Appends `b` to `out`, with one space between them when both are non-empty.
pub(crate) fn push_spaced(out: &mut String, b: &str)
    ensures
        final(out)@ == spaced(old(out)@, b@),
{
    if !b.is_empty() {
        if !out.as_str().is_empty() {
            push_char(out, ' ');
        }
        out.append(b);
    }
}

impl Qualifiers {
    /// Neither `const` nor `volatile`.
    pub fn none() -> (r: Qualifiers)
        ensures
            !r.constant,
            !r.volatile,
    {
        Qualifiers { constant: false, volatile: false }
    }

    /// Whether both flags are clear.
    pub fn is_none(&self) -> (r: bool)
        ensures
            r == (!self.constant && !self.volatile),
    {
        !self.constant && !self.volatile
    }

    /// The qualifiers' text, `const` before `volatile`.
    pub fn to_string(&self) -> (r: String)
        ensures
            r@ == qualifiers_text(*self),
    {
        if self.constant && self.volatile {
            String::from_str("const volatile")
        } else if self.constant {
            String::from_str("const")
        } else if self.volatile {
            String::from_str("volatile")
        } else {
            String::new()
        }
    }
}

impl Field {
    fn push_text(&self, out: &mut String)
        ensures
            final(out)@ == old(out)@ + field_text(*self),
        decreases self,
    {
        let ghost declared_text = type_text(*self.field_type, name_text(self.name));
        let declared = match &self.name {
            Some(id) => self.field_type.render(Some(id)),
            None => self.field_type.render(None),
        };
        assert(declared@ == declared_text);
        out.append(declared.as_str());
        match &self.width {
            Some(w) => {
                out.append(" : ");
                w.push_text(out);
                push_char(out, ';');
                assert(final(out)@ =~= old(out)@ + (declared_text + " : "@ + expression_text(**w) + seq![';']));
            },
            None => {
                push_char(out, ';');
                assert(final(out)@ =~= old(out)@ + (declared_text + seq![';']));
            },
        }
    }
}

fn push_fields(out: &mut String, fs: &Vec<Field>)
    ensures
        final(out)@ == old(out)@ + fields_text(fs@),
    decreases fs,
{
    let mut i: usize = 0;
    while i < fs.len()
        invariant
            0 <= i <= fs@.len(),
            out@ == old(out)@ + fields_text(fs@.subrange(0, i as int)),
        decreases fs@.len() - i,
    {
        push_char(out, ' ');
        fs[i].push_text(out);
        proof {
            assert(fs@.subrange(0, i + 1).subrange(0, i as int) =~= fs@.subrange(0, i as int));
        }
        i += 1;
        assert(out@ =~= old(out)@ + fields_text(fs@.subrange(0, i as int)));
    }
    assert(fs@.subrange(0, fs@.len() as int) =~= fs@);
}

impl Enumerator {
    fn push_text(&self, out: &mut String)
        ensures
            final(out)@ == old(out)@ + enumerator_text(*self),
        decreases self,
    {
        out.append(self.name.as_str());
        if let Some(v) = &self.value {
            out.append(" = ");
            v.push_text(out);
        }
        assert(final(out)@ =~= old(out)@ + enumerator_text(*self));
    }
}

fn push_enumerators(out: &mut String, es: &Vec<Enumerator>)
    ensures
        final(out)@ == old(out)@ + enumerators_text(es@),
    decreases es,
{
    let mut i: usize = 0;
    while i < es.len()
        invariant
            0 <= i <= es@.len(),
            out@ == old(out)@ + enumerators_text(es@.subrange(0, i as int)),
        decreases es@.len() - i,
    {
        if i > 0 {
            push_char(out, ',');
        }
        push_char(out, ' ');
        es[i].push_text(out);
        proof {
            assert(es@.subrange(0, i + 1).subrange(0, i as int) =~= es@.subrange(0, i as int));
        }
        i += 1;
        assert(out@ =~= old(out)@ + enumerators_text(es@.subrange(0, i as int)));
    }
    assert(es@.subrange(0, es@.len() as int) =~= es@);
}

fn push_params(out: &mut String, ps: &Vec<Type>)
    ensures
        final(out)@ == old(out)@ + params_text(ps@),
    decreases ps,
{
    let mut i: usize = 0;
    while i < ps.len()
        invariant
            0 <= i <= ps@.len(),
            out@ == old(out)@ + params_text(ps@.subrange(0, i as int)),
        decreases ps@.len() - i,
    {
        if i > 0 {
            push_char(out, ',');
            push_char(out, ' ');
        }
        let param = ps[i].render(None);
        out.append(param.as_str());
        proof {
            assert(ps@.subrange(0, i + 1).subrange(0, i as int) =~= ps@.subrange(0, i as int));
        }
        i += 1;
        assert(out@ =~= old(out)@ + params_text(ps@.subrange(0, i as int)));
    }
    assert(ps@.subrange(0, ps@.len() as int) =~= ps@);
}

fn push_tag(out: &mut String, keyword: &str, name: &Option<Identifier>)
    ensures
        final(out)@ == old(out)@ + spaced(keyword@, name_text(*name)),
{
    let mut head = String::from_str(keyword);
    if let Some(id) = name {
        push_spaced(&mut head, id.as_str());
    }
    out.append(head.as_str());
}

fn push_braced(out: &mut String, body: &str)
    ensures
        final(out)@ == old(out)@ + braced(body@),
{
    push_char(out, ' ');
    push_char(out, '{');
    out.append(body);
    push_char(out, ' ');
    push_char(out, '}');
    assert(final(out)@ =~= old(out)@ + braced(body@));
}

impl BaseType {
    fn spelling(&self) -> (r: &str)
        requires
            !(self is Struct),
            !(self is Enum),
        ensures
            r@ == scalar_text(*self),
    {
        match self {
                BaseType::Alias(id) => id.as_str(),
                BaseType::Void => "void",
                BaseType::Char => "char",
                BaseType::SignedChar => "signed char",
                BaseType::UnsignedChar => "unsigned char",
                BaseType::Short => "short",
                BaseType::UnsignedShort => "unsigned short",
                BaseType::Int => "int",
                BaseType::UnsignedInt => "unsigned int",
                BaseType::Long => "long",
                BaseType::UnsignedLong => "unsigned long",
                BaseType::LongLong => "long long",
                BaseType::UnsignedLongLong => "unsigned long long",
                BaseType::Float => "float",
                BaseType::Double => "double",
                BaseType::LongDouble => "long double",
            _ => "",
        }
    }

    /// Appends the base type's text.
    pub fn push_text(&self, out: &mut String)
        ensures
            final(out)@ == old(out)@ + base_text(*self),
        decreases self,
    {
        match self {
            BaseType::Struct { name, struct_type, fields } => {
                let keyword = match struct_type {
                    StructType::Struct => "struct",
                    StructType::Union => "union",
                };
                push_tag(out, keyword, name);
                if let Some(fs) = fields {
                    let mut body = String::new();
                    push_fields(&mut body, fs);
                    push_braced(out, body.as_str());
                    assert(body@ =~= fields_text(fs@));
                }
            },
            BaseType::Enum { name, enumerators } => {
                push_tag(out, "enum", name);
                if let Some(es) = enumerators {
                    let mut body = String::new();
                    push_enumerators(&mut body, es);
                    push_braced(out, body.as_str());
                    assert(body@ =~= enumerators_text(es@));
                }
            },
            _ => {
                out.append(self.spelling());
            },
        }
        assert(final(out)@ =~= old(out)@ + base_text(*self));
    }
}

impl Type {
    /// Renders the type declaring `name`, or the type alone when `name` is
    /// `None`.
    pub fn render(&self, name: Option<&Identifier>) -> (r: String)
        ensures
            r@ == type_text(
                *self,
                match name {
                    Some(id) => id@,
                    None => Seq::empty(),
                },
            ),
        decreases self,
    {
        let ghost name_seq = match name {
            Some(id) => id@,
            None => Seq::<char>::empty(),
        };
        let ghost mods = self.modifiers@;
        let mut fragment = match name {
            Some(id) => id.to_string(),
            None => String::new(),
        };
        let mut right = true;
        let mut i: usize = 0;
        while i < self.modifiers.len()
            invariant
                0 <= i <= mods.len(),
                mods == self.modifiers@,
                fragment@ == declarator(mods.subrange(0, i as int), name_seq),
                right == !ends_in_pointer(mods.subrange(0, i as int)),
            decreases mods.len() - i,
        {
            let ghost prefix = mods.subrange(0, i + 1);
            proof {
                assert(prefix.subrange(0, i as int) =~= mods.subrange(0, i as int));
                assert(prefix[i as int] == mods[i as int]);
            }
            let wrap = !right && !fragment.as_str().is_empty();
            match &self.modifiers[i] {
                TypeModifier::Pointer(q) => {
                    let mut next = String::new();
                    push_char(&mut next, '*');
                    assert(next@ =~= seq!['*']);
                    let qualifiers = q.to_string();
                    push_spaced(&mut next, qualifiers.as_str());
                    push_spaced(&mut next, fragment.as_str());
                    assert(next@ == declarator(prefix, name_seq));
                    fragment = next;
                    right = false;
                },
                TypeModifier::Array(size) => {
                    let mut next = String::new();
                    if wrap {
                        push_char(&mut next, '(');
                    }
                    next.append(fragment.as_str());
                    if wrap {
                        push_char(&mut next, ')');
                    }
                    push_char(&mut next, '[');
                    let ghost grouped_text = grouped(fragment@, wrap);
                    assert(next@ =~= grouped_text + seq!['[']);
                    match size {
                        Some(e) => {
                            e.push_text(&mut next);
                            push_char(&mut next, ']');
                            assert(next@ =~= grouped_text + seq!['['] + expression_text(**e) + seq![']']);
                        },
                        None => {
                            push_char(&mut next, ']');
                            assert(next@ =~= grouped_text + seq!['['] + Seq::<char>::empty() + seq![']']);
                        },
                    }
                    assert(next@ == declarator(prefix, name_seq));
                    fragment = next;
                    right = true;
                },
                TypeModifier::Function(params) => {
                    let mut next = String::new();
                    if wrap {
                        push_char(&mut next, '(');
                    }
                    next.append(fragment.as_str());
                    if wrap {
                        push_char(&mut next, ')');
                    }
                    push_char(&mut next, '(');
                    push_params(&mut next, params);
                    push_char(&mut next, ')');
                    assert(next@ =~= grouped(fragment@, wrap) + seq!['('] + params_text(params@) + seq![')']);
                    assert(next@ == declarator(prefix, name_seq));
                    fragment = next;
                    right = true;
                },
            }
            i += 1;
        }
        assert(mods.subrange(0, mods.len() as int) =~= mods);
        let mut out = self.qualifiers.to_string();
        let mut base = String::new();
        self.base.push_text(&mut base);
        assert(base@ =~= base_text(self.base));
        push_spaced(&mut out, base.as_str());
        assert(out@ == spaced(qualifiers_text(self.qualifiers), base_text(self.base)));
        push_spaced(&mut out, fragment.as_str());
        assert(fragment@ == declarator(self.modifiers@, name_seq));
        assert(out@ == type_text(*self, name_seq));
        out
    }

    /// The type's text with no name declared.
    pub fn to_string(&self) -> (r: String)
        ensures
            r@ == type_text(*self, Seq::empty()),
    {
        self.render(None)
    }
}

} // verus!
