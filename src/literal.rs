use vstd::prelude::*;

use crate::text::{escape_char, escape_chars, push_char, push_escaped, push_escaped_chars, push_signed_decimal, push_decimal, decimal, signed_decimal};

verus! {

/// The digits of a floating constant, kept as text.
#[derive(Debug)]
pub struct FloatConstant {
    value: String,
}

impl View for FloatConstant {
    type V = Seq<char>;

    closed spec fn view(&self) -> Seq<char> {
        self.value@
    }
}

impl FloatConstant {
    /// A constant with no fractional part: `12`.
    pub fn integer(integer: i128) -> (r: FloatConstant)
        ensures
            r@ == signed_decimal(integer as int),
    {
        let mut value = String::new();
        push_signed_decimal(&mut value, integer);
        FloatConstant { value }
    }

    /// A constant with a fractional part: `12.5`.
    pub fn decimal(integer: i128, fraction: i128) -> (r: FloatConstant)
        ensures
            r@ == signed_decimal(integer as int) + seq!['.'] + signed_decimal(fraction as int),
    {
        let mut value = String::new();
        push_signed_decimal(&mut value, integer);
        push_char(&mut value, '.');
        push_signed_decimal(&mut value, fraction);
        assert(value@ =~= signed_decimal(integer as int) + seq!['.'] + signed_decimal(fraction as int));
        FloatConstant { value }
    }

    /// A constant in scientific notation: `12.5e3`.
    pub fn scientific(integer: i128, fraction: i128, exponent: i128) -> (r: FloatConstant)
        ensures
            r@ == signed_decimal(integer as int) + seq!['.'] + signed_decimal(fraction as int)
                + seq!['e'] + signed_decimal(exponent as int),
    {
        let mut value = String::new();
        push_signed_decimal(&mut value, integer);
        push_char(&mut value, '.');
        push_signed_decimal(&mut value, fraction);
        push_char(&mut value, 'e');
        push_signed_decimal(&mut value, exponent);
        assert(value@ =~= signed_decimal(integer as int) + seq!['.'] + signed_decimal(fraction as int)
            + seq!['e'] + signed_decimal(exponent as int));
        FloatConstant { value }
    }

    /// The constant's text.
    pub fn to_string(&self) -> (r: String)
        ensures
            r@ == self@,
    {
        self.value.clone()
    }
}

/// A C constant, each variant with the suffix or quoting that its C form needs.
#[derive(Debug)]
pub enum Literal {
    Signed(i128),
    SignedLong(i128),
    SignedLongLong(i128),
    Unsigned(u128),
    UnsignedLong(u128),
    UnsignedLongLong(u128),
    Character(char),
    WideCharacter(char),
    Float(FloatConstant),
    Double(FloatConstant),
    LongDouble(FloatConstant),
    String(String),
    WideString(Vec<char>),
}

/// The C text of a literal.
pub open spec fn literal_text(l: Literal) -> Seq<char> {
    match l {
        Literal::Signed(v) => signed_decimal(v as int),
        Literal::SignedLong(v) => signed_decimal(v as int) + "L"@,
        Literal::SignedLongLong(v) => signed_decimal(v as int) + "LL"@,
        Literal::Unsigned(v) => decimal(v as nat) + "U"@,
        Literal::UnsignedLong(v) => decimal(v as nat) + "UL"@,
        Literal::UnsignedLongLong(v) => decimal(v as nat) + "ULL"@,
        Literal::Character(c) => seq!['\''] + escape_char(c) + seq!['\''],
        Literal::WideCharacter(c) => seq!['L', '\''] + escape_char(c) + seq!['\''],
        Literal::Float(f) => f@ + "f"@,
        Literal::Double(f) => f@,
        Literal::LongDouble(f) => f@ + "L"@,
        Literal::String(s) => seq!['"'] + escape_chars(s@) + seq!['"'],
        Literal::WideString(s) => seq!['L', '"'] + escape_chars(s@) + seq!['"'],
    }
}

impl Literal {
    /// Appends the literal's C text.
    pub fn push_text(&self, out: &mut String)
        ensures
            final(out)@ == old(out)@ + literal_text(*self),
    {
        match self {
            Literal::Signed(v) => push_signed_decimal(out, *v),
            Literal::SignedLong(v) => {
                push_signed_decimal(out, *v);
                out.append("L");
            },
            Literal::SignedLongLong(v) => {
                push_signed_decimal(out, *v);
                out.append("LL");
            },
            Literal::Unsigned(v) => {
                push_decimal(out, *v);
                out.append("U");
            },
            Literal::UnsignedLong(v) => {
                push_decimal(out, *v);
                out.append("UL");
            },
            Literal::UnsignedLongLong(v) => {
                push_decimal(out, *v);
                out.append("ULL");
            },
            Literal::Character(c) => {
                push_char(out, '\'');
                push_escaped(out, *c);
                push_char(out, '\'');
            },
            Literal::WideCharacter(c) => {
                push_char(out, 'L');
                push_char(out, '\'');
                push_escaped(out, *c);
                push_char(out, '\'');
            },
            Literal::Float(f) => {
                out.append(f.value.as_str());
                out.append("f");
            },
            Literal::Double(f) => out.append(f.value.as_str()),
            Literal::LongDouble(f) => {
                out.append(f.value.as_str());
                out.append("L");
            },
            Literal::String(s) => {
                push_char(out, '"');
                let mut chars: Vec<char> = Vec::new();
                push_chars_of(&mut chars, s.as_str());
                push_escaped_chars(out, &chars);
                push_char(out, '"');
            },
            Literal::WideString(s) => {
                push_char(out, 'L');
                push_char(out, '"');
                push_escaped_chars(out, s);
                push_char(out, '"');
            },
        }
        assert(final(out)@ =~= old(out)@ + literal_text(*self));
    }

    /// The literal's C text.
    pub fn to_string(&self) -> (r: String)
        ensures
            r@ == literal_text(*self),
    {
        let mut out = String::new();
        self.push_text(&mut out);
        assert(out@ =~= literal_text(*self));
        out
    }
}

fn push_chars_of(v: &mut Vec<char>, s: &str)
    ensures
        final(v)@ == old(v)@ + s@,
{
    let n = s.unicode_len();
    let mut i: usize = 0;
    while i < n
        invariant
            0 <= i <= n,
            n == s@.len(),
            v@ == old(v)@ + s@.subrange(0, i as int),
        decreases n - i,
    {
        v.push(s.get_char(i));
        i += 1;
        assert(v@ =~= old(v)@ + s@.subrange(0, i as int));
    }
    assert(s@.subrange(0, n as int) =~= s@);
}

} // verus!
