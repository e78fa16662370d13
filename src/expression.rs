use vstd::prelude::*;

use crate::error::Error;
use crate::identifier::{is_identifier, Identifier};
use crate::literal::{literal_text, Literal};
use crate::text::push_char;
use crate::types::{type_text, Type};

verus! {

/// A C expression, rendered with every operand in its own parentheses
/// wherever precedence could matter.
#[derive(Debug)]
#[allow(inconsistent_fields)]
pub enum Expression {
    Identifier(Identifier),
    Literal(Literal),
    Sizeof(Type),
    Unary { expression: Box<Expression>, operation: UnaryOperation },
    Binary { left: Box<Expression>, right: Box<Expression>, operation: BinaryOperation },
    Ternary { condition: Box<Expression>, if_true: Box<Expression>, if_false: Box<Expression> },
}

/// An operation on one operand; some carry a second part (a type, an index, a field).
#[derive(Debug)]
pub enum UnaryOperation {
    PrefixIncrement,
    PrefixDecrement,
    PostfixIncrement,
    PostfixDecrement,
    Address,
    Dereference,
    Plus,
    Minus,
    BitwiseNegate,
    LogicalNegate,
    Sizeof,
    Cast(Type),
    ArrayAccess(Box<Expression>),
    StructAccess(Identifier),
    StructDereference(Identifier),
}

/// An infix operation on two operands.
#[derive(Debug)]
pub enum BinaryOperation {
    Add,
    Subtract,
    Multiply,
    Divide,
    Modulo,
    LeftShift,
    RightShift,
    LessThan,
    GreaterThan,
    LessThanEqual,
    GreaterThanEqual,
    Equal,
    NotEqual,
    BitwiseAnd,
    BitwiseOr,
    BitwiseXor,
    LogicalAnd,
    LogicalOr,
    Comma,
    Assign,
    AddAssign,
    SubtractAssign,
    MultiplyAssign,
    DivideAssign,
    ModuloAssign,
    LeftShiftAssign,
    RightShiftAssign,
    BitwiseAndAssign,
    BitwiseOrAssign,
    BitwiseXorAssign,
}

/// The C token of an infix operation.
pub open spec fn binary_symbol(op: BinaryOperation) -> Seq<char> {
    match op {
        BinaryOperation::Add => "+"@,
        BinaryOperation::Subtract => "-"@,
        BinaryOperation::Multiply => "*"@,
        BinaryOperation::Divide => "/"@,
        BinaryOperation::Modulo => "%"@,
        BinaryOperation::LeftShift => "<<"@,
        BinaryOperation::RightShift => ">>"@,
        BinaryOperation::LessThan => "<"@,
        BinaryOperation::GreaterThan => ">"@,
        BinaryOperation::LessThanEqual => "<="@,
        BinaryOperation::GreaterThanEqual => ">="@,
        BinaryOperation::Equal => "=="@,
        BinaryOperation::NotEqual => "!="@,
        BinaryOperation::BitwiseAnd => "&"@,
        BinaryOperation::BitwiseOr => "|"@,
        BinaryOperation::BitwiseXor => "^"@,
        BinaryOperation::LogicalAnd => "&&"@,
        BinaryOperation::LogicalOr => "||"@,
        BinaryOperation::Comma => ","@,
        BinaryOperation::Assign => "="@,
        BinaryOperation::AddAssign => "+="@,
        BinaryOperation::SubtractAssign => "-="@,
        BinaryOperation::MultiplyAssign => "*="@,
        BinaryOperation::DivideAssign => "/="@,
        BinaryOperation::ModuloAssign => "%="@,
        BinaryOperation::LeftShiftAssign => "<<="@,
        BinaryOperation::RightShiftAssign => ">>="@,
        BinaryOperation::BitwiseAndAssign => "&="@,
        BinaryOperation::BitwiseOrAssign => "|="@,
        BinaryOperation::BitwiseXorAssign => "^="@,
    }
}

/// `(text)`
pub open spec fn parenthesized(s: Seq<char>) -> Seq<char> {
    seq!['('] + s + seq![')']
}

/// The C text of an expression.
#[verifier::opaque]
pub open spec fn expression_text(e: Expression) -> Seq<char>
    decreases e,
{
    match e {
        Expression::Identifier(id) => id@,
        Expression::Literal(l) => literal_text(l),
        Expression::Sizeof(t) => "sizeof"@ + parenthesized(type_text(t, Seq::empty())),
        Expression::Unary { expression, operation } => {
            let inner = expression_text(*expression);
            match operation {
                UnaryOperation::PrefixIncrement => "++"@ + parenthesized(inner),
                UnaryOperation::PrefixDecrement => "--"@ + parenthesized(inner),
                UnaryOperation::PostfixIncrement => parenthesized(inner) + "++"@,
                UnaryOperation::PostfixDecrement => parenthesized(inner) + "--"@,
                UnaryOperation::Address => "&"@ + parenthesized(inner),
                UnaryOperation::Dereference => "*"@ + parenthesized(inner),
                UnaryOperation::Plus => "+"@ + parenthesized(inner),
                UnaryOperation::Minus => "-"@ + parenthesized(inner),
                UnaryOperation::BitwiseNegate => "~"@ + parenthesized(inner),
                UnaryOperation::LogicalNegate => "!"@ + parenthesized(inner),
                UnaryOperation::Sizeof => "sizeof"@ + parenthesized(inner),
                UnaryOperation::Cast(t) => parenthesized(type_text(t, Seq::empty())) + parenthesized(inner),
                UnaryOperation::ArrayAccess(index) => parenthesized(inner) + seq!['['] + expression_text(*index)
                    + seq![']'],
                UnaryOperation::StructAccess(field) => parenthesized(inner) + seq!['.'] + field@,
                UnaryOperation::StructDereference(field) => parenthesized(inner) + "->"@ + field@,
            }
        },
        Expression::Binary { left, right, operation } => expression_text(*left) + seq![' '] + binary_symbol(
            operation,
        ) + seq![' '] + expression_text(*right),
        Expression::Ternary { condition, if_true, if_false } => parenthesized(expression_text(*condition))
            + " ? "@ + parenthesized(expression_text(*if_true)) + " : "@ + parenthesized(
            expression_text(*if_false),
        ),
    }
}

fn push_parenthesized(out: &mut String, text: &str)
    ensures
        final(out)@ == old(out)@ + parenthesized(text@),
{
    push_char(out, '(');
    out.append(text);
    push_char(out, ')');
    assert(final(out)@ =~= old(out)@ + parenthesized(text@));
}

impl BinaryOperation {
    /// The operation's C token.
    pub fn symbol(&self) -> (r: &'static str)
        ensures
            r@ == binary_symbol(*self),
    {
        match self {
            BinaryOperation::Add => "+",
            BinaryOperation::Subtract => "-",
            BinaryOperation::Multiply => "*",
            BinaryOperation::Divide => "/",
            BinaryOperation::Modulo => "%",
            BinaryOperation::LeftShift => "<<",
            BinaryOperation::RightShift => ">>",
            BinaryOperation::LessThan => "<",
            BinaryOperation::GreaterThan => ">",
            BinaryOperation::LessThanEqual => "<=",
            BinaryOperation::GreaterThanEqual => ">=",
            BinaryOperation::Equal => "==",
            BinaryOperation::NotEqual => "!=",
            BinaryOperation::BitwiseAnd => "&",
            BinaryOperation::BitwiseOr => "|",
            BinaryOperation::BitwiseXor => "^",
            BinaryOperation::LogicalAnd => "&&",
            BinaryOperation::LogicalOr => "||",
            BinaryOperation::Comma => ",",
            BinaryOperation::Assign => "=",
            BinaryOperation::AddAssign => "+=",
            BinaryOperation::SubtractAssign => "-=",
            BinaryOperation::MultiplyAssign => "*=",
            BinaryOperation::DivideAssign => "/=",
            BinaryOperation::ModuloAssign => "%=",
            BinaryOperation::LeftShiftAssign => "<<=",
            BinaryOperation::RightShiftAssign => ">>=",
            BinaryOperation::BitwiseAndAssign => "&=",
            BinaryOperation::BitwiseOrAssign => "|=",
            BinaryOperation::BitwiseXorAssign => "^=",
        }
    }
}

impl Expression {
    /// Appends the expression's C text.
    pub fn push_text(&self, out: &mut String)
        ensures
            final(out)@ == old(out)@ + expression_text(*self),
        decreases self,
    {
        reveal(expression_text);
        match self {
            Expression::Identifier(id) => out.append(id.as_str()),
            Expression::Literal(l) => l.push_text(out),
            Expression::Sizeof(t) => {
                out.append("sizeof");
                let text = t.render(None);
                push_parenthesized(out, text.as_str());
            },
            Expression::Unary { expression, operation } => {
                let mut inner = String::new();
                push_char(&mut inner, '(');
                expression.push_text(&mut inner);
                push_char(&mut inner, ')');
                match operation {
                    UnaryOperation::PrefixIncrement => out.append("++"),
                    UnaryOperation::PrefixDecrement => out.append("--"),
                    UnaryOperation::Address => out.append("&"),
                    UnaryOperation::Dereference => out.append("*"),
                    UnaryOperation::Plus => out.append("+"),
                    UnaryOperation::Minus => out.append("-"),
                    UnaryOperation::BitwiseNegate => out.append("~"),
                    UnaryOperation::LogicalNegate => out.append("!"),
                    UnaryOperation::Sizeof => out.append("sizeof"),
                    UnaryOperation::Cast(t) => {
                        let text = t.render(None);
                        push_parenthesized(out, text.as_str());
                    },
                    _ => {},
                }
                out.append(inner.as_str());
                match operation {
                    UnaryOperation::PostfixIncrement => out.append("++"),
                    UnaryOperation::PostfixDecrement => out.append("--"),
                    UnaryOperation::ArrayAccess(index) => {
                        push_char(out, '[');
                        index.push_text(out);
                        push_char(out, ']');
                    },
                    UnaryOperation::StructAccess(field) => {
                        push_char(out, '.');
                        out.append(field.as_str());
                    },
                    UnaryOperation::StructDereference(field) => {
                        out.append("->");
                        out.append(field.as_str());
                    },
                    _ => {},
                }
            },
            Expression::Binary { left, right, operation } => {
                left.push_text(out);
                push_char(out, ' ');
                out.append(operation.symbol());
                push_char(out, ' ');
                right.push_text(out);
            },
            Expression::Ternary { condition, if_true, if_false } => {
                push_char(out, '(');
                condition.push_text(out);
                push_char(out, ')');
                out.append(" ? ");
                push_char(out, '(');
                if_true.push_text(out);
                push_char(out, ')');
                out.append(" : ");
                push_char(out, '(');
                if_false.push_text(out);
                push_char(out, ')');
            },
        }
        assert(final(out)@ =~= old(out)@ + expression_text(*self));
    }

    /// The expression's C text.
    pub fn to_string(&self) -> (r: String)
        ensures
            r@ == expression_text(*self),
    {
        let mut out = String::new();
        self.push_text(&mut out);
        assert(out@ =~= expression_text(*self));
        out
    }
}

/// The expression naming `name`; fails when `name` is not an identifier.
pub fn identifier(name: &str) -> (r: Result<Expression, Error>)
    ensures
        r is Ok <==> is_identifier(name@),
        r matches Ok(e) ==> e matches Expression::Identifier(id) && id@ == name@,
        r matches Err(Error::BadIdentifier(s)) ==> s@ == name@,
{
    Ok(Expression::Identifier(Identifier::new(name)?))
}

/// The expression holding the constant `value`.
pub fn literal(value: Literal) -> (r: Expression)
    ensures
        r == Expression::Literal(value),
{
    Expression::Literal(value)
}

/// `sizeof(the_type)`.
pub fn sizeof_type(the_type: Type) -> (r: Expression)
    ensures
        r == Expression::Sizeof(the_type),
{
    Expression::Sizeof(the_type)
}

/// `(condition) ? (if_true) : (if_false)`.
pub fn ternary(condition: Expression, if_true: Expression, if_false: Expression) -> (r: Expression)
    ensures
        r matches Expression::Ternary { condition: c, if_true: t, if_false: f } && *c == condition
            && *t == if_true && *f == if_false,
{
    Expression::Ternary {
        condition: Box::new(condition),
        if_true: Box::new(if_true),
        if_false: Box::new(if_false),
    }
}

/// `++(e)`.
pub fn prefix_inc(expression: Expression) -> (r: Expression)
    ensures
        r matches Expression::Unary { expression: e, operation: UnaryOperation::PrefixIncrement } && *e == expression,
{
    Expression::Unary { expression: Box::new(expression), operation: UnaryOperation::PrefixIncrement }
}

/// `--(e)`.
pub fn prefix_dec(expression: Expression) -> (r: Expression)
    ensures
        r matches Expression::Unary { expression: e, operation: UnaryOperation::PrefixDecrement } && *e == expression,
{
    Expression::Unary { expression: Box::new(expression), operation: UnaryOperation::PrefixDecrement }
}

/// `(e)++`.
pub fn postfix_inc(expression: Expression) -> (r: Expression)
    ensures
        r matches Expression::Unary { expression: e, operation: UnaryOperation::PostfixIncrement } && *e == expression,
{
    Expression::Unary { expression: Box::new(expression), operation: UnaryOperation::PostfixIncrement }
}

/// `(e)--`.
pub fn postfix_dec(expression: Expression) -> (r: Expression)
    ensures
        r matches Expression::Unary { expression: e, operation: UnaryOperation::PostfixDecrement } && *e == expression,
{
    Expression::Unary { expression: Box::new(expression), operation: UnaryOperation::PostfixDecrement }
}

/// `&(e)`.
pub fn address(expression: Expression) -> (r: Expression)
    ensures
        r matches Expression::Unary { expression: e, operation: UnaryOperation::Address } && *e == expression,
{
    Expression::Unary { expression: Box::new(expression), operation: UnaryOperation::Address }
}

/// `*(e)`.
pub fn dereference(expression: Expression) -> (r: Expression)
    ensures
        r matches Expression::Unary { expression: e, operation: UnaryOperation::Dereference } && *e == expression,
{
    Expression::Unary { expression: Box::new(expression), operation: UnaryOperation::Dereference }
}

/// `+(e)`.
pub fn plus(expression: Expression) -> (r: Expression)
    ensures
        r matches Expression::Unary { expression: e, operation: UnaryOperation::Plus } && *e == expression,
{
    Expression::Unary { expression: Box::new(expression), operation: UnaryOperation::Plus }
}

/// `-(e)`.
pub fn minus(expression: Expression) -> (r: Expression)
    ensures
        r matches Expression::Unary { expression: e, operation: UnaryOperation::Minus } && *e == expression,
{
    Expression::Unary { expression: Box::new(expression), operation: UnaryOperation::Minus }
}

/// `~(e)`.
pub fn bitwise_neg(expression: Expression) -> (r: Expression)
    ensures
        r matches Expression::Unary { expression: e, operation: UnaryOperation::BitwiseNegate } && *e == expression,
{
    Expression::Unary { expression: Box::new(expression), operation: UnaryOperation::BitwiseNegate }
}

/// `!(e)`.
pub fn logical_neg(expression: Expression) -> (r: Expression)
    ensures
        r matches Expression::Unary { expression: e, operation: UnaryOperation::LogicalNegate } && *e == expression,
{
    Expression::Unary { expression: Box::new(expression), operation: UnaryOperation::LogicalNegate }
}

/// `sizeof(e)`.
pub fn sizeof_exp(expression: Expression) -> (r: Expression)
    ensures
        r matches Expression::Unary { expression: e, operation: UnaryOperation::Sizeof } && *e == expression,
{
    Expression::Unary { expression: Box::new(expression), operation: UnaryOperation::Sizeof }
}

/// `(to)(expression)`.
pub fn cast(expression: Expression, to: Type) -> (r: Expression)
    ensures
        r matches Expression::Unary { expression: e, operation: UnaryOperation::Cast(t) } && *e == expression
            && t == to,
{
    Expression::Unary { expression: Box::new(expression), operation: UnaryOperation::Cast(to) }
}

/// `(expression)[index]`.
pub fn array_access(expression: Expression, index: Expression) -> (r: Expression)
    ensures
        r matches Expression::Unary { expression: e, operation: UnaryOperation::ArrayAccess(i) } && *e
            == expression && *i == index,
{
    Expression::Unary {
        expression: Box::new(expression),
        operation: UnaryOperation::ArrayAccess(Box::new(index)),
    }
}

/// `(expression).field`; fails when `field` is not an identifier.
pub fn struct_access(expression: Expression, field: &str) -> (r: Result<Expression, Error>)
    ensures
        r is Ok <==> is_identifier(field@),
        r matches Ok(x) ==> x matches Expression::Unary {
            expression: e,
            operation: UnaryOperation::StructAccess(id),
        } && *e == expression && id@ == field@,
        r matches Err(Error::BadIdentifier(s)) ==> s@ == field@,
{
    Ok(Expression::Unary {
        expression: Box::new(expression),
        operation: UnaryOperation::StructAccess(Identifier::new(field)?),
    })
}

/// `(expression)->field`; fails when `field` is not an identifier.
pub fn struct_dereference(expression: Expression, field: &str) -> (r: Result<Expression, Error>)
    ensures
        r is Ok <==> is_identifier(field@),
        r matches Ok(x) ==> x matches Expression::Unary {
            expression: e,
            operation: UnaryOperation::StructDereference(id),
        } && *e == expression && id@ == field@,
        r matches Err(Error::BadIdentifier(s)) ==> s@ == field@,
{
    Ok(Expression::Unary {
        expression: Box::new(expression),
        operation: UnaryOperation::StructDereference(Identifier::new(field)?),
    })
}

/// `left + right`.
pub fn add(left: Expression, right: Expression) -> (r: Expression)
    ensures
        r matches Expression::Binary { left: l, right: x, operation: BinaryOperation::Add } && *l == left
            && *x == right,
{
    Expression::Binary { left: Box::new(left), right: Box::new(right), operation: BinaryOperation::Add }
}

/// `left - right`.
pub fn subtract(left: Expression, right: Expression) -> (r: Expression)
    ensures
        r matches Expression::Binary { left: l, right: x, operation: BinaryOperation::Subtract } && *l == left
            && *x == right,
{
    Expression::Binary { left: Box::new(left), right: Box::new(right), operation: BinaryOperation::Subtract }
}

/// `left * right`.
pub fn multiply(left: Expression, right: Expression) -> (r: Expression)
    ensures
        r matches Expression::Binary { left: l, right: x, operation: BinaryOperation::Multiply } && *l == left
            && *x == right,
{
    Expression::Binary { left: Box::new(left), right: Box::new(right), operation: BinaryOperation::Multiply }
}

/// `left / right`.
pub fn divide(left: Expression, right: Expression) -> (r: Expression)
    ensures
        r matches Expression::Binary { left: l, right: x, operation: BinaryOperation::Divide } && *l == left
            && *x == right,
{
    Expression::Binary { left: Box::new(left), right: Box::new(right), operation: BinaryOperation::Divide }
}

/// `left % right`.
pub fn modulo(left: Expression, right: Expression) -> (r: Expression)
    ensures
        r matches Expression::Binary { left: l, right: x, operation: BinaryOperation::Modulo } && *l == left
            && *x == right,
{
    Expression::Binary { left: Box::new(left), right: Box::new(right), operation: BinaryOperation::Modulo }
}

/// `left << right`.
pub fn left_shift(left: Expression, right: Expression) -> (r: Expression)
    ensures
        r matches Expression::Binary { left: l, right: x, operation: BinaryOperation::LeftShift } && *l == left
            && *x == right,
{
    Expression::Binary { left: Box::new(left), right: Box::new(right), operation: BinaryOperation::LeftShift }
}

/// `left >> right`.
pub fn right_shift(left: Expression, right: Expression) -> (r: Expression)
    ensures
        r matches Expression::Binary { left: l, right: x, operation: BinaryOperation::RightShift } && *l == left
            && *x == right,
{
    Expression::Binary { left: Box::new(left), right: Box::new(right), operation: BinaryOperation::RightShift }
}

/// `left < right`.
pub fn less_than(left: Expression, right: Expression) -> (r: Expression)
    ensures
        r matches Expression::Binary { left: l, right: x, operation: BinaryOperation::LessThan } && *l == left
            && *x == right,
{
    Expression::Binary { left: Box::new(left), right: Box::new(right), operation: BinaryOperation::LessThan }
}

/// `left > right`.
pub fn greater_than(left: Expression, right: Expression) -> (r: Expression)
    ensures
        r matches Expression::Binary { left: l, right: x, operation: BinaryOperation::GreaterThan } && *l == left
            && *x == right,
{
    Expression::Binary { left: Box::new(left), right: Box::new(right), operation: BinaryOperation::GreaterThan }
}

/// `left <= right`.
pub fn less_than_equal(left: Expression, right: Expression) -> (r: Expression)
    ensures
        r matches Expression::Binary { left: l, right: x, operation: BinaryOperation::LessThanEqual } && *l == left
            && *x == right,
{
    Expression::Binary { left: Box::new(left), right: Box::new(right), operation: BinaryOperation::LessThanEqual }
}

/// `left >= right`.
pub fn greater_than_equal(left: Expression, right: Expression) -> (r: Expression)
    ensures
        r matches Expression::Binary { left: l, right: x, operation: BinaryOperation::GreaterThanEqual } && *l == left
            && *x == right,
{
    Expression::Binary { left: Box::new(left), right: Box::new(right), operation: BinaryOperation::GreaterThanEqual }
}

/// `left == right`.
pub fn equal(left: Expression, right: Expression) -> (r: Expression)
    ensures
        r matches Expression::Binary { left: l, right: x, operation: BinaryOperation::Equal } && *l == left
            && *x == right,
{
    Expression::Binary { left: Box::new(left), right: Box::new(right), operation: BinaryOperation::Equal }
}

/// `left != right`.
pub fn not_equal(left: Expression, right: Expression) -> (r: Expression)
    ensures
        r matches Expression::Binary { left: l, right: x, operation: BinaryOperation::NotEqual } && *l == left
            && *x == right,
{
    Expression::Binary { left: Box::new(left), right: Box::new(right), operation: BinaryOperation::NotEqual }
}

/// `left & right`.
pub fn bitwise_and(left: Expression, right: Expression) -> (r: Expression)
    ensures
        r matches Expression::Binary { left: l, right: x, operation: BinaryOperation::BitwiseAnd } && *l == left
            && *x == right,
{
    Expression::Binary { left: Box::new(left), right: Box::new(right), operation: BinaryOperation::BitwiseAnd }
}

/// `left | right`.
pub fn bitwise_or(left: Expression, right: Expression) -> (r: Expression)
    ensures
        r matches Expression::Binary { left: l, right: x, operation: BinaryOperation::BitwiseOr } && *l == left
            && *x == right,
{
    Expression::Binary { left: Box::new(left), right: Box::new(right), operation: BinaryOperation::BitwiseOr }
}

/// `left ^ right`.
pub fn bitwise_xor(left: Expression, right: Expression) -> (r: Expression)
    ensures
        r matches Expression::Binary { left: l, right: x, operation: BinaryOperation::BitwiseXor } && *l == left
            && *x == right,
{
    Expression::Binary { left: Box::new(left), right: Box::new(right), operation: BinaryOperation::BitwiseXor }
}

/// `left && right`.
pub fn logical_and(left: Expression, right: Expression) -> (r: Expression)
    ensures
        r matches Expression::Binary { left: l, right: x, operation: BinaryOperation::LogicalAnd } && *l == left
            && *x == right,
{
    Expression::Binary { left: Box::new(left), right: Box::new(right), operation: BinaryOperation::LogicalAnd }
}

/// `left || right`.
pub fn logical_or(left: Expression, right: Expression) -> (r: Expression)
    ensures
        r matches Expression::Binary { left: l, right: x, operation: BinaryOperation::LogicalOr } && *l == left
            && *x == right,
{
    Expression::Binary { left: Box::new(left), right: Box::new(right), operation: BinaryOperation::LogicalOr }
}

/// `left , right`.
pub fn comma(left: Expression, right: Expression) -> (r: Expression)
    ensures
        r matches Expression::Binary { left: l, right: x, operation: BinaryOperation::Comma } && *l == left
            && *x == right,
{
    Expression::Binary { left: Box::new(left), right: Box::new(right), operation: BinaryOperation::Comma }
}

/// `left = right`.
pub fn assign(left: Expression, right: Expression) -> (r: Expression)
    ensures
        r matches Expression::Binary { left: l, right: x, operation: BinaryOperation::Assign } && *l == left
            && *x == right,
{
    Expression::Binary { left: Box::new(left), right: Box::new(right), operation: BinaryOperation::Assign }
}

/// `left += right`.
pub fn add_assign(left: Expression, right: Expression) -> (r: Expression)
    ensures
        r matches Expression::Binary { left: l, right: x, operation: BinaryOperation::AddAssign } && *l == left
            && *x == right,
{
    Expression::Binary { left: Box::new(left), right: Box::new(right), operation: BinaryOperation::AddAssign }
}

/// `left -= right`.
pub fn subtract_assign(left: Expression, right: Expression) -> (r: Expression)
    ensures
        r matches Expression::Binary { left: l, right: x, operation: BinaryOperation::SubtractAssign } && *l == left
            && *x == right,
{
    Expression::Binary { left: Box::new(left), right: Box::new(right), operation: BinaryOperation::SubtractAssign }
}

/// `left *= right`.
pub fn multiply_assign(left: Expression, right: Expression) -> (r: Expression)
    ensures
        r matches Expression::Binary { left: l, right: x, operation: BinaryOperation::MultiplyAssign } && *l == left
            && *x == right,
{
    Expression::Binary { left: Box::new(left), right: Box::new(right), operation: BinaryOperation::MultiplyAssign }
}

/// `left /= right`.
pub fn divide_assign(left: Expression, right: Expression) -> (r: Expression)
    ensures
        r matches Expression::Binary { left: l, right: x, operation: BinaryOperation::DivideAssign } && *l == left
            && *x == right,
{
    Expression::Binary { left: Box::new(left), right: Box::new(right), operation: BinaryOperation::DivideAssign }
}

/// `left %= right`.
pub fn modulo_assign(left: Expression, right: Expression) -> (r: Expression)
    ensures
        r matches Expression::Binary { left: l, right: x, operation: BinaryOperation::ModuloAssign } && *l == left
            && *x == right,
{
    Expression::Binary { left: Box::new(left), right: Box::new(right), operation: BinaryOperation::ModuloAssign }
}

/// `left <<= right`.
pub fn left_shift_assign(left: Expression, right: Expression) -> (r: Expression)
    ensures
        r matches Expression::Binary { left: l, right: x, operation: BinaryOperation::LeftShiftAssign } && *l == left
            && *x == right,
{
    Expression::Binary { left: Box::new(left), right: Box::new(right), operation: BinaryOperation::LeftShiftAssign }
}

/// `left >>= right`.
pub fn right_shift_assign(left: Expression, right: Expression) -> (r: Expression)
    ensures
        r matches Expression::Binary { left: l, right: x, operation: BinaryOperation::RightShiftAssign } && *l == left
            && *x == right,
{
    Expression::Binary { left: Box::new(left), right: Box::new(right), operation: BinaryOperation::RightShiftAssign }
}

/// `left &= right`.
pub fn bitwsie_and_assign(left: Expression, right: Expression) -> (r: Expression)
    ensures
        r matches Expression::Binary { left: l, right: x, operation: BinaryOperation::BitwiseAndAssign } && *l == left
            && *x == right,
{
    Expression::Binary { left: Box::new(left), right: Box::new(right), operation: BinaryOperation::BitwiseAndAssign }
}

/// `left |= right`.
pub fn bitwise_or_assign(left: Expression, right: Expression) -> (r: Expression)
    ensures
        r matches Expression::Binary { left: l, right: x, operation: BinaryOperation::BitwiseOrAssign } && *l == left
            && *x == right,
{
    Expression::Binary { left: Box::new(left), right: Box::new(right), operation: BinaryOperation::BitwiseOrAssign }
}

/// `left ^= right`.
pub fn bitwise_xor_assign(left: Expression, right: Expression) -> (r: Expression)
    ensures
        r matches Expression::Binary { left: l, right: x, operation: BinaryOperation::BitwiseXorAssign } && *l == left
            && *x == right,
{
    Expression::Binary { left: Box::new(left), right: Box::new(right), operation: BinaryOperation::BitwiseXorAssign }
}

} // verus!
