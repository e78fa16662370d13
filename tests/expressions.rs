use cdecl::builder::TypeBuilder;
use cdecl::expression::{BinaryOperation, Expression, UnaryOperation};
use cdecl::literal::{FloatConstant, Literal};
use cdecl::Identifier;

fn lit(v: i128) -> Box<Expression> {
    Box::new(Expression::Literal(Literal::Signed(v)))
}

#[test]
fn integer_literals_carry_their_suffixes() {
    assert_eq!(Literal::Signed(0).to_string(), "0");
    assert_eq!(Literal::Signed(-42).to_string(), "-42");
    assert_eq!(Literal::SignedLong(7).to_string(), "7L");
    assert_eq!(Literal::SignedLongLong(-1).to_string(), "-1LL");
    assert_eq!(Literal::Unsigned(10).to_string(), "10U");
    assert_eq!(Literal::UnsignedLong(99).to_string(), "99UL");
    assert_eq!(Literal::UnsignedLongLong(100).to_string(), "100ULL");
}

#[test]
fn extreme_integers() {
    assert_eq!(
        Literal::Signed(i128::MIN).to_string(),
        "-170141183460469231731687303715884105728"
    );
    assert_eq!(
        Literal::Signed(i128::MAX).to_string(),
        "170141183460469231731687303715884105727"
    );
    assert_eq!(
        Literal::Unsigned(u128::MAX).to_string(),
        "340282366920938463463374607431768211455U"
    );
}

#[test]
fn character_literals_are_escaped() {
    assert_eq!(Literal::Character('a').to_string(), "'a'");
    assert_eq!(Literal::Character('\n').to_string(), "'\\n'");
    assert_eq!(Literal::Character('\'').to_string(), "'\\''");
    assert_eq!(Literal::WideCharacter('\t').to_string(), "L'\\t'");
    assert_eq!(Literal::Character('\u{7f}').to_string(), "'\\u{7f}'");
    assert_eq!(Literal::Character('\u{1F600}').to_string(), "'\\u{1f600}'");
    assert_eq!(Literal::Character('\0').to_string(), "'\\u{0}'");
}

#[test]
fn string_literals_are_escaped() {
    assert_eq!(Literal::String("hi \"x\"\\".to_string()).to_string(), "\"hi \\\"x\\\"\\\\\"");
    assert_eq!(Literal::String(String::new()).to_string(), "\"\"");
    assert_eq!(Literal::String("\r\u{e9}".to_string()).to_string(), "\"\\r\\u{e9}\"");
    assert_eq!(Literal::WideString(vec!['o', 'k', '\n']).to_string(), "L\"ok\\n\"");
}

#[test]
fn float_constants() {
    assert_eq!(FloatConstant::integer(3).to_string(), "3");
    assert_eq!(FloatConstant::decimal(-1, 25).to_string(), "-1.25");
    assert_eq!(FloatConstant::scientific(6, 2, -3).to_string(), "6.2e-3");
    assert_eq!(Literal::Float(FloatConstant::decimal(1, 5)).to_string(), "1.5f");
    assert_eq!(Literal::Double(FloatConstant::integer(2)).to_string(), "2");
    assert_eq!(Literal::LongDouble(FloatConstant::scientific(1, 0, 10)).to_string(), "1.0e10L");
}

#[test]
fn unary_expressions_parenthesize_their_operand() {
    let cases = vec![
        (UnaryOperation::PrefixIncrement, "++(1)"),
        (UnaryOperation::PrefixDecrement, "--(1)"),
        (UnaryOperation::PostfixIncrement, "(1)++"),
        (UnaryOperation::PostfixDecrement, "(1)--"),
        (UnaryOperation::Address, "&(1)"),
        (UnaryOperation::Dereference, "*(1)"),
        (UnaryOperation::Plus, "+(1)"),
        (UnaryOperation::Minus, "-(1)"),
        (UnaryOperation::BitwiseNegate, "~(1)"),
        (UnaryOperation::LogicalNegate, "!(1)"),
        (UnaryOperation::Sizeof, "sizeof(1)"),
    ];
    for (operation, text) in cases {
        let e = Expression::Unary { expression: lit(1), operation };
        assert_eq!(e.to_string(), text);
    }
}

#[test]
fn unary_expressions_with_a_second_part() {
    let cast = Expression::Unary {
        expression: lit(1),
        operation: UnaryOperation::Cast(TypeBuilder::new().pointer_to().void()),
    };
    assert_eq!(cast.to_string(), "(void *)(1)");
    let index = Expression::Unary {
        expression: Box::new(Expression::Identifier(Identifier::new("a").unwrap())),
        operation: UnaryOperation::ArrayAccess(lit(2)),
    };
    assert_eq!(index.to_string(), "(a)[2]");
    let access = Expression::Unary {
        expression: Box::new(Expression::Identifier(Identifier::new("s").unwrap())),
        operation: UnaryOperation::StructAccess(Identifier::new("f").unwrap()),
    };
    assert_eq!(access.to_string(), "(s).f");
    let deref = Expression::Unary {
        expression: Box::new(Expression::Identifier(Identifier::new("p").unwrap())),
        operation: UnaryOperation::StructDereference(Identifier::new("f").unwrap()),
    };
    assert_eq!(deref.to_string(), "(p)->f");
}

#[test]
fn binary_and_ternary_expressions() {
    let sum = Expression::Binary { left: lit(1), right: lit(2), operation: BinaryOperation::Add };
    assert_eq!(sum.to_string(), "1 + 2");
    let shift = Expression::Binary {
        left: lit(1),
        right: lit(3),
        operation: BinaryOperation::LeftShiftAssign,
    };
    assert_eq!(shift.to_string(), "1 <<= 3");
    let choice = Expression::Ternary { condition: lit(0), if_true: lit(1), if_false: lit(2) };
    assert_eq!(choice.to_string(), "(0) ? (1) : (2)");
    assert_eq!(BinaryOperation::LogicalOr.symbol(), "||");
    assert_eq!(BinaryOperation::Comma.symbol(), ",");
}

#[test]
fn sizeof_a_type() {
    let e = Expression::Sizeof(TypeBuilder::new().pointer_to().sized_array_of(Expression::Literal(Literal::Signed(3))).char());
    assert_eq!(e.to_string(), "sizeof(char (*)[3])");
}

#[test]
fn array_size_is_an_expression() {
    let size = Expression::Binary {
        left: Box::new(Expression::Identifier(Identifier::new("N").unwrap())),
        right: lit(1),
        operation: BinaryOperation::Multiply,
    };
    let t = TypeBuilder::new().sized_array_of(size).signed_int();
    assert_eq!(t.render(Some(&Identifier::new("v").unwrap())), "int v[N * 1]");
}
