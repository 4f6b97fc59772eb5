//! How the operators of conditions relate to each other, to the integers and to the booleans.
use super::{
    absolute, decision, meaning, mentions_pages, quotient, remainder, typing, ConditionEvaluationError,
    ConditionIr, ConditionType, ConditionValue, Evaluated, PagesContext,
};
use vstd::prelude::*;

verus! {

/// The ordering operators agree with each other, whatever their operands: `a <= b` means the same as
/// `!(a > b)`, `a >= b` the same as `!(a < b)`; and where both operands are integers, `a <= b` means
/// the same as `(a < b) || (a == b)`, `a > b` the same as `b < a`, and `a >= b` the same as `b <= a`.
pub proof fn law_ordering_operators_agree(
    left: Box<ConditionIr>,
    right: Box<ConditionIr>,
    pages: PagesContext,
)
    ensures
        meaning(ConditionIr::LessEqual(left, right), pages) == meaning(
            ConditionIr::Not(Box::new(ConditionIr::Greater(left, right))),
            pages,
        ),
        meaning(ConditionIr::GreaterEqual(left, right), pages) == meaning(
            ConditionIr::Not(Box::new(ConditionIr::Less(left, right))),
            pages,
        ),
        (meaning(*left, pages) matches Ok(ConditionValue::Integer(_))) && (meaning(*right, pages)
            matches Ok(ConditionValue::Integer(_))) ==> {
            &&& meaning(ConditionIr::LessEqual(left, right), pages) == meaning(
                ConditionIr::Or(
                    Box::new(ConditionIr::Less(left, right)),
                    Box::new(ConditionIr::Equal(left, right)),
                ),
                pages,
            )
            &&& meaning(ConditionIr::Greater(left, right), pages) == meaning(
                ConditionIr::Less(right, left),
                pages,
            )
            &&& meaning(ConditionIr::GreaterEqual(left, right), pages) == meaning(
                ConditionIr::LessEqual(right, left),
                pages,
            )
        },
{
    let less = meaning(ConditionIr::Less(left, right), pages);
    let greater = meaning(ConditionIr::Greater(left, right), pages);
    let equal = meaning(ConditionIr::Equal(left, right), pages);
    assert(less is Ok ==> less->Ok_0 is Bool);
    assert(greater is Ok ==> greater->Ok_0 is Bool);
    assert(equal is Ok ==> equal->Ok_0 is Bool);
}

/// A comparison of two integers decides how they stand to each other.
pub proof fn law_comparisons_are_those_of_the_integers(
    left: Box<ConditionIr>,
    right: Box<ConditionIr>,
    pages: PagesContext,
    a: i64,
    b: i64,
)
    requires
        meaning(*left, pages) == Evaluated::Ok(ConditionValue::Integer(a)),
        meaning(*right, pages) == Evaluated::Ok(ConditionValue::Integer(b)),
    ensures
        decision(ConditionIr::Less(left, right), pages) == Ok::<bool, ConditionEvaluationError>(
            a < b,
        ),
        decision(ConditionIr::LessEqual(left, right), pages) == Ok::<
            bool,
            ConditionEvaluationError,
        >(a < b || a == b),
        decision(ConditionIr::Greater(left, right), pages) == Ok::<bool, ConditionEvaluationError>(
            b < a,
        ),
        decision(ConditionIr::GreaterEqual(left, right), pages) == Ok::<
            bool,
            ConditionEvaluationError,
        >(b < a || a == b),
        decision(ConditionIr::Equal(left, right), pages) == Ok::<bool, ConditionEvaluationError>(
            a == b,
        ),
        decision(ConditionIr::NotEqual(left, right), pages) == Ok::<bool, ConditionEvaluationError>(
            a != b,
        ),
{
}

/// A literal means itself, and the pager's numbers mean themselves as long as they are integers that a
/// condition can hold.
pub proof fn law_leaves_mean_themselves(value: i64, truth: bool, pages: PagesContext)
    ensures
        meaning(ConditionIr::Integer(value), pages) == Evaluated::Ok(
            ConditionValue::Integer(value),
        ),
        meaning(ConditionIr::Bool(truth), pages) == Evaluated::Ok(ConditionValue::Bool(truth)),
        pages.count <= i64::MAX ==> (meaning(ConditionIr::PagesCount, pages) matches Ok(
            ConditionValue::Integer(count),
        ) && count == pages.count),
        pages.count > i64::MAX ==> meaning(ConditionIr::PagesCount, pages) == Evaluated::Err(
            ConditionEvaluationError::ArithmeticOverflow,
        ),
        pages.current <= i64::MAX ==> (meaning(ConditionIr::PagesCurrent, pages) matches Ok(
            ConditionValue::Integer(current),
        ) && current == pages.current),
        pages.current > i64::MAX ==> meaning(ConditionIr::PagesCurrent, pages) == Evaluated::Err(
            ConditionEvaluationError::ArithmeticOverflow,
        ),
{
}

/// Arithmetic is that of the integers, and overflows exactly where the result is none that a condition
/// can hold.
pub proof fn law_arithmetic_is_that_of_the_integers(
    left: Box<ConditionIr>,
    right: Box<ConditionIr>,
    pages: PagesContext,
    a: i64,
    b: i64,
)
    requires
        meaning(*left, pages) == Evaluated::Ok(ConditionValue::Integer(a)),
        meaning(*right, pages) == Evaluated::Ok(ConditionValue::Integer(b)),
    ensures
        is_the_integer(meaning(ConditionIr::Add(left, right), pages), a + b),
        is_the_integer(meaning(ConditionIr::Subtract(left, right), pages), a - b),
        is_the_integer(meaning(ConditionIr::Multiply(left, right), pages), a * b),
        is_the_integer(meaning(ConditionIr::Negate(left), pages), 0 - a),
{
}

/// A result is this integer, or says that it is too large or too small.
pub open spec fn is_the_integer(result: Evaluated, value: int) -> bool {
    if i64::MIN <= value && value <= i64::MAX {
        result matches Ok(ConditionValue::Integer(found)) && found == value
    } else {
        result == Evaluated::Err(ConditionEvaluationError::ArithmeticOverflow)
    }
}

/// What is subtracted can be added again, and a value negated twice is the value, unless that overflows.
pub proof fn law_arithmetic_can_be_undone(
    left: Box<ConditionIr>,
    right: Box<ConditionIr>,
    pages: PagesContext,
)
    ensures
        meaning(ConditionIr::Subtract(left, right), pages) is Ok ==> meaning(
            ConditionIr::Add(Box::new(ConditionIr::Subtract(left, right)), right),
            pages,
        ) == meaning(*left, pages),
        meaning(ConditionIr::Negate(left), pages) is Ok ==> meaning(
            ConditionIr::Negate(Box::new(ConditionIr::Negate(left))),
            pages,
        ) == meaning(*left, pages),
{
    let less = meaning(ConditionIr::Subtract(left, right), pages);
    let negated = meaning(ConditionIr::Negate(left), pages);
    assert(less is Ok ==> less->Ok_0 is Integer);
    assert(negated is Ok ==> negated->Ok_0 is Integer);
}

/// Division and remainder belong together: the quotient times the divisor and the remainder make the
/// dividend, the remainder is smaller than the divisor, and it has the dividend's sign, so that the
/// quotient is rounded toward zero. Both fail on a divisor of zero, and where the quotient is too
/// large.
pub proof fn law_division_leaves_a_remainder(
    left: Box<ConditionIr>,
    right: Box<ConditionIr>,
    pages: PagesContext,
    a: i64,
    b: i64,
)
    requires
        meaning(*left, pages) == Evaluated::Ok(ConditionValue::Integer(a)),
        meaning(*right, pages) == Evaluated::Ok(ConditionValue::Integer(b)),
    ensures
        b == 0 ==> meaning(ConditionIr::Divide(left, right), pages) == Evaluated::Err(
            ConditionEvaluationError::DivisionByZero,
        ) && meaning(ConditionIr::Modulo(left, right), pages) == Evaluated::Err(
            ConditionEvaluationError::DivisionByZero,
        ),
        a == i64::MIN && b == -1 ==> meaning(ConditionIr::Divide(left, right), pages)
            == Evaluated::Err(ConditionEvaluationError::ArithmeticOverflow) && meaning(
            ConditionIr::Modulo(left, right),
            pages,
        ) == Evaluated::Err(ConditionEvaluationError::ArithmeticOverflow),
        b != 0 && !(a == i64::MIN && b == -1) ==> {
            &&& meaning(ConditionIr::Divide(left, right), pages) matches Ok(
                ConditionValue::Integer(whole),
            )
            &&& meaning(ConditionIr::Modulo(left, right), pages) matches Ok(
                ConditionValue::Integer(rest),
            )
            &&& whole * b + rest == a
            &&& rest < b || rest < -b
            &&& -rest < b || -rest < -b
            &&& a >= 0 ==> rest >= 0
            &&& a <= 0 ==> rest <= 0
        },
{
    if b != 0 {
        super::lemma_quotient(a as int, b as int);
        let m = absolute(a as int);
        let d = absolute(b as int);
        let q = m / d;
        let r = m % d;
        assert(q * d + r == m && 0 <= r < d) by (nonlinear_arith)
            requires
                d >= 1,
                m >= 0,
                q == m / d,
                r == m % d,
        ;
        let whole = quotient(a as int, b as int);
        let rest = remainder(a as int, b as int);
        assert(whole * b + rest == a) by (nonlinear_arith)
            requires
                q * d + r == m,
                b != 0,
                m == (if a < 0 {
                    -a
                } else {
                    a as int
                }),
                d == (if b < 0 {
                    -b
                } else {
                    b as int
                }),
                whole == (if (a < 0) == (b < 0) {
                    q
                } else {
                    -q
                }),
                rest == (if a < 0 {
                    -r
                } else {
                    r
                }),
        ;
    }
}

/// The boolean operators are those of the booleans, and `?:` takes the branch that its condition says.
pub proof fn law_boolean_operators_are_those_of_the_booleans(
    left: Box<ConditionIr>,
    right: Box<ConditionIr>,
    pages: PagesContext,
    a: bool,
    b: bool,
    first: Box<ConditionIr>,
    second: Box<ConditionIr>,
)
    requires
        meaning(*left, pages) == Evaluated::Ok(ConditionValue::Bool(a)),
        meaning(*right, pages) == Evaluated::Ok(ConditionValue::Bool(b)),
    ensures
        decision(ConditionIr::Not(left), pages) == Ok::<bool, ConditionEvaluationError>(!a),
        decision(ConditionIr::And(left, right), pages) == Ok::<bool, ConditionEvaluationError>(
            a && b,
        ),
        decision(ConditionIr::Or(left, right), pages) == Ok::<bool, ConditionEvaluationError>(
            a || b,
        ),
        decision(ConditionIr::Equal(left, right), pages) == Ok::<bool, ConditionEvaluationError>(
            a == b,
        ),
        decision(ConditionIr::NotEqual(left, right), pages) == Ok::<bool, ConditionEvaluationError>(
            a != b,
        ),
        meaning(ConditionIr::Conditional(left, first, second), pages) == if a {
            meaning(*first, pages)
        } else {
            meaning(*second, pages)
        },
{
}

/// `&&` and `||` mirror each other: what is not both is one of the negations, as long as the operands
/// do not fail.
pub proof fn law_conjunction_mirrors_disjunction(
    left: Box<ConditionIr>,
    right: Box<ConditionIr>,
    pages: PagesContext,
)
    ensures
        meaning(ConditionIr::Not(Box::new(ConditionIr::And(left, right))), pages) == meaning(
            ConditionIr::Or(
                Box::new(ConditionIr::Not(left)),
                Box::new(ConditionIr::Not(right)),
            ),
            pages,
        ),
        meaning(ConditionIr::Not(Box::new(ConditionIr::Or(left, right))), pages) == meaning(
            ConditionIr::And(
                Box::new(ConditionIr::Not(left)),
                Box::new(ConditionIr::Not(right)),
            ),
            pages,
        ),
{
    reveal_with_fuel(meaning, 3);
}

/// Values of two kinds are not equal, and that is no failure.
pub proof fn law_two_kinds_are_not_equal(
    left: Box<ConditionIr>,
    right: Box<ConditionIr>,
    pages: PagesContext,
    a: bool,
    b: i64,
)
    requires
        meaning(*left, pages) == Evaluated::Ok(ConditionValue::Bool(a)),
        meaning(*right, pages) == Evaluated::Ok(ConditionValue::Integer(b)),
    ensures
        decision(ConditionIr::Equal(left, right), pages) == Ok::<bool, ConditionEvaluationError>(
            false,
        ),
        decision(ConditionIr::NotEqual(left, right), pages) == Ok::<bool, ConditionEvaluationError>(
            true,
        ),
        decision(ConditionIr::Equal(right, left), pages) == Ok::<bool, ConditionEvaluationError>(
            false,
        ),
{
}

/// An operator that takes integers.
pub open spec fn takes_integers(tree: ConditionIr, left: ConditionIr, right: ConditionIr) -> bool {
    let (l, r) = (Box::new(left), Box::new(right));
    ||| tree == ConditionIr::Less(l, r)
    ||| tree == ConditionIr::LessEqual(l, r)
    ||| tree == ConditionIr::Greater(l, r)
    ||| tree == ConditionIr::GreaterEqual(l, r)
    ||| tree == ConditionIr::Add(l, r)
    ||| tree == ConditionIr::Subtract(l, r)
    ||| tree == ConditionIr::Multiply(l, r)
    ||| tree == ConditionIr::Divide(l, r)
    ||| tree == ConditionIr::Modulo(l, r)
}

/// An operator on integers fails as its left operand does, then as its right one does; a boolean in
/// either place is a mismatch.
pub proof fn law_operands_fail_from_left_to_right(
    tree: ConditionIr,
    left: ConditionIr,
    right: ConditionIr,
    pages: PagesContext,
)
    requires
        takes_integers(tree, left, right),
    ensures
        meaning(left, pages) is Err ==> meaning(tree, pages) == meaning(left, pages),
        (meaning(left, pages) matches Ok(ConditionValue::Bool(_))) ==> meaning(tree, pages)
            == Evaluated::Err(ConditionEvaluationError::TypeMismatch),
        (meaning(left, pages) matches Ok(ConditionValue::Integer(_))) && meaning(right, pages) is Err
            ==> meaning(tree, pages) == meaning(right, pages),
        (meaning(left, pages) matches Ok(ConditionValue::Integer(_))) && (meaning(right, pages)
            matches Ok(ConditionValue::Bool(_))) ==> meaning(tree, pages) == Evaluated::Err(
            ConditionEvaluationError::TypeMismatch,
        ),
{
}

/// The other operators fail as their operands do, in the order in which they look at them, and a value
/// of the wrong kind is a mismatch.
pub proof fn law_failures_are_passed_on(
    left: Box<ConditionIr>,
    right: Box<ConditionIr>,
    other: Box<ConditionIr>,
    pages: PagesContext,
)
    ensures
        meaning(*left, pages) is Err ==> {
            &&& meaning(ConditionIr::Not(left), pages) == meaning(*left, pages)
            &&& meaning(ConditionIr::Negate(left), pages) == meaning(*left, pages)
            &&& meaning(ConditionIr::And(left, right), pages) == meaning(*left, pages)
            &&& meaning(ConditionIr::Or(left, right), pages) == meaning(*left, pages)
            &&& meaning(ConditionIr::Equal(left, right), pages) == meaning(*left, pages)
            &&& meaning(ConditionIr::NotEqual(left, right), pages) == meaning(*left, pages)
            &&& meaning(ConditionIr::Conditional(left, right, other), pages) == meaning(
                *left,
                pages,
            )
        },
        (meaning(*left, pages) matches Ok(ConditionValue::Integer(_))) ==> {
            let mismatch = Evaluated::Err(ConditionEvaluationError::TypeMismatch);
            &&& meaning(ConditionIr::Not(left), pages) == mismatch
            &&& meaning(ConditionIr::And(left, right), pages) == mismatch
            &&& meaning(ConditionIr::Or(left, right), pages) == mismatch
            &&& meaning(ConditionIr::Conditional(left, right, other), pages) == mismatch
        },
        (meaning(*left, pages) matches Ok(ConditionValue::Bool(_))) ==> meaning(
            ConditionIr::Negate(left),
            pages,
        ) == Evaluated::Err(ConditionEvaluationError::TypeMismatch),
        meaning(*left, pages) is Ok && meaning(*right, pages) is Err ==> {
            &&& meaning(ConditionIr::Equal(left, right), pages) == meaning(*right, pages)
            &&& meaning(ConditionIr::NotEqual(left, right), pages) == meaning(*right, pages)
        },
        meaning(*left, pages) == Evaluated::Ok(ConditionValue::Bool(true)) && meaning(
            *right,
            pages,
        ) is Err ==> meaning(ConditionIr::And(left, right), pages) == meaning(*right, pages),
        meaning(*left, pages) == Evaluated::Ok(ConditionValue::Bool(false)) && meaning(
            *right,
            pages,
        ) is Err ==> meaning(ConditionIr::Or(left, right), pages) == meaning(*right, pages),
        meaning(*left, pages) == Evaluated::Ok(ConditionValue::Bool(true)) && (meaning(
            *right,
            pages,
        ) matches Ok(ConditionValue::Integer(_))) ==> meaning(
            ConditionIr::And(left, right),
            pages,
        ) == Evaluated::Err(ConditionEvaluationError::TypeMismatch),
        meaning(*left, pages) == Evaluated::Ok(ConditionValue::Bool(false)) && (meaning(
            *right,
            pages,
        ) matches Ok(ConditionValue::Integer(_))) ==> meaning(
            ConditionIr::Or(left, right),
            pages,
        ) == Evaluated::Err(ConditionEvaluationError::TypeMismatch),
{
}

/// A condition decides what it means, where it means a boolean; an integer decides nothing.
pub proof fn law_only_booleans_decide(tree: ConditionIr, pages: PagesContext)
    ensures
        forall|truth: bool|
            (#[trigger] decision(tree, pages) == Ok::<bool, ConditionEvaluationError>(truth)) <==> (
            meaning(tree, pages) == Evaluated::Ok(ConditionValue::Bool(truth))),
        (meaning(tree, pages) matches Ok(ConditionValue::Integer(_))) ==> decision(tree, pages)
            == Err::<bool, ConditionEvaluationError>(ConditionEvaluationError::NonBooleanResult),
        meaning(tree, pages) matches Err(error) ==> decision(tree, pages) == Err::<
            bool,
            ConditionEvaluationError,
        >(error),
{
}

/// What a type check accepts: each operator on operands of its kind, and nothing else.
pub proof fn law_a_type_check_accepts_what_fits(
    left: Box<ConditionIr>,
    right: Box<ConditionIr>,
    other: Box<ConditionIr>,
    truth: bool,
    value: i64,
)
    ensures
        typing(ConditionIr::Bool(truth)) == Ok::<ConditionType, Seq<char>>(ConditionType::Boolean),
        typing(ConditionIr::Integer(value)) == Ok::<ConditionType, Seq<char>>(
            ConditionType::Integer,
        ),
        typing(ConditionIr::PagesCount) == Ok::<ConditionType, Seq<char>>(ConditionType::Integer),
        typing(ConditionIr::PagesCurrent) == Ok::<ConditionType, Seq<char>>(ConditionType::Integer),
        fits(
            ConditionIr::Not(left),
            is_of(*left, ConditionType::Boolean),
            ConditionType::Boolean,
        ),
        fits(
            ConditionIr::Negate(left),
            is_of(*left, ConditionType::Integer),
            ConditionType::Integer,
        ),
        fits(
            ConditionIr::And(left, right),
            is_of(*left, ConditionType::Boolean) && is_of(*right, ConditionType::Boolean),
            ConditionType::Boolean,
        ),
        fits(
            ConditionIr::Or(left, right),
            is_of(*left, ConditionType::Boolean) && is_of(*right, ConditionType::Boolean),
            ConditionType::Boolean,
        ),
        fits(
            ConditionIr::Equal(left, right),
            typing(*left) is Ok && typing(*left) == typing(*right),
            ConditionType::Boolean,
        ),
        fits(
            ConditionIr::NotEqual(left, right),
            typing(*left) is Ok && typing(*left) == typing(*right),
            ConditionType::Boolean,
        ),
        fits(
            ConditionIr::Less(left, right),
            is_of(*left, ConditionType::Integer) && is_of(*right, ConditionType::Integer),
            ConditionType::Boolean,
        ),
        fits(
            ConditionIr::LessEqual(left, right),
            is_of(*left, ConditionType::Integer) && is_of(*right, ConditionType::Integer),
            ConditionType::Boolean,
        ),
        fits(
            ConditionIr::Greater(left, right),
            is_of(*left, ConditionType::Integer) && is_of(*right, ConditionType::Integer),
            ConditionType::Boolean,
        ),
        fits(
            ConditionIr::GreaterEqual(left, right),
            is_of(*left, ConditionType::Integer) && is_of(*right, ConditionType::Integer),
            ConditionType::Boolean,
        ),
        fits(
            ConditionIr::Add(left, right),
            is_of(*left, ConditionType::Integer) && is_of(*right, ConditionType::Integer),
            ConditionType::Integer,
        ),
        fits(
            ConditionIr::Subtract(left, right),
            is_of(*left, ConditionType::Integer) && is_of(*right, ConditionType::Integer),
            ConditionType::Integer,
        ),
        fits(
            ConditionIr::Multiply(left, right),
            is_of(*left, ConditionType::Integer) && is_of(*right, ConditionType::Integer),
            ConditionType::Integer,
        ),
        fits(
            ConditionIr::Divide(left, right),
            is_of(*left, ConditionType::Integer) && is_of(*right, ConditionType::Integer),
            ConditionType::Integer,
        ),
        fits(
            ConditionIr::Modulo(left, right),
            is_of(*left, ConditionType::Integer) && is_of(*right, ConditionType::Integer),
            ConditionType::Integer,
        ),
        typing(ConditionIr::Conditional(other, left, right)) is Ok <==> is_of(
            *other,
            ConditionType::Boolean,
        ) && typing(*left) is Ok && typing(*left) == typing(*right),
        typing(ConditionIr::Conditional(other, left, right)) is Ok ==> typing(
            ConditionIr::Conditional(other, left, right),
        ) == typing(*left),
{
}

/// A condition passes its type check as this kind.
pub open spec fn is_of(tree: ConditionIr, kind: ConditionType) -> bool {
    typing(tree) == Ok::<ConditionType, Seq<char>>(kind)
}

/// A condition passes its type check exactly under this condition, and then as this kind.
pub open spec fn fits(tree: ConditionIr, when: bool, kind: ConditionType) -> bool {
    &&& typing(tree) is Ok <==> when
    &&& when ==> typing(tree) == Ok::<ConditionType, Seq<char>>(kind)
}

/// The first operand that does not fit is what a type check complains of: its own complaint where it
/// has one, else the operator's.
pub proof fn law_a_type_check_complains_of_the_first_misfit(
    tree: ConditionIr,
    left: ConditionIr,
    right: ConditionIr,
)
    requires
        takes_integers(tree, left, right),
    ensures
        typing(left) is Err ==> typing(tree) == typing(left),
        typing(left) is Ok && typing(right) is Err ==> (typing(tree) == if is_of(
            left,
            ConditionType::Integer,
        ) {
            typing(right)
        } else {
            complaint(tree)
        }),
        typing(left) is Ok && typing(right) is Ok && typing(tree) is Err ==> typing(tree)
            == complaint(tree),
{
}

/// What the operators on integers say of a boolean operand.
pub open spec fn complaint(tree: ConditionIr) -> Result<ConditionType, Seq<char>> {
    match tree {
        ConditionIr::Less(..) | ConditionIr::LessEqual(..) | ConditionIr::Greater(..)
        | ConditionIr::GreaterEqual(..) => Err(
            "ordering comparison requires integer operands"@,
        ),
        _ => Err("arithmetic requires integer operands"@),
    }
}

/// A condition is about the pager exactly where one of its parts is, down to the pager's own numbers.
pub proof fn law_a_condition_is_about_what_its_parts_are_about(
    left: Box<ConditionIr>,
    right: Box<ConditionIr>,
    other: Box<ConditionIr>,
    truth: bool,
    value: i64,
)
    ensures
        mentions_pages(ConditionIr::PagesCount),
        mentions_pages(ConditionIr::PagesCurrent),
        !mentions_pages(ConditionIr::Bool(truth)),
        !mentions_pages(ConditionIr::Integer(value)),
        mentions_pages(ConditionIr::Not(left)) == mentions_pages(*left),
        mentions_pages(ConditionIr::Negate(left)) == mentions_pages(*left),
        ({
            let either = mentions_pages(*left) || mentions_pages(*right);
            &&& mentions_pages(ConditionIr::And(left, right)) == either
            &&& mentions_pages(ConditionIr::Or(left, right)) == either
            &&& mentions_pages(ConditionIr::Equal(left, right)) == either
            &&& mentions_pages(ConditionIr::NotEqual(left, right)) == either
            &&& mentions_pages(ConditionIr::Less(left, right)) == either
            &&& mentions_pages(ConditionIr::LessEqual(left, right)) == either
            &&& mentions_pages(ConditionIr::Greater(left, right)) == either
            &&& mentions_pages(ConditionIr::GreaterEqual(left, right)) == either
            &&& mentions_pages(ConditionIr::Add(left, right)) == either
            &&& mentions_pages(ConditionIr::Subtract(left, right)) == either
            &&& mentions_pages(ConditionIr::Multiply(left, right)) == either
            &&& mentions_pages(ConditionIr::Divide(left, right)) == either
            &&& mentions_pages(ConditionIr::Modulo(left, right)) == either
            &&& mentions_pages(ConditionIr::Conditional(other, left, right)) == (either
                || mentions_pages(*other))
        }),
{
}

/// What the other operators say of an operand of the wrong kind, each by its sign: a check that fails
/// without its operands failing complains of the operator.
pub proof fn law_a_type_check_names_the_operator(
    left: Box<ConditionIr>,
    right: Box<ConditionIr>,
    other: Box<ConditionIr>,
)
    requires
        typing(*left) is Ok,
        typing(*right) is Ok,
        typing(*other) is Ok,
    ensures
        says(ConditionIr::Not(left), "operator `!` requires a boolean operand"@),
        says(ConditionIr::Negate(left), "unary `-` requires an integer operand"@),
        says(ConditionIr::And(left, right), "operator `&&` requires boolean operands"@),
        says(ConditionIr::Or(left, right), "operator `||` requires boolean operands"@),
        says(
            ConditionIr::Equal(left, right),
            "comparison `==`/`!=` requires both sides to have the same type"@,
        ),
        says(
            ConditionIr::NotEqual(left, right),
            "comparison `==`/`!=` requires both sides to have the same type"@,
        ),
        says(
            ConditionIr::Conditional(other, left, right),
            if is_of(*other, ConditionType::Boolean) {
                "the `?:` branches must both be boolean or both be integer"@
            } else {
                "the `?:` condition must be boolean"@
            },
        ),
{
}

/// Where a type check fails it says this.
pub open spec fn says(tree: ConditionIr, text: Seq<char>) -> bool {
    typing(tree) matches Err(complaint) ==> complaint == text
}

} // verus!
