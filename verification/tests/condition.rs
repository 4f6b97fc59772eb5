use muxe_broker::condition::{
    evaluate, evaluate_typed, type_check, uses_pages, ConditionEvaluationError, ConditionIr,
    ConditionType, ConditionValue, PagesContext,
};

fn pages(count: u64, current: u64) -> PagesContext {
    PagesContext { count, current }
}

#[test]
fn short_circuit_skips_erroring_branches() {
    let erroring: ConditionIr = ConditionIr::Divide(
        Box::new(ConditionIr::Integer(1)),
        Box::new(ConditionIr::Integer(0)),
    );
    let and = ConditionIr::And(
        Box::new(ConditionIr::Bool(false)),
        Box::new(erroring.clone()),
    );
    assert_eq!(evaluate(&and, pages(1, 1)), Ok(false));
    let or = ConditionIr::Or(Box::new(ConditionIr::Bool(true)), Box::new(erroring));
    assert_eq!(evaluate(&or, pages(1, 1)), Ok(true));
}

#[test]
fn division_by_zero_and_overflow_are_classified() {
    let div = ConditionIr::Divide(
        Box::new(ConditionIr::Integer(1)),
        Box::new(ConditionIr::Integer(0)),
    );
    assert_eq!(
        evaluate_typed(&div, pages(1, 1)),
        Err(ConditionEvaluationError::DivisionByZero)
    );
    let overflow = ConditionIr::Add(
        Box::new(ConditionIr::Integer(i64::MAX)),
        Box::new(ConditionIr::Integer(1)),
    );
    assert_eq!(
        evaluate_typed(&overflow, pages(1, 1)),
        Err(ConditionEvaluationError::ArithmeticOverflow)
    );
    let negate_min = ConditionIr::Negate(Box::new(ConditionIr::Integer(i64::MIN)));
    assert_eq!(
        evaluate_typed(&negate_min, pages(1, 1)),
        Err(ConditionEvaluationError::ArithmeticOverflow)
    );
}

#[test]
fn type_check_rejects_mistyped_operands() {
    for tree in [
        ConditionIr::And(
            Box::new(ConditionIr::Bool(true)),
            Box::new(ConditionIr::Integer(1)),
        ),
        ConditionIr::Not(Box::new(ConditionIr::Integer(1))),
    ] {
        assert!(type_check(&tree).is_err());
        assert!(type_check(&tree).unwrap_err().message().len() > 8);
    }
    // A top-level integer checks as `Integer`; the compiler rejects it as a condition
    // because a published condition must be `Boolean`.
    assert_eq!(
        type_check(&ConditionIr::Integer(1)),
        Ok(ConditionType::Integer)
    );
}

#[test]
fn conditional_evaluates_the_taken_branch_only() {
    let tree = ConditionIr::Conditional(
        Box::new(ConditionIr::Bool(false)),
        Box::new(ConditionIr::Divide(
            Box::new(ConditionIr::Integer(1)),
            Box::new(ConditionIr::Integer(0)),
        )),
        Box::new(ConditionIr::Bool(true)),
    );
    assert_eq!(evaluate(&tree, pages(1, 1)), Ok(true));
}

fn pair(
    make: fn(Box<ConditionIr>, Box<ConditionIr>) -> ConditionIr,
    left: ConditionIr,
    right: ConditionIr,
) -> ConditionIr {
    make(Box::new(left), Box::new(right))
}

#[test]
fn operators_have_their_exact_values() {
    let integer = |make, left, right| {
        evaluate_typed(
            &pair(make, ConditionIr::Integer(left), ConditionIr::Integer(right)),
            pages(3, 2),
        )
    };
    assert_eq!(integer(ConditionIr::Add, 2, 3), Ok(ConditionValue::Integer(5)));
    assert_eq!(integer(ConditionIr::Subtract, 2, 3), Ok(ConditionValue::Integer(-1)));
    assert_eq!(integer(ConditionIr::Multiply, -4, 3), Ok(ConditionValue::Integer(-12)));
    assert_eq!(integer(ConditionIr::Divide, -7, 2), Ok(ConditionValue::Integer(-3)));
    assert_eq!(integer(ConditionIr::Divide, 7, -2), Ok(ConditionValue::Integer(-3)));
    assert_eq!(integer(ConditionIr::Modulo, -7, 2), Ok(ConditionValue::Integer(-1)));
    assert_eq!(integer(ConditionIr::Modulo, 7, -2), Ok(ConditionValue::Integer(1)));
    assert_eq!(
        integer(ConditionIr::Modulo, i64::MIN, -1),
        Err(ConditionEvaluationError::ArithmeticOverflow)
    );
    assert_eq!(
        integer(ConditionIr::Divide, i64::MIN, -1),
        Err(ConditionEvaluationError::ArithmeticOverflow)
    );
    assert_eq!(
        integer(ConditionIr::Modulo, 1, 0),
        Err(ConditionEvaluationError::DivisionByZero)
    );
    assert_eq!(integer(ConditionIr::Less, 1, 2), Ok(ConditionValue::Bool(true)));
    assert_eq!(integer(ConditionIr::LessEqual, 3, 2), Ok(ConditionValue::Bool(false)));
    assert_eq!(integer(ConditionIr::Greater, 3, 2), Ok(ConditionValue::Bool(true)));
    assert_eq!(integer(ConditionIr::GreaterEqual, 2, 2), Ok(ConditionValue::Bool(true)));
    assert_eq!(integer(ConditionIr::Equal, 2, 2), Ok(ConditionValue::Bool(true)));
    assert_eq!(integer(ConditionIr::NotEqual, 2, 2), Ok(ConditionValue::Bool(false)));
}

#[test]
fn inequality_is_negated_equality() {
    let erroring = ConditionIr::Divide(
        Box::new(ConditionIr::Integer(1)),
        Box::new(ConditionIr::Integer(0)),
    );
    for (left, right, equal) in [
        (ConditionIr::Integer(2), ConditionIr::Integer(2), Ok(true)),
        (ConditionIr::Integer(2), ConditionIr::Integer(3), Ok(false)),
        (ConditionIr::Bool(true), ConditionIr::Bool(false), Ok(false)),
        (
            ConditionIr::Integer(1),
            erroring,
            Err(ConditionEvaluationError::DivisionByZero),
        ),
    ] {
        let same = ConditionIr::Equal(Box::new(left.clone()), Box::new(right.clone()));
        let other = ConditionIr::NotEqual(Box::new(left), Box::new(right));
        assert_eq!(evaluate(&other, pages(1, 1)), equal.clone().map(|equal| !equal));
        assert_eq!(evaluate(&same, pages(1, 1)), equal);
    }
}

#[test]
fn pages_are_narrowed_and_reported() {
    assert_eq!(
        evaluate_typed(&ConditionIr::PagesCount, pages(3, 2)),
        Ok(ConditionValue::Integer(3))
    );
    assert_eq!(
        evaluate_typed(&ConditionIr::PagesCurrent, pages(3, u64::MAX)),
        Err(ConditionEvaluationError::ArithmeticOverflow)
    );
    let last = pair(ConditionIr::Equal, ConditionIr::PagesCurrent, ConditionIr::PagesCount);
    assert!(last.uses_pages());
    assert!(uses_pages(&last));
    assert!(!ConditionIr::Bool(true).uses_pages());
    assert_eq!(evaluate(&last, pages(4, 4)), Ok(true));
    assert_eq!(evaluate(&last, pages(4, 3)), Ok(false));
}

#[test]
fn mistyped_trees_fail_with_their_messages() {
    let mixed = pair(ConditionIr::Equal, ConditionIr::Bool(true), ConditionIr::Integer(1));
    assert_eq!(
        type_check(&mixed).unwrap_err().message(),
        "comparison `==`/`!=` requires both sides to have the same type"
    );
    assert_eq!(evaluate(&mixed, pages(1, 1)), Ok(false));
    let not_integer = ConditionIr::Not(Box::new(ConditionIr::Integer(1)));
    assert_eq!(
        evaluate(&not_integer, pages(1, 1)),
        Err(ConditionEvaluationError::TypeMismatch)
    );
    assert_eq!(
        evaluate(&ConditionIr::Integer(1), pages(1, 1)),
        Err(ConditionEvaluationError::NonBooleanResult)
    );
    assert_eq!(
        ConditionEvaluationError::NonBooleanResult.message(),
        "condition result must be boolean"
    );
    let branches = ConditionIr::Conditional(
        Box::new(ConditionIr::Bool(true)),
        Box::new(ConditionIr::Bool(true)),
        Box::new(ConditionIr::Integer(1)),
    );
    assert_eq!(
        type_check(&branches).unwrap_err().message(),
        "the `?:` branches must both be boolean or both be integer"
    );
}
