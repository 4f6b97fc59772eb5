//! One definition of pager conditions: a tree over booleans, integers and the pager's geometry,
//! its evaluator and its type check. Every representation of a condition is read through
//! [`ConditionNode`], so that evaluation and typing exist exactly once.
pub mod laws;

use vstd::prelude::*;

verus! {

/// Pager geometry, both numbers counted from one.
#[derive(Clone, Copy, Debug, PartialEq, Eq, Structural)]
pub struct PagesContext {
    pub count: u64,
    pub current: u64,
}

/// A condition as the compiler lowers it.
#[derive(Debug, PartialEq, Eq)]
pub enum ConditionIr {
    Bool(bool),
    Integer(i64),
    PagesCount,
    PagesCurrent,
    Not(Box<ConditionIr>),
    And(Box<ConditionIr>, Box<ConditionIr>),
    Or(Box<ConditionIr>, Box<ConditionIr>),
    Equal(Box<ConditionIr>, Box<ConditionIr>),
    NotEqual(Box<ConditionIr>, Box<ConditionIr>),
    Less(Box<ConditionIr>, Box<ConditionIr>),
    LessEqual(Box<ConditionIr>, Box<ConditionIr>),
    Greater(Box<ConditionIr>, Box<ConditionIr>),
    GreaterEqual(Box<ConditionIr>, Box<ConditionIr>),
    Add(Box<ConditionIr>, Box<ConditionIr>),
    Subtract(Box<ConditionIr>, Box<ConditionIr>),
    Multiply(Box<ConditionIr>, Box<ConditionIr>),
    Divide(Box<ConditionIr>, Box<ConditionIr>),
    Modulo(Box<ConditionIr>, Box<ConditionIr>),
    Negate(Box<ConditionIr>),
    Conditional(Box<ConditionIr>, Box<ConditionIr>, Box<ConditionIr>),
}

impl Clone for ConditionIr {
    fn clone(&self) -> (r: Self)
        ensures
            r == *self,
        decreases self,
    {
        match self {
            ConditionIr::Bool(value) => ConditionIr::Bool(*value),
            ConditionIr::Integer(value) => ConditionIr::Integer(*value),
            ConditionIr::PagesCount => ConditionIr::PagesCount,
            ConditionIr::PagesCurrent => ConditionIr::PagesCurrent,
            ConditionIr::Not(value) => ConditionIr::Not(Box::new((&**value).clone())),
            ConditionIr::And(left, right) => ConditionIr::And(
                Box::new((&**left).clone()),
                Box::new((&**right).clone()),
            ),
            ConditionIr::Or(left, right) => ConditionIr::Or(
                Box::new((&**left).clone()),
                Box::new((&**right).clone()),
            ),
            ConditionIr::Equal(left, right) => ConditionIr::Equal(
                Box::new((&**left).clone()),
                Box::new((&**right).clone()),
            ),
            ConditionIr::NotEqual(left, right) => ConditionIr::NotEqual(
                Box::new((&**left).clone()),
                Box::new((&**right).clone()),
            ),
            ConditionIr::Less(left, right) => ConditionIr::Less(
                Box::new((&**left).clone()),
                Box::new((&**right).clone()),
            ),
            ConditionIr::LessEqual(left, right) => ConditionIr::LessEqual(
                Box::new((&**left).clone()),
                Box::new((&**right).clone()),
            ),
            ConditionIr::Greater(left, right) => ConditionIr::Greater(
                Box::new((&**left).clone()),
                Box::new((&**right).clone()),
            ),
            ConditionIr::GreaterEqual(left, right) => ConditionIr::GreaterEqual(
                Box::new((&**left).clone()),
                Box::new((&**right).clone()),
            ),
            ConditionIr::Add(left, right) => ConditionIr::Add(
                Box::new((&**left).clone()),
                Box::new((&**right).clone()),
            ),
            ConditionIr::Subtract(left, right) => ConditionIr::Subtract(
                Box::new((&**left).clone()),
                Box::new((&**right).clone()),
            ),
            ConditionIr::Multiply(left, right) => ConditionIr::Multiply(
                Box::new((&**left).clone()),
                Box::new((&**right).clone()),
            ),
            ConditionIr::Divide(left, right) => ConditionIr::Divide(
                Box::new((&**left).clone()),
                Box::new((&**right).clone()),
            ),
            ConditionIr::Modulo(left, right) => ConditionIr::Modulo(
                Box::new((&**left).clone()),
                Box::new((&**right).clone()),
            ),
            ConditionIr::Negate(value) => ConditionIr::Negate(Box::new((&**value).clone())),
            ConditionIr::Conditional(condition, left, right) => ConditionIr::Conditional(
                Box::new((&**condition).clone()),
                Box::new((&**left).clone()),
                Box::new((&**right).clone()),
            ),
        }
    }
}

/// One node of a condition with its children borrowed.
#[derive(Clone, Copy, Debug)]
pub enum NodeRef<'a, V: ?Sized> {
    Bool(bool),
    Integer(i64),
    PagesCount,
    PagesCurrent,
    Not(&'a V),
    And(&'a V, &'a V),
    Or(&'a V, &'a V),
    Equal(&'a V, &'a V),
    NotEqual(&'a V, &'a V),
    Less(&'a V, &'a V),
    LessEqual(&'a V, &'a V),
    Greater(&'a V, &'a V),
    GreaterEqual(&'a V, &'a V),
    Add(&'a V, &'a V),
    Subtract(&'a V, &'a V),
    Multiply(&'a V, &'a V),
    Divide(&'a V, &'a V),
    Modulo(&'a V, &'a V),
    Negate(&'a V),
    Conditional(&'a V, &'a V, &'a V),
}

/// A node of some representation of a condition. An implementor says which condition it stands
/// for and hands out one level of it at a time; everything else is shared.
pub trait ConditionNode {
    /// The condition that this node stands for.
    spec fn tree(&self) -> ConditionIr;

    fn view(&self) -> (r: NodeRef<'_, Self>)
        ensures
            match r {
                NodeRef::Bool(value) => self.tree() == ConditionIr::Bool(value),
                NodeRef::Integer(value) => self.tree() == ConditionIr::Integer(value),
                NodeRef::PagesCount => self.tree() == ConditionIr::PagesCount,
                NodeRef::PagesCurrent => self.tree() == ConditionIr::PagesCurrent,
                NodeRef::Not(value) => self.tree() == ConditionIr::Not(Box::new(value.tree())),
                NodeRef::And(left, right) => self.tree() == ConditionIr::And(
                    Box::new(left.tree()),
                    Box::new(right.tree()),
                ),
                NodeRef::Or(left, right) => self.tree() == ConditionIr::Or(
                    Box::new(left.tree()),
                    Box::new(right.tree()),
                ),
                NodeRef::Equal(left, right) => self.tree() == ConditionIr::Equal(
                    Box::new(left.tree()),
                    Box::new(right.tree()),
                ),
                NodeRef::NotEqual(left, right) => self.tree() == ConditionIr::NotEqual(
                    Box::new(left.tree()),
                    Box::new(right.tree()),
                ),
                NodeRef::Less(left, right) => self.tree() == ConditionIr::Less(
                    Box::new(left.tree()),
                    Box::new(right.tree()),
                ),
                NodeRef::LessEqual(left, right) => self.tree() == ConditionIr::LessEqual(
                    Box::new(left.tree()),
                    Box::new(right.tree()),
                ),
                NodeRef::Greater(left, right) => self.tree() == ConditionIr::Greater(
                    Box::new(left.tree()),
                    Box::new(right.tree()),
                ),
                NodeRef::GreaterEqual(left, right) => self.tree() == ConditionIr::GreaterEqual(
                    Box::new(left.tree()),
                    Box::new(right.tree()),
                ),
                NodeRef::Add(left, right) => self.tree() == ConditionIr::Add(
                    Box::new(left.tree()),
                    Box::new(right.tree()),
                ),
                NodeRef::Subtract(left, right) => self.tree() == ConditionIr::Subtract(
                    Box::new(left.tree()),
                    Box::new(right.tree()),
                ),
                NodeRef::Multiply(left, right) => self.tree() == ConditionIr::Multiply(
                    Box::new(left.tree()),
                    Box::new(right.tree()),
                ),
                NodeRef::Divide(left, right) => self.tree() == ConditionIr::Divide(
                    Box::new(left.tree()),
                    Box::new(right.tree()),
                ),
                NodeRef::Modulo(left, right) => self.tree() == ConditionIr::Modulo(
                    Box::new(left.tree()),
                    Box::new(right.tree()),
                ),
                NodeRef::Negate(value) => self.tree() == ConditionIr::Negate(Box::new(value.tree())),
                NodeRef::Conditional(condition, left, right) => self.tree()
                    == ConditionIr::Conditional(
                    Box::new(condition.tree()),
                    Box::new(left.tree()),
                    Box::new(right.tree()),
                ),
            },
    ;

}

/// Whether a condition holds `pages.count` or `pages.current` anywhere.
pub open spec fn mentions_pages(tree: ConditionIr) -> bool
    decreases tree,
{
    match tree {
        ConditionIr::PagesCount | ConditionIr::PagesCurrent => true,
        ConditionIr::Bool(_) | ConditionIr::Integer(_) => false,
        ConditionIr::Not(value) | ConditionIr::Negate(value) => mentions_pages(*value),
        ConditionIr::And(left, right)
        | ConditionIr::Or(left, right)
        | ConditionIr::Equal(left, right)
        | ConditionIr::NotEqual(left, right)
        | ConditionIr::Less(left, right)
        | ConditionIr::LessEqual(left, right)
        | ConditionIr::Greater(left, right)
        | ConditionIr::GreaterEqual(left, right)
        | ConditionIr::Add(left, right)
        | ConditionIr::Subtract(left, right)
        | ConditionIr::Multiply(left, right)
        | ConditionIr::Divide(left, right)
        | ConditionIr::Modulo(left, right) => {
            mentions_pages(*left) || mentions_pages(*right)
        },
        ConditionIr::Conditional(condition, left, right) => {
            mentions_pages(*condition) || mentions_pages(*left) || mentions_pages(*right)
        },
    }
}

/// How many nodes a condition has.
pub open spec fn size(tree: ConditionIr) -> nat
    decreases tree,
{
    match tree {
        ConditionIr::Bool(_)
        | ConditionIr::Integer(_)
        | ConditionIr::PagesCount
        | ConditionIr::PagesCurrent => 1,
        ConditionIr::Not(value) | ConditionIr::Negate(value) => 1 + size(*value),
        ConditionIr::And(left, right)
        | ConditionIr::Or(left, right)
        | ConditionIr::Equal(left, right)
        | ConditionIr::NotEqual(left, right)
        | ConditionIr::Less(left, right)
        | ConditionIr::LessEqual(left, right)
        | ConditionIr::Greater(left, right)
        | ConditionIr::GreaterEqual(left, right)
        | ConditionIr::Add(left, right)
        | ConditionIr::Subtract(left, right)
        | ConditionIr::Multiply(left, right)
        | ConditionIr::Divide(left, right)
        | ConditionIr::Modulo(left, right) => {
            1 + size(*left) + size(*right)
        },
        ConditionIr::Conditional(condition, left, right) => {
            1 + size(*condition) + size(*left) + size(*right)
        },
    }
}

/// Whether the tree refers to the pager's geometry.
pub fn uses_pages<N: ConditionNode + ?Sized>(node: &N) -> (r: bool)
    ensures
        r == mentions_pages(node.tree()),
    decreases size(node.tree()),
{
    match node.view() {
        NodeRef::PagesCount | NodeRef::PagesCurrent => true,
        NodeRef::Bool(_) | NodeRef::Integer(_) => false,
        NodeRef::Not(value) | NodeRef::Negate(value) => uses_pages(value),
        NodeRef::And(left, right)
        | NodeRef::Or(left, right)
        | NodeRef::Equal(left, right)
        | NodeRef::NotEqual(left, right)
        | NodeRef::Less(left, right)
        | NodeRef::LessEqual(left, right)
        | NodeRef::Greater(left, right)
        | NodeRef::GreaterEqual(left, right)
        | NodeRef::Add(left, right)
        | NodeRef::Subtract(left, right)
        | NodeRef::Multiply(left, right)
        | NodeRef::Divide(left, right)
        | NodeRef::Modulo(left, right) => {
            uses_pages(left) || uses_pages(right)
        },
        NodeRef::Conditional(condition, left, right) => {
            uses_pages(condition) || uses_pages(left) || uses_pages(right)
        },
    }
}

impl ConditionIr {
    /// Whether the tree refers to the pager's geometry.
    pub fn uses_pages(&self) -> (r: bool)
        ensures
            r == mentions_pages(*self),
    {
        uses_pages(self)
    }
}

impl ConditionNode for ConditionIr {
    open spec fn tree(&self) -> ConditionIr {
        *self
    }

    fn view(&self) -> (r: NodeRef<'_, Self>) {
        match self {
            ConditionIr::Bool(value) => NodeRef::Bool(*value),
            ConditionIr::Integer(value) => NodeRef::Integer(*value),
            ConditionIr::PagesCount => NodeRef::PagesCount,
            ConditionIr::PagesCurrent => NodeRef::PagesCurrent,
            ConditionIr::Not(value) => NodeRef::Not(value),
            ConditionIr::And(left, right) => NodeRef::And(left, right),
            ConditionIr::Or(left, right) => NodeRef::Or(left, right),
            ConditionIr::Equal(left, right) => NodeRef::Equal(left, right),
            ConditionIr::NotEqual(left, right) => NodeRef::NotEqual(left, right),
            ConditionIr::Less(left, right) => NodeRef::Less(left, right),
            ConditionIr::LessEqual(left, right) => NodeRef::LessEqual(left, right),
            ConditionIr::Greater(left, right) => NodeRef::Greater(left, right),
            ConditionIr::GreaterEqual(left, right) => NodeRef::GreaterEqual(left, right),
            ConditionIr::Add(left, right) => NodeRef::Add(left, right),
            ConditionIr::Subtract(left, right) => NodeRef::Subtract(left, right),
            ConditionIr::Multiply(left, right) => NodeRef::Multiply(left, right),
            ConditionIr::Divide(left, right) => NodeRef::Divide(left, right),
            ConditionIr::Modulo(left, right) => NodeRef::Modulo(left, right),
            ConditionIr::Negate(value) => NodeRef::Negate(value),
            ConditionIr::Conditional(condition, left, right) => NodeRef::Conditional(condition, left, right),
        }
    }
}

/// What a node evaluates to.
#[derive(Clone, Copy, Debug, PartialEq, Eq, Structural)]
pub enum ConditionValue {
    Bool(bool),
    Integer(i64),
}

/// Why an evaluation fails. After a successful type check only the last two can come.
#[derive(Clone, Copy, Debug, PartialEq, Eq, Structural)]
pub enum ConditionEvaluationError {
    /// A boolean reached a place that takes an integer, or an integer one that takes a boolean.
    TypeMismatch,
    /// The root of a condition evaluated to an integer.
    NonBooleanResult,
    /// Division or remainder by zero.
    DivisionByZero,
    /// A result outside `i64`, or a page number above `i64::MAX`.
    ArithmeticOverflow,
}

impl ConditionEvaluationError {
    /// The text that a reader of the error sees.
    pub fn message(self) -> (r: &'static str)
        ensures
            r@ == match self {
                ConditionEvaluationError::TypeMismatch => "condition expected a matching value type"@,
                ConditionEvaluationError::NonBooleanResult => "condition result must be boolean"@,
                ConditionEvaluationError::DivisionByZero => "condition divides by zero"@,
                ConditionEvaluationError::ArithmeticOverflow => "condition arithmetic overflowed"@,
            },
    {
        match self {
            ConditionEvaluationError::TypeMismatch => "condition expected a matching value type",
            ConditionEvaluationError::NonBooleanResult => "condition result must be boolean",
            ConditionEvaluationError::DivisionByZero => "condition divides by zero",
            ConditionEvaluationError::ArithmeticOverflow => "condition arithmetic overflowed",
        }
    }
}

pub type Evaluated = Result<ConditionValue, ConditionEvaluationError>;

/// An integer result, or overflow where it does not fit.
pub open spec fn narrowed(value: int) -> Result<i64, ConditionEvaluationError> {
    if i64::MIN <= value <= i64::MAX {
        Ok(value as i64)
    } else {
        Err(ConditionEvaluationError::ArithmeticOverflow)
    }
}

/// Integer division that rounds toward zero.
pub open spec fn quotient(left: int, right: int) -> int {
    let magnitude = absolute(left) / absolute(right);
    if (left < 0) == (right < 0) {
        magnitude
    } else {
        -magnitude
    }
}

/// The remainder that belongs to [`quotient`]; it takes the sign of the dividend.
pub open spec fn remainder(left: int, right: int) -> int {
    let magnitude = absolute(left) % absolute(right);
    if left < 0 {
        -magnitude
    } else {
        magnitude
    }
}

pub open spec fn absolute(value: int) -> int {
    if value < 0 {
        -value
    } else {
        value
    }
}

/// Division, or the reason why there is none.
pub open spec fn divided(left: int, right: int) -> Result<i64, ConditionEvaluationError> {
    if right == 0 {
        Err(ConditionEvaluationError::DivisionByZero)
    } else {
        narrowed(quotient(left, right))
    }
}

/// Remainder, or the reason why there is none; where the quotient does not fit, neither does
/// the operation.
pub open spec fn reduced(left: int, right: int) -> Result<i64, ConditionEvaluationError> {
    if right == 0 {
        Err(ConditionEvaluationError::DivisionByZero)
    } else if i64::MIN <= quotient(left, right) <= i64::MAX {
        Ok(remainder(left, right) as i64)
    } else {
        Err(ConditionEvaluationError::ArithmeticOverflow)
    }
}

/// The boolean that an evaluation produced.
pub open spec fn boolean_of(value: Evaluated) -> Result<bool, ConditionEvaluationError> {
    match value {
        Ok(ConditionValue::Bool(value)) => Ok(value),
        Ok(ConditionValue::Integer(_)) => Err(ConditionEvaluationError::TypeMismatch),
        Err(error) => Err(error),
    }
}

/// The integer that an evaluation produced.
pub open spec fn integer_of(value: Evaluated) -> Result<i64, ConditionEvaluationError> {
    match value {
        Ok(ConditionValue::Integer(value)) => Ok(value),
        Ok(ConditionValue::Bool(_)) => Err(ConditionEvaluationError::TypeMismatch),
        Err(error) => Err(error),
    }
}

/// Both operands as integers; where both fail, the left one's failure counts.
pub open spec fn integers_of(left: Evaluated, right: Evaluated) -> Result<
    (int, int),
    ConditionEvaluationError,
> {
    match integer_of(left) {
        Err(error) => Err(error),
        Ok(left) => match integer_of(right) {
            Err(error) => Err(error),
            Ok(right) => Ok((left as int, right as int)),
        },
    }
}

/// An arithmetic operator on two evaluated operands.
pub open spec fn arithmetic(
    left: Evaluated,
    right: Evaluated,
    operator: spec_fn(int, int) -> Result<i64, ConditionEvaluationError>,
) -> Evaluated {
    match integers_of(left, right) {
        Err(error) => Err(error),
        Ok((left, right)) => match operator(left, right) {
            Err(error) => Err(error),
            Ok(value) => Ok(ConditionValue::Integer(value)),
        },
    }
}

/// An ordering comparison of two evaluated operands.
pub open spec fn ordering(
    left: Evaluated,
    right: Evaluated,
    relation: spec_fn(int, int) -> bool,
) -> Evaluated {
    match integers_of(left, right) {
        Err(error) => Err(error),
        Ok((left, right)) => Ok(ConditionValue::Bool(relation(left, right))),
    }
}

/// Whether two evaluated operands are the same value.
pub open spec fn equality(left: Evaluated, right: Evaluated) -> Result<
    bool,
    ConditionEvaluationError,
> {
    match left {
        Err(error) => Err(error),
        Ok(left) => match right {
            Err(error) => Err(error),
            Ok(right) => Ok(left == right),
        },
    }
}

/// A boolean result as a value.
pub open spec fn lifted(value: Result<bool, ConditionEvaluationError>) -> Evaluated {
    match value {
        Ok(value) => Ok(ConditionValue::Bool(value)),
        Err(error) => Err(error),
    }
}

/// What a condition means on a given pager.
pub open spec fn meaning(tree: ConditionIr, pages: PagesContext) -> Evaluated
    decreases tree,
{
    match tree {
        ConditionIr::Bool(value) => Ok(ConditionValue::Bool(value)),
        ConditionIr::Integer(value) => Ok(ConditionValue::Integer(value)),
        ConditionIr::PagesCount => match narrowed(pages.count as int) {
            Ok(value) => Ok(ConditionValue::Integer(value)),
            Err(error) => Err(error),
        },
        ConditionIr::PagesCurrent => match narrowed(pages.current as int) {
            Ok(value) => Ok(ConditionValue::Integer(value)),
            Err(error) => Err(error),
        },
        ConditionIr::Not(value) => match boolean_of(meaning(*value, pages)) {
            Ok(value) => Ok(ConditionValue::Bool(!value)),
            Err(error) => Err(error),
        },
        ConditionIr::Negate(value) => match integer_of(meaning(*value, pages)) {
            Err(error) => Err(error),
            Ok(value) => match narrowed(-value) {
                Ok(value) => Ok(ConditionValue::Integer(value)),
                Err(error) => Err(error),
            },
        },
        ConditionIr::And(left, right) => match boolean_of(meaning(*left, pages)) {
            Ok(true) => lifted(boolean_of(meaning(*right, pages))),
            decided => lifted(decided),
        },
        ConditionIr::Or(left, right) => match boolean_of(meaning(*left, pages)) {
            Ok(false) => lifted(boolean_of(meaning(*right, pages))),
            decided => lifted(decided),
        },
        ConditionIr::Equal(left, right) => lifted(
            equality(meaning(*left, pages), meaning(*right, pages)),
        ),
        ConditionIr::NotEqual(left, right) => match equality(
            meaning(*left, pages),
            meaning(*right, pages),
        ) {
            Ok(same) => Ok(ConditionValue::Bool(!same)),
            Err(error) => Err(error),
        },
        ConditionIr::Less(left, right) => ordering(
            meaning(*left, pages),
            meaning(*right, pages),
            |left: int, right: int| left < right,
        ),
        ConditionIr::LessEqual(left, right) => ordering(
            meaning(*left, pages),
            meaning(*right, pages),
            |left: int, right: int| left <= right,
        ),
        ConditionIr::Greater(left, right) => ordering(
            meaning(*left, pages),
            meaning(*right, pages),
            |left: int, right: int| left > right,
        ),
        ConditionIr::GreaterEqual(left, right) => ordering(
            meaning(*left, pages),
            meaning(*right, pages),
            |left: int, right: int| left >= right,
        ),
        ConditionIr::Add(left, right) => arithmetic(
            meaning(*left, pages),
            meaning(*right, pages),
            |left: int, right: int| narrowed(left + right),
        ),
        ConditionIr::Subtract(left, right) => arithmetic(
            meaning(*left, pages),
            meaning(*right, pages),
            |left: int, right: int| narrowed(left - right),
        ),
        ConditionIr::Multiply(left, right) => arithmetic(
            meaning(*left, pages),
            meaning(*right, pages),
            |left: int, right: int| narrowed(left * right),
        ),
        ConditionIr::Divide(left, right) => arithmetic(
            meaning(*left, pages),
            meaning(*right, pages),
            |left: int, right: int| divided(left, right),
        ),
        ConditionIr::Modulo(left, right) => arithmetic(
            meaning(*left, pages),
            meaning(*right, pages),
            |left: int, right: int| reduced(left, right),
        ),
        ConditionIr::Conditional(condition, left, right) => match boolean_of(
            meaning(*condition, pages),
        ) {
            Ok(true) => meaning(*left, pages),
            Ok(false) => meaning(*right, pages),
            Err(error) => Err(error),
        },
    }
}

/// What a condition decides: its meaning, which must be a boolean.
pub open spec fn decision(tree: ConditionIr, pages: PagesContext) -> Result<
    bool,
    ConditionEvaluationError,
> {
    match meaning(tree, pages) {
        Ok(ConditionValue::Bool(value)) => Ok(value),
        Ok(ConditionValue::Integer(_)) => Err(ConditionEvaluationError::NonBooleanResult),
        Err(error) => Err(error),
    }
}

impl ConditionValue {
    pub fn boolean(self) -> (r: Result<bool, ConditionEvaluationError>)
        ensures
            r == boolean_of(Ok(self)),
    {
        match self {
            ConditionValue::Bool(value) => Ok(value),
            ConditionValue::Integer(_) => Err(ConditionEvaluationError::TypeMismatch),
        }
    }

    pub fn integer(self) -> (r: Result<i64, ConditionEvaluationError>)
        ensures
            r == integer_of(Ok(self)),
    {
        match self {
            ConditionValue::Integer(value) => Ok(value),
            ConditionValue::Bool(_) => Err(ConditionEvaluationError::TypeMismatch),
        }
    }
}

pub fn pages_count(pages: PagesContext) -> (r: Result<i64, ConditionEvaluationError>)
    ensures
        r == narrowed(pages.count as int),
{
    u64_to_i64(pages.count)
}

pub fn pages_current(pages: PagesContext) -> (r: Result<i64, ConditionEvaluationError>)
    ensures
        r == narrowed(pages.current as int),
{
    u64_to_i64(pages.current)
}

pub fn u64_to_i64(value: u64) -> (r: Result<i64, ConditionEvaluationError>)
    ensures
        r == narrowed(value as int),
{
    if value <= 0x7fff_ffff_ffff_ffff {
        Ok(value as i64)
    } else {
        Err(ConditionEvaluationError::ArithmeticOverflow)
    }
}

fn in_range(value: Option<i64>) -> (r: Result<i64, ConditionEvaluationError>)
    ensures
        r == (match value {
            Some(value) => Ok::<i64, ConditionEvaluationError>(value),
            None => Err(ConditionEvaluationError::ArithmeticOverflow),
        }),
{
    match value {
        Some(value) => Ok(value),
        None => Err(ConditionEvaluationError::ArithmeticOverflow),
    }
}

pub fn checked_add(left: i64, right: i64) -> (r: Result<i64, ConditionEvaluationError>)
    ensures
        r == narrowed(left + right),
{
    in_range(left.checked_add(right))
}

pub fn checked_sub(left: i64, right: i64) -> (r: Result<i64, ConditionEvaluationError>)
    ensures
        r == narrowed(left - right),
{
    in_range(left.checked_sub(right))
}

pub fn checked_mul(left: i64, right: i64) -> (r: Result<i64, ConditionEvaluationError>)
    ensures
        r == narrowed(left * right),
{
    in_range(left.checked_mul(right))
}

proof fn lemma_quotient(left: int, right: int)
    requires
        right != 0,
        i64::MIN <= left <= i64::MAX,
        i64::MIN <= right <= i64::MAX,
    ensures
        quotient(left, right) > i64::MAX <==> left == i64::MIN && right == -1,
        quotient(left, right) >= i64::MIN,
        absolute(remainder(left, right)) <= i64::MAX,
{
    let a = absolute(left);
    let b = absolute(right);
    assert(0 <= a / b <= a) by (nonlinear_arith)
        requires
            a >= 0,
            b >= 1,
    ;
    assert(0 <= a % b < b) by (nonlinear_arith)
        requires
            a >= 0,
            b >= 1,
    ;
    if b >= 2 {
        assert(a / b <= a / 2) by (nonlinear_arith)
            requires
                a >= 0,
                b >= 2,
        ;
    } else {
        assert(a / 1 == a);
    }
}

pub fn checked_div(left: i64, right: i64) -> (r: Result<i64, ConditionEvaluationError>)
    ensures
        r == divided(left as int, right as int),
{
    if right == 0 {
        return Err(ConditionEvaluationError::DivisionByZero);
    }
    proof {
        lemma_quotient(left as int, right as int);
    }
    in_range(left.checked_div(right))
}

pub fn checked_rem(left: i64, right: i64) -> (r: Result<i64, ConditionEvaluationError>)
    ensures
        r == reduced(left as int, right as int),
{
    if right == 0 {
        return Err(ConditionEvaluationError::DivisionByZero);
    }
    proof {
        lemma_quotient(left as int, right as int);
    }
    in_range(left.checked_rem(right))
}

pub fn checked_neg(value: i64) -> (r: Result<i64, ConditionEvaluationError>)
    ensures
        r == narrowed(-value),
{
    if value == i64::MIN {
        Err(ConditionEvaluationError::ArithmeticOverflow)
    } else {
        Ok(-value)
    }
}

/// Evaluates a subtree to its typed value.
pub fn evaluate_value<N: ConditionNode + ?Sized>(node: &N, pages: PagesContext) -> (r: Evaluated)
    ensures
        r == meaning(node.tree(), pages),
    decreases size(node.tree()),
{
    match node.view() {
        NodeRef::Bool(value) => Ok(ConditionValue::Bool(value)),
        NodeRef::Integer(value) => Ok(ConditionValue::Integer(value)),
        NodeRef::PagesCount => Ok(ConditionValue::Integer(pages_count(pages)?)),
        NodeRef::PagesCurrent => Ok(ConditionValue::Integer(pages_current(pages)?)),
        NodeRef::Not(value) => Ok(ConditionValue::Bool(!evaluate_value(value, pages)?.boolean()?)),
        NodeRef::Negate(value) => Ok(
            ConditionValue::Integer(checked_neg(evaluate_value(value, pages)?.integer()?)?),
        ),
        NodeRef::And(left, right) => {
            // A false left side leaves the right side unevaluated.
            if !evaluate_value(left, pages)?.boolean()? {
                return Ok(ConditionValue::Bool(false));
            }
            Ok(ConditionValue::Bool(evaluate_value(right, pages)?.boolean()?))
        },
        NodeRef::Or(left, right) => {
            // A true left side leaves the right side unevaluated.
            if evaluate_value(left, pages)?.boolean()? {
                return Ok(ConditionValue::Bool(true));
            }
            Ok(ConditionValue::Bool(evaluate_value(right, pages)?.boolean()?))
        },
        NodeRef::Equal(left, right) => Ok(
            ConditionValue::Bool(evaluate_value(left, pages)? == evaluate_value(right, pages)?),
        ),
        NodeRef::NotEqual(left, right) => Ok(
            ConditionValue::Bool(evaluate_value(left, pages)? != evaluate_value(right, pages)?),
        ),
        NodeRef::Less(left, right) => {
            let (left, right) = operands(left, right, pages)?;
            Ok(ConditionValue::Bool(left < right))
        },
        NodeRef::LessEqual(left, right) => {
            let (left, right) = operands(left, right, pages)?;
            Ok(ConditionValue::Bool(left <= right))
        },
        NodeRef::Greater(left, right) => {
            let (left, right) = operands(left, right, pages)?;
            Ok(ConditionValue::Bool(left > right))
        },
        NodeRef::GreaterEqual(left, right) => {
            let (left, right) = operands(left, right, pages)?;
            Ok(ConditionValue::Bool(left >= right))
        },
        NodeRef::Add(left, right) => {
            let (left, right) = operands(left, right, pages)?;
            Ok(ConditionValue::Integer(checked_add(left, right)?))
        },
        NodeRef::Subtract(left, right) => {
            let (left, right) = operands(left, right, pages)?;
            Ok(ConditionValue::Integer(checked_sub(left, right)?))
        },
        NodeRef::Multiply(left, right) => {
            let (left, right) = operands(left, right, pages)?;
            Ok(ConditionValue::Integer(checked_mul(left, right)?))
        },
        NodeRef::Divide(left, right) => {
            let (left, right) = operands(left, right, pages)?;
            Ok(ConditionValue::Integer(checked_div(left, right)?))
        },
        NodeRef::Modulo(left, right) => {
            let (left, right) = operands(left, right, pages)?;
            Ok(ConditionValue::Integer(checked_rem(left, right)?))
        },
        NodeRef::Conditional(condition, left, right) => {
            if evaluate_value(condition, pages)?.boolean()? {
                evaluate_value(left, pages)
            } else {
                evaluate_value(right, pages)
            }
        },
    }
}

/// Both operands of an integer operator, the left one first.
fn operands<N: ConditionNode + ?Sized>(left: &N, right: &N, pages: PagesContext) -> (r: Result<
    (i64, i64),
    ConditionEvaluationError,
>)
    ensures
        (match r {
            Ok((left, right)) => Ok::<(int, int), ConditionEvaluationError>(
                (left as int, right as int),
            ),
            Err(error) => Err(error),
        }) == integers_of(meaning(left.tree(), pages), meaning(right.tree(), pages)),
    decreases size(left.tree()) + size(right.tree()),
{
    let left = evaluate_value(left, pages)?.integer()?;
    let right = evaluate_value(right, pages)?.integer()?;
    Ok((left, right))
}

/// Evaluates a condition to the boolean that it decides.
pub fn evaluate<N: ConditionNode + ?Sized>(node: &N, pages: PagesContext) -> (r: Result<
    bool,
    ConditionEvaluationError,
>)
    ensures
        r == decision(node.tree(), pages),
{
    match evaluate_value(node, pages)? {
        ConditionValue::Bool(value) => Ok(value),
        ConditionValue::Integer(_) => Err(ConditionEvaluationError::NonBooleanResult),
    }
}

/// Evaluates a subtree to its typed value, below the boolean gate of [`evaluate`].
pub fn evaluate_typed<N: ConditionNode + ?Sized>(node: &N, pages: PagesContext) -> (r: Evaluated)
    ensures
        r == meaning(node.tree(), pages),
{
    evaluate_value(node, pages)
}

/// What kind of value a subtree produces.
#[derive(Clone, Copy, Debug, PartialEq, Eq, Structural)]
pub enum ConditionType {
    Boolean,
    Integer,
}

/// A type error: the message names the operator and the operands that it takes.
#[derive(Clone, Copy, Debug, PartialEq, Eq)]
pub struct TypeError {
    message: &'static str,
}

impl View for TypeError {
    type V = Seq<char>;

    closed spec fn view(&self) -> Seq<char> {
        self.message@
    }
}

impl TypeError {
    pub fn new(message: &'static str) -> (r: Self)
        ensures
            r@ == message@,
    {
        TypeError { message }
    }

    pub fn message(self) -> (r: &'static str)
        ensures
            r@ == self@,
    {
        self.message
    }
}

/// The outcome of a type check, an error given by its message.
pub type Typed = Result<ConditionType, Seq<char>>;

/// The outcome of a type check as a model value.
pub open spec fn typed_view(outcome: Result<ConditionType, TypeError>) -> Typed {
    match outcome {
        Ok(kind) => Ok(kind),
        Err(error) => Err(error@),
    }
}

/// `after`, unless the operand fails to check or is of another type than the wanted one.
pub open spec fn wanting(
    operand: Typed,
    wanted: ConditionType,
    message: Seq<char>,
    after: Typed,
) -> Typed {
    match operand {
        Err(error) => Err(error),
        Ok(kind) => if kind == wanted {
            after
        } else {
            Err(message)
        },
    }
}

/// `after` of the common type, unless an operand fails to check or the types differ.
pub open spec fn agreeing(
    left: Typed,
    right: Typed,
    message: Seq<char>,
    after: spec_fn(ConditionType) -> ConditionType,
) -> Typed {
    match left {
        Err(error) => Err(error),
        Ok(left) => match right {
            Err(error) => Err(error),
            Ok(right) => if left == right {
                Ok(after(left))
            } else {
                Err(message)
            },
        },
    }
}

/// The type of a condition, or the first operand, left to right, that does not fit.
pub open spec fn typing(tree: ConditionIr) -> Typed
    decreases tree,
{
    match tree {
        ConditionIr::Bool(_) => Ok(ConditionType::Boolean),
        ConditionIr::Integer(_) | ConditionIr::PagesCount | ConditionIr::PagesCurrent => Ok(
            ConditionType::Integer,
        ),
        ConditionIr::Not(value) => wanting(
            typing(*value),
            ConditionType::Boolean,
            "operator `!` requires a boolean operand"@,
            Ok(ConditionType::Boolean),
        ),
        ConditionIr::Negate(value) => wanting(
            typing(*value),
            ConditionType::Integer,
            "unary `-` requires an integer operand"@,
            Ok(ConditionType::Integer),
        ),
        ConditionIr::And(left, right) => {
            let message = "operator `&&` requires boolean operands"@;
            wanting(
                typing(*left),
                ConditionType::Boolean,
                message,
                wanting(
                    typing(*right),
                    ConditionType::Boolean,
                    message,
                    Ok(ConditionType::Boolean),
                ),
            )
        },
        ConditionIr::Or(left, right) => {
            let message = "operator `||` requires boolean operands"@;
            wanting(
                typing(*left),
                ConditionType::Boolean,
                message,
                wanting(
                    typing(*right),
                    ConditionType::Boolean,
                    message,
                    Ok(ConditionType::Boolean),
                ),
            )
        },
        ConditionIr::Equal(left, right) | ConditionIr::NotEqual(left, right) => agreeing(
            typing(*left),
            typing(*right),
            "comparison `==`/`!=` requires both sides to have the same type"@,
            |kind: ConditionType| ConditionType::Boolean,
        ),
        ConditionIr::Less(left, right)
        | ConditionIr::LessEqual(left, right)
        | ConditionIr::Greater(left, right)
        | ConditionIr::GreaterEqual(left, right) => {
            let message = "ordering comparison requires integer operands"@;
            wanting(
                typing(*left),
                ConditionType::Integer,
                message,
                wanting(
                    typing(*right),
                    ConditionType::Integer,
                    message,
                    Ok(ConditionType::Boolean),
                ),
            )
        },
        ConditionIr::Add(left, right)
        | ConditionIr::Subtract(left, right)
        | ConditionIr::Multiply(left, right)
        | ConditionIr::Divide(left, right)
        | ConditionIr::Modulo(left, right) => {
            let message = "arithmetic requires integer operands"@;
            wanting(
                typing(*left),
                ConditionType::Integer,
                message,
                wanting(
                    typing(*right),
                    ConditionType::Integer,
                    message,
                    Ok(ConditionType::Integer),
                ),
            )
        },
        ConditionIr::Conditional(condition, left, right) => wanting(
            typing(*condition),
            ConditionType::Boolean,
            "the `?:` condition must be boolean"@,
            agreeing(
                typing(*left),
                typing(*right),
                "the `?:` branches must both be boolean or both be integer"@,
                |kind: ConditionType| kind,
            ),
        ),
    }
}

/// Type-checks a condition: every operator holds its operands to their types, so that a mistyped
/// condition fails here and not while it is evaluated.
pub fn type_check<N: ConditionNode + ?Sized>(node: &N) -> (r: Result<ConditionType, TypeError>)
    ensures
        typed_view(r) == typing(node.tree()),
    decreases size(node.tree()), 1int,
{
    match node.view() {
        NodeRef::Bool(_) => Ok(ConditionType::Boolean),
        NodeRef::Integer(_) | NodeRef::PagesCount | NodeRef::PagesCurrent => Ok(
            ConditionType::Integer,
        ),
        NodeRef::Not(value) => check_operand(
            value,
            ConditionType::Boolean,
            "operator `!` requires a boolean operand",
            ConditionType::Boolean,
        ),
        NodeRef::Negate(value) => check_operand(
            value,
            ConditionType::Integer,
            "unary `-` requires an integer operand",
            ConditionType::Integer,
        ),
        NodeRef::And(left, right) => check_operands(
            left,
            right,
            ConditionType::Boolean,
            "operator `&&` requires boolean operands",
            ConditionType::Boolean,
        ),
        NodeRef::Or(left, right) => check_operands(
            left,
            right,
            ConditionType::Boolean,
            "operator `||` requires boolean operands",
            ConditionType::Boolean,
        ),
        NodeRef::Equal(left, right) | NodeRef::NotEqual(left, right) => {
            match check_agreement(
                left,
                right,
                "comparison `==`/`!=` requires both sides to have the same type",
            ) {
                Ok(_) => Ok(ConditionType::Boolean),
                Err(error) => Err(error),
            }
        },
        NodeRef::Less(left, right)
        | NodeRef::LessEqual(left, right)
        | NodeRef::Greater(left, right)
        | NodeRef::GreaterEqual(left, right) => check_operands(
            left,
            right,
            ConditionType::Integer,
            "ordering comparison requires integer operands",
            ConditionType::Boolean,
        ),
        NodeRef::Add(left, right)
        | NodeRef::Subtract(left, right)
        | NodeRef::Multiply(left, right)
        | NodeRef::Divide(left, right)
        | NodeRef::Modulo(left, right) => check_operands(
            left,
            right,
            ConditionType::Integer,
            "arithmetic requires integer operands",
            ConditionType::Integer,
        ),
        NodeRef::Conditional(condition, left, right) => {
            match check_operand(
                condition,
                ConditionType::Boolean,
                "the `?:` condition must be boolean",
                ConditionType::Boolean,
            ) {
                Ok(_) => check_agreement(
                    left,
                    right,
                    "the `?:` branches must both be boolean or both be integer",
                ),
                Err(error) => Err(error),
            }
        },
    }
}

/// One operand of the wanted type; the operator's own type comes back.
fn check_operand<N: ConditionNode + ?Sized>(
    operand: &N,
    wanted: ConditionType,
    message: &'static str,
    result: ConditionType,
) -> (r: Result<ConditionType, TypeError>)
    ensures
        typed_view(r) == wanting(typing(operand.tree()), wanted, message@, Ok(result)),
    decreases size(operand.tree()), 2int,
{
    match type_check(operand) {
        Err(error) => Err(error),
        Ok(actual) => {
            let fits = match wanted {
                ConditionType::Boolean => require_boolean(actual, message),
                ConditionType::Integer => require_integer(actual, message),
            };
            match fits {
                Ok(()) => Ok(result),
                Err(error) => Err(error),
            }
        },
    }
}

/// Two operands of the wanted type, the left one first.
fn check_operands<N: ConditionNode + ?Sized>(
    left: &N,
    right: &N,
    wanted: ConditionType,
    message: &'static str,
    result: ConditionType,
) -> (r: Result<ConditionType, TypeError>)
    ensures
        typed_view(r) == wanting(
            typing(left.tree()),
            wanted,
            message@,
            wanting(typing(right.tree()), wanted, message@, Ok(result)),
        ),
    decreases size(left.tree()) + size(right.tree()), 3int,
{
    match check_operand(left, wanted, message, result) {
        Err(error) => Err(error),
        Ok(_) => check_operand(right, wanted, message, result),
    }
}

/// Two operands of one type, which comes back.
fn check_agreement<N: ConditionNode + ?Sized>(
    left: &N,
    right: &N,
    message: &'static str,
) -> (r: Result<ConditionType, TypeError>)
    ensures
        typed_view(r) == agreeing(
            typing(left.tree()),
            typing(right.tree()),
            message@,
            |kind: ConditionType| kind,
        ),
    decreases size(left.tree()) + size(right.tree()), 2int,
{
    match type_check(left) {
        Err(error) => Err(error),
        Ok(first) => match type_check(right) {
            Err(error) => Err(error),
            Ok(second) => if first != second {
                Err(TypeError::new(message))
            } else {
                Ok(first)
            },
        },
    }
}

pub fn require_boolean(actual: ConditionType, message: &'static str) -> (r: Result<(), TypeError>)
    ensures
        r is Ok <==> actual == ConditionType::Boolean,
        r matches Err(error) ==> error@ == message@,
{
    if actual == ConditionType::Boolean {
        Ok(())
    } else {
        Err(TypeError::new(message))
    }
}

pub fn require_integer(actual: ConditionType, message: &'static str) -> (r: Result<(), TypeError>)
    ensures
        r is Ok <==> actual == ConditionType::Integer,
        r matches Err(error) ==> error@ == message@,
{
    if actual == ConditionType::Integer {
        Ok(())
    } else {
        Err(TypeError::new(message))
    }
}

/// Whether a value is of a type.
pub open spec fn has_type(value: ConditionValue, kind: ConditionType) -> bool {
    match kind {
        ConditionType::Boolean => value is Bool,
        ConditionType::Integer => value is Integer,
    }
}

/// Whether a failure can still happen once a condition has passed its type check.
pub open spec fn is_arithmetic_failure(error: ConditionEvaluationError) -> bool {
    error == ConditionEvaluationError::DivisionByZero || error
        == ConditionEvaluationError::ArithmeticOverflow
}

/// A condition that type-checks evaluates to a value of its type, or fails on division by zero or
/// on overflow: on no pager does it meet a value of the wrong type.
pub proof fn law_checked_conditions_evaluate_to_their_type(tree: ConditionIr, pages: PagesContext)
    requires
        typing(tree) is Ok,
    ensures
        match meaning(tree, pages) {
            Ok(value) => has_type(value, typing(tree)->Ok_0),
            Err(error) => is_arithmetic_failure(error),
        },
    decreases tree,
{
    match tree {
        ConditionIr::Not(value) | ConditionIr::Negate(value) => {
            law_checked_conditions_evaluate_to_their_type(*value, pages);
        },
        ConditionIr::And(left, right)
        | ConditionIr::Or(left, right)
        | ConditionIr::Equal(left, right)
        | ConditionIr::NotEqual(left, right)
        | ConditionIr::Less(left, right)
        | ConditionIr::LessEqual(left, right)
        | ConditionIr::Greater(left, right)
        | ConditionIr::GreaterEqual(left, right)
        | ConditionIr::Add(left, right)
        | ConditionIr::Subtract(left, right)
        | ConditionIr::Multiply(left, right)
        | ConditionIr::Divide(left, right)
        | ConditionIr::Modulo(left, right) => {
            law_checked_conditions_evaluate_to_their_type(*left, pages);
            law_checked_conditions_evaluate_to_their_type(*right, pages);
        },
        ConditionIr::Conditional(condition, left, right) => {
            law_checked_conditions_evaluate_to_their_type(*condition, pages);
            law_checked_conditions_evaluate_to_their_type(*left, pages);
            law_checked_conditions_evaluate_to_their_type(*right, pages);
        },
        _ => {},
    }
}

/// A condition that type-checks as a boolean decides yes or no, or fails on division by zero or
/// on overflow.
pub proof fn law_boolean_conditions_decide(tree: ConditionIr, pages: PagesContext)
    requires
        typing(tree) == Typed::Ok(ConditionType::Boolean),
    ensures
        decision(tree, pages) matches Err(error) ==> is_arithmetic_failure(error),
{
    law_checked_conditions_evaluate_to_their_type(tree, pages);
}

/// Typed evaluation never complains of a non-boolean result: only the root of a decision can.
pub proof fn law_typed_evaluation_has_no_boolean_gate(tree: ConditionIr, pages: PagesContext)
    ensures
        meaning(tree, pages) != Evaluated::Err(ConditionEvaluationError::NonBooleanResult),
    decreases tree,
{
    match tree {
        ConditionIr::Not(value) | ConditionIr::Negate(value) => {
            law_typed_evaluation_has_no_boolean_gate(*value, pages);
        },
        ConditionIr::And(left, right)
        | ConditionIr::Or(left, right)
        | ConditionIr::Equal(left, right)
        | ConditionIr::NotEqual(left, right)
        | ConditionIr::Less(left, right)
        | ConditionIr::LessEqual(left, right)
        | ConditionIr::Greater(left, right)
        | ConditionIr::GreaterEqual(left, right)
        | ConditionIr::Add(left, right)
        | ConditionIr::Subtract(left, right)
        | ConditionIr::Multiply(left, right)
        | ConditionIr::Divide(left, right)
        | ConditionIr::Modulo(left, right) => {
            law_typed_evaluation_has_no_boolean_gate(*left, pages);
            law_typed_evaluation_has_no_boolean_gate(*right, pages);
        },
        ConditionIr::Conditional(condition, left, right) => {
            law_typed_evaluation_has_no_boolean_gate(*condition, pages);
            law_typed_evaluation_has_no_boolean_gate(*left, pages);
            law_typed_evaluation_has_no_boolean_gate(*right, pages);
        },
        _ => {},
    }
}

/// A condition that does not mention the pager means the same on every pager.
pub proof fn law_pages_matter_only_where_mentioned(
    tree: ConditionIr,
    pages: PagesContext,
    other: PagesContext,
)
    requires
        !mentions_pages(tree),
    ensures
        meaning(tree, pages) == meaning(tree, other),
    decreases tree,
{
    match tree {
        ConditionIr::Not(value) | ConditionIr::Negate(value) => {
            law_pages_matter_only_where_mentioned(*value, pages, other);
        },
        ConditionIr::And(left, right)
        | ConditionIr::Or(left, right)
        | ConditionIr::Equal(left, right)
        | ConditionIr::NotEqual(left, right)
        | ConditionIr::Less(left, right)
        | ConditionIr::LessEqual(left, right)
        | ConditionIr::Greater(left, right)
        | ConditionIr::GreaterEqual(left, right)
        | ConditionIr::Add(left, right)
        | ConditionIr::Subtract(left, right)
        | ConditionIr::Multiply(left, right)
        | ConditionIr::Divide(left, right)
        | ConditionIr::Modulo(left, right) => {
            law_pages_matter_only_where_mentioned(*left, pages, other);
            law_pages_matter_only_where_mentioned(*right, pages, other);
        },
        ConditionIr::Conditional(condition, left, right) => {
            law_pages_matter_only_where_mentioned(*condition, pages, other);
            law_pages_matter_only_where_mentioned(*left, pages, other);
            law_pages_matter_only_where_mentioned(*right, pages, other);
        },
        _ => {},
    }
}

/// Inequality is negated equality, whatever the operands are and also where they fail; and where both
/// operands have a value, equality does not depend on their order.
pub proof fn law_inequality_is_negated_equality(
    left: Box<ConditionIr>,
    right: Box<ConditionIr>,
    pages: PagesContext,
)
    ensures
        meaning(ConditionIr::NotEqual(left, right), pages) == meaning(
            ConditionIr::Not(Box::new(ConditionIr::Equal(left, right))),
            pages,
        ),
        meaning(*left, pages) is Ok && meaning(*right, pages) is Ok ==> meaning(
            ConditionIr::Equal(left, right),
            pages,
        ) == meaning(ConditionIr::Equal(right, left), pages),
{
    reveal_with_fuel(meaning, 3);
}

/// A decided left side of `&&` or `||` settles the result, whatever the right side would do.
pub proof fn law_short_circuit(left: ConditionIr, right: ConditionIr, pages: PagesContext)
    ensures
        meaning(left, pages) == Evaluated::Ok(ConditionValue::Bool(false)) ==> meaning(
            ConditionIr::And(Box::new(left), Box::new(right)),
            pages,
        ) == Evaluated::Ok(ConditionValue::Bool(false)),
        meaning(left, pages) == Evaluated::Ok(ConditionValue::Bool(true)) ==> meaning(
            ConditionIr::Or(Box::new(left), Box::new(right)),
            pages,
        ) == Evaluated::Ok(ConditionValue::Bool(true)),
{
}

/// `?:` means what its taken branch means, whatever the other branch would do.
pub proof fn law_conditional_takes_one_branch(
    condition: ConditionIr,
    left: ConditionIr,
    right: ConditionIr,
    pages: PagesContext,
)
    ensures
        meaning(condition, pages) matches Ok(ConditionValue::Bool(taken)) ==> meaning(
            ConditionIr::Conditional(Box::new(condition), Box::new(left), Box::new(right)),
            pages,
        ) == if taken {
            meaning(left, pages)
        } else {
            meaning(right, pages)
        },
{
}

} // verus!
