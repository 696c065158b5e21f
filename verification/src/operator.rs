//! Operators, and how tightly each of them binds.

use vstd::prelude::*;

verus! {

/// How tightly a construct binds, from the loosest to the tightest.
#[derive(Clone, Copy, Debug, PartialEq, Eq, Structural)]
pub enum Precedence {
    Lowest,
    Comma,
    Spread,
    Yield,
    Assign,
    Conditional,
    NullishCoalescing,
    LogicalOr,
    LogicalAnd,
    BitwiseOr,
    BitwiseXor,
    BitwiseAnd,
    Equals,
    Compare,
    Shift,
    Add,
    Multiply,
    Exponentiation,
    Prefix,
    Postfix,
    New,
    Call,
    Member,
}

impl Precedence {
    /// The place of this level in the order, 0 for the loosest.
    pub open spec fn spec_rank(self) -> u8 {
        match self {
            Precedence::Lowest => 0,
            Precedence::Comma => 1,
            Precedence::Spread => 2,
            Precedence::Yield => 3,
            Precedence::Assign => 4,
            Precedence::Conditional => 5,
            Precedence::NullishCoalescing => 6,
            Precedence::LogicalOr => 7,
            Precedence::LogicalAnd => 8,
            Precedence::BitwiseOr => 9,
            Precedence::BitwiseXor => 10,
            Precedence::BitwiseAnd => 11,
            Precedence::Equals => 12,
            Precedence::Compare => 13,
            Precedence::Shift => 14,
            Precedence::Add => 15,
            Precedence::Multiply => 16,
            Precedence::Exponentiation => 17,
            Precedence::Prefix => 18,
            Precedence::Postfix => 19,
            Precedence::New => 20,
            Precedence::Call => 21,
            Precedence::Member => 22,
        }
    }

    pub fn rank(self) -> (r: u8)
        ensures
            r == self.spec_rank(),
    {
        match self {
            Precedence::Lowest => 0,
            Precedence::Comma => 1,
            Precedence::Spread => 2,
            Precedence::Yield => 3,
            Precedence::Assign => 4,
            Precedence::Conditional => 5,
            Precedence::NullishCoalescing => 6,
            Precedence::LogicalOr => 7,
            Precedence::LogicalAnd => 8,
            Precedence::BitwiseOr => 9,
            Precedence::BitwiseXor => 10,
            Precedence::BitwiseAnd => 11,
            Precedence::Equals => 12,
            Precedence::Compare => 13,
            Precedence::Shift => 14,
            Precedence::Add => 15,
            Precedence::Multiply => 16,
            Precedence::Exponentiation => 17,
            Precedence::Prefix => 18,
            Precedence::Postfix => 19,
            Precedence::New => 20,
            Precedence::Call => 21,
            Precedence::Member => 22,
        }
    }

    /// This level binds at least as tightly as `other`.
    pub open spec fn spec_at_least(self, other: Precedence) -> bool {
        self.spec_rank() >= other.spec_rank()
    }

    pub fn at_least(self, other: Precedence) -> (b: bool)
        ensures
            b == self.spec_at_least(other),
    {
        self.rank() >= other.rank()
    }

    pub open spec fn spec_is_right_associative(self) -> bool {
        self is Exponentiation || self is Conditional || self is Assign
    }

    pub fn is_right_associative(self) -> (b: bool)
        ensures
            b == self.spec_is_right_associative(),
    {
        matches!(self, Precedence::Exponentiation | Precedence::Conditional | Precedence::Assign)
    }

    pub open spec fn spec_is_left_associative(self) -> bool {
        !self.spec_is_right_associative()
    }

    pub fn is_left_associative(self) -> (b: bool)
        ensures
            b == self.spec_is_left_associative(),
    {
        !self.is_right_associative()
    }
}

/// The operators with two operands, but for the logical ones.
#[derive(Clone, Copy, Debug, PartialEq, Eq, Structural)]
pub enum BinaryOperator {
    Equality,
    Inequality,
    StrictEquality,
    StrictInequality,
    LessThan,
    LessEqualThan,
    GreaterThan,
    GreaterEqualThan,
    Addition,
    Subtraction,
    Multiplication,
    Division,
    Remainder,
    Exponential,
    ShiftLeft,
    ShiftRight,
    ShiftRightZeroFill,
    BitwiseOR,
    BitwiseXOR,
    BitwiseAnd,
    In,
    Instanceof,
}

impl BinaryOperator {
    pub open spec fn spec_str(self) -> &'static str {
        match self {
            BinaryOperator::Equality => "==",
            BinaryOperator::Inequality => "!=",
            BinaryOperator::StrictEquality => "===",
            BinaryOperator::StrictInequality => "!==",
            BinaryOperator::LessThan => "<",
            BinaryOperator::LessEqualThan => "<=",
            BinaryOperator::GreaterThan => ">",
            BinaryOperator::GreaterEqualThan => ">=",
            BinaryOperator::Addition => "+",
            BinaryOperator::Subtraction => "-",
            BinaryOperator::Multiplication => "*",
            BinaryOperator::Division => "/",
            BinaryOperator::Remainder => "%",
            BinaryOperator::Exponential => "**",
            BinaryOperator::ShiftLeft => "<<",
            BinaryOperator::ShiftRight => ">>",
            BinaryOperator::ShiftRightZeroFill => ">>>",
            BinaryOperator::BitwiseOR => "|",
            BinaryOperator::BitwiseXOR => "^",
            BinaryOperator::BitwiseAnd => "&",
            BinaryOperator::In => "in",
            BinaryOperator::Instanceof => "instanceof",
        }
    }

    /// The operator as it stands in source text.
    pub fn as_str(self) -> (s: &'static str)
        ensures
            s@ == self.spec_str()@,
    {
        match self {
            BinaryOperator::Equality => "==",
            BinaryOperator::Inequality => "!=",
            BinaryOperator::StrictEquality => "===",
            BinaryOperator::StrictInequality => "!==",
            BinaryOperator::LessThan => "<",
            BinaryOperator::LessEqualThan => "<=",
            BinaryOperator::GreaterThan => ">",
            BinaryOperator::GreaterEqualThan => ">=",
            BinaryOperator::Addition => "+",
            BinaryOperator::Subtraction => "-",
            BinaryOperator::Multiplication => "*",
            BinaryOperator::Division => "/",
            BinaryOperator::Remainder => "%",
            BinaryOperator::Exponential => "**",
            BinaryOperator::ShiftLeft => "<<",
            BinaryOperator::ShiftRight => ">>",
            BinaryOperator::ShiftRightZeroFill => ">>>",
            BinaryOperator::BitwiseOR => "|",
            BinaryOperator::BitwiseXOR => "^",
            BinaryOperator::BitwiseAnd => "&",
            BinaryOperator::In => "in",
            BinaryOperator::Instanceof => "instanceof",
        }
    }

    pub open spec fn spec_is_keyword(self) -> bool {
        self is In || self is Instanceof
    }

    /// The operator is a word.
    pub fn is_keyword(self) -> (b: bool)
        ensures
            b == self.spec_is_keyword(),
    {
        matches!(self, BinaryOperator::In | BinaryOperator::Instanceof)
    }

    pub open spec fn spec_precedence(self) -> Precedence {
        match self {
            BinaryOperator::BitwiseOR => Precedence::BitwiseOr,
            BinaryOperator::BitwiseXOR => Precedence::BitwiseXor,
            BinaryOperator::BitwiseAnd => Precedence::BitwiseAnd,
            BinaryOperator::Equality
            | BinaryOperator::Inequality
            | BinaryOperator::StrictEquality
            | BinaryOperator::StrictInequality => Precedence::Equals,
            BinaryOperator::LessThan
            | BinaryOperator::LessEqualThan
            | BinaryOperator::GreaterThan
            | BinaryOperator::GreaterEqualThan
            | BinaryOperator::Instanceof
            | BinaryOperator::In => Precedence::Compare,
            BinaryOperator::ShiftLeft
            | BinaryOperator::ShiftRight
            | BinaryOperator::ShiftRightZeroFill => Precedence::Shift,
            BinaryOperator::Subtraction | BinaryOperator::Addition => Precedence::Add,
            BinaryOperator::Multiplication
            | BinaryOperator::Remainder
            | BinaryOperator::Division => Precedence::Multiply,
            BinaryOperator::Exponential => Precedence::Exponentiation,
        }
    }

    pub fn precedence(self) -> (p: Precedence)
        ensures
            p == self.spec_precedence(),
    {
        match self {
            BinaryOperator::BitwiseOR => Precedence::BitwiseOr,
            BinaryOperator::BitwiseXOR => Precedence::BitwiseXor,
            BinaryOperator::BitwiseAnd => Precedence::BitwiseAnd,
            BinaryOperator::Equality
            | BinaryOperator::Inequality
            | BinaryOperator::StrictEquality
            | BinaryOperator::StrictInequality => Precedence::Equals,
            BinaryOperator::LessThan
            | BinaryOperator::LessEqualThan
            | BinaryOperator::GreaterThan
            | BinaryOperator::GreaterEqualThan
            | BinaryOperator::Instanceof
            | BinaryOperator::In => Precedence::Compare,
            BinaryOperator::ShiftLeft
            | BinaryOperator::ShiftRight
            | BinaryOperator::ShiftRightZeroFill => Precedence::Shift,
            BinaryOperator::Subtraction | BinaryOperator::Addition => Precedence::Add,
            BinaryOperator::Multiplication
            | BinaryOperator::Remainder
            | BinaryOperator::Division => Precedence::Multiply,
            BinaryOperator::Exponential => Precedence::Exponentiation,
        }
    }

    /// The level one below that of the operator.
    pub open spec fn spec_lower_precedence(self) -> Precedence {
        match self {
            BinaryOperator::BitwiseOR => Precedence::LogicalAnd,
            BinaryOperator::BitwiseXOR => Precedence::BitwiseOr,
            BinaryOperator::BitwiseAnd => Precedence::BitwiseXor,
            BinaryOperator::Equality
            | BinaryOperator::Inequality
            | BinaryOperator::StrictEquality
            | BinaryOperator::StrictInequality => Precedence::BitwiseAnd,
            BinaryOperator::LessThan
            | BinaryOperator::LessEqualThan
            | BinaryOperator::GreaterThan
            | BinaryOperator::GreaterEqualThan
            | BinaryOperator::Instanceof
            | BinaryOperator::In => Precedence::Equals,
            BinaryOperator::ShiftLeft
            | BinaryOperator::ShiftRight
            | BinaryOperator::ShiftRightZeroFill => Precedence::Compare,
            BinaryOperator::Subtraction | BinaryOperator::Addition => Precedence::Shift,
            BinaryOperator::Multiplication
            | BinaryOperator::Remainder
            | BinaryOperator::Division => Precedence::Add,
            BinaryOperator::Exponential => Precedence::Multiply,
        }
    }

    pub fn lower_precedence(self) -> (p: Precedence)
        ensures
            p == self.spec_lower_precedence(),
            p.spec_rank() + 1 == self.spec_precedence().spec_rank(),
    {
        match self {
            BinaryOperator::BitwiseOR => Precedence::LogicalAnd,
            BinaryOperator::BitwiseXOR => Precedence::BitwiseOr,
            BinaryOperator::BitwiseAnd => Precedence::BitwiseXor,
            BinaryOperator::Equality
            | BinaryOperator::Inequality
            | BinaryOperator::StrictEquality
            | BinaryOperator::StrictInequality => Precedence::BitwiseAnd,
            BinaryOperator::LessThan
            | BinaryOperator::LessEqualThan
            | BinaryOperator::GreaterThan
            | BinaryOperator::GreaterEqualThan
            | BinaryOperator::Instanceof
            | BinaryOperator::In => Precedence::Equals,
            BinaryOperator::ShiftLeft
            | BinaryOperator::ShiftRight
            | BinaryOperator::ShiftRightZeroFill => Precedence::Compare,
            BinaryOperator::Subtraction | BinaryOperator::Addition => Precedence::Shift,
            BinaryOperator::Multiplication
            | BinaryOperator::Remainder
            | BinaryOperator::Division => Precedence::Add,
            BinaryOperator::Exponential => Precedence::Multiply,
        }
    }
}

/// The logical operators.
#[derive(Clone, Copy, Debug, PartialEq, Eq, Structural)]
pub enum LogicalOperator {
    Or,
    And,
    Coalesce,
}

impl LogicalOperator {
    pub open spec fn spec_str(self) -> &'static str {
        match self {
            LogicalOperator::Or => "||",
            LogicalOperator::And => "&&",
            LogicalOperator::Coalesce => "??",
        }
    }

    pub fn as_str(self) -> (s: &'static str)
        ensures
            s@ == self.spec_str()@,
    {
        match self {
            LogicalOperator::Or => "||",
            LogicalOperator::And => "&&",
            LogicalOperator::Coalesce => "??",
        }
    }

    pub open spec fn spec_precedence(self) -> Precedence {
        match self {
            LogicalOperator::Or => Precedence::LogicalOr,
            LogicalOperator::And => Precedence::LogicalAnd,
            LogicalOperator::Coalesce => Precedence::NullishCoalescing,
        }
    }

    pub fn precedence(self) -> (p: Precedence)
        ensures
            p == self.spec_precedence(),
    {
        match self {
            LogicalOperator::Or => Precedence::LogicalOr,
            LogicalOperator::And => Precedence::LogicalAnd,
            LogicalOperator::Coalesce => Precedence::NullishCoalescing,
        }
    }

    pub open spec fn spec_lower_precedence(self) -> Precedence {
        match self {
            LogicalOperator::Or => Precedence::NullishCoalescing,
            LogicalOperator::And => Precedence::LogicalOr,
            LogicalOperator::Coalesce => Precedence::Conditional,
        }
    }

    pub fn lower_precedence(self) -> (p: Precedence)
        ensures
            p == self.spec_lower_precedence(),
            p.spec_rank() + 1 == self.spec_precedence().spec_rank(),
    {
        match self {
            LogicalOperator::Or => Precedence::NullishCoalescing,
            LogicalOperator::And => Precedence::LogicalOr,
            LogicalOperator::Coalesce => Precedence::Conditional,
        }
    }
}

/// The operators with one operand that leave it as it is.
#[derive(Clone, Copy, Debug, PartialEq, Eq, Structural)]
pub enum UnaryOperator {
    UnaryPlus,
    UnaryNegation,
    LogicalNot,
    BitwiseNot,
    Typeof,
    Void,
    Delete,
}

impl UnaryOperator {
    pub open spec fn spec_str(self) -> &'static str {
        match self {
            UnaryOperator::UnaryPlus => "+",
            UnaryOperator::UnaryNegation => "-",
            UnaryOperator::LogicalNot => "!",
            UnaryOperator::BitwiseNot => "~",
            UnaryOperator::Typeof => "typeof",
            UnaryOperator::Void => "void",
            UnaryOperator::Delete => "delete",
        }
    }

    pub fn as_str(self) -> (s: &'static str)
        ensures
            s@ == self.spec_str()@,
    {
        match self {
            UnaryOperator::UnaryPlus => "+",
            UnaryOperator::UnaryNegation => "-",
            UnaryOperator::LogicalNot => "!",
            UnaryOperator::BitwiseNot => "~",
            UnaryOperator::Typeof => "typeof",
            UnaryOperator::Void => "void",
            UnaryOperator::Delete => "delete",
        }
    }

    pub open spec fn spec_is_keyword(self) -> bool {
        self is Typeof || self is Void || self is Delete
    }

    pub fn is_keyword(self) -> (b: bool)
        ensures
            b == self.spec_is_keyword(),
    {
        matches!(self, UnaryOperator::Typeof | UnaryOperator::Void | UnaryOperator::Delete)
    }
}

/// The operators that change their operand by one.
#[derive(Clone, Copy, Debug, PartialEq, Eq, Structural)]
pub enum UpdateOperator {
    Increment,
    Decrement,
}

impl UpdateOperator {
    pub open spec fn spec_str(self) -> &'static str {
        match self {
            UpdateOperator::Increment => "++",
            UpdateOperator::Decrement => "--",
        }
    }

    pub fn as_str(self) -> (s: &'static str)
        ensures
            s@ == self.spec_str()@,
    {
        match self {
            UpdateOperator::Increment => "++",
            UpdateOperator::Decrement => "--",
        }
    }
}

/// The operators that assign.
#[derive(Clone, Copy, Debug, PartialEq, Eq, Structural)]
pub enum AssignmentOperator {
    Assign,
    Addition,
    Subtraction,
    Multiplication,
    Division,
    Remainder,
    Exponential,
    ShiftLeft,
    ShiftRight,
    ShiftRightZeroFill,
    BitwiseOR,
    BitwiseXOR,
    BitwiseAnd,
    LogicalOr,
    LogicalAnd,
    LogicalNullish,
}

impl AssignmentOperator {
    pub open spec fn spec_str(self) -> &'static str {
        match self {
            AssignmentOperator::Assign => "=",
            AssignmentOperator::Addition => "+=",
            AssignmentOperator::Subtraction => "-=",
            AssignmentOperator::Multiplication => "*=",
            AssignmentOperator::Division => "/=",
            AssignmentOperator::Remainder => "%=",
            AssignmentOperator::Exponential => "**=",
            AssignmentOperator::ShiftLeft => "<<=",
            AssignmentOperator::ShiftRight => ">>=",
            AssignmentOperator::ShiftRightZeroFill => ">>>=",
            AssignmentOperator::BitwiseOR => "|=",
            AssignmentOperator::BitwiseXOR => "^=",
            AssignmentOperator::BitwiseAnd => "&=",
            AssignmentOperator::LogicalOr => "||=",
            AssignmentOperator::LogicalAnd => "&&=",
            AssignmentOperator::LogicalNullish => "??=",
        }
    }

    pub fn as_str(self) -> (s: &'static str)
        ensures
            s@ == self.spec_str()@,
    {
        match self {
            AssignmentOperator::Assign => "=",
            AssignmentOperator::Addition => "+=",
            AssignmentOperator::Subtraction => "-=",
            AssignmentOperator::Multiplication => "*=",
            AssignmentOperator::Division => "/=",
            AssignmentOperator::Remainder => "%=",
            AssignmentOperator::Exponential => "**=",
            AssignmentOperator::ShiftLeft => "<<=",
            AssignmentOperator::ShiftRight => ">>=",
            AssignmentOperator::ShiftRightZeroFill => ">>>=",
            AssignmentOperator::BitwiseOR => "|=",
            AssignmentOperator::BitwiseXOR => "^=",
            AssignmentOperator::BitwiseAnd => "&=",
            AssignmentOperator::LogicalOr => "||=",
            AssignmentOperator::LogicalAnd => "&&=",
            AssignmentOperator::LogicalNullish => "??=",
        }
    }
}

/// The last operator that was printed, as far as the next token has to know it.
#[derive(Clone, Copy, Debug, PartialEq, Eq, Structural)]
pub enum Operator {
    Binary(BinaryOperator),
    Unary(UnaryOperator),
    Update(UpdateOperator),
}

} // verus!
