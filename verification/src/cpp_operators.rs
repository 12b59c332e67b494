//! Operators of the native language and how each is called.
use vstd::prelude::*;
use crate::cpp_type::{
    cpp_caption,
    lemma_caption_injective,
    lemma_caption_is_identifier_text,
    CppType,
};
use crate::errors::BridgeError;
use crate::text::{
    digit_char,
    digit_str,
    is_identifier_text,
    lemma_digit_is_alphanumeric,
    lemma_identifier_text_concat,
    lemma_sanitized_injective,
    lemma_sanitized_is_identifier_text,
    sanitize,
    sanitized,
};

verus! {

/// An operator that a native class can overload.
#[derive(Debug, PartialEq, Eq, Hash)]
pub enum CppOperator {
    /// `(type) a`: conversion to the type it carries.
    Conversion(CppType),
    /// `a = b`
    Assignment,
    /// `a + b`
    Addition,
    /// `a - b`
    Subtraction,
    /// `+a`
    UnaryPlus,
    /// `-a`
    UnaryMinus,
    /// `a * b`
    Multiplication,
    /// `a / b`
    Division,
    /// `a % b`
    Modulo,
    /// `++a`
    PrefixIncrement,
    /// `a++`
    PostfixIncrement,
    /// `--a`
    PrefixDecrement,
    /// `a--`
    PostfixDecrement,
    /// `a == b`
    EqualTo,
    /// `a != b`
    NotEqualTo,
    /// `a > b`
    GreaterThan,
    /// `a < b`
    LessThan,
    /// `a >= b`
    GreaterThanOrEqualTo,
    /// `a <= b`
    LessThanOrEqualTo,
    /// `!a`
    LogicalNot,
    /// `a && b`
    LogicalAnd,
    /// `a || b`
    LogicalOr,
    /// `~a`
    BitwiseNot,
    /// `a & b`
    BitwiseAnd,
    /// `a | b`
    BitwiseOr,
    /// `a ^ b`
    BitwiseXor,
    /// `a << b`
    BitwiseLeftShift,
    /// `a >> b`
    BitwiseRightShift,
    /// `a += b`
    AdditionAssignment,
    /// `a -= b`
    SubtractionAssignment,
    /// `a *= b`
    MultiplicationAssignment,
    /// `a /= b`
    DivisionAssignment,
    /// `a %= b`
    ModuloAssignment,
    /// `a &= b`
    BitwiseAndAssignment,
    /// `a |= b`
    BitwiseOrAssignment,
    /// `a ^= b`
    BitwiseXorAssignment,
    /// `a <<= b`
    BitwiseLeftShiftAssignment,
    /// `a >>= b`
    BitwiseRightShiftAssignment,
    /// `a[b]`
    Subscript,
    /// `*a`
    Indirection,
    /// `&a`
    AddressOf,
    /// `a->b`
    StructureDereference,
    /// `a->*b`
    PointerToMember,
    /// `a(a1, a2)`
    FunctionCall,
    /// `a, b`
    Comma,
    /// `new type`
    New,
    /// `new type[n]`
    NewArray,
    /// `delete a`
    Delete,
    /// `delete[] a`
    DeleteArray,
}

/// How an operator is called.
#[derive(Debug, Clone, Copy, PartialEq, Eq, Hash)]
pub struct OperatorInfo {
    /// The operator's symbol: what follows the word `operator` in the name of
    /// the native function. A conversion has none.
    pub function_name_suffix: Option<&'static str>,
    /// The number of arguments of the native function that implements the
    /// operator, the object it is applied to included.
    pub arguments_count: i32,
    /// Whether the function takes any number of arguments.
    pub allows_variable_arguments: bool,
}

/// The mathematical value of an [`OperatorInfo`].
pub struct OperatorInfoView {
    pub symbol: Option<Seq<char>>,
    pub arity: int,
    pub variable_arity: bool,
}

impl View for OperatorInfo {
    type V = OperatorInfoView;

    open spec fn view(&self) -> OperatorInfoView {
        OperatorInfoView {
            symbol: match self.function_name_suffix {
                Some(suffix) => Some(suffix@),
                None => None,
            },
            arity: self.arguments_count as int,
            variable_arity: self.allows_variable_arguments,
        }
    }
}

/// The operators that take one operand and are written before it, and `->`.
pub open spec fn is_unary(op: CppOperator) -> bool {
    ||| op is UnaryPlus
    ||| op is UnaryMinus
    ||| op is LogicalNot
    ||| op is BitwiseNot
    ||| op is Indirection
    ||| op is AddressOf
    ||| op is PrefixIncrement
    ||| op is PrefixDecrement
    ||| op is StructureDereference
}

/// The increment and decrement that are written after their operand.
pub open spec fn is_postfix(op: CppOperator) -> bool {
    op is PostfixIncrement || op is PostfixDecrement
}

/// Binary arithmetic: `+ - * / %`.
pub open spec fn is_arithmetic(op: CppOperator) -> bool {
    ||| op is Addition
    ||| op is Subtraction
    ||| op is Multiplication
    ||| op is Division
    ||| op is Modulo
}

/// Comparisons: `== != > < >= <=`.
pub open spec fn is_relational(op: CppOperator) -> bool {
    ||| op is EqualTo
    ||| op is NotEqualTo
    ||| op is GreaterThan
    ||| op is LessThan
    ||| op is GreaterThanOrEqualTo
    ||| op is LessThanOrEqualTo
}

/// Binary logic: `&& ||`.
pub open spec fn is_logical(op: CppOperator) -> bool {
    op is LogicalAnd || op is LogicalOr
}

/// Binary operations on bits: `& | ^ << >>`.
pub open spec fn is_bitwise(op: CppOperator) -> bool {
    ||| op is BitwiseAnd
    ||| op is BitwiseOr
    ||| op is BitwiseXor
    ||| op is BitwiseLeftShift
    ||| op is BitwiseRightShift
}

/// Assignment, plain and compound.
pub open spec fn is_assignment(op: CppOperator) -> bool {
    ||| op is Assignment
    ||| op is AdditionAssignment
    ||| op is SubtractionAssignment
    ||| op is MultiplicationAssignment
    ||| op is DivisionAssignment
    ||| op is ModuloAssignment
    ||| op is BitwiseAndAssignment
    ||| op is BitwiseOrAssignment
    ||| op is BitwiseXorAssignment
    ||| op is BitwiseLeftShiftAssignment
    ||| op is BitwiseRightShiftAssignment
}

/// Allocation and deallocation: `new new[] delete delete[]`.
pub open spec fn is_allocation(op: CppOperator) -> bool {
    ||| op is New
    ||| op is NewArray
    ||| op is Delete
    ||| op is DeleteArray
}

/// The operators that take two operands.
pub open spec fn is_binary(op: CppOperator) -> bool {
    ||| is_arithmetic(op)
    ||| is_relational(op)
    ||| is_logical(op)
    ||| is_bitwise(op)
    ||| is_assignment(op)
    ||| is_allocation(op)
    ||| op is Subscript
    ||| op is Comma
    ||| op is PointerToMember
}

/// The number of arguments with which the operator's function is declared.
///
/// A postfix operator has one operand and still counts two: the native
/// language tells it from the prefix operator of the same symbol by a second
/// parameter that carries nothing. The call operator counts none, since it
/// takes any number.
pub open spec fn arity(op: CppOperator) -> int {
    if op is Conversion || is_unary(op) {
        1
    } else if op is FunctionCall {
        0
    } else {
        2
    }
}

/// Whether the operator's function takes any number of arguments: only the
/// call operator does.
pub open spec fn variable_arity(op: CppOperator) -> bool {
    op is FunctionCall
}

/// The operator's symbol. A conversion has none: its target type names it.
pub open spec fn symbol(op: CppOperator) -> Option<Seq<char>> {
    match op {
        CppOperator::Conversion(_) => None,
        CppOperator::Assignment => Some(seq!['=']),
        CppOperator::Addition => Some(seq!['+']),
        CppOperator::Subtraction => Some(seq!['-']),
        CppOperator::UnaryPlus => Some(seq!['+']),
        CppOperator::UnaryMinus => Some(seq!['-']),
        CppOperator::Multiplication => Some(seq!['*']),
        CppOperator::Division => Some(seq!['/']),
        CppOperator::Modulo => Some(seq!['%']),
        CppOperator::PrefixIncrement => Some(seq!['+', '+']),
        CppOperator::PostfixIncrement => Some(seq!['+', '+']),
        CppOperator::PrefixDecrement => Some(seq!['-', '-']),
        CppOperator::PostfixDecrement => Some(seq!['-', '-']),
        CppOperator::EqualTo => Some(seq!['=', '=']),
        CppOperator::NotEqualTo => Some(seq!['!', '=']),
        CppOperator::GreaterThan => Some(seq!['>']),
        CppOperator::LessThan => Some(seq!['<']),
        CppOperator::GreaterThanOrEqualTo => Some(seq!['>', '=']),
        CppOperator::LessThanOrEqualTo => Some(seq!['<', '=']),
        CppOperator::LogicalNot => Some(seq!['!']),
        CppOperator::LogicalAnd => Some(seq!['&', '&']),
        CppOperator::LogicalOr => Some(seq!['|', '|']),
        CppOperator::BitwiseNot => Some(seq!['~']),
        CppOperator::BitwiseAnd => Some(seq!['&']),
        CppOperator::BitwiseOr => Some(seq!['|']),
        CppOperator::BitwiseXor => Some(seq!['^']),
        CppOperator::BitwiseLeftShift => Some(seq!['<', '<']),
        CppOperator::BitwiseRightShift => Some(seq!['>', '>']),
        CppOperator::AdditionAssignment => Some(seq!['+', '=']),
        CppOperator::SubtractionAssignment => Some(seq!['-', '=']),
        CppOperator::MultiplicationAssignment => Some(seq!['*', '=']),
        CppOperator::DivisionAssignment => Some(seq!['/', '=']),
        CppOperator::ModuloAssignment => Some(seq!['%', '=']),
        CppOperator::BitwiseAndAssignment => Some(seq!['&', '=']),
        CppOperator::BitwiseOrAssignment => Some(seq!['|', '=']),
        CppOperator::BitwiseXorAssignment => Some(seq!['^', '=']),
        CppOperator::BitwiseLeftShiftAssignment => Some(seq!['<', '<', '=']),
        CppOperator::BitwiseRightShiftAssignment => Some(seq!['>', '>', '=']),
        CppOperator::Subscript => Some(seq!['[', ']']),
        CppOperator::Indirection => Some(seq!['*']),
        CppOperator::AddressOf => Some(seq!['&']),
        CppOperator::StructureDereference => Some(seq!['-', '>']),
        CppOperator::PointerToMember => Some(seq!['-', '>', '*']),
        CppOperator::FunctionCall => Some(seq!['(', ')']),
        CppOperator::Comma => Some(seq![',']),
        CppOperator::New => Some(seq!['n', 'e', 'w']),
        CppOperator::NewArray => Some(seq!['n', 'e', 'w', '[', ']']),
        CppOperator::Delete => Some(seq!['d', 'e', 'l', 'e', 't', 'e']),
        CppOperator::DeleteArray => Some(seq!['d', 'e', 'l', 'e', 't', 'e', '[', ']']),
    }
}

/// The calling metadata of `op`.
pub open spec fn operator_info(op: CppOperator) -> OperatorInfoView {
    OperatorInfoView { symbol: symbol(op), arity: arity(op), variable_arity: variable_arity(op) }
}

/// The metadata of an operator with a symbol and a fixed number of arguments.
fn oi(suffix: &'static str, count: i32) -> (info: OperatorInfo)
    ensures
        info.function_name_suffix == Some(suffix),
        info.arguments_count == count,
        !info.allows_variable_arguments,
{
    OperatorInfo {
        function_name_suffix: Some(suffix),
        arguments_count: count,
        allows_variable_arguments: false,
    }
}

impl CppOperator {
    /// The calling metadata of the operator. Every operator has one.
    pub fn info(&self) -> (info: OperatorInfo)
        ensures
            info@ == operator_info(*self),
    {
        proof {
            reveal_strlit("=");
            reveal_strlit("+");
            reveal_strlit("-");
            reveal_strlit("*");
            reveal_strlit("/");
            reveal_strlit("%");
            reveal_strlit("++");
            reveal_strlit("--");
            reveal_strlit("==");
            reveal_strlit("!=");
            reveal_strlit(">");
            reveal_strlit("<");
            reveal_strlit(">=");
            reveal_strlit("<=");
            reveal_strlit("!");
            reveal_strlit("&&");
            reveal_strlit("||");
            reveal_strlit("~");
            reveal_strlit("&");
            reveal_strlit("|");
            reveal_strlit("^");
            reveal_strlit("<<");
            reveal_strlit(">>");
            reveal_strlit("+=");
            reveal_strlit("-=");
            reveal_strlit("*=");
            reveal_strlit("/=");
            reveal_strlit("%=");
            reveal_strlit("&=");
            reveal_strlit("|=");
            reveal_strlit("^=");
            reveal_strlit("<<=");
            reveal_strlit(">>=");
            reveal_strlit("[]");
            reveal_strlit("->");
            reveal_strlit("->*");
            reveal_strlit("()");
            reveal_strlit(",");
            reveal_strlit("new");
            reveal_strlit("new[]");
            reveal_strlit("delete");
            reveal_strlit("delete[]");
            assert("="@ =~= seq!['=']);
            assert("+"@ =~= seq!['+']);
            assert("-"@ =~= seq!['-']);
            assert("*"@ =~= seq!['*']);
            assert("/"@ =~= seq!['/']);
            assert("%"@ =~= seq!['%']);
            assert("++"@ =~= seq!['+', '+']);
            assert("--"@ =~= seq!['-', '-']);
            assert("=="@ =~= seq!['=', '=']);
            assert("!="@ =~= seq!['!', '=']);
            assert(">"@ =~= seq!['>']);
            assert("<"@ =~= seq!['<']);
            assert(">="@ =~= seq!['>', '=']);
            assert("<="@ =~= seq!['<', '=']);
            assert("!"@ =~= seq!['!']);
            assert("&&"@ =~= seq!['&', '&']);
            assert("||"@ =~= seq!['|', '|']);
            assert("~"@ =~= seq!['~']);
            assert("&"@ =~= seq!['&']);
            assert("|"@ =~= seq!['|']);
            assert("^"@ =~= seq!['^']);
            assert("<<"@ =~= seq!['<', '<']);
            assert(">>"@ =~= seq!['>', '>']);
            assert("+="@ =~= seq!['+', '=']);
            assert("-="@ =~= seq!['-', '=']);
            assert("*="@ =~= seq!['*', '=']);
            assert("/="@ =~= seq!['/', '=']);
            assert("%="@ =~= seq!['%', '=']);
            assert("&="@ =~= seq!['&', '=']);
            assert("|="@ =~= seq!['|', '=']);
            assert("^="@ =~= seq!['^', '=']);
            assert("<<="@ =~= seq!['<', '<', '=']);
            assert(">>="@ =~= seq!['>', '>', '=']);
            assert("[]"@ =~= seq!['[', ']']);
            assert("->"@ =~= seq!['-', '>']);
            assert("->*"@ =~= seq!['-', '>', '*']);
            assert("()"@ =~= seq!['(', ')']);
            assert(","@ =~= seq![',']);
            assert("new"@ =~= seq!['n', 'e', 'w']);
            assert("new[]"@ =~= seq!['n', 'e', 'w', '[', ']']);
            assert("delete"@ =~= seq!['d', 'e', 'l', 'e', 't', 'e']);
            assert("delete[]"@ =~= seq!['d', 'e', 'l', 'e', 't', 'e', '[', ']']);
        }
        match *self {
            CppOperator::Conversion(..) => OperatorInfo {
                function_name_suffix: None,
                arguments_count: 1,
                allows_variable_arguments: false,
            },
            CppOperator::Assignment => oi("=", 2),
            CppOperator::Addition => oi("+", 2),
            CppOperator::Subtraction => oi("-", 2),
            CppOperator::UnaryPlus => oi("+", 1),
            CppOperator::UnaryMinus => oi("-", 1),
            CppOperator::Multiplication => oi("*", 2),
            CppOperator::Division => oi("/", 2),
            CppOperator::Modulo => oi("%", 2),
            CppOperator::PrefixIncrement => oi("++", 1),
            CppOperator::PostfixIncrement => oi("++", 2),
            CppOperator::PrefixDecrement => oi("--", 1),
            CppOperator::PostfixDecrement => oi("--", 2),
            CppOperator::EqualTo => oi("==", 2),
            CppOperator::NotEqualTo => oi("!=", 2),
            CppOperator::GreaterThan => oi(">", 2),
            CppOperator::LessThan => oi("<", 2),
            CppOperator::GreaterThanOrEqualTo => oi(">=", 2),
            CppOperator::LessThanOrEqualTo => oi("<=", 2),
            CppOperator::LogicalNot => oi("!", 1),
            CppOperator::LogicalAnd => oi("&&", 2),
            CppOperator::LogicalOr => oi("||", 2),
            CppOperator::BitwiseNot => oi("~", 1),
            CppOperator::BitwiseAnd => oi("&", 2),
            CppOperator::BitwiseOr => oi("|", 2),
            CppOperator::BitwiseXor => oi("^", 2),
            CppOperator::BitwiseLeftShift => oi("<<", 2),
            CppOperator::BitwiseRightShift => oi(">>", 2),
            CppOperator::AdditionAssignment => oi("+=", 2),
            CppOperator::SubtractionAssignment => oi("-=", 2),
            CppOperator::MultiplicationAssignment => oi("*=", 2),
            CppOperator::DivisionAssignment => oi("/=", 2),
            CppOperator::ModuloAssignment => oi("%=", 2),
            CppOperator::BitwiseAndAssignment => oi("&=", 2),
            CppOperator::BitwiseOrAssignment => oi("|=", 2),
            CppOperator::BitwiseXorAssignment => oi("^=", 2),
            CppOperator::BitwiseLeftShiftAssignment => oi("<<=", 2),
            CppOperator::BitwiseRightShiftAssignment => oi(">>=", 2),
            CppOperator::Subscript => oi("[]", 2),
            CppOperator::Indirection => oi("*", 1),
            CppOperator::AddressOf => oi("&", 1),
            CppOperator::StructureDereference => oi("->", 1),
            CppOperator::PointerToMember => oi("->*", 2),
            CppOperator::FunctionCall => OperatorInfo {
                function_name_suffix: Some("()"),
                arguments_count: 0,
                allows_variable_arguments: true,
            },
            CppOperator::Comma => oi(",", 2),
            CppOperator::New => oi("new", 2),
            CppOperator::NewArray => oi("new[]", 2),
            CppOperator::Delete => oi("delete", 2),
            CppOperator::DeleteArray => oi("delete[]", 2),
        }
    }
}

/// Every operator belongs to exactly one class: it is a conversion, unary,
/// binary, postfix or the call.
pub proof fn lemma_operator_classes(op: CppOperator)
    ensures
        op is Conversion || is_unary(op) || is_binary(op) || is_postfix(op) || op is FunctionCall,
        !(op is Conversion && is_unary(op)),
        !(op is Conversion && is_binary(op)),
        !(op is Conversion && is_postfix(op)),
        !(is_unary(op) && is_binary(op)),
        !(is_unary(op) && is_postfix(op)),
        !(is_unary(op) && op is FunctionCall),
        !(is_binary(op) && is_postfix(op)),
        !(is_binary(op) && op is FunctionCall),
{
}

/// The arity of each class of operators: one for a unary operator and for a
/// conversion, two for a binary operator and for a postfix operator, none and
/// variable for the call. A conversion has no symbol, every other operator has
/// one, and only the call takes a variable number of arguments.
pub proof fn lemma_arity_law(op: CppOperator)
    ensures
        is_unary(op) ==> operator_info(op).arity == 1,
        is_binary(op) ==> operator_info(op).arity == 2,
        is_postfix(op) ==> operator_info(op).arity == 2,
        op is FunctionCall ==> operator_info(op).arity == 0 && operator_info(op).variable_arity,
        op is Conversion ==> operator_info(op).arity == 1 && operator_info(op).symbol is None,
        !(op is Conversion) ==> operator_info(op).symbol is Some,
        !(op is FunctionCall) ==> !operator_info(op).variable_arity,
{
}

/// With what the name of every operator but a conversion begins.
pub open spec fn operator_prefix() -> Seq<char> {
    seq!['o', 'p', 'e', 'r', 'a', 't', 'o', 'r', '_']
}

/// With what the name of a conversion begins.
pub open spec fn conversion_prefix() -> Seq<char> {
    seq!['c', 'o', 'n', 'v', 'e', 'r', 't', '_', 't', 'o', '_']
}

/// The name under which the operator's function is generated.
///
/// For a conversion: `convert_to_` and the caption of the target type. For
/// any other operator: `operator_`, the symbol written with the characters of
/// an identifier, an underscore, and the arity as one digit. The arity tells
/// the prefix from the postfix operator of the same symbol.
pub open spec fn c_name(op: CppOperator) -> Seq<char> {
    match op {
        CppOperator::Conversion(target) => conversion_prefix() + cpp_caption(target@),
        _ => operator_prefix() + sanitized(symbol(op)->Some_0) + seq!['_'] + seq![
            digit_char(arity(op)),
        ],
    }
}

/// All operators but the conversions, each once.
pub open spec fn all_operators() -> Seq<CppOperator> {
    seq![
        CppOperator::Assignment,
        CppOperator::Addition,
        CppOperator::Subtraction,
        CppOperator::UnaryPlus,
        CppOperator::UnaryMinus,
        CppOperator::Multiplication,
        CppOperator::Division,
        CppOperator::Modulo,
        CppOperator::PrefixIncrement,
        CppOperator::PostfixIncrement,
        CppOperator::PrefixDecrement,
        CppOperator::PostfixDecrement,
        CppOperator::EqualTo,
        CppOperator::NotEqualTo,
        CppOperator::GreaterThan,
        CppOperator::LessThan,
        CppOperator::GreaterThanOrEqualTo,
        CppOperator::LessThanOrEqualTo,
        CppOperator::LogicalNot,
        CppOperator::LogicalAnd,
        CppOperator::LogicalOr,
        CppOperator::BitwiseNot,
        CppOperator::BitwiseAnd,
        CppOperator::BitwiseOr,
        CppOperator::BitwiseXor,
        CppOperator::BitwiseLeftShift,
        CppOperator::BitwiseRightShift,
        CppOperator::AdditionAssignment,
        CppOperator::SubtractionAssignment,
        CppOperator::MultiplicationAssignment,
        CppOperator::DivisionAssignment,
        CppOperator::ModuloAssignment,
        CppOperator::BitwiseAndAssignment,
        CppOperator::BitwiseOrAssignment,
        CppOperator::BitwiseXorAssignment,
        CppOperator::BitwiseLeftShiftAssignment,
        CppOperator::BitwiseRightShiftAssignment,
        CppOperator::Subscript,
        CppOperator::Indirection,
        CppOperator::AddressOf,
        CppOperator::StructureDereference,
        CppOperator::PointerToMember,
        CppOperator::FunctionCall,
        CppOperator::Comma,
        CppOperator::New,
        CppOperator::NewArray,
        CppOperator::Delete,
        CppOperator::DeleteArray,
    ]
}

/// Where `op` stands in the list of all operators.
pub open spec fn operator_index(op: CppOperator) -> int {
    match op {
        CppOperator::Conversion(_) => -1,
        CppOperator::Assignment => 0,
        CppOperator::Addition => 1,
        CppOperator::Subtraction => 2,
        CppOperator::UnaryPlus => 3,
        CppOperator::UnaryMinus => 4,
        CppOperator::Multiplication => 5,
        CppOperator::Division => 6,
        CppOperator::Modulo => 7,
        CppOperator::PrefixIncrement => 8,
        CppOperator::PostfixIncrement => 9,
        CppOperator::PrefixDecrement => 10,
        CppOperator::PostfixDecrement => 11,
        CppOperator::EqualTo => 12,
        CppOperator::NotEqualTo => 13,
        CppOperator::GreaterThan => 14,
        CppOperator::LessThan => 15,
        CppOperator::GreaterThanOrEqualTo => 16,
        CppOperator::LessThanOrEqualTo => 17,
        CppOperator::LogicalNot => 18,
        CppOperator::LogicalAnd => 19,
        CppOperator::LogicalOr => 20,
        CppOperator::BitwiseNot => 21,
        CppOperator::BitwiseAnd => 22,
        CppOperator::BitwiseOr => 23,
        CppOperator::BitwiseXor => 24,
        CppOperator::BitwiseLeftShift => 25,
        CppOperator::BitwiseRightShift => 26,
        CppOperator::AdditionAssignment => 27,
        CppOperator::SubtractionAssignment => 28,
        CppOperator::MultiplicationAssignment => 29,
        CppOperator::DivisionAssignment => 30,
        CppOperator::ModuloAssignment => 31,
        CppOperator::BitwiseAndAssignment => 32,
        CppOperator::BitwiseOrAssignment => 33,
        CppOperator::BitwiseXorAssignment => 34,
        CppOperator::BitwiseLeftShiftAssignment => 35,
        CppOperator::BitwiseRightShiftAssignment => 36,
        CppOperator::Subscript => 37,
        CppOperator::Indirection => 38,
        CppOperator::AddressOf => 39,
        CppOperator::StructureDereference => 40,
        CppOperator::PointerToMember => 41,
        CppOperator::FunctionCall => 42,
        CppOperator::Comma => 43,
        CppOperator::New => 44,
        CppOperator::NewArray => 45,
        CppOperator::Delete => 46,
        CppOperator::DeleteArray => 47,
    }
}

/// Whether `op` is the operator that is written `symbol` and declared with
/// `count` arguments. The call operator is declared with any number.
pub open spec fn is_operator_for(op: CppOperator, symbol: Seq<char>, count: int) -> bool {
    self::symbol(op) == Some(symbol) && (variable_arity(op) || arity(op) == count)
}

/// Every operator but a conversion stands in the list of all operators.
pub proof fn lemma_all_operators_complete(op: CppOperator)
    requires
        !(op is Conversion),
    ensures
        0 <= operator_index(op) < all_operators().len(),
        all_operators()[operator_index(op)] == op,
{
}

/// Two operators with the same symbol and the same arity are the same
/// operator.
pub proof fn lemma_symbol_and_arity_identify(a: CppOperator, b: CppOperator)
    requires
        !(a is Conversion),
        !(b is Conversion),
        symbol(a) == symbol(b),
        arity(a) == arity(b),
    ensures
        a == b,
{
    let x = symbol(a)->Some_0;
    let y = symbol(b)->Some_0;
    assert(x.len() == y.len());
    assert(x[0] == y[0]);
    assert(x[1] == y[1]);
    assert(x[2] == y[2]);
    assert(x[3] == y[3]);
    assert(x[4] == y[4]);
    assert(x[5] == y[5]);
    assert(x[6] == y[6]);
    assert(x[7] == y[7]);
}

/// A symbol and a number of arguments name at most one operator.
pub proof fn lemma_operator_unique(a: CppOperator, b: CppOperator, symbol: Seq<char>, count: int)
    requires
        is_operator_for(a, symbol, count),
        is_operator_for(b, symbol, count),
    ensures
        a == b,
{
    if variable_arity(a) || variable_arity(b) {
        let x = self::symbol(a)->Some_0;
        let y = self::symbol(b)->Some_0;
        assert(x.len() == y.len());
        assert(x[0] == y[0]);
        assert(x[1] == y[1]);
    } else {
        lemma_symbol_and_arity_identify(a, b);
    }
}

/// Whether `a` and `b` are the same operator: the same one of those that are
/// no conversions, or conversions to the same type.
pub open spec fn is_same_operator(a: CppOperator, b: CppOperator) -> bool {
    if a is Conversion {
        b is Conversion && a->0@ == b->0@
    } else {
        a == b
    }
}

/// Generated names do not collide: two operators with the same name are the
/// same operator.
pub proof fn lemma_c_name_injective(a: CppOperator, b: CppOperator)
    requires
        c_name(a) == c_name(b),
    ensures
        is_same_operator(a, b),
{
    let na = c_name(a);
    let nb = c_name(b);
    assert(na[0] == nb[0]);
    if a is Conversion {
        assert(na[0] == 'c');
        if !(b is Conversion) {
            assert(nb[0] == 'o');
        }
        let ca = cpp_caption(a->0@);
        let cb = cpp_caption(b->0@);
        assert(ca =~= na.skip(conversion_prefix().len() as int));
        assert(cb =~= nb.skip(conversion_prefix().len() as int));
        lemma_caption_injective(a->0@, b->0@);
    } else {
        assert(na[0] == 'o');
        if b is Conversion {
            assert(nb[0] == 'c');
        }
        let sa = sanitized(symbol(a)->Some_0);
        let sb = sanitized(symbol(b)->Some_0);
        let p = operator_prefix().len() as int;
        assert(na.len() == p + sa.len() + 2);
        assert(nb.len() == p + sb.len() + 2);
        assert(sa =~= na.subrange(p, na.len() - 2));
        assert(sb =~= nb.subrange(p, nb.len() - 2));
        lemma_sanitized_injective(symbol(a)->Some_0, symbol(b)->Some_0);
        assert(na[na.len() - 1] == digit_char(arity(a)));
        assert(nb[nb.len() - 1] == digit_char(arity(b)));
        lemma_symbol_and_arity_identify(a, b);
    }
}

/// A generated name is made of the characters of an identifier.
pub proof fn lemma_c_name_is_identifier_text(op: CppOperator)
    ensures
        is_identifier_text(c_name(op)),
{
    if op is Conversion {
        lemma_caption_is_identifier_text(op->0@);
        lemma_identifier_text_concat(conversion_prefix(), cpp_caption(op->0@));
    } else {
        let s = sanitized(symbol(op)->Some_0);
        lemma_sanitized_is_identifier_text(symbol(op)->Some_0);
        lemma_digit_is_alphanumeric(arity(op));
        lemma_identifier_text_concat(operator_prefix(), s);
        lemma_identifier_text_concat(operator_prefix() + s, seq!['_']);
        lemma_identifier_text_concat(
            operator_prefix() + s + seq!['_'],
            seq![digit_char(arity(op))],
        );
    }
}

/// Whether two texts are the same.
fn same_text(a: &str, b: &str) -> (same: bool)
    ensures
        same == (a@ == b@),
{
    String::from_str(a) == String::from_str(b)
}

impl CppOperator {
    /// The name under which the operator's function is generated.
    pub fn c_name(&self) -> (name: String)
        ensures
            name@ == c_name(*self),
    {
        match self {
            CppOperator::Conversion(target) => {
                proof {
                    reveal_strlit("convert_to_");
                    assert("convert_to_"@ =~= conversion_prefix());
                }
                let mut name = String::from_str("convert_to_");
                name.append(target.caption().as_str());
                name
            },
            _ => {
                proof {
                    reveal_strlit("operator_");
                    reveal_strlit("_");
                    assert("operator_"@ =~= operator_prefix());
                    assert("_"@ =~= seq!['_']);
                }
                let info = self.info();
                let mut name = String::from_str("operator_");
                match info.function_name_suffix {
                    Some(suffix) => {
                        name.append(sanitize(suffix).as_str());
                    },
                    None => {},
                }
                name.append("_");
                name.append(digit_str(info.arguments_count as u8));
                name
            },
        }
    }

    /// All operators but the conversions, each once.
    pub fn all() -> (operators: Vec<CppOperator>)
        ensures
            operators@ == all_operators(),
    {
        let mut operators: Vec<CppOperator> = Vec::new();
        operators.push(CppOperator::Assignment);
        operators.push(CppOperator::Addition);
        operators.push(CppOperator::Subtraction);
        operators.push(CppOperator::UnaryPlus);
        operators.push(CppOperator::UnaryMinus);
        operators.push(CppOperator::Multiplication);
        operators.push(CppOperator::Division);
        operators.push(CppOperator::Modulo);
        operators.push(CppOperator::PrefixIncrement);
        operators.push(CppOperator::PostfixIncrement);
        operators.push(CppOperator::PrefixDecrement);
        operators.push(CppOperator::PostfixDecrement);
        operators.push(CppOperator::EqualTo);
        operators.push(CppOperator::NotEqualTo);
        operators.push(CppOperator::GreaterThan);
        operators.push(CppOperator::LessThan);
        operators.push(CppOperator::GreaterThanOrEqualTo);
        operators.push(CppOperator::LessThanOrEqualTo);
        operators.push(CppOperator::LogicalNot);
        operators.push(CppOperator::LogicalAnd);
        operators.push(CppOperator::LogicalOr);
        operators.push(CppOperator::BitwiseNot);
        operators.push(CppOperator::BitwiseAnd);
        operators.push(CppOperator::BitwiseOr);
        operators.push(CppOperator::BitwiseXor);
        operators.push(CppOperator::BitwiseLeftShift);
        operators.push(CppOperator::BitwiseRightShift);
        operators.push(CppOperator::AdditionAssignment);
        operators.push(CppOperator::SubtractionAssignment);
        operators.push(CppOperator::MultiplicationAssignment);
        operators.push(CppOperator::DivisionAssignment);
        operators.push(CppOperator::ModuloAssignment);
        operators.push(CppOperator::BitwiseAndAssignment);
        operators.push(CppOperator::BitwiseOrAssignment);
        operators.push(CppOperator::BitwiseXorAssignment);
        operators.push(CppOperator::BitwiseLeftShiftAssignment);
        operators.push(CppOperator::BitwiseRightShiftAssignment);
        operators.push(CppOperator::Subscript);
        operators.push(CppOperator::Indirection);
        operators.push(CppOperator::AddressOf);
        operators.push(CppOperator::StructureDereference);
        operators.push(CppOperator::PointerToMember);
        operators.push(CppOperator::FunctionCall);
        operators.push(CppOperator::Comma);
        operators.push(CppOperator::New);
        operators.push(CppOperator::NewArray);
        operators.push(CppOperator::Delete);
        operators.push(CppOperator::DeleteArray);
        proof {
            assert(operators@ =~= all_operators());
        }
        operators
    }

    /// The operator that is written `symbol` and declared with
    /// `arguments_count` arguments, or `UnsupportedOperator` where there is
    /// none.
    pub fn from_symbol(symbol: &str, arguments_count: i32) -> (found: Result<
        CppOperator,
        BridgeError,
    >)
        ensures
            match found {
                Ok(op) => is_operator_for(op, symbol@, arguments_count as int),
                Err(e) => e == BridgeError::UnsupportedOperator && forall|op: CppOperator|
                    !#[trigger] is_operator_for(op, symbol@, arguments_count as int),
            },
    {
        let mut operators = CppOperator::all();
        let mut i: usize = 0;
        while i < operators.len()
            invariant
                operators@ == all_operators(),
                i <= operators@.len(),
                forall|k: int|
                    0 <= k < i ==> !is_operator_for(
                        #[trigger] operators@[k],
                        symbol@,
                        arguments_count as int,
                    ),
            decreases operators@.len() - i,
        {
            let info = operators[i].info();
            let fits = match info.function_name_suffix {
                Some(suffix) => same_text(suffix, symbol) && (info.allows_variable_arguments
                    || info.arguments_count == arguments_count),
                None => false,
            };
            if fits {
                return Ok(operators.swap_remove(i));
            }
            i = i + 1;
        }
        proof {
            assert forall|op: CppOperator| !#[trigger] is_operator_for(
                op,
                symbol@,
                arguments_count as int,
            ) by {
                if !(op is Conversion) {
                    lemma_all_operators_complete(op);
                    assert(operators@[operator_index(op)] == op);
                }
            }
        }
        Err(BridgeError::UnsupportedOperator)
    }
}

} // verus!
