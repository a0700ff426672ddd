use vstd::prelude::*;

verus! {

/// What the parser was looking for when it stopped.
#[derive(Clone, Copy, Debug, PartialEq, Eq, Structural)]
pub enum Expected {
    /// A number, an identifier, `-` or `(`.
    Operand,
    /// A closing parenthesis.
    CloseParen,
    /// An opening parenthesis: a function name must be followed by its
    /// argument list.
    LeftParen,
    /// A comma or a closing parenthesis, after an argument.
    CommaOrCloseParen,
    /// A first argument or a closing parenthesis, after `name(`.
    ArgumentOrCloseParen,
    /// Nothing: the expression was complete, yet tokens remained.
    EndOfInput,
}

/// The shape of a token, used to report what the parser found instead of
/// what it expected.
#[derive(Clone, Copy, Debug, PartialEq, Eq, Structural)]
pub enum TokenKind {
    Number,
    Identifier,
    Plus,
    Minus,
    Star,
    Slash,
    Caret,
    LParen,
    RParen,
    Comma,
}

/// Everything that can go wrong while evaluating an expression.  Evaluation
/// never panics: each malformed input yields one of these values.
#[derive(Clone, Debug, PartialEq, Eq)]
pub enum EvalError {
    /// An unrecognized character, at this character offset.
    LexError { position: usize, found: char },
    /// The token sequence does not form an expression.  `position` is the
    /// index of the offending token; `found` is `None` at end of input.
    ParseError { position: usize, expected: Expected, found: Option<TokenKind> },
    /// A call to a name that is not in the built-in function table.
    UnknownFunction { name: String },
    /// A call to a known function with the wrong number of arguments.
    ArityMismatch { name: String, expected: usize, got: usize },
    /// The right operand of `/` evaluated to exactly zero.
    DivisionByZero,
    /// The input is longer than `MAX_INPUT_CHARS`: the resource guard.
    InputTooLarge,
    /// The operation is known and well-formed, but its value can only be
    /// computed with the host's floating-point unit (a transcendental
    /// built-in, or `^` with a non-integer exponent); the embedding layer
    /// resolves it.
    Unsupported { name: String },
}

/// Mathematical model of `EvalError`: identifier payloads as character
/// sequences, sizes as unbounded naturals.
pub enum EvalErrorModel {
    LexError { position: nat, found: char },
    ParseError { position: nat, expected: Expected, found: Option<TokenKind> },
    UnknownFunction { name: Seq<char> },
    ArityMismatch { name: Seq<char>, expected: nat, got: nat },
    DivisionByZero,
    InputTooLarge,
    Unsupported { name: Seq<char> },
}

impl View for EvalError {
    type V = EvalErrorModel;

    open spec fn view(&self) -> EvalErrorModel {
        match *self {
            EvalError::LexError { position, found } => EvalErrorModel::LexError {
                position: position as nat,
                found,
            },
            EvalError::ParseError { position, expected, found } => EvalErrorModel::ParseError {
                position: position as nat,
                expected,
                found,
            },
            EvalError::UnknownFunction { name } => EvalErrorModel::UnknownFunction {
                name: name@,
            },
            EvalError::ArityMismatch { name, expected, got } => EvalErrorModel::ArityMismatch {
                name: name@,
                expected: expected as nat,
                got: got as nat,
            },
            EvalError::DivisionByZero => EvalErrorModel::DivisionByZero,
            EvalError::InputTooLarge => EvalErrorModel::InputTooLarge,
            EvalError::Unsupported { name } => EvalErrorModel::Unsupported { name: name@ },
        }
    }
}

} // verus!
