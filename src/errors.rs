use vstd::prelude::*;

verus! {

/// The three kinds of failure, each with a human-readable message.
#[derive(Debug)]
pub enum SQLError {
    TokenizerError(String),
    ParserError(String),
    ExpressionError(String),
}

/// The kind of an error, without its message.
#[derive(PartialEq, Eq, Structural)]
pub enum ErrorKind {
    Tokenizer,
    Parser,
    Expression,
}

impl SQLError {
    pub open spec fn kind(&self) -> ErrorKind {
        match self {
            SQLError::TokenizerError(_) => ErrorKind::Tokenizer,
            SQLError::ParserError(_) => ErrorKind::Parser,
            SQLError::ExpressionError(_) => ErrorKind::Expression,
        }
    }

    pub open spec fn message(&self) -> Seq<char> {
        match self {
            SQLError::TokenizerError(m) => m@,
            SQLError::ParserError(m) => m@,
            SQLError::ExpressionError(m) => m@,
        }
    }

    /// The message prefixed by the name of the error's kind.
    pub fn to_string(&self) -> (r: String)
        ensures
            r@ == match self {
                SQLError::TokenizerError(m) => "Tokenizer error: "@ + m@,
                SQLError::ParserError(m) => "Parser error: "@ + m@,
                SQLError::ExpressionError(m) => "Expression error: "@ + m@,
            },
    {
        match self {
            SQLError::TokenizerError(m) => String::from_str("Tokenizer error: ").concat(m.as_str()),
            SQLError::ParserError(m) => String::from_str("Parser error: ").concat(m.as_str()),
            SQLError::ExpressionError(m) => String::from_str("Expression error: ").concat(
                m.as_str(),
            ),
        }
    }
}

} // verus!
