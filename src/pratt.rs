use vstd::prelude::*;

use crate::ast::{
    BinaryOperator, ExprV, Expression, Keyword, Token, TokenV, UnaryOperator, token_text, tokens_view,
};

verus! {

/// A read position over an owned sequence of tokens.
pub struct TokenStream {
    tokens: Vec<Token>,
    pos: usize,
}

impl View for TokenStream {
    /// The tokens and the position of the next one to be read.
    type V = (Seq<TokenV>, int);

    closed spec fn view(&self) -> (Seq<TokenV>, int) {
        let n = self.tokens@.len() as int;
        (tokens_view(self.tokens@), if self.pos <= n { self.pos as int } else { n })
    }
}

/// The read position never passes the end of the tokens.
pub proof fn lemma_position_bounded(s: &TokenStream)
    ensures
        0 <= s@.1 <= s@.0.len(),
{
}

impl TokenStream {
    pub fn new(tokens: Vec<Token>) -> (r: Self)
        ensures
            r@ == (tokens_view(tokens@), 0int),
    {
        Self { tokens, pos: 0 }
    }

    /// The next token, without consuming it.
    pub fn peek(&self) -> (r: Option<&Token>)
        ensures
            r is Some <==> 0 <= self@.1 < self@.0.len(),
            r is Some ==> r->0@ == self@.0[self@.1],
    {
        if self.pos < self.tokens.len() {
            Some(&self.tokens[self.pos])
        } else {
            None
        }
    }

    /// Consumes and returns the next token.
    pub fn next(&mut self) -> (r: Option<Token>)
        ensures
            final(self)@.0 == old(self)@.0,
            r is Some <==> 0 <= old(self)@.1 < old(self)@.0.len(),
            r is Some ==> r->0@ == old(self)@.0[old(self)@.1] && final(self)@.1 == old(self)@.1 + 1,
            r is None ==> final(self)@ == old(self)@,
    {
        if self.pos < self.tokens.len() {
            let tok = self.tokens[self.pos].duplicate();
            self.pos = self.pos + 1;
            Some(tok)
        } else {
            None
        }
    }
}

/// The precedence and operator of a token that stands for a binary operator.
pub open spec fn binary_op(t: TokenV) -> Option<(int, BinaryOperator)> {
    match t {
        TokenV::Plus => Some((10, BinaryOperator::Plus)),
        TokenV::Minus => Some((10, BinaryOperator::Minus)),
        TokenV::Multiply => Some((20, BinaryOperator::Multiply)),
        TokenV::Divide => Some((20, BinaryOperator::Divide)),
        TokenV::GreaterThan => Some((5, BinaryOperator::GreaterThan)),
        TokenV::GreaterThanOrEqual => Some((5, BinaryOperator::GreaterThanOrEqual)),
        TokenV::LessThan => Some((5, BinaryOperator::LessThan)),
        TokenV::LessThanOrEqual => Some((5, BinaryOperator::LessThanOrEqual)),
        TokenV::Equal => Some((5, BinaryOperator::Equal)),
        TokenV::NotEqual => Some((5, BinaryOperator::NotEqual)),
        TokenV::Keyword(Keyword::And) => Some((3, BinaryOperator::And)),
        TokenV::Keyword(Keyword::Or) => Some((2, BinaryOperator::Or)),
        _ => None,
    }
}

/// The minimum precedence used for the operand of a prefix operator: higher
/// than that of any binary operator.
pub const PREFIX_PRECEDENCE: u8 = 100;

/// Parses an expression at `pos` whose binary operators all have precedence at
/// least `min`; on success, the expression and the position after it.
pub open spec fn parse_expr(t: Seq<TokenV>, pos: int, min: int) -> Result<(ExprV, int), Seq<char>>
    decreases t.len() - pos, 1int,
{
    if pos < 0 || pos >= t.len() {
        Err("Unexpected end of input"@)
    } else {
        match t[pos] {
            TokenV::Number(n) => climb(t, ExprV::Number(n), pos + 1, min),
            TokenV::Str(s) => climb(t, ExprV::Str(s), pos + 1, min),
            TokenV::Bool(b) => climb(t, ExprV::Bool(b), pos + 1, min),
            TokenV::Identifier(x) => climb(t, ExprV::Identifier(x), pos + 1, min),
            TokenV::Minus => prefix(t, pos, UnaryOperator::Minus, min),
            TokenV::Keyword(Keyword::Not) => prefix(t, pos, UnaryOperator::Not, min),
            TokenV::LeftParentheses => match parse_expr(t, pos + 1, 0) {
                Ok((e, p)) => if pos < p < t.len() && t[p] == TokenV::RightParentheses {
                    climb(t, e, p + 1, min)
                } else {
                    Err("Expected ')'"@)
                },
                Err(m) => Err(m),
            },
            _ => Err("Unexpected token: "@ + token_text(t[pos])),
        }
    }
}

/// The prefix operator `op` at `pos` applied to the operand that follows it,
/// then the binary operators after that.
pub open spec fn prefix(t: Seq<TokenV>, pos: int, op: UnaryOperator, min: int) -> Result<(ExprV, int), Seq<char>>
    decreases t.len() - pos, 0int,
{
    if pos < 0 || pos >= t.len() {
        Err("Unexpected end of input"@)
    } else {
        match parse_expr(t, pos + 1, PREFIX_PRECEDENCE as int) {
            Ok((e, p)) => if pos < p <= t.len() {
                climb(t, ExprV::Unary(op, Box::new(e)), p, min)
            } else {
                Err("Unexpected end of input"@)
            },
            Err(m) => Err(m),
        }
    }
}

/// Folds into `left` the binary operators from `pos` on whose precedence is at
/// least `min`, grouping operators of equal precedence to the left.
pub open spec fn climb(t: Seq<TokenV>, left: ExprV, pos: int, min: int) -> Result<(ExprV, int), Seq<char>>
    decreases t.len() - pos, 0int,
{
    if 0 <= pos < t.len() {
        match binary_op(t[pos]) {
            Some((prec, op)) => if prec >= min {
                match parse_expr(t, pos + 1, prec + 1) {
                    Ok((r, p)) => if pos < p <= t.len() {
                        climb(t, ExprV::Binary(Box::new(left), op, Box::new(r)), p, min)
                    } else {
                        Err("Unexpected end of input"@)
                    },
                    Err(m) => Err(m),
                }
            } else {
                Ok((left, pos))
            },
            None => Ok((left, pos)),
        }
    } else {
        Ok((left, pos))
    }
}

proof fn lemma_climb_bounds(t: Seq<TokenV>, left: ExprV, pos: int, min: int)
    requires
        0 <= pos <= t.len(),
    ensures
        climb(t, left, pos, min) is Ok ==> pos <= climb(t, left, pos, min)->Ok_0.1 <= t.len(),
    decreases t.len() - pos,
{
    if pos < t.len() {
        if let Some((prec, op)) = binary_op(t[pos]) {
            if prec >= min {
                if let Ok((r, p)) = parse_expr(t, pos + 1, prec + 1) {
                    if pos < p <= t.len() {
                        lemma_climb_bounds(t, ExprV::Binary(Box::new(left), op, Box::new(r)), p, min);
                    }
                }
            }
        }
    }
}

/// A successful parse consumes at least one token and stays within the sequence.
proof fn lemma_parse_bounds(t: Seq<TokenV>, pos: int, min: int)
    ensures
        parse_expr(t, pos, min) is Ok ==> pos < parse_expr(t, pos, min)->Ok_0.1 <= t.len(),
{
    if 0 <= pos < t.len() {
        match t[pos] {
            TokenV::Number(n) => lemma_climb_bounds(t, ExprV::Number(n), pos + 1, min),
            TokenV::Str(x) => lemma_climb_bounds(t, ExprV::Str(x), pos + 1, min),
            TokenV::Bool(b) => lemma_climb_bounds(t, ExprV::Bool(b), pos + 1, min),
            TokenV::Identifier(x) => lemma_climb_bounds(t, ExprV::Identifier(x), pos + 1, min),
            TokenV::Minus => lemma_prefix_bounds(t, pos, UnaryOperator::Minus, min),
            TokenV::Keyword(Keyword::Not) => lemma_prefix_bounds(t, pos, UnaryOperator::Not, min),
            TokenV::LeftParentheses => {
                if let Ok((e, p)) = parse_expr(t, pos + 1, 0) {
                    if pos < p < t.len() && t[p] == TokenV::RightParentheses {
                        lemma_climb_bounds(t, e, p + 1, min);
                    }
                }
            },
            _ => {},
        }
    }
}

proof fn lemma_prefix_bounds(t: Seq<TokenV>, pos: int, op: UnaryOperator, min: int)
    ensures
        prefix(t, pos, op, min) is Ok ==> pos < prefix(t, pos, op, min)->Ok_0.1 <= t.len(),
{
    if 0 <= pos < t.len() {
        if let Ok((e, p)) = parse_expr(t, pos + 1, PREFIX_PRECEDENCE as int) {
            if pos < p <= t.len() {
                lemma_climb_bounds(t, ExprV::Unary(op, Box::new(e)), p, min);
            }
        }
    }
}

fn binary_operator(t: &Token) -> (r: Option<(u8, BinaryOperator)>)
    ensures
        match r {
            Some((p, o)) => binary_op(t@) == Some((p as int, o)),
            None => binary_op(t@) is None,
        },
{
    match t {
        Token::Plus => Some((10, BinaryOperator::Plus)),
        Token::Minus => Some((10, BinaryOperator::Minus)),
        Token::Multiply => Some((20, BinaryOperator::Multiply)),
        Token::Divide => Some((20, BinaryOperator::Divide)),
        Token::GreaterThan => Some((5, BinaryOperator::GreaterThan)),
        Token::GreaterThanOrEqual => Some((5, BinaryOperator::GreaterThanOrEqual)),
        Token::LessThan => Some((5, BinaryOperator::LessThan)),
        Token::LessThanOrEqual => Some((5, BinaryOperator::LessThanOrEqual)),
        Token::Equal => Some((5, BinaryOperator::Equal)),
        Token::NotEqual => Some((5, BinaryOperator::NotEqual)),
        Token::Keyword(Keyword::And) => Some((3, BinaryOperator::And)),
        Token::Keyword(Keyword::Or) => Some((2, BinaryOperator::Or)),
        _ => None,
    }
}

/// Parses one expression from the stream by precedence climbing, consuming
/// binary operators of precedence at least `min_prec`.
pub fn parse_expression(stream: &mut TokenStream, min_prec: u8) -> (r: Result<Expression, String>)
    ensures
        final(stream)@.0 == old(stream)@.0,
        match parse_expr(old(stream)@.0, old(stream)@.1, min_prec as int) {
            Ok((e, p)) => r is Ok && r->Ok_0@ == e && final(stream)@.1 == p,
            Err(m) => r is Err && r->Err_0@ == m,
        },
        old(stream)@.1 <= final(stream)@.1,
        r is Ok ==> old(stream)@.1 < final(stream)@.1 <= final(stream)@.0.len(),
    decreases stream@.0.len() - stream@.1,
{
    let ghost t = stream@.0;
    let ghost p0 = stream@.1;
    proof {
        lemma_parse_bounds(t, p0, min_prec as int);
    }
    let tok = stream.next();
    let mut left = match tok {
        Some(Token::Number(n)) => Expression::Number(n),
        Some(Token::String(s)) => Expression::String(s),
        Some(Token::Bool(b)) => Expression::Bool(b),
        Some(Token::Identifier(name)) => Expression::Identifier(name),
        Some(Token::Minus) => {
            assert(parse_expr(t, p0, min_prec as int) == prefix(t, p0, UnaryOperator::Minus, min_prec as int));
            let right = match parse_expression(stream, PREFIX_PRECEDENCE) {
                Ok(e) => e,
                Err(m) => return Err(m),
            };
            Expression::UnaryOperation { operand: Box::new(right), operator: UnaryOperator::Minus }
        },
        Some(Token::Keyword(Keyword::Not)) => {
            assert(parse_expr(t, p0, min_prec as int) == prefix(t, p0, UnaryOperator::Not, min_prec as int));
            let right = match parse_expression(stream, PREFIX_PRECEDENCE) {
                Ok(e) => e,
                Err(m) => return Err(m),
            };
            Expression::UnaryOperation { operand: Box::new(right), operator: UnaryOperator::Not }
        },
        Some(Token::LeftParentheses) => {
            let inner = match parse_expression(stream, 0) {
                Ok(e) => e,
                Err(m) => return Err(m),
            };
            match stream.next() {
                Some(Token::RightParentheses) => inner,
                _ => return Err(String::from_str("Expected ')'")),
            }
        },
        Some(other) => return Err(String::from_str("Unexpected token: ").concat(other.describe().as_str())),
        None => return Err(String::from_str("Unexpected end of input")),
    };
    loop
        invariant
            t == old(stream)@.0,
            p0 == old(stream)@.1,
            stream@.0 == t,
            p0 < stream@.1 <= t.len(),
            parse_expr(t, p0, min_prec as int) == climb(t, left@, stream@.1, min_prec as int),
        ensures
            stream@.0 == t,
            parse_expr(t, p0, min_prec as int) == Ok::<(ExprV, int), Seq<char>>((left@, stream@.1)),
        decreases t.len() - stream@.1,
    {
        let op = match stream.peek() {
            Some(tok) => binary_operator(tok),
            None => None,
        };
        let (prec, operator) = match op {
            Some(po) => po,
            None => break,
        };
        if prec < min_prec {
            break;
        }
        stream.next();
        let right = match parse_expression(stream, prec + 1) {
            Ok(e) => e,
            Err(m) => return Err(m),
        };
        left = Expression::BinaryOperation {
            left_operand: Box::new(left),
            operator,
            right_operand: Box::new(right),
        };
    }
    Ok(left)
}

} // verus!
