use vstd::prelude::*;

verus! {

/// A value expression: literals, identifiers, and unary or binary operations
/// that own their operands.
#[derive(Debug, PartialEq)]
#[allow(inconsistent_fields)]
pub enum Expression {
    BinaryOperation {
        left_operand: Box<Expression>,
        operator: BinaryOperator,
        right_operand: Box<Expression>,
    },
    UnaryOperation { operand: Box<Expression>, operator: UnaryOperator },
    Number(u64),
    Bool(bool),
    Identifier(String),
    String(String),
}

#[derive(Debug, PartialEq, Eq, Structural, Clone, Copy)]
pub enum BinaryOperator {
    Plus,
    Minus,
    Multiply,
    Divide,
    GreaterThan,
    GreaterThanOrEqual,
    LessThan,
    LessThanOrEqual,
    Equal,
    NotEqual,
    And,
    Or,
}

#[derive(Debug, PartialEq, Eq, Structural, Clone, Copy)]
pub enum UnaryOperator {
    Not,
    Plus,
    Minus,
    Asc,
    Desc,
}

/// One lexical unit of the query text.
#[derive(Debug, Clone)]
pub enum Token {
    Keyword(Keyword),
    Identifier(String),
    String(String),
    Number(u64),
    Bool(bool),
    RightParentheses,
    LeftParentheses,
    GreaterThan,
    GreaterThanOrEqual,
    LessThan,
    LessThanOrEqual,
    Equal,
    NotEqual,
    Multiply,
    Divide,
    Minus,
    Plus,
    Comma,
    Semicolon,
    Eof,
}

#[derive(Debug, PartialEq, Eq, Structural, Clone, Copy)]
pub enum Keyword {
    Select,
    Create,
    Table,
    Where,
    Order,
    By,
    Asc,
    Desc,
    From,
    And,
    Or,
    Not,
    True,
    False,
    Primary,
    Key,
    Check,
    Int,
    Bool,
    Varchar,
    Null,
}

/// The mathematical form of an expression tree: names and strings as character sequences.
pub enum ExprV {
    Binary(Box<ExprV>, BinaryOperator, Box<ExprV>),
    Unary(UnaryOperator, Box<ExprV>),
    Number(u64),
    Bool(bool),
    Identifier(Seq<char>),
    Str(Seq<char>),
}

/// The mathematical form of a token.
pub enum TokenV {
    Keyword(Keyword),
    Identifier(Seq<char>),
    Str(Seq<char>),
    Number(u64),
    Bool(bool),
    RightParentheses,
    LeftParentheses,
    GreaterThan,
    GreaterThanOrEqual,
    LessThan,
    LessThanOrEqual,
    Equal,
    NotEqual,
    Multiply,
    Divide,
    Minus,
    Plus,
    Comma,
    Semicolon,
    Eof,
}

impl View for Expression {
    type V = ExprV;

    open spec fn view(&self) -> ExprV
        decreases self,
    {
        match self {
            Expression::BinaryOperation { left_operand, operator, right_operand } => ExprV::Binary(
                Box::new((**left_operand).view()),
                *operator,
                Box::new((**right_operand).view()),
            ),
            Expression::UnaryOperation { operand, operator } => ExprV::Unary(
                *operator,
                Box::new((**operand).view()),
            ),
            Expression::Number(n) => ExprV::Number(*n),
            Expression::Bool(b) => ExprV::Bool(*b),
            Expression::Identifier(s) => ExprV::Identifier(s@),
            Expression::String(s) => ExprV::Str(s@),
        }
    }
}

impl View for Token {
    type V = TokenV;

    open spec fn view(&self) -> TokenV {
        match self {
            Token::Keyword(k) => TokenV::Keyword(*k),
            Token::Identifier(s) => TokenV::Identifier(s@),
            Token::String(s) => TokenV::Str(s@),
            Token::Number(n) => TokenV::Number(*n),
            Token::Bool(b) => TokenV::Bool(*b),
            Token::RightParentheses => TokenV::RightParentheses,
            Token::LeftParentheses => TokenV::LeftParentheses,
            Token::GreaterThan => TokenV::GreaterThan,
            Token::GreaterThanOrEqual => TokenV::GreaterThanOrEqual,
            Token::LessThan => TokenV::LessThan,
            Token::LessThanOrEqual => TokenV::LessThanOrEqual,
            Token::Equal => TokenV::Equal,
            Token::NotEqual => TokenV::NotEqual,
            Token::Multiply => TokenV::Multiply,
            Token::Divide => TokenV::Divide,
            Token::Minus => TokenV::Minus,
            Token::Plus => TokenV::Plus,
            Token::Comma => TokenV::Comma,
            Token::Semicolon => TokenV::Semicolon,
            Token::Eof => TokenV::Eof,
        }
    }
}

/// The views of a sequence of tokens.
pub open spec fn tokens_view(ts: Seq<Token>) -> Seq<TokenV> {
    ts.map_values(|t: Token| t@)
}

impl Token {
    /// A fresh token with the same view.
    pub fn duplicate(&self) -> (r: Token)
        ensures
            r@ == self@,
    {
        match self {
            Token::Keyword(k) => Token::Keyword(*k),
            Token::Identifier(s) => Token::Identifier(s.clone()),
            Token::String(s) => Token::String(s.clone()),
            Token::Number(n) => Token::Number(*n),
            Token::Bool(b) => Token::Bool(*b),
            Token::RightParentheses => Token::RightParentheses,
            Token::LeftParentheses => Token::LeftParentheses,
            Token::GreaterThan => Token::GreaterThan,
            Token::GreaterThanOrEqual => Token::GreaterThanOrEqual,
            Token::LessThan => Token::LessThan,
            Token::LessThanOrEqual => Token::LessThanOrEqual,
            Token::Equal => Token::Equal,
            Token::NotEqual => Token::NotEqual,
            Token::Multiply => Token::Multiply,
            Token::Divide => Token::Divide,
            Token::Minus => Token::Minus,
            Token::Plus => Token::Plus,
            Token::Comma => Token::Comma,
            Token::Semicolon => Token::Semicolon,
            Token::Eof => Token::Eof,
        }
    }
}

/// A deep copy of an expression tree.
pub fn copy_expression(e: &Expression) -> (r: Expression)
    ensures
        r@ == e@,
    decreases e,
{
    match e {
        Expression::BinaryOperation { left_operand, operator, right_operand } => {
            Expression::BinaryOperation {
                left_operand: Box::new(copy_expression(left_operand)),
                operator: *operator,
                right_operand: Box::new(copy_expression(right_operand)),
            }
        },
        Expression::UnaryOperation { operand, operator } => Expression::UnaryOperation {
            operand: Box::new(copy_expression(operand)),
            operator: *operator,
        },
        Expression::Number(n) => Expression::Number(*n),
        Expression::Bool(b) => Expression::Bool(*b),
        Expression::Identifier(s) => Expression::Identifier(s.clone()),
        Expression::String(s) => Expression::String(s.clone()),
    }
}

impl Clone for Expression {
    fn clone(&self) -> Self {
        copy_expression(self)
    }
}

impl PartialEq for Token {
    fn eq(&self, o: &Token) -> (r: bool) {
        match (self, o) {
            (Token::Keyword(a), Token::Keyword(b)) => *a == *b,
            (Token::Identifier(a), Token::Identifier(b)) => *a == *b,
            (Token::String(a), Token::String(b)) => *a == *b,
            (Token::Number(a), Token::Number(b)) => *a == *b,
            (Token::Bool(a), Token::Bool(b)) => *a == *b,
            (Token::RightParentheses, Token::RightParentheses) => true,
            (Token::LeftParentheses, Token::LeftParentheses) => true,
            (Token::GreaterThan, Token::GreaterThan) => true,
            (Token::GreaterThanOrEqual, Token::GreaterThanOrEqual) => true,
            (Token::LessThan, Token::LessThan) => true,
            (Token::LessThanOrEqual, Token::LessThanOrEqual) => true,
            (Token::Equal, Token::Equal) => true,
            (Token::NotEqual, Token::NotEqual) => true,
            (Token::Multiply, Token::Multiply) => true,
            (Token::Divide, Token::Divide) => true,
            (Token::Minus, Token::Minus) => true,
            (Token::Plus, Token::Plus) => true,
            (Token::Comma, Token::Comma) => true,
            (Token::Semicolon, Token::Semicolon) => true,
            (Token::Eof, Token::Eof) => true,
            _ => false,
        }
    }
}

impl vstd::std_specs::cmp::PartialEqSpecImpl for Token {
    open spec fn obeys_eq_spec() -> bool {
        true
    }

    open spec fn eq_spec(&self, o: &Token) -> bool {
        self@ == o@
    }
}

/// The upper-case spelling of a keyword.
pub open spec fn keyword_name(k: Keyword) -> Seq<char> {
    match k {
        Keyword::Select => seq!['S', 'E', 'L', 'E', 'C', 'T'],
        Keyword::Create => seq!['C', 'R', 'E', 'A', 'T', 'E'],
        Keyword::Table => seq!['T', 'A', 'B', 'L', 'E'],
        Keyword::Where => seq!['W', 'H', 'E', 'R', 'E'],
        Keyword::Order => seq!['O', 'R', 'D', 'E', 'R'],
        Keyword::By => seq!['B', 'Y'],
        Keyword::Asc => seq!['A', 'S', 'C'],
        Keyword::Desc => seq!['D', 'E', 'S', 'C'],
        Keyword::From => seq!['F', 'R', 'O', 'M'],
        Keyword::And => seq!['A', 'N', 'D'],
        Keyword::Or => seq!['O', 'R'],
        Keyword::Not => seq!['N', 'O', 'T'],
        Keyword::True => seq!['T', 'R', 'U', 'E'],
        Keyword::False => seq!['F', 'A', 'L', 'S', 'E'],
        Keyword::Primary => seq!['P', 'R', 'I', 'M', 'A', 'R', 'Y'],
        Keyword::Key => seq!['K', 'E', 'Y'],
        Keyword::Check => seq!['C', 'H', 'E', 'C', 'K'],
        Keyword::Int => seq!['I', 'N', 'T'],
        Keyword::Bool => seq!['B', 'O', 'O', 'L'],
        Keyword::Varchar => seq!['V', 'A', 'R', 'C', 'H', 'A', 'R'],
        Keyword::Null => seq!['N', 'U', 'L', 'L'],
    }
}

/// How a message names a token.
pub open spec fn token_text(t: TokenV) -> Seq<char> {
    match t {
        TokenV::Keyword(k) => "keyword "@ + keyword_name(k),
        TokenV::Identifier(s) => "identifier "@ + s,
        TokenV::Str(s) => "string '"@ + s + "'"@,
        TokenV::Number(_) => "number"@,
        TokenV::Bool(b) => if b { "TRUE"@ } else { "FALSE"@ },
        TokenV::RightParentheses => "')'"@,
        TokenV::LeftParentheses => "'('"@,
        TokenV::GreaterThan => "'>'"@,
        TokenV::GreaterThanOrEqual => "'>='"@,
        TokenV::LessThan => "'<'"@,
        TokenV::LessThanOrEqual => "'<='"@,
        TokenV::Equal => "'='"@,
        TokenV::NotEqual => "'!='"@,
        TokenV::Multiply => "'*'"@,
        TokenV::Divide => "'/'"@,
        TokenV::Minus => "'-'"@,
        TokenV::Plus => "'+'"@,
        TokenV::Comma => "','"@,
        TokenV::Semicolon => "';'"@,
        TokenV::Eof => "end of input"@,
    }
}

/// `w` occurs in `msg`.
pub open spec fn mentions(msg: Seq<char>, w: Seq<char>) -> bool {
    exists|i: int| 0 <= i <= msg.len() - w.len() && #[trigger] msg.subrange(i, i + w.len()) == w
}

pub proof fn lemma_mentions_middle(a: Seq<char>, w: Seq<char>, b: Seq<char>)
    ensures
        mentions(a + w + b, w),
{
    let m = a + w + b;
    assert(m.subrange(a.len() as int, (a.len() + w.len()) as int) =~= w);
}

/// The upper-case spelling of a keyword, as text.
pub fn keyword_label(k: Keyword) -> (r: &'static str)
    ensures
        r@ == keyword_name(k),
{
    match k {
        Keyword::Select => { proof { reveal_strlit("SELECT"); } assert("SELECT"@ =~= keyword_name(k)); "SELECT" },
        Keyword::Create => { proof { reveal_strlit("CREATE"); } assert("CREATE"@ =~= keyword_name(k)); "CREATE" },
        Keyword::Table => { proof { reveal_strlit("TABLE"); } assert("TABLE"@ =~= keyword_name(k)); "TABLE" },
        Keyword::Where => { proof { reveal_strlit("WHERE"); } assert("WHERE"@ =~= keyword_name(k)); "WHERE" },
        Keyword::Order => { proof { reveal_strlit("ORDER"); } assert("ORDER"@ =~= keyword_name(k)); "ORDER" },
        Keyword::By => { proof { reveal_strlit("BY"); } assert("BY"@ =~= keyword_name(k)); "BY" },
        Keyword::Asc => { proof { reveal_strlit("ASC"); } assert("ASC"@ =~= keyword_name(k)); "ASC" },
        Keyword::Desc => { proof { reveal_strlit("DESC"); } assert("DESC"@ =~= keyword_name(k)); "DESC" },
        Keyword::From => { proof { reveal_strlit("FROM"); } assert("FROM"@ =~= keyword_name(k)); "FROM" },
        Keyword::And => { proof { reveal_strlit("AND"); } assert("AND"@ =~= keyword_name(k)); "AND" },
        Keyword::Or => { proof { reveal_strlit("OR"); } assert("OR"@ =~= keyword_name(k)); "OR" },
        Keyword::Not => { proof { reveal_strlit("NOT"); } assert("NOT"@ =~= keyword_name(k)); "NOT" },
        Keyword::True => { proof { reveal_strlit("TRUE"); } assert("TRUE"@ =~= keyword_name(k)); "TRUE" },
        Keyword::False => { proof { reveal_strlit("FALSE"); } assert("FALSE"@ =~= keyword_name(k)); "FALSE" },
        Keyword::Primary => { proof { reveal_strlit("PRIMARY"); } assert("PRIMARY"@ =~= keyword_name(k)); "PRIMARY" },
        Keyword::Key => { proof { reveal_strlit("KEY"); } assert("KEY"@ =~= keyword_name(k)); "KEY" },
        Keyword::Check => { proof { reveal_strlit("CHECK"); } assert("CHECK"@ =~= keyword_name(k)); "CHECK" },
        Keyword::Int => { proof { reveal_strlit("INT"); } assert("INT"@ =~= keyword_name(k)); "INT" },
        Keyword::Bool => { proof { reveal_strlit("BOOL"); } assert("BOOL"@ =~= keyword_name(k)); "BOOL" },
        Keyword::Varchar => { proof { reveal_strlit("VARCHAR"); } assert("VARCHAR"@ =~= keyword_name(k)); "VARCHAR" },
        Keyword::Null => { proof { reveal_strlit("NULL"); } assert("NULL"@ =~= keyword_name(k)); "NULL" },
    }
}

impl Token {
    /// The name of this token in messages.
    pub fn describe(&self) -> (r: String)
        ensures
            r@ == token_text(self@),
    {
        match self {
            Token::Keyword(k) => String::from_str("keyword ").concat(keyword_label(*k)),
            Token::Identifier(s) => String::from_str("identifier ").concat(s.as_str()),
            Token::String(s) => String::from_str("string '").concat(s.as_str()).concat("'"),
            Token::Number(_) => String::from_str("number"),
            Token::Bool(b) => if *b {
                String::from_str("TRUE")
            } else {
                String::from_str("FALSE")
            },
            Token::RightParentheses => String::from_str("')'"),
            Token::LeftParentheses => String::from_str("'('"),
            Token::GreaterThan => String::from_str("'>'"),
            Token::GreaterThanOrEqual => String::from_str("'>='"),
            Token::LessThan => String::from_str("'<'"),
            Token::LessThanOrEqual => String::from_str("'<='"),
            Token::Equal => String::from_str("'='"),
            Token::NotEqual => String::from_str("'!='"),
            Token::Multiply => String::from_str("'*'"),
            Token::Divide => String::from_str("'/'"),
            Token::Minus => String::from_str("'-'"),
            Token::Plus => String::from_str("'+'"),
            Token::Comma => String::from_str("','"),
            Token::Semicolon => String::from_str("';'"),
            Token::Eof => String::from_str("end of input"),
        }
    }
}

} // verus!
