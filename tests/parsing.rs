use sql::ast::{BinaryOperator, Expression, Keyword, Token, UnaryOperator};
use sql::errors::SQLError;
use sql::parser::build_statement;
use sql::pratt::{parse_expression, TokenStream};
use sql::statement::{Constraint, DBType, Statement, TableColumn};
use sql::tokenizer::tokenize_string;

fn num(n: u64) -> Expression {
    Expression::Number(n)
}

fn ident(s: &str) -> Expression {
    Expression::Identifier(s.to_string())
}

fn bin(l: Expression, op: BinaryOperator, r: Expression) -> Expression {
    Expression::BinaryOperation {
        left_operand: Box::new(l),
        operator: op,
        right_operand: Box::new(r),
    }
}

fn select_columns(sql: &str) -> Vec<Expression> {
    match build_statement(sql) {
        Ok(Statement::Select { columns, .. }) => columns,
        other => panic!("expected a select, got {:?}", other),
    }
}

#[test]
fn token_sequence_ends_with_single_eof() {
    for text in ["SELECT a FROM t;", "", "   ", "CREATE TABLE x (a INT);", "a b c"] {
        let tokens = tokenize_string(text).unwrap();
        assert_eq!(tokens.last(), Some(&Token::Eof));
        let eofs = tokens.iter().filter(|t| **t == Token::Eof).count();
        assert_eq!(eofs, 1);
    }
}

#[test]
fn empty_input_gives_only_eof() {
    assert_eq!(tokenize_string("").unwrap(), vec![Token::Eof]);
}

#[test]
fn keywords_are_case_insensitive() {
    let a = tokenize_string("select").unwrap();
    let b = tokenize_string("SELECT").unwrap();
    let c = tokenize_string("SeLeCt").unwrap();
    assert_eq!(a, vec![Token::Keyword(Keyword::Select), Token::Eof]);
    assert_eq!(a, b);
    assert_eq!(b, c);
}

#[test]
fn identifiers_keep_their_casing() {
    let tokens = tokenize_string("MyTable my_col2").unwrap();
    assert_eq!(
        tokens,
        vec![
            Token::Identifier("MyTable".to_string()),
            Token::Identifier("my_col2".to_string()),
            Token::Eof
        ]
    );
}

#[test]
fn full_keyword_table_is_recognised() {
    let tokens = tokenize_string("create Table primary KEY check int bool varchar null not").unwrap();
    assert_eq!(
        tokens,
        vec![
            Token::Keyword(Keyword::Create),
            Token::Keyword(Keyword::Table),
            Token::Keyword(Keyword::Primary),
            Token::Keyword(Keyword::Key),
            Token::Keyword(Keyword::Check),
            Token::Keyword(Keyword::Int),
            Token::Keyword(Keyword::Bool),
            Token::Keyword(Keyword::Varchar),
            Token::Keyword(Keyword::Null),
            Token::Keyword(Keyword::Not),
            Token::Eof
        ]
    );
}

#[test]
fn booleans_become_literals() {
    let tokens = tokenize_string("TRUE false").unwrap();
    assert_eq!(tokens, vec![Token::Bool(true), Token::Bool(false), Token::Eof]);
}

#[test]
fn operators_and_punctuation() {
    let tokens = tokenize_string(">= <= != > < = + - * / ( ) , ;").unwrap();
    assert_eq!(
        tokens,
        vec![
            Token::GreaterThanOrEqual,
            Token::LessThanOrEqual,
            Token::NotEqual,
            Token::GreaterThan,
            Token::LessThan,
            Token::Equal,
            Token::Plus,
            Token::Minus,
            Token::Multiply,
            Token::Divide,
            Token::LeftParentheses,
            Token::RightParentheses,
            Token::Comma,
            Token::Semicolon,
            Token::Eof
        ]
    );
}

#[test]
fn numbers_and_strings() {
    let tokens = tokenize_string("12345 'it''s' \"a b\" 18446744073709551615").unwrap();
    assert_eq!(
        tokens,
        vec![
            Token::Number(12345),
            Token::String("it".to_string()),
            Token::String("s".to_string()),
            Token::String("a b".to_string()),
            Token::Number(u64::MAX),
            Token::Eof
        ]
    );
}

#[test]
fn lone_bang_is_tokenizer_error() {
    assert!(matches!(tokenize_string("a ! b"), Err(SQLError::TokenizerError(_))));
}

#[test]
fn invalid_character_is_tokenizer_error() {
    match tokenize_string("SELECT # FROM t") {
        Err(SQLError::TokenizerError(m)) => assert!(m.contains('#')),
        other => panic!("unexpected {:?}", other),
    }
}

#[test]
fn unterminated_string_is_tokenizer_error() {
    assert!(matches!(tokenize_string("'abc"), Err(SQLError::TokenizerError(_))));
}

#[test]
fn number_overflow_is_tokenizer_error() {
    assert!(matches!(
        tokenize_string("18446744073709551616"),
        Err(SQLError::TokenizerError(_))
    ));
}

#[test]
fn tokenizer_error_surfaces_from_build_statement() {
    assert!(matches!(build_statement("SELECT a ! b FROM t;"), Err(SQLError::TokenizerError(_))));
}

#[test]
fn multiplication_binds_tighter_than_addition() {
    let cols = select_columns("SELECT 1 + 2 * 3 FROM t;");
    assert_eq!(
        cols,
        vec![bin(num(1), BinaryOperator::Plus, bin(num(2), BinaryOperator::Multiply, num(3)))]
    );
}

#[test]
fn subtraction_is_left_associative() {
    let cols = select_columns("SELECT 10 - 2 - 3 FROM t;");
    assert_eq!(
        cols,
        vec![bin(bin(num(10), BinaryOperator::Minus, num(2)), BinaryOperator::Minus, num(3))]
    );
}

#[test]
fn unary_minus_binds_tighter_than_binary() {
    let cols = select_columns("SELECT -1 + 2 FROM t;");
    let neg = Expression::UnaryOperation { operand: Box::new(num(1)), operator: UnaryOperator::Minus };
    assert_eq!(cols, vec![bin(neg, BinaryOperator::Plus, num(2))]);
}

#[test]
fn not_applies_to_its_immediate_operand() {
    let cols = select_columns("SELECT NOT a AND b FROM t;");
    let not_a = Expression::UnaryOperation { operand: Box::new(ident("a")), operator: UnaryOperator::Not };
    assert_eq!(cols, vec![bin(not_a, BinaryOperator::And, ident("b"))]);
}

#[test]
fn parentheses_override_precedence() {
    let cols = select_columns("SELECT (1 + 2) * 3 FROM t;");
    assert_eq!(
        cols,
        vec![bin(bin(num(1), BinaryOperator::Plus, num(2)), BinaryOperator::Multiply, num(3))]
    );
}

#[test]
fn or_binds_looser_than_and() {
    let cols = select_columns("SELECT a OR b AND c FROM t");
    assert_eq!(
        cols,
        vec![bin(ident("a"), BinaryOperator::Or, bin(ident("b"), BinaryOperator::And, ident("c")))]
    );
}

#[test]
fn select_with_where_and_order_by() {
    let st = build_statement("SELECT a, b FROM t WHERE a > 5 AND b = 'x' ORDER BY a, b;").unwrap();
    let expected = Statement::Select {
        columns: vec![ident("a"), ident("b")],
        from: "t".to_string(),
        where_clause: Some(bin(
            bin(ident("a"), BinaryOperator::GreaterThan, num(5)),
            BinaryOperator::And,
            bin(ident("b"), BinaryOperator::Equal, Expression::String("x".to_string())),
        )),
        orderby: vec![ident("a"), ident("b")],
    };
    assert_eq!(st, expected);
}

#[test]
fn select_without_terminator() {
    let st = build_statement("SELECT x FROM t").unwrap();
    let expected = Statement::Select {
        columns: vec![ident("x")],
        from: "t".to_string(),
        where_clause: None,
        orderby: vec![],
    };
    assert_eq!(st, expected);
}

#[test]
fn later_where_replaces_earlier_and_order_by_appends() {
    let st = build_statement("SELECT x FROM t ORDER BY a WHERE x = 1 ORDER BY b WHERE y = 2;").unwrap();
    let expected = Statement::Select {
        columns: vec![ident("x")],
        from: "t".to_string(),
        where_clause: Some(bin(ident("y"), BinaryOperator::Equal, num(2))),
        orderby: vec![ident("a"), ident("b")],
    };
    assert_eq!(st, expected);
}

#[test]
fn create_table_with_constraints() {
    let st = build_statement(
        "CREATE TABLE t (id INT PRIMARY KEY NOT NULL, name VARCHAR(20) CHECK (name != ''));",
    )
    .unwrap();
    let expected = Statement::CreateTable {
        table_name: "t".to_string(),
        column_list: vec![
            TableColumn {
                column_name: "id".to_string(),
                column_type: DBType::Int,
                constraints: vec![Constraint::PrimaryKey, Constraint::NotNull],
            },
            TableColumn {
                column_name: "name".to_string(),
                column_type: DBType::Varchar(20),
                constraints: vec![Constraint::Check(bin(
                    ident("name"),
                    BinaryOperator::NotEqual,
                    Expression::String(String::new()),
                ))],
            },
        ],
    };
    assert_eq!(st, expected);
}

#[test]
fn create_table_bool_column() {
    let st = build_statement("create table flags (on_off BOOL);").unwrap();
    let expected = Statement::CreateTable {
        table_name: "flags".to_string(),
        column_list: vec![TableColumn {
            column_name: "on_off".to_string(),
            column_type: DBType::Bool,
            constraints: vec![],
        }],
    };
    assert_eq!(st, expected);
}

#[test]
fn create_table_requires_semicolon() {
    assert!(matches!(
        build_statement("CREATE TABLE t (id INT)"),
        Err(SQLError::ParserError(_))
    ));
}

#[test]
fn create_table_rejects_bad_separator() {
    assert!(matches!(
        build_statement("CREATE TABLE t (id INT; name INT);"),
        Err(SQLError::ParserError(_))
    ));
}

#[test]
fn missing_from_names_the_keyword() {
    match build_statement("SELECT a, b t;") {
        Err(SQLError::ParserError(m)) => assert!(m.contains("FROM")),
        other => panic!("unexpected {:?}", other),
    }
}

#[test]
fn unterminated_parenthesis_is_parser_error() {
    assert!(matches!(build_statement("SELECT (1 + 2 FROM t;"), Err(SQLError::ParserError(_))));
}

#[test]
fn unknown_statement_start_is_parser_error() {
    assert!(matches!(build_statement("DROP t;"), Err(SQLError::ParserError(_))));
    assert!(matches!(build_statement(""), Err(SQLError::ParserError(_))));
}

#[test]
fn parsing_is_deterministic() {
    let text = "SELECT a + 1, b FROM t WHERE a >= 2 OR NOT b ORDER BY a;";
    assert_eq!(build_statement(text).unwrap(), build_statement(text).unwrap());
}

#[test]
fn expression_parser_on_a_stream() {
    let tokens = tokenize_string("a * (b - 1) , c").unwrap();
    let mut stream = TokenStream::new(tokens);
    let e = parse_expression(&mut stream, 0).unwrap();
    assert_eq!(
        e,
        bin(ident("a"), BinaryOperator::Multiply, bin(ident("b"), BinaryOperator::Minus, num(1)))
    );
    assert_eq!(stream.peek(), Some(&Token::Comma));
    assert_eq!(stream.next(), Some(Token::Comma));
    assert_eq!(stream.next(), Some(Token::Identifier("c".to_string())));
    assert_eq!(stream.next(), Some(Token::Eof));
    assert_eq!(stream.next(), None);
}

#[test]
fn min_precedence_stops_at_weaker_operators() {
    let tokens = tokenize_string("1 + 2 * 3").unwrap();
    let mut stream = TokenStream::new(tokens);
    let e = parse_expression(&mut stream, 20).unwrap();
    assert_eq!(e, num(1));
    assert_eq!(stream.peek(), Some(&Token::Plus));
}

#[test]
fn expression_errors() {
    let mut stream = TokenStream::new(tokenize_string(")").unwrap());
    assert!(parse_expression(&mut stream, 0).is_err());
    let mut empty = TokenStream::new(vec![]);
    assert!(parse_expression(&mut empty, 0).is_err());
}

#[test]
fn expect_helpers() {
    let mut stream = TokenStream::new(tokenize_string("SELECT (").unwrap());
    assert!(stream.expect_keyword(Keyword::Select).is_ok());
    assert!(matches!(stream.expect_token(Token::Comma), Err(SQLError::ParserError(_))));
    assert!(matches!(stream.expect_keyword(Keyword::From), Err(SQLError::ParserError(_))));
}

#[test]
fn error_messages_carry_their_kind() {
    let e = SQLError::ParserError("boom".to_string());
    assert_eq!(e.to_string(), "Parser error: boom");
    let e = SQLError::TokenizerError("bad".to_string());
    assert_eq!(e.to_string(), "Tokenizer error: bad");
    let e = SQLError::ExpressionError("x".to_string());
    assert_eq!(e.to_string(), "Expression error: x");
}

#[test]
fn missing_from_message_is_exact() {
    match build_statement("SELECT a, b t;") {
        Err(e) => assert_eq!(e.to_string(), "Parser error: Expected keyword FROM, found identifier t"),
        Ok(s) => panic!("unexpected {:?}", s),
    }
}

#[test]
fn unknown_start_names_the_token() {
    match build_statement("DROP t;") {
        Err(SQLError::ParserError(m)) => assert_eq!(m, "Unknown start of statement: identifier DROP"),
        other => panic!("unexpected {:?}", other),
    }
    match build_statement("") {
        Err(SQLError::ParserError(m)) => assert_eq!(m, "Unknown start of statement: end of input"),
        other => panic!("unexpected {:?}", other),
    }
}

#[test]
fn unexpected_token_in_expression_is_named() {
    match build_statement("SELECT , FROM t") {
        Err(SQLError::ParserError(m)) => assert_eq!(m, "Unexpected token: ','"),
        other => panic!("unexpected {:?}", other),
    }
}

#[test]
fn tokenizer_message_passes_through() {
    match build_statement("SELECT a # b") {
        Err(SQLError::TokenizerError(m)) => assert_eq!(m, "Invalid character: #"),
        other => panic!("unexpected {:?}", other),
    }
}

#[test]
fn non_ascii_letters_form_identifiers() {
    let tokens = tokenize_string("SELECT café FROM t").unwrap();
    assert_eq!(tokens[1], Token::Identifier("café".to_string()));
    let st = build_statement("SELECT café FROM t").unwrap();
    let expected = Statement::Select {
        columns: vec![ident("café")],
        from: "t".to_string(),
        where_clause: None,
        orderby: vec![],
    };
    assert_eq!(st, expected);
}

#[test]
fn keywords_match_by_unicode_upper_case() {
    assert_eq!(
        tokenize_string("ſelect").unwrap(),
        vec![Token::Keyword(Keyword::Select), Token::Eof]
    );
    assert_eq!(tokenize_string("true").unwrap(), tokenize_string("TRUE").unwrap());
}

#[test]
fn non_letter_symbol_is_still_invalid() {
    assert!(matches!(tokenize_string("a € b"), Err(SQLError::TokenizerError(_))));
}

#[test]
fn statements_can_be_cloned() {
    let st = build_statement("SELECT -a * (b + 1) FROM t WHERE NOT c;").unwrap();
    assert_eq!(st.clone(), st);
    let t = Token::Identifier("x".to_string());
    assert_eq!(t.clone(), t);
}

#[test]
fn expect_moves_past_a_wrong_token_and_stops_at_the_end() {
    let mut stream = TokenStream::new(tokenize_string("a").unwrap());
    match stream.expect_token(Token::Comma) {
        Err(SQLError::ParserError(m)) => assert_eq!(m, "Expected ',', found identifier a"),
        other => panic!("unexpected {:?}", other),
    }
    assert_eq!(stream.peek(), Some(&Token::Eof));
    assert!(stream.expect_token(Token::Eof).is_ok());
    match stream.expect_keyword(Keyword::Null) {
        Err(SQLError::ParserError(m)) => assert_eq!(m, "Expected keyword NULL, found end of input"),
        other => panic!("unexpected {:?}", other),
    }
    assert_eq!(stream.peek(), None);
}

#[test]
fn create_table_error_messages() {
    match build_statement("CREATE TABLE t (id TEXT);") {
        Err(SQLError::ParserError(m)) => assert_eq!(m, "Expected column type"),
        other => panic!("unexpected {:?}", other),
    }
    match build_statement("CREATE TABLE t (id VARCHAR(x));") {
        Err(SQLError::ParserError(m)) => assert_eq!(m, "Expected VARCHAR length"),
        other => panic!("unexpected {:?}", other),
    }
    match build_statement("CREATE TABLE t (id INT PRIMARY NULL);") {
        Err(SQLError::ParserError(m)) => assert_eq!(m, "Expected keyword KEY, found keyword NULL"),
        other => panic!("unexpected {:?}", other),
    }
}

#[test]
fn whole_texts_differing_in_case_tokenize_alike() {
    let a = tokenize_string("select Name from T where x >= 1").unwrap();
    let b = tokenize_string("SELECT name FROM t WHERE X >= 1").unwrap();
    assert_eq!(a.len(), b.len());
    assert_eq!(a[0], b[0]);
    assert_eq!(a[1], Token::Identifier("Name".to_string()));
    assert_eq!(b[1], Token::Identifier("name".to_string()));
    assert_eq!(a[2], b[2]);
    assert_eq!(a[4], Token::Keyword(Keyword::Where));
    assert_eq!(a[4], b[4]);
    assert_eq!(a[6], b[6]);
    assert_eq!(a[7], b[7]);
}
