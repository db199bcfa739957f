use vstd::prelude::*;

use crate::ast::{ExprV, Expression, Keyword, Token, TokenV, keyword_name, lemma_mentions_middle, mentions, token_text};
use crate::errors::{ErrorKind, SQLError};
use crate::pratt::{TokenStream, lemma_position_bounded, parse_expr, parse_expression};
use crate::statement::{
    ColumnV, Constraint, ConstraintV, DBType, Statement, StatementV, TableColumn, columns_view,
    constraints_view, exprs_view, option_expr_view,
};
use crate::tokenizer::{tokenize, tokenize_string};

verus! {

/// The message when `expected` is needed and `found` stands in its place.
pub open spec fn expect_message(expected: TokenV, found: Seq<char>) -> Seq<char> {
    "Expected "@ + token_text(expected) + (", found "@ + found)
}

/// The name of the token at `pos`, or end of input past the last token.
pub open spec fn found_text(t: Seq<TokenV>, pos: int) -> Seq<char> {
    if 0 <= pos < t.len() {
        token_text(t[pos])
    } else {
        "end of input"@
    }
}

/// The position after `tok`, if `tok` stands at `pos`.
pub open spec fn expect(t: Seq<TokenV>, pos: int, tok: TokenV) -> Result<int, Seq<char>> {
    if 0 <= pos < t.len() && t[pos] == tok {
        Ok(pos + 1)
    } else {
        Err(expect_message(tok, found_text(t, pos)))
    }
}

/// A comma-separated list of expressions from `pos` on, appended to `acc`.
pub open spec fn expr_list(t: Seq<TokenV>, pos: int, acc: Seq<ExprV>) -> Result<(Seq<ExprV>, int), Seq<char>>
    decreases t.len() - pos,
{
    match parse_expr(t, pos, 0) {
        Ok((e, p)) => if pos < p <= t.len() {
            if p < t.len() && t[p] == TokenV::Comma {
                expr_list(t, p + 1, acc.push(e))
            } else {
                Ok((acc.push(e), p))
            }
        } else {
            Err("Unexpected end of input"@)
        },
        Err(m) => Err(m),
    }
}

/// The optional `WHERE` and `ORDER BY` clauses of a `SELECT`, in any order and
/// number, up to a consumed `;` or end of input, or up to any other token,
/// which is left unconsumed. A later `WHERE` replaces an earlier one; each
/// `ORDER BY` appends to the ordering list.
pub open spec fn select_clauses(
    t: Seq<TokenV>,
    pos: int,
    wh: Option<ExprV>,
    ob: Seq<ExprV>,
) -> Result<(Option<ExprV>, Seq<ExprV>, int), Seq<char>>
    decreases t.len() - pos,
{
    if 0 <= pos < t.len() {
        match t[pos] {
            TokenV::Keyword(Keyword::Where) => match parse_expr(t, pos + 1, 0) {
                Ok((e, p)) => if pos < p <= t.len() {
                    select_clauses(t, p, Some(e), ob)
                } else {
                    Err("Unexpected end of input"@)
                },
                Err(m) => Err(m),
            },
            TokenV::Keyword(Keyword::Order) => match expect(t, pos + 1, TokenV::Keyword(Keyword::By)) {
                Ok(_) => match expr_list(t, pos + 2, ob) {
                    Ok((ob2, p)) => if pos < p <= t.len() {
                        select_clauses(t, p, wh, ob2)
                    } else {
                        Err("Unexpected end of input"@)
                    },
                    Err(m) => Err(m),
                },
                Err(m) => Err(m),
            },
            TokenV::Semicolon => Ok((wh, ob, pos + 1)),
            TokenV::Eof => Ok((wh, ob, pos + 1)),
            _ => Ok((wh, ob, pos)),
        }
    } else {
        Ok((wh, ob, pos))
    }
}

/// `SELECT <exprs> FROM <name> <clauses>` at `pos`, and the position after it.
pub open spec fn select_statement(t: Seq<TokenV>, pos: int) -> Result<(StatementV, int), Seq<char>> {
    match expect(t, pos, TokenV::Keyword(Keyword::Select)) {
        Err(m) => Err(m),
        Ok(_) => match expr_list(t, pos + 1, Seq::empty()) {
            Err(m) => Err(m),
            Ok((cols, p)) => match expect(t, p, TokenV::Keyword(Keyword::From)) {
                Err(m) => Err(m),
                Ok(_) => if p + 1 < t.len() && t[p + 1] is Identifier {
                    match select_clauses(t, p + 2, None, Seq::empty()) {
                        Ok((wh, ob, q)) => Ok(
                            (
                                StatementV::Select {
                                    columns: cols,
                                    from: t[p + 1]->Identifier_0,
                                    where_clause: wh,
                                    orderby: ob,
                                },
                                q,
                            ),
                        ),
                        Err(m) => Err(m),
                    }
                } else {
                    Err("Expected table name after FROM"@)
                },
            },
        },
    }
}

/// A column type at `pos`: `INT`, `BOOL` or `VARCHAR(<length>)`.
pub open spec fn type_spec(t: Seq<TokenV>, pos: int) -> Result<(DBType, int), Seq<char>> {
    if 0 <= pos < t.len() && t[pos] == TokenV::Keyword(Keyword::Int) {
        Ok((DBType::Int, pos + 1))
    } else if 0 <= pos < t.len() && t[pos] == TokenV::Keyword(Keyword::Bool) {
        Ok((DBType::Bool, pos + 1))
    } else if 0 <= pos < t.len() && t[pos] == TokenV::Keyword(Keyword::Varchar) {
        match expect(t, pos + 1, TokenV::LeftParentheses) {
            Err(m) => Err(m),
            Ok(_) => if pos + 2 < t.len() && t[pos + 2] is Number {
                match expect(t, pos + 3, TokenV::RightParentheses) {
                    Err(m) => Err(m),
                    Ok(_) => Ok((DBType::Varchar(t[pos + 2]->Number_0 as usize), pos + 4)),
                }
            } else {
                Err("Expected VARCHAR length"@)
            },
        }
    } else {
        Err("Expected column type"@)
    }
}

/// The constraints of a column from `pos` on, appended to `acc`.
pub open spec fn column_constraints(t: Seq<TokenV>, pos: int, acc: Seq<ConstraintV>) -> Result<
    (Seq<ConstraintV>, int),
    Seq<char>,
>
    decreases t.len() - pos,
{
    if 0 <= pos < t.len() {
        match t[pos] {
            TokenV::Keyword(Keyword::Primary) => match expect(t, pos + 1, TokenV::Keyword(Keyword::Key)) {
                Ok(_) => column_constraints(t, pos + 2, acc.push(ConstraintV::PrimaryKey)),
                Err(m) => Err(m),
            },
            TokenV::Keyword(Keyword::Not) => match expect(t, pos + 1, TokenV::Keyword(Keyword::Null)) {
                Ok(_) => column_constraints(t, pos + 2, acc.push(ConstraintV::NotNull)),
                Err(m) => Err(m),
            },
            TokenV::Keyword(Keyword::Check) => match expect(t, pos + 1, TokenV::LeftParentheses) {
                Ok(_) => match parse_expr(t, pos + 2, 0) {
                    Ok((e, p)) => if pos < p <= t.len() {
                        match expect(t, p, TokenV::RightParentheses) {
                            Ok(_) => column_constraints(t, p + 1, acc.push(ConstraintV::Check(e))),
                            Err(m) => Err(m),
                        }
                    } else {
                        Err("Unexpected end of input"@)
                    },
                    Err(m) => Err(m),
                },
                Err(m) => Err(m),
            },
            _ => Ok((acc, pos)),
        }
    } else {
        Ok((acc, pos))
    }
}

/// The column definitions from `pos` on, appended to `acc`, up to and
/// including the closing parenthesis.
pub open spec fn column_defs(t: Seq<TokenV>, pos: int, acc: Seq<ColumnV>) -> Result<(Seq<ColumnV>, int), Seq<char>>
    decreases t.len() - pos,
{
    if 0 <= pos < t.len() && t[pos] is Identifier {
        match type_spec(t, pos + 1) {
            Ok((ty, p1)) => match column_constraints(t, p1, Seq::empty()) {
                Ok((cs, p2)) => if pos < p2 < t.len() && (t[p2] == TokenV::Comma || t[p2] == TokenV::RightParentheses) {
                    let col = ColumnV { column_name: t[pos]->Identifier_0, column_type: ty, constraints: cs };
                    if t[p2] == TokenV::Comma {
                        column_defs(t, p2 + 1, acc.push(col))
                    } else {
                        Ok((acc.push(col), p2 + 1))
                    }
                } else {
                    Err("Expected ',' or ')'"@)
                },
                Err(m) => Err(m),
            },
            Err(m) => Err(m),
        }
    } else {
        Err("Expected column name"@)
    }
}

/// `CREATE TABLE <name> ( <columns> ) ;` at `pos`, and the position after it.
pub open spec fn create_table_statement(t: Seq<TokenV>, pos: int) -> Result<(StatementV, int), Seq<char>> {
    match expect(t, pos, TokenV::Keyword(Keyword::Create)) {
        Err(m) => Err(m),
        Ok(_) => match expect(t, pos + 1, TokenV::Keyword(Keyword::Table)) {
            Err(m) => Err(m),
            Ok(_) => if pos + 2 < t.len() && t[pos + 2] is Identifier {
                match expect(t, pos + 3, TokenV::LeftParentheses) {
                    Err(m) => Err(m),
                    Ok(_) => match column_defs(t, pos + 4, Seq::empty()) {
                        Err(m) => Err(m),
                        Ok((cols, p)) => match expect(t, p, TokenV::Semicolon) {
                            Err(m) => Err(m),
                            Ok(q) => Ok(
                                (
                                    StatementV::CreateTable {
                                        table_name: t[pos + 2]->Identifier_0,
                                        column_list: cols,
                                    },
                                    q,
                                ),
                            ),
                        },
                    },
                }
            } else {
                Err("Expected table name"@)
            },
        },
    }
}

/// The statement that a token sequence starts with.
pub open spec fn statement(t: Seq<TokenV>) -> Result<StatementV, Seq<char>> {
    let r = if t.len() > 0 && t[0] == TokenV::Keyword(Keyword::Select) {
        select_statement(t, 0)
    } else if t.len() > 0 && t[0] == TokenV::Keyword(Keyword::Create) {
        create_table_statement(t, 0)
    } else {
        Err("Unknown start of statement: "@ + found_text(t, 0))
    };
    match r {
        Ok((st, _)) => Ok(st),
        Err(m) => Err(m),
    }
}

/// What parsing a text gives: its statement, or the kind of error and its message.
pub open spec fn build(s: Seq<char>) -> Result<StatementV, (ErrorKind, Seq<char>)> {
    match tokenize(s) {
        Err(m) => Err((ErrorKind::Tokenizer, m)),
        Ok(t) => match statement(t) {
            Ok(st) => Ok(st),
            Err(m) => Err((ErrorKind::Parser, m)),
        },
    }
}

fn parser_error(msg: &str) -> (r: SQLError)
    ensures
        r is ParserError,
        r.message() == msg@,
{
    SQLError::ParserError(String::from_str(msg))
}

impl TokenStream {
    /// Consumes the next token, which must be `expected`.
    pub fn expect_token(&mut self, expected: Token) -> (r: Result<(), SQLError>)
        ensures
            final(self)@.0 == old(self)@.0,
            final(self)@.1 == if old(self)@.1 < old(self)@.0.len() {
                old(self)@.1 + 1
            } else {
                old(self)@.1
            },
            match expect(old(self)@.0, old(self)@.1, expected@) {
                Ok(p) => r is Ok && final(self)@.1 == p,
                Err(m) => r is Err && r->Err_0 is ParserError && r->Err_0.message() == m,
            },
            r is Err ==> mentions(r->Err_0.message(), token_text(expected@)),
    {
        proof {
            lemma_position_bounded(self);
        }
        let ghost found = found_text(self@.0, self@.1);
        let want = expected.describe();
        let seen = match self.next() {
            Some(t) => {
                if t == expected {
                    return Ok(());
                }
                t.describe()
            },
            None => String::from_str("end of input"),
        };
        assert(seen@ == found);
        let m = String::from_str("Expected ").concat(want.as_str()).concat(", found ").concat(seen.as_str());
        assert(m@ =~= expect_message(expected@, found));
        proof {
            lemma_mentions_middle("Expected "@, token_text(expected@), ", found "@ + found);
        }
        Err(SQLError::ParserError(m))
    }

    /// Consumes the next token, which must be the keyword `keyword`.
    pub fn expect_keyword(&mut self, keyword: Keyword) -> (r: Result<(), SQLError>)
        ensures
            final(self)@.0 == old(self)@.0,
            final(self)@.1 == if old(self)@.1 < old(self)@.0.len() {
                old(self)@.1 + 1
            } else {
                old(self)@.1
            },
            match expect(old(self)@.0, old(self)@.1, TokenV::Keyword(keyword)) {
                Ok(p) => r is Ok && final(self)@.1 == p,
                Err(m) => r is Err && r->Err_0 is ParserError && r->Err_0.message() == m,
            },
            r is Err ==> mentions(r->Err_0.message(), keyword_name(keyword)),
    {
        let ghost found = found_text(self@.0, self@.1);
        let r = self.expect_token(Token::Keyword(keyword));
        proof {
            let msg = expect_message(TokenV::Keyword(keyword), found);
            assert(msg =~= ("Expected "@ + "keyword "@) + keyword_name(keyword) + (", found "@ + found));
            lemma_mentions_middle("Expected "@ + "keyword "@, keyword_name(keyword), ", found "@ + found);
        }
        r
    }
}

/// Parses a comma-separated list of expressions, appending them to `items`.
fn parse_expression_list(stream: &mut TokenStream, items: &mut Vec<Expression>) -> (r: Result<(), SQLError>)
    ensures
        final(stream)@.0 == old(stream)@.0,
        match expr_list(old(stream)@.0, old(stream)@.1, exprs_view(old(items)@)) {
            Ok((es, p)) => r is Ok && exprs_view(final(items)@) == es && final(stream)@.1 == p,
            Err(m) => r is Err && r->Err_0 is ParserError && r->Err_0.message() == m,
        },
        r is Ok ==> old(stream)@.1 < final(stream)@.1 <= final(stream)@.0.len(),
{
    let ghost t = stream@.0;
    let ghost p0 = stream@.1;
    let ghost acc0 = exprs_view(items@);
    proof {
        lemma_position_bounded(stream);
    }
    loop
        invariant_except_break
            expr_list(t, p0, acc0) == expr_list(t, stream@.1, exprs_view(items@)),
        invariant
            t == old(stream)@.0,
            p0 == old(stream)@.1,
            acc0 == exprs_view(old(items)@),
            stream@.0 == t,
            p0 <= stream@.1 <= t.len(),
        ensures
            stream@.0 == t,
            p0 < stream@.1,
            expr_list(t, p0, acc0) == Ok::<(Seq<ExprV>, int), Seq<char>>((exprs_view(items@), stream@.1)),
        decreases t.len() - stream@.1,
    {
        let e = match parse_expression(stream, 0) {
            Ok(e) => e,
            Err(m) => return Err(SQLError::ParserError(m)),
        };
        let ghost ev = e@;
        assert(exprs_view(items@.push(e)) =~= exprs_view(items@).push(ev));
        items.push(e);
        match stream.peek() {
            Some(Token::Comma) => {
                stream.next();
            },
            _ => break,
        }
    }
    Ok(())
}

/// Parses `SELECT <exprs> FROM <table> [WHERE <expr>] [ORDER BY <exprs>] [;]`.
fn parse_select(stream: &mut TokenStream) -> (r: Result<Statement, SQLError>)
    ensures
        final(stream)@.0 == old(stream)@.0,
        match select_statement(old(stream)@.0, old(stream)@.1) {
            Ok((st, p)) => r is Ok && r->Ok_0@ == st && final(stream)@.1 == p,
            Err(m) => r is Err && r->Err_0 is ParserError && r->Err_0.message() == m,
        },
{
    let ghost t = stream@.0;
    let ghost p0 = stream@.1;
    match stream.expect_keyword(Keyword::Select) {
        Ok(()) => {},
        Err(e) => return Err(e),
    }
    let mut columns: Vec<Expression> = Vec::new();
    assert(exprs_view(columns@) =~= Seq::<ExprV>::empty());
    match parse_expression_list(stream, &mut columns) {
        Ok(()) => {},
        Err(e) => return Err(e),
    }
    match stream.expect_keyword(Keyword::From) {
        Ok(()) => {},
        Err(e) => return Err(e),
    }
    let from = match stream.next() {
        Some(Token::Identifier(name)) => name,
        _ => return Err(parser_error("Expected table name after FROM")),
    };
    let ghost start = stream@.1;
    let mut where_clause: Option<Expression> = None;
    let mut orderby: Vec<Expression> = Vec::new();
    assert(exprs_view(orderby@) =~= Seq::<ExprV>::empty());
    proof {
        lemma_position_bounded(stream);
    }
    loop
        invariant_except_break
            select_clauses(t, start, None, Seq::empty()) == select_clauses(
                t,
                stream@.1,
                option_expr_view(where_clause),
                exprs_view(orderby@),
            ),
        invariant
            t == old(stream)@.0,
            p0 == old(stream)@.1,
            stream@.0 == t,
            start <= stream@.1 <= t.len(),
            select_clauses(t, start, None, Seq::empty()) is Err ==> select_statement(t, p0) == Err::<
                (StatementV, int),
                Seq<char>,
            >(select_clauses(t, start, None, Seq::empty())->Err_0),
        ensures
            select_clauses(t, start, None, Seq::empty()) == Ok::<
                (Option<ExprV>, Seq<ExprV>, int),
                Seq<char>,
            >((option_expr_view(where_clause), exprs_view(orderby@), stream@.1)),
        decreases t.len() - stream@.1,
    {
        match stream.peek() {
            Some(Token::Keyword(Keyword::Where)) => {
                stream.next();
                let e = match parse_expression(stream, 0) {
                    Ok(e) => e,
                    Err(m) => return Err(SQLError::ParserError(m)),
                };
                where_clause = Some(e);
            },
            Some(Token::Keyword(Keyword::Order)) => {
                stream.next();
                match stream.expect_keyword(Keyword::By) {
                    Ok(()) => {},
                    Err(e) => return Err(e),
                }
                match parse_expression_list(stream, &mut orderby) {
                    Ok(()) => {},
                    Err(e) => return Err(e),
                }
            },
            Some(Token::Semicolon) => {
                stream.next();
                break;
            },
            Some(Token::Eof) => {
                stream.next();
                break;
            },
            _ => break,
        }
    }
    Ok(Statement::Select { columns, from, where_clause, orderby })
}

/// Parses `CREATE TABLE <name> ( <column> [, <column>]* ) ;`.
fn parse_create_table(stream: &mut TokenStream) -> (r: Result<Statement, SQLError>)
    ensures
        final(stream)@.0 == old(stream)@.0,
        match create_table_statement(old(stream)@.0, old(stream)@.1) {
            Ok((st, p)) => r is Ok && r->Ok_0@ == st && final(stream)@.1 == p,
            Err(m) => r is Err && r->Err_0 is ParserError && r->Err_0.message() == m,
        },
{
    let ghost t = stream@.0;
    let ghost p0 = stream@.1;
    match stream.expect_keyword(Keyword::Create) {
        Ok(()) => {},
        Err(e) => return Err(e),
    }
    match stream.expect_keyword(Keyword::Table) {
        Ok(()) => {},
        Err(e) => return Err(e),
    }
    let table_name = match stream.next() {
        Some(Token::Identifier(name)) => name,
        _ => return Err(parser_error("Expected table name")),
    };
    match stream.expect_token(Token::LeftParentheses) {
        Ok(()) => {},
        Err(e) => return Err(e),
    }
    let ghost start = stream@.1;
    let mut column_list: Vec<TableColumn> = Vec::new();
    assert(columns_view(column_list@) =~= Seq::<ColumnV>::empty());
    proof {
        lemma_position_bounded(stream);
    }
    loop
        invariant_except_break
            column_defs(t, start, Seq::empty()) == column_defs(
                t,
                stream@.1,
                columns_view(column_list@),
            ),
        invariant
            t == old(stream)@.0,
            p0 == old(stream)@.1,
            start == p0 + 4,
            stream@.0 == t,
            start <= stream@.1 <= t.len(),
            column_defs(t, start, Seq::empty()) is Err ==> create_table_statement(t, p0) == Err::<
                (StatementV, int),
                Seq<char>,
            >(column_defs(t, start, Seq::empty())->Err_0),
        ensures
            column_defs(t, start, Seq::empty()) == Ok::<(Seq<ColumnV>, int), Seq<char>>((columns_view(column_list@), stream@.1)),
        decreases t.len() - stream@.1,
    {
        let ghost q = stream@.1;
        let column_name = match stream.next() {
            Some(Token::Identifier(name)) => name,
            _ => return Err(parser_error("Expected column name")),
        };
        let column_type = match stream.next() {
            Some(Token::Keyword(Keyword::Int)) => DBType::Int,
            Some(Token::Keyword(Keyword::Bool)) => DBType::Bool,
            Some(Token::Keyword(Keyword::Varchar)) => {
                match stream.expect_token(Token::LeftParentheses) {
                    Ok(()) => {},
                    Err(e) => return Err(e),
                }
                let length = match stream.next() {
                    Some(Token::Number(n)) => n,
                    _ => return Err(parser_error("Expected VARCHAR length")),
                };
                match stream.expect_token(Token::RightParentheses) {
                    Ok(()) => {},
                    Err(e) => return Err(e),
                }
                DBType::Varchar(length as usize)
            },
            _ => return Err(parser_error("Expected column type")),
        };
        let ghost p1 = stream@.1;
        assert(type_spec(t, q + 1) == Ok::<(DBType, int), Seq<char>>((column_type, p1)));
        let mut constraints: Vec<Constraint> = Vec::new();
        assert(constraints_view(constraints@) =~= Seq::<ConstraintV>::empty());
        loop
            invariant_except_break
                column_constraints(t, p1, Seq::empty()) == column_constraints(
                    t,
                    stream@.1,
                    constraints_view(constraints@),
                ),
            invariant
                t == old(stream)@.0,
                p0 == old(stream)@.1,
                start == p0 + 4,
                stream@.0 == t,
                start <= q < p1 <= stream@.1 <= t.len(),
                type_spec(t, q + 1) == Ok::<(DBType, int), Seq<char>>((column_type, p1)),
                t[q] == TokenV::Identifier(column_name@),
                column_defs(t, start, Seq::empty()) == column_defs(t, q, columns_view(column_list@)),
                column_constraints(t, p1, Seq::empty()) is Err ==> column_defs(t, start, Seq::empty())
                    == Err::<(Seq<ColumnV>, int), Seq<char>>(column_constraints(t, p1, Seq::empty())->Err_0),
                column_defs(t, start, Seq::empty()) is Err ==> create_table_statement(t, p0) == Err::<
                    (StatementV, int),
                    Seq<char>,
                >(column_defs(t, start, Seq::empty())->Err_0),
            ensures
                column_constraints(t, p1, Seq::empty()) == Ok::<(Seq<ConstraintV>, int), Seq<char>>((constraints_view(constraints@), stream@.1)),
            decreases t.len() - stream@.1,
        {
            match stream.peek() {
                Some(Token::Keyword(Keyword::Primary)) => {
                    stream.next();
                    match stream.expect_keyword(Keyword::Key) {
                        Ok(()) => {},
                        Err(e) => return Err(e),
                    }
                    assert(constraints_view(constraints@.push(Constraint::PrimaryKey)) =~= constraints_view(
                        constraints@,
                    ).push(ConstraintV::PrimaryKey));
                    constraints.push(Constraint::PrimaryKey);
                },
                Some(Token::Keyword(Keyword::Not)) => {
                    stream.next();
                    match stream.expect_keyword(Keyword::Null) {
                        Ok(()) => {},
                        Err(e) => return Err(e),
                    }
                    assert(constraints_view(constraints@.push(Constraint::NotNull)) =~= constraints_view(
                        constraints@,
                    ).push(ConstraintV::NotNull));
                    constraints.push(Constraint::NotNull);
                },
                Some(Token::Keyword(Keyword::Check)) => {
                    stream.next();
                    match stream.expect_token(Token::LeftParentheses) {
                        Ok(()) => {},
                        Err(e) => return Err(e),
                    }
                    let e = match parse_expression(stream, 0) {
                        Ok(e) => e,
                        Err(m) => return Err(SQLError::ParserError(m)),
                    };
                    match stream.expect_token(Token::RightParentheses) {
                        Ok(()) => {},
                        Err(e) => return Err(e),
                    }
                    let c = Constraint::Check(e);
                    assert(constraints_view(constraints@.push(c)) =~= constraints_view(constraints@).push(c@));
                    constraints.push(c);
                },
                _ => break,
            }
        }
        let column = TableColumn { column_name, column_type, constraints };
        assert(columns_view(column_list@.push(column)) =~= columns_view(column_list@).push(column@));
        column_list.push(column);
        match stream.peek() {
            Some(Token::Comma) => {
                stream.next();
            },
            Some(Token::RightParentheses) => {
                stream.next();
                break;
            },
            _ => return Err(parser_error("Expected ',' or ')'")),
        }
    }
    match stream.expect_token(Token::Semicolon) {
        Ok(()) => {},
        Err(e) => return Err(e),
    }
    Ok(Statement::CreateTable { table_name, column_list })
}

/// Tokenizes `input` and parses the one statement it starts with.
pub fn build_statement(input: &str) -> (r: Result<Statement, SQLError>)
    ensures
        match r {
            Ok(st) => build(input@) == Ok::<StatementV, (ErrorKind, Seq<char>)>(st@),
            Err(e) => build(input@) == Err::<StatementV, (ErrorKind, Seq<char>)>((e.kind(), e.message())),
        },
{
    let tokens = match tokenize_string(input) {
        Ok(ts) => ts,
        Err(e) => return Err(e),
    };
    let mut stream = TokenStream::new(tokens);
    match stream.peek() {
        Some(Token::Keyword(Keyword::Select)) => parse_select(&mut stream),
        Some(Token::Keyword(Keyword::Create)) => parse_create_table(&mut stream),
        Some(other) => Err(
            SQLError::ParserError(String::from_str("Unknown start of statement: ").concat(other.describe().as_str())),
        ),
        None => Err(
            SQLError::ParserError(String::from_str("Unknown start of statement: ").concat("end of input")),
        ),
    }
}

} // verus!
