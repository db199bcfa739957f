use vstd::prelude::*;

use crate::ast::{Keyword, Token, TokenV, keyword_name, tokens_view};
use crate::errors::SQLError;

verus! {

pub open spec fn is_space(c: char) -> bool {
    c == ' ' || c == '\t' || c == '\n' || c == '\r'
}

pub open spec fn is_digit(c: char) -> bool {
    '0' <= c && c <= '9'
}

/// Whether std counts `c` as alphabetic (`char::is_alphabetic`).
pub uninterp spec fn alphabetic_of(c: char) -> bool;

/// Whether std counts `c` as alphanumeric (`char::is_alphanumeric`).
pub uninterp spec fn alphanumeric_of(c: char) -> bool;

/// The upper-case form of a text as std gives it (`str::to_uppercase`).
pub uninterp spec fn upper_of(s: Seq<char>) -> Seq<char>;

/// Relies on `char::is_alphabetic`: whether `c` has the Unicode Alphabetic
/// property, which every ASCII letter has.
#[verifier::external_body]
fn is_alphabetic(c: char) -> (r: bool)
    ensures
        r == alphabetic_of(c),
        ('a' <= c && c <= 'z') || ('A' <= c && c <= 'Z') ==> r,
{
    c.is_alphabetic()
}

/// Relies on `char::is_alphanumeric`: whether `c` is alphabetic or numeric,
/// so every alphabetic character is alphanumeric.
#[verifier::external_body]
fn is_alphanumeric(c: char) -> (r: bool)
    ensures
        r == alphanumeric_of(c),
        alphabetic_of(c) ==> r,
{
    c.is_alphanumeric()
}

/// Relies on `str::to_uppercase`: the upper-case form of `s`, which depends on
/// its characters alone.
#[verifier::external_body]
fn to_upper(s: &str) -> (r: String)
    ensures
        r@ == upper_of(s@),
{
    s.to_uppercase()
}

/// A word starts with a character that std counts as alphabetic.
pub open spec fn is_letter(c: char) -> bool {
    alphabetic_of(c)
}

/// A word goes on with characters that std counts as alphanumeric, and underscores.
pub open spec fn is_word_char(c: char) -> bool {
    alphanumeric_of(c) || c == '_'
}

/// The end of the run of digits that starts at `i`.
pub open spec fn digits_end(s: Seq<char>, i: int) -> int
    decreases s.len() - i,
{
    if 0 <= i < s.len() && is_digit(s[i]) {
        digits_end(s, i + 1)
    } else {
        i
    }
}

/// The end of the run of letters, digits and underscores that starts at `i`.
pub open spec fn word_end(s: Seq<char>, i: int) -> int
    decreases s.len() - i,
{
    if 0 <= i < s.len() && is_word_char(s[i]) {
        word_end(s, i + 1)
    } else {
        i
    }
}

/// The first position at or after `i` that holds `q`, or the length if none does.
pub open spec fn quote_end(s: Seq<char>, i: int, q: char) -> int
    decreases s.len() - i,
{
    if 0 <= i < s.len() && s[i] != q {
        quote_end(s, i + 1, q)
    } else {
        i
    }
}

pub open spec fn digit_value(c: char) -> int {
    (c as u32) - ('0' as u32)
}

/// The decimal value of a sequence of digits.
pub open spec fn number_value(d: Seq<char>) -> int
    decreases d.len(),
{
    if d.len() == 0 {
        0
    } else {
        number_value(d.drop_last()) * 10 + digit_value(d.last())
    }
}

/// The keywords in the order the tokenizer tries them.
pub open spec fn keyword_at(i: int) -> Keyword {
    if i == 0 { Keyword::Select }
    else if i == 1 { Keyword::From }
    else if i == 2 { Keyword::Where }
    else if i == 3 { Keyword::Order }
    else if i == 4 { Keyword::By }
    else if i == 5 { Keyword::Asc }
    else if i == 6 { Keyword::Desc }
    else if i == 7 { Keyword::And }
    else if i == 8 { Keyword::Or }
    else if i == 9 { Keyword::Not }
    else if i == 10 { Keyword::True }
    else if i == 11 { Keyword::False }
    else if i == 12 { Keyword::Create }
    else if i == 13 { Keyword::Table }
    else if i == 14 { Keyword::Primary }
    else if i == 15 { Keyword::Key }
    else if i == 16 { Keyword::Check }
    else if i == 17 { Keyword::Int }
    else if i == 18 { Keyword::Bool }
    else if i == 19 { Keyword::Varchar }
    else { Keyword::Null }
}

pub const KEYWORD_COUNT: usize = 21;

/// The first keyword, from position `i` of the table on, spelled `u`.
pub open spec fn find_keyword(u: Seq<char>, i: int) -> Option<Keyword>
    decreases KEYWORD_COUNT - i,
{
    if i < 0 || i >= KEYWORD_COUNT {
        None
    } else if u == keyword_name(keyword_at(i)) {
        Some(keyword_at(i))
    } else {
        find_keyword(u, i + 1)
    }
}

/// The token for a word, by its upper-case form: `TRUE` and `FALSE` are
/// booleans, other keywords are keywords, and anything else is an identifier
/// spelled as written.
pub open spec fn word_token(w: Seq<char>) -> TokenV {
    match find_keyword(upper_of(w), 0) {
        Some(Keyword::True) => TokenV::Bool(true),
        Some(Keyword::False) => TokenV::Bool(false),
        Some(k) => TokenV::Keyword(k),
        None => TokenV::Identifier(w),
    }
}

/// The token for a single-character symbol, if `c` is one.
pub open spec fn symbol_token(c: char) -> Option<TokenV> {
    if c == ',' { Some(TokenV::Comma) }
    else if c == ';' { Some(TokenV::Semicolon) }
    else if c == '(' { Some(TokenV::LeftParentheses) }
    else if c == ')' { Some(TokenV::RightParentheses) }
    else if c == '=' { Some(TokenV::Equal) }
    else if c == '+' { Some(TokenV::Plus) }
    else if c == '-' { Some(TokenV::Minus) }
    else if c == '*' { Some(TokenV::Multiply) }
    else if c == '/' { Some(TokenV::Divide) }
    else { None }
}

/// Tokenizes `s` from position `i` on, after the tokens `acc` already produced.
/// An error, with its message, stands for an invalid character, a `!` without
/// `=`, a string without its closing quote, or a number too large for 64 bits.
pub open spec fn lex(s: Seq<char>, i: int, acc: Seq<TokenV>) -> Result<Seq<TokenV>, Seq<char>>
    decreases s.len() - i,
{
    if i < 0 || i >= s.len() {
        Ok(acc.push(TokenV::Eof))
    } else {
        let c = s[i];
        let eq_next = i + 1 < s.len() && s[i + 1] == '=';
        if is_space(c) {
            lex(s, i + 1, acc)
        } else if symbol_token(c) is Some {
            lex(s, i + 1, acc.push(symbol_token(c)->0))
        } else if c == '>' {
            if eq_next {
                lex(s, i + 2, acc.push(TokenV::GreaterThanOrEqual))
            } else {
                lex(s, i + 1, acc.push(TokenV::GreaterThan))
            }
        } else if c == '<' {
            if eq_next {
                lex(s, i + 2, acc.push(TokenV::LessThanOrEqual))
            } else {
                lex(s, i + 1, acc.push(TokenV::LessThan))
            }
        } else if c == '!' {
            if eq_next {
                lex(s, i + 2, acc.push(TokenV::NotEqual))
            } else {
                Err("Unexpected '!' without '='"@)
            }
        } else if c == '"' || c == '\'' {
            let k = quote_end(s, i + 1, c);
            if i < k < s.len() {
                lex(s, k + 1, acc.push(TokenV::Str(s.subrange(i + 1, k))))
            } else {
                Err("Unterminated string literal"@)
            }
        } else if is_digit(c) {
            let k = digits_end(s, i);
            if i < k <= s.len() && number_value(s.subrange(i, k)) <= u64::MAX {
                lex(s, k, acc.push(TokenV::Number(number_value(s.subrange(i, k)) as u64)))
            } else {
                Err("Number literal too large"@)
            }
        } else if is_letter(c) {
            let k = word_end(s, i);
            if i < k <= s.len() {
                lex(s, k, acc.push(word_token(s.subrange(i, k))))
            } else {
                Err("Invalid character: "@ + seq![c])
            }
        } else {
            Err("Invalid character: "@ + seq![c])
        }
    }
}

/// The tokens of a whole text.
pub open spec fn tokenize(s: Seq<char>) -> Result<Seq<TokenV>, Seq<char>> {
    lex(s, 0, Seq::empty())
}

/// Keyword matching goes by the upper-case form: two words with the same
/// upper-case form (such as `select`, `SELECT` and `SeLeCt`) give the same
/// keyword or boolean token, and a word whose upper-case form is no keyword is
/// an identifier spelled as written.
pub proof fn lemma_keywords_by_upper_case(v: Seq<char>, w: Seq<char>)
    requires
        upper_of(v) == upper_of(w),
    ensures
        find_keyword(upper_of(v), 0) == find_keyword(upper_of(w), 0),
        find_keyword(upper_of(v), 0) is Some ==> word_token(v) == word_token(w),
        find_keyword(upper_of(v), 0) is None ==> word_token(v) == TokenV::Identifier(v)
            && word_token(w) == TokenV::Identifier(w),
{
}

/// The token a keyword's spelling gives: a boolean for `TRUE` and `FALSE`, the
/// keyword itself otherwise.
pub open spec fn keyword_token(k: Keyword) -> TokenV {
    match k {
        Keyword::True => TokenV::Bool(true),
        Keyword::False => TokenV::Bool(false),
        _ => TokenV::Keyword(k),
    }
}

/// The position of a keyword in the tokenizer's table.
pub open spec fn keyword_index(k: Keyword) -> int {
    match k {
        Keyword::Select => 0,
        Keyword::From => 1,
        Keyword::Where => 2,
        Keyword::Order => 3,
        Keyword::By => 4,
        Keyword::Asc => 5,
        Keyword::Desc => 6,
        Keyword::And => 7,
        Keyword::Or => 8,
        Keyword::Not => 9,
        Keyword::True => 10,
        Keyword::False => 11,
        Keyword::Create => 12,
        Keyword::Table => 13,
        Keyword::Primary => 14,
        Keyword::Key => 15,
        Keyword::Check => 16,
        Keyword::Int => 17,
        Keyword::Bool => 18,
        Keyword::Varchar => 19,
        Keyword::Null => 20,
    }
}

/// The length, first and last letters of a keyword's spelling, which tell
/// the keywords apart.
spec fn keyword_shape(k: Keyword) -> (int, char, char) {
    match k {
        Keyword::Select => (6, 'S', 'T'),
        Keyword::Create => (6, 'C', 'E'),
        Keyword::Table => (5, 'T', 'E'),
        Keyword::Where => (5, 'W', 'E'),
        Keyword::Order => (5, 'O', 'R'),
        Keyword::By => (2, 'B', 'Y'),
        Keyword::Asc => (3, 'A', 'C'),
        Keyword::Desc => (4, 'D', 'C'),
        Keyword::From => (4, 'F', 'M'),
        Keyword::And => (3, 'A', 'D'),
        Keyword::Or => (2, 'O', 'R'),
        Keyword::Not => (3, 'N', 'T'),
        Keyword::True => (4, 'T', 'E'),
        Keyword::False => (5, 'F', 'E'),
        Keyword::Primary => (7, 'P', 'Y'),
        Keyword::Key => (3, 'K', 'Y'),
        Keyword::Check => (5, 'C', 'K'),
        Keyword::Int => (3, 'I', 'T'),
        Keyword::Bool => (4, 'B', 'L'),
        Keyword::Varchar => (7, 'V', 'R'),
        Keyword::Null => (4, 'N', 'L'),
    }
}

proof fn lemma_keyword_shape(k: Keyword)
    ensures
        keyword_shape(k) == (keyword_name(k).len() as int, keyword_name(k)[0], keyword_name(k)[keyword_name(k).len() - 1]),
{
}

proof fn lemma_keyword_names_distinct(a: Keyword, b: Keyword)
    requires
        keyword_name(a) == keyword_name(b),
    ensures
        a == b,
{
    lemma_keyword_shape(a);
    lemma_keyword_shape(b);
}

proof fn lemma_find_keyword_name(k: Keyword, i: int)
    requires
        0 <= i <= keyword_index(k),
    ensures
        find_keyword(keyword_name(k), i) == Some(k),
    decreases keyword_index(k) - i,
{
    if keyword_name(keyword_at(i)) == keyword_name(k) {
        lemma_keyword_names_distinct(keyword_at(i), k);
    } else {
        assert(i != keyword_index(k));
        lemma_find_keyword_name(k, i + 1);
    }
}

/// A word whose upper-case form spells a keyword is that keyword's token.
pub proof fn lemma_upper_case_keyword(w: Seq<char>, k: Keyword)
    requires
        upper_of(w) == keyword_name(k),
    ensures
        word_token(w) == keyword_token(k),
{
    lemma_find_keyword_name(k, 0);
}

/// No token in `ts` is the end-of-input marker.
pub open spec fn no_eof(ts: Seq<TokenV>) -> bool {
    forall|j: int| 0 <= j < ts.len() ==> #[trigger] ts[j] != TokenV::Eof
}

/// `ts` ends with the end-of-input marker, and holds no other.
pub open spec fn ends_with_single_eof(ts: Seq<TokenV>) -> bool {
    ts.len() >= 1 && ts.last() == TokenV::Eof && no_eof(ts.drop_last())
}

proof fn lemma_push_keeps_no_eof(acc: Seq<TokenV>, t: TokenV)
    requires
        no_eof(acc),
        t != TokenV::Eof,
    ensures
        no_eof(acc.push(t)),
{
    assert forall|j: int| 0 <= j < acc.push(t).len() implies #[trigger] acc.push(t)[j] != TokenV::Eof by {
        if j < acc.len() {
            assert(acc.push(t)[j] == acc[j]);
        }
    }
}

proof fn lemma_lex_single_eof(s: Seq<char>, i: int, acc: Seq<TokenV>)
    requires
        no_eof(acc),
    ensures
        lex(s, i, acc) is Ok ==> ends_with_single_eof(lex(s, i, acc)->Ok_0),
    decreases s.len() - i,
{
    if i < 0 || i >= s.len() {
        assert(acc.push(TokenV::Eof).drop_last() =~= acc);
    } else {
        let c = s[i];
        let eq_next = i + 1 < s.len() && s[i + 1] == '=';
        if is_space(c) {
            lemma_lex_single_eof(s, i + 1, acc);
        } else if symbol_token(c) is Some {
            lemma_push_keeps_no_eof(acc, symbol_token(c)->0);
            lemma_lex_single_eof(s, i + 1, acc.push(symbol_token(c)->0));
        } else if c == '>' {
            if eq_next {
                lemma_push_keeps_no_eof(acc, TokenV::GreaterThanOrEqual);
                lemma_lex_single_eof(s, i + 2, acc.push(TokenV::GreaterThanOrEqual));
            } else {
                lemma_push_keeps_no_eof(acc, TokenV::GreaterThan);
                lemma_lex_single_eof(s, i + 1, acc.push(TokenV::GreaterThan));
            }
        } else if c == '<' {
            if eq_next {
                lemma_push_keeps_no_eof(acc, TokenV::LessThanOrEqual);
                lemma_lex_single_eof(s, i + 2, acc.push(TokenV::LessThanOrEqual));
            } else {
                lemma_push_keeps_no_eof(acc, TokenV::LessThan);
                lemma_lex_single_eof(s, i + 1, acc.push(TokenV::LessThan));
            }
        } else if c == '!' {
            if eq_next {
                lemma_push_keeps_no_eof(acc, TokenV::NotEqual);
                lemma_lex_single_eof(s, i + 2, acc.push(TokenV::NotEqual));
            }
        } else if c == '"' || c == '\'' {
            let k = quote_end(s, i + 1, c);
            if i < k < s.len() {
                lemma_push_keeps_no_eof(acc, TokenV::Str(s.subrange(i + 1, k)));
                lemma_lex_single_eof(s, k + 1, acc.push(TokenV::Str(s.subrange(i + 1, k))));
            }
        } else if is_digit(c) {
            let k = digits_end(s, i);
            if i < k <= s.len() && number_value(s.subrange(i, k)) <= u64::MAX {
                let t = TokenV::Number(number_value(s.subrange(i, k)) as u64);
                lemma_push_keeps_no_eof(acc, t);
                lemma_lex_single_eof(s, k, acc.push(t));
            }
        } else if is_letter(c) {
            let k = word_end(s, i);
            if i < k <= s.len() {
                let t = word_token(s.subrange(i, k));
                lemma_push_keeps_no_eof(acc, t);
                lemma_lex_single_eof(s, k, acc.push(t));
            }
        }
    }
}

/// Every token sequence that the tokenizer produces ends with the end-of-input
/// marker, and no end-of-input marker appears before the last token.
pub proof fn lemma_tokens_end_with_single_eof(s: Seq<char>)
    ensures
        tokenize(s) is Ok ==> ends_with_single_eof(tokenize(s)->Ok_0),
{
    lemma_lex_single_eof(s, 0, Seq::empty());
}

proof fn lemma_push_view(ts: Seq<Token>, t: Token)
    ensures
        tokens_view(ts.push(t)) == tokens_view(ts).push(t@),
{
    assert(tokens_view(ts.push(t)) =~= tokens_view(ts).push(t@));
}

fn chars_of(input: &str) -> (r: Vec<char>)
    ensures
        r@ == input@,
{
    let n = input.unicode_len();
    let mut r: Vec<char> = Vec::new();
    let mut i: usize = 0;
    while i < n
        invariant
            n == input@.len(),
            i <= n,
            r@ == input@.subrange(0, i as int),
        decreases n - i,
    {
        r.push(input.get_char(i));
        i = i + 1;
        assert(r@ =~= input@.subrange(0, i as int));
    }
    assert(r@ =~= input@);
    r
}

fn keyword_at_index(i: usize) -> (k: Keyword)
    requires
        i < KEYWORD_COUNT,
    ensures
        k == keyword_at(i as int),
{
    match i {
        0 => Keyword::Select,
        1 => Keyword::From,
        2 => Keyword::Where,
        3 => Keyword::Order,
        4 => Keyword::By,
        5 => Keyword::Asc,
        6 => Keyword::Desc,
        7 => Keyword::And,
        8 => Keyword::Or,
        9 => Keyword::Not,
        10 => Keyword::True,
        11 => Keyword::False,
        12 => Keyword::Create,
        13 => Keyword::Table,
        14 => Keyword::Primary,
        15 => Keyword::Key,
        16 => Keyword::Check,
        17 => Keyword::Int,
        18 => Keyword::Bool,
        19 => Keyword::Varchar,
        _ => Keyword::Null,
    }
}

fn keyword_text(k: Keyword) -> (r: Vec<char>)
    ensures
        r@ == keyword_name(k),
{
    match k {
        Keyword::Select => vec!['S', 'E', 'L', 'E', 'C', 'T'],
        Keyword::Create => vec!['C', 'R', 'E', 'A', 'T', 'E'],
        Keyword::Table => vec!['T', 'A', 'B', 'L', 'E'],
        Keyword::Where => vec!['W', 'H', 'E', 'R', 'E'],
        Keyword::Order => vec!['O', 'R', 'D', 'E', 'R'],
        Keyword::By => vec!['B', 'Y'],
        Keyword::Asc => vec!['A', 'S', 'C'],
        Keyword::Desc => vec!['D', 'E', 'S', 'C'],
        Keyword::From => vec!['F', 'R', 'O', 'M'],
        Keyword::And => vec!['A', 'N', 'D'],
        Keyword::Or => vec!['O', 'R'],
        Keyword::Not => vec!['N', 'O', 'T'],
        Keyword::True => vec!['T', 'R', 'U', 'E'],
        Keyword::False => vec!['F', 'A', 'L', 'S', 'E'],
        Keyword::Primary => vec!['P', 'R', 'I', 'M', 'A', 'R', 'Y'],
        Keyword::Key => vec!['K', 'E', 'Y'],
        Keyword::Check => vec!['C', 'H', 'E', 'C', 'K'],
        Keyword::Int => vec!['I', 'N', 'T'],
        Keyword::Bool => vec!['B', 'O', 'O', 'L'],
        Keyword::Varchar => vec!['V', 'A', 'R', 'C', 'H', 'A', 'R'],
        Keyword::Null => vec!['N', 'U', 'L', 'L'],
    }
}

/// Whether `u` and `name` hold the same characters.
fn same_chars(u: &Vec<char>, name: &Vec<char>) -> (r: bool)
    ensures
        r == (u@ == name@),
{
    if u.len() != name.len() {
        return false;
    }
    let mut j: usize = 0;
    while j < name.len()
        invariant
            u@.len() == name@.len(),
            j <= name@.len(),
            forall|m: int| 0 <= m < j ==> u@[m] == name@[m],
        decreases name@.len() - j,
    {
        if u[j] != name[j] {
            return false;
        }
        j = j + 1;
    }
    assert(u@ =~= name@);
    true
}

fn lookup_keyword(u: &Vec<char>) -> (r: Option<Keyword>)
    ensures
        r == find_keyword(u@, 0),
{
    let mut i: usize = 0;
    while i < KEYWORD_COUNT
        invariant
            i <= KEYWORD_COUNT,
            find_keyword(u@, 0) == find_keyword(u@, i as int),
        decreases KEYWORD_COUNT - i,
    {
        let k = keyword_at_index(i);
        let name = keyword_text(k);
        if same_chars(u, &name) {
            return Some(k);
        }
        i = i + 1;
    }
    None
}

fn symbol(c: char) -> (r: Option<Token>)
    ensures
        r is Some == symbol_token(c) is Some,
        r is Some ==> r->0@ == symbol_token(c)->0,
{
    match c {
        ',' => Some(Token::Comma),
        ';' => Some(Token::Semicolon),
        '(' => Some(Token::LeftParentheses),
        ')' => Some(Token::RightParentheses),
        '=' => Some(Token::Equal),
        '+' => Some(Token::Plus),
        '-' => Some(Token::Minus),
        '*' => Some(Token::Multiply),
        '/' => Some(Token::Divide),
        _ => None,
    }
}

fn tokenizer_error(msg: &str) -> (r: SQLError)
    ensures
        r is TokenizerError,
        r.message() == msg@,
{
    SQLError::TokenizerError(String::from_str(msg))
}


fn is_word_char_exec(c: char) -> (r: bool)
    ensures
        r == is_word_char(c),
        alphabetic_of(c) ==> r,
{
    is_alphanumeric(c) || c == '_'
}

/// Splits `input` into tokens, ending with `Token::Eof`.
pub fn tokenize_string(input: &str) -> (r: Result<Vec<Token>, SQLError>)
    ensures
        match tokenize(input@) {
            Ok(ts) => r is Ok && tokens_view(r->Ok_0@) == ts,
            Err(m) => r is Err && r->Err_0 is TokenizerError && r->Err_0.message() == m,
        },
{
    let cs = chars_of(input);
    let n = cs.len();
    let mut tokens: Vec<Token> = Vec::new();
    let mut i: usize = 0;
    assert(tokens_view(tokens@) =~= Seq::<TokenV>::empty());
    while i < n
        invariant
            n == cs@.len(),
            cs@ == input@,
            i <= n,
            tokenize(input@) == lex(cs@, i as int, tokens_view(tokens@)),
        decreases n - i,
    {
        let c = cs[i];
        let eq_next = i + 1 < n && cs[i + 1] == '=';
        let sym = symbol(c);
        if c == ' ' || c == '\t' || c == '\n' || c == '\r' {
            i = i + 1;
        } else if sym.is_some() {
            let t = sym.unwrap();
            proof {
                lemma_push_view(tokens@, t);
            }
            tokens.push(t);
            i = i + 1;
        } else if c == '>' || c == '<' || c == '!' {
            let t = if eq_next {
                if c == '>' {
                    Token::GreaterThanOrEqual
                } else if c == '<' {
                    Token::LessThanOrEqual
                } else {
                    Token::NotEqual
                }
            } else if c == '>' {
                Token::GreaterThan
            } else if c == '<' {
                Token::LessThan
            } else {
                return Err(tokenizer_error("Unexpected '!' without '='"));
            };
            proof {
                lemma_push_view(tokens@, t);
            }
            tokens.push(t);
            i = if eq_next {
                i + 2
            } else {
                i + 1
            };
        } else if c == '"' || c == '\'' {
            let mut j: usize = i + 1;
            while j < n && cs[j] != c
                invariant
                    n == cs@.len(),
                    i < j <= n,
                    quote_end(cs@, i + 1, c) == quote_end(cs@, j as int, c),
                decreases n - j,
            {
                j = j + 1;
            }
            if j >= n {
                return Err(tokenizer_error("Unterminated string literal"));
            }
            let t = Token::String(String::from_str(input.substring_char(i + 1, j)));
            proof {
                lemma_push_view(tokens@, t);
            }
            tokens.push(t);
            i = j + 1;
        } else if '0' <= c && c <= '9' {
            let mut j: usize = i;
            let mut v: u64 = 0;
            let mut overflow = false;
            assert(cs@.subrange(i as int, i as int) =~= Seq::<char>::empty());
            while j < n && '0' <= cs[j] && cs[j] <= '9'
                invariant
                    n == cs@.len(),
                    i <= j <= n,
                    digits_end(cs@, i as int) == digits_end(cs@, j as int),
                    number_value(cs@.subrange(i as int, j as int)) >= 0,
                    overflow ==> number_value(cs@.subrange(i as int, j as int)) > u64::MAX,
                    !overflow ==> number_value(cs@.subrange(i as int, j as int)) == v,
                decreases n - j,
            {
                let d = ((cs[j] as u32) - ('0' as u32)) as u64;
                let ghost before = number_value(cs@.subrange(i as int, j as int));
                assert(cs@.subrange(i as int, j + 1).drop_last() =~= cs@.subrange(i as int, j as int));
                assert(number_value(cs@.subrange(i as int, j + 1)) == before * 10 + d);
                if overflow {
                    assert(before * 10 + d > u64::MAX) by (nonlinear_arith)
                        requires before > u64::MAX, d >= 0;
                } else {
                    match v.checked_mul(10) {
                        Some(m) => match m.checked_add(d) {
                            Some(x) => {
                                v = x;
                            },
                            None => {
                                overflow = true;
                            },
                        },
                        None => {
                            overflow = true;
                        },
                    }
                }
                j = j + 1;
            }
            if overflow {
                return Err(tokenizer_error("Number literal too large"));
            }
            let t = Token::Number(v);
            proof {
                lemma_push_view(tokens@, t);
            }
            tokens.push(t);
            i = j;
        } else if is_alphabetic(c) {
            let mut j: usize = i;
            while j < n && is_word_char_exec(cs[j])
                invariant
                    n == cs@.len(),
                    i <= j <= n,
                    word_end(cs@, i as int) == word_end(cs@, j as int),
                decreases n - j,
            {
                j = j + 1;
            }
            let word = input.substring_char(i, j);
            let upper = to_upper(word);
            let letters = chars_of(upper.as_str());
            let t = match lookup_keyword(&letters) {
                Some(Keyword::True) => Token::Bool(true),
                Some(Keyword::False) => Token::Bool(false),
                Some(k) => Token::Keyword(k),
                None => Token::Identifier(String::from_str(word)),
            };
            proof {
                lemma_push_view(tokens@, t);
            }
            tokens.push(t);
            i = j;
        } else {
            let bad = input.substring_char(i, i + 1);
            assert(bad@ =~= seq![c]);
            return Err(SQLError::TokenizerError(String::from_str("Invalid character: ").concat(bad)));
        }
    }
    let eof = Token::Eof;
    proof {
        lemma_push_view(tokens@, eof);
    }
    tokens.push(eof);
    Ok(tokens)
}

} // verus!
