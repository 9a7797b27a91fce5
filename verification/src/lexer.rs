//! The lexer: from the bytes of a definition file to its tokens.
//!
//! Tokens are separated by optional white space (space, tab, line feed,
//! carriage return). An identifier is a letter or an underscore followed by
//! letters, digits and underscores. A number is a run of digits, or two runs
//! joined by a dot. `packet`, `when` and `else` are keywords; `sum-of` and
//! `product-of` are single tokens.

use crate::text::{ascii_string, ascii_text};
use vstd::prelude::*;
use vstd::string::*;

verus! {

/// The byte of a tab.
pub const TAB: u8 = 9;

/// The byte of a line feed.
pub const LINE_FEED: u8 = 10;

/// The byte of a carriage return.
pub const CARRIAGE_RETURN: u8 = 13;

/// The byte of a space.
pub const SPACE: u8 = 32;

/// The byte of `!`.
pub const BANG: u8 = 33;

/// The byte of `&`.
pub const AMPERSAND: u8 = 38;

/// The byte of `(`.
pub const LEFT_PAREN: u8 = 40;

/// The byte of `)`.
pub const RIGHT_PAREN: u8 = 41;

/// The byte of `*`.
pub const STAR: u8 = 42;

/// The byte of `+`.
pub const PLUS: u8 = 43;

/// The byte of `,`.
pub const COMMA: u8 = 44;

/// The byte of `-`.
pub const MINUS: u8 = 45;

/// The byte of `.`.
pub const DOT: u8 = 46;

/// The byte of `/`.
pub const SLASH: u8 = 47;

/// The byte of the digit `0`.
pub const DIGIT_ZERO: u8 = 48;

/// The byte of the digit `9`.
pub const DIGIT_NINE: u8 = 57;

/// The byte of `:`.
pub const COLON: u8 = 58;

/// The byte of `<`.
pub const LESS: u8 = 60;

/// The byte of `=`.
pub const EQUALS: u8 = 61;

/// The byte of `>`.
pub const GREATER: u8 = 62;

/// The byte of the letter `A`.
pub const UPPER_A: u8 = 65;

/// The byte of the letter `Z`.
pub const UPPER_Z: u8 = 90;

/// The byte of `[`.
pub const LEFT_BRACKET: u8 = 91;

/// The byte of `]`.
pub const RIGHT_BRACKET: u8 = 93;

/// The byte of `^`.
pub const CARET: u8 = 94;

/// The byte of `_`.
pub const UNDERSCORE: u8 = 95;

/// The byte of the letter `a`.
pub const LOWER_A: u8 = 97;

/// The byte of the letter `f`.
pub const LOWER_F: u8 = 102;

/// The byte of the letter `o`.
pub const LOWER_O: u8 = 111;

/// The byte of the letter `z`.
pub const LOWER_Z: u8 = 122;

/// The byte of `{`.
pub const LEFT_BRACE: u8 = 123;

/// The byte of `|`.
pub const PIPE: u8 = 124;

/// The byte of `}`.
pub const RIGHT_BRACE: u8 = 125;

/// The kinds of token.
#[derive(Debug, Clone, Copy, PartialEq, Eq, Structural)]
pub enum TokenKind {
    Identifier,
    Integer,
    Decimal,
    KeywordPacket,
    KeywordWhen,
    KeywordElse,
    SumOf,
    ProductOf,
    LeftBrace,
    RightBrace,
    LeftBracket,
    RightBracket,
    LeftParen,
    RightParen,
    Colon,
    Comma,
    Assign,
    Plus,
    Minus,
    Star,
    Slash,
    Caret,
    Greater,
    GreaterEqual,
    Less,
    LessEqual,
    EqualEqual,
    NotEqual,
    AndAnd,
    OrOr,
    EndOfInput,
}

/// A token: its kind and the bytes `start..end` of the input that it covers.
#[derive(Debug, Clone, Copy, PartialEq, Eq, Structural)]
pub struct Token {
    pub kind: TokenKind,
    pub start: usize,
    pub end: usize,
}

/// Whether `b` is white space.
pub open spec fn is_space(b: u8) -> bool {
    b == SPACE || b == TAB || b == LINE_FEED || b == CARRIAGE_RETURN
}

/// Whether `b` is a decimal digit.
pub open spec fn is_digit(b: u8) -> bool {
    DIGIT_ZERO <= b <= DIGIT_NINE
}

/// Whether an identifier can start with `b`: a letter or an underscore.
pub open spec fn is_identifier_start(b: u8) -> bool {
    (LOWER_A <= b <= LOWER_Z) || (UPPER_A <= b <= UPPER_Z) || b == UNDERSCORE
}

/// Whether an identifier can go on with `b`: a letter, an underscore or a
/// digit.
pub open spec fn is_identifier_part(b: u8) -> bool {
    is_identifier_start(b) || is_digit(b)
}

/// First position from `pos` on that holds no white space.
pub open spec fn skip_spaces(input: Seq<u8>, pos: int) -> int
    decreases input.len() - pos,
{
    if 0 <= pos < input.len() && is_space(input[pos]) {
        skip_spaces(input, pos + 1)
    } else {
        pos
    }
}

/// First position from `pos` on that holds no identifier character.
pub open spec fn identifier_end(input: Seq<u8>, pos: int) -> int
    decreases input.len() - pos,
{
    if 0 <= pos < input.len() && is_identifier_part(input[pos]) {
        identifier_end(input, pos + 1)
    } else {
        pos
    }
}

/// First position from `pos` on that holds no digit.
pub open spec fn digits_end(input: Seq<u8>, pos: int) -> int
    decreases input.len() - pos,
{
    if 0 <= pos < input.len() && is_digit(input[pos]) {
        digits_end(input, pos + 1)
    } else {
        pos
    }
}

/// The byte at `pos`, if there is one.
pub open spec fn byte_at(input: Seq<u8>, pos: int) -> Option<u8> {
    if 0 <= pos < input.len() {
        Some(input[pos])
    } else {
        None
    }
}

/// The input has `-of` at `pos`, and no identifier character after it.
pub open spec fn of_suffix_at(input: Seq<u8>, pos: int) -> bool {
    &&& byte_at(input, pos) == Some(MINUS)
    &&& byte_at(input, pos + 1) == Some(LOWER_O)
    &&& byte_at(input, pos + 2) == Some(LOWER_F)
    &&& match byte_at(input, pos + 3) {
        Some(b) => !is_identifier_part(b),
        None => true,
    }
}

/// The token that starts with the identifier characters `start..end`.
pub open spec fn word_token(input: Seq<u8>, start: int, end: int) -> Token {
    let text = ascii_text(input.subrange(start, end));
    if text == "sum"@ && of_suffix_at(input, end) {
        Token { kind: TokenKind::SumOf, start: start as usize, end: (end + 3) as usize }
    } else if text == "product"@ && of_suffix_at(input, end) {
        Token { kind: TokenKind::ProductOf, start: start as usize, end: (end + 3) as usize }
    } else if text == "packet"@ {
        Token { kind: TokenKind::KeywordPacket, start: start as usize, end: end as usize }
    } else if text == "when"@ {
        Token { kind: TokenKind::KeywordWhen, start: start as usize, end: end as usize }
    } else if text == "else"@ {
        Token { kind: TokenKind::KeywordElse, start: start as usize, end: end as usize }
    } else {
        Token { kind: TokenKind::Identifier, start: start as usize, end: end as usize }
    }
}

/// The number token that starts at `start`: digits, and a dot with more
/// digits where they follow.
pub open spec fn number_token(input: Seq<u8>, start: int) -> Token {
    let whole = digits_end(input, start);
    if byte_at(input, whole) == Some(DOT) && match byte_at(input, whole + 1) {
        Some(b) => is_digit(b),
        None => false,
    } {
        Token {
            kind: TokenKind::Decimal,
            start: start as usize,
            end: digits_end(input, whole + 1) as usize,
        }
    } else {
        Token { kind: TokenKind::Integer, start: start as usize, end: whole as usize }
    }
}

/// The kind of the operator or bracket that starts with `first`, and its
/// length; `second` is the byte after it.
pub open spec fn symbol(first: u8, second: Option<u8>) -> Option<(TokenKind, int)> {
    if first == GREATER && second == Some(EQUALS) {
        Some((TokenKind::GreaterEqual, 2))
    } else if first == LESS && second == Some(EQUALS) {
        Some((TokenKind::LessEqual, 2))
    } else if first == EQUALS && second == Some(EQUALS) {
        Some((TokenKind::EqualEqual, 2))
    } else if first == BANG && second == Some(EQUALS) {
        Some((TokenKind::NotEqual, 2))
    } else if first == AMPERSAND && second == Some(AMPERSAND) {
        Some((TokenKind::AndAnd, 2))
    } else if first == PIPE && second == Some(PIPE) {
        Some((TokenKind::OrOr, 2))
    } else if first == LEFT_BRACE {
        Some((TokenKind::LeftBrace, 1))
    } else if first == RIGHT_BRACE {
        Some((TokenKind::RightBrace, 1))
    } else if first == LEFT_BRACKET {
        Some((TokenKind::LeftBracket, 1))
    } else if first == RIGHT_BRACKET {
        Some((TokenKind::RightBracket, 1))
    } else if first == LEFT_PAREN {
        Some((TokenKind::LeftParen, 1))
    } else if first == RIGHT_PAREN {
        Some((TokenKind::RightParen, 1))
    } else if first == COLON {
        Some((TokenKind::Colon, 1))
    } else if first == COMMA {
        Some((TokenKind::Comma, 1))
    } else if first == EQUALS {
        Some((TokenKind::Assign, 1))
    } else if first == PLUS {
        Some((TokenKind::Plus, 1))
    } else if first == MINUS {
        Some((TokenKind::Minus, 1))
    } else if first == STAR {
        Some((TokenKind::Star, 1))
    } else if first == SLASH {
        Some((TokenKind::Slash, 1))
    } else if first == CARET {
        Some((TokenKind::Caret, 1))
    } else if first == GREATER {
        Some((TokenKind::Greater, 1))
    } else if first == LESS {
        Some((TokenKind::Less, 1))
    } else {
        None
    }
}

/// The token that starts at `pos`, where a token starts there.
pub open spec fn token_at(input: Seq<u8>, pos: int) -> Option<Token>
    recommends
        0 <= pos < input.len(),
{
    if is_identifier_start(input[pos]) {
        Some(word_token(input, pos, identifier_end(input, pos)))
    } else if is_digit(input[pos]) {
        Some(number_token(input, pos))
    } else {
        match symbol(input[pos], byte_at(input, pos + 1)) {
            Some((kind, length)) => Some(
                Token { kind, start: pos as usize, end: (pos + length) as usize },
            ),
            None => None,
        }
    }
}

/// The token lies in the input, covers ASCII bytes only, and covers digits
/// only where it is an integer.
pub open spec fn token_ok(input: Seq<u8>, token: Token) -> bool {
    &&& token.start <= token.end <= input.len()
    &&& forall|i: int| token.start <= i < token.end ==> input[i] < 128
    &&& token.kind == TokenKind::Integer ==> forall|i: int|
        token.start <= i < token.end ==> is_digit(input[i])
}

/// Every token is well placed, and the end-of-input token is the last one and
/// only the last one.
pub open spec fn tokens_ok(input: Seq<u8>, tokens: Seq<Token>) -> bool {
    &&& tokens.len() > 0
    &&& tokens.last().kind == TokenKind::EndOfInput
    &&& forall|i: int| 0 <= i < tokens.len() ==> token_ok(input, #[trigger] tokens[i])
    &&& forall|i: int|
        0 <= i < tokens.len() - 1 ==> (#[trigger] tokens[i]).kind != TokenKind::EndOfInput
}

/// The outcome of lexing: the tokens, or the offset of a byte with which no
/// token starts.
pub enum Lexed {
    Tokens(Seq<Token>),
    Stray(int),
}

/// The tokens of the input from `pos` on, closed by the end-of-input token.
pub open spec fn tokens_from(input: Seq<u8>, pos: int) -> Lexed
    decreases input.len() - pos,
{
    let start = skip_spaces(input, pos);
    if 0 <= pos <= start < input.len() {
        match token_at(input, start) {
            Some(token) => {
                if start < token.end <= input.len() {
                    match tokens_from(input, token.end as int) {
                        Lexed::Tokens(rest) => Lexed::Tokens(seq![token] + rest),
                        Lexed::Stray(at) => Lexed::Stray(at),
                    }
                } else {
                    Lexed::Stray(start)
                }
            },
            None => Lexed::Stray(start),
        }
    } else {
        Lexed::Tokens(
            seq![
                Token {
                    kind: TokenKind::EndOfInput,
                    start: input.len() as usize,
                    end: input.len() as usize,
                },
            ],
        )
    }
}

/// The tokens of the whole input.
pub open spec fn tokens_of(input: Seq<u8>) -> Lexed {
    tokens_from(input, 0)
}

/// An identifier ends in the input, and holds identifier characters only.
proof fn lemma_identifier_end_bounds(input: Seq<u8>, pos: int)
    requires
        0 <= pos <= input.len(),
    ensures
        pos <= identifier_end(input, pos) <= input.len(),
        forall|i: int| pos <= i < identifier_end(input, pos) ==> is_identifier_part(input[i]),
    decreases input.len() - pos,
{
    if pos < input.len() && is_identifier_part(input[pos]) {
        lemma_identifier_end_bounds(input, pos + 1);
    }
}

/// A run of digits ends in the input, and holds digits only.
proof fn lemma_digits_end_bounds(input: Seq<u8>, pos: int)
    requires
        0 <= pos <= input.len(),
    ensures
        pos <= digits_end(input, pos) <= input.len(),
        forall|i: int| pos <= i < digits_end(input, pos) ==> is_digit(input[i]),
    decreases input.len() - pos,
{
    if pos < input.len() && is_digit(input[pos]) {
        lemma_digits_end_bounds(input, pos + 1);
    }
}

fn space(b: u8) -> (r: bool)
    ensures
        r == is_space(b),
{
    b == SPACE || b == TAB || b == LINE_FEED || b == CARRIAGE_RETURN
}

fn digit(b: u8) -> (r: bool)
    ensures
        r == is_digit(b),
{
    DIGIT_ZERO <= b && b <= DIGIT_NINE
}

fn identifier_start(b: u8) -> (r: bool)
    ensures
        r == is_identifier_start(b),
{
    (LOWER_A <= b && b <= LOWER_Z) || (UPPER_A <= b && b <= UPPER_Z) || b == UNDERSCORE
}

fn identifier_part(b: u8) -> (r: bool)
    ensures
        r == is_identifier_part(b),
{
    identifier_start(b) || digit(b)
}

fn peek(input: &[u8], pos: usize) -> (b: Option<u8>)
    ensures
        b == byte_at(input@, pos as int),
{
    if pos < input.len() {
        Some(input[pos])
    } else {
        None
    }
}

fn scan_spaces(input: &[u8], pos: usize) -> (end: usize)
    requires
        pos <= input.len(),
    ensures
        end == skip_spaces(input@, pos as int),
        pos <= end <= input.len(),
{
    let mut end: usize = pos;
    while end < input.len() && space(input[end])
        invariant
            pos <= end <= input.len(),
            skip_spaces(input@, pos as int) == skip_spaces(input@, end as int),
        decreases input.len() - end,
    {
        end += 1;
    }
    end
}

fn scan_identifier(input: &[u8], pos: usize) -> (end: usize)
    requires
        pos <= input.len(),
    ensures
        end == identifier_end(input@, pos as int),
        pos <= end <= input.len(),
{
    let mut end: usize = pos;
    while end < input.len() && identifier_part(input[end])
        invariant
            pos <= end <= input.len(),
            identifier_end(input@, pos as int) == identifier_end(input@, end as int),
        decreases input.len() - end,
    {
        end += 1;
    }
    end
}

fn scan_digits(input: &[u8], pos: usize) -> (end: usize)
    requires
        pos <= input.len(),
    ensures
        end == digits_end(input@, pos as int),
        pos <= end <= input.len(),
{
    let mut end: usize = pos;
    while end < input.len() && digit(input[end])
        invariant
            pos <= end <= input.len(),
            digits_end(input@, pos as int) == digits_end(input@, end as int),
        decreases input.len() - end,
    {
        end += 1;
    }
    end
}

fn has_of_suffix(input: &[u8], pos: usize) -> (r: bool)
    requires
        pos <= input.len(),
    ensures
        r == of_suffix_at(input@, pos as int),
{
    if input.len() - pos < 3 {
        return false;
    }
    if input[pos] != MINUS || input[pos + 1] != LOWER_O || input[pos + 2] != LOWER_F {
        return false;
    }
    match peek(input, pos + 3) {
        Some(b) => !identifier_part(b),
        None => true,
    }
}

fn lex_word(input: &[u8], start: usize) -> (token: Token)
    requires
        start < input.len(),
        is_identifier_start(input[start as int]),
    ensures
        token == word_token(input@, start as int, identifier_end(input@, start as int)),
        start < token.end <= input.len(),
        token_ok(input@, token),
        token.kind != TokenKind::EndOfInput,
        token.kind != TokenKind::Integer,
{
    let end: usize = scan_identifier(input, start);
    proof {
        lemma_identifier_end_bounds(input@, start as int);
        lemma_identifier_end_bounds(input@, start + 1);
    }
    let text = ascii_string(input, start, end);
    let kind: TokenKind = if text == String::from_str("sum") && has_of_suffix(input, end) {
        TokenKind::SumOf
    } else if text == String::from_str("product") && has_of_suffix(input, end) {
        TokenKind::ProductOf
    } else if text == String::from_str("packet") {
        TokenKind::KeywordPacket
    } else if text == String::from_str("when") {
        TokenKind::KeywordWhen
    } else if text == String::from_str("else") {
        TokenKind::KeywordElse
    } else {
        TokenKind::Identifier
    };
    match kind {
        TokenKind::SumOf => Token { kind, start, end: end + 3 },
        TokenKind::ProductOf => Token { kind, start, end: end + 3 },
        _ => Token { kind, start, end },
    }
}

fn lex_number(input: &[u8], start: usize) -> (token: Token)
    requires
        start < input.len(),
        is_digit(input[start as int]),
    ensures
        token == number_token(input@, start as int),
        start < token.end <= input.len(),
        token_ok(input@, token),
        token.kind != TokenKind::EndOfInput,
{
    let whole: usize = scan_digits(input, start);
    proof {
        lemma_digits_end_bounds(input@, start + 1);
        if whole < input.len() {
            lemma_digits_end_bounds(input@, whole + 1);
        }
    }
    let dot: bool = match peek(input, whole) {
        Some(b) => b == DOT,
        None => false,
    };
    let fraction: bool = whole < input.len() && match peek(input, whole + 1) {
        Some(b) => digit(b),
        None => false,
    };
    if dot && fraction {
        let end: usize = scan_digits(input, whole + 1);
        Token { kind: TokenKind::Decimal, start, end }
    } else {
        Token { kind: TokenKind::Integer, start, end: whole }
    }
}

fn lex_symbol(first: u8, second: Option<u8>) -> (found: Option<(TokenKind, usize)>)
    ensures
        match found {
            Some((kind, length)) => {
                &&& symbol(first, second) == Some((kind, length as int))
                &&& 1 <= length <= 2
                &&& first < 128
                &&& length == 2 ==> (second matches Some(b) && b < 128)
                &&& kind != TokenKind::EndOfInput
                &&& kind != TokenKind::Integer
            },
            None => symbol(first, second) is None,
        },
{
    let paired: bool = match second {
        Some(b) => b == EQUALS,
        None => false,
    };
    let doubled: bool = match second {
        Some(b) => b == first,
        None => false,
    };
    if first == GREATER && paired {
        Some((TokenKind::GreaterEqual, 2))
    } else if first == LESS && paired {
        Some((TokenKind::LessEqual, 2))
    } else if first == EQUALS && paired {
        Some((TokenKind::EqualEqual, 2))
    } else if first == BANG && paired {
        Some((TokenKind::NotEqual, 2))
    } else if first == AMPERSAND && doubled {
        Some((TokenKind::AndAnd, 2))
    } else if first == PIPE && doubled {
        Some((TokenKind::OrOr, 2))
    } else if first == LEFT_BRACE {
        Some((TokenKind::LeftBrace, 1))
    } else if first == RIGHT_BRACE {
        Some((TokenKind::RightBrace, 1))
    } else if first == LEFT_BRACKET {
        Some((TokenKind::LeftBracket, 1))
    } else if first == RIGHT_BRACKET {
        Some((TokenKind::RightBracket, 1))
    } else if first == LEFT_PAREN {
        Some((TokenKind::LeftParen, 1))
    } else if first == RIGHT_PAREN {
        Some((TokenKind::RightParen, 1))
    } else if first == COLON {
        Some((TokenKind::Colon, 1))
    } else if first == COMMA {
        Some((TokenKind::Comma, 1))
    } else if first == EQUALS {
        Some((TokenKind::Assign, 1))
    } else if first == PLUS {
        Some((TokenKind::Plus, 1))
    } else if first == MINUS {
        Some((TokenKind::Minus, 1))
    } else if first == STAR {
        Some((TokenKind::Star, 1))
    } else if first == SLASH {
        Some((TokenKind::Slash, 1))
    } else if first == CARET {
        Some((TokenKind::Caret, 1))
    } else if first == GREATER {
        Some((TokenKind::Greater, 1))
    } else if first == LESS {
        Some((TokenKind::Less, 1))
    } else {
        None
    }
}

/// The token that starts at `pos`.
fn lex_token(input: &[u8], pos: usize) -> (token: Option<Token>)
    requires
        pos < input.len(),
    ensures
        token == token_at(input@, pos as int),
        token matches Some(t) ==> {
            &&& pos < t.end <= input.len()
            &&& token_ok(input@, t)
            &&& t.kind != TokenKind::EndOfInput
        },
{
    let first: u8 = input[pos];
    if identifier_start(first) {
        Some(lex_word(input, pos))
    } else if digit(first) {
        Some(lex_number(input, pos))
    } else {
        match lex_symbol(first, peek(input, pos + 1)) {
            Some((kind, length)) => Some(Token { kind, start: pos, end: pos + length }),
            None => None,
        }
    }
}

/// Splits `input` into tokens. The result ends with the end-of-input token.
/// Where a byte starts no token, the error is the offset of that byte.
pub fn tokenize(input: &[u8]) -> (result: Result<Vec<Token>, usize>)
    ensures
        match result {
            Ok(tokens) => tokens_of(input@) == Lexed::Tokens(tokens@) && tokens_ok(input@, tokens@),
            Err(at) => tokens_of(input@) == Lexed::Stray(at as int) && at < input.len(),
        },
{
    let mut tokens: Vec<Token> = Vec::new();
    let mut pos: usize = 0;
    loop
        invariant
            pos <= input.len(),
            forall|i: int| 0 <= i < tokens.len() ==> token_ok(input@, #[trigger] tokens[i]),
            forall|i: int|
                0 <= i < tokens.len() ==> (#[trigger] tokens[i]).kind != TokenKind::EndOfInput,
            match tokens_from(input@, pos as int) {
                Lexed::Tokens(rest) => tokens_of(input@) == Lexed::Tokens(tokens@ + rest),
                Lexed::Stray(at) => tokens_of(input@) == Lexed::Stray(at),
            },
        decreases input.len() - pos,
    {
        let start: usize = scan_spaces(input, pos);
        if start >= input.len() {
            let ghost before = tokens@;
            let last = Token { kind: TokenKind::EndOfInput, start: input.len(), end: input.len() };
            tokens.push(last);
            assert(tokens@ =~= before + seq![last]);
            return Ok(tokens);
        }
        match lex_token(input, start) {
            Some(token) => {
                proof {
                    match tokens_from(input@, token.end as int) {
                        Lexed::Tokens(rest) => {
                            assert(tokens@.push(token) + rest =~= tokens@ + (seq![token] + rest));
                        },
                        Lexed::Stray(at) => {},
                    }
                }
                tokens.push(token);
                pos = token.end;
            },
            None => {
                return Err(start);
            },
        }
    }
}

} // verus!
