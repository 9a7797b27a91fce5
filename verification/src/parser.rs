//! The parser: from the text of a definition file to its packet definitions.
//!
//! The functions here follow the grammar of [`crate::grammar`] production by
//! production, and each one returns what the grammar gives at its position.

use crate::grammar::{
    calculated_of, digits_value, ends_rule, fault_after, fields_of, kind_in, level_rank,
    operator_at, parse_arguments, parse_array_specifier, parse_binary, parse_binary_rest,
    parse_calculated, parse_declaration, parse_expr, parse_guard, parse_negative,
    parse_packets, parse_power, parse_reference, parse_rule, parse_rule_list, parse_value,
    Closer, Expectation, Fault, Parsed, RuleView, Source, MAX_NESTING,
};
use crate::ir::{duplicate_from, field_names, find_duplicate};
use crate::lexer::{
    is_digit, token_ok, tokenize, tokens_of, tokens_ok, Lexed, Token, TokenKind, DIGIT_ZERO,
    LINE_FEED,
};
use crate::models::parsing_models::{
    expr_views, BinaryOp, CalculatedField, ExprNode, ExprView, PacketExpr, PacketExprView,
    PrimitiveType, TypeExpr, TypeNode,
};
use crate::text::ascii_string;
use vstd::prelude::*;
use vstd::string::*;

verus! {

/// The parser of packet definition files.
#[derive(Debug, Clone, Copy, PartialEq, Eq)]
pub struct PacketParser2;

impl PacketParser2 {
    /// Parses the text of a definition file into its packet definitions, as
    /// [`parse_file`] does.
    pub fn parse(input: &str) -> (result: Result<Vec<PacketExpr>, ParseError>)
        ensures
            result_view(result) == parse_outcome(vstd::utf8::encode_utf8(input@)),
    {
        parse_packets_from_bytes(input.as_bytes())
    }
}

/// A place in the input: the byte offset, and the line and the column that
/// it falls in, both counted from zero. Lines end with a line feed.
#[derive(Debug, Clone, Copy, PartialEq, Eq, Structural)]
pub struct Position {
    pub offset: usize,
    pub line: usize,
    pub column: usize,
}

/// Why the text is not in the grammar.
#[derive(Debug, Clone, Copy, PartialEq, Eq, Structural)]
pub enum SyntaxReason {
    /// A byte with which no token starts.
    StrayCharacter,
    /// A token that may not stand where it stands.
    UnexpectedToken,
    /// An integer too large for what holds it.
    NumberOutOfRange,
    /// Parentheses, aggregates or calls nested too deep.
    NestingTooDeep,
}

/// Why a definition file could not be turned into packet definitions.
#[derive(Debug, Clone, PartialEq, Eq)]
pub enum ParseError {
    /// The text does not match the grammar. `expected` lists the kinds of
    /// token with which the text could have gone on at `position`; it is
    /// empty where the fault is not an unexpected token.
    Syntax { reason: SyntaxReason, position: Position, expected: Vec<TokenKind> },
    /// The type of a declared field is none of the primitive types.
    UnknownType { declared_type: String, field: String, packet: String, position: Position },
    /// Two fields of a packet, declared or calculated, have the same name.
    DuplicateIdentifier { packet: String, identifier: String },
}

/// [`ParseError`] with its names as sequences of characters.
pub enum ParseErrorView {
    Syntax { reason: SyntaxReason, position: Position, expected: Seq<TokenKind> },
    UnknownType {
        declared_type: Seq<char>,
        field: Seq<char>,
        packet: Seq<char>,
        position: Position,
    },
    DuplicateIdentifier { packet: Seq<char>, identifier: Seq<char> },
}

impl View for ParseError {
    type V = ParseErrorView;

    open spec fn view(&self) -> ParseErrorView {
        match self {
            ParseError::Syntax { reason, position, expected } => ParseErrorView::Syntax {
                reason: *reason,
                position: *position,
                expected: expected@,
            },
            ParseError::UnknownType {
                declared_type,
                field,
                packet,
                position,
            } => ParseErrorView::UnknownType {
                declared_type: declared_type@,
                field: field@,
                packet: packet@,
                position: *position,
            },
            ParseError::DuplicateIdentifier {
                packet,
                identifier,
            } => ParseErrorView::DuplicateIdentifier { packet: packet@, identifier: identifier@ },
        }
    }
}

/// Number of line feeds among the first `offset` bytes.
pub open spec fn line_of(input: Seq<u8>, offset: int) -> nat
    decreases offset,
{
    if offset <= 0 {
        0
    } else if input[offset - 1] == LINE_FEED {
        line_of(input, offset - 1) + 1
    } else {
        line_of(input, offset - 1)
    }
}

/// Number of bytes between the last line feed before `offset` and `offset`.
pub open spec fn column_of(input: Seq<u8>, offset: int) -> nat
    decreases offset,
{
    if offset <= 0 {
        0
    } else if input[offset - 1] == LINE_FEED {
        0
    } else {
        column_of(input, offset - 1) + 1
    }
}

/// The position of byte `offset` of `input`.
pub open spec fn position_of(input: Seq<u8>, offset: int) -> Position {
    Position {
        offset: offset as usize,
        line: line_of(input, offset) as usize,
        column: column_of(input, offset) as usize,
    }
}

/// The kinds of token that an expectation stands for.
pub open spec fn expected_kinds(expected: Expectation) -> Seq<TokenKind> {
    match expected {
        Expectation::Kind(kind) => seq![kind],
        Expectation::Value => seq![
            TokenKind::Integer,
            TokenKind::Decimal,
            TokenKind::Minus,
            TokenKind::Identifier,
            TokenKind::SumOf,
            TokenKind::ProductOf,
            TokenKind::LeftParen,
        ],
        Expectation::Number => seq![TokenKind::Integer, TokenKind::Decimal],
        Expectation::Packet => seq![TokenKind::KeywordPacket, TokenKind::EndOfInput],
        Expectation::Rule => seq![TokenKind::Identifier, TokenKind::RightBrace],
        Expectation::AfterType => seq![
            TokenKind::LeftBracket,
            TokenKind::Assign,
            TokenKind::Comma,
            TokenKind::RightBrace,
        ],
        Expectation::AfterDeclaration => seq![TokenKind::Comma, TokenKind::RightBrace],
        Expectation::AfterExpression { closer, named } => continuation_kinds(named)
            + operator_kinds() + closer_kinds(closer),
    }
}

/// The kinds of token that go on behind the name of a field, where the
/// expression ends with one: the opening bracket of an index and the opening
/// parenthesis of a call.
pub open spec fn continuation_kinds(named: bool) -> Seq<TokenKind> {
    if named {
        seq![TokenKind::LeftBracket, TokenKind::LeftParen]
    } else {
        Seq::empty()
    }
}

/// The kinds of the binary operators.
pub open spec fn operator_kinds() -> Seq<TokenKind> {
    seq![
        TokenKind::OrOr,
        TokenKind::AndAnd,
        TokenKind::Greater,
        TokenKind::Less,
        TokenKind::GreaterEqual,
        TokenKind::LessEqual,
        TokenKind::EqualEqual,
        TokenKind::NotEqual,
        TokenKind::Plus,
        TokenKind::Minus,
        TokenKind::Star,
        TokenKind::Slash,
        TokenKind::Caret,
    ]
}

/// The kinds of token that close an expression.
pub open spec fn closer_kinds(closer: Closer) -> Seq<TokenKind> {
    match closer {
        Closer::Group => seq![TokenKind::RightParen],
        Closer::Argument => seq![TokenKind::Comma, TokenKind::RightParen],
        Closer::Value => seq![TokenKind::KeywordWhen, TokenKind::Comma, TokenKind::RightBrace],
        Closer::Predicate => seq![TokenKind::KeywordElse],
        Closer::Alternative => seq![TokenKind::Comma, TokenKind::RightBrace],
    }
}

/// The error that reports `fault`.
pub open spec fn fault_error(src: Source, fault: Fault) -> ParseErrorView {
    match fault {
        Fault::Unexpected { token, expected } => ParseErrorView::Syntax {
            reason: SyntaxReason::UnexpectedToken,
            position: position_of(src.input, src.tokens[token as int].start as int),
            expected: expected_kinds(expected),
        },
        Fault::NumberOutOfRange { token } => ParseErrorView::Syntax {
            reason: SyntaxReason::NumberOutOfRange,
            position: position_of(src.input, src.tokens[token as int].start as int),
            expected: Seq::empty(),
        },
        Fault::NestingTooDeep { token } => ParseErrorView::Syntax {
            reason: SyntaxReason::NestingTooDeep,
            position: position_of(src.input, src.tokens[token as int].start as int),
            expected: Seq::empty(),
        },
        Fault::UnknownType { token, field, packet } => ParseErrorView::UnknownType {
            declared_type: src.text_at(token as int),
            field: src.text_at(field as int),
            packet: src.text_at(packet as int),
            position: position_of(src.input, src.tokens[token as int].start as int),
        },
    }
}

/// Index of the first packet from `from` on in which a name occurs twice.
pub open spec fn clash_from(packets: Seq<PacketExprView>, from: nat) -> Option<nat>
    decreases packets.len() - from,
{
    if from >= packets.len() {
        None
    } else if duplicate_from(field_names(packets[from as int]), 0) is Some {
        Some(from)
    } else {
        clash_from(packets, from + 1)
    }
}

/// The packets, where in none of them a name occurs twice; the error that
/// names the first packet with such a name, and the name, otherwise. Among
/// the names of a packet the one reported is the first, declared fields
/// before calculated ones, that an earlier one has too.
pub open spec fn without_clash(packets: Seq<PacketExprView>) -> Result<
    Seq<PacketExprView>,
    ParseErrorView,
> {
    match clash_from(packets, 0) {
        Some(index) => Err(
            ParseErrorView::DuplicateIdentifier {
                packet: packets[index as int].name,
                identifier: field_names(packets[index as int])[duplicate_from(
                    field_names(packets[index as int]),
                    0,
                )->Some_0 as int],
            },
        ),
        None => Ok(packets),
    }
}

/// What parsing the bytes `input` gives: the packets in source order, or the
/// first error. A text that is in the grammar is refused where a packet has
/// two fields of one name.
pub open spec fn parse_outcome(input: Seq<u8>) -> Result<Seq<PacketExprView>, ParseErrorView> {
    match tokens_of(input) {
        Lexed::Stray(at) => Err(
            ParseErrorView::Syntax {
                reason: SyntaxReason::StrayCharacter,
                position: position_of(input, at),
                expected: Seq::empty(),
            },
        ),
        Lexed::Tokens(tokens) => match parse_packets(Source { input, tokens }, 0) {
            Parsed::Done(packets, _) => without_clash(packets),
            Parsed::Failed(fault) => Err(fault_error(Source { input, tokens }, fault)),
        },
    }
}

proof fn lemma_no_clash_from(packets: Seq<PacketExprView>, from: nat, index: int)
    requires
        clash_from(packets, from) is None,
        from <= index < packets.len(),
    ensures
        duplicate_from(field_names(packets[index]), 0) is None,
    decreases packets.len() - from,
{
    if from < index {
        lemma_no_clash_from(packets, from + 1, index);
    }
}

/// In a packet that the parser hands out no name occurs twice: the names of
/// its fields, declared and calculated, all differ.
pub proof fn lemma_parsed_names_differ(input: Seq<u8>, index: int)
    requires
        parse_outcome(input) is Ok,
        0 <= index < parse_outcome(input)->Ok_0.len(),
    ensures
        duplicate_from(field_names(parse_outcome(input)->Ok_0[index]), 0) is None,
{
    match tokens_of(input) {
        Lexed::Tokens(tokens) => match parse_packets(Source { input, tokens }, 0) {
            Parsed::Done(packets, _) => {
                lemma_no_clash_from(packets, 0, index);
            },
            _ => {},
        },
        _ => {},
    }
}

/// The views of a list of packets.
pub open spec fn packet_views(packets: Seq<PacketExpr>) -> Seq<PacketExprView> {
    Seq::new(packets.len(), |i: int| packets[i]@)
}

/// The view of the result of parsing.
pub open spec fn result_view(result: Result<Vec<PacketExpr>, ParseError>) -> Result<
    Seq<PacketExprView>,
    ParseErrorView,
> {
    match result {
        Ok(packets) => Ok(packet_views(packets@)),
        Err(error) => Err(error@),
    }
}

/// The tokens that `fault` names are tokens of the input.
pub open spec fn fault_in_range(fault: Fault, count: nat) -> bool {
    match fault {
        Fault::Unexpected { token, .. } => token < count,
        Fault::NumberOutOfRange { token } => token < count,
        Fault::NestingTooDeep { token } => token < count,
        Fault::UnknownType { token, field, packet } => token < count && field < count && packet
            < count,
    }
}

/// The source that the exec parser works on.
pub open spec fn source(input: &[u8], tokens: &Vec<Token>) -> Source {
    Source { input: input@, tokens: tokens@ }
}

/// The grammar's outcome that stands for an exec outcome.
pub open spec fn expr_outcome(result: Result<(ExprNode, usize), Fault>) -> Parsed<ExprView> {
    match result {
        Ok((node, next)) => Parsed::Done(node@, next as int),
        Err(fault) => Parsed::Failed(fault),
    }
}

/// An exec outcome moves forward and stays among the tokens, and its fault
/// names tokens of the input.
pub open spec fn outcome_ok<T>(result: Result<(T, usize), Fault>, pos: usize, count: nat) -> bool {
    match result {
        Ok((_, next)) => pos < next < count,
        Err(fault) => fault_in_range(fault, count),
    }
}

/// A rule of a packet.
pub enum Rule {
    Field(TypeExpr),
    Calculated(CalculatedField),
}

impl View for Rule {
    type V = RuleView;

    open spec fn view(&self) -> RuleView {
        match self {
            Rule::Field(field) => RuleView::Field(field@),
            Rule::Calculated(field) => RuleView::Calculated(field@),
        }
    }
}

/// The grammar's outcome that stands for an exec outcome of parsing a rule.
pub open spec fn rule_outcome(result: Result<(Rule, usize), Fault>) -> Parsed<RuleView> {
    match result {
        Ok((rule, next)) => Parsed::Done(rule@, next as int),
        Err(fault) => Parsed::Failed(fault),
    }
}

/// Kind of the token at `pos`; past the last token, end of input.
fn kind_at(tokens: &Vec<Token>, pos: usize) -> (kind: TokenKind)
    ensures
        kind == kind_in(tokens@, pos as int),
{
    if pos < tokens.len() {
        tokens[pos].kind
    } else {
        TokenKind::EndOfInput
    }
}

/// The fault of meeting the token at `pos` where the expression before it
/// could have gone on or been closed.
fn fault_after_expression(tokens: &Vec<Token>, pos: usize, closer: Closer) -> (fault: Fault)
    requires
        0 < pos,
    ensures
        fault == fault_after(tokens@, pos as int, closer),
{
    Fault::Unexpected {
        token: pos,
        expected: Expectation::AfterExpression {
            closer,
            named: kind_at(tokens, pos - 1) == TokenKind::Identifier,
        },
    }
}

/// The text of the token at `pos`.
fn token_text(input: &[u8], tokens: &Vec<Token>, pos: usize) -> (text: String)
    requires
        tokens_ok(input@, tokens@),
        pos < tokens.len(),
    ensures
        text@ == source(input, tokens).text_at(pos as int),
{
    let token = tokens[pos];
    ascii_string(input, token.start, token.end)
}

/// The number of the first digits of a run is no more than the number of
/// the whole run.
proof fn lemma_digits_value_prefix(digits: Seq<u8>, count: int)
    requires
        0 <= count <= digits.len(),
        forall|i: int| 0 <= i < digits.len() ==> is_digit(digits[i]),
    ensures
        digits_value(digits.take(count)) <= digits_value(digits),
    decreases digits.len() - count,
{
    if count == digits.len() {
        assert(digits.take(count) =~= digits);
    } else {
        lemma_digits_value_prefix(digits, count + 1);
        assert(digits.take(count + 1).drop_last() =~= digits.take(count));
    }
}

/// The number that the digits of the integer token at `pos` stand for;
/// `None` where it is more than `u64::MAX`.
fn integer_value(input: &[u8], tokens: &Vec<Token>, pos: usize) -> (value: Option<u64>)
    requires
        tokens_ok(input@, tokens@),
        pos < tokens.len(),
        tokens[pos as int].kind == TokenKind::Integer,
    ensures
        match value {
            Some(v) => v == digits_value(source(input, tokens).bytes_at(pos as int)),
            None => digits_value(source(input, tokens).bytes_at(pos as int)) > u64::MAX,
        },
{
    let token = tokens[pos];
    let ghost digits = input@.subrange(token.start as int, token.end as int);
    let mut value: u64 = 0;
    let mut i: usize = token.start;
    while i < token.end
        invariant
            token.start <= i <= token.end <= input.len(),
            pos < tokens.len(),
            token == tokens[pos as int],
            digits == input@.subrange(token.start as int, token.end as int),
            forall|k: int| 0 <= k < digits.len() ==> is_digit(digits[k]),
            value == digits_value(digits.take(i - token.start)),
        decreases token.end - i,
    {
        assert(is_digit(digits[i - token.start]));
        let digit: u64 = (input[i] - DIGIT_ZERO) as u64;
        proof {
            let longer = digits.take(i - token.start + 1);
            lemma_digits_value_prefix(digits, i - token.start + 1);
            assert(longer.drop_last() =~= digits.take(i - token.start));
        }
        let scaled: u64 = match value.checked_mul(10) {
            Some(scaled) => scaled,
            None => { return None; },
        };
        value = match scaled.checked_add(digit) {
            Some(sum) => sum,
            None => { return None; },
        };
        i += 1;
    }
    assert(digits.take(i - token.start) =~= digits);
    Some(value)
}

/// Parses the index in brackets at `pos`.
fn parse_array_index(input: &[u8], tokens: &Vec<Token>, pos: usize) -> (result: Result<
    (usize, usize),
    Fault,
>)
    requires
        tokens_ok(input@, tokens@),
        pos < tokens.len(),
    ensures
        match result {
            Ok((index, next)) => parse_array_specifier(source(input, tokens), pos as int)
                == Parsed::Done(index, next as int),
            Err(fault) => parse_array_specifier(source(input, tokens), pos as int)
                == Parsed::<usize>::Failed(fault),
        },
        outcome_ok(result, pos, tokens.len() as nat),
{
    if kind_at(tokens, pos) != TokenKind::LeftBracket {
        return Err(
            Fault::Unexpected { token: pos, expected: Expectation::Kind(TokenKind::LeftBracket) },
        );
    }
    if kind_at(tokens, pos + 1) != TokenKind::Integer {
        return Err(
            Fault::Unexpected { token: pos + 1, expected: Expectation::Kind(TokenKind::Integer) },
        );
    }
    let value: u64 = match integer_value(input, tokens, pos + 1) {
        Some(value) => value,
        None => { return Err(Fault::NumberOutOfRange { token: pos + 1 }); },
    };
    if value > usize::MAX as u64 {
        return Err(Fault::NumberOutOfRange { token: pos + 1 });
    }
    if kind_at(tokens, pos + 2) != TokenKind::RightBracket {
        return Err(
            Fault::Unexpected {
                token: pos + 2,
                expected: Expectation::Kind(TokenKind::RightBracket),
            },
        );
    }
    Ok((value as usize, pos + 3))
}

/// Parses a number that carries no sign: an unsigned integer or a decimal.
fn parse_numeric_constant(input: &[u8], tokens: &Vec<Token>, pos: usize) -> (result: Result<
    (ExprNode, usize),
    Fault,
>)
    requires
        tokens_ok(input@, tokens@),
        pos < tokens.len(),
        tokens[pos as int].kind == TokenKind::Integer || tokens[pos as int].kind
            == TokenKind::Decimal,
    ensures
        forall|depth: nat|
            #[trigger] parse_value(source(input, tokens), pos as int, depth) == expr_outcome(
                result,
            ),
        outcome_ok(result, pos, tokens.len() as nat),
{
    if kind_at(tokens, pos) == TokenKind::Integer {
        match integer_value(input, tokens, pos) {
            Some(value) => Ok((ExprNode::UnsignedInteger64Value(value), pos + 1)),
            None => Err(Fault::NumberOutOfRange { token: pos }),
        }
    } else {
        Ok((ExprNode::Float64Value(token_text(input, tokens, pos)), pos + 1))
    }
}

/// Parses the number after the minus sign at `pos`.
fn parse_negative_constant(input: &[u8], tokens: &Vec<Token>, pos: usize) -> (result: Result<
    (ExprNode, usize),
    Fault,
>)
    requires
        tokens_ok(input@, tokens@),
        pos < tokens.len(),
        tokens[pos as int].kind == TokenKind::Minus,
    ensures
        expr_outcome(result) == parse_negative(source(input, tokens), pos as int),
        outcome_ok(result, pos, tokens.len() as nat),
{
    let next_kind = kind_at(tokens, pos + 1);
    let touching: bool = pos + 1 < tokens.len() && tokens[pos].end == tokens[pos + 1].start;
    if touching && next_kind == TokenKind::Integer {
        match integer_value(input, tokens, pos + 1) {
            Some(magnitude) => {
                if magnitude <= 0x7fff_ffff_ffff_ffff {
                    Ok((ExprNode::Integer64Value(-(magnitude as i64)), pos + 2))
                } else if magnitude == 0x8000_0000_0000_0000 {
                    Ok((ExprNode::Integer64Value(i64::MIN), pos + 2))
                } else {
                    Err(Fault::NumberOutOfRange { token: pos + 1 })
                }
            },
            None => Err(Fault::NumberOutOfRange { token: pos + 1 }),
        }
    } else if touching && next_kind == TokenKind::Decimal {
        let text = ascii_string(input, tokens[pos].start, tokens[pos + 1].end);
        Ok((ExprNode::Float64Value(text), pos + 2))
    } else {
        Err(Fault::Unexpected { token: pos + 1, expected: Expectation::Number })
    }
}

/// Parses a reference to a field, with the index of an element where one is
/// given.
fn parse_direct_value_accessor(input: &[u8], tokens: &Vec<Token>, pos: usize) -> (result: Result<
    (ExprNode, usize),
    Fault,
>)
    requires
        tokens_ok(input@, tokens@),
        pos < tokens.len(),
        tokens[pos as int].kind == TokenKind::Identifier,
    ensures
        expr_outcome(result) == parse_reference(source(input, tokens), pos as int),
        outcome_ok(result, pos, tokens.len() as nat),
{
    let identifier = token_text(input, tokens, pos);
    if kind_at(tokens, pos + 1) == TokenKind::LeftBracket {
        match parse_array_index(input, tokens, pos + 1) {
            Ok((index, next)) => Ok((ExprNode::ValueReference(identifier, Some(index)), next)),
            Err(fault) => Err(fault),
        }
    } else {
        Ok((ExprNode::ValueReference(identifier, None), pos + 1))
    }
}

/// Parses the arguments of a call, from the first one at `pos` on.
fn parse_parameter_list(input: &[u8], tokens: &Vec<Token>, pos: usize, depth: usize) -> (result:
    Result<(Vec<ExprNode>, usize), Fault>)
    requires
        tokens_ok(input@, tokens@),
        pos < tokens.len(),
    ensures
        match result {
            Ok((arguments, next)) => parse_arguments(
                source(input, tokens),
                pos as int,
                depth as nat,
            ) == Parsed::Done(expr_views(arguments@), next as int),
            Err(fault) => parse_arguments(source(input, tokens), pos as int, depth as nat)
                == Parsed::<Seq<ExprView>>::Failed(fault),
        },
        outcome_ok(result, pos, tokens.len() as nat),
    decreases tokens.len() - pos, 30nat,
{
    let ghost src = source(input, tokens);
    let mut arguments: Vec<ExprNode> = Vec::new();
    let mut at: usize = pos;
    loop
        invariant
            tokens_ok(input@, tokens@),
            src == source(input, tokens),
            pos <= at < tokens.len(),
            at == pos <==> arguments.len() == 0,
            match parse_arguments(src, at as int, depth as nat) {
                Parsed::Done(rest, after) => parse_arguments(src, pos as int, depth as nat)
                    == Parsed::Done(expr_views(arguments@) + rest, after),
                Parsed::Failed(fault) => parse_arguments(src, pos as int, depth as nat)
                    == Parsed::<Seq<ExprView>>::Failed(fault),
            },
        decreases tokens.len() - at,
    {
        match parse_binary_level(input, tokens, at, depth, 0) {
            Ok((argument, next)) => {
                let ghost before = expr_views(arguments@);
                let ghost view = argument@;
                arguments.push(argument);
                assert(expr_views(arguments@) =~= before + seq![view]);
                if kind_at(tokens, next) == TokenKind::Comma {
                    proof {
                        match parse_arguments(src, next + 1, depth as nat) {
                            Parsed::Done(rest, after) => {
                                assert(before + (seq![view] + rest) =~= expr_views(arguments@)
                                    + rest);
                            },
                            Parsed::Failed(fault) => {},
                        }
                    }
                    at = next + 1;
                } else {
                    return Ok((arguments, next));
                }
            },
            Err(fault) => {
                return Err(fault);
            },
        }
    }
}

/// Parses the call of an intrinsic function whose name is at `pos`.
fn parse_intrinsic_function_clause(
    input: &[u8],
    tokens: &Vec<Token>,
    pos: usize,
    depth: usize,
) -> (result: Result<(ExprNode, usize), Fault>)
    requires
        tokens_ok(input@, tokens@),
        pos < tokens.len(),
        tokens[pos as int].kind == TokenKind::Identifier,
        pos + 1 < tokens.len(),
        tokens[pos + 1].kind == TokenKind::LeftParen,
    ensures
        expr_outcome(result) == parse_value(source(input, tokens), pos as int, depth as nat),
        outcome_ok(result, pos, tokens.len() as nat),
    decreases tokens.len() - pos, 0nat, 1nat,
{
    if depth == 0 {
        return Err(Fault::NestingTooDeep { token: pos + 1 });
    }
    let function_name = token_text(input, tokens, pos);
    match parse_parameter_list(input, tokens, pos + 2, depth - 1) {
        Ok((arguments, next)) => {
            if kind_at(tokens, next) != TokenKind::RightParen {
                Err(fault_after_expression(tokens, next, Closer::Argument))
            } else {
                Ok((ExprNode::call(function_name, arguments), next + 1))
            }
        },
        Err(fault) => Err(fault),
    }
}

/// Parses the expression in parentheses that opens at `open`, up to and with
/// the closing parenthesis.
fn parse_inner_expr(input: &[u8], tokens: &Vec<Token>, open: usize, depth: usize) -> (result:
    Result<(ExprNode, usize), Fault>)
    requires
        tokens_ok(input@, tokens@),
        open < tokens.len(),
        tokens[open as int].kind == TokenKind::LeftParen,
        depth > 0,
    ensures
        match result {
            Ok((inner, next)) => {
                &&& parse_binary(source(input, tokens), open + 1, (depth - 1) as nat, 0)
                    matches Parsed::Done(view, close)
                &&& view == inner@
                &&& next == close + 1
                &&& source(input, tokens).kind_at(close) == TokenKind::RightParen
            },
            Err(fault) => match parse_binary(
                source(input, tokens),
                open + 1,
                (depth - 1) as nat,
                0,
            ) {
                Parsed::Done(_, close) => {
                    &&& source(input, tokens).kind_at(close) != TokenKind::RightParen
                    &&& fault == fault_after(tokens@, close, Closer::Group)
                },
                Parsed::Failed(inner) => fault == inner,
            },
        },
        outcome_ok(result, open, tokens.len() as nat),
    decreases tokens.len() - open, 0nat, 1nat,
{
    match parse_binary_level(input, tokens, open + 1, depth - 1, 0) {
        Ok((inner, close)) => {
            if kind_at(tokens, close) != TokenKind::RightParen {
                Err(fault_after_expression(tokens, close, Closer::Group))
            } else {
                Ok((inner, close + 1))
            }
        },
        Err(fault) => Err(fault),
    }
}

/// Parses a value: a number, an aggregate, a call, a reference or an
/// expression in parentheses.
fn parse_value_expr(input: &[u8], tokens: &Vec<Token>, pos: usize, depth: usize) -> (result:
    Result<(ExprNode, usize), Fault>)
    requires
        tokens_ok(input@, tokens@),
        pos < tokens.len(),
    ensures
        expr_outcome(result) == parse_value(source(input, tokens), pos as int, depth as nat),
        outcome_ok(result, pos, tokens.len() as nat),
    decreases tokens.len() - pos, 0nat, 2nat,
{
    match kind_at(tokens, pos) {
        TokenKind::Integer => parse_numeric_constant(input, tokens, pos),
        TokenKind::Decimal => parse_numeric_constant(input, tokens, pos),
        TokenKind::Minus => parse_negative_constant(input, tokens, pos),
        TokenKind::SumOf => {
            if kind_at(tokens, pos + 1) != TokenKind::LeftParen {
                Err(
                    Fault::Unexpected {
                        token: pos + 1,
                        expected: Expectation::Kind(TokenKind::LeftParen),
                    },
                )
            } else if depth == 0 {
                Err(Fault::NestingTooDeep { token: pos + 1 })
            } else {
                match parse_inner_expr(input, tokens, pos + 1, depth) {
                    Ok((inner, next)) => Ok((ExprNode::SumOf(Box::new(inner)), next)),
                    Err(fault) => Err(fault),
                }
            }
        },
        TokenKind::ProductOf => {
            if kind_at(tokens, pos + 1) != TokenKind::LeftParen {
                Err(
                    Fault::Unexpected {
                        token: pos + 1,
                        expected: Expectation::Kind(TokenKind::LeftParen),
                    },
                )
            } else if depth == 0 {
                Err(Fault::NestingTooDeep { token: pos + 1 })
            } else {
                match parse_inner_expr(input, tokens, pos + 1, depth) {
                    Ok((inner, next)) => Ok((ExprNode::ProductOf(Box::new(inner)), next)),
                    Err(fault) => Err(fault),
                }
            }
        },
        TokenKind::Identifier => {
            if kind_at(tokens, pos + 1) == TokenKind::LeftParen {
                parse_intrinsic_function_clause(input, tokens, pos, depth)
            } else {
                parse_direct_value_accessor(input, tokens, pos)
            }
        },
        TokenKind::LeftParen => {
            if depth == 0 {
                Err(Fault::NestingTooDeep { token: pos })
            } else {
                match parse_inner_expr(input, tokens, pos, depth) {
                    Ok((inner, next)) => Ok((ExprNode::ParenthesizedExpr(Box::new(inner)), next)),
                    Err(fault) => Err(fault),
                }
            }
        },
        _ => Err(Fault::Unexpected { token: pos, expected: Expectation::Value }),
    }
}

/// Parses a value, raised to a power where `^` follows. Powers associate to
/// the right.
fn parse_power_expr(input: &[u8], tokens: &Vec<Token>, pos: usize, depth: usize) -> (result:
    Result<(ExprNode, usize), Fault>)
    requires
        tokens_ok(input@, tokens@),
        pos < tokens.len(),
    ensures
        expr_outcome(result) == parse_power(source(input, tokens), pos as int, depth as nat),
        outcome_ok(result, pos, tokens.len() as nat),
    decreases tokens.len() - pos, 1nat, 0nat,
{
    match parse_value_expr(input, tokens, pos, depth) {
        Ok((base, next)) => {
            if kind_at(tokens, next) == TokenKind::Caret {
                match parse_power_expr(input, tokens, next + 1, depth) {
                    Ok((exponent, after)) => Ok(
                        (ExprNode::binary(BinaryOp::Pow, base, exponent), after),
                    ),
                    Err(fault) => Err(fault),
                }
            } else {
                Ok((base, next))
            }
        },
        Err(fault) => Err(fault),
    }
}

/// The operator that a token of `kind` stands for at precedence `level`.
fn operator_for(level: usize, kind: TokenKind) -> (op: Option<BinaryOp>)
    ensures
        op == operator_at(level as nat, kind),
{
    if level == 0 {
        match kind {
            TokenKind::OrOr => Some(BinaryOp::Or),
            _ => None,
        }
    } else if level == 1 {
        match kind {
            TokenKind::AndAnd => Some(BinaryOp::And),
            _ => None,
        }
    } else if level == 2 {
        match kind {
            TokenKind::Greater => Some(BinaryOp::Gt),
            TokenKind::Less => Some(BinaryOp::Lt),
            TokenKind::GreaterEqual => Some(BinaryOp::Gte),
            TokenKind::LessEqual => Some(BinaryOp::Lte),
            TokenKind::EqualEqual => Some(BinaryOp::Equals),
            TokenKind::NotEqual => Some(BinaryOp::NotEquals),
            _ => None,
        }
    } else if level == 3 {
        match kind {
            TokenKind::Plus => Some(BinaryOp::Plus),
            TokenKind::Minus => Some(BinaryOp::Minus),
            _ => None,
        }
    } else if level == 4 {
        match kind {
            TokenKind::Star => Some(BinaryOp::Mult),
            TokenKind::Slash => Some(BinaryOp::Div),
            _ => None,
        }
    } else {
        None
    }
}

/// Parses an expression of precedence `level`: operands of the next level,
/// joined from the left by the operators of this level.
fn parse_binary_level(
    input: &[u8],
    tokens: &Vec<Token>,
    pos: usize,
    depth: usize,
    level: usize,
) -> (result: Result<(ExprNode, usize), Fault>)
    requires
        tokens_ok(input@, tokens@),
        pos < tokens.len(),
    ensures
        expr_outcome(result) == parse_binary(
            source(input, tokens),
            pos as int,
            depth as nat,
            level as nat,
        ),
        outcome_ok(result, pos, tokens.len() as nat),
    decreases tokens.len() - pos, level_rank(level as nat), 0nat,
{
    let ghost src = source(input, tokens);
    if level >= 5 {
        return parse_power_expr(input, tokens, pos, depth);
    }
    let (first, after) = match parse_binary_level(input, tokens, pos, depth, level + 1) {
        Ok(parsed) => parsed,
        Err(fault) => { return Err(fault); },
    };
    let mut left: ExprNode = first;
    let mut at: usize = after;
    loop
        invariant
            tokens_ok(input@, tokens@),
            src == source(input, tokens),
            level < 5,
            pos < at < tokens.len(),
            parse_binary(src, pos as int, depth as nat, level as nat) == parse_binary_rest(
                src,
                at as int,
                depth as nat,
                level as nat,
                left@,
            ),
        decreases tokens.len() - at,
    {
        let op: BinaryOp = match operator_for(level, kind_at(tokens, at)) {
            Some(op) => op,
            None => { return Ok((left, at)); },
        };
        match parse_binary_level(input, tokens, at + 1, depth, level + 1) {
            Ok((right, next)) => {
                left = ExprNode::binary(op, left, right);
                at = next;
            },
            Err(fault) => {
                return Err(fault);
            },
        }
    }
}

/// Parses the expression on the loosest level, that of `||`.
fn parse_boolean_and_or_expr(input: &[u8], tokens: &Vec<Token>, pos: usize, depth: usize)
    -> (result: Result<(ExprNode, usize), Fault>)
    requires
        tokens_ok(input@, tokens@),
        pos < tokens.len(),
    ensures
        expr_outcome(result) == parse_binary(source(input, tokens), pos as int, depth as nat, 0),
        outcome_ok(result, pos, tokens.len() as nat),
{
    parse_binary_level(input, tokens, pos, depth, 0)
}

/// Parses an expression.
fn parse_expression(input: &[u8], tokens: &Vec<Token>, pos: usize) -> (result: Result<
    (ExprNode, usize),
    Fault,
>)
    requires
        tokens_ok(input@, tokens@),
        pos < tokens.len(),
    ensures
        expr_outcome(result) == parse_expr(source(input, tokens), pos as int),
        outcome_ok(result, pos, tokens.len() as nat),
{
    parse_boolean_and_or_expr(input, tokens, pos, MAX_NESTING)
}

/// Parses the guard of a calculated field, where `when` follows the field's
/// expression `value`: the predicate, `else`, and the alternative.
fn parse_guard_expression(input: &[u8], tokens: &Vec<Token>, pos: usize, value: &ExprNode)
    -> (result: Result<(Option<ExprNode>, usize), Fault>)
    requires
        tokens_ok(input@, tokens@),
        pos < tokens.len(),
    ensures
        match result {
            Ok((guard, next)) => parse_guard(source(input, tokens), pos as int, value@)
                == Parsed::Done(
                match guard {
                    Some(g) => Some(g@),
                    None => None,
                },
                next as int,
            ),
            Err(fault) => parse_guard(source(input, tokens), pos as int, value@)
                == Parsed::<Option<ExprView>>::Failed(fault),
        },
        match result {
            Ok((_, next)) => pos <= next < tokens.len(),
            Err(fault) => fault_in_range(fault, tokens.len() as nat),
        },
{
    if kind_at(tokens, pos) != TokenKind::KeywordWhen {
        return Ok((None, pos));
    }
    let (predicate, next) = match parse_expression(input, tokens, pos + 1) {
        Ok(parsed) => parsed,
        Err(fault) => { return Err(fault); },
    };
    if kind_at(tokens, next) != TokenKind::KeywordElse {
        return Err(fault_after_expression(tokens, next, Closer::Predicate));
    }
    match parse_expression(input, tokens, next + 1) {
        Ok((alternative, after)) => Ok(
            (
                Some(
                    ExprNode::GuardExpression(
                        Box::new(predicate),
                        Box::new(value.deep_clone()),
                        Box::new(alternative),
                    ),
                ),
                after,
            ),
        ),
        Err(fault) => Err(fault),
    }
}

/// Parses the rest of a calculated field whose name is at `pos` and whose
/// `=` is at `pos + 3`.
fn parse_calculated_field(input: &[u8], tokens: &Vec<Token>, pos: usize) -> (result: Result<
    (Rule, usize),
    Fault,
>)
    requires
        tokens_ok(input@, tokens@),
        pos + 3 < tokens.len(),
        tokens[pos as int].kind == TokenKind::Identifier,
        tokens[pos + 2].kind == TokenKind::Identifier,
        tokens[pos + 3].kind == TokenKind::Assign,
    ensures
        rule_outcome(result) == parse_calculated(source(input, tokens), pos as int),
        outcome_ok(result, pos, tokens.len() as nat),
{
    let identifier = token_text(input, tokens, pos);
    let declared_type = token_text(input, tokens, pos + 2);
    let (value, next) = match parse_expression(input, tokens, pos + 4) {
        Ok(parsed) => parsed,
        Err(fault) => { return Err(fault); },
    };
    match parse_guard_expression(input, tokens, next, &value) {
        Ok((guard, after)) => {
            if ends_a_rule(kind_at(tokens, after)) {
                Ok(
                    (
                        Rule::Calculated(
                            CalculatedField {
                                name: identifier,
                                data_type: declared_type,
                                expr: Box::new(value),
                                guard_expr: match guard {
                                    Some(g) => Some(Box::new(g)),
                                    None => None,
                                },
                            },
                        ),
                        after,
                    ),
                )
            } else if guard.is_some() {
                Err(fault_after_expression(tokens, after, Closer::Alternative))
            } else {
                Err(fault_after_expression(tokens, after, Closer::Value))
            }
        },
        Err(fault) => Err(fault),
    }
}

/// Whether a token of `kind` may follow a rule.
fn ends_a_rule(kind: TokenKind) -> (yes: bool)
    ensures
        yes == ends_rule(kind),
{
    kind == TokenKind::Comma || kind == TokenKind::RightBrace
}

/// The field type that the keyword `declared_type` and the array length
/// give; `None` where the keyword names no type.
pub fn expr_from_type_name(declared_type: &String, array_length: Option<usize>) -> (node: Option<
    TypeNode,
>)
    ensures
        node == match PrimitiveType::of_keyword(declared_type@) {
            Some(primitive) => Some(TypeNode::of(primitive, array_length)),
            None => None,
        },
{
    match PrimitiveType::from_keyword(declared_type) {
        Some(primitive) => Some(TypeNode::from_primitive(primitive, array_length)),
        None => None,
    }
}

/// Parses the rest of a declaration whose name is at `pos` and whose type is
/// at `pos + 2`, in the packet whose name is the token `packet`.
fn parse_packet_rule(input: &[u8], tokens: &Vec<Token>, pos: usize, packet: usize) -> (result:
    Result<(Rule, usize), Fault>)
    requires
        tokens_ok(input@, tokens@),
        pos + 2 < tokens.len(),
        packet < tokens.len(),
        tokens[pos as int].kind == TokenKind::Identifier,
        tokens[pos + 2].kind == TokenKind::Identifier,
    ensures
        rule_outcome(result) == parse_declaration(source(input, tokens), pos as int, packet as int),
        outcome_ok(result, pos, tokens.len() as nat),
{
    let identifier = token_text(input, tokens, pos);
    let declared_type = token_text(input, tokens, pos + 2);
    if PrimitiveType::from_keyword(&declared_type).is_none() {
        return Err(Fault::UnknownType { token: pos + 2, field: pos, packet });
    }
    let (array_length, next): (Option<usize>, usize) = if kind_at(tokens, pos + 3)
        == TokenKind::LeftBracket {
        match parse_array_index(input, tokens, pos + 3) {
            Ok((length, next)) => (Some(length), next),
            Err(fault) => { return Err(fault); },
        }
    } else {
        (None, pos + 3)
    };
    if !ends_a_rule(kind_at(tokens, next)) {
        return Err(
            Fault::Unexpected {
                token: next,
                expected: if array_length.is_some() {
                    Expectation::AfterDeclaration
                } else {
                    Expectation::AfterType
                },
            },
        );
    }
    match expr_from_type_name(&declared_type, array_length) {
        Some(node) => Ok((Rule::Field(TypeExpr { id: identifier, expr: node }), next)),
        None => Err(Fault::UnknownType { token: pos + 2, field: pos, packet }),
    }
}

/// Parses one rule of the packet whose name is the token `packet`: a
/// calculated field where `=` follows the type, a declaration otherwise.
fn parse_one_rule(input: &[u8], tokens: &Vec<Token>, pos: usize, packet: usize) -> (result:
    Result<(Rule, usize), Fault>)
    requires
        tokens_ok(input@, tokens@),
        pos < tokens.len(),
        packet < tokens.len(),
    ensures
        rule_outcome(result) == parse_rule(source(input, tokens), pos as int, packet as int),
        outcome_ok(result, pos, tokens.len() as nat),
{
    if kind_at(tokens, pos) != TokenKind::Identifier {
        Err(Fault::Unexpected { token: pos, expected: Expectation::Kind(TokenKind::Identifier) })
    } else if kind_at(tokens, pos + 1) != TokenKind::Colon {
        Err(Fault::Unexpected { token: pos + 1, expected: Expectation::Kind(TokenKind::Colon) })
    } else if kind_at(tokens, pos + 2) != TokenKind::Identifier {
        Err(
            Fault::Unexpected {
                token: pos + 2,
                expected: Expectation::Kind(TokenKind::Identifier),
            },
        )
    } else if kind_at(tokens, pos + 3) == TokenKind::Assign {
        parse_calculated_field(input, tokens, pos)
    } else {
        parse_packet_rule(input, tokens, pos, packet)
    }
}

/// The views of a list of calculated fields.
pub open spec fn field_list_views(fields: Seq<CalculatedField>) -> Seq<
    crate::models::parsing_models::CalculatedFieldView,
> {
    Seq::new(fields.len(), |i: int| fields[i]@)
}

/// The grammar's outcome that stands for an exec outcome of parsing a packet.
pub open spec fn packet_outcome(result: Result<(PacketExpr, usize), Fault>) -> Parsed<
    PacketExprView,
> {
    match result {
        Ok((packet, next)) => Parsed::Done(packet@, next as int),
        Err(fault) => Parsed::Failed(fault),
    }
}

/// Parses the packet definition that starts at `pos`.
fn parse_packet(input: &[u8], tokens: &Vec<Token>, pos: usize) -> (result: Result<
    (PacketExpr, usize),
    Fault,
>)
    requires
        tokens_ok(input@, tokens@),
        pos < tokens.len(),
    ensures
        packet_outcome(result) == crate::grammar::parse_packet(source(input, tokens), pos as int),
        outcome_ok(result, pos, tokens.len() as nat),
{
    let ghost src = source(input, tokens);
    if kind_at(tokens, pos) != TokenKind::KeywordPacket {
        return Err(Fault::Unexpected { token: pos, expected: Expectation::Packet });
    }
    if kind_at(tokens, pos + 1) != TokenKind::Identifier {
        return Err(
            Fault::Unexpected {
                token: pos + 1,
                expected: Expectation::Kind(TokenKind::Identifier),
            },
        );
    }
    if kind_at(tokens, pos + 2) != TokenKind::LeftBrace {
        return Err(
            Fault::Unexpected { token: pos + 2, expected: Expectation::Kind(TokenKind::LeftBrace) },
        );
    }
    let identifier = token_text(input, tokens, pos + 1);
    let mut type_rules: Vec<TypeExpr> = Vec::new();
    let mut calculated_fields: Vec<CalculatedField> = Vec::new();
    if kind_at(tokens, pos + 3) == TokenKind::RightBrace {
        let packet = PacketExpr { name: identifier, fields: type_rules, calculated_fields };
        assert(packet@.fields =~= Seq::empty());
        assert(packet@.calculated_fields =~= Seq::empty());
        return Ok((packet, pos + 4));
    }
    if kind_at(tokens, pos + 3) != TokenKind::Identifier {
        return Err(Fault::Unexpected { token: pos + 3, expected: Expectation::Rule });
    }
    let ghost mut rules: Seq<RuleView> = Seq::empty();
    let mut at: usize = pos + 3;
    let end: usize;
    loop
        invariant_except_break
            tokens_ok(input@, tokens@),
            src == source(input, tokens),
            src.kind_at(pos as int) == TokenKind::KeywordPacket,
            src.kind_at(pos + 1) == TokenKind::Identifier,
            src.kind_at(pos + 2) == TokenKind::LeftBrace,
            src.kind_at(pos + 3) == TokenKind::Identifier,
            pos + 3 <= at < tokens.len(),
            crate::ir::field_views(type_rules@) == fields_of(rules),
            field_list_views(calculated_fields@) == calculated_of(rules),
            match parse_rule_list(src, at as int, pos + 1) {
                Parsed::Done(rest, after) => parse_rule_list(src, pos + 3, pos + 1)
                    == Parsed::Done(rules + rest, after),
                Parsed::Failed(fault) => parse_rule_list(src, pos + 3, pos + 1) == Parsed::<
                    Seq<RuleView>,
                >::Failed(fault),
            },
        ensures
            pos + 3 < end < tokens.len(),
            crate::ir::field_views(type_rules@) == fields_of(rules),
            field_list_views(calculated_fields@) == calculated_of(rules),
            parse_rule_list(src, pos + 3, pos + 1) == Parsed::Done(rules, end as int),
        decreases tokens.len() - at,
    {
        let (rule, next) = match parse_one_rule(input, tokens, at, pos + 1) {
            Ok(parsed) => parsed,
            Err(fault) => { return Err(fault); },
        };
        let ghost view = rule@;
        let ghost before = rules;
        proof {
            rules = rules.push(view);
            assert(rules.drop_last() =~= before);
        }
        match rule {
            Rule::Field(field) => {
                type_rules.push(field);
            },
            Rule::Calculated(field) => {
                calculated_fields.push(field);
            },
        }
        if kind_at(tokens, next) == TokenKind::Comma {
            proof {
                match parse_rule_list(src, next + 1, pos + 1) {
                    Parsed::Done(rest, after) => {
                        assert(before + (seq![view] + rest) =~= rules + rest);
                    },
                    Parsed::Failed(fault) => {},
                }
            }
            at = next + 1;
        } else {
            assert(before + seq![view] =~= rules);
            end = next;
            break ;
        }
    }
    if kind_at(tokens, end) != TokenKind::RightBrace {
        return Err(
            Fault::Unexpected { token: end, expected: Expectation::Kind(TokenKind::RightBrace) },
        );
    }
    let packet = PacketExpr { name: identifier, fields: type_rules, calculated_fields };
    Ok((packet, end + 1))
}

/// Parses the packets of the whole input.
fn parse_packet_list(input: &[u8], tokens: &Vec<Token>) -> (result: Result<Vec<PacketExpr>, Fault>)
    requires
        tokens_ok(input@, tokens@),
    ensures
        match result {
            Ok(packets) => parse_packets(source(input, tokens), 0) matches Parsed::Done(views, _)
                && views == packet_views(packets@),
            Err(fault) => parse_packets(source(input, tokens), 0) == Parsed::<
                Seq<PacketExprView>,
            >::Failed(fault) && fault_in_range(fault, tokens.len() as nat),
        },
{
    let ghost src = source(input, tokens);
    let mut results: Vec<PacketExpr> = Vec::new();
    let mut at: usize = 0;
    loop
        invariant
            tokens_ok(input@, tokens@),
            src == source(input, tokens),
            at < tokens.len(),
            match parse_packets(src, at as int) {
                Parsed::Done(rest, after) => parse_packets(src, 0) == Parsed::Done(
                    packet_views(results@) + rest,
                    after,
                ),
                Parsed::Failed(fault) => parse_packets(src, 0) == Parsed::<
                    Seq<PacketExprView>,
                >::Failed(fault),
            },
        decreases tokens.len() - at,
    {
        if kind_at(tokens, at) == TokenKind::EndOfInput {
            return Ok(results);
        }
        match parse_packet(input, tokens, at) {
            Ok((packet, next)) => {
                let ghost before = packet_views(results@);
                let ghost view = packet@;
                results.push(packet);
                proof {
                    match parse_packets(src, next as int) {
                        Parsed::Done(rest, after) => {
                            assert(before + (seq![view] + rest) =~= packet_views(results@) + rest);
                        },
                        Parsed::Failed(fault) => {},
                    }
                }
                at = next;
            },
            Err(fault) => {
                return Err(fault);
            },
        }
    }
}

/// The position of byte `offset` of `input`.
fn locate(input: &[u8], offset: usize) -> (position: Position)
    requires
        offset <= input.len(),
    ensures
        position == position_of(input@, offset as int),
{
    let mut line: usize = 0;
    let mut column: usize = 0;
    let mut i: usize = 0;
    while i < offset
        invariant
            i <= offset <= input.len(),
            line == line_of(input@, i as int),
            column == column_of(input@, i as int),
            line <= i,
            column <= i,
        decreases offset - i,
    {
        if input[i] == LINE_FEED {
            line += 1;
            column = 0;
        } else {
            column += 1;
        }
        i += 1;
    }
    Position { offset, line, column }
}

/// The kinds of token that an expectation stands for.
fn kinds_of(expected: Expectation) -> (kinds: Vec<TokenKind>)
    ensures
        kinds@ == expected_kinds(expected),
{
    let kinds = match expected {
        Expectation::Kind(kind) => vec![kind],
        Expectation::Value => vec![
            TokenKind::Integer,
            TokenKind::Decimal,
            TokenKind::Minus,
            TokenKind::Identifier,
            TokenKind::SumOf,
            TokenKind::ProductOf,
            TokenKind::LeftParen,
        ],
        Expectation::Number => vec![TokenKind::Integer, TokenKind::Decimal],
        Expectation::Packet => vec![TokenKind::KeywordPacket, TokenKind::EndOfInput],
        Expectation::Rule => vec![TokenKind::Identifier, TokenKind::RightBrace],
        Expectation::AfterType => vec![
            TokenKind::LeftBracket,
            TokenKind::Assign,
            TokenKind::Comma,
            TokenKind::RightBrace,
        ],
        Expectation::AfterDeclaration => vec![TokenKind::Comma, TokenKind::RightBrace],
        Expectation::AfterExpression { closer, named } => {
            let mut kinds: Vec<TokenKind> = if named {
                vec![TokenKind::LeftBracket, TokenKind::LeftParen]
            } else {
                Vec::new()
            };
            let mut operators: Vec<TokenKind> = vec![
                TokenKind::OrOr,
                TokenKind::AndAnd,
                TokenKind::Greater,
                TokenKind::Less,
                TokenKind::GreaterEqual,
                TokenKind::LessEqual,
                TokenKind::EqualEqual,
                TokenKind::NotEqual,
                TokenKind::Plus,
                TokenKind::Minus,
                TokenKind::Star,
                TokenKind::Slash,
                TokenKind::Caret,
            ];
            let mut closers: Vec<TokenKind> = match closer {
                Closer::Group => vec![TokenKind::RightParen],
                Closer::Argument => vec![TokenKind::Comma, TokenKind::RightParen],
                Closer::Value => vec![
                    TokenKind::KeywordWhen,
                    TokenKind::Comma,
                    TokenKind::RightBrace,
                ],
                Closer::Predicate => vec![TokenKind::KeywordElse],
                Closer::Alternative => vec![TokenKind::Comma, TokenKind::RightBrace],
            };
            assert(kinds@ =~= continuation_kinds(named));
            assert(operators@ =~= operator_kinds());
            assert(closers@ =~= closer_kinds(closer));
            kinds.append(&mut operators);
            kinds.append(&mut closers);
            kinds
        },
    };
    kinds
}

/// The error that reports `fault`.
fn report(input: &[u8], tokens: &Vec<Token>, fault: Fault) -> (error: ParseError)
    requires
        tokens_ok(input@, tokens@),
        fault_in_range(fault, tokens.len() as nat),
    ensures
        error@ == fault_error(source(input, tokens), fault),
{
    match fault {
        Fault::Unexpected { token, expected } => {
            ParseError::Syntax {
                reason: SyntaxReason::UnexpectedToken,
                position: locate(input, tokens[token].start),
                expected: kinds_of(expected),
            }
        },
        Fault::NumberOutOfRange { token } => {
            ParseError::Syntax {
                reason: SyntaxReason::NumberOutOfRange,
                position: locate(input, tokens[token].start),
                expected: Vec::new(),
            }
        },
        Fault::NestingTooDeep { token } => {
            ParseError::Syntax {
                reason: SyntaxReason::NestingTooDeep,
                position: locate(input, tokens[token].start),
                expected: Vec::new(),
            }
        },
        Fault::UnknownType { token, field, packet } => {
            ParseError::UnknownType {
                declared_type: token_text(input, tokens, token),
                field: token_text(input, tokens, field),
                packet: token_text(input, tokens, packet),
                position: locate(input, tokens[token].start),
            }
        },
    }
}

/// Hands `packets` on where in none of them a name occurs twice, and reports
/// the first packet with such a name otherwise.
fn refuse_clashes(packets: Vec<PacketExpr>) -> (result: Result<Vec<PacketExpr>, ParseError>)
    ensures
        result_view(result) == without_clash(packet_views(packets@)),
{
    let ghost views = packet_views(packets@);
    let mut i: usize = 0;
    while i < packets.len()
        invariant
            i <= packets.len(),
            views == packet_views(packets@),
            clash_from(views, 0) == clash_from(views, i as nat),
        decreases packets.len() - i,
    {
        assert(views[i as int] == packets[i as int]@);
        match find_duplicate(&packets[i]) {
            Some(identifier) => {
                return Err(
                    ParseError::DuplicateIdentifier {
                        packet: packets[i].name.clone(),
                        identifier,
                    },
                );
            },
            None => {},
        }
        i += 1;
    }
    Ok(packets)
}

/// Parses the bytes of a definition file into its packet definitions, in
/// source order. On the first thing that the grammar does not allow, or the
/// first declared type that names no primitive type, the error says what and
/// where; no packet is handed out then.
pub fn parse_packets_from_bytes(input: &[u8]) -> (result: Result<Vec<PacketExpr>, ParseError>)
    ensures
        result_view(result) == parse_outcome(input@),
{
    let tokens = match tokenize(input) {
        Ok(tokens) => tokens,
        Err(at) => {
            return Err(
                ParseError::Syntax {
                    reason: SyntaxReason::StrayCharacter,
                    position: locate(input, at),
                    expected: Vec::new(),
                },
            );
        },
    };
    match parse_packet_list(input, &tokens) {
        Ok(packets) => refuse_clashes(packets),
        Err(fault) => Err(report(input, &tokens, fault)),
    }
}

/// Parses the text of a definition file into its packet definitions.
pub fn parse_file(input: &String) -> (result: Result<Vec<PacketExpr>, ParseError>)
    ensures
        result_view(result) == parse_outcome(vstd::utf8::encode_utf8(input@)),
{
    parse_packets_from_bytes(input.as_str().as_bytes())
}

} // verus!
