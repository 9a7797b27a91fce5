//! The grammar of packet definition files, as functions from a position in
//! the token sequence to what is parsed there.
//!
//! ```text
//! packets          := packet* end
//! packet           := "packet" identifier "{" (rule ("," rule)*)? "}"
//! rule             := calculated_field | declaration
//! declaration      := identifier ":" identifier ("[" integer "]")?
//! calculated_field := identifier ":" identifier "=" expr ("when" expr "else" expr)?
//! expr             := and_expr ("||" and_expr)*
//! and_expr         := comparison ("&&" comparison)*
//! comparison       := sum ((">" | "<" | ">=" | "<=" | "==" | "!=") sum)*
//! sum              := product (("+" | "-") product)*
//! product          := power (("*" | "/") power)*
//! power            := value ("^" power)?
//! value            := number | aggregate | call | reference | "(" expr ")"
//! number           := "-"? (integer | decimal)
//! aggregate        := ("sum-of" | "product-of") "(" expr ")"
//! call             := identifier "(" expr ("," expr)* ")"
//! reference        := identifier ("[" integer "]")?
//! ```
//!
//! The binary operators associate to the left, but for `^`, which associates
//! to the right. A minus sign belongs to a number only where it touches it.
//! Parentheses, aggregates and calls nest at most [`MAX_NESTING`] deep.
//!
//! Each function gives the value parsed at a position and the position after
//! it, or the first fault. Before a function goes on behind a part that it
//! has parsed, it tests that the part ended further on among the tokens: that
//! is what shows that the functions end. The test always holds
//! ([`lemma_binary_moves_forward`], [`lemma_rule_moves_forward`],
//! [`lemma_packet_moves_forward`]).

use crate::lexer::{tokens_ok, Token, TokenKind, DIGIT_ZERO};
use crate::models::parsing_models::{
    BinaryOp, CalculatedFieldView, ExprView, PacketExprView, PrimitiveType, TypeExprView,
    TypeNode,
};
use crate::text::ascii_text;
use vstd::prelude::*;

verus! {

/// Greatest depth to which parentheses, aggregates and calls may nest.
pub const MAX_NESTING: usize = 64;

/// What closes an expression, by where the expression stands.
#[derive(Debug, Clone, Copy, PartialEq, Eq, Structural)]
pub enum Closer {
    /// In parentheses or in an aggregate: a closing parenthesis.
    Group,
    /// Among the arguments of a call: a comma or a closing parenthesis.
    Argument,
    /// As the value of a calculated field: `when`, a comma or a closing
    /// brace.
    Value,
    /// As the predicate of a guard: `else`.
    Predicate,
    /// As the alternative of a guard: a comma or a closing brace.
    Alternative,
}

/// What the parser was looking for where it stopped.
#[derive(Debug, Clone, Copy, PartialEq, Eq, Structural)]
pub enum Expectation {
    /// A token of this kind.
    Kind(TokenKind),
    /// The start of a value: a number, a minus sign, an identifier, an
    /// aggregate or an opening parenthesis.
    Value,
    /// A number directly after a minus sign.
    Number,
    /// The keyword `packet`, or the end of the input.
    Packet,
    /// After the opening brace of a packet: the name of a field, or the
    /// closing brace.
    Rule,
    /// After the type of a declaration: an opening bracket, `=`, a comma or
    /// a closing brace.
    AfterType,
    /// After the array length of a declaration: a comma or a closing brace.
    AfterDeclaration,
    /// After an expression: a binary operator or what closes the expression;
    /// where the expression ends with the name of a field (`named`), also the
    /// opening bracket of an index and the opening parenthesis of a call.
    AfterExpression { closer: Closer, named: bool },
}

/// Why parsing stopped, and at which token.
#[derive(Debug, Clone, Copy, PartialEq, Eq, Structural)]
pub enum Fault {
    /// The token is not one that may stand there.
    Unexpected { token: usize, expected: Expectation },
    /// The integer does not fit the type that holds it.
    NumberOutOfRange { token: usize },
    /// The token opens a nesting level beyond the greatest depth.
    NestingTooDeep { token: usize },
    /// The identifier stands where a type is declared and names no type;
    /// `field` is the token of the field's name and `packet` that of the
    /// packet's.
    UnknownType { token: usize, field: usize, packet: usize },
}

/// The outcome of parsing at a position: a value and the position after it,
/// or a fault.
pub enum Parsed<T> {
    Done(T, int),
    Failed(Fault),
}

/// A rule of a packet: a declared field or a calculated field.
pub enum RuleView {
    Field(TypeExprView),
    Calculated(CalculatedFieldView),
}

/// The input and its tokens.
pub struct Source {
    pub input: Seq<u8>,
    pub tokens: Seq<Token>,
}

/// Kind of the token at `pos` of `tokens`; past the last token, end of input.
pub open spec fn kind_in(tokens: Seq<Token>, pos: int) -> TokenKind {
    if 0 <= pos < tokens.len() {
        tokens[pos].kind
    } else {
        TokenKind::EndOfInput
    }
}

impl Source {
    /// Kind of the token at `pos`; past the last token, end of input.
    pub open spec fn kind_at(self, pos: int) -> TokenKind {
        kind_in(self.tokens, pos)
    }

    /// The bytes that the token at `pos` covers.
    pub open spec fn bytes_at(self, pos: int) -> Seq<u8> {
        self.input.subrange(self.tokens[pos].start as int, self.tokens[pos].end as int)
    }

    /// The text of the token at `pos`.
    pub open spec fn text_at(self, pos: int) -> Seq<char> {
        ascii_text(self.bytes_at(pos))
    }

    /// The token at `pos + 1` starts where the token at `pos` ends.
    pub open spec fn touching(self, pos: int) -> bool {
        0 <= pos && pos + 1 < self.tokens.len() && self.tokens[pos].end == self.tokens[pos
            + 1].start
    }

    /// The text from the start of the token at `pos` to the end of the next.
    pub open spec fn joined_text(self, pos: int) -> Seq<char> {
        ascii_text(
            self.input.subrange(self.tokens[pos].start as int, self.tokens[pos + 1].end as int),
        )
    }
}

/// The number that a run of decimal digits stands for.
pub open spec fn digits_value(digits: Seq<u8>) -> nat
    decreases digits.len(),
{
    if digits.len() == 0 {
        0
    } else {
        (digits_value(digits.drop_last()) * 10 + (digits.last() - DIGIT_ZERO)) as nat
    }
}

/// The fault of meeting the token at `pos` where `expected` was looked for.
pub open spec fn unexpected<T>(pos: int, expected: Expectation) -> Parsed<T> {
    Parsed::Failed(Fault::Unexpected { token: pos as usize, expected })
}

/// The fault of meeting the token at `pos` of `tokens` where the expression
/// before it could have gone on or been closed.
pub open spec fn fault_after(tokens: Seq<Token>, pos: int, closer: Closer) -> Fault {
    Fault::Unexpected {
        token: pos as usize,
        expected: Expectation::AfterExpression {
            closer,
            named: kind_in(tokens, pos - 1) == TokenKind::Identifier,
        },
    }
}

/// The outcome of meeting the token at `pos` where the expression before it
/// could have gone on or been closed.
pub open spec fn after_expression<T>(src: Source, pos: int, closer: Closer) -> Parsed<T> {
    Parsed::Failed(fault_after(src.tokens, pos, closer))
}

/// Whether a token of `kind` may follow a rule: a comma or a closing brace.
pub open spec fn ends_rule(kind: TokenKind) -> bool {
    kind == TokenKind::Comma || kind == TokenKind::RightBrace
}

/// The operator that a token of `kind` stands for at precedence `level`:
/// 0 for `||`, 1 for `&&`, 2 for comparisons, 3 for sums, 4 for products.
pub open spec fn operator_at(level: nat, kind: TokenKind) -> Option<BinaryOp> {
    if level == 0 {
        match kind {
            TokenKind::OrOr => Some(BinaryOp::Or),
            _ => None,
        }
    } else if level == 1 {
        match kind {
            TokenKind::AndAnd => Some(BinaryOp::And),
            _ => None,
        }
    } else if level == 2 {
        match kind {
            TokenKind::Greater => Some(BinaryOp::Gt),
            TokenKind::Less => Some(BinaryOp::Lt),
            TokenKind::GreaterEqual => Some(BinaryOp::Gte),
            TokenKind::LessEqual => Some(BinaryOp::Lte),
            TokenKind::EqualEqual => Some(BinaryOp::Equals),
            TokenKind::NotEqual => Some(BinaryOp::NotEquals),
            _ => None,
        }
    } else if level == 3 {
        match kind {
            TokenKind::Plus => Some(BinaryOp::Plus),
            TokenKind::Minus => Some(BinaryOp::Minus),
            _ => None,
        }
    } else if level == 4 {
        match kind {
            TokenKind::Star => Some(BinaryOp::Mult),
            TokenKind::Slash => Some(BinaryOp::Div),
            _ => None,
        }
    } else {
        None
    }
}

/// Rank of precedence `level` in the order in which the levels call one
/// another at one position.
pub open spec fn level_rank(level: nat) -> nat {
    if level >= 5 {
        2
    } else {
        (20 - 2 * level) as nat
    }
}

/// A number after a minus sign that touches it: the negated integer, or the
/// decimal with its sign.
pub open spec fn parse_negative(src: Source, pos: int) -> Parsed<ExprView> {
    if src.touching(pos) && src.kind_at(pos + 1) == TokenKind::Integer {
        let magnitude = digits_value(src.bytes_at(pos + 1));
        if magnitude <= 0x8000_0000_0000_0000 {
            Parsed::Done(ExprView::Signed((-magnitude) as i64), pos + 2)
        } else {
            Parsed::Failed(Fault::NumberOutOfRange { token: (pos + 1) as usize })
        }
    } else if src.touching(pos) && src.kind_at(pos + 1) == TokenKind::Decimal {
        Parsed::Done(ExprView::Float(src.joined_text(pos)), pos + 2)
    } else {
        unexpected(pos + 1, Expectation::Number)
    }
}

/// The index in brackets that starts at `pos`, and the position after it.
pub open spec fn parse_array_specifier(src: Source, pos: int) -> Parsed<usize> {
    if src.kind_at(pos) != TokenKind::LeftBracket {
        unexpected(pos, Expectation::Kind(TokenKind::LeftBracket))
    } else if src.kind_at(pos + 1) != TokenKind::Integer {
        unexpected(pos + 1, Expectation::Kind(TokenKind::Integer))
    } else if digits_value(src.bytes_at(pos + 1)) > usize::MAX {
        Parsed::Failed(Fault::NumberOutOfRange { token: (pos + 1) as usize })
    } else if src.kind_at(pos + 2) != TokenKind::RightBracket {
        unexpected(pos + 2, Expectation::Kind(TokenKind::RightBracket))
    } else {
        Parsed::Done(digits_value(src.bytes_at(pos + 1)) as usize, pos + 3)
    }
}

/// A reference to a field, with the index of an element where one is given.
pub open spec fn parse_reference(src: Source, pos: int) -> Parsed<ExprView> {
    if src.kind_at(pos + 1) == TokenKind::LeftBracket {
        match parse_array_specifier(src, pos + 1) {
            Parsed::Done(index, next) => Parsed::Done(
                ExprView::Reference(src.text_at(pos), Some(index)),
                next,
            ),
            Parsed::Failed(fault) => Parsed::Failed(fault),
        }
    } else {
        Parsed::Done(ExprView::Reference(src.text_at(pos), None), pos + 1)
    }
}

/// A value: the operand of the tightest operator.
pub open spec fn parse_value(src: Source, pos: int, depth: nat) -> Parsed<ExprView>
    decreases src.tokens.len() - pos, 0nat,
{
    match src.kind_at(pos) {
        TokenKind::Integer => {
            if digits_value(src.bytes_at(pos)) <= u64::MAX {
                Parsed::Done(ExprView::Unsigned(digits_value(src.bytes_at(pos)) as u64), pos + 1)
            } else {
                Parsed::Failed(Fault::NumberOutOfRange { token: pos as usize })
            }
        },
        TokenKind::Decimal => Parsed::Done(ExprView::Float(src.text_at(pos)), pos + 1),
        TokenKind::Minus => parse_negative(src, pos),
        TokenKind::SumOf | TokenKind::ProductOf => {
            if src.kind_at(pos + 1) != TokenKind::LeftParen {
                unexpected(pos + 1, Expectation::Kind(TokenKind::LeftParen))
            } else if depth == 0 {
                Parsed::Failed(Fault::NestingTooDeep { token: (pos + 1) as usize })
            } else {
                match parse_binary(src, pos + 2, (depth - 1) as nat, 0) {
                    Parsed::Done(inner, next) => {
                        if src.kind_at(next) != TokenKind::RightParen {
                            after_expression(src, next, Closer::Group)
                        } else if src.kind_at(pos) == TokenKind::SumOf {
                            Parsed::Done(ExprView::SumOf(Box::new(inner)), next + 1)
                        } else {
                            Parsed::Done(ExprView::ProductOf(Box::new(inner)), next + 1)
                        }
                    },
                    Parsed::Failed(fault) => Parsed::Failed(fault),
                }
            }
        },
        TokenKind::Identifier => {
            if src.kind_at(pos + 1) == TokenKind::LeftParen {
                if depth == 0 {
                    Parsed::Failed(Fault::NestingTooDeep { token: (pos + 1) as usize })
                } else {
                    match parse_arguments(src, pos + 2, (depth - 1) as nat) {
                        Parsed::Done(arguments, next) => {
                            if src.kind_at(next) != TokenKind::RightParen {
                                after_expression(src, next, Closer::Argument)
                            } else {
                                Parsed::Done(ExprView::Call(src.text_at(pos), arguments), next + 1)
                            }
                        },
                        Parsed::Failed(fault) => Parsed::Failed(fault),
                    }
                }
            } else {
                parse_reference(src, pos)
            }
        },
        TokenKind::LeftParen => {
            if depth == 0 {
                Parsed::Failed(Fault::NestingTooDeep { token: pos as usize })
            } else {
                match parse_binary(src, pos + 1, (depth - 1) as nat, 0) {
                    Parsed::Done(inner, next) => {
                        if src.kind_at(next) != TokenKind::RightParen {
                            after_expression(src, next, Closer::Group)
                        } else {
                            Parsed::Done(ExprView::Paren(Box::new(inner)), next + 1)
                        }
                    },
                    Parsed::Failed(fault) => Parsed::Failed(fault),
                }
            }
        },
        _ => unexpected(pos, Expectation::Value),
    }
}

/// A value, raised to a power where `^` follows.
pub open spec fn parse_power(src: Source, pos: int, depth: nat) -> Parsed<ExprView>
    decreases src.tokens.len() - pos, 1nat,
{
    match parse_value(src, pos, depth) {
        Parsed::Done(base, next) => {
            if pos < next < src.tokens.len() && src.kind_at(next) == TokenKind::Caret {
                match parse_power(src, next + 1, depth) {
                    Parsed::Done(exponent, after) => Parsed::Done(
                        ExprView::Binary(BinaryOp::Pow, Box::new(base), Box::new(exponent)),
                        after,
                    ),
                    Parsed::Failed(fault) => Parsed::Failed(fault),
                }
            } else {
                Parsed::Done(base, next)
            }
        },
        Parsed::Failed(fault) => Parsed::Failed(fault),
    }
}

/// An expression of precedence `level`: operands of the next level, joined
/// from the left by the operators of this level.
pub open spec fn parse_binary(src: Source, pos: int, depth: nat, level: nat) -> Parsed<ExprView>
    decreases src.tokens.len() - pos, level_rank(level),
{
    if level >= 5 {
        parse_power(src, pos, depth)
    } else {
        match parse_binary(src, pos, depth, level + 1) {
            Parsed::Done(left, next) => {
                if pos < next <= src.tokens.len() {
                    parse_binary_rest(src, next, depth, level, left)
                } else {
                    Parsed::Done(left, next)
                }
            },
            Parsed::Failed(fault) => Parsed::Failed(fault),
        }
    }
}

/// Continues an expression of precedence `level` whose operands so far make
/// up `left`.
pub open spec fn parse_binary_rest(
    src: Source,
    pos: int,
    depth: nat,
    level: nat,
    left: ExprView,
) -> Parsed<ExprView>
    decreases src.tokens.len() - pos, 0nat,
{
    match operator_at(level, src.kind_at(pos)) {
        Some(op) => {
            if level < 5 && 0 <= pos < src.tokens.len() {
                match parse_binary(src, pos + 1, depth, level + 1) {
                    Parsed::Done(right, next) => {
                        let joined = ExprView::Binary(op, Box::new(left), Box::new(right));
                        if pos < next <= src.tokens.len() {
                            parse_binary_rest(src, next, depth, level, joined)
                        } else {
                            Parsed::Done(joined, next)
                        }
                    },
                    Parsed::Failed(fault) => Parsed::Failed(fault),
                }
            } else {
                Parsed::Done(left, pos)
            }
        },
        None => Parsed::Done(left, pos),
    }
}

/// The arguments of a call: one expression or more, separated by commas.
pub open spec fn parse_arguments(src: Source, pos: int, depth: nat) -> Parsed<Seq<ExprView>>
    decreases src.tokens.len() - pos, 30nat,
{
    match parse_binary(src, pos, depth, 0) {
        Parsed::Done(first, next) => {
            if pos < next < src.tokens.len() && src.kind_at(next) == TokenKind::Comma {
                match parse_arguments(src, next + 1, depth) {
                    Parsed::Done(rest, after) => Parsed::Done(seq![first] + rest, after),
                    Parsed::Failed(fault) => Parsed::Failed(fault),
                }
            } else {
                Parsed::Done(seq![first], next)
            }
        },
        Parsed::Failed(fault) => Parsed::Failed(fault),
    }
}

/// An expression.
pub open spec fn parse_expr(src: Source, pos: int) -> Parsed<ExprView> {
    parse_binary(src, pos, MAX_NESTING as nat, 0)
}

/// The guard that follows the expression `value` of a calculated field, where
/// there is one: `when` predicate `else` alternative.
pub open spec fn parse_guard(src: Source, pos: int, value: ExprView) -> Parsed<Option<ExprView>> {
    if src.kind_at(pos) != TokenKind::KeywordWhen {
        Parsed::Done(None, pos)
    } else {
        match parse_expr(src, pos + 1) {
            Parsed::Done(predicate, next) => {
                if src.kind_at(next) != TokenKind::KeywordElse {
                    after_expression(src, next, Closer::Predicate)
                } else {
                    match parse_expr(src, next + 1) {
                        Parsed::Done(alternative, after) => Parsed::Done(
                            Some(
                                ExprView::Guard(
                                    Box::new(predicate),
                                    Box::new(value),
                                    Box::new(alternative),
                                ),
                            ),
                            after,
                        ),
                        Parsed::Failed(fault) => Parsed::Failed(fault),
                    }
                }
            },
            Parsed::Failed(fault) => Parsed::Failed(fault),
        }
    }
}

/// The rest of a calculated field whose name is at `pos` and whose `=` is at
/// `pos + 3`, up to the comma or the closing brace that follows it.
pub open spec fn parse_calculated(src: Source, pos: int) -> Parsed<RuleView> {
    match parse_expr(src, pos + 4) {
        Parsed::Done(value, next) => match parse_guard(src, next, value) {
            Parsed::Done(guard, after) => {
                if ends_rule(src.kind_at(after)) {
                    Parsed::Done(
                        RuleView::Calculated(
                            CalculatedFieldView {
                                name: src.text_at(pos),
                                data_type: src.text_at(pos + 2),
                                expr: value,
                                guard_expr: guard,
                            },
                        ),
                        after,
                    )
                } else if guard is Some {
                    after_expression(src, after, Closer::Alternative)
                } else {
                    after_expression(src, after, Closer::Value)
                }
            },
            Parsed::Failed(fault) => Parsed::Failed(fault),
        },
        Parsed::Failed(fault) => Parsed::Failed(fault),
    }
}

/// The rest of a declaration whose name is at `pos` and whose type is at
/// `pos + 2`, up to the comma or the closing brace that follows it.
pub open spec fn parse_declaration(src: Source, pos: int, packet: int) -> Parsed<RuleView> {
    match PrimitiveType::of_keyword(src.text_at(pos + 2)) {
        None => Parsed::Failed(
            Fault::UnknownType {
                token: (pos + 2) as usize,
                field: pos as usize,
                packet: packet as usize,
            },
        ),
        Some(primitive) => {
            if src.kind_at(pos + 3) == TokenKind::LeftBracket {
                match parse_array_specifier(src, pos + 3) {
                    Parsed::Done(length, next) => {
                        if ends_rule(src.kind_at(next)) {
                            Parsed::Done(
                                RuleView::Field(
                                    TypeExprView {
                                        id: src.text_at(pos),
                                        expr: TypeNode::of(primitive, Some(length)),
                                    },
                                ),
                                next,
                            )
                        } else {
                            unexpected(next, Expectation::AfterDeclaration)
                        }
                    },
                    Parsed::Failed(fault) => Parsed::Failed(fault),
                }
            } else if ends_rule(src.kind_at(pos + 3)) {
                Parsed::Done(
                    RuleView::Field(
                        TypeExprView { id: src.text_at(pos), expr: TypeNode::of(primitive, None) },
                    ),
                    pos + 3,
                )
            } else {
                unexpected(pos + 3, Expectation::AfterType)
            }
        },
    }
}

/// A rule of the packet whose name is the token `packet`, up to the comma
/// or the closing brace that follows it.
pub open spec fn parse_rule(src: Source, pos: int, packet: int) -> Parsed<RuleView> {
    if src.kind_at(pos) != TokenKind::Identifier {
        unexpected(pos, Expectation::Kind(TokenKind::Identifier))
    } else if src.kind_at(pos + 1) != TokenKind::Colon {
        unexpected(pos + 1, Expectation::Kind(TokenKind::Colon))
    } else if src.kind_at(pos + 2) != TokenKind::Identifier {
        unexpected(pos + 2, Expectation::Kind(TokenKind::Identifier))
    } else if src.kind_at(pos + 3) == TokenKind::Assign {
        parse_calculated(src, pos)
    } else {
        parse_declaration(src, pos, packet)
    }
}

/// One rule or more, separated by commas.
pub open spec fn parse_rule_list(src: Source, pos: int, packet: int) -> Parsed<Seq<RuleView>>
    decreases src.tokens.len() - pos,
{
    match parse_rule(src, pos, packet) {
        Parsed::Done(rule, next) => {
            if pos < next < src.tokens.len() && src.kind_at(next) == TokenKind::Comma {
                match parse_rule_list(src, next + 1, packet) {
                    Parsed::Done(rest, after) => Parsed::Done(seq![rule] + rest, after),
                    Parsed::Failed(fault) => Parsed::Failed(fault),
                }
            } else {
                Parsed::Done(seq![rule], next)
            }
        },
        Parsed::Failed(fault) => Parsed::Failed(fault),
    }
}

/// The declared fields among `rules`, in order.
pub open spec fn fields_of(rules: Seq<RuleView>) -> Seq<TypeExprView>
    decreases rules.len(),
{
    if rules.len() == 0 {
        Seq::empty()
    } else {
        match rules.last() {
            RuleView::Field(field) => fields_of(rules.drop_last()).push(field),
            RuleView::Calculated(_) => fields_of(rules.drop_last()),
        }
    }
}

/// The calculated fields among `rules`, in order.
pub open spec fn calculated_of(rules: Seq<RuleView>) -> Seq<CalculatedFieldView>
    decreases rules.len(),
{
    if rules.len() == 0 {
        Seq::empty()
    } else {
        match rules.last() {
            RuleView::Field(_) => calculated_of(rules.drop_last()),
            RuleView::Calculated(field) => calculated_of(rules.drop_last()).push(field),
        }
    }
}

/// A packet definition.
pub open spec fn parse_packet(src: Source, pos: int) -> Parsed<PacketExprView> {
    if src.kind_at(pos) != TokenKind::KeywordPacket {
        unexpected(pos, Expectation::Packet)
    } else if src.kind_at(pos + 1) != TokenKind::Identifier {
        unexpected(pos + 1, Expectation::Kind(TokenKind::Identifier))
    } else if src.kind_at(pos + 2) != TokenKind::LeftBrace {
        unexpected(pos + 2, Expectation::Kind(TokenKind::LeftBrace))
    } else if src.kind_at(pos + 3) == TokenKind::RightBrace {
        Parsed::Done(
            PacketExprView {
                name: src.text_at(pos + 1),
                fields: Seq::empty(),
                calculated_fields: Seq::empty(),
            },
            pos + 4,
        )
    } else if src.kind_at(pos + 3) != TokenKind::Identifier {
        unexpected(pos + 3, Expectation::Rule)
    } else {
        match parse_rule_list(src, pos + 3, pos + 1) {
            Parsed::Done(rules, next) => {
                if src.kind_at(next) != TokenKind::RightBrace {
                    unexpected(next, Expectation::Kind(TokenKind::RightBrace))
                } else {
                    Parsed::Done(
                        PacketExprView {
                            name: src.text_at(pos + 1),
                            fields: fields_of(rules),
                            calculated_fields: calculated_of(rules),
                        },
                        next + 1,
                    )
                }
            },
            Parsed::Failed(fault) => Parsed::Failed(fault),
        }
    }
}

/// The packets from `pos` to the end of the input.
pub open spec fn parse_packets(src: Source, pos: int) -> Parsed<Seq<PacketExprView>>
    decreases src.tokens.len() - pos,
{
    if src.kind_at(pos) == TokenKind::EndOfInput {
        Parsed::Done(Seq::empty(), pos)
    } else {
        match parse_packet(src, pos) {
            Parsed::Done(packet, next) => {
                if pos < next <= src.tokens.len() {
                    match parse_packets(src, next) {
                        Parsed::Done(rest, after) => Parsed::Done(seq![packet] + rest, after),
                        Parsed::Failed(fault) => Parsed::Failed(fault),
                    }
                } else {
                    Parsed::Done(seq![packet], next)
                }
            },
            Parsed::Failed(fault) => Parsed::Failed(fault),
        }
    }
}

/// In well-formed tokens a token that is not the end of the input has a
/// token after it.
proof fn lemma_token_has_successor(src: Source, pos: int)
    requires
        tokens_ok(src.input, src.tokens),
        src.kind_at(pos) != TokenKind::EndOfInput,
    ensures
        0 <= pos < src.tokens.len() - 1,
{
}

/// A value that parses ends after where it starts, and before the end of the
/// input.
proof fn lemma_value_moves_forward(src: Source, pos: int, depth: nat)
    requires
        tokens_ok(src.input, src.tokens),
        0 <= pos < src.tokens.len(),
    ensures
        parse_value(src, pos, depth) matches Parsed::Done(_, next) ==> pos < next
            < src.tokens.len(),
    decreases src.tokens.len() - pos, 0nat,
{
    match src.kind_at(pos) {
        TokenKind::Integer | TokenKind::Decimal => {
            lemma_token_has_successor(src, pos);
        },
        TokenKind::Minus => {
            if parse_negative(src, pos) is Done {
                lemma_token_has_successor(src, pos + 1);
            }
        },
        TokenKind::SumOf | TokenKind::ProductOf => {
            if src.kind_at(pos + 1) == TokenKind::LeftParen && depth > 0 {
                lemma_token_has_successor(src, pos + 1);
                lemma_binary_moves_forward(src, pos + 2, (depth - 1) as nat, 0);
                if let Parsed::Done(_, next) = parse_binary(src, pos + 2, (depth - 1) as nat, 0) {
                    if src.kind_at(next) == TokenKind::RightParen {
                        lemma_token_has_successor(src, next);
                    }
                }
            }
        },
        TokenKind::Identifier => {
            lemma_token_has_successor(src, pos);
            if src.kind_at(pos + 1) == TokenKind::LeftParen {
                if depth > 0 {
                    lemma_token_has_successor(src, pos + 1);
                    lemma_arguments_move_forward(src, pos + 2, (depth - 1) as nat);
                    if let Parsed::Done(_, next) = parse_arguments(
                        src,
                        pos + 2,
                        (depth - 1) as nat,
                    ) {
                        if src.kind_at(next) == TokenKind::RightParen {
                            lemma_token_has_successor(src, next);
                        }
                    }
                }
            } else if src.kind_at(pos + 1) == TokenKind::LeftBracket {
                if parse_array_specifier(src, pos + 1) is Done {
                    lemma_token_has_successor(src, pos + 3);
                }
            }
        },
        TokenKind::LeftParen => {
            if depth > 0 {
                lemma_token_has_successor(src, pos);
                lemma_binary_moves_forward(src, pos + 1, (depth - 1) as nat, 0);
                if let Parsed::Done(_, next) = parse_binary(src, pos + 1, (depth - 1) as nat, 0) {
                    if src.kind_at(next) == TokenKind::RightParen {
                        lemma_token_has_successor(src, next);
                    }
                }
            }
        },
        _ => {},
    }
}

proof fn lemma_power_moves_forward(src: Source, pos: int, depth: nat)
    requires
        tokens_ok(src.input, src.tokens),
        0 <= pos < src.tokens.len(),
    ensures
        parse_power(src, pos, depth) matches Parsed::Done(_, next) ==> pos < next
            < src.tokens.len(),
    decreases src.tokens.len() - pos, 1nat,
{
    lemma_value_moves_forward(src, pos, depth);
    if let Parsed::Done(_, next) = parse_value(src, pos, depth) {
        if src.kind_at(next) == TokenKind::Caret {
            lemma_token_has_successor(src, next);
            lemma_power_moves_forward(src, next + 1, depth);
        }
    }
}

/// An expression that parses ends after where it starts, and before the end
/// of the input. So the bounds that the grammar's functions test before they
/// go on always hold: they say why the functions end, and never refuse a
/// text.
pub proof fn lemma_binary_moves_forward(src: Source, pos: int, depth: nat, level: nat)
    requires
        tokens_ok(src.input, src.tokens),
        0 <= pos < src.tokens.len(),
    ensures
        parse_binary(src, pos, depth, level) matches Parsed::Done(_, next) ==> pos < next
            < src.tokens.len(),
    decreases src.tokens.len() - pos, level_rank(level),
{
    if level >= 5 {
        lemma_power_moves_forward(src, pos, depth);
    } else {
        lemma_binary_moves_forward(src, pos, depth, level + 1);
        if let Parsed::Done(left, next) = parse_binary(src, pos, depth, level + 1) {
            lemma_rest_moves_forward(src, next, depth, level, left);
        }
    }
}

proof fn lemma_rest_moves_forward(src: Source, pos: int, depth: nat, level: nat, left: ExprView)
    requires
        tokens_ok(src.input, src.tokens),
        0 <= pos < src.tokens.len(),
    ensures
        parse_binary_rest(src, pos, depth, level, left) matches Parsed::Done(_, next) ==> pos
            <= next < src.tokens.len(),
    decreases src.tokens.len() - pos, 0nat,
{
    if let Some(op) = operator_at(level, src.kind_at(pos)) {
        if level < 5 {
            lemma_token_has_successor(src, pos);
            lemma_binary_moves_forward(src, pos + 1, depth, level + 1);
            if let Parsed::Done(right, next) = parse_binary(src, pos + 1, depth, level + 1) {
                lemma_rest_moves_forward(
                    src,
                    next,
                    depth,
                    level,
                    ExprView::Binary(op, Box::new(left), Box::new(right)),
                );
            }
        }
    }
}

proof fn lemma_arguments_move_forward(src: Source, pos: int, depth: nat)
    requires
        tokens_ok(src.input, src.tokens),
        0 <= pos < src.tokens.len(),
    ensures
        parse_arguments(src, pos, depth) matches Parsed::Done(_, next) ==> pos < next
            < src.tokens.len(),
    decreases src.tokens.len() - pos, 30nat,
{
    lemma_binary_moves_forward(src, pos, depth, 0);
    if let Parsed::Done(_, next) = parse_binary(src, pos, depth, 0) {
        if src.kind_at(next) == TokenKind::Comma {
            lemma_token_has_successor(src, next);
            lemma_arguments_move_forward(src, next + 1, depth);
        }
    }
}

/// A rule that parses ends after where it starts, and before the end of the
/// input.
pub proof fn lemma_rule_moves_forward(src: Source, pos: int, packet: int)
    requires
        tokens_ok(src.input, src.tokens),
        0 <= pos < src.tokens.len(),
    ensures
        parse_rule(src, pos, packet) matches Parsed::Done(_, next) ==> pos < next
            < src.tokens.len(),
{
    if src.kind_at(pos) == TokenKind::Identifier && src.kind_at(pos + 1) == TokenKind::Colon
        && src.kind_at(pos + 2) == TokenKind::Identifier {
        lemma_token_has_successor(src, pos);
        lemma_token_has_successor(src, pos + 1);
        lemma_token_has_successor(src, pos + 2);
        if src.kind_at(pos + 3) == TokenKind::Assign {
            lemma_token_has_successor(src, pos + 3);
            lemma_binary_moves_forward(src, pos + 4, MAX_NESTING as nat, 0);
            if let Parsed::Done(value, next) = parse_expr(src, pos + 4) {
                if src.kind_at(next) == TokenKind::KeywordWhen {
                    lemma_token_has_successor(src, next);
                    lemma_binary_moves_forward(src, next + 1, MAX_NESTING as nat, 0);
                    if let Parsed::Done(_, other) = parse_expr(src, next + 1) {
                        if src.kind_at(other) == TokenKind::KeywordElse {
                            lemma_token_has_successor(src, other);
                            lemma_binary_moves_forward(src, other + 1, MAX_NESTING as nat, 0);
                        }
                    }
                }
            }
        } else if src.kind_at(pos + 3) == TokenKind::LeftBracket {
            if parse_array_specifier(src, pos + 3) is Done {
                lemma_token_has_successor(src, pos + 5);
            }
        }
    }
}

/// A rule that parses is followed by a comma or by a closing brace: so the
/// rule after which no comma stands is followed by the brace that closes the
/// packet.
pub proof fn lemma_rule_is_closed(src: Source, pos: int, packet: int)
    ensures
        parse_rule(src, pos, packet) matches Parsed::Done(_, next) ==> ends_rule(
            src.kind_at(next),
        ),
{
}

/// A packet that parses ends after where it starts, and no further than the
/// end of the input.
pub proof fn lemma_packet_moves_forward(src: Source, pos: int)
    requires
        tokens_ok(src.input, src.tokens),
        0 <= pos < src.tokens.len(),
    ensures
        parse_packet(src, pos) matches Parsed::Done(_, next) ==> pos < next < src.tokens.len(),
{
    if src.kind_at(pos) == TokenKind::KeywordPacket && src.kind_at(pos + 1)
        == TokenKind::Identifier && src.kind_at(pos + 2) == TokenKind::LeftBrace {
        lemma_token_has_successor(src, pos);
        lemma_token_has_successor(src, pos + 1);
        lemma_token_has_successor(src, pos + 2);
        if src.kind_at(pos + 3) == TokenKind::RightBrace {
            lemma_token_has_successor(src, pos + 3);
        } else {
            lemma_rules_move_forward(src, pos + 3, pos + 1);
            if let Parsed::Done(_, next) = parse_rule_list(src, pos + 3, pos + 1) {
                if src.kind_at(next) == TokenKind::RightBrace {
                    lemma_token_has_successor(src, next);
                }
            }
        }
    }
}

proof fn lemma_rules_move_forward(src: Source, pos: int, packet: int)
    requires
        tokens_ok(src.input, src.tokens),
        0 <= pos < src.tokens.len(),
    ensures
        parse_rule_list(src, pos, packet) matches Parsed::Done(_, next) ==> pos < next
            < src.tokens.len(),
    decreases src.tokens.len() - pos,
{
    lemma_rule_moves_forward(src, pos, packet);
    if let Parsed::Done(_, next) = parse_rule(src, pos, packet) {
        if src.kind_at(next) == TokenKind::Comma {
            lemma_token_has_successor(src, next);
            lemma_rules_move_forward(src, next + 1, packet);
        }
    }
}

} // verus!
