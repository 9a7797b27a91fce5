//! The codec description of a packet: what an emitter needs to write code
//! that reads and writes the packet, and nothing that it would have to work
//! out again.
//!
//! It holds the packet's name and declared fields, the layout, the table of
//! slots with the byte order of each, and for each calculated field its
//! expression with every reference to a field replaced by the index of the
//! slot that holds the value.

use crate::codec::Endianness;
use crate::layout::{checked_layout, layout_of, PacketLayout, PacketLayoutView};
use crate::models::parsing_models::{
    BinaryOp, CalculatedField, CalculatedFieldView, ExprNode, ExprView, PacketExpr,
    PacketExprView, PrimitiveType, TypeExpr, TypeExprView, TypeNode,
};
use crate::slots::{
    expand_slots, lemma_slot_count_len, lemma_slot_count_monotonic, lemma_slots_tile_packet,
    slot_count, slot_views, slots_of, slots_tile, slots_width, SlotCodec, SlotView,
};
use crate::wire::{
    deserialize_slots, serialize_slots, values_fit, wire_bytes, wire_values, WireError,
};
use vstd::prelude::*;
use vstd::string::*;

verus! {

/// An expression over the slots of a packet.
#[derive(Debug, PartialEq, Eq)]
pub enum CodecExpr {
    Unsigned(u64),
    Signed(i64),
    /// A floating-point literal, as its decimal text.
    Float(String),
    /// The value of the slot with the index `index` in the packet's table of
    /// slots: the field `field`, or its element `element` where the field is
    /// an array.
    Slot { index: usize, field: String, element: Option<usize> },
    /// An expression in parentheses.
    Group(Box<CodecExpr>),
    Binary(BinaryOp, Box<CodecExpr>, Box<CodecExpr>),
    /// The second expression where the first holds, the third otherwise.
    Select(Box<CodecExpr>, Box<CodecExpr>, Box<CodecExpr>),
    Sqrt(Box<CodecExpr>),
    Min(Box<CodecExpr>, Box<CodecExpr>),
    Max(Box<CodecExpr>, Box<CodecExpr>),
}

/// The mathematical value of a [`CodecExpr`].
pub enum CodecExprView {
    Unsigned(u64),
    Signed(i64),
    Float(Seq<char>),
    Slot { index: nat, field: Seq<char>, element: Option<usize> },
    Group(Box<CodecExprView>),
    Binary(BinaryOp, Box<CodecExprView>, Box<CodecExprView>),
    Select(Box<CodecExprView>, Box<CodecExprView>, Box<CodecExprView>),
    Sqrt(Box<CodecExprView>),
    Min(Box<CodecExprView>, Box<CodecExprView>),
    Max(Box<CodecExprView>, Box<CodecExprView>),
}

/// The view of an expression, by recursion on the tree.
pub open spec fn codec_expr_view(e: CodecExpr) -> CodecExprView
    decreases e,
{
    match e {
        CodecExpr::Unsigned(v) => CodecExprView::Unsigned(v),
        CodecExpr::Signed(v) => CodecExprView::Signed(v),
        CodecExpr::Float(text) => CodecExprView::Float(text@),
        CodecExpr::Slot { index, field, element } => CodecExprView::Slot {
            index: index as nat,
            field: field@,
            element,
        },
        CodecExpr::Group(inner) => CodecExprView::Group(Box::new(codec_expr_view(*inner))),
        CodecExpr::Binary(op, l, r) => CodecExprView::Binary(
            op,
            Box::new(codec_expr_view(*l)),
            Box::new(codec_expr_view(*r)),
        ),
        CodecExpr::Select(c, t, o) => CodecExprView::Select(
            Box::new(codec_expr_view(*c)),
            Box::new(codec_expr_view(*t)),
            Box::new(codec_expr_view(*o)),
        ),
        CodecExpr::Sqrt(inner) => CodecExprView::Sqrt(Box::new(codec_expr_view(*inner))),
        CodecExpr::Min(l, r) => CodecExprView::Min(
            Box::new(codec_expr_view(*l)),
            Box::new(codec_expr_view(*r)),
        ),
        CodecExpr::Max(l, r) => CodecExprView::Max(
            Box::new(codec_expr_view(*l)),
            Box::new(codec_expr_view(*r)),
        ),
    }
}

impl View for CodecExpr {
    type V = CodecExprView;

    open spec fn view(&self) -> CodecExprView {
        codec_expr_view(*self)
    }
}

/// Why an expression has no place in a codec description.
#[derive(Debug, Clone, PartialEq, Eq)]
pub enum ExprError {
    /// The expression holds something that cannot be evaluated: an aggregate,
    /// a call of an unknown function or with the wrong number of arguments, a
    /// whole array used as a value, or an empty node.
    Unsupported,
    /// The reference indexes past the end of the array, or into a scalar.
    IndexOutOfRange { reference: String, index: usize },
    /// The reference names no field of the packet.
    UnknownReference { reference: String },
}

/// [`ExprError`] with its names as sequences of characters.
pub enum ExprFault {
    Unsupported,
    IndexOutOfRange { reference: Seq<char>, index: usize },
    UnknownReference { reference: Seq<char> },
}

impl View for ExprError {
    type V = ExprFault;

    open spec fn view(&self) -> ExprFault {
        match self {
            ExprError::Unsupported => ExprFault::Unsupported,
            ExprError::IndexOutOfRange { reference, index } => ExprFault::IndexOutOfRange {
                reference: reference@,
                index: *index,
            },
            ExprError::UnknownReference { reference } => ExprFault::UnknownReference {
                reference: reference@,
            },
        }
    }
}

/// Index of the first field from `from` on whose name is `name`.
pub open spec fn position_from(fields: Seq<TypeExprView>, name: Seq<char>, from: nat) -> Option<
    nat,
>
    decreases fields.len() - from,
{
    if from >= fields.len() {
        None
    } else if fields[from as int].id == name {
        Some(from)
    } else {
        position_from(fields, name, from + 1)
    }
}

/// The types of `fields`.
pub open spec fn types_of(fields: Seq<TypeExprView>) -> Seq<TypeNode> {
    Seq::new(fields.len(), |i: int| fields[i].expr)
}

/// The slot that a reference to `name`, with `index` where one is given,
/// stands for.
pub open spec fn resolve_reference(
    fields: Seq<TypeExprView>,
    name: Seq<char>,
    index: Option<usize>,
) -> Result<nat, ExprFault> {
    match position_from(fields, name, 0) {
        None => Err(ExprFault::UnknownReference { reference: name }),
        Some(field) => {
            let first = slot_count(types_of(fields), field);
            match (fields[field as int].expr.array_length(), index) {
                (None, None) => Ok(first),
                (Some(length), Some(element)) => {
                    if element < length {
                        Ok((first + element) as nat)
                    } else {
                        Err(ExprFault::IndexOutOfRange { reference: name, index: element })
                    }
                },
                (None, Some(element)) => Err(
                    ExprFault::IndexOutOfRange { reference: name, index: element },
                ),
                (Some(_), None) => Err(ExprFault::Unsupported),
            }
        },
    }
}

/// The expression over slots that `e` stands for in a packet with the fields
/// `fields`, or the first fault met from left to right.
pub open spec fn resolve_expr(fields: Seq<TypeExprView>, e: ExprView) -> Result<
    CodecExprView,
    ExprFault,
>
    decreases e,
{
    match e {
        ExprView::Unsigned(v) => Ok(CodecExprView::Unsigned(v)),
        ExprView::Signed(v) => Ok(CodecExprView::Signed(v)),
        ExprView::Float(text) => Ok(CodecExprView::Float(text)),
        ExprView::Reference(name, index) => match resolve_reference(fields, name, index) {
            Ok(slot) => Ok(CodecExprView::Slot { index: slot, field: name, element: index }),
            Err(fault) => Err(fault),
        },
        ExprView::MacAddress => Err(ExprFault::Unsupported),
        ExprView::Paren(inner) => match resolve_expr(fields, *inner) {
            Ok(inner) => Ok(CodecExprView::Group(Box::new(inner))),
            Err(fault) => Err(fault),
        },
        ExprView::Binary(op, l, r) => match resolve_expr(fields, *l) {
            Ok(left) => match resolve_expr(fields, *r) {
                Ok(right) => Ok(CodecExprView::Binary(op, Box::new(left), Box::new(right))),
                Err(fault) => Err(fault),
            },
            Err(fault) => Err(fault),
        },
        ExprView::Guard(c, t, o) => match resolve_expr(fields, *c) {
            Ok(predicate) => match resolve_expr(fields, *t) {
                Ok(value) => match resolve_expr(fields, *o) {
                    Ok(alternative) => Ok(
                        CodecExprView::Select(
                            Box::new(predicate),
                            Box::new(value),
                            Box::new(alternative),
                        ),
                    ),
                    Err(fault) => Err(fault),
                },
                Err(fault) => Err(fault),
            },
            Err(fault) => Err(fault),
        },
        ExprView::SumOf(_) => Err(ExprFault::Unsupported),
        ExprView::ProductOf(_) => Err(ExprFault::Unsupported),
        ExprView::Call(name, arguments) => {
            if name == "sqrt"@ && arguments.len() == 1 {
                match resolve_expr(fields, arguments[0]) {
                    Ok(inner) => Ok(CodecExprView::Sqrt(Box::new(inner))),
                    Err(fault) => Err(fault),
                }
            } else if (name == "min"@ || name == "max"@) && arguments.len() == 2 {
                match resolve_expr(fields, arguments[0]) {
                    Ok(left) => match resolve_expr(fields, arguments[1]) {
                        Ok(right) => if name == "min"@ {
                            Ok(CodecExprView::Min(Box::new(left), Box::new(right)))
                        } else {
                            Ok(CodecExprView::Max(Box::new(left), Box::new(right)))
                        },
                        Err(fault) => Err(fault),
                    },
                    Err(fault) => Err(fault),
                }
            } else {
                Err(ExprFault::Unsupported)
            }
        },
        ExprView::NoExpr => Err(ExprFault::Unsupported),
    }
}

/// Whether an aggregate, `sum-of` or `product-of`, stands anywhere in `e`.
pub open spec fn holds_aggregate(e: ExprView) -> bool
    decreases e,
{
    match e {
        ExprView::SumOf(_) => true,
        ExprView::ProductOf(_) => true,
        ExprView::Paren(inner) => holds_aggregate(*inner),
        ExprView::Binary(_, l, r) => holds_aggregate(*l) || holds_aggregate(*r),
        ExprView::Guard(c, t, o) => holds_aggregate(*c) || holds_aggregate(*t) || holds_aggregate(
            *o,
        ),
        ExprView::Call(_, arguments) => exists|i: int|
            0 <= i < arguments.len() && holds_aggregate(#[trigger] arguments[i]),
        _ => false,
    }
}

/// An expression in which an aggregate stands, at whatever depth, stands for
/// no expression over slots, whatever the fields of the packet are.
pub proof fn lemma_aggregate_never_resolves(fields: Seq<TypeExprView>, e: ExprView)
    requires
        holds_aggregate(e),
    ensures
        resolve_expr(fields, e) is Err,
    decreases e,
{
    match e {
        ExprView::Paren(inner) => {
            lemma_aggregate_never_resolves(fields, *inner);
        },
        ExprView::Binary(_, l, r) => {
            if holds_aggregate(*l) {
                lemma_aggregate_never_resolves(fields, *l);
            } else {
                lemma_aggregate_never_resolves(fields, *r);
            }
        },
        ExprView::Guard(c, t, o) => {
            if holds_aggregate(*c) {
                lemma_aggregate_never_resolves(fields, *c);
            } else if holds_aggregate(*t) {
                lemma_aggregate_never_resolves(fields, *t);
            } else {
                lemma_aggregate_never_resolves(fields, *o);
            }
        },
        ExprView::Call(_, arguments) => {
            let i = choose|i: int|
                0 <= i < arguments.len() && holds_aggregate(#[trigger] arguments[i]);
            lemma_aggregate_never_resolves(fields, arguments[i]);
        },
        _ => {},
    }
}

/// A reference that resolves names a slot of the packet's table: the slot of
/// the field with the reference's name, and of the element with its index.
pub proof fn lemma_reference_names_its_slot(
    packet: PacketExprView,
    name: Seq<char>,
    index: Option<usize>,
    order: Endianness,
)
    requires
        resolve_reference(packet.fields, name, index) is Ok,
    ensures
        ({
            let slot = resolve_reference(packet.fields, name, index)->Ok_0;
            let field = position_from(packet.fields, name, 0)->Some_0;
            &&& slot < slots_of(packet, order).len()
            &&& field < packet.fields.len()
            &&& packet.fields[field as int].id == name
            &&& slots_of(packet, order)[slot as int].field_index == field
            &&& slots_of(packet, order)[slot as int].element_index == match index {
                Some(k) => Some(k as nat),
                None => None,
            }
        }),
{
    let types = packet.field_types();
    lemma_position_is_a_match(packet.fields, name, 0);
    let field = position_from(packet.fields, name, 0)->Some_0;
    let element: int = match index {
        Some(k) => k as int,
        None => 0,
    };
    crate::slots::lemma_slot_index(types, types.len(), order, field as int, element);
}

/// Where a field called `name` is found from `from` on, it is a field of the
/// packet and has that name.
proof fn lemma_position_is_a_match(fields: Seq<TypeExprView>, name: Seq<char>, from: nat)
    ensures
        position_from(fields, name, from) matches Some(index) ==> from <= index < fields.len()
            && fields[index as int].id == name,
    decreases fields.len() - from,
{
    if from < fields.len() && fields[from as int].id != name {
        lemma_position_is_a_match(fields, name, from + 1);
    }
}

/// The views of a list of declared fields.
pub open spec fn field_views(fields: Seq<TypeExpr>) -> Seq<TypeExprView> {
    Seq::new(fields.len(), |i: int| fields[i]@)
}

/// Index of the first field called `name`.
fn find_field(fields: &Vec<TypeExpr>, name: &String) -> (found: Option<usize>)
    ensures
        match found {
            Some(index) => position_from(field_views(fields@), name@, 0) == Some(index as nat)
                && index < fields.len(),
            None => position_from(field_views(fields@), name@, 0) is None,
        },
{
    let ghost views = field_views(fields@);
    let mut i: usize = 0;
    while i < fields.len()
        invariant
            i <= fields.len(),
            views == field_views(fields@),
            position_from(views, name@, 0) == position_from(views, name@, i as nat),
        decreases fields.len() - i,
    {
        if fields[i].id == *name {
            return Some(i);
        }
        i += 1;
    }
    None
}

/// Index in the table of slots of the first slot of each field.
fn first_slots(fields: &Vec<TypeExpr>) -> (firsts: Vec<usize>)
    requires
        slot_count(types_of(field_views(fields@)), fields.len() as nat) <= usize::MAX,
    ensures
        firsts.len() == fields.len(),
        forall|i: int|
            0 <= i < fields.len() ==> firsts[i] == slot_count(
                types_of(field_views(fields@)),
                i as nat,
            ),
{
    let ghost types = types_of(field_views(fields@));
    let mut firsts: Vec<usize> = Vec::new();
    let mut count: usize = 0;
    let mut i: usize = 0;
    while i < fields.len()
        invariant
            i <= fields.len(),
            types == types_of(field_views(fields@)),
            slot_count(types, fields.len() as nat) <= usize::MAX,
            count == slot_count(types, i as nat),
            firsts.len() == i,
            forall|k: int| 0 <= k < i ==> firsts[k] == slot_count(types, k as nat),
        decreases fields.len() - i,
    {
        firsts.push(count);
        proof {
            lemma_slot_count_monotonic(types, (i + 1) as nat, fields.len() as nat);
        }
        count = count + fields[i].expr.get_element_count();
        i += 1;
    }
    firsts
}

/// Resolves the reference to `name`, with `index` where one is given.
fn resolve_value_reference(
    fields: &Vec<TypeExpr>,
    firsts: &Vec<usize>,
    name: &String,
    index: Option<usize>,
) -> (result: Result<usize, ExprError>)
    requires
        firsts.len() == fields.len(),
        slot_count(types_of(field_views(fields@)), fields.len() as nat) <= usize::MAX,
        forall|i: int|
            0 <= i < fields.len() ==> firsts[i] == slot_count(
                types_of(field_views(fields@)),
                i as nat,
            ),
    ensures
        match result {
            Ok(slot) => resolve_reference(field_views(fields@), name@, index) == Ok::<
                nat,
                ExprFault,
            >(slot as nat),
            Err(error) => resolve_reference(field_views(fields@), name@, index) == Err::<
                nat,
                ExprFault,
            >(error@),
        },
{
    let field: usize = match find_field(fields, name) {
        Some(field) => field,
        None => { return Err(ExprError::UnknownReference { reference: name.clone() }); },
    };
    let first: usize = firsts[field];
    let ghost types = types_of(field_views(fields@));
    proof {
        lemma_slot_count_monotonic(types, (field + 1) as nat, fields.len() as nat);
    }
    match (fields[field].expr.get_array_length(), index) {
        (None, None) => Ok(first),
        (Some(length), Some(element)) => {
            if element < length {
                Ok(first + element)
            } else {
                Err(ExprError::IndexOutOfRange { reference: name.clone(), index: element })
            }
        },
        (None, Some(element)) => Err(
            ExprError::IndexOutOfRange { reference: name.clone(), index: element },
        ),
        (Some(_), None) => Err(ExprError::Unsupported),
    }
}

/// The view of the outcome of resolving an expression.
pub open spec fn resolved_view(result: Result<CodecExpr, ExprError>) -> Result<
    CodecExprView,
    ExprFault,
> {
    match result {
        Ok(e) => Ok(e@),
        Err(error) => Err(error@),
    }
}

/// Restates `expr` over the slots of a packet with the fields `fields`.
fn resolve(fields: &Vec<TypeExpr>, firsts: &Vec<usize>, expr: &ExprNode) -> (result: Result<
    CodecExpr,
    ExprError,
>)
    requires
        firsts.len() == fields.len(),
        slot_count(types_of(field_views(fields@)), fields.len() as nat) <= usize::MAX,
        forall|i: int|
            0 <= i < fields.len() ==> firsts[i] == slot_count(
                types_of(field_views(fields@)),
                i as nat,
            ),
    ensures
        resolved_view(result) == resolve_expr(field_views(fields@), expr@),
    decreases expr,
{
    match expr {
        ExprNode::UnsignedInteger64Value(v) => Ok(CodecExpr::Unsigned(*v)),
        ExprNode::Integer64Value(v) => Ok(CodecExpr::Signed(*v)),
        ExprNode::Float64Value(text) => Ok(CodecExpr::Float(text.clone())),
        ExprNode::ValueReference(name, index) => {
            match resolve_value_reference(fields, firsts, name, *index) {
                Ok(slot) => Ok(
                    CodecExpr::Slot { index: slot, field: name.clone(), element: *index },
                ),
                Err(error) => Err(error),
            }
        },
        ExprNode::MacAddress => Err(ExprError::Unsupported),
        ExprNode::ParenthesizedExpr(inner) => match resolve(fields, firsts, inner) {
            Ok(inner) => Ok(CodecExpr::Group(Box::new(inner))),
            Err(error) => Err(error),
        },
        ExprNode::Plus(l, r) => resolve_binary(fields, firsts, BinaryOp::Plus, l, r, expr),
        ExprNode::Minus(l, r) => resolve_binary(fields, firsts, BinaryOp::Minus, l, r, expr),
        ExprNode::Mult(l, r) => resolve_binary(fields, firsts, BinaryOp::Mult, l, r, expr),
        ExprNode::Div(l, r) => resolve_binary(fields, firsts, BinaryOp::Div, l, r, expr),
        ExprNode::Pow(l, r) => resolve_binary(fields, firsts, BinaryOp::Pow, l, r, expr),
        ExprNode::Gt(l, r) => resolve_binary(fields, firsts, BinaryOp::Gt, l, r, expr),
        ExprNode::Lt(l, r) => resolve_binary(fields, firsts, BinaryOp::Lt, l, r, expr),
        ExprNode::Gte(l, r) => resolve_binary(fields, firsts, BinaryOp::Gte, l, r, expr),
        ExprNode::Lte(l, r) => resolve_binary(fields, firsts, BinaryOp::Lte, l, r, expr),
        ExprNode::Equals(l, r) => resolve_binary(fields, firsts, BinaryOp::Equals, l, r, expr),
        ExprNode::NotEquals(l, r) => resolve_binary(
            fields,
            firsts,
            BinaryOp::NotEquals,
            l,
            r,
            expr,
        ),
        ExprNode::And(l, r) => resolve_binary(fields, firsts, BinaryOp::And, l, r, expr),
        ExprNode::Or(l, r) => resolve_binary(fields, firsts, BinaryOp::Or, l, r, expr),
        ExprNode::GuardExpression(c, t, o) => {
            let predicate = match resolve(fields, firsts, c) {
                Ok(e) => e,
                Err(error) => { return Err(error); },
            };
            let value = match resolve(fields, firsts, t) {
                Ok(e) => e,
                Err(error) => { return Err(error); },
            };
            match resolve(fields, firsts, o) {
                Ok(alternative) => Ok(
                    CodecExpr::Select(Box::new(predicate), Box::new(value), Box::new(alternative)),
                ),
                Err(error) => Err(error),
            }
        },
        ExprNode::SumOf(_) => Err(ExprError::Unsupported),
        ExprNode::ProductOf(_) => Err(ExprError::Unsupported),
        ExprNode::ActivationRecord(name, arguments) => {
            let is_sqrt: bool = *name == String::from_str("sqrt");
            let is_min: bool = *name == String::from_str("min");
            let is_max: bool = *name == String::from_str("max");
            if is_sqrt && arguments.len() == 1 {
                match resolve(fields, firsts, &arguments[0]) {
                    Ok(inner) => Ok(CodecExpr::Sqrt(Box::new(inner))),
                    Err(error) => Err(error),
                }
            } else if (is_min || is_max) && arguments.len() == 2 {
                let left = match resolve(fields, firsts, &arguments[0]) {
                    Ok(e) => e,
                    Err(error) => { return Err(error); },
                };
                match resolve(fields, firsts, &arguments[1]) {
                    Ok(right) => if is_min {
                        Ok(CodecExpr::Min(Box::new(left), Box::new(right)))
                    } else {
                        Ok(CodecExpr::Max(Box::new(left), Box::new(right)))
                    },
                    Err(error) => Err(error),
                }
            } else {
                Err(ExprError::Unsupported)
            }
        },
        ExprNode::NoExpr => Err(ExprError::Unsupported),
    }
}

/// Resolves the two operands of `whole`, which applies `op` to them.
fn resolve_binary(
    fields: &Vec<TypeExpr>,
    firsts: &Vec<usize>,
    op: BinaryOp,
    left: &ExprNode,
    right: &ExprNode,
    whole: &ExprNode,
) -> (result: Result<CodecExpr, ExprError>)
    requires
        firsts.len() == fields.len(),
        slot_count(types_of(field_views(fields@)), fields.len() as nat) <= usize::MAX,
        forall|i: int|
            0 <= i < fields.len() ==> firsts[i] == slot_count(
                types_of(field_views(fields@)),
                i as nat,
            ),
        whole@ == ExprView::Binary(op, Box::new(left@), Box::new(right@)),
        decreases_to!(whole => left),
        decreases_to!(whole => right),
    ensures
        resolved_view(result) == resolve_expr(field_views(fields@), whole@),
    decreases whole, 0nat,
{
    let resolved_left = match resolve(fields, firsts, left) {
        Ok(e) => e,
        Err(error) => { return Err(error); },
    };
    match resolve(fields, firsts, right) {
        Ok(resolved_right) => Ok(
            CodecExpr::Binary(op, Box::new(resolved_left), Box::new(resolved_right)),
        ),
        Err(error) => Err(error),
    }
}

/// Why no codec description could be made of a packet.
#[derive(Debug, Clone, PartialEq, Eq)]
pub enum CodecError {
    /// Two fields of the packet, declared or calculated, have the same name.
    DuplicateIdentifier { packet: String, identifier: String },
    /// The packet takes more bytes than can be addressed.
    PacketTooLarge { packet: String },
    /// The declared type of a calculated field is none of the primitive types.
    UnknownType { packet: String, field: String, declared_type: String },
    /// The expression of a calculated field holds what cannot be evaluated.
    UnsupportedExpression { packet: String, field: String },
    /// A reference in a calculated field indexes past the end of an array, or
    /// into a scalar.
    ArrayIndexOutOfRange { packet: String, field: String, reference: String, index: usize },
    /// A reference in a calculated field names no field of the packet.
    UnknownReference { packet: String, field: String, reference: String },
}

/// [`CodecError`] with its names as sequences of characters.
pub enum CodecErrorView {
    DuplicateIdentifier { packet: Seq<char>, identifier: Seq<char> },
    PacketTooLarge { packet: Seq<char> },
    UnknownType { packet: Seq<char>, field: Seq<char>, declared_type: Seq<char> },
    UnsupportedExpression { packet: Seq<char>, field: Seq<char> },
    ArrayIndexOutOfRange {
        packet: Seq<char>,
        field: Seq<char>,
        reference: Seq<char>,
        index: usize,
    },
    UnknownReference { packet: Seq<char>, field: Seq<char>, reference: Seq<char> },
}

impl View for CodecError {
    type V = CodecErrorView;

    open spec fn view(&self) -> CodecErrorView {
        match self {
            CodecError::DuplicateIdentifier {
                packet,
                identifier,
            } => CodecErrorView::DuplicateIdentifier { packet: packet@, identifier: identifier@ },
            CodecError::PacketTooLarge { packet } => CodecErrorView::PacketTooLarge {
                packet: packet@,
            },
            CodecError::UnknownType { packet, field, declared_type } => CodecErrorView::UnknownType {
                packet: packet@,
                field: field@,
                declared_type: declared_type@,
            },
            CodecError::UnsupportedExpression {
                packet,
                field,
            } => CodecErrorView::UnsupportedExpression { packet: packet@, field: field@ },
            CodecError::ArrayIndexOutOfRange {
                packet,
                field,
                reference,
                index,
            } => CodecErrorView::ArrayIndexOutOfRange {
                packet: packet@,
                field: field@,
                reference: reference@,
                index: *index,
            },
            CodecError::UnknownReference {
                packet,
                field,
                reference,
            } => CodecErrorView::UnknownReference {
                packet: packet@,
                field: field@,
                reference: reference@,
            },
        }
    }
}

/// A calculated field in a codec description: its name, its type and its
/// expression over the slots.
#[derive(Debug, PartialEq, Eq)]
pub struct CalculatedCodec {
    pub name: String,
    pub data_type: PrimitiveType,
    pub expr: CodecExpr,
}

/// The mathematical value of a [`CalculatedCodec`].
pub struct CalculatedCodecView {
    pub name: Seq<char>,
    pub data_type: PrimitiveType,
    pub expr: CodecExprView,
}

impl View for CalculatedCodec {
    type V = CalculatedCodecView;

    open spec fn view(&self) -> CalculatedCodecView {
        CalculatedCodecView { name: self.name@, data_type: self.data_type, expr: self.expr@ }
    }
}

/// The views of a list of calculated fields.
pub open spec fn calculated_views(fields: Seq<CalculatedCodec>) -> Seq<CalculatedCodecView> {
    Seq::new(fields.len(), |i: int| fields[i]@)
}

/// The names of the fields of `packet`: the declared ones, then the
/// calculated ones.
pub open spec fn field_names(packet: PacketExprView) -> Seq<Seq<char>> {
    Seq::new(packet.fields.len(), |i: int| packet.fields[i].id) + Seq::new(
        packet.calculated_fields.len(),
        |i: int| packet.calculated_fields[i].name,
    )
}

/// `names[index]` also stands before `index`.
pub open spec fn occurs_before(names: Seq<Seq<char>>, index: int) -> bool {
    exists|i: int| 0 <= i < index && names[i] == names[index]
}

/// Index of the first name from `from` on that also stands before it.
pub open spec fn duplicate_from(names: Seq<Seq<char>>, from: nat) -> Option<nat>
    decreases names.len() - from,
{
    if from >= names.len() {
        None
    } else if occurs_before(names, from as int) {
        Some(from)
    } else {
        duplicate_from(names, from + 1)
    }
}

/// The error that reports `fault` in the calculated field `field` of the
/// packet `packet`.
pub open spec fn expr_fault_error(packet: Seq<char>, field: Seq<char>, fault: ExprFault)
    -> CodecErrorView {
    match fault {
        ExprFault::Unsupported => CodecErrorView::UnsupportedExpression { packet, field },
        ExprFault::IndexOutOfRange { reference, index } => CodecErrorView::ArrayIndexOutOfRange {
            packet,
            field,
            reference,
            index,
        },
        ExprFault::UnknownReference { reference } => CodecErrorView::UnknownReference {
            packet,
            field,
            reference,
        },
    }
}

/// The expression that gives the value of a calculated field: its guard
/// where it has one, its expression otherwise.
pub open spec fn governing_expr(field: CalculatedFieldView) -> ExprView {
    match field.guard_expr {
        Some(guard) => guard,
        None => field.expr,
    }
}

/// The codec description of one calculated field.
pub open spec fn calculated_codec_of(packet: PacketExprView, field: CalculatedFieldView)
    -> Result<CalculatedCodecView, CodecErrorView> {
    match PrimitiveType::of_keyword(field.data_type) {
        None => Err(
            CodecErrorView::UnknownType {
                packet: packet.name,
                field: field.name,
                declared_type: field.data_type,
            },
        ),
        Some(data_type) => match resolve_expr(packet.fields, governing_expr(field)) {
            Ok(expr) => Ok(CalculatedCodecView { name: field.name, data_type, expr }),
            Err(fault) => Err(expr_fault_error(packet.name, field.name, fault)),
        },
    }
}

/// The codec descriptions of the first `count` calculated fields, or the
/// error of the first one that has none.
pub open spec fn calculated_codecs_of(packet: PacketExprView, count: nat) -> Result<
    Seq<CalculatedCodecView>,
    CodecErrorView,
>
    decreases count,
{
    if count == 0 {
        Ok(Seq::empty())
    } else {
        match calculated_codecs_of(packet, (count - 1) as nat) {
            Ok(before) => match calculated_codec_of(packet, packet.calculated_fields[count - 1]) {
                Ok(codec) => Ok(before.push(codec)),
                Err(error) => Err(error),
            },
            Err(error) => Err(error),
        }
    }
}

/// The mathematical value of a [`PacketCodec`]: what it lets an emitter
/// see.
pub struct PacketCodecView {
    pub name: Seq<char>,
    pub fields: Seq<TypeExprView>,
    pub layout: PacketLayoutView,
    pub slots: Seq<SlotView>,
    pub calculated: Seq<CalculatedCodecView>,
}

/// The codec description of `packet` with every slot in the byte order
/// `order`, or why there is none. The checks come in this order: names that
/// occur twice, the packet's size, and then the calculated fields one by one.
pub open spec fn codec_of(packet: PacketExprView, order: Endianness) -> Result<
    PacketCodecView,
    CodecErrorView,
> {
    match duplicate_from(field_names(packet), 0) {
        Some(index) => Err(
            CodecErrorView::DuplicateIdentifier {
                packet: packet.name,
                identifier: field_names(packet)[index as int],
            },
        ),
        None => {
            if packet.total_length() > usize::MAX {
                Err(CodecErrorView::PacketTooLarge { packet: packet.name })
            } else {
                match calculated_codecs_of(packet, packet.calculated_fields.len()) {
                    Ok(calculated) => Ok(
                        PacketCodecView {
                            name: packet.name,
                            fields: packet.fields,
                            layout: layout_of(packet),
                            slots: slots_of(packet, order),
                            calculated,
                        },
                    ),
                    Err(error) => Err(error),
                }
            }
        },
    }
}

/// The codec description of a packet.
///
/// Its slots tile the packet's buffer, so a value of this type can always be
/// used to write and to read the packet.
#[derive(Debug, PartialEq, Eq)]
pub struct PacketCodec {
    name: String,
    fields: Vec<TypeExpr>,
    layout: PacketLayout,
    slots: Vec<SlotCodec>,
    calculated: Vec<CalculatedCodec>,
}

impl View for PacketCodec {
    type V = PacketCodecView;

    closed spec fn view(&self) -> PacketCodecView {
        PacketCodecView {
            name: self.name@,
            fields: field_views(self.fields@),
            layout: self.layout@,
            slots: slot_views(self.slots@),
            calculated: calculated_views(self.calculated@),
        }
    }
}

impl PacketCodec {
    #[verifier::type_invariant]
    spec fn well_formed(self) -> bool {
        &&& slots_tile(slot_views(self.slots@))
        &&& slots_width(slot_views(self.slots@)) == self.layout.total_size
    }

    /// The packet's name.
    pub fn name(&self) -> (name: &String)
        ensures
            name@ == self@.name,
    {
        &self.name
    }

    /// The declared fields, in wire order.
    pub fn fields(&self) -> (fields: &Vec<TypeExpr>)
        ensures
            field_views(fields@) == self@.fields,
    {
        &self.fields
    }

    /// The layout: an entry for each declared field, and the total size.
    pub fn layout(&self) -> (layout: &PacketLayout)
        ensures
            layout@ == self@.layout,
    {
        &self.layout
    }

    /// Size of the packet on the wire.
    pub fn total_size(&self) -> (size: usize)
        ensures
            size == self@.layout.total_size,
            size == slots_width(self@.slots),
    {
        proof {
            use_type_invariant(self);
        }
        self.layout.total_size
    }

    /// The table of slots, in wire order.
    pub fn slots(&self) -> (slots: &Vec<SlotCodec>)
        ensures
            slot_views(slots@) == self@.slots,
            slots_tile(self@.slots),
    {
        proof {
            use_type_invariant(self);
        }
        &self.slots
    }

    /// The calculated fields, in declared order.
    pub fn calculated(&self) -> (calculated: &Vec<CalculatedCodec>)
        ensures
            calculated_views(calculated@) == self@.calculated,
    {
        &self.calculated
    }

    /// Writes a packet: `values` holds one value for each slot, in the order
    /// of the table of slots.
    pub fn serialize(&self, values: &Vec<u64>) -> (result: Result<Vec<u8>, WireError>)
        ensures
            slots_tile(self@.slots),
            match result {
                Ok(bytes) => {
                    &&& values_fit(self@.slots, values@)
                    &&& bytes@ == wire_bytes(self@.slots, values@)
                    &&& bytes.len() == self@.layout.total_size
                },
                Err(WireError::ValueCount { expected, found }) => {
                    &&& values.len() != self@.slots.len()
                    &&& expected == self@.slots.len()
                    &&& found == values.len()
                },
                Err(WireError::ValueTooWide { slot }) => {
                    &&& values.len() == self@.slots.len()
                    &&& slot < values.len()
                    &&& !crate::codec::fits(values[slot as int], self@.slots[slot as int].byte_width)
                    &&& forall|j: int|
                        0 <= j < slot ==> crate::codec::fits(
                            #[trigger] values[j],
                            self@.slots[j].byte_width,
                        )
                },
                Err(WireError::BufferLength { .. }) => false,
            },
    {
        proof {
            use_type_invariant(self);
            crate::wire::lemma_wire_bytes_len(self@.slots, values@);
        }
        serialize_slots(&self.slots, self.layout.total_size, values)
    }

    /// Reads a packet: the result holds the value of each slot, in the order
    /// of the table of slots.
    pub fn deserialize(&self, data: &[u8]) -> (result: Result<Vec<u64>, WireError>)
        ensures
            slots_tile(self@.slots),
            match result {
                Ok(values) => {
                    &&& data.len() == self@.layout.total_size
                    &&& values@ == wire_values(self@.slots, data@)
                },
                Err(WireError::BufferLength { expected, found }) => {
                    &&& data.len() != self@.layout.total_size
                    &&& expected == self@.layout.total_size
                    &&& found == data.len()
                },
                Err(_) => false,
            },
    {
        proof {
            use_type_invariant(self);
        }
        deserialize_slots(&self.slots, self.layout.total_size, data)
    }
}

/// The view of the outcome of describing a packet.
pub open spec fn codec_result_view(result: Result<PacketCodec, CodecError>) -> Result<
    PacketCodecView,
    CodecErrorView,
> {
    match result {
        Ok(codec) => Ok(codec@),
        Err(error) => Err(error@),
    }
}

/// Whether one of the first `count` declared fields of `packet` is called
/// `name`.
fn among_fields(packet: &PacketExpr, count: usize, name: &String) -> (found: bool)
    requires
        count <= packet.fields.len(),
    ensures
        found == exists|i: int| 0 <= i < count && packet.fields[i].id@ == name@,
{
    let mut i: usize = 0;
    while i < count
        invariant
            i <= count <= packet.fields.len(),
            forall|k: int| 0 <= k < i ==> packet.fields[k].id@ != name@,
        decreases count - i,
    {
        if packet.fields[i].id == *name {
            return true;
        }
        i += 1;
    }
    false
}

/// Whether one of the first `count` calculated fields of `packet` is called
/// `name`.
fn among_calculated(packet: &PacketExpr, count: usize, name: &String) -> (found: bool)
    requires
        count <= packet.calculated_fields.len(),
    ensures
        found == exists|i: int| 0 <= i < count && packet.calculated_fields[i].name@ == name@,
{
    let mut i: usize = 0;
    while i < count
        invariant
            i <= count <= packet.calculated_fields.len(),
            forall|k: int| 0 <= k < i ==> packet.calculated_fields[k].name@ != name@,
        decreases count - i,
    {
        if packet.calculated_fields[i].name == *name {
            return true;
        }
        i += 1;
    }
    false
}

/// The first name of a field of `packet` that an earlier field has too.
pub fn find_duplicate(packet: &PacketExpr) -> (found: Option<String>)
    ensures
        match found {
            Some(name) => duplicate_from(field_names(packet@), 0) matches Some(index) && index
                < field_names(packet@).len() && name@ == field_names(packet@)[index as int],
            None => duplicate_from(field_names(packet@), 0) is None,
        },
{
    let ghost names = field_names(packet@);
    let declared: usize = packet.fields.len();
    let mut j: usize = 0;
    while j < declared
        invariant
            j <= declared == packet.fields.len(),
            names == field_names(packet@),
            duplicate_from(names, 0) == duplicate_from(names, j as nat),
        decreases declared - j,
    {
        let name = &packet.fields[j].id;
        let found = among_fields(packet, j, name);
        proof {
            if found {
                let i = choose|i: int| 0 <= i < j && packet.fields[i].id@ == name@;
                assert(names[i] == names[j as int]);
            }
        }
        if found {
            return Some(name.clone());
        }
        j += 1;
    }
    let mut k: usize = 0;
    while k < packet.calculated_fields.len()
        invariant
            k <= packet.calculated_fields.len(),
            declared == packet.fields.len(),
            names == field_names(packet@),
            duplicate_from(names, 0) == duplicate_from(names, (declared + k) as nat),
        decreases packet.calculated_fields.len() - k,
    {
        let name = &packet.calculated_fields[k].name;
        let found = among_fields(packet, declared, name) || among_calculated(packet, k, name);
        proof {
            let at = declared + k;
            if found {
                if exists|i: int| 0 <= i < declared && packet.fields[i].id@ == name@ {
                    let i = choose|i: int| 0 <= i < declared && packet.fields[i].id@ == name@;
                    assert(names[i] == names[at]);
                } else {
                    let i = choose|i: int|
                        0 <= i < k && packet.calculated_fields[i].name@ == name@;
                    assert(names[declared + i] == names[at]);
                }
            }
        }
        if found {
            return Some(name.clone());
        }
        k += 1;
    }
    None
}

/// The error that reports `error` in the calculated field `field` of the
/// packet `packet`.
fn expr_error(packet: &String, field: &String, error: ExprError) -> (reported: CodecError)
    ensures
        reported@ == expr_fault_error(packet@, field@, error@),
{
    match error {
        ExprError::Unsupported => CodecError::UnsupportedExpression {
            packet: packet.clone(),
            field: field.clone(),
        },
        ExprError::IndexOutOfRange { reference, index } => CodecError::ArrayIndexOutOfRange {
            packet: packet.clone(),
            field: field.clone(),
            reference,
            index,
        },
        ExprError::UnknownReference { reference } => CodecError::UnknownReference {
            packet: packet.clone(),
            field: field.clone(),
            reference,
        },
    }
}

/// Describes one calculated field of `packet`.
fn describe_calculated(packet: &PacketExpr, firsts: &Vec<usize>, field: &CalculatedField)
    -> (result: Result<CalculatedCodec, CodecError>)
    requires
        firsts.len() == packet.fields.len(),
        slot_count(packet@.field_types(), packet.fields.len() as nat) <= usize::MAX,
        forall|i: int|
            0 <= i < packet.fields.len() ==> firsts[i] == slot_count(
                packet@.field_types(),
                i as nat,
            ),
    ensures
        match result {
            Ok(codec) => calculated_codec_of(packet@, field@) == Ok::<
                CalculatedCodecView,
                CodecErrorView,
            >(codec@),
            Err(error) => calculated_codec_of(packet@, field@) == Err::<
                CalculatedCodecView,
                CodecErrorView,
            >(error@),
        },
{
    let data_type: PrimitiveType = match PrimitiveType::from_keyword(&field.data_type) {
        Some(data_type) => data_type,
        None => {
            return Err(
                CodecError::UnknownType {
                    packet: packet.name.clone(),
                    field: field.name.clone(),
                    declared_type: field.data_type.clone(),
                },
            );
        },
    };
    let resolved = match &field.guard_expr {
        Some(guard) => resolve(&packet.fields, firsts, guard),
        None => resolve(&packet.fields, firsts, &field.expr),
    };
    match resolved {
        Ok(expr) => Ok(CalculatedCodec { name: field.name.clone(), data_type, expr }),
        Err(error) => Err(expr_error(&packet.name, &field.name, error)),
    }
}

/// A copy of the declared fields.
fn copy_fields(fields: &Vec<TypeExpr>) -> (copy: Vec<TypeExpr>)
    ensures
        field_views(copy@) == field_views(fields@),
{
    let mut copy: Vec<TypeExpr> = Vec::new();
    let mut i: usize = 0;
    while i < fields.len()
        invariant
            i <= fields.len(),
            copy.len() == i,
            forall|k: int| 0 <= k < i ==> copy[k]@ == fields[k]@,
        decreases fields.len() - i,
    {
        copy.push(TypeExpr { id: fields[i].id.clone(), expr: fields[i].expr });
        i += 1;
    }
    copy
}

/// Describes `packet` for the emitters, with every slot in the byte order
/// `order`.
pub fn build_codec(packet: &PacketExpr, order: Endianness) -> (result: Result<
    PacketCodec,
    CodecError,
>)
    ensures
        codec_result_view(result) == codec_of(packet@, order),
{
    let ghost types = packet@.field_types();
    match find_duplicate(packet) {
        Some(identifier) => {
            return Err(
                CodecError::DuplicateIdentifier { packet: packet.name.clone(), identifier },
            );
        },
        None => {},
    }
    let layout: PacketLayout = match checked_layout(packet) {
        Some(layout) => layout,
        None => { return Err(CodecError::PacketTooLarge { packet: packet.name.clone() }); },
    };
    let slots: Vec<SlotCodec> = match expand_slots(packet, order) {
        Some(slots) => slots,
        None => { return Err(CodecError::PacketTooLarge { packet: packet.name.clone() }); },
    };
    proof {
        lemma_slots_tile_packet(packet@, order);
        lemma_slot_count_len(types, types.len(), order);
        assert(slot_count(types, packet.fields.len() as nat) == slots.len());
    }
    let firsts = first_slots(&packet.fields);
    let mut calculated: Vec<CalculatedCodec> = Vec::new();
    assert(calculated_views(calculated@) =~= Seq::empty());
    let mut i: usize = 0;
    while i < packet.calculated_fields.len()
        invariant
            i <= packet.calculated_fields.len(),
            types == packet@.field_types(),
            duplicate_from(field_names(packet@), 0) is None,
            packet@.total_length() <= usize::MAX,
            firsts.len() == packet.fields.len(),
            slot_count(types, packet.fields.len() as nat) <= usize::MAX,
            forall|k: int|
                0 <= k < packet.fields.len() ==> firsts[k] == slot_count(types, k as nat),
            calculated_codecs_of(packet@, i as nat) == Ok::<
                Seq<CalculatedCodecView>,
                CodecErrorView,
            >(calculated_views(calculated@)),
        decreases packet.calculated_fields.len() - i,
    {
        match describe_calculated(packet, &firsts, &packet.calculated_fields[i]) {
            Ok(codec) => {
                let ghost before = calculated_views(calculated@);
                calculated.push(codec);
                assert(calculated_views(calculated@) =~= before.push(codec@));
            },
            Err(error) => {
                proof {
                    lemma_calculated_error_stays(packet@, (i + 1) as nat);
                }
                return Err(error);
            },
        }
        i += 1;
    }
    let codec = PacketCodec {
        name: packet.name.clone(),
        fields: copy_fields(&packet.fields),
        layout,
        slots,
        calculated,
    };
    Ok(codec)
}

/// Once a calculated field has no description, taking more fields into
/// account gives the same error.
proof fn lemma_calculated_error_stays(packet: PacketExprView, count: nat)
    requires
        count <= packet.calculated_fields.len(),
        calculated_codecs_of(packet, count) is Err,
    ensures
        calculated_codecs_of(packet, packet.calculated_fields.len()) == calculated_codecs_of(
            packet,
            count,
        ),
    decreases packet.calculated_fields.len() - count,
{
    if count < packet.calculated_fields.len() {
        lemma_calculated_error_stays(packet, count + 1);
    }
}

/// A packet in which the expression that gives a calculated field its value
/// holds an aggregate has no codec description, in either byte order.
pub proof fn lemma_aggregate_has_no_codec(packet: PacketExprView, index: int, order: Endianness)
    requires
        0 <= index < packet.calculated_fields.len(),
        holds_aggregate(governing_expr(packet.calculated_fields[index])),
    ensures
        codec_of(packet, order) is Err,
{
    lemma_aggregate_never_resolves(
        packet.fields,
        governing_expr(packet.calculated_fields[index]),
    );
    lemma_calculated_error_stays(packet, (index + 1) as nat);
}

/// The views of a list of packets.
pub open spec fn unit_views(packets: Seq<PacketExpr>) -> Seq<PacketExprView> {
    Seq::new(packets.len(), |i: int| packets[i]@)
}

/// A packet before `index` has the name of packet `index`.
pub open spec fn name_taken(packets: Seq<PacketExprView>, index: int) -> bool {
    exists|i: int| 0 <= i < index && packets[i].name == packets[index].name
}

/// The codec description of packet `index` of a definition file. A packet
/// whose name an earlier packet has is refused; every other packet is
/// described on its own, whatever is wrong with the packets around it.
pub open spec fn unit_codec_of(packets: Seq<PacketExprView>, index: int, order: Endianness)
    -> Result<PacketCodecView, CodecErrorView> {
    if name_taken(packets, index) {
        Err(
            CodecErrorView::DuplicateIdentifier {
                packet: packets[index].name,
                identifier: packets[index].name,
            },
        )
    } else {
        codec_of(packets[index], order)
    }
}

/// Whether a packet before `index` has the name of packet `index`.
pub fn is_name_taken(packets: &Vec<PacketExpr>, index: usize) -> (taken: bool)
    requires
        index < packets.len(),
    ensures
        taken == name_taken(unit_views(packets@), index as int),
{
    let ghost views = unit_views(packets@);
    let mut i: usize = 0;
    while i < index
        invariant
            i <= index < packets.len(),
            views == unit_views(packets@),
            forall|k: int| 0 <= k < i ==> views[k].name != views[index as int].name,
        decreases index - i,
    {
        assert(views[i as int] == packets[i as int]@);
        if packets[i].name == packets[index].name {
            return true;
        }
        i += 1;
    }
    false
}

/// Describes packet `index` of a definition file.
pub fn build_unit_codec(packets: &Vec<PacketExpr>, index: usize, order: Endianness) -> (result:
    Result<PacketCodec, CodecError>)
    requires
        index < packets.len(),
    ensures
        codec_result_view(result) == unit_codec_of(unit_views(packets@), index as int, order),
{
    if is_name_taken(packets, index) {
        Err(
            CodecError::DuplicateIdentifier {
                packet: packets[index].name.clone(),
                identifier: packets[index].name.clone(),
            },
        )
    } else {
        build_codec(&packets[index], order)
    }
}

/// Describes every packet of a definition file. Each packet has an outcome
/// of its own: what is wrong with one packet leaves the others as they are.
pub fn build_codecs(packets: &Vec<PacketExpr>, order: Endianness) -> (results: Vec<
    Result<PacketCodec, CodecError>,
>)
    ensures
        results.len() == packets.len(),
        forall|i: int|
            0 <= i < packets.len() ==> codec_result_view(#[trigger] results[i]) == unit_codec_of(
                unit_views(packets@),
                i,
                order,
            ),
{
    let mut results: Vec<Result<PacketCodec, CodecError>> = Vec::new();
    let mut i: usize = 0;
    while i < packets.len()
        invariant
            i <= packets.len(),
            results.len() == i,
            forall|k: int|
                0 <= k < i ==> codec_result_view(#[trigger] results[k]) == unit_codec_of(
                    unit_views(packets@),
                    k,
                    order,
                ),
        decreases packets.len() - i,
    {
        results.push(build_unit_codec(packets, i, order));
        i += 1;
    }
    results
}

/// Something worth telling the author of a definition file that does not
/// stand in the way of emitting code.
#[derive(Debug, Clone, PartialEq, Eq)]
pub enum Warning {
    /// The packet has neither fields nor calculated fields: it takes no
    /// bytes.
    EmptyPacket { packet: String },
}

/// The names of the packets among the first `count` that have neither fields
/// nor calculated fields, in order.
pub open spec fn empty_packets(packets: Seq<PacketExprView>, count: nat) -> Seq<Seq<char>>
    decreases count,
{
    if count == 0 {
        Seq::empty()
    } else if packets[count - 1].fields.len() == 0 && packets[count - 1].calculated_fields.len()
        == 0 {
        empty_packets(packets, (count - 1) as nat).push(packets[count - 1].name)
    } else {
        empty_packets(packets, (count - 1) as nat)
    }
}

/// The names that a list of warnings speaks of.
pub open spec fn warned_packets(warnings: Seq<Warning>) -> Seq<Seq<char>> {
    Seq::new(
        warnings.len(),
        |i: int|
            match warnings[i] {
                Warning::EmptyPacket { packet } => packet@,
            },
    )
}

/// The warnings for a definition file: one for each packet that is empty.
pub fn diagnose(packets: &Vec<PacketExpr>) -> (warnings: Vec<Warning>)
    ensures
        warned_packets(warnings@) == empty_packets(unit_views(packets@), packets.len() as nat),
{
    let ghost views = unit_views(packets@);
    let mut warnings: Vec<Warning> = Vec::new();
    let mut i: usize = 0;
    while i < packets.len()
        invariant
            i <= packets.len(),
            views == unit_views(packets@),
            warned_packets(warnings@) == empty_packets(views, i as nat),
        decreases packets.len() - i,
    {
        let packet = &packets[i];
        if packet.fields.len() == 0 && packet.calculated_fields.len() == 0 {
            warnings.push(Warning::EmptyPacket { packet: packet.name.clone() });
        }
        i += 1;
    }
    warnings
}

} // verus!
