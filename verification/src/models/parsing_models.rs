//! The syntax tree of a packet definition file, with its mathematical view.

use crate::layout::total_length;
use vstd::prelude::*;
use vstd::string::*;

verus! {

/// The primitive types of the language. Each has a fixed width in bytes.
#[derive(Debug, Clone, Copy, PartialEq, Eq, Structural)]
pub enum PrimitiveType {
    Int8,
    UInt8,
    Int16,
    UInt16,
    Int32,
    UInt32,
    Int64,
    UInt64,
    Float32,
    Float64,
    MacAddress,
}

impl PrimitiveType {
    /// Width in bytes of a value of the type.
    pub open spec fn width(self) -> nat {
        match self {
            PrimitiveType::Int8 => 1,
            PrimitiveType::UInt8 => 1,
            PrimitiveType::Int16 => 2,
            PrimitiveType::UInt16 => 2,
            PrimitiveType::Int32 => 4,
            PrimitiveType::UInt32 => 4,
            PrimitiveType::Int64 => 8,
            PrimitiveType::UInt64 => 8,
            PrimitiveType::Float32 => 4,
            PrimitiveType::Float64 => 8,
            PrimitiveType::MacAddress => 6,
        }
    }

    /// Width in bytes of a value of the type.
    pub fn byte_width(&self) -> (width: usize)
        ensures
            width == self.width(),
            1 <= width <= 8,
    {
        match self {
            PrimitiveType::Int8 => 1,
            PrimitiveType::UInt8 => 1,
            PrimitiveType::Int16 => 2,
            PrimitiveType::UInt16 => 2,
            PrimitiveType::Int32 => 4,
            PrimitiveType::UInt32 => 4,
            PrimitiveType::Int64 => 8,
            PrimitiveType::UInt64 => 8,
            PrimitiveType::Float32 => 4,
            PrimitiveType::Float64 => 8,
            PrimitiveType::MacAddress => 6,
        }
    }

    /// The type that the keyword `name` stands for, if it is a type keyword.
    pub open spec fn of_keyword(name: Seq<char>) -> Option<PrimitiveType> {
        if name == "int8"@ {
            Some(PrimitiveType::Int8)
        } else if name == "uint8"@ {
            Some(PrimitiveType::UInt8)
        } else if name == "int16"@ {
            Some(PrimitiveType::Int16)
        } else if name == "uint16"@ {
            Some(PrimitiveType::UInt16)
        } else if name == "int32"@ {
            Some(PrimitiveType::Int32)
        } else if name == "uint32"@ {
            Some(PrimitiveType::UInt32)
        } else if name == "int64"@ {
            Some(PrimitiveType::Int64)
        } else if name == "uint64"@ {
            Some(PrimitiveType::UInt64)
        } else if name == "float32"@ {
            Some(PrimitiveType::Float32)
        } else if name == "float64"@ {
            Some(PrimitiveType::Float64)
        } else {
            None
        }
    }

    /// The type that the keyword `name` stands for; `None` where `name` is
    /// not a type keyword.
    pub fn from_keyword(name: &String) -> (found: Option<PrimitiveType>)
        ensures
            found == PrimitiveType::of_keyword(name@),
    {
        if *name == String::from_str("int8") {
            Some(PrimitiveType::Int8)
        } else if *name == String::from_str("uint8") {
            Some(PrimitiveType::UInt8)
        } else if *name == String::from_str("int16") {
            Some(PrimitiveType::Int16)
        } else if *name == String::from_str("uint16") {
            Some(PrimitiveType::UInt16)
        } else if *name == String::from_str("int32") {
            Some(PrimitiveType::Int32)
        } else if *name == String::from_str("uint32") {
            Some(PrimitiveType::UInt32)
        } else if *name == String::from_str("int64") {
            Some(PrimitiveType::Int64)
        } else if *name == String::from_str("uint64") {
            Some(PrimitiveType::UInt64)
        } else if *name == String::from_str("float32") {
            Some(PrimitiveType::Float32)
        } else if *name == String::from_str("float64") {
            Some(PrimitiveType::Float64)
        } else {
            None
        }
    }
}

/// The primitive type of a field, with the array length where the field is an
/// array.
#[derive(Debug, Clone, Copy, PartialEq, Eq)]
pub enum TypeNode {
    UnsignedInteger8(Option<usize>),
    UnsignedInteger16(Option<usize>),
    UnsignedInteger32(Option<usize>),
    UnsignedInteger64(Option<usize>),
    Integer8(Option<usize>),
    Integer16(Option<usize>),
    Integer32(Option<usize>),
    Integer64(Option<usize>),
    Float32(Option<usize>),
    Float64(Option<usize>),
    MacAddress,
}

impl TypeNode {
    /// The declared array length; `None` for a scalar.
    pub open spec fn array_length(self) -> Option<usize> {
        match self {
            TypeNode::UnsignedInteger8(n) => n,
            TypeNode::UnsignedInteger16(n) => n,
            TypeNode::UnsignedInteger32(n) => n,
            TypeNode::UnsignedInteger64(n) => n,
            TypeNode::Integer8(n) => n,
            TypeNode::Integer16(n) => n,
            TypeNode::Integer32(n) => n,
            TypeNode::Integer64(n) => n,
            TypeNode::Float32(n) => n,
            TypeNode::Float64(n) => n,
            TypeNode::MacAddress => None,
        }
    }

    /// Width in bytes of one element of the type.
    pub open spec fn element_width(self) -> nat {
        match self {
            TypeNode::UnsignedInteger8(_) => 1,
            TypeNode::Integer8(_) => 1,
            TypeNode::UnsignedInteger16(_) => 2,
            TypeNode::Integer16(_) => 2,
            TypeNode::UnsignedInteger32(_) => 4,
            TypeNode::Integer32(_) => 4,
            TypeNode::UnsignedInteger64(_) => 8,
            TypeNode::Integer64(_) => 8,
            TypeNode::Float32(_) => 4,
            TypeNode::Float64(_) => 8,
            TypeNode::MacAddress => 6,
        }
    }

    /// Number of scalar slots the field expands into: the array length, or one
    /// for a scalar.
    pub open spec fn element_count(self) -> nat {
        match self.array_length() {
            Some(n) => n as nat,
            None => 1,
        }
    }

    /// Bytes that the whole field occupies on the wire.
    pub open spec fn byte_length(self) -> nat {
        self.element_width() * self.element_count()
    }

    /// The primitive type of one element.
    pub open spec fn primitive(self) -> PrimitiveType {
        match self {
            TypeNode::Integer8(_) => PrimitiveType::Int8,
            TypeNode::UnsignedInteger8(_) => PrimitiveType::UInt8,
            TypeNode::Integer16(_) => PrimitiveType::Int16,
            TypeNode::UnsignedInteger16(_) => PrimitiveType::UInt16,
            TypeNode::Integer32(_) => PrimitiveType::Int32,
            TypeNode::UnsignedInteger32(_) => PrimitiveType::UInt32,
            TypeNode::Integer64(_) => PrimitiveType::Int64,
            TypeNode::UnsignedInteger64(_) => PrimitiveType::UInt64,
            TypeNode::Float32(_) => PrimitiveType::Float32,
            TypeNode::Float64(_) => PrimitiveType::Float64,
            TypeNode::MacAddress => PrimitiveType::MacAddress,
        }
    }

    /// The field type with elements of type `primitive`: an array of `length`
    /// elements, or a scalar. A MAC address is always a scalar.
    pub open spec fn of(primitive: PrimitiveType, length: Option<usize>) -> TypeNode {
        match primitive {
            PrimitiveType::Int8 => TypeNode::Integer8(length),
            PrimitiveType::UInt8 => TypeNode::UnsignedInteger8(length),
            PrimitiveType::Int16 => TypeNode::Integer16(length),
            PrimitiveType::UInt16 => TypeNode::UnsignedInteger16(length),
            PrimitiveType::Int32 => TypeNode::Integer32(length),
            PrimitiveType::UInt32 => TypeNode::UnsignedInteger32(length),
            PrimitiveType::Int64 => TypeNode::Integer64(length),
            PrimitiveType::UInt64 => TypeNode::UnsignedInteger64(length),
            PrimitiveType::Float32 => TypeNode::Float32(length),
            PrimitiveType::Float64 => TypeNode::Float64(length),
            PrimitiveType::MacAddress => TypeNode::MacAddress,
        }
    }

    /// The primitive type of one element.
    pub fn get_primitive(&self) -> (primitive: PrimitiveType)
        ensures
            primitive == self.primitive(),
            primitive.width() == self.element_width(),
    {
        match self {
            TypeNode::Integer8(_) => PrimitiveType::Int8,
            TypeNode::UnsignedInteger8(_) => PrimitiveType::UInt8,
            TypeNode::Integer16(_) => PrimitiveType::Int16,
            TypeNode::UnsignedInteger16(_) => PrimitiveType::UInt16,
            TypeNode::Integer32(_) => PrimitiveType::Int32,
            TypeNode::UnsignedInteger32(_) => PrimitiveType::UInt32,
            TypeNode::Integer64(_) => PrimitiveType::Int64,
            TypeNode::UnsignedInteger64(_) => PrimitiveType::UInt64,
            TypeNode::Float32(_) => PrimitiveType::Float32,
            TypeNode::Float64(_) => PrimitiveType::Float64,
            TypeNode::MacAddress => PrimitiveType::MacAddress,
        }
    }

    /// The field type with elements of type `primitive`.
    pub fn from_primitive(primitive: PrimitiveType, length: Option<usize>) -> (node: TypeNode)
        ensures
            node == TypeNode::of(primitive, length),
    {
        match primitive {
            PrimitiveType::Int8 => TypeNode::Integer8(length),
            PrimitiveType::UInt8 => TypeNode::UnsignedInteger8(length),
            PrimitiveType::Int16 => TypeNode::Integer16(length),
            PrimitiveType::UInt16 => TypeNode::UnsignedInteger16(length),
            PrimitiveType::Int32 => TypeNode::Integer32(length),
            PrimitiveType::UInt32 => TypeNode::UnsignedInteger32(length),
            PrimitiveType::Int64 => TypeNode::Integer64(length),
            PrimitiveType::UInt64 => TypeNode::UnsignedInteger64(length),
            PrimitiveType::Float32 => TypeNode::Float32(length),
            PrimitiveType::Float64 => TypeNode::Float64(length),
            PrimitiveType::MacAddress => TypeNode::MacAddress,
        }
    }

    /// The declared array length; `None` for a scalar.
    pub fn get_array_length(&self) -> (n: Option<usize>)
        ensures
            n == self.array_length(),
    {
        match self {
            TypeNode::UnsignedInteger8(n) => *n,
            TypeNode::UnsignedInteger16(n) => *n,
            TypeNode::UnsignedInteger32(n) => *n,
            TypeNode::UnsignedInteger64(n) => *n,
            TypeNode::Integer8(n) => *n,
            TypeNode::Integer16(n) => *n,
            TypeNode::Integer32(n) => *n,
            TypeNode::Integer64(n) => *n,
            TypeNode::Float32(n) => *n,
            TypeNode::Float64(n) => *n,
            TypeNode::MacAddress => None,
        }
    }

    /// Number of scalar slots that the field expands into.
    pub fn get_element_count(&self) -> (n: usize)
        ensures
            n == self.element_count(),
    {
        match self.get_array_length() {
            Some(n) => n,
            None => 1,
        }
    }

    /// Width in bytes of one element of the type.
    pub fn get_type_length_bytes(&self) -> (width: usize)
        ensures
            width == self.element_width(),
            1 <= width <= 8,
    {
        match self {
            TypeNode::UnsignedInteger8(_) => 1,
            TypeNode::Integer8(_) => 1,
            TypeNode::UnsignedInteger16(_) => 2,
            TypeNode::Integer16(_) => 2,
            TypeNode::UnsignedInteger32(_) => 4,
            TypeNode::Integer32(_) => 4,
            TypeNode::UnsignedInteger64(_) => 8,
            TypeNode::Integer64(_) => 8,
            TypeNode::Float32(_) => 4,
            TypeNode::Float64(_) => 8,
            TypeNode::MacAddress => 6,
        }
    }

    /// The field's length in bytes, or `None` where it does not fit in `usize`.
    pub fn checked_length_bytes(&self) -> (length: Option<usize>)
        ensures
            length matches Some(n) ==> n == self.byte_length(),
            length is None <==> self.byte_length() > usize::MAX,
    {
        let width: usize = self.get_type_length_bytes();
        let count: usize = self.get_element_count();
        width.checked_mul(count)
    }

    /// The field's length in bytes: element width times element count.
    pub fn get_length_bytes(&self) -> (length: usize)
        requires
            self.byte_length() <= usize::MAX,
        ensures
            length == self.byte_length(),
    {
        let width: usize = self.get_type_length_bytes();
        let count: usize = self.get_element_count();
        width * count
    }
}

/// The binary operators of the expression language.
#[derive(Debug, Clone, Copy, PartialEq, Eq, Structural)]
pub enum BinaryOp {
    Plus,
    Minus,
    Mult,
    Div,
    Pow,
    Gt,
    Lt,
    Gte,
    Lte,
    Equals,
    NotEquals,
    And,
    Or,
}

/// An expression of a calculated field.
///
/// A floating-point literal is kept as its source text, a decimal numeral with
/// a fraction part.
#[derive(Debug, PartialEq, Eq)]
pub enum ExprNode {
    UnsignedInteger64Value(u64),
    Integer64Value(i64),
    Float64Value(String),
    ValueReference(String, Option<usize>),
    MacAddress,
    ParenthesizedExpr(Box<ExprNode>),
    Plus(Box<ExprNode>, Box<ExprNode>),
    Minus(Box<ExprNode>, Box<ExprNode>),
    Mult(Box<ExprNode>, Box<ExprNode>),
    Div(Box<ExprNode>, Box<ExprNode>),
    Pow(Box<ExprNode>, Box<ExprNode>),
    Gt(Box<ExprNode>, Box<ExprNode>),
    Lt(Box<ExprNode>, Box<ExprNode>),
    Gte(Box<ExprNode>, Box<ExprNode>),
    Lte(Box<ExprNode>, Box<ExprNode>),
    Equals(Box<ExprNode>, Box<ExprNode>),
    NotEquals(Box<ExprNode>, Box<ExprNode>),
    And(Box<ExprNode>, Box<ExprNode>),
    Or(Box<ExprNode>, Box<ExprNode>),
    GuardExpression(Box<ExprNode>, Box<ExprNode>, Box<ExprNode>),
    SumOf(Box<ExprNode>),
    ProductOf(Box<ExprNode>),
    ActivationRecord(String, Vec<ExprNode>),
    NoExpr,
}

/// The mathematical value of an [`ExprNode`]: names are sequences of
/// characters, and the binary operators share one constructor.
pub enum ExprView {
    Unsigned(u64),
    Signed(i64),
    Float(Seq<char>),
    Reference(Seq<char>, Option<usize>),
    MacAddress,
    Paren(Box<ExprView>),
    Binary(BinaryOp, Box<ExprView>, Box<ExprView>),
    Guard(Box<ExprView>, Box<ExprView>, Box<ExprView>),
    SumOf(Box<ExprView>),
    ProductOf(Box<ExprView>),
    Call(Seq<char>, Seq<ExprView>),
    NoExpr,
}

/// The view of an expression tree, by recursion on the tree.
pub open spec fn expr_view(e: ExprNode) -> ExprView
    decreases e,
{
    match e {
        ExprNode::UnsignedInteger64Value(v) => ExprView::Unsigned(v),
        ExprNode::Integer64Value(v) => ExprView::Signed(v),
        ExprNode::Float64Value(text) => ExprView::Float(text@),
        ExprNode::ValueReference(name, index) => ExprView::Reference(name@, index),
        ExprNode::MacAddress => ExprView::MacAddress,
        ExprNode::ParenthesizedExpr(inner) => ExprView::Paren(Box::new(expr_view(*inner))),
        ExprNode::Plus(l, r) => ExprView::Binary(
            BinaryOp::Plus,
            Box::new(expr_view(*l)),
            Box::new(expr_view(*r)),
        ),
        ExprNode::Minus(l, r) => ExprView::Binary(
            BinaryOp::Minus,
            Box::new(expr_view(*l)),
            Box::new(expr_view(*r)),
        ),
        ExprNode::Mult(l, r) => ExprView::Binary(
            BinaryOp::Mult,
            Box::new(expr_view(*l)),
            Box::new(expr_view(*r)),
        ),
        ExprNode::Div(l, r) => ExprView::Binary(
            BinaryOp::Div,
            Box::new(expr_view(*l)),
            Box::new(expr_view(*r)),
        ),
        ExprNode::Pow(l, r) => ExprView::Binary(
            BinaryOp::Pow,
            Box::new(expr_view(*l)),
            Box::new(expr_view(*r)),
        ),
        ExprNode::Gt(l, r) => ExprView::Binary(
            BinaryOp::Gt,
            Box::new(expr_view(*l)),
            Box::new(expr_view(*r)),
        ),
        ExprNode::Lt(l, r) => ExprView::Binary(
            BinaryOp::Lt,
            Box::new(expr_view(*l)),
            Box::new(expr_view(*r)),
        ),
        ExprNode::Gte(l, r) => ExprView::Binary(
            BinaryOp::Gte,
            Box::new(expr_view(*l)),
            Box::new(expr_view(*r)),
        ),
        ExprNode::Lte(l, r) => ExprView::Binary(
            BinaryOp::Lte,
            Box::new(expr_view(*l)),
            Box::new(expr_view(*r)),
        ),
        ExprNode::Equals(l, r) => ExprView::Binary(
            BinaryOp::Equals,
            Box::new(expr_view(*l)),
            Box::new(expr_view(*r)),
        ),
        ExprNode::NotEquals(l, r) => ExprView::Binary(
            BinaryOp::NotEquals,
            Box::new(expr_view(*l)),
            Box::new(expr_view(*r)),
        ),
        ExprNode::And(l, r) => ExprView::Binary(
            BinaryOp::And,
            Box::new(expr_view(*l)),
            Box::new(expr_view(*r)),
        ),
        ExprNode::Or(l, r) => ExprView::Binary(
            BinaryOp::Or,
            Box::new(expr_view(*l)),
            Box::new(expr_view(*r)),
        ),
        ExprNode::GuardExpression(c, t, o) => ExprView::Guard(
            Box::new(expr_view(*c)),
            Box::new(expr_view(*t)),
            Box::new(expr_view(*o)),
        ),
        ExprNode::SumOf(inner) => ExprView::SumOf(Box::new(expr_view(*inner))),
        ExprNode::ProductOf(inner) => ExprView::ProductOf(Box::new(expr_view(*inner))),
        ExprNode::ActivationRecord(name, args) => ExprView::Call(
            name@,
            Seq::new(
                args.len() as nat,
                |i: int| if 0 <= i < args.len() { expr_view(args[i]) } else { ExprView::NoExpr },
            ),
        ),
        ExprNode::NoExpr => ExprView::NoExpr,
    }
}

impl View for ExprNode {
    type V = ExprView;

    open spec fn view(&self) -> ExprView {
        expr_view(*self)
    }
}

impl Clone for ExprNode {
    fn clone(&self) -> (copy: ExprNode)
        ensures
            copy@ == self@,
    {
        self.deep_clone()
    }
}

/// The views of a sequence of expressions, element by element.
pub open spec fn expr_views(args: Seq<ExprNode>) -> Seq<ExprView> {
    Seq::new(args.len(), |i: int| args[i]@)
}

impl ExprNode {
    /// The node that applies `op` to `left` and `right`.
    pub fn binary(op: BinaryOp, left: ExprNode, right: ExprNode) -> (node: ExprNode)
        ensures
            node@ == ExprView::Binary(op, Box::new(left@), Box::new(right@)),
    {
        match op {
            BinaryOp::Plus => ExprNode::Plus(Box::new(left), Box::new(right)),
            BinaryOp::Minus => ExprNode::Minus(Box::new(left), Box::new(right)),
            BinaryOp::Mult => ExprNode::Mult(Box::new(left), Box::new(right)),
            BinaryOp::Div => ExprNode::Div(Box::new(left), Box::new(right)),
            BinaryOp::Pow => ExprNode::Pow(Box::new(left), Box::new(right)),
            BinaryOp::Gt => ExprNode::Gt(Box::new(left), Box::new(right)),
            BinaryOp::Lt => ExprNode::Lt(Box::new(left), Box::new(right)),
            BinaryOp::Gte => ExprNode::Gte(Box::new(left), Box::new(right)),
            BinaryOp::Lte => ExprNode::Lte(Box::new(left), Box::new(right)),
            BinaryOp::Equals => ExprNode::Equals(Box::new(left), Box::new(right)),
            BinaryOp::NotEquals => ExprNode::NotEquals(Box::new(left), Box::new(right)),
            BinaryOp::And => ExprNode::And(Box::new(left), Box::new(right)),
            BinaryOp::Or => ExprNode::Or(Box::new(left), Box::new(right)),
        }
    }

    /// The call of the intrinsic `name` on `args`.
    pub fn call(name: String, args: Vec<ExprNode>) -> (node: ExprNode)
        ensures
            node@ == ExprView::Call(name@, expr_views(args@)),
    {
        let node = ExprNode::ActivationRecord(name, args);
        assert(node@->Call_1 =~= expr_views(args@));
        node
    }

    /// A copy of the tree with the same view.
    pub fn deep_clone(&self) -> (copy: ExprNode)
        ensures
            copy@ == self@,
        decreases self,
    {
        match self {
            ExprNode::UnsignedInteger64Value(v) => ExprNode::UnsignedInteger64Value(*v),
            ExprNode::Integer64Value(v) => ExprNode::Integer64Value(*v),
            ExprNode::Float64Value(text) => ExprNode::Float64Value(text.clone()),
            ExprNode::ValueReference(name, index) => ExprNode::ValueReference(name.clone(), *index),
            ExprNode::MacAddress => ExprNode::MacAddress,
            ExprNode::ParenthesizedExpr(inner) => ExprNode::ParenthesizedExpr(
                Box::new(inner.deep_clone()),
            ),
            ExprNode::Plus(l, r) => ExprNode::Plus(
                Box::new(l.deep_clone()),
                Box::new(r.deep_clone()),
            ),
            ExprNode::Minus(l, r) => ExprNode::Minus(
                Box::new(l.deep_clone()),
                Box::new(r.deep_clone()),
            ),
            ExprNode::Mult(l, r) => ExprNode::Mult(
                Box::new(l.deep_clone()),
                Box::new(r.deep_clone()),
            ),
            ExprNode::Div(l, r) => ExprNode::Div(
                Box::new(l.deep_clone()),
                Box::new(r.deep_clone()),
            ),
            ExprNode::Pow(l, r) => ExprNode::Pow(
                Box::new(l.deep_clone()),
                Box::new(r.deep_clone()),
            ),
            ExprNode::Gt(l, r) => ExprNode::Gt(
                Box::new(l.deep_clone()),
                Box::new(r.deep_clone()),
            ),
            ExprNode::Lt(l, r) => ExprNode::Lt(
                Box::new(l.deep_clone()),
                Box::new(r.deep_clone()),
            ),
            ExprNode::Gte(l, r) => ExprNode::Gte(
                Box::new(l.deep_clone()),
                Box::new(r.deep_clone()),
            ),
            ExprNode::Lte(l, r) => ExprNode::Lte(
                Box::new(l.deep_clone()),
                Box::new(r.deep_clone()),
            ),
            ExprNode::Equals(l, r) => ExprNode::Equals(
                Box::new(l.deep_clone()),
                Box::new(r.deep_clone()),
            ),
            ExprNode::NotEquals(l, r) => ExprNode::NotEquals(
                Box::new(l.deep_clone()),
                Box::new(r.deep_clone()),
            ),
            ExprNode::And(l, r) => ExprNode::And(
                Box::new(l.deep_clone()),
                Box::new(r.deep_clone()),
            ),
            ExprNode::Or(l, r) => ExprNode::Or(
                Box::new(l.deep_clone()),
                Box::new(r.deep_clone()),
            ),
            ExprNode::GuardExpression(c, t, o) => ExprNode::GuardExpression(
                Box::new(c.deep_clone()),
                Box::new(t.deep_clone()),
                Box::new(o.deep_clone()),
            ),
            ExprNode::SumOf(inner) => ExprNode::SumOf(Box::new(inner.deep_clone())),
            ExprNode::ProductOf(inner) => ExprNode::ProductOf(Box::new(inner.deep_clone())),
            ExprNode::ActivationRecord(name, args) => {
                let mut copies: Vec<ExprNode> = Vec::new();
                let mut i: usize = 0;
                while i < args.len()
                    invariant
                        i <= args.len(),
                        copies.len() == i,
                        forall|j: int| 0 <= j < i ==> copies[j]@ == args[j]@,
                        decreases_to!(self => args),
                    decreases args.len() - i,
                {
                    copies.push(args[i].deep_clone());
                    i += 1;
                }
                let copy = ExprNode::ActivationRecord(name.clone(), copies);
                assert(copy@->Call_1 =~= self@->Call_1);
                copy
            },
            ExprNode::NoExpr => ExprNode::NoExpr,
        }
    }
}

/// A declared field: its identifier and its type.
#[derive(Debug, Clone, PartialEq, Eq)]
pub struct TypeExpr {
    pub id: String,
    pub expr: TypeNode,
}

/// The mathematical value of a [`TypeExpr`].
pub struct TypeExprView {
    pub id: Seq<char>,
    pub expr: TypeNode,
}

impl View for TypeExpr {
    type V = TypeExprView;

    open spec fn view(&self) -> TypeExprView {
        TypeExprView { id: self.id@, expr: self.expr }
    }
}

/// A field whose value is computed from other fields when a packet is read.
///
/// Where `guard_expr` is present it is a conditional whose first branch
/// repeats `expr`, and it gives the field's value.
#[derive(Debug, Clone, PartialEq, Eq)]
pub struct CalculatedField {
    pub name: String,
    pub data_type: String,
    pub expr: Box<ExprNode>,
    pub guard_expr: Option<Box<ExprNode>>,
}

/// The mathematical value of a [`CalculatedField`].
pub struct CalculatedFieldView {
    pub name: Seq<char>,
    pub data_type: Seq<char>,
    pub expr: ExprView,
    pub guard_expr: Option<ExprView>,
}

impl View for CalculatedField {
    type V = CalculatedFieldView;

    open spec fn view(&self) -> CalculatedFieldView {
        CalculatedFieldView {
            name: self.name@,
            data_type: self.data_type@,
            expr: self.expr@,
            guard_expr: match self.guard_expr {
                Some(g) => Some(g@),
                None => None,
            },
        }
    }
}

/// One packet definition: its name, its fields in wire order and its
/// calculated fields.
#[derive(Debug, Clone, PartialEq, Eq)]
pub struct PacketExpr {
    pub name: String,
    pub fields: Vec<TypeExpr>,
    pub calculated_fields: Vec<CalculatedField>,
}

/// The mathematical value of a [`PacketExpr`].
pub struct PacketExprView {
    pub name: Seq<char>,
    pub fields: Seq<TypeExprView>,
    pub calculated_fields: Seq<CalculatedFieldView>,
}

impl View for PacketExpr {
    type V = PacketExprView;

    open spec fn view(&self) -> PacketExprView {
        PacketExprView {
            name: self.name@,
            fields: Seq::new(self.fields.len() as nat, |i: int| self.fields[i]@),
            calculated_fields: Seq::new(
                self.calculated_fields.len() as nat,
                |i: int| self.calculated_fields[i]@,
            ),
        }
    }
}

impl PacketExprView {
    /// The types of the fields, in declared order.
    pub open spec fn field_types(self) -> Seq<TypeNode> {
        Seq::new(self.fields.len(), |i: int| self.fields[i].expr)
    }

    /// Size of the packet on the wire: the sum of the byte lengths of its
    /// fields.
    pub open spec fn total_length(self) -> nat {
        total_length(self.field_types())
    }
}

impl PacketExpr {
    /// Size of the packet on the wire: the sum of the byte lengths of its
    /// fields. Calculated fields take no room.
    pub fn get_total_length(&self) -> (length: usize)
        requires
            self@.total_length() <= usize::MAX,
        ensures
            length == self@.total_length(),
    {
        let ghost types = self@.field_types();
        let mut result: usize = 0;
        let mut i: usize = 0;
        while i < self.fields.len()
            invariant
                i <= self.fields.len(),
                types == self@.field_types(),
                result == total_length(types.take(i as int)),
                total_length(types) <= usize::MAX,
            decreases self.fields.len() - i,
        {
            proof {
                crate::layout::lemma_total_length_step(types, i as int);
                crate::layout::lemma_total_length_monotonic(types, i as int + 1);
            }
            result = result + self.fields[i].expr.get_length_bytes();
            i += 1;
        }
        assert(types.take(i as int) =~= types);
        result
    }
}

/// The packets of one definition file, in source order.
#[derive(Debug, Clone, PartialEq, Eq)]
pub struct PacketExprList {
    pub packets: Vec<PacketExpr>,
}

impl View for PacketExprList {
    type V = Seq<PacketExprView>;

    open spec fn view(&self) -> Seq<PacketExprView> {
        Seq::new(self.packets.len() as nat, |i: int| self.packets[i]@)
    }
}

} // verus!
