//! The value algebra: the tagged union of concrete scalars, symbolic
//! variables and deferred equations, together with the combination rules
//! that implement each binary operator over every pairing of variants.

use vstd::prelude::*;

verus! {

/// The binary operators of the algebra. Every operator is strictly binary,
/// and each carries a fixed textual tag used by rendering.
#[derive(Clone, Copy, PartialEq, Eq, Structural, Debug)]
pub enum Operation {
    ADD,
    SUB,
    MUL,
    DIV,
    AND,
    OR,
    XOR,
}

/// Why a constant fold failed: the scalar operation was undefined for the
/// two concrete operands it was applied to. Folding is the only place where
/// a scalar operation is evaluated, so this is the only error the algebra
/// can report.
#[derive(Clone, Copy, PartialEq, Eq, Structural, Debug)]
pub enum ArithmeticError {
    /// Division with a zero divisor.
    DivisionByZero,
    /// The exact result falls outside the range of the scalar type.
    Overflow,
}

/// The typed scalar contract: what a concrete payload type must offer so
/// that `Value<T>` can fold it, size it and render it. The scalar operation
/// may be partial; `scalar_defined` says where it is defined, and
/// `scalar_apply` fails exactly on the undefined inputs.
pub trait ValueT: Sized + Copy {
    /// Whether the scalar counterpart of `op` is defined on `(self, other)`.
    spec fn scalar_defined(self, other: Self, op: Operation) -> bool;

    /// The scalar result of `op` on `(self, other)`, meaningful where
    /// `scalar_defined` holds.
    spec fn scalar_eval(self, other: Self, op: Operation) -> Self;

    /// The error reported where `op` is undefined on `(self, other)`.
    spec fn scalar_error(self, other: Self, op: Operation) -> ArithmeticError;

    /// The textual form of the scalar.
    spec fn spec_text(self) -> Seq<char>;

    /// The storage size of the scalar type, in bytes.
    spec fn spec_byte_size() -> nat;

    /// Evaluate the scalar counterpart of `op`, failing exactly where it is
    /// undefined.
    fn scalar_apply(self, other: Self, op: Operation) -> (r: Result<Self, ArithmeticError>)
        ensures
            self.scalar_defined(other, op) ==> r == Ok::<Self, ArithmeticError>(
                self.scalar_eval(other, op),
            ),
            !self.scalar_defined(other, op) ==> r == Err::<Self, ArithmeticError>(
                self.scalar_error(other, op),
            ),
    ;

    /// The storage size of the scalar type, in bytes. Small enough that the
    /// bit width `8 * byte_size()` fits in a `usize`.
    fn byte_size() -> (r: usize)
        ensures
            r as nat == Self::spec_byte_size(),
            8 * r <= usize::MAX,
    ;

    /// Render the scalar as its natural textual form.
    fn render_scalar(self) -> (r: String)
        ensures
            r@ == self.spec_text(),
    ;
}

/// A fully known quantity.
#[derive(Debug)]
pub struct ConcreteValue<T: ValueT> {
    pub value: T,
}

/// A free unknown, identified by a name and carrying the bit width of `T`,
/// fixed at construction time from `T`'s storage size.
#[derive(Debug)]
pub struct SymbolicVariable<T: ValueT> {
    pub name: String,
    pub bit_width: usize,
    pub phantom: core::marker::PhantomData<T>,
}

/// A deferred binary computation over an ordered pair of operands. The
/// operand pair is exactly two values; every operator of the algebra is
/// strictly binary.
#[derive(Debug)]
pub struct SymbolicEquation<T: ValueT> {
    pub op: Operation,
    pub left: Box<Value<T>>,
    pub right: Box<Value<T>>,
}

/// A program value: fully known, a named unknown, or a compound expression
/// built from operations over other such values.
#[derive(Debug)]
pub enum Value<T: ValueT> {
    Concrete(ConcreteValue<T>),
    Variable(SymbolicVariable<T>),
    Equation(SymbolicEquation<T>),
}

impl<T: ValueT> ConcreteValue<T> {
    /// Wrap a scalar into a concrete value.
    pub fn new(value: T) -> (r: Value<T>)
        ensures
            (r matches Value::Concrete(c) && c.value == value),
    {
        Value::Concrete(ConcreteValue { value })
    }
}

/// Wrap a scalar into a concrete value.
pub fn get_concrete<T: ValueT>(value: T) -> (r: Value<T>)
    ensures
        (r matches Value::Concrete(c) && c.value == value),
{
    ConcreteValue::new(value)
}

impl<T: ValueT> SymbolicVariable<T> {
    /// Name a fresh unknown. Its bit width is eight times the byte size of
    /// `T`, fixed here at construction.
    pub fn new(name: String) -> (r: Value<T>)
        ensures
            (r matches Value::Variable(v) && v.name == name && v.bit_width as nat == 8
                * T::spec_byte_size()),
    {
        let bytes = T::byte_size();
        Value::Variable(
            SymbolicVariable { name, bit_width: 8 * bytes, phantom: core::marker::PhantomData },
        )
    }
}

/// Name a fresh unknown over the scalar type `T`.
pub fn get_symbolic<T: ValueT>(name: String) -> (r: Value<T>)
    ensures
        (r matches Value::Variable(v) && v.name == name && v.bit_width as nat == 8
            * T::spec_byte_size()),
{
    SymbolicVariable::new(name)
}

impl<T: ValueT> SymbolicEquation<T> {
    /// Build an equation node over an ordered pair of operands. Operand
    /// order is preserved exactly as given.
    pub fn new(op: Operation, left: Value<T>, right: Value<T>) -> (r: Value<T>)
        ensures
            (r matches Value::Equation(e) && e.op == op && *e.left == left && *e.right == right),
    {
        Value::Equation(SymbolicEquation { op, left: Box::new(left), right: Box::new(right) })
    }
}

/// The combination policy shared by all seven operators: two concrete
/// operands fold into a concrete result (or fail where the scalar operation
/// is undefined); every other pairing builds an equation node that keeps
/// both operands unchanged, in the order given.
pub open spec fn combines_to<T: ValueT>(
    lhs: Value<T>,
    rhs: Value<T>,
    op: Operation,
    r: Result<Value<T>, ArithmeticError>,
) -> bool {
    match (lhs, rhs) {
        (Value::Concrete(a), Value::Concrete(b)) => if a.value.scalar_defined(b.value, op) {
            r matches Ok(v) && v matches Value::Concrete(c) && c.value == a.value.scalar_eval(
                b.value,
                op,
            )
        } else {
            r == Err::<Value<T>, ArithmeticError>(a.value.scalar_error(b.value, op))
        },
        _ => r matches Ok(v) && v matches Value::Equation(e) && e.op == op && *e.left == lhs
            && *e.right == rhs,
    }
}

impl<T: ValueT> Value<T> {
    /// Combine two values under `op`: fold where both are concrete,
    /// otherwise build an equation node over the pair, left then right.
    pub fn combine(self, other: Value<T>, op: Operation) -> (r: Result<Value<T>, ArithmeticError>)
        ensures
            combines_to(self, other, op, r),
    {
        match (self, other) {
            (Value::Concrete(a), Value::Concrete(b)) => match a.value.scalar_apply(b.value, op) {
                Ok(v) => Ok(Value::Concrete(ConcreteValue { value: v })),
                Err(e) => Err(e),
            },
            (lhs, rhs) => Ok(
                Value::Equation(
                    SymbolicEquation { op, left: Box::new(lhs), right: Box::new(rhs) },
                ),
            ),
        }
    }

    /// Addition over the algebra.
    pub fn add(self, other: Value<T>) -> (r: Result<Value<T>, ArithmeticError>)
        ensures
            combines_to(self, other, Operation::ADD, r),
    {
        self.combine(other, Operation::ADD)
    }

    /// Subtraction over the algebra.
    pub fn sub(self, other: Value<T>) -> (r: Result<Value<T>, ArithmeticError>)
        ensures
            combines_to(self, other, Operation::SUB, r),
    {
        self.combine(other, Operation::SUB)
    }

    /// Multiplication over the algebra.
    pub fn mul(self, other: Value<T>) -> (r: Result<Value<T>, ArithmeticError>)
        ensures
            combines_to(self, other, Operation::MUL, r),
    {
        self.combine(other, Operation::MUL)
    }

    /// Division over the algebra. The scalar division is evaluated only
    /// where both operands are concrete; any other pairing always succeeds
    /// and builds an equation node.
    pub fn div(self, other: Value<T>) -> (r: Result<Value<T>, ArithmeticError>)
        ensures
            combines_to(self, other, Operation::DIV, r),
    {
        self.combine(other, Operation::DIV)
    }

    /// Bitwise conjunction over the algebra.
    pub fn bitand(self, other: Value<T>) -> (r: Result<Value<T>, ArithmeticError>)
        ensures
            combines_to(self, other, Operation::AND, r),
    {
        self.combine(other, Operation::AND)
    }

    /// Bitwise disjunction over the algebra.
    pub fn bitor(self, other: Value<T>) -> (r: Result<Value<T>, ArithmeticError>)
        ensures
            combines_to(self, other, Operation::OR, r),
    {
        self.combine(other, Operation::OR)
    }

    /// Bitwise exclusive disjunction over the algebra.
    pub fn bitxor(self, other: Value<T>) -> (r: Result<Value<T>, ArithmeticError>)
        ensures
            combines_to(self, other, Operation::XOR, r),
    {
        self.combine(other, Operation::XOR)
    }
}

/// The operand sequence of an equation node: its ordered pair, left first.
pub open spec fn spec_operands<T: ValueT>(e: SymbolicEquation<T>) -> Seq<Value<T>> {
    seq![*e.left, *e.right]
}

/// Tree shape: every equation node has exactly two operands, whatever its
/// operator.
pub proof fn lemma_equation_binary<T: ValueT>(e: SymbolicEquation<T>)
    ensures
        spec_operands(e).len() == 2,
{
}

/// Folding correctness: where both operands are concrete and the scalar
/// counterpart of `op` is defined on their payloads, combining yields
/// exactly the concrete value of the scalar result.
pub proof fn lemma_folding_correct<T: ValueT>(
    a: T,
    b: T,
    op: Operation,
    r: Result<Value<T>, ArithmeticError>,
)
    requires
        a.scalar_defined(b, op),
        combines_to(
            Value::Concrete(ConcreteValue { value: a }),
            Value::Concrete(ConcreteValue { value: b }),
            op,
            r,
        ),
    ensures
        (r matches Ok(v) && v matches Value::Concrete(c) && c.value == a.scalar_eval(b, op)),
{
}

/// Variant preservation: for every pairing other than concrete with
/// concrete, combining succeeds with an equation node whose two operands
/// are the original left and right inputs, unchanged and in that order.
pub proof fn lemma_variant_preserved<T: ValueT>(
    lhs: Value<T>,
    rhs: Value<T>,
    op: Operation,
    r: Result<Value<T>, ArithmeticError>,
)
    requires
        !(lhs is Concrete && rhs is Concrete),
        combines_to(lhs, rhs, op, r),
    ensures
        (r matches Ok(v) && v matches Value::Equation(e) && e.op == op && *e.left == lhs
            && *e.right == rhs),
{
}

impl<T: ValueT> Clone for Value<T> {
    /// A deep copy, equal to the original.
    fn clone(&self) -> (r: Self)
        ensures
            r == *self,
        decreases self,
    {
        match self {
            Value::Concrete(c) => Value::Concrete(ConcreteValue { value: c.value }),
            Value::Variable(v) => Value::Variable(
                SymbolicVariable {
                    name: v.name.clone(),
                    bit_width: v.bit_width,
                    phantom: core::marker::PhantomData,
                },
            ),
            Value::Equation(e) => Value::Equation(
                SymbolicEquation {
                    op: e.op,
                    left: Box::new((&*e.left).clone()),
                    right: Box::new((&*e.right).clone()),
                },
            ),
        }
    }
}

} // verus!
