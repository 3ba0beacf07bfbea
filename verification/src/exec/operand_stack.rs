//! The operand stack.

use vstd::prelude::*;
use crate::exec::arithmetic::{check_type, has_type};
use crate::exec::error::ExecutionError;
use crate::exec::numeric::{
    i32_of,
    i32_to_u32,
    i64_of,
    i64_to_u64,
    u32_of,
    u32_to_i32,
    u64_of,
    u64_to_i64,
};
use crate::exec::types::Value;
use crate::parse::types::Type;

verus! {

/// A type that a value of the operand stack can be taken as, and that can be
/// put on the stack.
pub trait Operand: Sized {
    /// The type tag of the stack values that this type is taken from.
    spec fn expected() -> Type;

    /// This type's reading of a stack value; `None` for a value of another
    /// type.
    spec fn from_value_spec(value: Value) -> Option<Self>;

    /// The stack value that stands for `self`.
    spec fn into_value_spec(self) -> Value;

    /// Tells the type tag of the stack values that this type is taken from.
    fn expected_type() -> (t: Type)
        ensures
            t == Self::expected(),
    ;

    /// Takes a stack value as this type.
    fn from_value(value: Value) -> (r: Option<Self>)
        ensures
            r == Self::from_value_spec(value),
    ;

    /// Turns `self` into a stack value.
    fn into_value(self) -> (r: Value)
        ensures
            r == self.into_value_spec(),
    ;
}

impl Operand for Value {
    open spec fn expected() -> Type {
        Type::Var
    }

    open spec fn from_value_spec(value: Value) -> Option<Value> {
        Some(value)
    }

    open spec fn into_value_spec(self) -> Value {
        self
    }

    fn expected_type() -> (t: Type) {
        Type::Var
    }

    fn from_value(value: Value) -> (r: Option<Value>) {
        Some(value)
    }

    fn into_value(self) -> (r: Value) {
        self
    }
}

impl Operand for i32 {
    open spec fn expected() -> Type {
        Type::I32
    }

    open spec fn from_value_spec(value: Value) -> Option<i32> {
        match value {
            Value::I32(v) => Some(v),
            _ => None,
        }
    }

    open spec fn into_value_spec(self) -> Value {
        Value::I32(self)
    }

    fn expected_type() -> (t: Type) {
        Type::I32
    }

    fn from_value(value: Value) -> (r: Option<i32>) {
        match value {
            Value::I32(v) => Some(v),
            _ => None,
        }
    }

    fn into_value(self) -> (r: Value) {
        Value::I32(self)
    }
}

impl Operand for u32 {
    open spec fn expected() -> Type {
        Type::I32
    }

    open spec fn from_value_spec(value: Value) -> Option<u32> {
        match value {
            Value::I32(v) => Some(u32_of(v)),
            _ => None,
        }
    }

    open spec fn into_value_spec(self) -> Value {
        Value::I32(i32_of(self))
    }

    fn expected_type() -> (t: Type) {
        Type::I32
    }

    fn from_value(value: Value) -> (r: Option<u32>) {
        match value {
            Value::I32(v) => Some(i32_to_u32(v)),
            _ => None,
        }
    }

    fn into_value(self) -> (r: Value) {
        Value::I32(u32_to_i32(self))
    }
}

impl Operand for i64 {
    open spec fn expected() -> Type {
        Type::I64
    }

    open spec fn from_value_spec(value: Value) -> Option<i64> {
        match value {
            Value::I64(v) => Some(v),
            _ => None,
        }
    }

    open spec fn into_value_spec(self) -> Value {
        Value::I64(self)
    }

    fn expected_type() -> (t: Type) {
        Type::I64
    }

    fn from_value(value: Value) -> (r: Option<i64>) {
        match value {
            Value::I64(v) => Some(v),
            _ => None,
        }
    }

    fn into_value(self) -> (r: Value) {
        Value::I64(self)
    }
}

impl Operand for u64 {
    open spec fn expected() -> Type {
        Type::I64
    }

    open spec fn from_value_spec(value: Value) -> Option<u64> {
        match value {
            Value::I64(v) => Some(u64_of(v)),
            _ => None,
        }
    }

    open spec fn into_value_spec(self) -> Value {
        Value::I64(i64_of(self))
    }

    fn expected_type() -> (t: Type) {
        Type::I64
    }

    fn from_value(value: Value) -> (r: Option<u64>) {
        match value {
            Value::I64(v) => Some(i64_to_u64(v)),
            _ => None,
        }
    }

    fn into_value(self) -> (r: Value) {
        Value::I64(u64_to_i64(self))
    }
}

impl Operand for usize {
    open spec fn expected() -> Type {
        Type::I64
    }

    open spec fn from_value_spec(value: Value) -> Option<usize> {
        match value {
            Value::I64(v) => Some(u64_of(v) as usize),
            _ => None,
        }
    }

    open spec fn into_value_spec(self) -> Value {
        Value::I64(i64_of(self as u64))
    }

    fn expected_type() -> (t: Type) {
        Type::I64
    }

    fn from_value(value: Value) -> (r: Option<usize>) {
        match value {
            Value::I64(v) => Some(
                #[verifier::truncate]
                (i64_to_u64(v) as usize),
            ),
            _ => None,
        }
    }

    fn into_value(self) -> (r: Value) {
        Value::I64(u64_to_i64(self as u64))
    }
}

/// The stack of values that the instructions work on.  The last value is the
/// top.
#[derive(Debug, Default, PartialEq, Eq)]
pub struct OperandStack(pub Vec<Value>);

impl View for OperandStack {
    type V = Seq<Value>;

    open spec fn view(&self) -> Seq<Value> {
        self.0@
    }
}

/// What taking a value as `T` from the stack `stack` gives: the value, or
/// the error for an empty stack or for a value of another type.
pub open spec fn pop_result<T: Operand>(stack: Seq<Value>) -> Result<T, ExecutionError> {
    if stack.len() == 0 {
        Err(ExecutionError::PopOnEmptyOperandStack)
    } else {
        match T::from_value_spec(stack.last()) {
            Some(value) => Ok(value),
            None => Err(ExecutionError::StackTypeError { expected: T::expected(), got: stack.last() }),
        }
    }
}

/// The stack that taking a value from `stack` leaves: `stack` without its
/// top, also where the top had another type than was asked for.
pub open spec fn pop_rest(stack: Seq<Value>) -> Seq<Value> {
    if stack.len() == 0 {
        stack
    } else {
        stack.drop_last()
    }
}

impl OperandStack {
    /// The empty stack.
    pub fn new() -> (r: OperandStack)
        ensures
            r@ == Seq::<Value>::empty(),
    {
        OperandStack(Vec::new())
    }

    /// Puts `value` on the stack.
    pub fn push<T: Operand>(&mut self, value: T)
        ensures
            final(self)@ == old(self)@.push(value.into_value_spec()),
    {
        self.0.push(value.into_value());
    }

    /// Takes the top of the stack as a `T`.  An `I32` can be taken as `i32`
    /// or as `u32`, an `I64` as `i64` or as `u64`; the bits are the same.
    pub fn pop<T: Operand>(&mut self) -> (r: Result<T, ExecutionError>)
        ensures
            r == pop_result::<T>(old(self)@),
            final(self)@ == pop_rest(old(self)@),
    {
        match self.0.pop() {
            Some(value) => match T::from_value(value) {
                Some(taken) => Ok(taken),
                None => Err(
                    ExecutionError::StackTypeError { expected: T::expected_type(), got: value },
                ),
            },
            None => Err(ExecutionError::PopOnEmptyOperandStack),
        }
    }

    /// The number of values on the stack.
    pub fn len(&self) -> (n: usize)
        ensures
            n == self@.len(),
    {
        self.0.len()
    }

    /// The values on the stack, the top last.
    pub fn values(&self) -> (r: &Vec<Value>)
        ensures
            r@ == self@,
    {
        &self.0
    }
}

/// The top of `stack` as a value of the type `t`, or the error for an empty
/// stack or for a top of another type.
pub open spec fn typed_top(stack: Seq<Value>, t: Type) -> Result<Value, ExecutionError> {
    if stack.len() == 0 {
        Err(ExecutionError::PopOnEmptyOperandStack)
    } else if has_type(stack.last(), t) {
        Ok(stack.last())
    } else {
        Err(ExecutionError::StackTypeError { expected: t, got: stack.last() })
    }
}

impl OperandStack {
    /// Takes the top of the stack, which must have the type `t`.
    pub fn pop_typed(&mut self, t: Type) -> (r: Result<Value, ExecutionError>)
        ensures
            r == typed_top(old(self)@, t),
            final(self)@ == pop_rest(old(self)@),
    {
        match self.0.pop() {
            Some(value) => if check_type(value, t) {
                Ok(value)
            } else {
                Err(ExecutionError::StackTypeError { expected: t, got: value })
            },
            None => Err(ExecutionError::PopOnEmptyOperandStack),
        }
    }
}

} // verus!
